//! Command grammar, callback payload codec and step-wise dispatcher of a
//! watch-list chat bot.
pub mod decimal;
pub mod text;
pub mod command;
pub mod response;
pub mod dispatch;
