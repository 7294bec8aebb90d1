//! The dispatcher: routes an incoming message or callback to its workflow and
//! runs each workflow as a sequence of steps. Every step names one call to a
//! collaborator (the chat transport, the remote service, the user store); the
//! caller makes it and hands its outcome back to [`Stage::resume`].
use vstd::prelude::*;
use crate::command::{
    decode_view, message_command_of, parse_message_command, parse_query_command, MessageCommand,
    QueryCommand, QueryView,
};
use crate::decimal::{decimal, push_decimal, push_signed_decimal, signed_decimal};
use crate::response::{
    detail_is_showable, detail_ok, detail_response, detail_response_view, list_response,
    list_response_view, page_is_showable, page_ok, progress_response, progress_response_view,
    EntryDetail, EntryPage, Response, ResponseView,
};
use crate::text::push_text;

verus! {

/// A chat message as the transport delivers it.
#[derive(Debug, Clone, PartialEq, Eq)]
pub struct Message {
    pub message_id: Option<i64>,
    pub chat_id: Option<i64>,
    pub sender_id: Option<i64>,
    pub text: Option<String>,
}

/// A press on an inline button.
#[derive(Debug, Clone, PartialEq, Eq)]
pub struct CallbackQuery {
    pub id: String,
    pub sender_id: i64,
    pub data: Option<String>,
    /// The message that holds the button; absent once it has expired.
    pub message: Option<Message>,
}

/// Why a workflow ended without doing its work.
#[derive(Debug, Clone, Copy, PartialEq, Eq, Structural)]
pub enum HandlerError {
    /// The message lacks its chat, its sender or its id.
    InvalidMessage,
    /// The callback no longer refers to a message.
    StaleInteraction,
    /// A collaborator reported a failure.
    CollaboratorFailure,
    /// The remote service returned ids or counts that cannot be shown.
    MalformedRemoteData,
    /// An outcome arrived that the current step did not ask for.
    UnexpectedOutcome,
}

/// What the caller is asked to do next.
#[derive(Debug, PartialEq, Eq)]
#[allow(inconsistent_fields)]
pub enum Action {
    /// Look up the remote subject id of a chat user.
    LookupSubject { sender_id: i64 },
    /// Look up the stored token of a chat user for a subject.
    LookupToken { sender_id: i64, list_subject_id: i64 },
    /// Fetch the page at `offset` of a subject's entries.
    FetchEntries { list_subject_id: i64, offset: i64 },
    /// Fetch one entry of a subject's list.
    FetchDetail { list_subject_id: i64, entry_subject_id: i64 },
    /// Record watch progress on a list entry.
    SubmitProgress {
        token: String,
        list_entry_id: String,
        progress: i64,
        entry_subject_id: String,
    },
    /// Refresh all known users against the remote service.
    RefreshUsers,
    /// Send a new message.
    Send { chat_id: i64, response: Response },
    /// Replace the text and keyboard of an existing message.
    Edit { message_id: i64, chat_id: i64, response: Response },
    /// Answer a callback, with an optional notice; `show_alert` asks for it
    /// as an alert the user must dismiss.
    Answer { callback_id: String, alert: Option<String>, show_alert: bool },
    /// The workflow is over.
    Finish { result: Result<(), HandlerError> },
}

#[allow(inconsistent_fields)]
pub enum ActionView {
    LookupSubject { sender_id: i64 },
    LookupToken { sender_id: i64, list_subject_id: i64 },
    FetchEntries { list_subject_id: i64, offset: i64 },
    FetchDetail { list_subject_id: i64, entry_subject_id: i64 },
    SubmitProgress {
        token: Seq<char>,
        list_entry_id: Seq<char>,
        progress: i64,
        entry_subject_id: Seq<char>,
    },
    RefreshUsers,
    Send { chat_id: i64, response: ResponseView },
    Edit { message_id: i64, chat_id: i64, response: ResponseView },
    Answer { callback_id: Seq<char>, alert: Option<Seq<char>>, show_alert: bool },
    Finish { result: Result<(), HandlerError> },
}

pub open spec fn opt_view(s: Option<String>) -> Option<Seq<char>> {
    match s {
        Some(t) => Some(t@),
        None => None,
    }
}

impl View for Action {
    type V = ActionView;

    open spec fn view(&self) -> ActionView {
        match self {
            Action::LookupSubject { sender_id } => ActionView::LookupSubject {
                sender_id: *sender_id,
            },
            Action::LookupToken { sender_id, list_subject_id } => ActionView::LookupToken {
                sender_id: *sender_id,
                list_subject_id: *list_subject_id,
            },
            Action::FetchEntries { list_subject_id, offset } => ActionView::FetchEntries {
                list_subject_id: *list_subject_id,
                offset: *offset,
            },
            Action::FetchDetail { list_subject_id, entry_subject_id } => ActionView::FetchDetail {
                list_subject_id: *list_subject_id,
                entry_subject_id: *entry_subject_id,
            },
            Action::SubmitProgress { token, list_entry_id, progress, entry_subject_id } =>
                ActionView::SubmitProgress {
                token: token@,
                list_entry_id: list_entry_id@,
                progress: *progress,
                entry_subject_id: entry_subject_id@,
            },
            Action::RefreshUsers => ActionView::RefreshUsers,
            Action::Send { chat_id, response } => ActionView::Send {
                chat_id: *chat_id,
                response: response@,
            },
            Action::Edit { message_id, chat_id, response } => ActionView::Edit {
                message_id: *message_id,
                chat_id: *chat_id,
                response: response@,
            },
            Action::Answer { callback_id, alert, show_alert } => ActionView::Answer {
                callback_id: callback_id@,
                alert: opt_view(*alert),
                show_alert: *show_alert,
            },
            Action::Finish { result } => ActionView::Finish { result: *result },
        }
    }
}

/// What a collaborator reported for the last action.
#[derive(Debug, Clone, PartialEq, Eq)]
pub enum Outcome {
    SubjectId(Option<i64>),
    Token(Option<String>),
    Entries(EntryPage),
    Detail(EntryDetail),
    ProgressSubmitted,
    UsersRefreshed(u64),
    /// A message was sent or edited, or a callback answered.
    Delivered,
    Failed,
}

/// Where a workflow stands: which outcome it waits for, and what it keeps
/// for the steps after it.
#[derive(Debug, Clone, PartialEq, Eq)]
pub enum Stage {
    AwaitSubject { sender_id: i64, chat_id: i64 },
    AwaitListPage { chat_id: i64, list_subject_id: i64 },
    AwaitRefresh { chat_id: i64 },
    AwaitPage { message_id: i64, chat_id: i64, list_subject_id: i64, callback_id: String },
    AwaitEdit { callback_id: String },
    AwaitDetail { message_id: i64, chat_id: i64, list_subject_id: i64 },
    AwaitToken {
        message_id: i64,
        chat_id: i64,
        list_subject_id: i64,
        entry_subject_id: String,
        list_entry_id: String,
        progress: i64,
        callback_id: String,
    },
    AwaitSubmit {
        message_id: i64,
        chat_id: i64,
        list_subject_id: i64,
        entry_subject_id: String,
        progress: i64,
    },
    /// Waits for the last send, edit or answer.
    AwaitDelivery,
    Done,
}

pub enum StageView {
    AwaitSubject { sender_id: i64, chat_id: i64 },
    AwaitListPage { chat_id: i64, list_subject_id: i64 },
    AwaitRefresh { chat_id: i64 },
    AwaitPage { message_id: i64, chat_id: i64, list_subject_id: i64, callback_id: Seq<char> },
    AwaitEdit { callback_id: Seq<char> },
    AwaitDetail { message_id: i64, chat_id: i64, list_subject_id: i64 },
    AwaitToken {
        message_id: i64,
        chat_id: i64,
        list_subject_id: i64,
        entry_subject_id: Seq<char>,
        list_entry_id: Seq<char>,
        progress: i64,
        callback_id: Seq<char>,
    },
    AwaitSubmit {
        message_id: i64,
        chat_id: i64,
        list_subject_id: i64,
        entry_subject_id: Seq<char>,
        progress: i64,
    },
    AwaitDelivery,
    Done,
}

impl View for Stage {
    type V = StageView;

    open spec fn view(&self) -> StageView {
        match self {
            Stage::AwaitSubject { sender_id, chat_id } => StageView::AwaitSubject {
                sender_id: *sender_id,
                chat_id: *chat_id,
            },
            Stage::AwaitListPage { chat_id, list_subject_id } => StageView::AwaitListPage {
                chat_id: *chat_id,
                list_subject_id: *list_subject_id,
            },
            Stage::AwaitRefresh { chat_id } => StageView::AwaitRefresh { chat_id: *chat_id },
            Stage::AwaitPage { message_id, chat_id, list_subject_id, callback_id } =>
                StageView::AwaitPage {
                message_id: *message_id,
                chat_id: *chat_id,
                list_subject_id: *list_subject_id,
                callback_id: callback_id@,
            },
            Stage::AwaitEdit { callback_id } => StageView::AwaitEdit { callback_id: callback_id@ },
            Stage::AwaitDetail { message_id, chat_id, list_subject_id } => StageView::AwaitDetail {
                message_id: *message_id,
                chat_id: *chat_id,
                list_subject_id: *list_subject_id,
            },
            Stage::AwaitToken {
                message_id,
                chat_id,
                list_subject_id,
                entry_subject_id,
                list_entry_id,
                progress,
                callback_id,
            } => StageView::AwaitToken {
                message_id: *message_id,
                chat_id: *chat_id,
                list_subject_id: *list_subject_id,
                entry_subject_id: entry_subject_id@,
                list_entry_id: list_entry_id@,
                progress: *progress,
                callback_id: callback_id@,
            },
            Stage::AwaitSubmit {
                message_id,
                chat_id,
                list_subject_id,
                entry_subject_id,
                progress,
            } => StageView::AwaitSubmit {
                message_id: *message_id,
                chat_id: *chat_id,
                list_subject_id: *list_subject_id,
                entry_subject_id: entry_subject_id@,
                progress: *progress,
            },
            Stage::AwaitDelivery => StageView::AwaitDelivery,
            Stage::Done => StageView::Done,
        }
    }
}

impl StageView {
    /// The ids and counts that later steps write into payloads are
    /// non-negative, and opaque ids hold no slash.
    pub open spec fn wf(self) -> bool {
        match self {
            StageView::AwaitPage { list_subject_id, .. } => list_subject_id >= 0,
            StageView::AwaitDetail { list_subject_id, .. } => list_subject_id >= 0,
            StageView::AwaitToken { list_subject_id, progress, .. } => list_subject_id >= 0
                && progress >= 0,
            StageView::AwaitSubmit { list_subject_id, progress, .. } => list_subject_id >= 0
                && progress >= 0,
            _ => true,
        }
    }
}

pub open spec fn unknown_view() -> ResponseView {
    ResponseView { text: "Unknown command."@, rich: false, keyboard: None }
}

pub open spec fn version_view(version: Seq<char>) -> ResponseView {
    ResponseView {
        text: "<pre>Sagiri-"@ + version + "\nFor more information, please visit the wiki.</pre>"@,
        rich: true,
        keyboard: None,
    }
}

pub open spec fn unregistered_view(sender_id: i64) -> ResponseView {
    ResponseView {
        text: "Non-registered user: "@ + signed_decimal(sender_id as int),
        rich: false,
        keyboard: None,
    }
}

pub open spec fn refreshed_view(n: u64) -> ResponseView {
    ResponseView {
        text: "<pre>Successful update: "@ + decimal(n as nat) + " user(s)</pre>"@,
        rich: true,
        keyboard: None,
    }
}

pub open spec fn text_or_empty(t: Option<String>) -> Seq<char> {
    match t {
        Some(s) => s@,
        None => Seq::empty(),
    }
}

/// The first step of the workflow for a chat message.
pub open spec fn message_start(version: Seq<char>, m: Message) -> Result<
    (StageView, ActionView),
    HandlerError,
> {
    if m.chat_id is None || m.sender_id is None {
        Err(HandlerError::InvalidMessage)
    } else {
        let chat_id = m.chat_id->0;
        let sender_id = m.sender_id->0;
        Ok(
            match message_command_of(text_or_empty(m.text)) {
                Some(MessageCommand::List) => (
                    StageView::AwaitSubject { sender_id, chat_id },
                    ActionView::LookupSubject { sender_id },
                ),
                Some(MessageCommand::Update) => (
                    StageView::AwaitRefresh { chat_id },
                    ActionView::RefreshUsers,
                ),
                Some(MessageCommand::Version) => (
                    StageView::AwaitDelivery,
                    ActionView::Send { chat_id, response: version_view(version) },
                ),
                None => (
                    StageView::AwaitDelivery,
                    ActionView::Send { chat_id, response: unknown_view() },
                ),
            },
        )
    }
}

/// The first step of the workflow for a callback.
pub open spec fn query_start(q: CallbackQuery) -> Result<(StageView, ActionView), HandlerError> {
    match q.message {
        None => Err(HandlerError::StaleInteraction),
        Some(m) => if m.message_id is None || m.chat_id is None {
            Err(HandlerError::InvalidMessage)
        } else {
            let message_id = m.message_id->0;
            let chat_id = m.chat_id->0;
            Ok(
                match decode_view(text_or_empty(q.data)) {
                    Some(QueryView::Offset { list_subject_id, offset }) => (
                        StageView::AwaitPage {
                            message_id,
                            chat_id,
                            list_subject_id,
                            callback_id: q.id@,
                        },
                        ActionView::FetchEntries { list_subject_id, offset },
                    ),
                    Some(QueryView::Detail { list_subject_id, entry_subject_id }) => (
                        StageView::AwaitDetail { message_id, chat_id, list_subject_id },
                        ActionView::FetchDetail { list_subject_id, entry_subject_id },
                    ),
                    Some(
                        QueryView::Progress {
                            list_subject_id,
                            entry_subject_id,
                            list_entry_id,
                            progress,
                        },
                    ) => (
                        StageView::AwaitToken {
                            message_id,
                            chat_id,
                            list_subject_id,
                            entry_subject_id,
                            list_entry_id,
                            progress,
                            callback_id: q.id@,
                        },
                        ActionView::LookupToken { sender_id: q.sender_id, list_subject_id },
                    ),
                    None => (
                        StageView::AwaitDelivery,
                        ActionView::Send { chat_id, response: unknown_view() },
                    ),
                },
            )
        },
    }
}

pub open spec fn finish(e: HandlerError) -> (StageView, ActionView) {
    (StageView::Done, ActionView::Finish { result: Err(e) })
}

/// The next step of a workflow, from where it stands and what the last
/// action brought. A failure ends it at once; an outcome that the stage did
/// not ask for ends it too.
pub open spec fn resume_view(s: StageView, o: Outcome) -> (StageView, ActionView) {
    if o is Failed {
        finish(HandlerError::CollaboratorFailure)
    } else {
        match (s, o) {
            (StageView::AwaitSubject { sender_id, chat_id }, Outcome::SubjectId(None)) => (
                StageView::AwaitDelivery,
                ActionView::Send { chat_id, response: unregistered_view(sender_id) },
            ),
            (StageView::AwaitSubject { chat_id, .. }, Outcome::SubjectId(Some(list_subject_id))) =>
                if list_subject_id < 0 {
                finish(HandlerError::MalformedRemoteData)
            } else {
                (
                    StageView::AwaitListPage { chat_id, list_subject_id },
                    ActionView::FetchEntries { list_subject_id, offset: 0 },
                )
            },
            (StageView::AwaitListPage { chat_id, list_subject_id }, Outcome::Entries(p)) =>
                if list_subject_id < 0 || !page_ok(p) {
                finish(HandlerError::MalformedRemoteData)
            } else {
                (
                    StageView::AwaitDelivery,
                    ActionView::Send { chat_id, response: list_response_view(list_subject_id, p) },
                )
            },
            (StageView::AwaitRefresh { chat_id }, Outcome::UsersRefreshed(n)) => (
                StageView::AwaitDelivery,
                ActionView::Send { chat_id, response: refreshed_view(n) },
            ),
            (
                StageView::AwaitPage { message_id, chat_id, list_subject_id, callback_id },
                Outcome::Entries(p),
            ) => if !page_ok(p) {
                finish(HandlerError::MalformedRemoteData)
            } else {
                (
                    StageView::AwaitEdit { callback_id },
                    ActionView::Edit {
                        message_id,
                        chat_id,
                        response: list_response_view(list_subject_id, p),
                    },
                )
            },
            (StageView::AwaitEdit { callback_id }, Outcome::Delivered) => (
                StageView::AwaitDelivery,
                ActionView::Answer { callback_id, alert: None, show_alert: false },
            ),
            (StageView::AwaitDetail { message_id, chat_id, list_subject_id }, Outcome::Detail(d)) =>
                if !detail_ok(d) {
                finish(HandlerError::MalformedRemoteData)
            } else {
                (
                    StageView::AwaitDelivery,
                    ActionView::Edit {
                        message_id,
                        chat_id,
                        response: detail_response_view(list_subject_id, d),
                    },
                )
            },
            (StageView::AwaitToken { callback_id, .. }, Outcome::Token(None)) => (
                StageView::AwaitDelivery,
                ActionView::Answer {
                    callback_id,
                    alert: Some("Non-registered user"@),
                    show_alert: true,
                },
            ),
            (
                StageView::AwaitToken {
                    message_id,
                    chat_id,
                    list_subject_id,
                    entry_subject_id,
                    list_entry_id,
                    progress,
                    ..
                },
                Outcome::Token(Some(token)),
            ) => (
                StageView::AwaitSubmit {
                    message_id,
                    chat_id,
                    list_subject_id,
                    entry_subject_id,
                    progress,
                },
                ActionView::SubmitProgress {
                    token: token@,
                    list_entry_id,
                    progress,
                    entry_subject_id,
                },
            ),
            (
                StageView::AwaitSubmit {
                    message_id,
                    chat_id,
                    list_subject_id,
                    entry_subject_id,
                    progress,
                },
                Outcome::ProgressSubmitted,
            ) => (
                StageView::AwaitDelivery,
                ActionView::Edit {
                    message_id,
                    chat_id,
                    response: progress_response_view(list_subject_id, entry_subject_id, progress),
                },
            ),
            (StageView::AwaitDelivery, Outcome::Delivered) => (
                StageView::Done,
                ActionView::Finish { result: Ok(()) },
            ),
            _ => finish(HandlerError::UnexpectedOutcome),
        }
    }
}

fn unknown_response() -> (r: Response)
    ensures
        r@ == unknown_view(),
{
    Response { text: String::from_str("Unknown command."), rich: false, keyboard: None }
}

fn finish_with(e: HandlerError) -> (r: (Stage, Action))
    ensures
        (r.0@, r.1@) == finish(e),
{
    (Stage::Done, Action::Finish { result: Err(e) })
}

/// Routes incoming messages and callbacks to their workflows.
pub struct Handler {
    version: String,
}

impl Handler {
    /// The version string that the `version` command reports.
    pub closed spec fn version(&self) -> Seq<char> {
        self.version@
    }

    /// A handler that reports `version` as the bot's version.
    pub fn new(version: String) -> (r: Handler)
        ensures
            r.version() == version@,
    {
        Handler { version }
    }

    /// Starts the workflow for a chat message: the text names a command, and
    /// text that names none gets the unknown-command notice.
    pub fn handle_message(&self, msg: &Message) -> (r: Result<(Stage, Action), HandlerError>)
        ensures
            match r {
                Ok((s, a)) => message_start(self.version(), *msg) == Ok::<
                    (StageView, ActionView),
                    HandlerError,
                >((s@, a@)) && s@.wf(),
                Err(e) => message_start(self.version(), *msg) == Err::<
                    (StageView, ActionView),
                    HandlerError,
                >(e),
            },
    {
        let (chat_id, sender_id) = match (msg.chat_id, msg.sender_id) {
            (Some(c), Some(u)) => (c, u),
            _ => {
                return Err(HandlerError::InvalidMessage);
            },
        };
        let empty = String::new();
        let text = match &msg.text {
            Some(t) => t,
            None => &empty,
        };
        match parse_message_command(text.as_str()) {
            Ok(MessageCommand::List) => Ok(
                (Stage::AwaitSubject { sender_id, chat_id }, Action::LookupSubject { sender_id }),
            ),
            Ok(MessageCommand::Update) => Ok(
                (Stage::AwaitRefresh { chat_id }, Action::RefreshUsers),
            ),
            Ok(MessageCommand::Version) => {
                let mut t = String::new();
                push_text(&mut t, "<pre>Sagiri-");
                push_text(&mut t, self.version.as_str());
                push_text(&mut t, "\nFor more information, please visit the wiki.</pre>");
                let response = Response { text: t, rich: true, keyboard: None };
                Ok((Stage::AwaitDelivery, Action::Send { chat_id, response }))
            },
            Err(_) => Ok(
                (Stage::AwaitDelivery, Action::Send { chat_id, response: unknown_response() }),
            ),
        }
    }

    /// Starts the workflow for a callback: the payload names a continuation,
    /// and one that names none gets the unknown-command notice. A callback
    /// whose message is gone ends here.
    pub fn handle_query(&self, query: &CallbackQuery) -> (r: Result<(Stage, Action), HandlerError>)
        ensures
            match r {
                Ok((s, a)) => query_start(*query) == Ok::<(StageView, ActionView), HandlerError>(
                    (s@, a@),
                ) && s@.wf(),
                Err(e) => query_start(*query) == Err::<(StageView, ActionView), HandlerError>(e),
            },
    {
        let (message_id, chat_id) = match &query.message {
            None => {
                return Err(HandlerError::StaleInteraction);
            },
            Some(m) => match (m.message_id, m.chat_id) {
                (Some(i), Some(c)) => (i, c),
                _ => {
                    return Err(HandlerError::InvalidMessage);
                },
            },
        };
        let empty = String::new();
        let data = match &query.data {
            Some(t) => t,
            None => &empty,
        };
        match parse_query_command(data.as_str()) {
            Ok(QueryCommand::Offset { list_subject_id, offset }) => {
                proof {
                    crate::command::lemma_decoded_valid(data@);
                }
                Ok(
                    (
                        Stage::AwaitPage {
                            message_id,
                            chat_id,
                            list_subject_id,
                            callback_id: query.id.clone(),
                        },
                        Action::FetchEntries { list_subject_id, offset },
                    ),
                )
            },
            Ok(QueryCommand::Detail { list_subject_id, entry_subject_id }) => {
                proof {
                    crate::command::lemma_decoded_valid(data@);
                }
                Ok(
                    (
                        Stage::AwaitDetail { message_id, chat_id, list_subject_id },
                        Action::FetchDetail { list_subject_id, entry_subject_id },
                    ),
                )
            },
            Ok(QueryCommand::Progress { list_subject_id, entry_subject_id, list_entry_id, progress }) => {
                proof {
                    crate::command::lemma_decoded_valid(data@);
                }
                Ok(
                    (
                        Stage::AwaitToken {
                            message_id,
                            chat_id,
                            list_subject_id,
                            entry_subject_id,
                            list_entry_id,
                            progress,
                            callback_id: query.id.clone(),
                        },
                        Action::LookupToken { sender_id: query.sender_id, list_subject_id },
                    ),
                )
            },
            Err(_) => Ok(
                (Stage::AwaitDelivery, Action::Send { chat_id, response: unknown_response() }),
            ),
        }
    }
}

impl Stage {
    /// The next step, from what the last action brought.
    pub fn resume(self, outcome: Outcome) -> (r: (Stage, Action))
        requires
            self@.wf(),
        ensures
            (r.0@, r.1@) == resume_view(self@, outcome),
            r.0@.wf(),
    {
        if let Outcome::Failed = outcome {
            return finish_with(HandlerError::CollaboratorFailure);
        }
        match (self, outcome) {
            (Stage::AwaitSubject { sender_id, chat_id }, Outcome::SubjectId(None)) => {
                let mut t = String::new();
                push_text(&mut t, "Non-registered user: ");
                push_signed_decimal(&mut t, sender_id);
                let response = Response { text: t, rich: false, keyboard: None };
                (Stage::AwaitDelivery, Action::Send { chat_id, response })
            },
            (Stage::AwaitSubject { chat_id, .. }, Outcome::SubjectId(Some(list_subject_id))) => {
                if list_subject_id < 0 {
                    finish_with(HandlerError::MalformedRemoteData)
                } else {
                    (
                        Stage::AwaitListPage { chat_id, list_subject_id },
                        Action::FetchEntries { list_subject_id, offset: 0 },
                    )
                }
            },
            (Stage::AwaitListPage { chat_id, list_subject_id }, Outcome::Entries(p)) => {
                if list_subject_id < 0 || !page_is_showable(&p) {
                    finish_with(HandlerError::MalformedRemoteData)
                } else {
                    let response = list_response(list_subject_id, &p);
                    (Stage::AwaitDelivery, Action::Send { chat_id, response })
                }
            },
            (Stage::AwaitRefresh { chat_id }, Outcome::UsersRefreshed(n)) => {
                let mut t = String::new();
                push_text(&mut t, "<pre>Successful update: ");
                push_decimal(&mut t, n);
                push_text(&mut t, " user(s)</pre>");
                let response = Response { text: t, rich: true, keyboard: None };
                (Stage::AwaitDelivery, Action::Send { chat_id, response })
            },
            (
                Stage::AwaitPage { message_id, chat_id, list_subject_id, callback_id },
                Outcome::Entries(p),
            ) => {
                if !page_is_showable(&p) {
                    finish_with(HandlerError::MalformedRemoteData)
                } else {
                    let response = list_response(list_subject_id, &p);
                    (Stage::AwaitEdit { callback_id }, Action::Edit { message_id, chat_id, response })
                }
            },
            (Stage::AwaitEdit { callback_id }, Outcome::Delivered) => {
                (Stage::AwaitDelivery, Action::Answer { callback_id, alert: None, show_alert: false })
            },
            (Stage::AwaitDetail { message_id, chat_id, list_subject_id }, Outcome::Detail(d)) => {
                if !detail_is_showable(&d) {
                    finish_with(HandlerError::MalformedRemoteData)
                } else {
                    let response = detail_response(list_subject_id, &d);
                    (Stage::AwaitDelivery, Action::Edit { message_id, chat_id, response })
                }
            },
            (Stage::AwaitToken { callback_id, .. }, Outcome::Token(None)) => {
                let alert = Some(String::from_str("Non-registered user"));
                (Stage::AwaitDelivery, Action::Answer { callback_id, alert, show_alert: true })
            },
            (
                Stage::AwaitToken {
                    message_id,
                    chat_id,
                    list_subject_id,
                    entry_subject_id,
                    list_entry_id,
                    progress,
                    ..
                },
                Outcome::Token(Some(token)),
            ) => {
                let submit = Action::SubmitProgress {
                    token,
                    list_entry_id,
                    progress,
                    entry_subject_id: entry_subject_id.clone(),
                };
                (
                    Stage::AwaitSubmit {
                        message_id,
                        chat_id,
                        list_subject_id,
                        entry_subject_id,
                        progress,
                    },
                    submit,
                )
            },
            (
                Stage::AwaitSubmit {
                    message_id,
                    chat_id,
                    list_subject_id,
                    entry_subject_id,
                    progress,
                },
                Outcome::ProgressSubmitted,
            ) => {
                let response = progress_response(list_subject_id, &entry_subject_id, progress);
                (Stage::AwaitDelivery, Action::Edit { message_id, chat_id, response })
            },
            (Stage::AwaitDelivery, Outcome::Delivered) => {
                (Stage::Done, Action::Finish { result: Ok(()) })
            },
            _ => finish_with(HandlerError::UnexpectedOutcome),
        }
    }
}

/// The response that an action puts in a message, if it sends or edits one.
pub open spec fn shown_response(a: ActionView) -> Option<ResponseView> {
    match a {
        ActionView::Send { response, .. } => Some(response),
        ActionView::Edit { response, .. } => Some(response),
        _ => None,
    }
}

/// Paging is idempotent: two callbacks that carry the same page payload ask
/// for the same page, and with the same remote data they put byte-identical
/// text and keyboards in their messages.
pub proof fn lemma_offset_idempotent(q1: CallbackQuery, q2: CallbackQuery, p: EntryPage)
    requires
        text_or_empty(q1.data) == text_or_empty(q2.data),
        decode_view(text_or_empty(q1.data)) matches Some(QueryView::Offset { .. }),
        query_start(q1) is Ok,
        query_start(q2) is Ok,
    ensures
        query_start(q1)->Ok_0.1 == query_start(q2)->Ok_0.1,
        shown_response(resume_view(query_start(q1)->Ok_0.0, Outcome::Entries(p)).1)
            == shown_response(resume_view(query_start(q2)->Ok_0.0, Outcome::Entries(p)).1),
{
}

/// A failed call ends every workflow at once, with no further message sent,
/// edited or answered.
pub proof fn lemma_failure_aborts(s: StageView)
    ensures
        resume_view(s, Outcome::Failed) == finish(HandlerError::CollaboratorFailure),
        shown_response(resume_view(s, Outcome::Failed).1) is None,
{
}

} // verus!
