use sagiri::command::{
    encode_query_command, parse_message_command, parse_query_command, MessageCommand,
    ParseFailure, QueryCommand,
};
use sagiri::decimal::{parse_numeric, push_decimal, push_signed_decimal};

fn progress(list: i64, entry: &str, list_entry: &str, p: i64) -> QueryCommand {
    QueryCommand::Progress {
        list_subject_id: list,
        entry_subject_id: entry.to_string(),
        list_entry_id: list_entry.to_string(),
        progress: p,
    }
}

#[test]
fn message_tokens_are_recognized() {
    assert_eq!(parse_message_command("list"), Ok(MessageCommand::List));
    assert_eq!(parse_message_command("update"), Ok(MessageCommand::Update));
    assert_eq!(parse_message_command("version"), Ok(MessageCommand::Version));
}

#[test]
fn other_text_is_not_a_command() {
    for t in ["", " ", "List", "LIST", " list", "list ", "lis", "lists", "frobnicate", "/list"] {
        assert_eq!(parse_message_command(t), Err(ParseFailure), "{:?}", t);
    }
}

#[test]
fn offset_payload_decodes() {
    assert_eq!(
        parse_query_command("/7/offset/3/"),
        Ok(QueryCommand::Offset { list_subject_id: 7, offset: 3 })
    );
}

#[test]
fn detail_payload_decodes() {
    assert_eq!(
        parse_query_command("/12/detail/345/"),
        Ok(QueryCommand::Detail { list_subject_id: 12, entry_subject_id: 345 })
    );
}

#[test]
fn progress_payload_decodes() {
    assert_eq!(parse_query_command("/7/progress/abc/xyz/5/"), Ok(progress(7, "abc", "xyz", 5)));
}

#[test]
fn payloads_outside_the_grammar_fail() {
    let bad = [
        "",
        "/",
        "7/offset/3/",
        "/7/offset/3",
        "/7/offset/3/4/",
        "/7/offset/",
        "/x/offset/3/",
        "/7/offset/3a/",
        "/7/offset//",
        "/7/offset/-3/",
        "/7/Offset/3/",
        "/7/page/3/",
        "/7/detail/abc/",
        "/7/progress/abc/xyz/",
        "/7/progress/abc/xyz/five/",
        "/7/progress/abc/xyz/5/6/",
        "/9223372036854775808/offset/0/",
    ];
    for p in bad {
        assert_eq!(parse_query_command(p), Err(ParseFailure), "{:?}", p);
    }
}

#[test]
fn largest_id_decodes() {
    assert_eq!(
        parse_query_command("/9223372036854775807/offset/0/"),
        Ok(QueryCommand::Offset { list_subject_id: i64::MAX, offset: 0 })
    );
}

#[test]
fn encoding_writes_the_grammar() {
    assert_eq!(
        encode_query_command(&QueryCommand::Offset { list_subject_id: 7, offset: 3 }),
        "/7/offset/3/"
    );
    assert_eq!(
        encode_query_command(&QueryCommand::Detail { list_subject_id: 0, entry_subject_id: 10 }),
        "/0/detail/10/"
    );
    assert_eq!(encode_query_command(&progress(7, "abc", "xyz", 5)), "/7/progress/abc/xyz/5/");
}

#[test]
fn round_trip_on_samples() {
    let cs = vec![
        QueryCommand::Offset { list_subject_id: 0, offset: 0 },
        QueryCommand::Offset { list_subject_id: i64::MAX, offset: 120 },
        QueryCommand::Detail { list_subject_id: 42, entry_subject_id: 9 },
        progress(1, "", "", 0),
        progress(99, "12 ab", "é-ü", 1000),
    ];
    for c in cs {
        let s = encode_query_command(&c);
        assert_eq!(parse_query_command(&s), Ok(c));
    }
}

#[test]
fn decimal_numerals() {
    let mut s = String::new();
    push_decimal(&mut s, 0);
    push_decimal(&mut s, 1203);
    assert_eq!(s, "01203");
    let mut t = String::from("x");
    push_signed_decimal(&mut t, -45);
    assert_eq!(t, "x-45");
    let mut u = String::new();
    push_signed_decimal(&mut u, i64::MIN);
    assert_eq!(u, "-9223372036854775808");
}

#[test]
fn numeric_fields() {
    let cs: Vec<char> = "a0123b".chars().collect();
    assert_eq!(parse_numeric(&cs, 1, 5), Some(123));
    assert_eq!(parse_numeric(&cs, 1, 1), None);
    assert_eq!(parse_numeric(&cs, 0, 5), None);
}
