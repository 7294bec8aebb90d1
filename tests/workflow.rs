use sagiri::dispatch::{
    Action, CallbackQuery, Handler, HandlerError, Message, Outcome, Stage,
};
use sagiri::response::{
    detail_response, list_response, progress_response, EntryDetail, EntryPage, InlineButton,
    ListEntry,
};

fn text_message(text: &str) -> Message {
    Message {
        message_id: Some(1),
        chat_id: Some(100),
        sender_id: Some(5),
        text: Some(text.to_string()),
    }
}

fn callback(data: &str) -> CallbackQuery {
    CallbackQuery {
        id: "cb".to_string(),
        sender_id: 5,
        data: Some(data.to_string()),
        message: Some(Message { message_id: Some(11), chat_id: Some(100), sender_id: None, text: None }),
    }
}

fn page() -> EntryPage {
    EntryPage {
        prev: None,
        next: Some(5),
        entries: vec![
            ListEntry { entry_subject_id: 3, title: "Mushishi".to_string(), progress: 4 },
            ListEntry { entry_subject_id: 8, title: "Haibane".to_string(), progress: 13 },
        ],
    }
}

fn button(label: &str, data: &str) -> InlineButton {
    InlineButton { label: label.to_string(), callback_data: Some(data.to_string()) }
}

fn handler() -> Handler {
    Handler::new("1.2.0".to_string())
}

#[test]
fn list_from_registered_sender() {
    let (s, a) = handler().handle_message(&text_message("list")).unwrap();
    assert_eq!(a, Action::LookupSubject { sender_id: 5 });
    let (s, a) = s.resume(Outcome::SubjectId(Some(42)));
    assert_eq!(a, Action::FetchEntries { list_subject_id: 42, offset: 0 });
    let (s, a) = s.resume(Outcome::Entries(page()));
    match a {
        Action::Send { chat_id, response } => {
            assert_eq!(chat_id, 100);
            assert!(response.rich);
            assert!(!response.keyboard.unwrap().is_empty());
        }
        other => panic!("unexpected {:?}", other),
    }
    let (s, a) = s.resume(Outcome::Delivered);
    assert_eq!(a, Action::Finish { result: Ok(()) });
    assert_eq!(s, Stage::Done);
}

#[test]
fn list_from_unregistered_sender() {
    let (s, _) = handler().handle_message(&text_message("list")).unwrap();
    let (_, a) = s.resume(Outcome::SubjectId(None));
    match a {
        Action::Send { chat_id, response } => {
            assert_eq!(chat_id, 100);
            assert_eq!(response.text, "Non-registered user: 5");
            assert!(!response.rich);
            assert_eq!(response.keyboard, None);
        }
        other => panic!("unexpected {:?}", other),
    }
}

#[test]
fn offset_callback_edits_then_acknowledges() {
    let (s, a) = handler().handle_query(&callback("/7/offset/3/")).unwrap();
    assert_eq!(a, Action::FetchEntries { list_subject_id: 7, offset: 3 });
    let (s, a) = s.resume(Outcome::Entries(page()));
    match a {
        Action::Edit { message_id, chat_id, response } => {
            assert_eq!((message_id, chat_id), (11, 100));
            assert_eq!(response, list_response(7, &page()));
        }
        other => panic!("unexpected {:?}", other),
    }
    let (s, a) = s.resume(Outcome::Delivered);
    assert_eq!(a, Action::Answer { callback_id: "cb".to_string(), alert: None, show_alert: false });
    let (_, a) = s.resume(Outcome::Delivered);
    assert_eq!(a, Action::Finish { result: Ok(()) });
}

#[test]
fn progress_callback_from_sender_without_token() {
    let (s, a) = handler().handle_query(&callback("/7/progress/abc/xyz/5/")).unwrap();
    assert_eq!(a, Action::LookupToken { sender_id: 5, list_subject_id: 7 });
    let (s, a) = s.resume(Outcome::Token(None));
    assert_eq!(
        a,
        Action::Answer {
            callback_id: "cb".to_string(),
            alert: Some("Non-registered user".to_string()),
            show_alert: true
        }
    );
    let (_, a) = s.resume(Outcome::Delivered);
    assert_eq!(a, Action::Finish { result: Ok(()) });
}

#[test]
fn progress_callback_with_token() {
    let (s, _) = handler().handle_query(&callback("/7/progress/abc/xyz/5/")).unwrap();
    let (s, a) = s.resume(Outcome::Token(Some("tok".to_string())));
    assert_eq!(
        a,
        Action::SubmitProgress {
            token: "tok".to_string(),
            list_entry_id: "xyz".to_string(),
            progress: 5,
            entry_subject_id: "abc".to_string()
        }
    );
    let (_, a) = s.resume(Outcome::ProgressSubmitted);
    match a {
        Action::Edit { message_id, response, .. } => {
            assert_eq!(message_id, 11);
            assert_eq!(response.text, "Successful update to episode 5");
            assert_eq!(
                response.keyboard,
                Some(vec![
                    vec![button("back to anime", "/7/detail/abc/")],
                    vec![button("back to list", "/7/offset/0/")],
                ])
            );
        }
        other => panic!("unexpected {:?}", other),
    }
}

#[test]
fn stale_callback_is_refused() {
    let mut q = callback("/7/offset/3/");
    q.message = None;
    assert_eq!(handler().handle_query(&q), Err(HandlerError::StaleInteraction));
}

#[test]
fn unknown_text_gets_notice() {
    let (s, a) = handler().handle_message(&text_message("frobnicate")).unwrap();
    match a {
        Action::Send { chat_id, response } => {
            assert_eq!(chat_id, 100);
            assert_eq!(response.text, "Unknown command.");
            assert_eq!(response.keyboard, None);
        }
        other => panic!("unexpected {:?}", other),
    }
    assert_eq!(s, Stage::AwaitDelivery);
}

#[test]
fn unknown_payload_gets_notice() {
    let (_, a) = handler().handle_query(&callback("/7/nothing/")).unwrap();
    match a {
        Action::Send { response, .. } => assert_eq!(response.text, "Unknown command."),
        other => panic!("unexpected {:?}", other),
    }
}

#[test]
fn missing_chat_is_invalid() {
    let mut m = text_message("list");
    m.chat_id = None;
    assert_eq!(handler().handle_message(&m), Err(HandlerError::InvalidMessage));
    let mut q = callback("/7/offset/3/");
    q.message = Some(Message { message_id: None, chat_id: Some(1), sender_id: None, text: None });
    assert_eq!(handler().handle_query(&q), Err(HandlerError::InvalidMessage));
}

#[test]
fn absent_text_is_unknown() {
    let mut m = text_message("");
    m.text = None;
    let (_, a) = handler().handle_message(&m).unwrap();
    match a {
        Action::Send { response, .. } => assert_eq!(response.text, "Unknown command."),
        other => panic!("unexpected {:?}", other),
    }
}

#[test]
fn version_reports_the_version() {
    let (_, a) = handler().handle_message(&text_message("version")).unwrap();
    match a {
        Action::Send { response, .. } => {
            assert_eq!(
                response.text,
                "<pre>Sagiri-1.2.0\nFor more information, please visit the wiki.</pre>"
            );
            assert!(response.rich);
        }
        other => panic!("unexpected {:?}", other),
    }
}

#[test]
fn update_reports_the_count() {
    let (s, a) = handler().handle_message(&text_message("update")).unwrap();
    assert_eq!(a, Action::RefreshUsers);
    let (_, a) = s.resume(Outcome::UsersRefreshed(3));
    match a {
        Action::Send { response, .. } => {
            assert_eq!(response.text, "<pre>Successful update: 3 user(s)</pre>")
        }
        other => panic!("unexpected {:?}", other),
    }
}

#[test]
fn failure_aborts_every_stage() {
    let (s, _) = handler().handle_query(&callback("/7/offset/3/")).unwrap();
    let (s2, a) = s.resume(Outcome::Failed);
    assert_eq!(a, Action::Finish { result: Err(HandlerError::CollaboratorFailure) });
    assert_eq!(s2, Stage::Done);
    let (s, _) = handler().handle_message(&text_message("list")).unwrap();
    let (_, a) = s.resume(Outcome::Failed);
    assert_eq!(a, Action::Finish { result: Err(HandlerError::CollaboratorFailure) });
}

#[test]
fn unexpected_outcome_ends_workflow() {
    let (s, _) = handler().handle_message(&text_message("list")).unwrap();
    let (_, a) = s.resume(Outcome::Delivered);
    assert_eq!(a, Action::Finish { result: Err(HandlerError::UnexpectedOutcome) });
}

#[test]
fn malformed_remote_data_is_refused() {
    let (s, _) = handler().handle_query(&callback("/7/offset/3/")).unwrap();
    let mut p = page();
    p.entries[0].progress = -1;
    let (_, a) = s.resume(Outcome::Entries(p));
    assert_eq!(a, Action::Finish { result: Err(HandlerError::MalformedRemoteData) });
}

#[test]
fn offset_twice_gives_identical_response() {
    let run = |cb: &str| {
        let mut q = callback("/7/offset/3/");
        q.id = cb.to_string();
        let (s, _) = handler().handle_query(&q).unwrap();
        match s.resume(Outcome::Entries(page())).1 {
            Action::Edit { response, .. } => response,
            other => panic!("unexpected {:?}", other),
        }
    };
    assert_eq!(run("first"), run("second"));
}

#[test]
fn list_page_layout() {
    let r = list_response(7, &page());
    assert_eq!(r.text, "<b>Mushishi</b> 4\n<b>Haibane</b> 13\n");
    assert_eq!(
        r.keyboard,
        Some(vec![
            vec![button("Mushishi", "/7/detail/3/")],
            vec![button("Haibane", "/7/detail/8/")],
            vec![button("next", "/7/offset/5/")],
        ])
    );
    let mut p = page();
    p.next = None;
    p.prev = Some(0);
    let r = list_response(7, &p);
    assert_eq!(r.keyboard.unwrap().last().unwrap(), &vec![button("prev", "/7/offset/0/")]);
    let empty = EntryPage { prev: None, next: None, entries: vec![] };
    let r = list_response(7, &empty);
    assert_eq!(r.text, "");
    assert_eq!(r.keyboard, Some(vec![vec![button("reload", "/7/offset/0/")]]));
}

#[test]
fn detail_layout() {
    let d = EntryDetail {
        entry_subject_id: "abc".to_string(),
        list_entry_id: "xyz".to_string(),
        title: "Mushishi".to_string(),
        progress: 4,
        episode_count: Some(26),
    };
    let r = detail_response(7, &d);
    assert_eq!(r.text, "<b>Mushishi</b>\nProgress: 4/26");
    assert_eq!(
        r.keyboard,
        Some(vec![
            vec![button("episode 5", "/7/progress/abc/xyz/5/")],
            vec![button("back to list", "/7/offset/0/")],
        ])
    );
    let done = EntryDetail { progress: 26, ..d.clone() };
    let r = detail_response(7, &done);
    assert_eq!(r.keyboard, Some(vec![vec![button("back to list", "/7/offset/0/")]]));
    let open = EntryDetail { episode_count: None, ..d };
    assert_eq!(detail_response(7, &open).text, "<b>Mushishi</b>\nProgress: 4/?");
}

#[test]
fn progress_confirmation_layout() {
    let r = progress_response(3, &"x1".to_string(), 12);
    assert_eq!(r.text, "Successful update to episode 12");
    assert!(r.rich);
}

#[test]
fn empty_first_page_still_has_a_keyboard() {
    let (s, _) = handler().handle_message(&text_message("list")).unwrap();
    let (s, _) = s.resume(Outcome::SubjectId(Some(42)));
    let empty = EntryPage { prev: None, next: None, entries: vec![] };
    let (_, a) = s.resume(Outcome::Entries(empty));
    match a {
        Action::Send { response, .. } => {
            assert!(response.rich);
            assert_eq!(
                response.keyboard,
                Some(vec![vec![button("reload", "/42/offset/0/")]])
            );
        }
        other => panic!("unexpected {:?}", other),
    }
}
