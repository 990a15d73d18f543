use ytmod::{
    after_delete, after_post, after_verdict, delete_outcome, moderation_start, new_messages, poll_interval,
    ActionError, ClassifierError, DeleteError, FetchError, MessageDetails, MessageError, ModerationError,
    ModerationOutcome, ModerationStep, PollLoop, PollStep, RawAuthor, RawMessage, RawSnippet,
    FALLBACK_POLL_INTERVAL_MS,
};

fn raw(id: &str, author: &str, text: &str, at: i64) -> RawMessage {
    RawMessage {
        id: Some(id.to_string()),
        author_details: Some(RawAuthor {
            channel_id: Some(format!("channel-{author}")),
            display_name: Some(author.to_string()),
        }),
        snippet: Some(RawSnippet { display_message: Some(text.to_string()), published_at: Some(at) }),
    }
}

fn handled(step: PollStep) -> MessageDetails {
    match step {
        PollStep::Handle(d) => d,
        _ => panic!("expected a message to handle"),
    }
}

#[test]
fn complete_message_normalizes() {
    let d = MessageDetails::from_message(raw("m1", "alice", "hello", 1_700_000_000_000)).unwrap();
    assert_eq!(d.id, "m1");
    assert_eq!(d.author_id, "channel-alice");
    assert_eq!(d.author_name, "alice");
    assert_eq!(d.contents, "hello");
    assert_eq!(d.time_sent, 1_700_000_000_000);
}

#[test]
fn each_missing_field_is_named() {
    let mut m = raw("m", "a", "t", 0);
    m.author_details = None;
    assert_eq!(MessageDetails::from_message(m).err(), Some(MessageError::MissingAuthor));
    let mut m = raw("m", "a", "t", 0);
    m.snippet = None;
    assert_eq!(MessageDetails::from_message(m).err(), Some(MessageError::MissingSnippet));
    let mut m = raw("m", "a", "t", 0);
    m.id = None;
    assert_eq!(MessageDetails::from_message(m).err(), Some(MessageError::MissingId));
    let mut m = raw("m", "a", "t", 0);
    m.author_details.as_mut().unwrap().channel_id = None;
    assert_eq!(MessageDetails::from_message(m).err(), Some(MessageError::MissingAuthorId));
    let mut m = raw("m", "a", "t", 0);
    m.author_details.as_mut().unwrap().display_name = None;
    assert_eq!(MessageDetails::from_message(m).err(), Some(MessageError::MissingAuthorName));
    let mut m = raw("m", "a", "t", 0);
    m.snippet.as_mut().unwrap().display_message = None;
    assert_eq!(MessageDetails::from_message(m).err(), Some(MessageError::MissingContents));
    let mut m = raw("m", "a", "t", 0);
    m.snippet.as_mut().unwrap().published_at = None;
    assert_eq!(MessageDetails::from_message(m).err(), Some(MessageError::MissingTimeSent));
}

#[test]
fn empty_text_fields_are_rejected() {
    assert_eq!(MessageDetails::from_message(raw("", "a", "t", 0)).err(), Some(MessageError::MissingId));
    assert_eq!(MessageDetails::from_message(raw("m", "", "t", 0)).err(), Some(MessageError::MissingAuthorName));
    assert_eq!(MessageDetails::from_message(raw("m", "a", "", 0)).err(), Some(MessageError::MissingContents));
}

#[test]
fn first_missing_part_wins() {
    let m = RawMessage { id: None, author_details: None, snippet: None };
    assert_eq!(MessageDetails::from_message(m).err(), Some(MessageError::MissingAuthor));
}

#[test]
fn new_messages_skips_what_was_seen() {
    let mut skip: usize = 0;
    let window = vec![raw("a", "x", "1", 1), raw("b", "x", "2", 2)];
    let (fresh, interval) = new_messages(Some(window), Some(1500), &mut skip).unwrap();
    assert_eq!(fresh.len(), 2);
    assert_eq!(skip, 2);
    assert_eq!(interval, 1500);

    let window = vec![raw("a", "x", "1", 1), raw("b", "x", "2", 2), raw("c", "x", "3", 3)];
    let (fresh, interval) = new_messages(Some(window), None, &mut skip).unwrap();
    assert_eq!(fresh.len(), 1);
    assert_eq!(fresh[0].id.as_deref(), Some("c"));
    assert_eq!(skip, 3);
    assert_eq!(interval, FALLBACK_POLL_INTERVAL_MS);
    assert_eq!(interval, 2000);
}

#[test]
fn new_messages_without_list_fails_and_keeps_cursor() {
    let mut skip: usize = 7;
    assert_eq!(new_messages(None, Some(10), &mut skip).err(), Some(FetchError::MissingItems));
    assert_eq!(skip, 7);
}

#[test]
fn shrunken_window_delivers_nothing() {
    let mut skip: usize = 5;
    let (fresh, _) = new_messages(Some(vec![raw("a", "x", "1", 1)]), None, &mut skip).unwrap();
    assert!(fresh.is_empty());
    assert_eq!(skip, 5);
}

#[test]
fn interval_choice() {
    assert_eq!(poll_interval(Some(5000), Some(1000)), 5000);
    assert_eq!(poll_interval(Some(0), None), 0);
    assert_eq!(poll_interval(None, Some(1000)), 1000);
    assert_eq!(poll_interval(None, None), 2000);
}

#[test]
fn loop_starts_with_fetch() {
    let mut lp = PollLoop::new(None);
    assert_eq!(lp.cursor(), 0);
    assert!(matches!(lp.next_step(), PollStep::Fetch));
    assert!(matches!(lp.next_step(), PollStep::Fetch));
}

#[test]
fn cursor_sums_page_sizes() {
    let mut lp = PollLoop::new(None);
    let mut window: Vec<RawMessage> = Vec::new();
    let mut total: usize = 0;
    for (cycle, n) in [3usize, 0, 2, 5].iter().enumerate() {
        for k in 0..*n {
            window.push(raw(&format!("c{cycle}-{k}"), "x", "t", 0));
        }
        assert!(matches!(lp.next_step(), PollStep::Fetch));
        let copy: Vec<RawMessage> = window
            .iter()
            .map(|m| raw(m.id.as_deref().unwrap(), "x", "t", 0))
            .collect();
        lp.page_received(Some(copy), None).unwrap();
        total += n;
        assert_eq!(lp.cursor(), total);
        for k in 0..*n {
            let d = handled(lp.next_step());
            assert_eq!(d.id, format!("c{cycle}-{k}"));
        }
        assert!(matches!(lp.next_step(), PollStep::Pause(2000)));
    }
    assert_eq!(lp.cursor(), 10);
}

#[test]
fn failures_do_not_stop_the_page() {
    let mut lp = PollLoop::new(None);
    let mut bad = raw("k", "x", "t", 0);
    bad.snippet = None;
    let page = vec![raw("m0", "x", "t", 0), bad, raw("m2", "x", "t", 0), raw("m3", "x", "t", 0)];
    lp.page_received(Some(page), Some(900)).unwrap();
    assert_eq!(lp.cursor(), 4);
    assert_eq!(handled(lp.next_step()).id, "m0");
    match lp.next_step() {
        PollStep::Skip(id, e) => {
            assert_eq!(id.as_deref(), Some("k"));
            assert_eq!(e, MessageError::MissingSnippet);
        }
        _ => panic!("expected a skip"),
    }
    // the handler of m2 fails: the loop takes no outcome and goes on
    assert_eq!(handled(lp.next_step()).id, "m2");
    assert_eq!(handled(lp.next_step()).id, "m3");
    assert!(matches!(lp.next_step(), PollStep::Pause(900)));
    assert!(matches!(lp.next_step(), PollStep::Fetch));
    assert_eq!(lp.cursor(), 4);
}

#[test]
fn empty_page_still_pauses() {
    let mut lp = PollLoop::new(None);
    lp.page_received(Some(Vec::new()), Some(1234)).unwrap();
    assert_eq!(lp.cursor(), 0);
    assert!(matches!(lp.next_step(), PollStep::Pause(1234)));
    assert!(matches!(lp.next_step(), PollStep::Fetch));
    lp.page_received(Some(Vec::new()), None).unwrap();
    assert!(matches!(lp.next_step(), PollStep::Pause(2000)));
}

#[test]
fn fixed_interval_overrides_advice() {
    let mut lp = PollLoop::new(Some(5000));
    lp.page_received(Some(vec![raw("a", "x", "t", 0)]), Some(100)).unwrap();
    let _ = lp.next_step();
    assert!(matches!(lp.next_step(), PollStep::Pause(5000)));
    lp.page_received(Some(Vec::new()), None).unwrap();
    assert!(matches!(lp.next_step(), PollStep::Pause(5000)));
}

#[test]
fn missing_list_is_fatal_and_changes_nothing() {
    let mut lp = PollLoop::new(None);
    lp.page_received(Some(vec![raw("a", "x", "t", 0)]), None).unwrap();
    assert_eq!(lp.page_received(None, None).err(), Some(FetchError::MissingItems));
    assert_eq!(lp.cursor(), 1);
    assert_eq!(handled(lp.next_step()).id, "a");
}

#[test]
fn end_to_end_page_of_three() {
    let mut lp = PollLoop::new(Some(5000));
    assert!(matches!(lp.next_step(), PollStep::Fetch));
    let mut c = raw("C", "carol", "hi", 3);
    c.author_details = None;
    let page = vec![raw("A", "alice", "hello", 1), raw("B", "bob", "DIE", 2), c];
    lp.page_received(Some(page), Some(2000)).unwrap();
    assert_eq!(lp.cursor(), 3);
    let owner = "owner".to_string();

    let a = handled(lp.next_step());
    assert_eq!(a.contents, "hello");
    assert!(matches!(moderation_start(&a, &owner), ModerationStep::Classify));
    let verdict = ytmod::verdict_from_response(br#"{"toxic": 0, "score": 0.01}"#);
    assert_eq!(verdict, Ok(false));
    assert!(matches!(after_verdict(verdict), ModerationStep::Done(Ok(ModerationOutcome::Clean))));

    let b = handled(lp.next_step());
    assert_eq!(b.contents, "DIE");
    assert!(matches!(moderation_start(&b, &owner), ModerationStep::Classify));
    let verdict = ytmod::verdict_from_response(br#"{"toxic": 1}"#);
    assert_eq!(verdict, Ok(true));
    assert!(matches!(after_verdict(verdict), ModerationStep::Delete));
    assert!(matches!(after_delete(Some(204)), ModerationStep::PostNotice));
    assert!(matches!(after_post(true), ModerationStep::Done(Ok(ModerationOutcome::Removed))));

    match lp.next_step() {
        PollStep::Skip(id, e) => {
            assert_eq!(id.as_deref(), Some("C"));
            assert_eq!(e, MessageError::MissingAuthor);
        }
        _ => panic!("expected a skip"),
    }
    assert!(matches!(lp.next_step(), PollStep::Pause(5000)));
    assert!(matches!(lp.next_step(), PollStep::Fetch));
}

#[test]
fn delete_statuses() {
    assert_eq!(delete_outcome(Some(204)), Ok(()));
    assert_eq!(delete_outcome(Some(401)), Err(DeleteError::NotAuthorized));
    assert_eq!(delete_outcome(Some(404)), Err(DeleteError::NotFound));
    assert_eq!(delete_outcome(Some(500)), Err(DeleteError::Unknown));
    assert_eq!(delete_outcome(Some(200)), Err(DeleteError::Unknown));
    assert_eq!(delete_outcome(None), Err(DeleteError::Unknown));
}

#[test]
fn not_found_deletion_posts_nothing() {
    match after_delete(Some(404)) {
        ModerationStep::Done(Err(e)) => {
            assert_eq!(e, ModerationError::Action(ActionError::Delete(DeleteError::NotFound)))
        }
        _ => panic!("expected the moderation to end"),
    }
    assert!(matches!(
        after_delete(Some(401)),
        ModerationStep::Done(Err(ModerationError::Action(ActionError::Delete(DeleteError::NotAuthorized))))
    ));
    assert!(matches!(after_delete(None), ModerationStep::Done(Err(_))));
}

#[test]
fn failed_post_and_failed_verdict() {
    assert!(matches!(
        after_post(false),
        ModerationStep::Done(Err(ModerationError::Action(ActionError::Post)))
    ));
    assert!(matches!(
        after_verdict(Err(ClassifierError::Transport)),
        ModerationStep::Done(Err(ModerationError::Classifier(ClassifierError::Transport)))
    ));
}

#[test]
fn exempt_author_is_not_scored() {
    let d = MessageDetails::from_message(raw("m", "owner", "anything", 0)).unwrap();
    assert!(matches!(
        moderation_start(&d, &"owner".to_string()),
        ModerationStep::Done(Ok(ModerationOutcome::Exempt))
    ));
}
