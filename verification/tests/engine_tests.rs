//! Scenario tests driving the reconciliation engine through its public
//! surface, with recording collaborators standing in for the embedding.

use std::cell::RefCell;
use std::rc::Rc;
use zwp_input_method_service::{
    ChangeCause, ContentHint, ContentPurpose, Event, HintPurpose, IMServiceArc, IMVisibility,
    ReceiveSurroundingText, Request, SubmitError,
};

#[derive(Default)]
struct Calls {
    activated: usize,
    deactivated: usize,
    hints: Vec<(u32, ContentPurpose)>,
    texts: Vec<(String, String)>,
}

struct Ui(Rc<RefCell<Calls>>);

impl IMVisibility for Ui {
    fn activate_im(&self) {
        self.0.borrow_mut().activated += 1;
    }

    fn deactivate_im(&self) {
        self.0.borrow_mut().deactivated += 1;
    }
}

impl HintPurpose for Ui {
    fn set_hint_purpose(&self, content_hint: ContentHint, content_purpose: ContentPurpose) {
        self.0
            .borrow_mut()
            .hints
            .push((content_hint.bits, content_purpose));
    }
}

struct Sink(Rc<RefCell<Calls>>);

impl ReceiveSurroundingText for Sink {
    fn text_changed(&self, string_left_of_cursor: String, string_right_of_cursor: String) {
        self.0
            .borrow_mut()
            .texts
            .push((string_left_of_cursor, string_right_of_cursor));
    }
}

fn service() -> (IMServiceArc<Ui, Sink>, Rc<RefCell<Calls>>) {
    let calls = Rc::new(RefCell::new(Calls::default()));
    let service = IMServiceArc::new(Ui(Rc::clone(&calls)), Sink(Rc::clone(&calls)));
    (service, calls)
}

/// An engine whose session has been activated and promoted.
fn active_service() -> (IMServiceArc<Ui, Sink>, Rc<RefCell<Calls>>) {
    let (mut service, calls) = service();
    service.handle_activate();
    service.handle_done();
    (service, calls)
}

#[test]
fn starts_inactive_with_empty_text() {
    let (service, _calls) = service();
    assert!(!service.is_active());
    let (left, right) = service.get_surrounding_text();
    assert_eq!(left, "");
    assert_eq!(right, "");
}

#[test]
fn commit_string_then_commit_shows_text() {
    let (mut service, _calls) = active_service();
    let sent = service.commit_string(String::from("abc")).unwrap();
    match sent {
        Request::CommitString { text } => assert_eq!(text, "abc"),
        _ => panic!("expected a commit_string request"),
    }
    // not yet promoted: reads still see the empty current state
    let (left, right) = service.get_surrounding_text();
    assert_eq!(left, "");
    assert_eq!(right, "");
    service.commit().unwrap();
    let (left, right) = service.get_surrounding_text();
    assert_eq!(left, "abc");
    assert_eq!(right, "");
}

#[test]
fn commit_string_inserts_at_cursor() {
    let (mut service, _calls) = active_service();
    assert!(service
        .handle_surrounding_text(String::from("helloworld"), 5, 5)
        .is_none());
    service.commit_string(String::from(", ")).unwrap();
    service.commit().unwrap();
    let (left, right) = service.get_surrounding_text();
    assert_eq!(left, "hello, ");
    assert_eq!(right, "world");
}

#[test]
fn delete_clamps_to_bounds() {
    let (mut service, _calls) = active_service();
    assert!(service
        .handle_surrounding_text(String::from("hello"), 5, 5)
        .is_none());
    let sent = service.delete_surrounding_text(1_000_000, 1_000_000).unwrap();
    match sent {
        Request::DeleteSurroundingText { before, after } => {
            assert_eq!(before, 5);
            assert_eq!(after, 0);
        }
        _ => panic!("expected a delete_surrounding_text request"),
    }
    service.commit().unwrap();
    let (left, right) = service.get_surrounding_text();
    assert_eq!(left, "");
    assert_eq!(right, "");
}

#[test]
fn delete_removes_around_cursor() {
    let (mut service, _calls) = active_service();
    assert!(service
        .handle_surrounding_text(String::from("hello world"), 5, 5)
        .is_none());
    let sent = service.delete_surrounding_text(2, 3).unwrap();
    match sent {
        Request::DeleteSurroundingText { before, after } => {
            assert_eq!(before, 2);
            assert_eq!(after, 3);
        }
        _ => panic!("expected a delete_surrounding_text request"),
    }
    service.commit().unwrap();
    let (left, right) = service.get_surrounding_text();
    assert_eq!(left, "hel");
    assert_eq!(right, "rld");
}

#[test]
fn reads_are_idempotent() {
    let (mut service, _calls) = active_service();
    assert!(service
        .handle_surrounding_text(String::from("stable"), 3, 3)
        .is_none());
    service.handle_done();
    let first = service.get_surrounding_text();
    let second = service.get_surrounding_text();
    assert_eq!(first, second);
    assert_eq!(service.is_active(), service.is_active());
}

#[test]
fn inactive_requests_fail_and_change_nothing() {
    let (mut service, calls) = service();
    assert!(!service.is_active());
    assert!(matches!(
        service.commit_string(String::from("abc")),
        Err(SubmitError::NotActive)
    ));
    assert!(matches!(
        service.delete_surrounding_text(1, 1),
        Err(SubmitError::NotActive)
    ));
    assert!(matches!(service.commit(), Err(SubmitError::NotActive)));
    // nothing changed, nothing was notified
    let (left, right) = service.get_surrounding_text();
    assert_eq!(left, "");
    assert_eq!(right, "");
    assert!(!service.is_active());
    assert_eq!(calls.borrow().activated, 0);
    assert_eq!(calls.borrow().deactivated, 0);
    assert!(calls.borrow().texts.is_empty());
    // the first successful commit still carries serial 0
    service.handle_activate();
    service.handle_done();
    assert!(matches!(service.commit(), Ok(Request::Commit { serial: 0 })));
}

#[test]
fn activate_done_notifies_show_exactly_once() {
    let (mut service, calls) = service();
    service.handle_activate();
    assert_eq!(calls.borrow().activated, 0);
    let notices = service.handle_done();
    assert!(notices.activated.is_some());
    assert!(!notices.deactivated);
    assert_eq!(calls.borrow().activated, 1);
    assert_eq!(calls.borrow().deactivated, 0);
    assert_eq!(calls.borrow().hints, vec![(0, ContentPurpose::Normal)]);
}

#[test]
fn sequence_scenario_splits_text() {
    let (mut service, calls) = service();
    service.handle_activate();
    assert!(service
        .handle_surrounding_text(String::from("hello world"), 5, 5)
        .is_none());
    service.handle_done();
    assert!(service.is_active());
    let (left, right) = service.get_surrounding_text();
    assert_eq!(left, "hello");
    assert_eq!(right, " world");
    assert_eq!(
        calls.borrow().texts,
        vec![(String::from("hello"), String::from(" world"))]
    );
}

#[test]
fn three_commits_increment_serial() {
    let (mut service, _calls) = active_service();
    let serials: Vec<u32> = (0..3)
        .map(|_| match service.commit().unwrap() {
            Request::Commit { serial } => serial,
            _ => panic!("expected a commit request"),
        })
        .collect();
    assert_eq!(serials, vec![0, 1, 2]);
}

#[test]
fn content_type_reaches_collaborator_on_promotion() {
    let (mut service, calls) = service();
    service.handle_activate();
    service.handle_content_type(ContentHint { bits: 0x40 }, ContentPurpose::Password);
    service.handle_text_change_cause(ChangeCause::Other);
    service.handle_done();
    assert_eq!(calls.borrow().hints, vec![(0x40, ContentPurpose::Password)]);
}

#[test]
fn deactivate_then_done_hides() {
    let (mut service, calls) = active_service();
    assert_eq!(calls.borrow().activated, 1);
    service.handle_deactivate();
    assert!(service.is_active());
    let notices = service.handle_done();
    assert!(notices.activated.is_none());
    assert!(notices.deactivated);
    assert!(!service.is_active());
    assert_eq!(calls.borrow().deactivated, 1);
    assert!(matches!(
        service.commit(),
        Err(SubmitError::NotActive)
    ));
}

#[test]
fn unavailable_is_terminal() {
    let (mut service, calls) = active_service();
    let destroy = service.handle_unavailable();
    assert!(matches!(destroy, Request::Destroy));
    assert!(!service.is_active());
    assert_eq!(calls.borrow().deactivated, 1);
    assert!(matches!(
        service.commit_string(String::from("x")),
        Err(SubmitError::NotActive)
    ));
}

#[test]
fn surrounding_text_with_invalid_cursor_tears_down() {
    let (mut service, calls) = active_service();
    let teardown = service.handle_surrounding_text(String::from("hi"), 3, 3);
    assert!(matches!(teardown, Some(Request::Destroy)));
    assert!(!service.is_active());
    assert_eq!(calls.borrow().deactivated, 1);
    assert!(matches!(service.commit(), Err(SubmitError::NotActive)));
}

#[test]
fn dispatcher_routes_events() {
    let (mut service, calls) = service();
    assert!(service.handle_event(Event::Activate).is_none());
    assert!(service
        .handle_event(Event::SurroundingText {
            text: String::from("ab"),
            cursor: 1,
            anchor: 1,
        })
        .is_none());
    assert!(service
        .handle_event(Event::ContentType {
            hint: ContentHint { bits: 0x200 },
            purpose: ContentPurpose::Terminal,
        })
        .is_none());
    assert!(service
        .handle_event(Event::TextChangeCause {
            cause: ChangeCause::InputMethod,
        })
        .is_none());
    assert!(service.handle_event(Event::Done).is_none());
    assert!(service.is_active());
    let (left, right) = service.get_surrounding_text();
    assert_eq!(left, "a");
    assert_eq!(right, "b");
    assert_eq!(calls.borrow().hints, vec![(0x200, ContentPurpose::Terminal)]);
    assert!(service.handle_event(Event::Deactivate).is_none());
    assert!(service.handle_event(Event::Done).is_none());
    assert!(!service.is_active());
    let emitted = service.handle_event(Event::Unavailable);
    assert!(matches!(emitted, Some(Request::Destroy)));
}

#[test]
fn pending_edits_survive_commit_but_not_activation() {
    let (mut service, _calls) = active_service();
    service.commit_string(String::from("abc")).unwrap();
    service.commit().unwrap();
    // promotion left pending equal to current, so a second commit re-sends
    // the same state rather than dropping edits issued in between
    service.commit().unwrap();
    let (left, _right) = service.get_surrounding_text();
    assert_eq!(left, "abc");
    // a fresh activation discards the pending snapshot wholesale
    service.handle_activate();
    service.handle_done();
    let (left, right) = service.get_surrounding_text();
    assert_eq!(left, "");
    assert_eq!(right, "");
}
