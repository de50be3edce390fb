use spawn_bot::filter::should_process;
use spawn_bot::model::{ActionRequest, InboundMessage};
use spawn_bot::pipeline::{conclude, decide, replay, Decision, EventOutcome, ExecutorFailure};

fn message(automated: bool, body: &str) -> InboundMessage {
    InboundMessage {
        author_is_automated: automated,
        body: body.to_string(),
        channel_id: 11,
        message_id: 22,
    }
}

fn request(label: &str) -> ActionRequest {
    ActionRequest { channel_id: 11, anchor_message_id: 22, label: label.to_string() }
}

#[test]
fn filter_rejects_automated_authors_only() {
    assert!(should_process(&message(false, "anything")));
    assert!(should_process(&message(false, "tokio::spawn")));
    assert!(!should_process(&message(true, "anything")));
    assert!(!should_process(&message(true, "tokio::spawn")));
}

#[test]
fn automated_author_is_filtered_whatever_the_body() {
    for body in ["tokio::spawn", "`thread::spawn(\"x\")`", "hello", ""] {
        assert_eq!(decide(&message(true, body)), Decision::Filtered);
    }
}

#[test]
fn body_that_is_no_command_makes_no_request() {
    for body in ["spawn", "foo::spawn", "tokio::spawn(bar)", "`tokio::spawn( \"x\" )`", "hi", ""] {
        assert_eq!(decide(&message(false, body)), Decision::NoMatch);
    }
}

#[test]
fn command_makes_a_request_on_its_own_message() {
    let msg = InboundMessage {
        author_is_automated: false,
        body: "tokio::spawn(\"net\")".to_string(),
        channel_id: 7,
        message_id: u64::MAX,
    };
    assert_eq!(
        decide(&msg),
        Decision::Act(ActionRequest {
            channel_id: 7,
            anchor_message_id: u64::MAX,
            label: "net".to_string(),
        })
    );
}

#[test]
fn request_carries_the_default_label() {
    assert_eq!(decide(&message(false, "tokio::spawn")), Decision::Act(request("tokio-runtime-worker")));
    assert_eq!(decide(&message(false, "`tokio::spawn()`")), Decision::Act(request("tokio-runtime-worker")));
    assert_eq!(decide(&message(false, "thread::spawn")), Decision::Act(request("unnamed")));
    assert_eq!(decide(&message(false, "std::thread::spawn()")), Decision::Act(request("unnamed")));
}

#[test]
fn deciding_twice_gives_the_same_decision() {
    let msg = message(false, "`std::thread::spawn(\"x\")`");
    assert_eq!(decide(&msg), decide(&msg));
}

#[test]
fn conclude_reports_each_way_an_event_ends() {
    let act = Decision::Act(request("x"));
    assert_eq!(conclude(&act, None), EventOutcome::Completed);
    assert_eq!(
        conclude(&act, Some(ExecutorFailure::PermissionDenied)),
        EventOutcome::ActionFailed(ExecutorFailure::PermissionDenied)
    );
    assert_eq!(
        conclude(&act, Some(ExecutorFailure::NotFound)),
        EventOutcome::ActionFailed(ExecutorFailure::NotFound)
    );
    assert_eq!(
        conclude(&act, Some(ExecutorFailure::Network)),
        EventOutcome::ActionFailed(ExecutorFailure::Network)
    );
    assert_eq!(
        conclude(&act, Some(ExecutorFailure::Other)),
        EventOutcome::ActionFailed(ExecutorFailure::Other)
    );
}

#[test]
fn conclude_ignores_the_report_where_no_request_was_made() {
    assert_eq!(conclude(&Decision::Filtered, None), EventOutcome::Filtered);
    assert_eq!(conclude(&Decision::Filtered, Some(ExecutorFailure::Network)), EventOutcome::Filtered);
    assert_eq!(conclude(&Decision::NoMatch, None), EventOutcome::NoMatch);
    assert_eq!(conclude(&Decision::NoMatch, Some(ExecutorFailure::NotFound)), EventOutcome::NoMatch);
}

#[test]
fn failure_of_one_event_leaves_the_next_alone() {
    let failing = vec![
        (message(false, "tokio::spawn"), Some(ExecutorFailure::PermissionDenied)),
        (message(false, "thread::spawn(\"second\")"), None),
    ];
    let healthy = vec![
        (message(false, "tokio::spawn"), None),
        (message(false, "thread::spawn(\"second\")"), None),
    ];
    let after_failure = replay(&failing);
    let after_success = replay(&healthy);
    assert_eq!(
        after_failure,
        vec![EventOutcome::ActionFailed(ExecutorFailure::PermissionDenied), EventOutcome::Completed]
    );
    assert_eq!(after_success, vec![EventOutcome::Completed, EventOutcome::Completed]);
    assert_eq!(after_failure[1], after_success[1]);
}

#[test]
fn replay_keeps_the_order_of_events() {
    let events = vec![
        (message(true, "tokio::spawn"), None),
        (message(false, "hello"), Some(ExecutorFailure::Network)),
        (message(false, "`tokio::spawn`"), Some(ExecutorFailure::Network)),
        (message(false, "std::thread::spawn"), None),
    ];
    assert_eq!(
        replay(&events),
        vec![
            EventOutcome::Filtered,
            EventOutcome::NoMatch,
            EventOutcome::ActionFailed(ExecutorFailure::Network),
            EventOutcome::Completed,
        ]
    );
    assert_eq!(replay(&Vec::new()), Vec::<EventOutcome>::new());
}
