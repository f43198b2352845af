use clowncher::dispatch::{close_socket, ingest_frame, worker_replies, worker_task, WorkerTask};
use clowncher::event::{Event, LeagueEvent, LeagueEventKind};
use clowncher::registry::SocketRegistry;

fn queue_frame(seconds: f64) -> String {
    format!(
        r#"[8,"OnJsonApiEvent",{{"uri":"/lol-matchmaking/v1/search","eventType":"Update","data":{{"timeInQueue":{:.1}}}}}]"#,
        seconds
    )
}

#[test]
fn registry_keeps_fifo_order_per_socket() {
    let mut reg = SocketRegistry::new();
    reg.create_socket(0);
    assert!(reg.contains_socket(0));
    assert!(!reg.contains_socket(1));

    assert!(ingest_frame(&mut reg, 0, &queue_frame(1.0)));
    assert!(ingest_frame(&mut reg, 0, &queue_frame(2.0)));

    let first = reg.pop_event(0).expect("first event queued");
    let second = reg.pop_event(0).expect("second event queued");
    assert!(reg.pop_event(0).is_none());

    let time_of = |ev: &LeagueEvent| match &ev.kind {
        Some(LeagueEventKind::Queue(Some(q))) => q.time_in_queue,
        other => panic!("expected a queue event, got {:?}", other),
    };
    assert_eq!(time_of(&first), Some(1.0f64.to_bits()));
    assert_eq!(time_of(&second), Some(2.0f64.to_bits()));
}

#[test]
fn events_for_unregistered_sockets_are_dropped() {
    let mut reg = SocketRegistry::new();
    assert!(!ingest_frame(&mut reg, 7, &queue_frame(1.0)));
    assert!(reg.pop_event(7).is_none());
}

#[test]
fn discarded_frames_queue_nothing() {
    let mut reg = SocketRegistry::new();
    reg.create_socket(0);
    assert!(!ingest_frame(&mut reg, 0, "not json"));
    assert!(!ingest_frame(
        &mut reg,
        0,
        r#"[8,"x",{"uri":"/lol-unknown/v1/x","data":{}}]"#
    ));
    assert!(reg.pop_event(0).is_none());
}

#[test]
fn deleted_socket_forgets_its_queue() {
    let mut reg = SocketRegistry::new();
    reg.create_socket(0);
    assert!(ingest_frame(&mut reg, 0, &queue_frame(1.0)));
    reg.delete_socket(0);
    assert!(!reg.contains_socket(0));
    assert!(reg.pop_event(0).is_none());
}

#[test]
fn creating_a_socket_again_empties_its_queue() {
    let mut reg = SocketRegistry::new();
    reg.create_socket(0);
    assert!(ingest_frame(&mut reg, 0, &queue_frame(1.0)));
    reg.create_socket(0);
    assert!(reg.pop_event(0).is_none());
}

#[test]
fn worker_decides_task_per_message() {
    assert_eq!(worker_task(&Event::CreateSocket(3)), WorkerTask::Open(3));
    assert_eq!(worker_task(&Event::ReadSocket(1)), WorkerTask::Read(1));
    assert_eq!(worker_task(&Event::Ready), WorkerTask::Nothing);
    assert_eq!(worker_task(&Event::DeleteSocket(2)), WorkerTask::Close(2));
}

#[test]
fn delete_socket_closes_and_forgets_the_queue() {
    let mut reg = SocketRegistry::new();
    reg.create_socket(0);
    reg.create_socket(1);
    assert!(ingest_frame(&mut reg, 0, &queue_frame(1.0)));

    let task = worker_task(&Event::DeleteSocket(0));
    close_socket(&mut reg, task);
    assert!(!reg.contains_socket(0));
    assert!(reg.pop_event(0).is_none());
    // the other socket is untouched
    assert!(reg.contains_socket(1));

    // a close is acknowledged with Ready alone
    assert_eq!(worker_replies(task, None), vec![Event::Ready]);

    // a close for an unknown socket changes nothing
    close_socket(&mut reg, worker_task(&Event::DeleteSocket(9)));
    assert!(reg.contains_socket(1));
}

#[test]
fn worker_replies_end_with_ready() {
    let replies = worker_replies(WorkerTask::Open(3), None);
    assert_eq!(replies, vec![Event::SocketCreated(3), Event::Ready]);

    let ev = LeagueEvent {
        kind: Some(LeagueEventKind::ChampSelect),
        event_type: None,
        uri: None,
    };
    let replies = worker_replies(WorkerTask::Read(0), Some(ev.clone()));
    assert_eq!(replies.len(), 2);
    assert_eq!(replies[0], Event::LeagueEvent(0, ev));
    assert_eq!(replies[1], Event::Ready);

    let replies = worker_replies(WorkerTask::Read(0), None);
    assert_eq!(replies, vec![Event::Ready]);

    let replies = worker_replies(WorkerTask::Nothing, None);
    assert_eq!(replies, vec![Event::Ready]);
}
