//! Files on their way from one user to another.

use feditexter::frames::{
    ack_frame, done_frame, file_frame, join_frame, leave_frame, signal_frame, typing_frame,
};
use feditexter::p2p::{udp_addrs, P2pAction, P2pEvent, P2pManager, ServingFile, SignalEvent};
use feditexter::transfer::{
    chunk_at, count_chunks, Receiver, ReceiverAction, ReceiverEvent, Sender, SenderAction,
    SenderEvent,
};
use serde_json::Value;

fn signals(acts: Vec<P2pAction>, from: u64) -> (Vec<(u64, SignalEvent)>, Vec<P2pAction>) {
    let mut out = Vec::new();
    let mut rest = Vec::new();
    for a in acts {
        match a {
            P2pAction::Signal { kind, to_user_id, file_id, data } => {
                let text = signal_frame(&kind, to_user_id, &file_id, data);
                let v: Value = serde_json::from_str(&text).unwrap();
                out.push((
                    v["to_user_id"].as_u64().unwrap(),
                    SignalEvent {
                        file_id: v["file_id"].as_str().unwrap().to_string(),
                        kind: v["type"].as_str().unwrap().to_string(),
                        data: v["data"].as_str().map(|s| s.to_string()),
                        from_username: None,
                        from_user_id: Some(from),
                    },
                ));
            }
            other => rest.push(other),
        }
    }
    (out, rest)
}

#[test]
fn p2p_transfer_end_to_end() {
    let payload: Vec<u8> = (0..2_000_000u32).map(|i| (i % 251) as u8).collect();
    let mut a = P2pManager::new();
    let mut b = P2pManager::new();
    let served = ServingFile {
        file_id: "testfile-1".into(),
        mime: "application/octet-stream".into(),
        name: "blob.bin".into(),
        size: payload.len() as u64,
        bytes: payload.clone(),
    };
    a.serve(served);
    let file = ServingFile {
        file_id: "testfile-1".into(),
        mime: "application/octet-stream".into(),
        name: "blob.bin".into(),
        size: payload.len() as u64,
        bytes: payload.clone(),
    };

    let (to_a, _) = signals(b.fetch("testfile-1", 1), 2);
    assert_eq!(to_a.len(), 1);
    assert_eq!(to_a[0].0, 1);
    let mut offered = false;
    for (_, s) in to_a {
        let (_, rest) = signals(a.handle_signal(s, true), 1);
        for r in rest {
            if let P2pAction::Offer { file_id, peer_id } = r {
                assert_eq!((file_id.as_str(), peer_id), ("testfile-1", 2));
                offered = true;
            }
        }
    }
    assert!(offered);

    let mut sender = Sender::new();
    let mut receiver = Receiver::new("/cache".to_string());
    let mut disk: Vec<u8> = Vec::new();
    let mut completed = None;
    let mut act = sender.handle(&file, SenderEvent::Opened);
    loop {
        match act {
            SenderAction::Describe { event, frame } => {
                assert!(matches!(
                    event,
                    P2pEvent::Status { file_id, status }
                        if file_id == "testfile-1" && status == "sending"
                ));
                let created = receiver.handle(ReceiverEvent::Text(frame.into_bytes()));
                assert!(matches!(created, Some(ReceiverAction::Create { .. })));
                receiver.handle(ReceiverEvent::Created(true));
            }
            SenderAction::Chunk(c) => {
                assert!(receiver.accepts_chunks());
                disk.extend_from_slice(&c);
                receiver.handle(ReceiverEvent::Written { len: c.len() as u64, ok: true });
            }
            SenderAction::Finish { frame } => {
                completed = receiver.handle(ReceiverEvent::Text(frame.into_bytes()));
                break;
            }
            SenderAction::Nothing | SenderAction::Close => panic!("transfer stopped"),
        }
        act = sender.handle(&file, SenderEvent::Sent(true));
    }
    let answer = match completed {
        Some(ReceiverAction::Complete {
            file_id,
            path,
            event: P2pEvent::Complete { file_id: told, path: shown, name, mime },
            answer,
            ..
        }) => {
            assert_eq!(file_id, "testfile-1");
            assert_eq!(told, "testfile-1");
            assert_eq!(path, "/cache/testfile-1");
            assert_eq!(shown, "/cache/testfile-1");
            assert_eq!(name, "blob.bin");
            assert_eq!(mime, "application/octet-stream");
            answer
        }
        _ => panic!("completed file should exist"),
    };
    assert_eq!(receiver.wait_seconds(), Some(10));
    assert_eq!(disk.len(), payload.len());
    assert_eq!(disk, payload);
    let closed = sender.handle(&file, SenderEvent::Text(answer.into_bytes()));
    assert!(matches!(closed, SenderAction::Close));
}

#[test]
fn chunks_cover_the_file() {
    let bytes: Vec<u8> = (0..20_000u32).map(|i| i as u8).collect();
    assert_eq!(count_chunks(&bytes), 3);
    let mut all = Vec::new();
    for i in 0..3 {
        all.extend(chunk_at(&bytes, i));
    }
    assert_eq!(all, bytes);
    assert_eq!(count_chunks(&Vec::new()), 0);
}

#[test]
fn a_second_fetch_does_nothing() {
    let mut m = P2pManager::new();
    assert!(!m.fetch("f", 1).is_empty());
    assert!(m.fetch("f", 1).is_empty());
    assert!(!m.retry_fetch("f", 1).is_empty());
}

#[test]
fn unknown_files_are_refused() {
    let mut m = P2pManager::new();
    let acts = m.handle_signal(
        SignalEvent {
            file_id: "f".into(),
            kind: "fetch".into(),
            data: None,
            from_username: None,
            from_user_id: Some(7),
        },
        true,
    );
    assert!(!acts.iter().any(|a| matches!(a, P2pAction::Offer { .. })));
}

#[test]
fn early_candidates_wait_for_the_connection() {
    let mut m = P2pManager::new();
    let ice = SignalEvent {
        file_id: "f".into(),
        kind: "ice".into(),
        data: Some("c1".into()),
        from_username: None,
        from_user_id: Some(7),
    };
    assert!(m.handle_signal(ice, true).is_empty());
    let acts = m.register_peer("f", 7);
    assert!(acts.iter().any(
        |a| matches!(a, P2pAction::AddIce { candidate, .. } if candidate == "c1")
    ));
}

#[test]
fn failures_are_reported() {
    let mut m = P2pManager::new();
    m.fetch("f", 1);
    let acts = m.fail_file("f", "could not establish connection");
    assert!(acts.iter().any(|a| matches!(
        a,
        P2pAction::Emit(P2pEvent::Failed { reason, .. }) if reason == "could not establish connection"
    )));
}

#[test]
fn interrupted_downloads_are_abandoned() {
    let mut r = Receiver::new("/cache".to_string());
    let f = ServingFile {
        file_id: "x".into(),
        mime: "m".into(),
        name: "n".into(),
        size: 10,
        bytes: Vec::new(),
    };
    r.handle(ReceiverEvent::Text(file_frame(&f).into_bytes()));
    r.handle(ReceiverEvent::Created(true));
    match r.handle(ReceiverEvent::Closed) {
        Some(ReceiverAction::Abandon { part, event: P2pEvent::Failed { file_id, reason } }) => {
            assert_eq!(file_id, "x");
            assert_eq!(part, "/cache/x.part");
            assert_eq!(reason, "transfer interrupted");
        }
        _ => panic!("an unfinished file stays"),
    }
    assert!(r.handle(ReceiverEvent::Closed).is_none());
    assert_eq!(r.wait_seconds(), None);
}

#[test]
fn frames_are_json() {
    let v: Value = serde_json::from_str(&signal_frame("ice", 3, "f\"1", None)).unwrap();
    assert_eq!(v["type"], "ice");
    assert_eq!(v["to_user_id"], 3);
    assert_eq!(v["file_id"], "f\"1");
    assert!(v["data"].is_null());
    assert_eq!(done_frame(), "{\"type\":\"done\"}");
    let t: Value = serde_json::from_str(&typing_frame(9)).unwrap();
    assert_eq!(t["conversation_id"], 9);
    let j: Value = serde_json::from_str(&join_frame(1, 2)).unwrap();
    assert_eq!(j["type"], "voice_join");
    assert_eq!(j["channel_id"], 2);
    let l: Value = serde_json::from_str(&leave_frame(1, 2)).unwrap();
    assert_eq!(l["type"], "voice_leave");
    assert_eq!(l["guild_id"], 1);
}

#[test]
fn connections_are_bound_to_two_addresses() {
    assert_eq!(udp_addrs(None), vec!["127.0.0.1:0".to_string()]);
    assert_eq!(udp_addrs(Some("127.0.0.1")), vec!["127.0.0.1:0".to_string()]);
    assert_eq!(
        udp_addrs(Some("10.0.0.2")),
        vec!["127.0.0.1:0".to_string(), "10.0.0.2:0".to_string()]
    );
}

#[test]
fn failed_writes_end_the_transfer() {
    let mut r = Receiver::new("/cache".to_string());
    let f = ServingFile {
        file_id: "x".into(),
        mime: "m".into(),
        name: "n".into(),
        size: 10,
        bytes: Vec::new(),
    };
    r.handle(ReceiverEvent::Text(file_frame(&f).into_bytes()));
    r.handle(ReceiverEvent::Created(true));
    assert!(matches!(
        r.handle(ReceiverEvent::Written { len: 3, ok: false }),
        Some(ReceiverAction::Abandon { event: P2pEvent::Failed { reason, .. }, .. })
            if reason == "transfer interrupted"
    ));
    assert_eq!(r.wait_seconds(), None);
    assert!(r.handle(ReceiverEvent::Text(done_frame().into_bytes())).is_none());
    assert!(r.handle(ReceiverEvent::Closed).is_none());
}

#[test]
fn receivers_wait_for_the_sender_to_close() {
    let mut r = Receiver::new("/cache".to_string());
    assert!(r.handle(ReceiverEvent::Text(done_frame().into_bytes())).is_none());
    assert_eq!(r.wait_seconds(), Some(10));
    assert!(r.handle(ReceiverEvent::Text(ack_frame().into_bytes())).is_none());
    assert!(matches!(r.handle(ReceiverEvent::TimedOut), Some(ReceiverAction::Close)));
    assert_eq!(r.wait_seconds(), None);
}
