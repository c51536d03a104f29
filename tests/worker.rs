use vtype::error::TranscribeError;
use vtype::resolve::{first_found, runtime_candidates, script_locations, worker_args};
use vtype::worker::{install, recheck, Action, Launch, Request, WorkerSlot};

fn start_on_empty_slot(slot: &mut WorkerSlot<u32>, audio: &[u8], id: u32) -> Request {
    let (mut request, action) = Request::begin(slot, audio.to_vec());
    assert!(matches!(action, Action::Launch));
    let action = request.launched(slot, Launch::Spawned(id, "ready\n".to_string()));
    match action {
        Action::Send(frame) => assert_eq!(frame, vtype::frame::encode_frame(audio).unwrap()),
        _ => panic!("expected the request to be sent"),
    }
    request
}

#[test]
fn first_request_launches_and_publishes_worker() {
    let mut slot: WorkerSlot<u32> = WorkerSlot::new();
    assert!(!slot.is_running());
    let mut request = start_on_empty_slot(&mut slot, b"audio", 1);
    assert!(slot.is_running());
    let worker = slot.take().unwrap();
    assert_eq!(worker, 1);
    let action = request.exchanged(&mut slot, worker, Ok(b" hi \n".to_vec()));
    assert!(matches!(action, Action::Reply(Ok(ref t)) if t == "hi"));
    assert!(slot.is_running());
}

#[test]
fn bad_handshake_leaves_slot_empty() {
    let mut slot: WorkerSlot<u32> = WorkerSlot::new();
    let (mut request, action) = Request::begin(&slot, vec![1, 2]);
    assert!(matches!(action, Action::Launch));
    let action = request.launched(&mut slot, Launch::Spawned(3, "Traceback\n".to_string()));
    match action {
        Action::Reply(Err(e)) => assert_eq!(e, TranscribeError::NotReady("Traceback".to_string())),
        _ => panic!("expected a startup failure"),
    }
    assert!(!slot.is_running());
}

#[test]
fn launch_failures_end_the_request() {
    let mut slot: WorkerSlot<u32> = WorkerSlot::new();
    let (mut r1, _) = Request::begin(&slot, vec![]);
    assert!(matches!(
        r1.launched(&mut slot, Launch::ScriptMissing),
        Action::Reply(Err(TranscribeError::ScriptNotFound))
    ));
    let (mut r2, _) = Request::begin(&slot, vec![]);
    assert!(matches!(
        r2.launched(&mut slot, Launch::RuntimeMissing),
        Action::Reply(Err(TranscribeError::RuntimeNotFound))
    ));
    let (mut r3, _) = Request::begin(&slot, vec![]);
    let action = r3.launched(&mut slot, Launch::SpawnFailed("no such file".to_string()));
    assert!(matches!(action, Action::Reply(Err(TranscribeError::SpawnFailed(ref m))) if m == "no such file"));
    assert!(!slot.is_running());
}

#[test]
fn exited_worker_is_replaced_once() {
    let mut slot: WorkerSlot<u32> = WorkerSlot::new();
    let mut first = start_on_empty_slot(&mut slot, b"a", 1);
    let w = slot.take().unwrap();
    first.exchanged(&mut slot, w, Ok(b"one".to_vec()));

    let (mut second, action) = Request::begin(&slot, b"b".to_vec());
    assert!(matches!(action, Action::Poll));
    let w = slot.take().unwrap();
    let action = second.polled(&mut slot, w, Ok(true));
    assert!(matches!(action, Action::Launch));
    assert!(!slot.is_running());
    let action = second.launched(&mut slot, Launch::Spawned(2, "ready".to_string()));
    assert!(matches!(action, Action::Send(_)));
    let w = slot.take().unwrap();
    assert_eq!(w, 2);
    let action = second.exchanged(&mut slot, w, Ok(b"two".to_vec()));
    assert!(matches!(action, Action::Reply(Ok(ref t)) if t == "two"));
}

#[test]
fn failed_restart_is_not_retried() {
    let mut slot: WorkerSlot<u32> = WorkerSlot::new();
    let mut first = start_on_empty_slot(&mut slot, b"a", 1);
    let w = slot.take().unwrap();
    first.exchanged(&mut slot, w, Ok(b"one".to_vec()));

    let (mut second, _) = Request::begin(&slot, b"b".to_vec());
    let w = slot.take().unwrap();
    assert!(matches!(second.polled(&mut slot, w, Ok(true)), Action::Launch));
    let action = second.launched(&mut slot, Launch::Spawned(2, "crashed".to_string()));
    assert!(matches!(action, Action::Reply(Err(TranscribeError::NotReady(_)))));
    assert!(!slot.is_running());
}

#[test]
fn live_worker_is_reused() {
    let mut slot: WorkerSlot<u32> = WorkerSlot::new();
    let mut first = start_on_empty_slot(&mut slot, b"a", 5);
    let w = slot.take().unwrap();
    first.exchanged(&mut slot, w, Ok(b"one".to_vec()));

    let (mut second, action) = Request::begin(&slot, b"xy".to_vec());
    assert!(matches!(action, Action::Poll));
    let w = slot.take().unwrap();
    match second.polled(&mut slot, w, Ok(false)) {
        Action::Send(frame) => assert_eq!(frame, vec![2, 0, 0, 0, b'x', b'y']),
        _ => panic!("expected the request to be sent"),
    }
    assert_eq!(slot.take(), Some(5));
}

#[test]
fn failed_poll_keeps_worker() {
    let mut slot: WorkerSlot<u32> = WorkerSlot::new();
    let mut first = start_on_empty_slot(&mut slot, b"a", 5);
    let w = slot.take().unwrap();
    first.exchanged(&mut slot, w, Ok(b"one".to_vec()));
    let (mut second, _) = Request::begin(&slot, b"b".to_vec());
    let w = slot.take().unwrap();
    let action = second.polled(&mut slot, w, Err("poll failed".to_string()));
    assert!(matches!(action, Action::Reply(Err(TranscribeError::Io(ref m))) if m == "poll failed"));
    assert!(slot.is_running());
}

#[test]
fn worker_error_keeps_worker_usable() {
    let mut slot: WorkerSlot<u32> = WorkerSlot::new();
    let mut first = start_on_empty_slot(&mut slot, b"a", 4);
    let w = slot.take().unwrap();
    let action = first.exchanged(&mut slot, w, Ok(b"ERROR:model not loaded".to_vec()));
    match action {
        Action::Reply(Err(e)) => {
            assert_eq!(e, TranscribeError::WorkerReported("model not loaded".to_string()))
        }
        _ => panic!("expected the worker's error"),
    }
    assert!(slot.is_running());

    let (mut second, action) = Request::begin(&slot, b"b".to_vec());
    assert!(matches!(action, Action::Poll));
    let w = slot.take().unwrap();
    assert!(matches!(second.polled(&mut slot, w, Ok(false)), Action::Send(_)));
    let w = slot.take().unwrap();
    let action = second.exchanged(&mut slot, w, Ok(b"fine".to_vec()));
    assert!(matches!(action, Action::Reply(Ok(ref t)) if t == "fine"));
}

#[test]
fn pipe_failure_drops_worker() {
    let mut slot: WorkerSlot<u32> = WorkerSlot::new();
    let mut first = start_on_empty_slot(&mut slot, b"a", 4);
    let w = slot.take().unwrap();
    let action = first.exchanged(&mut slot, w, Err("broken pipe".to_string()));
    assert!(matches!(action, Action::Reply(Err(TranscribeError::Io(ref m))) if m == "broken pipe"));
    assert!(!slot.is_running());
    let (_, action) = Request::begin(&slot, b"b".to_vec());
    assert!(matches!(action, Action::Launch));
}

#[test]
fn empty_audio_is_a_valid_request() {
    let mut slot: WorkerSlot<u32> = WorkerSlot::new();
    let (mut request, _) = Request::begin(&slot, vec![]);
    match request.launched(&mut slot, Launch::Spawned(1, "ready\n".to_string())) {
        Action::Send(frame) => assert_eq!(frame, vec![0, 0, 0, 0]),
        _ => panic!("expected the request to be sent"),
    }
    let w = slot.take().unwrap();
    let action = request.exchanged(&mut slot, w, Ok(vec![]));
    assert!(matches!(action, Action::Reply(Ok(ref t)) if t.is_empty()));
}

#[test]
fn first_found_picks_earliest() {
    assert_eq!(first_found(&[false, true, true]), Some(1));
    assert_eq!(first_found(&[true, false]), Some(0));
    assert_eq!(first_found(&[false, false]), None);
    assert_eq!(first_found(&[]), None);
}

#[test]
fn launch_command_parts() {
    assert_eq!(runtime_candidates(), vec!["python3".to_string(), "python".to_string()]);
    assert_eq!(
        script_locations(),
        vec!["transcribe_wav.py".to_string(), "src-tauri/transcribe_wav.py".to_string()]
    );
    assert_eq!(
        worker_args("w.py".to_string()),
        vec!["w.py".to_string(), "--worker".to_string()]
    );
}

#[test]
fn warm_up_installs_ready_worker() {
    let mut slot: WorkerSlot<u32> = WorkerSlot::new();
    assert_eq!(install(&mut slot, Launch::Spawned(9, "ready\n".to_string())), Ok(()));
    assert!(slot.is_running());
    let (_, action) = Request::begin(&slot, vec![1]);
    assert!(matches!(action, Action::Poll));
}

#[test]
fn warm_up_rejects_unready_worker() {
    let mut slot: WorkerSlot<u32> = WorkerSlot::new();
    assert_eq!(
        install(&mut slot, Launch::Spawned(9, "no\n".to_string())),
        Err(TranscribeError::NotReady("no".to_string()))
    );
    assert!(!slot.is_running());
    assert_eq!(install(&mut slot, Launch::ScriptMissing), Err(TranscribeError::ScriptNotFound));
    assert_eq!(install(&mut slot, Launch::RuntimeMissing), Err(TranscribeError::RuntimeNotFound));
}

#[test]
fn recheck_keeps_live_and_drops_exited() {
    let mut slot: WorkerSlot<u32> = WorkerSlot::new();
    assert_eq!(install(&mut slot, Launch::Spawned(9, "ready".to_string())), Ok(()));
    let w = slot.take().unwrap();
    assert_eq!(recheck(&mut slot, w, Ok(false)), Ok(false));
    assert!(slot.is_running());
    let w = slot.take().unwrap();
    assert_eq!(
        recheck(&mut slot, w, Err("no status".to_string())),
        Err(TranscribeError::Io("no status".to_string()))
    );
    assert!(slot.is_running());
    let w = slot.take().unwrap();
    assert_eq!(recheck(&mut slot, w, Ok(true)), Ok(true));
    assert!(!slot.is_running());
}
