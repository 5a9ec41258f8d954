use benq_control::codec::{get_frame, set_frame};
use benq_control::control::{resolve, PendingResult, SubmittedCommand};
use benq_control::exchange::{PortAction, PortEvent};
use benq_control::worker::{Worker, WorkerAction, WorkerEvent};
use benq_control::{Command, CommandResult, Error, ProjectorControl};
use futures::channel::oneshot::{self, Canceled, Receiver};
use std::io;
use std::time::Duration;

fn submitted(command: Command) -> (SubmittedCommand, Receiver<CommandResult>) {
    let (slot, rx) = oneshot::channel();
    (SubmittedCommand { command, slot }, rx)
}

/// Steps the worker; a reply it hands out is sent at once, as a driver does.
fn step(w: &mut Worker, e: WorkerEvent) -> WorkerAction {
    assert!(w.accepts(&e), "event out of turn: {:?}", e);
    match w.step(e) {
        WorkerAction::Reply { slot, result } => {
            let _ = slot.send(result);
            assert!(w.accepts(&WorkerEvent::Replied));
            w.step(WorkerEvent::Replied)
        }
        other => other,
    }
}

/// Runs one exchange whose device echoes `frame` and then sends `reply`.
fn run_exchange(w: &mut Worker, frame: &str, reply: &str) -> WorkerAction {
    match step(w, WorkerEvent::Port(PortEvent::Cleared(Ok(())))) {
        WorkerAction::Port(PortAction::Write(b)) => assert_eq!(b, vec![13u8]),
        other => panic!("expected wake byte, got {:?}", other),
    }
    assert!(matches!(step(w, WorkerEvent::Port(PortEvent::Wrote(Ok(())))), WorkerAction::Port(PortAction::ReadPrompt)));
    match step(w, WorkerEvent::Port(PortEvent::Prompt(Ok(b'>')))) {
        WorkerAction::Port(PortAction::Write(b)) => assert_eq!(b, frame.as_bytes().to_vec()),
        other => panic!("expected frame, got {:?}", other),
    }
    assert!(matches!(step(w, WorkerEvent::Port(PortEvent::Wrote(Ok(())))), WorkerAction::Port(PortAction::Listen)));
    let echo = frame.as_bytes().to_vec();
    assert!(matches!(step(w, WorkerEvent::Port(PortEvent::Received(Ok(echo)))), WorkerAction::Port(PortAction::ReadMore)));
    assert!(matches!(step(w, WorkerEvent::Port(PortEvent::ReadTimedOut)), WorkerAction::Port(PortAction::ReadMore)));
    let rest = reply.as_bytes().to_vec();
    assert!(matches!(step(w, WorkerEvent::Port(PortEvent::Received(Ok(rest)))), WorkerAction::Port(PortAction::ReadMore)));
    assert!(matches!(step(w, WorkerEvent::Port(PortEvent::ReadTimedOut)), WorkerAction::Port(PortAction::ReadMore)));
    step(w, WorkerEvent::Port(PortEvent::WindowClosed))
}

#[test]
fn power_on_is_acknowledged_then_paced() {
    let (mut w, first) = Worker::new();
    assert!(matches!(first, WorkerAction::Receive));
    let (sc, mut rx) = submitted(Command::set("pow", "on"));
    assert!(matches!(step(&mut w, WorkerEvent::Dequeued(Some(sc))), WorkerAction::Port(PortAction::ClearInput)));
    let next = run_exchange(&mut w, &set_frame("pow", "on"), "\r\n");
    assert!(matches!(next, WorkerAction::Pause(30_000)));
    assert!(matches!(rx.try_recv(), Ok(Some(Ok(None)))));
    assert!(matches!(step(&mut w, WorkerEvent::Paused), WorkerAction::Receive));
}

#[test]
fn source_query_answers_with_payload() {
    let (mut w, _) = Worker::new();
    let (sc, mut rx) = submitted(Command::get("sour"));
    step(&mut w, WorkerEvent::Dequeued(Some(sc)));
    let next = run_exchange(&mut w, &get_frame("sour"), "*SOUR=HDMI#\r\n");
    assert!(matches!(next, WorkerAction::Pause(1)));
    match rx.try_recv() {
        Ok(Some(Ok(Some(v)))) => assert_eq!(v, "SOUR=HDMI"),
        other => panic!("unexpected {:?}", other),
    }
}

#[test]
fn missing_prompt_is_invalid_state() {
    let (mut w, _) = Worker::new();
    let (sc, mut rx) = submitted(Command::set("vol", "5"));
    step(&mut w, WorkerEvent::Dequeued(Some(sc)));
    step(&mut w, WorkerEvent::Port(PortEvent::Cleared(Ok(()))));
    step(&mut w, WorkerEvent::Port(PortEvent::Wrote(Ok(()))));
    let next = step(&mut w, WorkerEvent::Port(PortEvent::Prompt(Ok(b'?'))));
    assert!(matches!(next, WorkerAction::Pause(500)));
    assert!(matches!(rx.try_recv(), Ok(Some(Err(Error::CommandSendInvalidState)))));
}

#[test]
fn read_failure_other_than_timeout_is_io_error() {
    let (mut w, _) = Worker::new();
    let (sc, mut rx) = submitted(Command::get("pow"));
    step(&mut w, WorkerEvent::Dequeued(Some(sc)));
    step(&mut w, WorkerEvent::Port(PortEvent::Cleared(Ok(()))));
    step(&mut w, WorkerEvent::Port(PortEvent::Wrote(Ok(()))));
    step(&mut w, WorkerEvent::Port(PortEvent::Prompt(Ok(b'>'))));
    step(&mut w, WorkerEvent::Port(PortEvent::Wrote(Ok(()))));
    let broken = io::Error::new(io::ErrorKind::BrokenPipe, "unplugged");
    let next = step(&mut w, WorkerEvent::Port(PortEvent::Received(Err(broken))));
    assert!(matches!(next, WorkerAction::Pause(1)));
    assert!(matches!(rx.try_recv(), Ok(Some(Err(Error::SerialIOError { .. })))));
    // the worker carries on with the next command
    assert!(matches!(step(&mut w, WorkerEvent::Paused), WorkerAction::Receive));
}

#[test]
fn write_failure_ends_exchange() {
    let (mut w, _) = Worker::new();
    let (sc, mut rx) = submitted(Command::get("pow"));
    step(&mut w, WorkerEvent::Dequeued(Some(sc)));
    step(&mut w, WorkerEvent::Port(PortEvent::Cleared(Ok(()))));
    let failed = io::Error::new(io::ErrorKind::Other, "write failed");
    assert!(matches!(step(&mut w, WorkerEvent::Port(PortEvent::Wrote(Err(failed)))), WorkerAction::Pause(1)));
    assert!(matches!(rx.try_recv(), Ok(Some(Err(Error::SerialIOError { .. })))));
}

#[test]
fn echo_mismatch_through_worker() {
    let (mut w, _) = Worker::new();
    let (sc, mut rx) = submitted(Command::get("pow"));
    step(&mut w, WorkerEvent::Dequeued(Some(sc)));
    step(&mut w, WorkerEvent::Port(PortEvent::Cleared(Ok(()))));
    step(&mut w, WorkerEvent::Port(PortEvent::Wrote(Ok(()))));
    step(&mut w, WorkerEvent::Port(PortEvent::Prompt(Ok(b'>'))));
    step(&mut w, WorkerEvent::Port(PortEvent::Wrote(Ok(()))));
    step(&mut w, WorkerEvent::Port(PortEvent::Received(Ok(b"*POW=OFF#".to_vec()))));
    step(&mut w, WorkerEvent::Port(PortEvent::WindowClosed));
    assert!(matches!(rx.try_recv(), Ok(Some(Err(Error::ResponseUnexpectedFormat(_))))));
}

#[test]
fn sleep_blocks_then_answers_without_value() {
    let (mut w, _) = Worker::new();
    let (sc, mut rx) = submitted(Command::Sleep(Duration::from_millis(5)));
    match step(&mut w, WorkerEvent::Dequeued(Some(sc))) {
        WorkerAction::Sleep(d) => assert_eq!(d, Duration::from_millis(5)),
        other => panic!("unexpected {:?}", other),
    }
    assert!(matches!(step(&mut w, WorkerEvent::Slept), WorkerAction::Pause(1)));
    assert!(matches!(rx.try_recv(), Ok(Some(Ok(None)))));
}

#[test]
fn stop_answers_and_ends_for_good() {
    let (mut w, _) = Worker::new();
    let (sc, mut rx) = submitted(Command::Stop);
    assert!(matches!(step(&mut w, WorkerEvent::Dequeued(Some(sc))), WorkerAction::Exit));
    assert!(matches!(rx.try_recv(), Ok(Some(Ok(None)))));
    let (later, _rx2) = submitted(Command::get("pow"));
    assert!(matches!(step(&mut w, WorkerEvent::Dequeued(Some(later))), WorkerAction::Exit));
    assert!(matches!(step(&mut w, WorkerEvent::Paused), WorkerAction::Exit));
}

#[test]
fn closed_queue_ends_worker() {
    let (mut w, _) = Worker::new();
    assert!(matches!(step(&mut w, WorkerEvent::Dequeued(None)), WorkerAction::Exit));
}

#[test]
fn dropped_receiver_does_not_stall_worker() {
    let (mut w, _) = Worker::new();
    let (sc, rx) = submitted(Command::set("mute", "on"));
    drop(rx);
    step(&mut w, WorkerEvent::Dequeued(Some(sc)));
    let next = run_exchange(&mut w, &set_frame("mute", "on"), "");
    assert!(matches!(next, WorkerAction::Pause(500)));
    assert!(matches!(step(&mut w, WorkerEvent::Paused), WorkerAction::Receive));
}

#[test]
fn events_out_of_turn_are_not_accepted() {
    let (w, _) = Worker::new();
    assert!(!w.accepts(&WorkerEvent::Slept));
    assert!(!w.accepts(&WorkerEvent::Port(PortEvent::WindowClosed)));
    assert!(w.accepts(&WorkerEvent::Dequeued(None)));
}

#[test]
fn replies_arrive_in_submission_order() {
    let (control, mut queue) = ProjectorControl::new();
    let keys = ["pow", "sour", "vol"];
    let mut pending = Vec::new();
    for k in keys.iter() {
        match control.submit_command(Command::get(k)) {
            PendingResult::Queued { command, reply } => pending.push((command, reply)),
            PendingResult::Refused(e) => panic!("refused: {:?}", e),
        }
    }
    let (mut w, _) = Worker::new();
    for k in keys.iter() {
        let sc = queue.try_recv().expect("queued command");
        assert!(matches!(&sc.command, Command::Get(key) if key == k));
        step(&mut w, WorkerEvent::Dequeued(Some(sc)));
        let upper = k.to_ascii_uppercase();
        run_exchange(&mut w, &get_frame(k), &format!("*{}=X#", upper));
        step(&mut w, WorkerEvent::Paused);
    }
    for (k, (command, mut reply)) in keys.iter().zip(pending.into_iter()) {
        let answer = resolve(command, reply.try_recv().map(|r| r.expect("answered")));
        assert_eq!(answer.unwrap().unwrap(), format!("{}=X", k.to_ascii_uppercase()));
    }
    assert!(queue.try_recv().is_err());
}

#[test]
fn submission_after_worker_gone_is_refused() {
    let (control, queue) = ProjectorControl::new();
    drop(queue);
    match control.submit_command(Command::get("pow")) {
        PendingResult::Refused(Error::CommandSendError { command: Command::Get(k) }) => assert_eq!(k, "pow"),
        other => panic!("unexpected {:?}", other),
    }
    assert!(matches!(control.stop(), PendingResult::Refused(Error::CommandSendError { command: Command::Stop })));
}

#[test]
fn stop_is_queued_behind_earlier_commands() {
    let (control, mut queue) = ProjectorControl::new();
    let first = control.submit_command(Command::get("pow"));
    assert!(matches!(first, PendingResult::Queued { .. }));
    assert!(matches!(control.stop(), PendingResult::Queued { command: Command::Stop, .. }));
    assert!(matches!(queue.try_recv().unwrap().command, Command::Get(_)));
    assert!(matches!(queue.try_recv().unwrap().command, Command::Stop));
}

#[test]
fn dropped_slot_resolves_to_cancelled() {
    let r = resolve(Command::get("pow"), Err(Canceled));
    assert!(matches!(r, Err(Error::Cancelled { command: Command::Get(k) }) if k == "pow"));
    let ok = resolve(Command::Stop, Ok(Ok(None)));
    assert!(matches!(ok, Ok(None)));
}

#[test]
fn commands_behind_stop_never_reach_the_port() {
    let (control, mut queue) = ProjectorControl::new();
    let before = control.submit_command(Command::get("pow"));
    let stop = control.submit_command(Command::Stop);
    let after = control.submit_command(Command::get("vol"));
    let (mut w, _) = Worker::new();

    step(&mut w, WorkerEvent::Dequeued(queue.try_recv().ok()));
    run_exchange(&mut w, &get_frame("pow"), "*POW=ON#");
    assert!(matches!(step(&mut w, WorkerEvent::Paused), WorkerAction::Receive));
    assert!(matches!(step(&mut w, WorkerEvent::Dequeued(queue.try_recv().ok())), WorkerAction::Exit));
    assert!(matches!(step(&mut w, WorkerEvent::Paused), WorkerAction::Exit));
    drop(queue);

    let answers: Vec<CommandResult> = [before, stop, after]
        .into_iter()
        .map(|p| match p {
            PendingResult::Queued { command, mut reply } => {
                resolve(command, reply.try_recv().and_then(|r| r.ok_or(Canceled)))
            }
            PendingResult::Refused(e) => Err(e),
        })
        .collect();
    assert!(matches!(&answers[0], Ok(Some(v)) if v == "POW=ON"));
    assert!(matches!(&answers[1], Ok(None)));
    assert!(matches!(&answers[2], Err(Error::Cancelled { command: Command::Get(k) }) if k == "vol"));
}

#[test]
fn timed_out_read_keeps_collecting() {
    let (mut w, _) = Worker::new();
    let (sc, mut rx) = submitted(Command::from("pow"));
    step(&mut w, WorkerEvent::Dequeued(Some(sc)));
    step(&mut w, WorkerEvent::Port(PortEvent::Cleared(Ok(()))));
    step(&mut w, WorkerEvent::Port(PortEvent::Wrote(Ok(()))));
    step(&mut w, WorkerEvent::Port(PortEvent::Prompt(Ok(b'>'))));
    step(&mut w, WorkerEvent::Port(PortEvent::Wrote(Ok(()))));
    for _ in 0..3 {
        assert!(matches!(step(&mut w, WorkerEvent::Port(PortEvent::ReadTimedOut)), WorkerAction::Port(PortAction::ReadMore)));
    }
    let reply = format!("{}*Block item#\r", get_frame("pow")).into_bytes();
    step(&mut w, WorkerEvent::Port(PortEvent::Received(Ok(reply))));
    step(&mut w, WorkerEvent::Port(PortEvent::ReadTimedOut));
    assert!(matches!(step(&mut w, WorkerEvent::Port(PortEvent::WindowClosed)), WorkerAction::Pause(1)));
    assert!(matches!(rx.try_recv(), Ok(Some(Err(Error::ResponseBlockItem)))));
}

#[test]
fn reply_is_handed_out_before_the_pause() {
    let (mut w, _) = Worker::new();
    let (sc, mut rx) = submitted(Command::Sleep(Duration::from_millis(1)));
    w.step(WorkerEvent::Dequeued(Some(sc)));
    match w.step(WorkerEvent::Slept) {
        WorkerAction::Reply { slot, result } => {
            assert!(matches!(result, Ok(None)));
            assert!(!w.accepts(&WorkerEvent::Paused));
            slot.send(result).unwrap();
        }
        other => panic!("expected a reply, got {:?}", other),
    }
    assert!(matches!(rx.try_recv(), Ok(Some(Ok(None)))));
    assert!(matches!(w.step(WorkerEvent::Replied), WorkerAction::Pause(1)));
}
