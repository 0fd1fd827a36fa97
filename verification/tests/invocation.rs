use shell_bridge::command::CommandSpec;
use shell_bridge::error::BridgeError;
use shell_bridge::invocation::{
    Action, ExitStatus, Invocation, Outcome, Phase, INPUT_LIMIT,
};
use shell_bridge::relay::{RelayState, RelayStep};

fn spec_of(parts: &[&str]) -> CommandSpec {
    CommandSpec::new(parts.iter().map(|s| s.to_string()).collect())
}

fn running(parts: &[&str]) -> Invocation {
    Invocation::submit(spec_of(parts), true).unwrap()
}

fn finish(inv: &mut Invocation, code: i32) {
    inv.output_ended();
    inv.process_exited(Outcome::Exited(ExitStatus::Code(code)));
    assert_eq!(inv.relay_step(), RelayStep::Stop);
    inv.relay_joined();
}

#[test]
fn a_failed_spawn_gives_no_invocation() {
    assert!(matches!(
        Invocation::submit(spec_of(&["true"]), false),
        Err(BridgeError::SpawnError)
    ));
}

#[test]
fn a_new_invocation_is_spawning() {
    let mut inv = Invocation::new(spec_of(&["ls", "pwd"]));
    assert_eq!(inv.phase(), Phase::Spawning);
    assert_eq!(inv.pending_action(), Action::Spawn);
    assert_eq!(inv.command().command_line(), "ls;pwd");
    assert_eq!(inv.relay_step(), RelayStep::Wait);
    assert_eq!(inv.try_wait(), None);
    inv.spawned();
    assert_eq!(inv.phase(), Phase::Running);
    assert_eq!(inv.pending_action(), Action::AwaitExit);
}

#[test]
fn echo_read_echo_round_trip() {
    let mut inv = running(&["echo 1", "read x", "echo got:$x", "echo done"]);
    assert_eq!(inv.command().command_line(), "echo 1;read x;echo got:$x;echo done");
    assert_eq!(inv.output_bytes(b"1\n"), 0);
    let first = inv.poll_output();
    assert_eq!(first.lines, vec!["1".to_string()]);
    assert!(!first.finished);

    assert_eq!(inv.send_input("hello".to_string()), Ok(()));
    assert_eq!(inv.relay_step(), RelayStep::Write(b"hello\n".to_vec()));
    assert_eq!(inv.relay_step(), RelayStep::Wait);

    assert_eq!(inv.output_bytes(b"got:hello\ndone\n"), 0);
    assert!(!inv.output_ended());
    inv.process_exited(Outcome::Exited(ExitStatus::Code(0)));
    assert_eq!(inv.phase(), Phase::Draining);
    assert_eq!(inv.pending_action(), Action::JoinInputRelay);
    assert_eq!(inv.relay_step(), RelayStep::Stop);
    inv.relay_joined();
    assert_eq!(inv.phase(), Phase::Completed);
    assert_eq!(inv.pending_action(), Action::Report);

    let rest = inv.poll_output();
    assert_eq!(rest.lines, vec!["got:hello".to_string(), "done".to_string()]);
    assert!(rest.finished);
    assert_eq!(inv.try_wait(), Some(Ok(ExitStatus::Code(0))));
}

#[test]
fn exit_one_without_output() {
    let mut inv = running(&["exit 1"]);
    finish(&mut inv, 1);
    assert_eq!(inv.phase(), Phase::Completed);
    let polled = inv.poll_output();
    assert!(polled.lines.is_empty());
    assert!(polled.finished);
    let status = inv.try_wait().unwrap().unwrap();
    assert_eq!(status, ExitStatus::Code(1));
    assert!(!status.success());
}

#[test]
fn polls_yield_every_line_in_order() {
    for n in [0usize, 1, 7] {
        let mut inv = running(&["seq"]);
        let mut expected = Vec::new();
        let mut got = Vec::new();
        for i in 0..n {
            expected.push(format!("line {i}"));
            inv.output_bytes(format!("line {i}\n").as_bytes());
            if i % 3 == 0 {
                got.extend(inv.poll_output().lines);
            }
        }
        finish(&mut inv, 0);
        let last = inv.poll_output();
        assert!(last.finished);
        got.extend(last.lines);
        assert_eq!(got, expected);
    }
}

#[test]
fn lines_split_over_chunks_arrive_whole() {
    let mut inv = running(&["printf"]);
    inv.output_bytes(b"hel");
    assert!(inv.poll_output().lines.is_empty());
    inv.output_bytes(b"lo\nwor");
    assert_eq!(inv.poll_output().lines, vec!["hello".to_string()]);
    inv.output_bytes(b"ld\r\n");
    assert_eq!(inv.poll_output().lines, vec!["world".to_string()]);
}

#[test]
fn an_unfinished_last_line_is_delivered_at_the_end() {
    let mut inv = running(&["printf tail"]);
    inv.output_bytes(b"tail");
    assert!(!inv.output_ended());
    assert_eq!(inv.poll_output().lines, vec!["tail".to_string()]);
}

#[test]
fn a_bad_line_is_dropped_and_the_rest_goes_on() {
    let mut inv = running(&["cat blob"]);
    let faults = inv.output_bytes(b"good\n\xff\xfe\nalso good\n");
    assert_eq!(faults, 1);
    assert_eq!(
        inv.poll_output().lines,
        vec!["good".to_string(), "also good".to_string()]
    );
    inv.output_bytes(b"\xc3");
    assert!(inv.output_ended());
    assert!(inv.poll_output().lines.is_empty());
}

#[test]
fn output_after_the_end_is_ignored() {
    let mut inv = running(&["true"]);
    inv.output_ended();
    assert_eq!(inv.output_bytes(b"late\n\xff\n"), 0);
    assert!(!inv.output_ended());
    assert!(inv.poll_output().lines.is_empty());
}

#[test]
fn polling_a_completed_invocation_twice_gives_the_marker_twice() {
    let mut inv = running(&["echo x"]);
    inv.output_bytes(b"x\n");
    finish(&mut inv, 0);
    let first = inv.poll_output();
    assert_eq!(first.lines, vec!["x".to_string()]);
    assert!(first.finished);
    let second = inv.poll_output();
    assert!(second.lines.is_empty());
    assert!(second.finished);
    assert_eq!(inv.phase(), Phase::Completed);
}

#[test]
fn input_after_completion_is_refused_as_closed() {
    let mut inv = running(&["true"]);
    finish(&mut inv, 0);
    assert_eq!(inv.send_input("late".to_string()), Err(BridgeError::ChannelClosed));
    assert_eq!(inv.send_input(String::new()), Err(BridgeError::ChannelClosed));
    assert_eq!(inv.relay_step(), RelayStep::Stop);
}

#[test]
fn a_full_input_queue_pushes_back() {
    let mut inv = running(&["cat"]);
    for i in 0..INPUT_LIMIT {
        assert_eq!(inv.send_input(format!("{i}")), Ok(()));
    }
    assert_eq!(inv.send_input("one too many".to_string()), Err(BridgeError::Backpressure));
    assert_eq!(inv.relay_step(), RelayStep::Write(b"0\n".to_vec()));
    assert_eq!(inv.send_input("fits again".to_string()), Ok(()));
}

#[test]
fn the_input_limit_is_five() {
    assert_eq!(INPUT_LIMIT, 5);
}

#[test]
fn input_is_written_line_by_line_in_order() {
    let mut inv = running(&["cat"]);
    inv.send_input("a".to_string()).unwrap();
    inv.send_input("b c".to_string()).unwrap();
    inv.send_input("".to_string()).unwrap();
    let mut stdin = Vec::new();
    while let RelayStep::Write(bytes) = inv.relay_step() {
        stdin.extend(bytes);
    }
    assert_eq!(stdin, b"a\nb c\n\n".to_vec());
    assert_eq!(inv.relay_step(), RelayStep::Wait);
}

#[test]
fn cancelling_stops_the_relay_without_further_input() {
    let mut inv = running(&["true"]);
    assert_eq!(inv.relay_step(), RelayStep::Wait);
    inv.process_exited(Outcome::Exited(ExitStatus::Code(0)));
    assert_eq!(inv.relay_state(), RelayState::Cancelled);
    assert_eq!(inv.relay_step(), RelayStep::Stop);
}

#[test]
fn a_cancelled_relay_leaves_queued_input_unwritten() {
    let mut inv = running(&["true"]);
    inv.send_input("never read".to_string()).unwrap();
    inv.process_exited(Outcome::Exited(ExitStatus::Code(0)));
    assert_eq!(inv.relay_step(), RelayStep::Stop);
    assert_eq!(inv.send_input("x".to_string()), Err(BridgeError::ChannelClosed));
}

#[test]
fn a_write_failure_stops_only_the_input_relay() {
    let mut inv = running(&["head -1"]);
    inv.output_bytes(b"before\n");
    inv.send_input("x".to_string()).unwrap();
    assert_eq!(inv.relay_step(), RelayStep::Write(b"x\n".to_vec()));
    inv.write_failed();
    assert_eq!(inv.relay_fault(), Some(BridgeError::IoError));
    assert_eq!(inv.phase(), Phase::Running);
    assert_eq!(inv.relay_step(), RelayStep::Stop);
    assert_eq!(inv.send_input("y".to_string()), Err(BridgeError::ChannelClosed));

    inv.output_bytes(b"after\n");
    assert_eq!(
        inv.poll_output().lines,
        vec!["before".to_string(), "after".to_string()]
    );
    finish(&mut inv, 0);
    assert_eq!(inv.try_wait(), Some(Ok(ExitStatus::Code(0))));
    assert_eq!(inv.relay_fault(), Some(BridgeError::IoError));
}

#[test]
fn closing_the_input_lets_the_relay_finish_what_is_queued() {
    let mut inv = running(&["cat"]);
    inv.send_input("last".to_string()).unwrap();
    inv.close_input();
    assert_eq!(inv.send_input("more".to_string()), Err(BridgeError::ChannelClosed));
    assert_eq!(inv.relay_step(), RelayStep::Write(b"last\n".to_vec()));
    assert_eq!(inv.relay_step(), RelayStep::Stop);
    assert_eq!(inv.relay_fault(), None);
    assert_eq!(inv.phase(), Phase::Running);
}

#[test]
fn a_failed_wait_is_the_final_result() {
    let mut inv = running(&["true"]);
    inv.output_ended();
    inv.process_exited(Outcome::WaitFailed);
    inv.relay_joined();
    assert_eq!(inv.try_wait(), Some(Err(BridgeError::ProcessWaitError)));
}

#[test]
fn completion_waits_for_the_end_of_output() {
    let mut inv = running(&["echo late"]);
    inv.process_exited(Outcome::Exited(ExitStatus::Signalled));
    inv.relay_joined();
    assert_eq!(inv.phase(), Phase::Draining);
    assert_eq!(inv.pending_action(), Action::AwaitOutputEnd);
    assert_eq!(inv.try_wait(), None);
    assert!(!inv.poll_output().finished);
    inv.output_bytes(b"late\n");
    inv.output_ended();
    assert_eq!(inv.phase(), Phase::Completed);
    let polled = inv.poll_output();
    assert_eq!(polled.lines, vec!["late".to_string()]);
    assert!(polled.finished);
    assert_eq!(inv.try_wait(), Some(Ok(ExitStatus::Signalled)));
}

#[test]
fn events_out_of_turn_change_nothing() {
    let mut inv = running(&["true"]);
    inv.relay_joined();
    assert_eq!(inv.phase(), Phase::Running);
    assert_eq!(inv.relay_state(), RelayState::Running);
    inv.spawned();
    assert_eq!(inv.phase(), Phase::Running);
    finish(&mut inv, 0);
    inv.process_exited(Outcome::WaitFailed);
    inv.relay_joined();
    inv.write_failed();
    inv.spawned();
    assert_eq!(inv.phase(), Phase::Completed);
    assert_eq!(inv.try_wait(), Some(Ok(ExitStatus::Code(0))));
    assert_eq!(inv.relay_fault(), None);
}

#[test]
fn only_code_zero_is_success() {
    assert!(ExitStatus::Code(0).success());
    assert!(!ExitStatus::Code(1).success());
    assert!(!ExitStatus::Code(-1).success());
    assert!(!ExitStatus::Signalled.success());
}
