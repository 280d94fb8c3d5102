//! Driving the connection service pipeline with a scripted peer: phase
//! order, the upload round trip, the shell loop, and the independence of
//! two simultaneous connections.

use runet::config::ProgOptions;
use runet::pipeline::{start, step, Action, Event, PipelineState, SaveOutcome};

fn bytes(s: &str) -> Vec<u8> {
    s.as_bytes().to_vec()
}

fn options(upload: bool, execute: &str, command: bool) -> ProgOptions {
    ProgOptions {
        listen: true,
        command,
        upload,
        execute: bytes(execute),
        target: Vec::new(),
        upload_dest: bytes("/tmp/upload.bin"),
        port: 4444,
    }
}

#[test]
fn all_phases_run_in_fixed_order() {
    let opts = options(true, "echo hi", true);
    let mut writes: Vec<Vec<u8>> = Vec::new();

    // Upload phase comes first.
    let (state, action) = start(&opts);
    assert_eq!(action, Action::ReadChunk);
    let (state, action) = step(&opts, state, Event::ChunkEnd);
    assert!(matches!(action, Action::SaveFile { .. }));
    let (state, action) = step(
        &opts,
        state,
        Event::FileOutcome { outcome: SaveOutcome::Written },
    );
    match &action {
        Action::Send { data } => writes.push(data.clone()),
        other => panic!("expected a confirmation write, got {:?}", other),
    }

    // Execute phase follows.
    let (state, action) = step(&opts, state, Event::Sent { ok: true });
    match &action {
        Action::RunCommand { program, args } => {
            assert_eq!(program, &bytes("echo"));
            assert_eq!(args, &vec![bytes("hi")]);
        },
        other => panic!("expected the one-shot command, got {:?}", other),
    }
    let (state, action) = step(
        &opts,
        state,
        Event::CommandDone { stdout: Some(bytes("hi\n")) },
    );
    match &action {
        Action::Send { data } => writes.push(data.clone()),
        other => panic!("expected the command output write, got {:?}", other),
    }

    // Shell phase comes last.
    let (_state, action) = step(&opts, state, Event::Sent { ok: true });
    match &action {
        Action::Send { data } => writes.push(data.clone()),
        other => panic!("expected the prompt write, got {:?}", other),
    }

    assert_eq!(
        writes,
        vec![bytes("Wrote file\n"), bytes("hi\n"), bytes("\n<RUNET:#> ")]
    );
}

#[test]
fn disabled_phases_are_skipped_entirely() {
    // Only the shell is on: the first action is already the prompt.
    let opts = options(false, "", true);
    let (state, action) = start(&opts);
    assert_eq!(state, PipelineState::Prompting);
    assert_eq!(action, Action::Send { data: bytes("\n<RUNET:#> ") });

    // Only the one-shot command is on.
    let opts = options(false, "pwd", false);
    let (state, action) = start(&opts);
    assert_eq!(state, PipelineState::Executing);
    assert_eq!(
        action,
        Action::RunCommand { program: bytes("pwd"), args: Vec::new() }
    );
    // After its output is sent, nothing else runs.
    let (state, _action) = step(
        &opts,
        state,
        Event::CommandDone { stdout: Some(bytes("/\n")) },
    );
    let (state, action) = step(&opts, state, Event::Sent { ok: true });
    assert_eq!(state, PipelineState::Done);
    assert_eq!(action, Action::Finish);
}

#[test]
fn no_enabled_phase_means_immediate_return() {
    let opts = options(false, "", false);
    let (state, action) = start(&opts);
    assert_eq!(state, PipelineState::Done);
    assert_eq!(action, Action::Finish);
}

#[test]
fn upload_saves_exactly_the_sent_bytes_and_confirms() {
    let opts = options(true, "", false);
    let (state, action) = start(&opts);
    assert_eq!(action, Action::ReadChunk);

    let (state, action) = step(&opts, state, Event::Chunk { data: bytes("abc") });
    assert_eq!(action, Action::ReadChunk);
    let (state, action) = step(&opts, state, Event::Chunk { data: bytes("de") });
    assert_eq!(action, Action::ReadChunk);

    // The peer closes: the five bytes go to the configured destination.
    let (state, action) = step(&opts, state, Event::ChunkEnd);
    assert_eq!(
        action,
        Action::SaveFile { path: bytes("/tmp/upload.bin"), contents: bytes("abcde") }
    );

    // The confirmation line goes back before the handler moves on.
    let (state, action) = step(
        &opts,
        state,
        Event::FileOutcome { outcome: SaveOutcome::Written },
    );
    assert_eq!(action, Action::Send { data: bytes("Wrote file\n") });
    let (state, action) = step(&opts, state, Event::Sent { ok: true });
    assert_eq!(state, PipelineState::Done);
    assert_eq!(action, Action::Finish);
}

#[test]
fn upload_write_failure_reports_the_failure_line() {
    let opts = options(true, "", false);
    let (state, _action) = start(&opts);
    let (state, _action) = step(&opts, state, Event::ChunkEnd);
    let (_state, action) = step(
        &opts,
        state,
        Event::FileOutcome { outcome: SaveOutcome::WriteFailed },
    );
    assert_eq!(action, Action::Send { data: bytes("Unable to write file\n") });
}

#[test]
fn upload_create_failure_is_fatal_for_the_connection() {
    let opts = options(true, "echo hi", true);
    let (state, _action) = start(&opts);
    let (state, _action) = step(&opts, state, Event::ChunkEnd);
    let (state, action) = step(
        &opts,
        state,
        Event::FileOutcome { outcome: SaveOutcome::CreateFailed },
    );
    assert_eq!(state, PipelineState::Done);
    assert_eq!(action, Action::Finish);
}

#[test]
fn shell_runs_one_trimmed_line_per_prompt() {
    let opts = options(false, "", true);
    let (state, action) = start(&opts);
    assert_eq!(action, Action::Send { data: bytes("\n<RUNET:#> ") });

    // The prompt went out; one line comes back and runs, trimmed.
    let (state, action) = step(&opts, state, Event::Sent { ok: true });
    assert_eq!(action, Action::ReadLine);
    let (state, action) = step(
        &opts,
        state,
        Event::LineRead { line: Some(bytes("pwd\n")) },
    );
    assert_eq!(
        action,
        Action::RunCommand { program: bytes("pwd"), args: Vec::new() }
    );

    // Its output is answered before the next prompt.
    let (state, action) = step(
        &opts,
        state,
        Event::CommandDone { stdout: Some(bytes("/root\n")) },
    );
    assert_eq!(action, Action::Send { data: bytes("/root\n") });
    let (state, action) = step(&opts, state, Event::Sent { ok: true });
    assert_eq!(action, Action::Send { data: bytes("\n<RUNET:#> ") });

    // A second line gives a second, separate invocation.
    let (state, action) = step(&opts, state, Event::Sent { ok: true });
    assert_eq!(action, Action::ReadLine);
    let (_state, action) = step(
        &opts,
        state,
        Event::LineRead { line: Some(bytes("ls -l\n")) },
    );
    assert_eq!(
        action,
        Action::RunCommand { program: bytes("ls"), args: vec![bytes("-l")] }
    );
}

#[test]
fn shell_failed_spawn_sends_placeholder_and_keeps_going() {
    let opts = options(false, "", true);
    let (state, _action) = start(&opts);
    let (state, _action) = step(&opts, state, Event::Sent { ok: true });
    let (state, _action) = step(
        &opts,
        state,
        Event::LineRead { line: Some(bytes("nosuchprogram\n")) },
    );
    let (state, action) = step(&opts, state, Event::CommandDone { stdout: None });
    assert_eq!(action, Action::Send { data: bytes("Command failed to start\n") });
    let (_state, action) = step(&opts, state, Event::Sent { ok: true });
    assert_eq!(action, Action::Send { data: bytes("\n<RUNET:#> ") });
}

#[test]
fn shell_reply_write_failure_ends_the_handler() {
    let opts = options(false, "", true);
    let (state, _action) = start(&opts);
    let (state, _action) = step(&opts, state, Event::Sent { ok: true });
    let (state, _action) = step(
        &opts,
        state,
        Event::LineRead { line: Some(bytes("pwd\n")) },
    );
    let (state, _action) = step(
        &opts,
        state,
        Event::CommandDone { stdout: Some(bytes("/root\n")) },
    );
    let (state, action) = step(&opts, state, Event::Sent { ok: false });
    assert_eq!(state, PipelineState::Done);
    assert_eq!(action, Action::Finish);
}

#[test]
fn confirmation_write_failure_ends_the_handler() {
    let opts = options(true, "echo hi", true);
    let (state, _action) = start(&opts);
    let (state, _action) = step(&opts, state, Event::ChunkEnd);
    let (state, _action) = step(
        &opts,
        state,
        Event::FileOutcome { outcome: SaveOutcome::Written },
    );
    let (state, action) = step(&opts, state, Event::Sent { ok: false });
    assert_eq!(state, PipelineState::Done);
    assert_eq!(action, Action::Finish);
}

#[test]
fn output_write_failure_ends_the_handler() {
    let opts = options(false, "echo hi", true);
    let (state, _action) = start(&opts);
    let (state, _action) = step(
        &opts,
        state,
        Event::CommandDone { stdout: Some(bytes("hi\n")) },
    );
    let (state, action) = step(&opts, state, Event::Sent { ok: false });
    assert_eq!(state, PipelineState::Done);
    assert_eq!(action, Action::Finish);
}

#[test]
fn shell_read_failure_ends_the_handler() {
    let opts = options(false, "", true);
    let (state, _action) = start(&opts);
    let (state, _action) = step(&opts, state, Event::Sent { ok: true });
    let (state, action) = step(&opts, state, Event::LineRead { line: None });
    assert_eq!(state, PipelineState::Done);
    assert_eq!(action, Action::Finish);
}

#[test]
fn shell_prompt_write_failure_ends_the_handler() {
    let opts = options(false, "", true);
    let (state, _action) = start(&opts);
    let (state, action) = step(&opts, state, Event::Sent { ok: false });
    assert_eq!(state, PipelineState::Done);
    assert_eq!(action, Action::Finish);
}

#[test]
fn execute_failure_sends_placeholder_once() {
    let opts = options(false, "nosuchprogram", false);
    let (state, action) = start(&opts);
    assert_eq!(
        action,
        Action::RunCommand { program: bytes("nosuchprogram"), args: Vec::new() }
    );
    let (state, action) = step(&opts, state, Event::CommandDone { stdout: None });
    assert_eq!(action, Action::Send { data: bytes("Command failed to start\n") });
    let (state, action) = step(&opts, state, Event::Sent { ok: true });
    assert_eq!(state, PipelineState::Done);
    assert_eq!(action, Action::Finish);
}

#[test]
fn execute_target_is_trimmed_before_running() {
    let opts = options(false, "  echo hi \n", false);
    let (_state, action) = start(&opts);
    assert_eq!(
        action,
        Action::RunCommand { program: bytes("echo"), args: vec![bytes("hi")] }
    );
}

#[test]
fn two_connections_keep_independent_histories() {
    // Two handlers for the same configuration, each owning its state, are
    // stepped interleaved: what one runs never shows up in the other.
    let opts = options(false, "", true);
    let opts2 = opts.clone();

    let (s1, _a1) = start(&opts);
    let (s2, _a2) = start(&opts2);
    let (s1, a1) = step(&opts, s1, Event::Sent { ok: true });
    let (s2, a2) = step(&opts2, s2, Event::Sent { ok: true });
    assert_eq!(a1, Action::ReadLine);
    assert_eq!(a2, Action::ReadLine);

    let (s1, a1) = step(&opts, s1, Event::LineRead { line: Some(bytes("first\n")) });
    let (s2, a2) = step(&opts2, s2, Event::LineRead { line: Some(bytes("second\n")) });
    assert_eq!(a1, Action::RunCommand { program: bytes("first"), args: Vec::new() });
    assert_eq!(a2, Action::RunCommand { program: bytes("second"), args: Vec::new() });

    let (_s1, a1) = step(
        &opts,
        s1,
        Event::CommandDone { stdout: Some(bytes("one\n")) },
    );
    let (_s2, a2) = step(
        &opts2,
        s2,
        Event::CommandDone { stdout: Some(bytes("two\n")) },
    );
    assert_eq!(a1, Action::Send { data: bytes("one\n") });
    assert_eq!(a2, Action::Send { data: bytes("two\n") });
}
