//! The connection service pipeline: one accepted connection is driven
//! through the configured services in a fixed order — file upload, then a
//! one-shot command, then the interactive shell — skipping whatever is
//! switched off. The pipeline is a state machine over plain values: each
//! step takes the outcome of the previous blocking operation (an event) and
//! answers with the next state and the next operation to perform (an
//! action). The unverified shell around the library owns the socket and the
//! file system and does nothing but carry actions out and report events
//! back, so every decision the handler makes is taken — and proved — here.

use vstd::prelude::*;
use crate::command::{
    args_of, command_failed_text, parse_command_line, program_of, reply_of, subvec, trim, trim_of,
};
use crate::config::{OptionsModel, ProgOptions};

verus! {

/// How saving the uploaded bytes went: the file was created and written,
/// the file was created but writing failed, or creating it failed outright
/// (which is fatal for the connection).
#[derive(Clone, Copy, PartialEq, Eq, Structural, Debug)]
pub enum SaveOutcome {
    Written,
    WriteFailed,
    CreateFailed,
}

/// The pipeline's state, over mathematical values.
#[verifier::ext_equal]
pub enum StateModel {
    /// Upload phase: reading chunks from the peer into the transfer buffer.
    Receiving { buffer: Seq<u8> },
    /// Upload phase: the stream ended; the buffer is being written out.
    Saving,
    /// Upload phase: the confirmation line is being sent to the peer.
    Confirming,
    /// Execute phase: the configured command is running.
    Executing,
    /// Execute phase: its output is being sent to the peer.
    SendingOutput,
    /// Shell phase: the prompt is being sent to the peer.
    Prompting,
    /// Shell phase: waiting for one line from the peer.
    AwaitingLine,
    /// Shell phase: the peer's command is running.
    RunningLine,
    /// Shell phase: the command's output is being sent to the peer.
    SendingReply,
    /// The handler is finished; the connection closes.
    Done,
}

/// The next blocking operation the handler must perform, over mathematical
/// values.
#[verifier::ext_equal]
pub enum ActionModel {
    /// Read one chunk from the connection, under the upload read timeout.
    ReadChunk,
    /// Create the file at `path` and write `contents` to it.
    SaveFile { path: Seq<u8>, contents: Seq<u8> },
    /// Write `data` to the peer.
    Send { data: Seq<u8> },
    /// Spawn `program` with `args`, wait, and capture its standard output.
    RunCommand { program: Seq<u8>, args: Seq<Seq<u8>> },
    /// Read one newline-terminated line from the peer, with no timeout.
    ReadLine,
    /// Close the connection and return.
    Finish,
}

/// What the last action came to, over mathematical values.
#[verifier::ext_equal]
pub enum EventModel {
    /// A chunk read returned these bytes.
    Chunk { data: Seq<u8> },
    /// A chunk read returned nothing or failed: the upload stream is over.
    ChunkEnd,
    /// How saving the uploaded bytes went.
    FileOutcome { outcome: SaveOutcome },
    /// Whether a write to the peer succeeded.
    Sent { ok: bool },
    /// The spawned command's captured standard output, or nothing when the
    /// program could not be started.
    CommandDone { stdout: Option<Seq<u8>> },
    /// One line from the peer, or nothing when the read failed or the
    /// connection closed.
    LineRead { line: Option<Seq<u8>> },
}

/// The pipeline's state.
#[derive(PartialEq, Eq, Debug)]
pub enum PipelineState {
    Receiving { buffer: Vec<u8> },
    Saving,
    Confirming,
    Executing,
    SendingOutput,
    Prompting,
    AwaitingLine,
    RunningLine,
    SendingReply,
    Done,
}

/// The next blocking operation the handler must perform.
#[derive(PartialEq, Eq, Debug)]
pub enum Action {
    ReadChunk,
    SaveFile { path: Vec<u8>, contents: Vec<u8> },
    Send { data: Vec<u8> },
    RunCommand { program: Vec<u8>, args: Vec<Vec<u8>> },
    ReadLine,
    Finish,
}

/// What the last action came to.
#[derive(PartialEq, Eq, Debug)]
pub enum Event {
    Chunk { data: Vec<u8> },
    ChunkEnd,
    FileOutcome { outcome: SaveOutcome },
    Sent { ok: bool },
    CommandDone { stdout: Option<Vec<u8>> },
    LineRead { line: Option<Vec<u8>> },
}

impl View for PipelineState {
    type V = StateModel;

    open spec fn view(&self) -> StateModel {
        match self {
            PipelineState::Receiving { buffer } => StateModel::Receiving { buffer: buffer@ },
            PipelineState::Saving => StateModel::Saving,
            PipelineState::Confirming => StateModel::Confirming,
            PipelineState::Executing => StateModel::Executing,
            PipelineState::SendingOutput => StateModel::SendingOutput,
            PipelineState::Prompting => StateModel::Prompting,
            PipelineState::AwaitingLine => StateModel::AwaitingLine,
            PipelineState::RunningLine => StateModel::RunningLine,
            PipelineState::SendingReply => StateModel::SendingReply,
            PipelineState::Done => StateModel::Done,
        }
    }
}

impl View for Action {
    type V = ActionModel;

    open spec fn view(&self) -> ActionModel {
        match self {
            Action::ReadChunk => ActionModel::ReadChunk,
            Action::SaveFile { path, contents } => ActionModel::SaveFile {
                path: path@,
                contents: contents@,
            },
            Action::Send { data } => ActionModel::Send { data: data@ },
            Action::RunCommand { program, args } => ActionModel::RunCommand {
                program: program@,
                args: args.deep_view(),
            },
            Action::ReadLine => ActionModel::ReadLine,
            Action::Finish => ActionModel::Finish,
        }
    }
}

impl View for Event {
    type V = EventModel;

    open spec fn view(&self) -> EventModel {
        match self {
            Event::Chunk { data } => EventModel::Chunk { data: data@ },
            Event::ChunkEnd => EventModel::ChunkEnd,
            Event::FileOutcome { outcome } => EventModel::FileOutcome { outcome: *outcome },
            Event::Sent { ok } => EventModel::Sent { ok: *ok },
            Event::CommandDone { stdout } => EventModel::CommandDone {
                stdout: match stdout {
                    Some(out) => Some(out@),
                    None => None,
                },
            },
            Event::LineRead { line } => EventModel::LineRead {
                line: match line {
                    Some(l) => Some(l@),
                    None => None,
                },
            },
        }
    }
}

/// The shell prompt, as bytes: a line feed followed by "<RUNET:#> ".
pub open spec fn prompt_text() -> Seq<u8> {
    seq![10u8, 60, 82, 85, 78, 69, 84, 58, 35, 62, 32]
}

/// The upload confirmation line, as bytes: "Wrote file" and a line feed.
pub open spec fn wrote_file_text() -> Seq<u8> {
    seq![87u8, 114, 111, 116, 101, 32, 102, 105, 108, 101, 10]
}

/// The upload failure line, as bytes: "Unable to write file" and a line
/// feed.
pub open spec fn write_failed_text() -> Seq<u8> {
    seq![
        85u8, 110, 97, 98, 108, 101, 32, 116, 111, 32, 119, 114, 105, 116, 101, 32, 102, 105,
        108, 101, 10,
    ]
}

/// Entry into the first enabled phase whose index is `phase` or later:
/// upload is phase 0, execute phase 1, shell phase 2; past them the
/// pipeline is done.
pub open spec fn enter_from(o: OptionsModel, phase: int) -> (StateModel, ActionModel) {
    if phase <= 0 && o.upload {
        (StateModel::Receiving { buffer: Seq::empty() }, ActionModel::ReadChunk)
    } else if phase <= 1 && o.execute.len() > 0 {
        (
            StateModel::Executing,
            ActionModel::RunCommand {
                program: program_of(trim_of(o.execute)),
                args: args_of(trim_of(o.execute)),
            },
        )
    } else if phase <= 2 && o.command {
        (StateModel::Prompting, ActionModel::Send { data: prompt_text() })
    } else {
        (StateModel::Done, ActionModel::Finish)
    }
}

/// One step of the pipeline: from the current state and the outcome of the
/// previous operation to the next state and the next operation. A write to
/// the peer that fails ends the handler, as does an event a state never
/// asked for.
pub open spec fn model_step(o: OptionsModel, s: StateModel, e: EventModel) -> (
    StateModel,
    ActionModel,
) {
    match (s, e) {
        (StateModel::Receiving { buffer }, EventModel::Chunk { data }) => (
            StateModel::Receiving { buffer: buffer + data },
            ActionModel::ReadChunk,
        ),
        (StateModel::Receiving { buffer }, EventModel::ChunkEnd) => (
            StateModel::Saving,
            ActionModel::SaveFile { path: o.upload_dest, contents: buffer },
        ),
        (StateModel::Saving, EventModel::FileOutcome { outcome }) => match outcome {
            SaveOutcome::Written => (
                StateModel::Confirming,
                ActionModel::Send { data: wrote_file_text() },
            ),
            SaveOutcome::WriteFailed => (
                StateModel::Confirming,
                ActionModel::Send { data: write_failed_text() },
            ),
            SaveOutcome::CreateFailed => (StateModel::Done, ActionModel::Finish),
        },
        (StateModel::Confirming, EventModel::Sent { ok }) => if ok {
            enter_from(o, 1)
        } else {
            (StateModel::Done, ActionModel::Finish)
        },
        (StateModel::Executing, EventModel::CommandDone { stdout }) => (
            StateModel::SendingOutput,
            ActionModel::Send { data: reply_of(stdout) },
        ),
        (StateModel::SendingOutput, EventModel::Sent { ok }) => if ok {
            enter_from(o, 2)
        } else {
            (StateModel::Done, ActionModel::Finish)
        },
        (StateModel::Prompting, EventModel::Sent { ok }) => if ok {
            (StateModel::AwaitingLine, ActionModel::ReadLine)
        } else {
            (StateModel::Done, ActionModel::Finish)
        },
        (StateModel::AwaitingLine, EventModel::LineRead { line }) => match line {
            Some(l) => (
                StateModel::RunningLine,
                ActionModel::RunCommand {
                    program: program_of(trim_of(l)),
                    args: args_of(trim_of(l)),
                },
            ),
            None => (StateModel::Done, ActionModel::Finish),
        },
        (StateModel::RunningLine, EventModel::CommandDone { stdout }) => (
            StateModel::SendingReply,
            ActionModel::Send { data: reply_of(stdout) },
        ),
        (StateModel::SendingReply, EventModel::Sent { ok }) => if ok {
            (StateModel::Prompting, ActionModel::Send { data: prompt_text() })
        } else {
            (StateModel::Done, ActionModel::Finish)
        },
        _ => (StateModel::Done, ActionModel::Finish),
    }
}

/// Builds the shell prompt as a byte vector.
pub fn prompt_message() -> (r: Vec<u8>)
    ensures
        r@ == prompt_text(),
{
    let mut r: Vec<u8> = Vec::new();
    r.push(10);
    r.push(60);
    r.push(82);
    r.push(85);
    r.push(78);
    r.push(69);
    r.push(84);
    r.push(58);
    r.push(35);
    r.push(62);
    r.push(32);
    proof {
        assert(r@ =~= prompt_text());
    }
    r
}

/// Builds the upload confirmation line as a byte vector.
pub fn wrote_file_message() -> (r: Vec<u8>)
    ensures
        r@ == wrote_file_text(),
{
    let mut r: Vec<u8> = Vec::new();
    r.push(87);
    r.push(114);
    r.push(111);
    r.push(116);
    r.push(101);
    r.push(32);
    r.push(102);
    r.push(105);
    r.push(108);
    r.push(101);
    r.push(10);
    proof {
        assert(r@ =~= wrote_file_text());
    }
    r
}

/// Builds the upload failure line as a byte vector.
pub fn write_failed_message() -> (r: Vec<u8>)
    ensures
        r@ == write_failed_text(),
{
    let mut r: Vec<u8> = Vec::new();
    r.push(85);
    r.push(110);
    r.push(97);
    r.push(98);
    r.push(108);
    r.push(101);
    r.push(32);
    r.push(116);
    r.push(111);
    r.push(32);
    r.push(119);
    r.push(114);
    r.push(105);
    r.push(116);
    r.push(101);
    r.push(32);
    r.push(102);
    r.push(105);
    r.push(108);
    r.push(101);
    r.push(10);
    proof {
        assert(r@ =~= write_failed_text());
    }
    r
}

/// Enters the first enabled phase at or after `phase`.
fn advance(opts: &ProgOptions, phase: u8) -> (r: (PipelineState, Action))
    ensures
        r.0@ == enter_from(opts@, phase as int).0,
        r.1@ == enter_from(opts@, phase as int).1,
{
    if phase <= 0 && opts.upload {
        (PipelineState::Receiving { buffer: Vec::new() }, Action::ReadChunk)
    } else if phase <= 1 && opts.execute.len() > 0 {
        let trimmed = trim(&opts.execute);
        let (program, args) = parse_command_line(&trimmed);
        (PipelineState::Executing, Action::RunCommand { program, args })
    } else if phase <= 2 && opts.command {
        (PipelineState::Prompting, Action::Send { data: prompt_message() })
    } else {
        (PipelineState::Done, Action::Finish)
    }
}

/// Starts the pipeline for one accepted connection: the first action to
/// perform and the state awaiting its outcome.
pub fn start(opts: &ProgOptions) -> (r: (PipelineState, Action))
    ensures
        r.0@ == enter_from(opts@, 0).0,
        r.1@ == enter_from(opts@, 0).1,
{
    advance(opts, 0)
}

/// One step of the pipeline over executable values. The contract ties it
/// exactly to `model_step`, so everything proved of the model holds of
/// every run.
pub fn step(opts: &ProgOptions, state: PipelineState, event: Event) -> (r: (
    PipelineState,
    Action,
))
    ensures
        r.0@ == model_step(opts@, state@, event@).0,
        r.1@ == model_step(opts@, state@, event@).1,
{
    match (state, event) {
        (PipelineState::Receiving { mut buffer }, Event::Chunk { mut data }) => {
            buffer.append(&mut data);
            (PipelineState::Receiving { buffer }, Action::ReadChunk)
        },
        (PipelineState::Receiving { buffer }, Event::ChunkEnd) => {
            let path = subvec(&opts.upload_dest, 0, opts.upload_dest.len());
            proof {
                assert(path@ =~= opts.upload_dest@);
            }
            (PipelineState::Saving, Action::SaveFile { path, contents: buffer })
        },
        (PipelineState::Saving, Event::FileOutcome { outcome }) => match outcome {
            SaveOutcome::Written => (
                PipelineState::Confirming,
                Action::Send { data: wrote_file_message() },
            ),
            SaveOutcome::WriteFailed => (
                PipelineState::Confirming,
                Action::Send { data: write_failed_message() },
            ),
            SaveOutcome::CreateFailed => (PipelineState::Done, Action::Finish),
        },
        (PipelineState::Confirming, Event::Sent { ok }) => if ok {
            advance(opts, 1)
        } else {
            (PipelineState::Done, Action::Finish)
        },
        (PipelineState::Executing, Event::CommandDone { stdout }) => (
            PipelineState::SendingOutput,
            Action::Send { data: crate::command::command_reply(stdout) },
        ),
        (PipelineState::SendingOutput, Event::Sent { ok }) => if ok {
            advance(opts, 2)
        } else {
            (PipelineState::Done, Action::Finish)
        },
        (PipelineState::Prompting, Event::Sent { ok }) => if ok {
            (PipelineState::AwaitingLine, Action::ReadLine)
        } else {
            (PipelineState::Done, Action::Finish)
        },
        (PipelineState::AwaitingLine, Event::LineRead { line }) => match line {
            Some(l) => {
                let trimmed = trim(&l);
                let (program, args) = parse_command_line(&trimmed);
                (PipelineState::RunningLine, Action::RunCommand { program, args })
            },
            None => (PipelineState::Done, Action::Finish),
        },
        (PipelineState::RunningLine, Event::CommandDone { stdout }) => (
            PipelineState::SendingReply,
            Action::Send { data: crate::command::command_reply(stdout) },
        ),
        (PipelineState::SendingReply, Event::Sent { ok }) => if ok {
            (PipelineState::Prompting, Action::Send { data: prompt_message() })
        } else {
            (PipelineState::Done, Action::Finish)
        },
        _ => (PipelineState::Done, Action::Finish),
    }
}

/// Which phase a state belongs to: upload is 0, execute 1, shell 2, and
/// the finished handler 3.
pub open spec fn phase_of(s: StateModel) -> int {
    match s {
        StateModel::Receiving { .. } => 0,
        StateModel::Saving => 0,
        StateModel::Confirming => 0,
        StateModel::Executing => 1,
        StateModel::SendingOutput => 1,
        StateModel::Prompting => 2,
        StateModel::AwaitingLine => 2,
        StateModel::RunningLine => 2,
        StateModel::SendingReply => 2,
        StateModel::Done => 3,
    }
}

/// Whether the phase with this index is switched on by the configuration.
pub open spec fn phase_enabled(o: OptionsModel, p: int) -> bool {
    if p == 0 {
        o.upload
    } else if p == 1 {
        o.execute.len() > 0
    } else if p == 2 {
        o.command
    } else {
        p == 3
    }
}

/// The events a state is waiting for: the possible outcomes of the action
/// it was handed out with.
pub open spec fn awaits(s: StateModel, e: EventModel) -> bool {
    match s {
        StateModel::Receiving { .. } => e is Chunk || e is ChunkEnd,
        StateModel::Saving => e is FileOutcome,
        StateModel::Confirming => e is Sent,
        StateModel::Executing => e is CommandDone,
        StateModel::SendingOutput => e is Sent,
        StateModel::Prompting => e is Sent,
        StateModel::AwaitingLine => e is LineRead,
        StateModel::RunningLine => e is CommandDone,
        StateModel::SendingReply => e is Sent,
        StateModel::Done => false,
    }
}

/// The pipeline starts in the first enabled phase: every phase before it
/// is switched off, the phase it lands in (unless it is already done) is
/// switched on, and with every service switched off the handler finishes
/// without touching the peer.
pub proof fn lemma_start_in_first_enabled_phase(o: OptionsModel)
    ensures
        forall|p: int| 0 <= p < phase_of(enter_from(o, 0).0) ==> !phase_enabled(o, p),
        phase_of(enter_from(o, 0).0) < 3 ==> phase_enabled(o, phase_of(enter_from(o, 0).0)),
        !o.upload && o.execute.len() == 0 && !o.command ==> enter_from(o, 0) == (
            StateModel::Done,
            ActionModel::Finish,
        ),
{
}

/// The events that end the handler at once, whatever else is configured:
/// the upload destination could not be created, a write to the peer
/// failed, or no line could be read from the peer.
pub open spec fn aborts(s: StateModel, e: EventModel) -> bool {
    ||| (s is Saving && e == (EventModel::FileOutcome { outcome: SaveOutcome::CreateFailed }))
    ||| ((s is Confirming || s is SendingOutput || s is Prompting || s is SendingReply) && e == (
        EventModel::Sent { ok: false }
    ))
    ||| (s is AwaitingLine && e == (EventModel::LineRead { line: None }))
}

/// Phases run in the fixed order upload, execute, shell: a step answering
/// an awaited event never moves to an earlier phase; short of a fatal
/// connection event, every phase it skips over is switched off and a phase
/// it lands in (other than the finished state) is switched on.
pub proof fn lemma_phases_in_order(o: OptionsModel, s: StateModel, e: EventModel)
    requires
        awaits(s, e),
    ensures
        phase_of(model_step(o, s, e).0) >= phase_of(s),
        !aborts(s, e) ==> forall|p: int|
            phase_of(s) < p < phase_of(model_step(o, s, e).0) ==> !phase_enabled(o, p),
        !aborts(s, e) && phase_of(model_step(o, s, e).0) > phase_of(s) && phase_of(
            model_step(o, s, e).0,
        ) < 3 ==> phase_enabled(o, phase_of(model_step(o, s, e).0)),
{
}

/// Where the pipeline stands after answering these events one after
/// another, starting from `s`.
pub open spec fn run_states(o: OptionsModel, s: StateModel, events: Seq<EventModel>) -> StateModel
    decreases events.len(),
{
    if events.len() == 0 {
        s
    } else {
        run_states(o, model_step(o, s, events[0]).0, events.skip(1))
    }
}

/// Over a whole run — whatever events come, in whatever order — the phase
/// never decreases: once the pipeline has left the upload phase for the
/// execute phase, or either for the shell, it never returns to an earlier
/// one.
pub proof fn lemma_phase_monotone_over_run(
    o: OptionsModel,
    s: StateModel,
    events: Seq<EventModel>,
)
    ensures
        phase_of(run_states(o, s, events)) >= phase_of(s),
    decreases events.len(),
{
    if events.len() > 0 {
        assert(phase_of(model_step(o, s, events[0]).0) >= phase_of(s));
        lemma_phase_monotone_over_run(o, model_step(o, s, events[0]).0, events.skip(1));
    }
}

/// The concatenation of a sequence of chunks, in order.
pub open spec fn concat_chunks(chunks: Seq<Seq<u8>>) -> Seq<u8>
    decreases chunks.len(),
{
    if chunks.len() == 0 {
        Seq::empty()
    } else {
        chunks[0] + concat_chunks(chunks.skip(1))
    }
}

/// Where the pipeline stands after the peer has sent these chunks, one
/// chunk event each, starting from `s`.
pub open spec fn feed_chunks(o: OptionsModel, s: StateModel, chunks: Seq<Seq<u8>>) -> StateModel
    decreases chunks.len(),
{
    if chunks.len() == 0 {
        s
    } else {
        feed_chunks(
            o,
            model_step(o, s, EventModel::Chunk { data: chunks[0] }).0,
            chunks.skip(1),
        )
    }
}

/// The upload phase persists exactly what the peer sent: any sequence of
/// chunks accumulates to its concatenation; the end of the stream saves
/// exactly those bytes to the configured destination; and the peer is sent
/// the confirmation line before the pipeline leaves the upload phase for
/// the next enabled one. A failed write of the status line ends the
/// handler, as every connection write error does.
pub proof fn lemma_upload_saves_what_was_sent(
    o: OptionsModel,
    start_buf: Seq<u8>,
    chunks: Seq<Seq<u8>>,
)
    ensures
        feed_chunks(o, StateModel::Receiving { buffer: start_buf }, chunks) == (
        StateModel::Receiving { buffer: start_buf + concat_chunks(chunks) }),
        model_step(
            o,
            StateModel::Receiving { buffer: start_buf + concat_chunks(chunks) },
            EventModel::ChunkEnd,
        ) == (
            StateModel::Saving,
            ActionModel::SaveFile {
                path: o.upload_dest,
                contents: start_buf + concat_chunks(chunks),
            },
        ),
        model_step(
            o,
            StateModel::Saving,
            EventModel::FileOutcome { outcome: SaveOutcome::Written },
        ) == (StateModel::Confirming, ActionModel::Send { data: wrote_file_text() }),
        model_step(
            o,
            StateModel::Saving,
            EventModel::FileOutcome { outcome: SaveOutcome::WriteFailed },
        ) == (StateModel::Confirming, ActionModel::Send { data: write_failed_text() }),
        model_step(o, StateModel::Confirming, EventModel::Sent { ok: true }) == enter_from(o, 1),
        model_step(o, StateModel::Confirming, EventModel::Sent { ok: false }) == (
            StateModel::Done,
            ActionModel::Finish,
        ),
    decreases chunks.len(),
{
    if chunks.len() == 0 {
        assert(start_buf + concat_chunks(chunks) =~= start_buf);
    } else {
        lemma_upload_saves_what_was_sent(o, start_buf + chunks[0], chunks.skip(1));
        assert(start_buf + chunks[0] + concat_chunks(chunks.skip(1)) =~= start_buf
            + concat_chunks(chunks));
        assert(StateModel::Receiving {
            buffer: start_buf + chunks[0] + concat_chunks(chunks.skip(1)),
        } =~= StateModel::Receiving { buffer: start_buf + concat_chunks(chunks) });
    }
}

/// One peer line in the shell phase causes exactly one command invocation,
/// on the trimmed line, and its reply goes back before the next prompt: so
/// consecutive lines give consecutive invocations and responses, in order,
/// never interleaved. The loop repeats until a read or write error ends
/// it: a failed prompt write, a failed reply write, or a failed line read
/// each ends the handler.
pub proof fn lemma_shell_runs_one_line_per_prompt(
    o: OptionsModel,
    line: Seq<u8>,
    stdout: Option<Seq<u8>>,
)
    ensures
        model_step(o, StateModel::Prompting, EventModel::Sent { ok: true }) == (
            StateModel::AwaitingLine,
            ActionModel::ReadLine,
        ),
        model_step(o, StateModel::Prompting, EventModel::Sent { ok: false }) == (
            StateModel::Done,
            ActionModel::Finish,
        ),
        model_step(o, StateModel::AwaitingLine, EventModel::LineRead { line: Some(line) }) == (
            StateModel::RunningLine,
            ActionModel::RunCommand {
                program: program_of(trim_of(line)),
                args: args_of(trim_of(line)),
            },
        ),
        model_step(o, StateModel::AwaitingLine, EventModel::LineRead { line: None }) == (
            StateModel::Done,
            ActionModel::Finish,
        ),
        model_step(o, StateModel::RunningLine, EventModel::CommandDone { stdout }) == (
            StateModel::SendingReply,
            ActionModel::Send { data: reply_of(stdout) },
        ),
        model_step(o, StateModel::SendingReply, EventModel::Sent { ok: true }) == (
            StateModel::Prompting,
            ActionModel::Send { data: prompt_text() },
        ),
        model_step(o, StateModel::SendingReply, EventModel::Sent { ok: false }) == (
            StateModel::Done,
            ActionModel::Finish,
        ),
{
}

/// The one-shot execute phase runs the configured command exactly once —
/// its entry action is the single invocation, on the trimmed configured
/// text — and sends whatever came of it (captured output, or the fixed
/// failure line) to the peer before moving on to the shell phase or
/// finishing. A failed write of the output ends the handler instead.
pub proof fn lemma_execute_runs_once_and_responds(o: OptionsModel, stdout: Option<Seq<u8>>)
    requires
        o.execute.len() > 0,
    ensures
        enter_from(o, 1) == (
            StateModel::Executing,
            ActionModel::RunCommand {
                program: program_of(trim_of(o.execute)),
                args: args_of(trim_of(o.execute)),
            },
        ),
        model_step(o, StateModel::Executing, EventModel::CommandDone { stdout }) == (
            StateModel::SendingOutput,
            ActionModel::Send { data: reply_of(stdout) },
        ),
        stdout is None ==> reply_of(stdout) == command_failed_text(),
        model_step(o, StateModel::SendingOutput, EventModel::Sent { ok: true }) == enter_from(
            o,
            2,
        ),
        model_step(o, StateModel::SendingOutput, EventModel::Sent { ok: false }) == (
            StateModel::Done,
            ActionModel::Finish,
        ),
{
}

} // verus!
