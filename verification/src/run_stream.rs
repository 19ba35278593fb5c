//! The decisions of a streamed run: which event the client is sent, and which
//! call to the store or to the model comes next, after each answer.
//!
//! A run is streamed as the assistant API streams it: the run is created and
//! queued, goes in progress, a step creates the reply message, the reply grows
//! by deltas as the model produces them, then the message, the step and the run
//! are completed. Any failure is sent to the client as one error event, and the
//! stream ends there.
use vstd::prelude::*;

use crate::api_message::{ThreadMessageDto, ThreadMessageView};
use crate::message_delta::{MessageDeltaView, ThreadMessageDeltaDto};

verus! {

// ---------------------------------------------------------------------------
// Threads, runs and steps
// ---------------------------------------------------------------------------

/// A thread, known by its id.
#[derive(Debug, Clone, PartialEq, Eq)]
pub struct ThreadDto {
    pub id: String,
}

/// A run of the assistant on a thread.
#[derive(Debug, PartialEq, Eq)]
pub struct RunDto {
    pub id: String,
    pub model: String,
    pub status: String,
}

/// What a run holds, as mathematical values.
pub struct RunView {
    pub id: Seq<char>,
    pub model: Seq<char>,
    pub status: Seq<char>,
}

impl View for RunDto {
    type V = RunView;

    open spec fn view(&self) -> RunView {
        RunView { id: self.id@, model: self.model@, status: self.status@ }
    }
}

impl Clone for RunDto {
    /// A copy of the run, field by field.
    fn clone(&self) -> (copy: RunDto)
        ensures
            copy@ == self@,
    {
        RunDto { id: self.id.clone(), model: self.model.clone(), status: self.status.clone() }
    }
}

/// A step of a run that creates a message.
#[derive(Debug, PartialEq, Eq)]
pub struct RunStepDto {
    pub id: String,
    pub run_id: String,
    pub message_id: String,
    pub status: String,
}

/// What a run step holds, as mathematical values.
pub struct RunStepView {
    pub id: Seq<char>,
    pub run_id: Seq<char>,
    pub message_id: Seq<char>,
    pub status: Seq<char>,
}

impl View for RunStepDto {
    type V = RunStepView;

    open spec fn view(&self) -> RunStepView {
        RunStepView {
            id: self.id@,
            run_id: self.run_id@,
            message_id: self.message_id@,
            status: self.status@,
        }
    }
}

impl RunStepDto {
    /// The step `id` of `run` that creates the message `message_id`, in the
    /// given status.
    pub fn message_creation_from_run(id: &str, message_id: &str, status: &str, run: &RunDto) -> (step:
        RunStepDto)
        ensures
            step@ == (RunStepView {
                id: id@,
                run_id: run@.id,
                message_id: message_id@,
                status: status@,
            }),
    {
        RunStepDto {
            id: String::from_str(id),
            run_id: run.id.clone(),
            message_id: String::from_str(message_id),
            status: String::from_str(status),
        }
    }

}

impl Clone for RunStepDto {
    /// A copy of the step, field by field.
    fn clone(&self) -> (copy: RunStepDto)
        ensures
            copy@ == self@,
    {
        RunStepDto {
            id: self.id.clone(),
            run_id: self.run_id.clone(),
            message_id: self.message_id.clone(),
            status: self.status.clone(),
        }
    }
}

// ---------------------------------------------------------------------------
// Events sent to the client
// ---------------------------------------------------------------------------

/// An event of the stream a client receives.
#[derive(Debug, PartialEq, Eq)]
pub enum ThreadEventDto {
    ThreadCreated(ThreadDto),
    ThreadRunCreated(RunDto),
    ThreadRunQueued(RunDto),
    ThreadRunInProgress(RunDto),
    ThreadRunCompleted(RunDto),
    RunStepCreated(RunStepDto),
    RunStepInProgress(RunStepDto),
    RunStepCompleted(RunStepDto),
    ThreadMessageCreated(ThreadMessageDto),
    ThreadMessageInProgress(ThreadMessageDto),
    ThreadMessageDelta(ThreadMessageDeltaDto),
    ThreadMessageCompleted(ThreadMessageDto),
    Error(String),
}

/// What an event holds, as mathematical values.
pub enum EventView {
    ThreadCreated(Seq<char>),
    ThreadRunCreated(RunView),
    ThreadRunQueued(RunView),
    ThreadRunInProgress(RunView),
    ThreadRunCompleted(RunView),
    RunStepCreated(RunStepView),
    RunStepInProgress(RunStepView),
    RunStepCompleted(RunStepView),
    ThreadMessageCreated(ThreadMessageView),
    ThreadMessageInProgress(ThreadMessageView),
    ThreadMessageDelta(MessageDeltaView),
    ThreadMessageCompleted(ThreadMessageView),
    Error(Seq<char>),
}

impl View for ThreadEventDto {
    type V = EventView;

    open spec fn view(&self) -> EventView {
        match self {
            ThreadEventDto::ThreadCreated(t) => EventView::ThreadCreated(t.id@),
            ThreadEventDto::ThreadRunCreated(r) => EventView::ThreadRunCreated(r@),
            ThreadEventDto::ThreadRunQueued(r) => EventView::ThreadRunQueued(r@),
            ThreadEventDto::ThreadRunInProgress(r) => EventView::ThreadRunInProgress(r@),
            ThreadEventDto::ThreadRunCompleted(r) => EventView::ThreadRunCompleted(r@),
            ThreadEventDto::RunStepCreated(s) => EventView::RunStepCreated(s@),
            ThreadEventDto::RunStepInProgress(s) => EventView::RunStepInProgress(s@),
            ThreadEventDto::RunStepCompleted(s) => EventView::RunStepCompleted(s@),
            ThreadEventDto::ThreadMessageCreated(m) => EventView::ThreadMessageCreated(m@),
            ThreadEventDto::ThreadMessageInProgress(m) => EventView::ThreadMessageInProgress(m@),
            ThreadEventDto::ThreadMessageDelta(d) => EventView::ThreadMessageDelta(d@),
            ThreadEventDto::ThreadMessageCompleted(m) => EventView::ThreadMessageCompleted(m@),
            ThreadEventDto::Error(e) => EventView::Error(e@),
        }
    }
}

/// The views of a list of events, in order.
pub open spec fn events_view(events: Seq<ThreadEventDto>) -> Seq<EventView> {
    events.map_values(|e: ThreadEventDto| e@)
}

/// The views of a list of messages, in order.
pub open spec fn messages_view(messages: Seq<ThreadMessageDto>) -> Seq<ThreadMessageView> {
    messages.map_values(|m: ThreadMessageDto| m@)
}

// ---------------------------------------------------------------------------
// The state of a stream, what it is told and what it asks for
// ---------------------------------------------------------------------------

/// Where a stream stands: which answer it waits for, and what it keeps.
#[derive(Debug, PartialEq, Eq)]
pub enum RunStreamState {
    CreatingThread,
    CreatingRun { thread_id: String },
    StartingRun { thread_id: String },
    ListingMessages { thread_id: String, run: RunDto },
    CreatingResponse {
        thread_id: String,
        run: RunDto,
        step: RunStepDto,
        messages: Vec<ThreadMessageDto>,
    },
    Streaming { run: RunDto, step: RunStepDto, message: ThreadMessageDto },
    CompletingMessage { run: RunDto, step: RunStepDto },
    CompletingRun,
    Finished,
}

/// The state of a stream, as mathematical values.
pub enum StateView {
    CreatingThread,
    CreatingRun { thread_id: Seq<char> },
    StartingRun { thread_id: Seq<char> },
    ListingMessages { thread_id: Seq<char>, run: RunView },
    CreatingResponse {
        thread_id: Seq<char>,
        run: RunView,
        step: RunStepView,
        messages: Seq<ThreadMessageView>,
    },
    Streaming { run: RunView, step: RunStepView, message: ThreadMessageView },
    CompletingMessage { run: RunView, step: RunStepView },
    CompletingRun,
    Finished,
}

impl View for RunStreamState {
    type V = StateView;

    open spec fn view(&self) -> StateView {
        match self {
            RunStreamState::CreatingThread => StateView::CreatingThread,
            RunStreamState::CreatingRun { thread_id } => StateView::CreatingRun {
                thread_id: thread_id@,
            },
            RunStreamState::StartingRun { thread_id } => StateView::StartingRun {
                thread_id: thread_id@,
            },
            RunStreamState::ListingMessages { thread_id, run } => StateView::ListingMessages {
                thread_id: thread_id@,
                run: run@,
            },
            RunStreamState::CreatingResponse { thread_id, run, step, messages } =>
                StateView::CreatingResponse {
                thread_id: thread_id@,
                run: run@,
                step: step@,
                messages: messages_view(messages@),
            },
            RunStreamState::Streaming { run, step, message } => StateView::Streaming {
                run: run@,
                step: step@,
                message: message@,
            },
            RunStreamState::CompletingMessage { run, step } => StateView::CompletingMessage {
                run: run@,
                step: step@,
            },
            RunStreamState::CompletingRun => StateView::CompletingRun,
            RunStreamState::Finished => StateView::Finished,
        }
    }
}

/// The answer to the last call the stream asked for; an error is given by its
/// message.
#[derive(Debug, PartialEq, Eq)]
pub enum RunStreamInput {
    ThreadCreated(Result<ThreadDto, String>),
    RunCreated(Result<RunDto, String>),
    RunStarted(Result<RunDto, String>),
    MessagesListed(Result<Vec<ThreadMessageDto>, String>),
    ResponseCreated(Result<ThreadMessageDto, String>),
    DeltaApplied(Result<(ThreadMessageDeltaDto, ThreadMessageDto), String>),
    InferenceEnded,
    MessageCompleted(Result<ThreadMessageDto, String>),
    RunCompleted(Result<RunDto, String>),
}

/// An answer, as mathematical values.
pub enum InputView {
    ThreadCreated(Result<Seq<char>, Seq<char>>),
    RunCreated(Result<RunView, Seq<char>>),
    RunStarted(Result<RunView, Seq<char>>),
    MessagesListed(Result<Seq<ThreadMessageView>, Seq<char>>),
    ResponseCreated(Result<ThreadMessageView, Seq<char>>),
    DeltaApplied(Result<(MessageDeltaView, ThreadMessageView), Seq<char>>),
    InferenceEnded,
    MessageCompleted(Result<ThreadMessageView, Seq<char>>),
    RunCompleted(Result<RunView, Seq<char>>),
}

impl View for RunStreamInput {
    type V = InputView;

    open spec fn view(&self) -> InputView {
        match self {
            RunStreamInput::ThreadCreated(r) => InputView::ThreadCreated(
                match r {
                    Ok(t) => Ok(t.id@),
                    Err(e) => Err(e@),
                },
            ),
            RunStreamInput::RunCreated(r) => InputView::RunCreated(
                match r {
                    Ok(x) => Ok(x@),
                    Err(e) => Err(e@),
                },
            ),
            RunStreamInput::RunStarted(r) => InputView::RunStarted(
                match r {
                    Ok(x) => Ok(x@),
                    Err(e) => Err(e@),
                },
            ),
            RunStreamInput::MessagesListed(r) => InputView::MessagesListed(
                match r {
                    Ok(x) => Ok(messages_view(x@)),
                    Err(e) => Err(e@),
                },
            ),
            RunStreamInput::ResponseCreated(r) => InputView::ResponseCreated(
                match r {
                    Ok(x) => Ok(x@),
                    Err(e) => Err(e@),
                },
            ),
            RunStreamInput::DeltaApplied(r) => InputView::DeltaApplied(
                match r {
                    Ok(x) => Ok((x.0@, x.1@)),
                    Err(e) => Err(e@),
                },
            ),
            RunStreamInput::InferenceEnded => InputView::InferenceEnded,
            RunStreamInput::MessageCompleted(r) => InputView::MessageCompleted(
                match r {
                    Ok(x) => Ok(x@),
                    Err(e) => Err(e@),
                },
            ),
            RunStreamInput::RunCompleted(r) => InputView::RunCompleted(
                match r {
                    Ok(x) => Ok(x@),
                    Err(e) => Err(e@),
                },
            ),
        }
    }
}

/// The call the stream asks for next.
#[derive(Debug, PartialEq, Eq)]
pub enum RunStreamCommand {
    /// Create the thread.
    CreateThread,
    /// Create a run on the thread.
    CreateRun { thread_id: String },
    /// Put the run in progress.
    StartRun { run: RunDto },
    /// List the messages of the thread.
    ListMessages { thread_id: String },
    /// Mark the run completed.
    CompleteRun { run: RunDto },
    /// Create the assistant's reply message for the run.
    CreateResponse { thread_id: String, run_id: String },
    /// Ask `model` for a reply to `messages`, and apply its first chunk to `message`.
    StartInference { model: String, messages: Vec<ThreadMessageDto>, message: ThreadMessageDto },
    /// Apply the next chunk of the reply to `message`.
    ApplyNextChunk { message: ThreadMessageDto },
    /// Mark the reply message completed.
    CompleteMessage { message: ThreadMessageDto },
    /// The stream has ended.
    Stop,
}

/// A command, as mathematical values.
pub enum CommandView {
    CreateThread,
    CreateRun { thread_id: Seq<char> },
    StartRun { run: RunView },
    ListMessages { thread_id: Seq<char> },
    CompleteRun { run: RunView },
    CreateResponse { thread_id: Seq<char>, run_id: Seq<char> },
    StartInference {
        model: Seq<char>,
        messages: Seq<ThreadMessageView>,
        message: ThreadMessageView,
    },
    ApplyNextChunk { message: ThreadMessageView },
    CompleteMessage { message: ThreadMessageView },
    Stop,
}

impl View for RunStreamCommand {
    type V = CommandView;

    open spec fn view(&self) -> CommandView {
        match self {
            RunStreamCommand::CreateThread => CommandView::CreateThread,
            RunStreamCommand::CreateRun { thread_id } => CommandView::CreateRun {
                thread_id: thread_id@,
            },
            RunStreamCommand::StartRun { run } => CommandView::StartRun { run: run@ },
            RunStreamCommand::ListMessages { thread_id } => CommandView::ListMessages {
                thread_id: thread_id@,
            },
            RunStreamCommand::CompleteRun { run } => CommandView::CompleteRun { run: run@ },
            RunStreamCommand::CreateResponse { thread_id, run_id } => CommandView::CreateResponse {
                thread_id: thread_id@,
                run_id: run_id@,
            },
            RunStreamCommand::StartInference { model, messages, message } =>
                CommandView::StartInference {
                model: model@,
                messages: messages_view(messages@),
                message: message@,
            },
            RunStreamCommand::ApplyNextChunk { message } => CommandView::ApplyNextChunk {
                message: message@,
            },
            RunStreamCommand::CompleteMessage { message } => CommandView::CompleteMessage {
                message: message@,
            },
            RunStreamCommand::Stop => CommandView::Stop,
        }
    }
}

// ---------------------------------------------------------------------------
// The rules
// ---------------------------------------------------------------------------

/// Whether a stream in state `s` waits for an answer of the kind of `i`.
pub open spec fn accepts(s: StateView, i: InputView) -> bool {
    match s {
        StateView::CreatingThread => i is ThreadCreated,
        StateView::CreatingRun { .. } => i is RunCreated,
        StateView::StartingRun { .. } => i is RunStarted,
        StateView::ListingMessages { .. } => i is MessagesListed,
        StateView::CreatingResponse { .. } => i is ResponseCreated,
        StateView::Streaming { .. } => i is DeltaApplied || i is InferenceEnded,
        StateView::CompletingMessage { .. } => i is MessageCompleted,
        StateView::CompletingRun => i is RunCompleted,
        StateView::Finished => false,
    }
}

/// The error an answer reports, if it reports one.
pub open spec fn input_error(i: InputView) -> Option<Seq<char>> {
    match i {
        InputView::ThreadCreated(Err(e)) => Some(e),
        InputView::RunCreated(Err(e)) => Some(e),
        InputView::RunStarted(Err(e)) => Some(e),
        InputView::MessagesListed(Err(e)) => Some(e),
        InputView::ResponseCreated(Err(e)) => Some(e),
        InputView::DeltaApplied(Err(e)) => Some(e),
        InputView::MessageCompleted(Err(e)) => Some(e),
        InputView::RunCompleted(Err(e)) => Some(e),
        _ => None,
    }
}

/// The id the step that creates the reply message is given.
pub open spec fn reply_step_id() -> Seq<char> {
    "step-1"@
}

/// The step that creates the reply to `last`, in progress, for `run`.
pub open spec fn reply_step(run: RunView, last: ThreadMessageView) -> RunStepView {
    RunStepView {
        id: reply_step_id(),
        run_id: run.id,
        message_id: last.id,
        status: "in_progress"@,
    }
}

/// The same step, completed.
pub open spec fn completed_step(step: RunStepView) -> RunStepView {
    RunStepView { status: "completed"@, ..step }
}

/// What a stream in state `s` does on the answer `i` it waits for: its next
/// state, the events it sends, and the call it asks for next. On an answer it
/// does not wait for it stays as it is and sends nothing.
pub open spec fn step_spec(s: StateView, i: InputView) -> (StateView, Seq<EventView>, CommandView) {
    if !accepts(s, i) {
        (s, Seq::empty(), CommandView::Stop)
    } else if input_error(i) is Some {
        (StateView::Finished, seq![EventView::Error(input_error(i)->0)], CommandView::Stop)
    } else {
        match (s, i) {
            (StateView::CreatingThread, InputView::ThreadCreated(Ok(t))) => (
                StateView::CreatingRun { thread_id: t },
                seq![EventView::ThreadCreated(t)],
                CommandView::CreateRun { thread_id: t },
            ),
            (StateView::CreatingRun { thread_id }, InputView::RunCreated(Ok(run))) => (
                StateView::StartingRun { thread_id },
                seq![EventView::ThreadRunCreated(run), EventView::ThreadRunQueued(run)],
                CommandView::StartRun { run },
            ),
            (StateView::StartingRun { thread_id }, InputView::RunStarted(Ok(run))) => (
                StateView::ListingMessages { thread_id, run },
                seq![EventView::ThreadRunInProgress(run)],
                CommandView::ListMessages { thread_id },
            ),
            (
                StateView::ListingMessages { thread_id, run },
                InputView::MessagesListed(Ok(messages)),
            ) => if messages.len() == 0 {
                (StateView::CompletingRun, Seq::empty(), CommandView::CompleteRun { run })
            } else {
                let step = reply_step(run, messages.last());
                (
                    StateView::CreatingResponse { thread_id, run, step, messages },
                    seq![EventView::RunStepCreated(step), EventView::RunStepInProgress(step)],
                    CommandView::CreateResponse { thread_id, run_id: run.id },
                )
            },
            (
                StateView::CreatingResponse { thread_id, run, step, messages },
                InputView::ResponseCreated(Ok(message)),
            ) => (
                StateView::Streaming { run, step, message },
                seq![
                    EventView::ThreadMessageCreated(message),
                    EventView::ThreadMessageInProgress(message),
                ],
                CommandView::StartInference { model: run.model, messages, message },
            ),
            (StateView::Streaming { run, step, message }, InputView::DeltaApplied(Ok(applied))) => (
                StateView::Streaming { run, step, message: applied.1 },
                seq![EventView::ThreadMessageDelta(applied.0)],
                CommandView::ApplyNextChunk { message: applied.1 },
            ),
            (StateView::Streaming { run, step, message }, InputView::InferenceEnded) => (
                StateView::CompletingMessage { run, step },
                Seq::empty(),
                CommandView::CompleteMessage { message },
            ),
            (
                StateView::CompletingMessage { run, step },
                InputView::MessageCompleted(Ok(message)),
            ) => (
                StateView::CompletingRun,
                seq![
                    EventView::ThreadMessageCompleted(message),
                    EventView::RunStepCompleted(completed_step(step)),
                ],
                CommandView::CompleteRun { run },
            ),
            (StateView::CompletingRun, InputView::RunCompleted(Ok(run))) => (
                StateView::Finished,
                seq![EventView::ThreadRunCompleted(run)],
                CommandView::Stop,
            ),
            _ => (s, Seq::empty(), CommandView::Stop),
        }
    }
}

/// A streamed run, from its first call to its last event.
#[derive(Debug, PartialEq, Eq)]
pub struct RunStream {
    pub state: RunStreamState,
}

impl View for RunStream {
    type V = StateView;

    open spec fn view(&self) -> StateView {
        self.state@
    }
}

/// The answer `i` carries an error: the stream sends it and ends.
fn fail(e: String) -> (next: (RunStream, Vec<ThreadEventDto>, RunStreamCommand))
    ensures
        next.0@ == StateView::Finished,
        events_view(next.1@) == seq![EventView::Error(e@)],
        next.2@ == CommandView::Stop,
{
    let mut events: Vec<ThreadEventDto> = Vec::new();
    events.push(ThreadEventDto::Error(e));
    assert(events_view(events@) =~= seq![EventView::Error(e@)]);
    (RunStream { state: RunStreamState::Finished }, events, RunStreamCommand::Stop)
}

impl RunStream {
    /// A stream that first creates a thread, then a run on it.
    pub fn for_new_thread() -> (start: (RunStream, RunStreamCommand))
        ensures
            start.0@ == StateView::CreatingThread,
            start.1@ == CommandView::CreateThread,
    {
        (RunStream { state: RunStreamState::CreatingThread }, RunStreamCommand::CreateThread)
    }

    /// A stream that creates a run on the thread `thread_id`.
    pub fn for_new_run(thread_id: &str) -> (start: (RunStream, RunStreamCommand))
        ensures
            start.0@ == (StateView::CreatingRun { thread_id: thread_id@ }),
            start.1@ == (CommandView::CreateRun { thread_id: thread_id@ }),
    {
        (
            RunStream { state: RunStreamState::CreatingRun { thread_id: String::from_str(thread_id) } },
            RunStreamCommand::CreateRun { thread_id: String::from_str(thread_id) },
        )
    }

    /// Whether the stream waits for an answer of the kind of `input`.
    pub fn accepts(&self, input: &RunStreamInput) -> (ok: bool)
        ensures
            ok == accepts(self@, input@),
    {
        match (&self.state, input) {
            (RunStreamState::CreatingThread, RunStreamInput::ThreadCreated(_)) => true,
            (RunStreamState::CreatingRun { .. }, RunStreamInput::RunCreated(_)) => true,
            (RunStreamState::StartingRun { .. }, RunStreamInput::RunStarted(_)) => true,
            (RunStreamState::ListingMessages { .. }, RunStreamInput::MessagesListed(_)) => true,
            (RunStreamState::CreatingResponse { .. }, RunStreamInput::ResponseCreated(_)) => true,
            (RunStreamState::Streaming { .. }, RunStreamInput::DeltaApplied(_)) => true,
            (RunStreamState::Streaming { .. }, RunStreamInput::InferenceEnded) => true,
            (RunStreamState::CompletingMessage { .. }, RunStreamInput::MessageCompleted(_)) => true,
            (RunStreamState::CompletingRun, RunStreamInput::RunCompleted(_)) => true,
            _ => false,
        }
    }

    /// Whether the stream has ended.
    pub fn is_finished(&self) -> (done: bool)
        ensures
            done == (self@ is Finished),
    {
        match &self.state {
            RunStreamState::Finished => true,
            _ => false,
        }
    }

    /// The stream takes the answer it waits for: it gives its next state, the
    /// events to send to the client, in order, and the call to make next.
    pub fn advance(self, input: RunStreamInput) -> (next: (RunStream, Vec<ThreadEventDto>, RunStreamCommand))
        requires
            accepts(self@, input@),
        ensures
            (next.0@, events_view(next.1@), next.2@) == step_spec(self@, input@),
    {
        let mut events: Vec<ThreadEventDto> = Vec::new();
        match self.state {
            RunStreamState::CreatingThread => match input {
                RunStreamInput::ThreadCreated(Ok(thread)) => {
                    let thread_id = thread.id.clone();
                    let command_id = thread.id.clone();
                    events.push(ThreadEventDto::ThreadCreated(thread));
                    assert(events_view(events@) =~= seq![EventView::ThreadCreated(thread_id@)]);
                    (
                        RunStream { state: RunStreamState::CreatingRun { thread_id } },
                        events,
                        RunStreamCommand::CreateRun { thread_id: command_id },
                    )
                },
                RunStreamInput::ThreadCreated(Err(e)) => fail(e),
                _ => {
                    assert(false);
                    (RunStream { state: RunStreamState::Finished }, events, RunStreamCommand::Stop)
                },
            },
            RunStreamState::CreatingRun { thread_id } => match input {
                RunStreamInput::RunCreated(Ok(run)) => {
                    let queued = run.clone();
                    let kept = run.clone();
                    let ghost r = run@;
                    events.push(ThreadEventDto::ThreadRunCreated(run));
                    events.push(ThreadEventDto::ThreadRunQueued(queued));
                    assert(events_view(events@) =~= seq![
                        EventView::ThreadRunCreated(r),
                        EventView::ThreadRunQueued(r),
                    ]);
                    (
                        RunStream { state: RunStreamState::StartingRun { thread_id } },
                        events,
                        RunStreamCommand::StartRun { run: kept },
                    )
                },
                RunStreamInput::RunCreated(Err(e)) => fail(e),
                _ => {
                    assert(false);
                    (RunStream { state: RunStreamState::Finished }, events, RunStreamCommand::Stop)
                },
            },
            RunStreamState::StartingRun { thread_id } => match input {
                RunStreamInput::RunStarted(Ok(run)) => {
                    let kept = run.clone();
                    let ghost r = run@;
                    events.push(ThreadEventDto::ThreadRunInProgress(run));
                    assert(events_view(events@) =~= seq![EventView::ThreadRunInProgress(r)]);
                    let command_id = thread_id.clone();
                    (
                        RunStream { state: RunStreamState::ListingMessages { thread_id, run: kept } },
                        events,
                        RunStreamCommand::ListMessages { thread_id: command_id },
                    )
                },
                RunStreamInput::RunStarted(Err(e)) => fail(e),
                _ => {
                    assert(false);
                    (RunStream { state: RunStreamState::Finished }, events, RunStreamCommand::Stop)
                },
            },
            RunStreamState::ListingMessages { thread_id, run } => match input {
                RunStreamInput::MessagesListed(Ok(messages)) => {
                    if messages.len() == 0 {
                        assert(events_view(events@) =~= Seq::<EventView>::empty());
                        (
                            RunStream { state: RunStreamState::CompletingRun },
                            events,
                            RunStreamCommand::CompleteRun { run },
                        )
                    } else {
                        let last = messages.len() - 1;
                        let step = RunStepDto::message_creation_from_run(
                            "step-1",
                            messages[last].id.as_str(),
                            "in_progress",
                            &run,
                        );
                        assert(messages_view(messages@).last() == messages@[last as int]@);
                        let ghost sv = step@;
                        let kept_step = step.clone();
                        let mut in_progress = step.clone();
                        in_progress.status = String::from_str("in_progress");
                        events.push(ThreadEventDto::RunStepCreated(step));
                        events.push(ThreadEventDto::RunStepInProgress(in_progress));
                        assert(events_view(events@) =~= seq![
                            EventView::RunStepCreated(sv),
                            EventView::RunStepInProgress(sv),
                        ]);
                        let command_thread = thread_id.clone();
                        let run_id = run.id.clone();
                        (
                            RunStream {
                                state: RunStreamState::CreatingResponse {
                                    thread_id,
                                    run,
                                    step: kept_step,
                                    messages,
                                },
                            },
                            events,
                            RunStreamCommand::CreateResponse { thread_id: command_thread, run_id },
                        )
                    }
                },
                RunStreamInput::MessagesListed(Err(e)) => fail(e),
                _ => {
                    assert(false);
                    (RunStream { state: RunStreamState::Finished }, events, RunStreamCommand::Stop)
                },
            },
            RunStreamState::CreatingResponse { thread_id, run, step, messages } => match input {
                RunStreamInput::ResponseCreated(Ok(message)) => {
                    let ghost m = message@;
                    let in_progress = message.clone();
                    let kept = message.clone();
                    let to_apply = message.clone();
                    events.push(ThreadEventDto::ThreadMessageCreated(message));
                    events.push(ThreadEventDto::ThreadMessageInProgress(in_progress));
                    assert(events_view(events@) =~= seq![
                        EventView::ThreadMessageCreated(m),
                        EventView::ThreadMessageInProgress(m),
                    ]);
                    let model = run.model.clone();
                    (
                        RunStream { state: RunStreamState::Streaming { run, step, message: kept } },
                        events,
                        RunStreamCommand::StartInference { model, messages, message: to_apply },
                    )
                },
                RunStreamInput::ResponseCreated(Err(e)) => fail(e),
                _ => {
                    assert(false);
                    (RunStream { state: RunStreamState::Finished }, events, RunStreamCommand::Stop)
                },
            },
            RunStreamState::Streaming { run, step, message } => match input {
                RunStreamInput::DeltaApplied(Ok(applied)) => {
                    let (delta, updated) = applied;
                    let ghost d = delta@;
                    let to_apply = updated.clone();
                    events.push(ThreadEventDto::ThreadMessageDelta(delta));
                    assert(events_view(events@) =~= seq![EventView::ThreadMessageDelta(d)]);
                    (
                        RunStream { state: RunStreamState::Streaming { run, step, message: updated } },
                        events,
                        RunStreamCommand::ApplyNextChunk { message: to_apply },
                    )
                },
                RunStreamInput::DeltaApplied(Err(e)) => fail(e),
                RunStreamInput::InferenceEnded => {
                    assert(events_view(events@) =~= Seq::<EventView>::empty());
                    (
                        RunStream { state: RunStreamState::CompletingMessage { run, step } },
                        events,
                        RunStreamCommand::CompleteMessage { message },
                    )
                },
                _ => {
                    assert(false);
                    (RunStream { state: RunStreamState::Finished }, events, RunStreamCommand::Stop)
                },
            },
            RunStreamState::CompletingMessage { run, step } => match input {
                RunStreamInput::MessageCompleted(Ok(message)) => {
                    let ghost m = message@;
                    let mut completed = step;
                    completed.status = String::from_str("completed");
                    let ghost c = completed@;
                    events.push(ThreadEventDto::ThreadMessageCompleted(message));
                    events.push(ThreadEventDto::RunStepCompleted(completed));
                    assert(events_view(events@) =~= seq![
                        EventView::ThreadMessageCompleted(m),
                        EventView::RunStepCompleted(c),
                    ]);
                    (
                        RunStream { state: RunStreamState::CompletingRun },
                        events,
                        RunStreamCommand::CompleteRun { run },
                    )
                },
                RunStreamInput::MessageCompleted(Err(e)) => fail(e),
                _ => {
                    assert(false);
                    (RunStream { state: RunStreamState::Finished }, events, RunStreamCommand::Stop)
                },
            },
            RunStreamState::CompletingRun => match input {
                RunStreamInput::RunCompleted(Ok(run)) => {
                    let ghost r = run@;
                    events.push(ThreadEventDto::ThreadRunCompleted(run));
                    assert(events_view(events@) =~= seq![EventView::ThreadRunCompleted(r)]);
                    (RunStream { state: RunStreamState::Finished }, events, RunStreamCommand::Stop)
                },
                RunStreamInput::RunCompleted(Err(e)) => fail(e),
                _ => {
                    assert(false);
                    (RunStream { state: RunStreamState::Finished }, events, RunStreamCommand::Stop)
                },
            },
            RunStreamState::Finished => {
                assert(false);
                (RunStream { state: RunStreamState::Finished }, events, RunStreamCommand::Stop)
            },
        }
    }
}

} // verus!
