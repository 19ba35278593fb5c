use assistant_core::api_message::ThreadMessageDto;
use assistant_core::chat_completion::{ApiMessageContent, ApiTextContent};
use assistant_core::message_delta::{MessageDeltaContent, MessageDeltaDto, ThreadMessageDeltaDto};
use assistant_core::run_stream::{
    RunDto, RunStepDto, RunStream, RunStreamCommand, RunStreamInput, ThreadDto, ThreadEventDto,
};

fn run(status: &str) -> RunDto {
    RunDto { id: "run-1".to_string(), model: "llama".to_string(), status: status.to_string() }
}

fn msg(id: &str, role: &str, text: &str, status: &str) -> ThreadMessageDto {
    ThreadMessageDto {
        id: id.to_string(),
        created_at: 0,
        thread_id: Some("thread-1".to_string()),
        status: status.to_string(),
        role: role.to_string(),
        content: if text.is_empty() {
            vec![]
        } else {
            vec![ApiMessageContent::Text { text: ApiTextContent::String(text.to_string()) }]
        },
        assistant_id: None,
        run_id: None,
        metadata: None,
    }
}

fn delta(text: &str) -> ThreadMessageDeltaDto {
    ThreadMessageDeltaDto {
        id: "reply".to_string(),
        delta: MessageDeltaDto {
            role: "assistant".to_string(),
            content: vec![MessageDeltaContent::text(text)],
        },
    }
}

fn step(status: &str) -> RunStepDto {
    RunStepDto {
        id: "step-1".to_string(),
        run_id: "run-1".to_string(),
        message_id: "m2".to_string(),
        status: status.to_string(),
    }
}

/// Feeds the answers one after the other; returns the events, the commands, and the stream.
fn drive(
    mut stream: RunStream,
    inputs: Vec<RunStreamInput>,
) -> (Vec<ThreadEventDto>, Vec<RunStreamCommand>, RunStream) {
    let mut events = vec![];
    let mut commands = vec![];
    for input in inputs {
        assert!(stream.accepts(&input), "unexpected answer {:?}", input);
        let (next, mut sent, command) = stream.advance(input);
        events.append(&mut sent);
        commands.push(command);
        stream = next;
    }
    (events, commands, stream)
}

#[test]
fn new_run_asks_to_create_the_run() {
    let (stream, command) = RunStream::for_new_run("thread-1");
    assert_eq!(command, RunStreamCommand::CreateRun { thread_id: "thread-1".to_string() });
    assert!(!stream.is_finished());
    assert!(stream.accepts(&RunStreamInput::RunCreated(Err("x".to_string()))));
    assert!(!stream.accepts(&RunStreamInput::InferenceEnded));
}

#[test]
fn run_with_reply_streams_in_assistant_api_order() {
    let (stream, _) = RunStream::for_new_run("thread-1");
    let history = vec![msg("m1", "user", "hi", "completed"), msg("m2", "user", "how are you?", "completed")];
    let reply = msg("reply", "assistant", "", "in_progress");
    let reply1 = msg("reply", "assistant", "Fi", "in_progress");
    let reply2 = msg("reply", "assistant", "Fine", "in_progress");
    let done = msg("reply", "assistant", "Fine", "completed");
    let (events, commands, stream) = drive(
        stream,
        vec![
            RunStreamInput::RunCreated(Ok(run("queued"))),
            RunStreamInput::RunStarted(Ok(run("in_progress"))),
            RunStreamInput::MessagesListed(Ok(history.clone())),
            RunStreamInput::ResponseCreated(Ok(reply.clone())),
            RunStreamInput::DeltaApplied(Ok((delta("Fi"), reply1.clone()))),
            RunStreamInput::DeltaApplied(Ok((delta("ne"), reply2.clone()))),
            RunStreamInput::InferenceEnded,
            RunStreamInput::MessageCompleted(Ok(done.clone())),
            RunStreamInput::RunCompleted(Ok(run("completed"))),
        ],
    );
    assert_eq!(
        events,
        vec![
            ThreadEventDto::ThreadRunCreated(run("queued")),
            ThreadEventDto::ThreadRunQueued(run("queued")),
            ThreadEventDto::ThreadRunInProgress(run("in_progress")),
            ThreadEventDto::RunStepCreated(step("in_progress")),
            ThreadEventDto::RunStepInProgress(step("in_progress")),
            ThreadEventDto::ThreadMessageCreated(reply.clone()),
            ThreadEventDto::ThreadMessageInProgress(reply.clone()),
            ThreadEventDto::ThreadMessageDelta(delta("Fi")),
            ThreadEventDto::ThreadMessageDelta(delta("ne")),
            ThreadEventDto::ThreadMessageCompleted(done),
            ThreadEventDto::RunStepCompleted(step("completed")),
            ThreadEventDto::ThreadRunCompleted(run("completed")),
        ]
    );
    assert_eq!(
        commands,
        vec![
            RunStreamCommand::StartRun { run: run("queued") },
            RunStreamCommand::ListMessages { thread_id: "thread-1".to_string() },
            RunStreamCommand::CreateResponse {
                thread_id: "thread-1".to_string(),
                run_id: "run-1".to_string(),
            },
            RunStreamCommand::StartInference {
                model: "llama".to_string(),
                messages: history,
                message: reply,
            },
            RunStreamCommand::ApplyNextChunk { message: reply1 },
            RunStreamCommand::ApplyNextChunk { message: reply2.clone() },
            RunStreamCommand::CompleteMessage { message: reply2 },
            RunStreamCommand::CompleteRun { run: run("in_progress") },
            RunStreamCommand::Stop,
        ]
    );
    assert!(stream.is_finished());
}

#[test]
fn run_with_reply_and_no_delta() {
    let (stream, _) = RunStream::for_new_run("thread-1");
    let reply = msg("reply", "assistant", "", "in_progress");
    let (events, commands, stream) = drive(
        stream,
        vec![
            RunStreamInput::RunCreated(Ok(run("queued"))),
            RunStreamInput::RunStarted(Ok(run("in_progress"))),
            RunStreamInput::MessagesListed(Ok(vec![msg("m2", "user", "q", "completed")])),
            RunStreamInput::ResponseCreated(Ok(reply.clone())),
            RunStreamInput::InferenceEnded,
            RunStreamInput::MessageCompleted(Ok(reply.clone())),
            RunStreamInput::RunCompleted(Ok(run("completed"))),
        ],
    );
    assert_eq!(events.len(), 10);
    assert_eq!(commands[4], RunStreamCommand::CompleteMessage { message: reply });
    assert!(stream.is_finished());
}

#[test]
fn run_without_messages_is_created_started_and_completed() {
    let (stream, _) = RunStream::for_new_run("thread-1");
    let (events, commands, stream) = drive(
        stream,
        vec![
            RunStreamInput::RunCreated(Ok(run("queued"))),
            RunStreamInput::RunStarted(Ok(run("in_progress"))),
            RunStreamInput::MessagesListed(Ok(vec![])),
            RunStreamInput::RunCompleted(Ok(run("completed"))),
        ],
    );
    assert_eq!(
        events,
        vec![
            ThreadEventDto::ThreadRunCreated(run("queued")),
            ThreadEventDto::ThreadRunQueued(run("queued")),
            ThreadEventDto::ThreadRunInProgress(run("in_progress")),
            ThreadEventDto::ThreadRunCompleted(run("completed")),
        ]
    );
    assert_eq!(commands[2], RunStreamCommand::CompleteRun { run: run("in_progress") });
    assert_eq!(commands[3], RunStreamCommand::Stop);
    assert!(stream.is_finished());
}

/// The successful answers of a whole run, in order.
fn good_answers() -> Vec<RunStreamInput> {
    let reply = msg("reply", "assistant", "", "in_progress");
    vec![
        RunStreamInput::RunCreated(Ok(run("queued"))),
        RunStreamInput::RunStarted(Ok(run("in_progress"))),
        RunStreamInput::MessagesListed(Ok(vec![msg("m2", "user", "q", "completed")])),
        RunStreamInput::ResponseCreated(Ok(reply.clone())),
        RunStreamInput::DeltaApplied(Ok((delta("a"), reply.clone()))),
        RunStreamInput::InferenceEnded,
        RunStreamInput::MessageCompleted(Ok(reply)),
        RunStreamInput::RunCompleted(Ok(run("completed"))),
    ]
}

fn failed(input: &RunStreamInput) -> RunStreamInput {
    let e = "boom".to_string();
    match input {
        RunStreamInput::ThreadCreated(_) => RunStreamInput::ThreadCreated(Err(e)),
        RunStreamInput::RunCreated(_) => RunStreamInput::RunCreated(Err(e)),
        RunStreamInput::RunStarted(_) => RunStreamInput::RunStarted(Err(e)),
        RunStreamInput::MessagesListed(_) => RunStreamInput::MessagesListed(Err(e)),
        RunStreamInput::ResponseCreated(_) => RunStreamInput::ResponseCreated(Err(e)),
        RunStreamInput::DeltaApplied(_) => RunStreamInput::DeltaApplied(Err(e)),
        RunStreamInput::InferenceEnded => RunStreamInput::DeltaApplied(Err(e)),
        RunStreamInput::MessageCompleted(_) => RunStreamInput::MessageCompleted(Err(e)),
        RunStreamInput::RunCompleted(_) => RunStreamInput::RunCompleted(Err(e)),
    }
}

#[test]
fn any_failure_sends_one_error_and_ends() {
    let answers = good_answers();
    for k in 0..answers.len() {
        let (stream, _) = RunStream::for_new_run("thread-1");
        let (before, _, stream) = drive(stream, good_answers().into_iter().take(k).collect());
        let (next, events, command) = stream.advance(failed(&answers[k]));
        assert_eq!(events, vec![ThreadEventDto::Error("boom".to_string())], "failure at {}", k);
        assert_eq!(command, RunStreamCommand::Stop);
        assert!(next.is_finished());
        assert!(!before.iter().any(|e| matches!(e, ThreadEventDto::Error(_))));
        for a in good_answers() {
            assert!(!next.accepts(&a));
            assert!(!next.accepts(&failed(&a)));
        }
    }
}

#[test]
fn finished_stream_accepts_nothing() {
    let (stream, _) = RunStream::for_new_run("t");
    let (_, _, stream) = drive(stream, vec![RunStreamInput::RunCreated(Err("no".to_string()))]);
    assert!(stream.is_finished());
    assert!(!stream.accepts(&RunStreamInput::InferenceEnded));
    assert!(!stream.accepts(&RunStreamInput::RunCompleted(Ok(run("x")))));
    assert!(!stream.accepts(&RunStreamInput::ThreadCreated(Ok(ThreadDto { id: "t".to_string() }))));
}

#[test]
fn new_thread_is_sent_first_then_the_run() {
    let (stream, command) = RunStream::for_new_thread();
    assert_eq!(command, RunStreamCommand::CreateThread);
    let mut answers = vec![RunStreamInput::ThreadCreated(Ok(ThreadDto { id: "thread-7".to_string() }))];
    answers.extend(vec![
        RunStreamInput::RunCreated(Ok(run("queued"))),
        RunStreamInput::RunStarted(Ok(run("in_progress"))),
        RunStreamInput::MessagesListed(Ok(vec![])),
        RunStreamInput::RunCompleted(Ok(run("completed"))),
    ]);
    let (events, commands, stream) = drive(stream, answers);
    assert_eq!(events[0], ThreadEventDto::ThreadCreated(ThreadDto { id: "thread-7".to_string() }));
    assert_eq!(events.len(), 5);
    assert_eq!(commands[0], RunStreamCommand::CreateRun { thread_id: "thread-7".to_string() });
    assert_eq!(commands[2], RunStreamCommand::ListMessages { thread_id: "thread-7".to_string() });
    assert!(stream.is_finished());
}

#[test]
fn thread_creation_failure_ends_the_stream() {
    let (stream, _) = RunStream::for_new_thread();
    let (next, events, command) = stream.advance(RunStreamInput::ThreadCreated(Err("db down".to_string())));
    assert_eq!(events, vec![ThreadEventDto::Error("db down".to_string())]);
    assert_eq!(command, RunStreamCommand::Stop);
    assert!(next.is_finished());
}

#[test]
fn step_is_made_for_the_last_message() {
    let s = RunStepDto::message_creation_from_run("step-1", "m9", "in_progress", &run("in_progress"));
    assert_eq!(s, RunStepDto {
        id: "step-1".to_string(),
        run_id: "run-1".to_string(),
        message_id: "m9".to_string(),
        status: "in_progress".to_string(),
    });
    assert_eq!(s.clone(), s);
    assert_eq!(run("q").clone(), run("q"));
}
