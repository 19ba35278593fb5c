//! What holds of every streamed run: the order of its events, and how it ends.
use vstd::prelude::*;

use crate::api_message::ThreadMessageView;
use crate::message_delta::MessageDeltaView;
use crate::run_stream::{
    accepts, completed_step, input_error, reply_step, step_spec, CommandView, EventView,
    InputView, RunStepView, RunView, StateView,
};

verus! {

/// The state a stream reaches from `s` on the answers `inputs`, one after the
/// other, and the events it sends on the way. An answer the stream does not
/// wait for changes nothing.
pub open spec fn run_inputs(s: StateView, inputs: Seq<InputView>) -> (StateView, Seq<EventView>)
    decreases inputs.len(),
{
    if inputs.len() == 0 {
        (s, Seq::empty())
    } else {
        let first = step_spec(s, inputs[0]);
        let rest = run_inputs(first.0, inputs.drop_first());
        (rest.0, first.1 + rest.1)
    }
}

/// Answers given one after the other: the state after all of them is the
/// state after the second part, started where the first part ended, and the
/// events are those of the first part followed by those of the second.
pub proof fn lemma_run_inputs_append(s: StateView, a: Seq<InputView>, b: Seq<InputView>)
    ensures
        run_inputs(s, a + b) == ({
            let first = run_inputs(s, a);
            let second = run_inputs(first.0, b);
            (second.0, first.1 + second.1)
        }),
    decreases a.len(),
{
    if a.len() == 0 {
        assert(a + b =~= b);
        assert(Seq::<EventView>::empty() + run_inputs(s, b).1 =~= run_inputs(s, b).1);
    } else {
        let first = step_spec(s, a[0]);
        lemma_run_inputs_append(first.0, a.drop_first(), b);
        assert((a + b).drop_first() =~= a.drop_first() + b);
        assert((a + b)[0] == a[0]);
        let x = run_inputs(first.0, a.drop_first());
        let y = run_inputs(x.0, b);
        assert(first.1 + (x.1 + y.1) =~= (first.1 + x.1) + y.1);
    }
}

/// A failed call ends the stream: whatever it waited for, an answer that
/// reports an error makes the stream send exactly that error, end, and ask
/// for nothing more.
pub proof fn lemma_error_ends_stream(s: StateView, i: InputView)
    requires
        accepts(s, i),
        input_error(i) is Some,
    ensures
        step_spec(s, i) == (
            StateView::Finished,
            seq![EventView::Error(input_error(i)->0)],
            CommandView::Stop,
        ),
{
}

/// An ended stream waits for nothing: no answer is taken, and no event is sent
/// after the end.
pub proof fn lemma_finished_is_final(inputs: Seq<InputView>)
    ensures
        forall|i: InputView| !accepts(StateView::Finished, i),
        run_inputs(StateView::Finished, inputs) == (StateView::Finished, Seq::<EventView>::empty()),
    decreases inputs.len(),
{
    if inputs.len() > 0 {
        lemma_finished_is_final(inputs.drop_first());
        assert(Seq::<EventView>::empty() + Seq::<EventView>::empty() =~= Seq::<EventView>::empty());
    }
}

/// The stream asks for no further call exactly when it has ended.
pub proof fn lemma_stop_exactly_when_finished(s: StateView, i: InputView)
    requires
        accepts(s, i),
    ensures
        (step_spec(s, i).2 is Stop) <==> (step_spec(s, i).0 is Finished),
{
}

proof fn lemma_run_one(s: StateView, i: InputView, rest: Seq<InputView>)
    ensures
        run_inputs(s, seq![i] + rest) == ({
            let first = step_spec(s, i);
            let after = run_inputs(first.0, rest);
            (after.0, first.1 + after.1)
        }),
{
    assert((seq![i] + rest).drop_first() =~= rest);
    assert((seq![i] + rest)[0] == i);
}

/// The answers of a model that applied `deltas` one by one.
pub open spec fn delta_inputs(deltas: Seq<(MessageDeltaView, ThreadMessageView)>) -> Seq<InputView> {
    deltas.map_values(|d: (MessageDeltaView, ThreadMessageView)| InputView::DeltaApplied(Ok(d)))
}

/// The delta events for `deltas`, in order.
pub open spec fn delta_events(deltas: Seq<(MessageDeltaView, ThreadMessageView)>) -> Seq<EventView> {
    deltas.map_values(|d: (MessageDeltaView, ThreadMessageView)| EventView::ThreadMessageDelta(d.0))
}

/// The reply as the last applied delta left it.
pub open spec fn reply_after(
    message: ThreadMessageView,
    deltas: Seq<(MessageDeltaView, ThreadMessageView)>,
) -> ThreadMessageView {
    if deltas.len() == 0 {
        message
    } else {
        deltas.last().1
    }
}

/// While the reply is generated, every applied delta is sent on, in the order
/// the model produced them, and the stream keeps the reply as the last delta
/// left it.
pub proof fn lemma_deltas_forwarded_in_order(
    run: RunView,
    step: RunStepView,
    message: ThreadMessageView,
    deltas: Seq<(MessageDeltaView, ThreadMessageView)>,
)
    ensures
        run_inputs(StateView::Streaming { run, step, message }, delta_inputs(deltas)) == (
            StateView::Streaming { run, step, message: reply_after(message, deltas) },
            delta_events(deltas),
        ),
    decreases deltas.len(),
{
    if deltas.len() > 0 {
        let d0 = deltas[0];
        let rest = deltas.drop_first();
        lemma_deltas_forwarded_in_order(run, step, d0.1, rest);
        assert(delta_inputs(deltas) =~= seq![InputView::DeltaApplied(Ok(d0))] + delta_inputs(rest));
        lemma_run_one(
            StateView::Streaming { run, step, message },
            InputView::DeltaApplied(Ok(d0)),
            delta_inputs(rest),
        );
        assert(delta_events(deltas) =~= seq![EventView::ThreadMessageDelta(d0.0)] + delta_events(rest));
        if rest.len() > 0 {
            assert(rest.last() == deltas.last());
        }
    } else {
        assert(delta_inputs(deltas) =~= Seq::<InputView>::empty());
        assert(delta_events(deltas) =~= Seq::<EventView>::empty());
    }
}

/// A run on a thread with no message: the run is created, queued, put in
/// progress and completed, and nothing else is sent.
pub proof fn lemma_run_without_messages(
    thread_id: Seq<char>,
    created: RunView,
    started: RunView,
    messages: Seq<ThreadMessageView>,
    completed: RunView,
)
    requires
        messages.len() == 0,
    ensures
        run_inputs(
            StateView::CreatingRun { thread_id },
            seq![
                InputView::RunCreated(Ok(created)),
                InputView::RunStarted(Ok(started)),
                InputView::MessagesListed(Ok(messages)),
                InputView::RunCompleted(Ok(completed)),
            ],
        ) == (
            StateView::Finished,
            seq![
                EventView::ThreadRunCreated(created),
                EventView::ThreadRunQueued(created),
                EventView::ThreadRunInProgress(started),
                EventView::ThreadRunCompleted(completed),
            ],
        ),
{
    let i0 = InputView::RunCreated(Ok(created));
    let i1 = InputView::RunStarted(Ok(started));
    let i2 = InputView::MessagesListed(Ok(messages));
    let i3 = InputView::RunCompleted(Ok(completed));
    let s0 = StateView::CreatingRun { thread_id };
    let s1 = StateView::StartingRun { thread_id };
    let s2 = StateView::ListingMessages { thread_id, run: started };
    let s3 = StateView::CompletingRun;
    lemma_run_one(s3, i3, Seq::empty());
    assert(seq![i3] + Seq::<InputView>::empty() =~= seq![i3]);
    lemma_run_one(s2, i2, seq![i3]);
    assert(seq![i2] + seq![i3] =~= seq![i2, i3]);
    lemma_run_one(s1, i1, seq![i2, i3]);
    assert(seq![i1] + seq![i2, i3] =~= seq![i1, i2, i3]);
    lemma_run_one(s0, i0, seq![i1, i2, i3]);
    assert(seq![i0] + seq![i1, i2, i3] =~= seq![i0, i1, i2, i3]);
    assert(run_inputs(s0, seq![i0, i1, i2, i3]).1 =~= seq![
        EventView::ThreadRunCreated(created),
        EventView::ThreadRunQueued(created),
        EventView::ThreadRunInProgress(started),
        EventView::ThreadRunCompleted(completed),
    ]);
}

/// The answers of a run that replies to `messages`: the run is created and
/// started, the messages are listed, the reply is created, the model's deltas
/// are applied, the model ends, and the reply and the run are completed.
pub open spec fn reply_inputs(
    created: RunView,
    started: RunView,
    messages: Seq<ThreadMessageView>,
    response: ThreadMessageView,
    deltas: Seq<(MessageDeltaView, ThreadMessageView)>,
    completed_message: ThreadMessageView,
    completed_run: RunView,
) -> Seq<InputView> {
    seq![
        InputView::RunCreated(Ok(created)),
        InputView::RunStarted(Ok(started)),
        InputView::MessagesListed(Ok(messages)),
        InputView::ResponseCreated(Ok(response)),
    ] + delta_inputs(deltas) + seq![
        InputView::InferenceEnded,
        InputView::MessageCompleted(Ok(completed_message)),
        InputView::RunCompleted(Ok(completed_run)),
    ]
}

/// The events of a run that replies, in the order the assistant API streams
/// them.
pub open spec fn reply_events(
    created: RunView,
    started: RunView,
    messages: Seq<ThreadMessageView>,
    response: ThreadMessageView,
    deltas: Seq<(MessageDeltaView, ThreadMessageView)>,
    completed_message: ThreadMessageView,
    completed_run: RunView,
) -> Seq<EventView> {
    let step = reply_step(started, messages.last());
    seq![
        EventView::ThreadRunCreated(created),
        EventView::ThreadRunQueued(created),
        EventView::ThreadRunInProgress(started),
        EventView::RunStepCreated(step),
        EventView::RunStepInProgress(step),
        EventView::ThreadMessageCreated(response),
        EventView::ThreadMessageInProgress(response),
    ] + delta_events(deltas) + seq![
        EventView::ThreadMessageCompleted(completed_message),
        EventView::RunStepCompleted(completed_step(step)),
        EventView::ThreadRunCompleted(completed_run),
    ]
}

/// A run on a thread with messages streams, in this order: run created,
/// queued, in progress; the step that replies to the last message created and
/// in progress; the reply created and in progress; every delta of the reply;
/// the reply completed; the step completed; the run completed. Then it ends.
pub proof fn lemma_run_with_reply(
    thread_id: Seq<char>,
    created: RunView,
    started: RunView,
    messages: Seq<ThreadMessageView>,
    response: ThreadMessageView,
    deltas: Seq<(MessageDeltaView, ThreadMessageView)>,
    completed_message: ThreadMessageView,
    completed_run: RunView,
)
    requires
        messages.len() > 0,
    ensures
        run_inputs(
            StateView::CreatingRun { thread_id },
            reply_inputs(created, started, messages, response, deltas, completed_message, completed_run),
        ) == (
            StateView::Finished,
            reply_events(created, started, messages, response, deltas, completed_message, completed_run),
        ),
{
    let step = reply_step(started, messages.last());
    let head = seq![
        InputView::RunCreated(Ok(created)),
        InputView::RunStarted(Ok(started)),
        InputView::MessagesListed(Ok(messages)),
        InputView::ResponseCreated(Ok(response)),
    ];
    let tail = seq![
        InputView::InferenceEnded,
        InputView::MessageCompleted(Ok(completed_message)),
        InputView::RunCompleted(Ok(completed_run)),
    ];
    let s0 = StateView::CreatingRun { thread_id };
    let streaming = StateView::Streaming { run: started, step, message: response };
    let reply = reply_after(response, deltas);
    let streamed = StateView::Streaming { run: started, step, message: reply };

    // the four first answers
    let h0 = head[0];
    let h1 = head[1];
    let h2 = head[2];
    let h3 = head[3];
    lemma_run_one(StateView::CreatingResponse { thread_id, run: started, step, messages }, h3, Seq::empty());
    assert(seq![h3] + Seq::<InputView>::empty() =~= seq![h3]);
    lemma_run_one(StateView::ListingMessages { thread_id, run: started }, h2, seq![h3]);
    assert(seq![h2] + seq![h3] =~= seq![h2, h3]);
    lemma_run_one(StateView::StartingRun { thread_id }, h1, seq![h2, h3]);
    assert(seq![h1] + seq![h2, h3] =~= seq![h1, h2, h3]);
    lemma_run_one(s0, h0, seq![h1, h2, h3]);
    assert(seq![h0] + seq![h1, h2, h3] =~= head);
    let head_events = seq![
        EventView::ThreadRunCreated(created),
        EventView::ThreadRunQueued(created),
        EventView::ThreadRunInProgress(started),
        EventView::RunStepCreated(step),
        EventView::RunStepInProgress(step),
        EventView::ThreadMessageCreated(response),
        EventView::ThreadMessageInProgress(response),
    ];
    assert(run_inputs(s0, head).1 =~= head_events);
    assert(run_inputs(s0, head).0 == streaming);

    // the deltas
    lemma_deltas_forwarded_in_order(started, step, response, deltas);

    // the three last answers
    let t0 = tail[0];
    let t1 = tail[1];
    let t2 = tail[2];
    lemma_run_one(StateView::CompletingRun, t2, Seq::empty());
    assert(seq![t2] + Seq::<InputView>::empty() =~= seq![t2]);
    lemma_run_one(StateView::CompletingMessage { run: started, step }, t1, seq![t2]);
    assert(seq![t1] + seq![t2] =~= seq![t1, t2]);
    lemma_run_one(streamed, t0, seq![t1, t2]);
    assert(seq![t0] + seq![t1, t2] =~= tail);
    let tail_events = seq![
        EventView::ThreadMessageCompleted(completed_message),
        EventView::RunStepCompleted(completed_step(step)),
        EventView::ThreadRunCompleted(completed_run),
    ];
    assert(run_inputs(streamed, tail).1 =~= tail_events);

    lemma_run_inputs_append(s0, head, delta_inputs(deltas));
    lemma_run_inputs_append(s0, head + delta_inputs(deltas), tail);
    assert(head_events + delta_events(deltas) + tail_events =~= reply_events(
        created,
        started,
        messages,
        response,
        deltas,
        completed_message,
        completed_run,
    ));
}

/// A stream that creates its thread sends the thread first, then exactly what
/// a stream of a run on that thread sends.
pub proof fn lemma_new_thread_then_run(thread_id: Seq<char>, rest: Seq<InputView>)
    ensures
        run_inputs(StateView::CreatingThread, seq![InputView::ThreadCreated(Ok(thread_id))] + rest)
            == ({
            let run = run_inputs(StateView::CreatingRun { thread_id }, rest);
            (run.0, seq![EventView::ThreadCreated(thread_id)] + run.1)
        }),
{
    lemma_run_one(StateView::CreatingThread, InputView::ThreadCreated(Ok(thread_id)), rest);
}

} // verus!

verus! {

/// The model is asked with the whole thread: once the reply message exists,
/// the call that starts the model carries the run's model and exactly the
/// messages the store listed for the thread (same number, same order, the
/// assistant's earlier replies included), and the reply to apply its chunks
/// to.
pub proof fn lemma_model_sees_whole_thread(
    thread_id: Seq<char>,
    run: RunView,
    messages: Seq<ThreadMessageView>,
    response: ThreadMessageView,
)
    requires
        messages.len() > 0,
    ensures
        ({
            let listed = step_spec(
                StateView::ListingMessages { thread_id, run },
                InputView::MessagesListed(Ok(messages)),
            );
            step_spec(listed.0, InputView::ResponseCreated(Ok(response))).2
                == CommandView::StartInference { model: run.model, messages, message: response }
        }),
{
}

/// Whether `i` is an answer to the call `c`, successful or failed.
pub open spec fn answers(c: CommandView, i: InputView) -> bool {
    match c {
        CommandView::CreateThread => i is ThreadCreated,
        CommandView::CreateRun { .. } => i is RunCreated,
        CommandView::StartRun { .. } => i is RunStarted,
        CommandView::ListMessages { .. } => i is MessagesListed,
        CommandView::CompleteRun { .. } => i is RunCompleted,
        CommandView::CreateResponse { .. } => i is ResponseCreated,
        CommandView::StartInference { .. } => i is DeltaApplied || i is InferenceEnded,
        CommandView::ApplyNextChunk { .. } => i is DeltaApplied || i is InferenceEnded,
        CommandView::CompleteMessage { .. } => i is MessageCompleted,
        CommandView::Stop => false,
    }
}

/// A stream takes every answer to the call it asked for, failures included,
/// and nothing else: after each step the answers it waits for are exactly
/// the answers to the call it asks for next. In particular a failed chunk of
/// the model's reply is taken (and then sent as an error).
pub proof fn lemma_waits_for_answers_to_its_call(s: StateView, i: InputView, next: InputView)
    requires
        accepts(s, i),
    ensures
        accepts(step_spec(s, i).0, next) <==> answers(step_spec(s, i).2, next),
{
}

/// A new stream takes every answer to its first call, failures included, and
/// nothing else.
pub proof fn lemma_first_call_answered(thread_id: Seq<char>, i: InputView)
    ensures
        accepts(StateView::CreatingThread, i) <==> answers(CommandView::CreateThread, i),
        accepts(StateView::CreatingRun { thread_id }, i) <==> answers(
            CommandView::CreateRun { thread_id },
            i,
        ),
{
}

/// While the reply grows, a failed chunk or a failed update of the reply is
/// taken, sent to the client as that one error, and ends the stream.
pub proof fn lemma_failed_chunk_is_sent(
    run: RunView,
    step: RunStepView,
    message: ThreadMessageView,
    e: Seq<char>,
)
    ensures
        accepts(StateView::Streaming { run, step, message }, InputView::DeltaApplied(Err(e))),
        step_spec(StateView::Streaming { run, step, message }, InputView::DeltaApplied(Err(e)))
            == (StateView::Finished, seq![EventView::Error(e)], CommandView::Stop),
{
}

} // verus!
