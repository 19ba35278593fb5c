# assistant_core

The core of a desktop assistant that speaks the assistant API: thread messages
and their content, the deltas by which a reply grows, and the order in which a
streamed run sends its events, with contracts proved by Verus.

- `src/chat_completion.rs`: content parts (text, annotated text, images).
- `src/api_message.rs`: thread messages, their text, and what is handed to the store.
- `src/message_delta.rs`: the pieces a reply grows by.
- `src/run_stream.rs`: a streamed run as a state machine: each answer of the
  stores or the model gives the events to send and the next call to make.
- `src/stream_laws.rs`: the order of the events of a whole run, and how it ends.
- `src/services.rs`: the services holding the collaborators a stream calls.
- `src/inference_server.rs`, `src/desktop.rs`: the local server's address and
  probe answer; what the desktop shell does on close and exit.
- `app/`: the async loop that runs a stream against real services, the serde
  forms of the messages, and the HTTP probe.
