//! The assistant core: thread messages and their content, the deltas by which a
//! reply grows, the order in which a streamed run sends its events, and the
//! small decisions of the desktop shell around it.
pub mod api_message;
pub mod chat_completion;
pub mod desktop;
pub mod inference_server;
pub mod message_delta;
pub mod run_stream;
pub mod services;
pub mod stream_laws;
