//! The services that stream runs and create reply messages, holding the
//! collaborators they call.
use vstd::prelude::*;
use std::sync::Arc;

use crate::api_message::DbCreateThreadMessageDto;
use crate::chat_completion::opt_view;

verus! {

/// Streams runs of the assistant on threads. It holds what creates runs, runs
/// the model, keeps threads and messages, creates reply messages, applies
/// deltas, and moves runs and messages from one status to the next; the order
/// in which it calls them and what it sends is decided by a `RunStream`.
pub struct StreamThreadRunService<RunFactory, Inference, Threads, Messages, MessageFactory, DeltaUpdates, RunStatus, MessageStatus> {
    pub run_factory: Arc<RunFactory>,
    pub inference_service: Arc<Inference>,
    pub thread_repository: Arc<Threads>,
    pub message_repository: Arc<Messages>,
    pub thread_message_factory: Arc<MessageFactory>,
    pub message_delta_update_service: Arc<DeltaUpdates>,
    pub run_status_mutator: Arc<RunStatus>,
    pub message_status_mutator: Arc<MessageStatus>,
}

impl<RunFactory, Inference, Threads, Messages, MessageFactory, DeltaUpdates, RunStatus, MessageStatus>
    StreamThreadRunService<RunFactory, Inference, Threads, Messages, MessageFactory, DeltaUpdates, RunStatus, MessageStatus> {
    /// A service holding the given collaborators.
    pub fn new(
        run_factory: Arc<RunFactory>,
        inference_service: Arc<Inference>,
        thread_repository: Arc<Threads>,
        message_repository: Arc<Messages>,
        thread_message_factory: Arc<MessageFactory>,
        message_delta_update_service: Arc<DeltaUpdates>,
        run_status_mutator: Arc<RunStatus>,
        message_status_mutator: Arc<MessageStatus>,
    ) -> (service: Self)
        ensures
            service.run_factory == run_factory,
            service.inference_service == inference_service,
            service.thread_repository == thread_repository,
            service.message_repository == message_repository,
            service.thread_message_factory == thread_message_factory,
            service.message_delta_update_service == message_delta_update_service,
            service.run_status_mutator == run_status_mutator,
            service.message_status_mutator == message_status_mutator,
    {
        StreamThreadRunService {
            run_factory,
            inference_service,
            thread_repository,
            message_repository,
            thread_message_factory,
            message_delta_update_service,
            run_status_mutator,
            message_status_mutator,
        }
    }
}

impl<RunFactory, Inference, Threads, Messages, MessageFactory, DeltaUpdates, RunStatus, MessageStatus> Clone for
    StreamThreadRunService<RunFactory, Inference, Threads, Messages, MessageFactory, DeltaUpdates, RunStatus, MessageStatus> {
    /// A service sharing the same collaborators.
    fn clone(&self) -> (copy: Self)
        ensures
            copy.run_factory == self.run_factory,
            copy.inference_service == self.inference_service,
            copy.thread_repository == self.thread_repository,
            copy.message_repository == self.message_repository,
            copy.thread_message_factory == self.thread_message_factory,
            copy.message_delta_update_service == self.message_delta_update_service,
            copy.run_status_mutator == self.run_status_mutator,
            copy.message_status_mutator == self.message_status_mutator,
    {
        StreamThreadRunService {
            run_factory: Arc::clone(&self.run_factory),
            inference_service: Arc::clone(&self.inference_service),
            thread_repository: Arc::clone(&self.thread_repository),
            message_repository: Arc::clone(&self.message_repository),
            thread_message_factory: Arc::clone(&self.thread_message_factory),
            message_delta_update_service: Arc::clone(&self.message_delta_update_service),
            run_status_mutator: Arc::clone(&self.run_status_mutator),
            message_status_mutator: Arc::clone(&self.message_status_mutator),
        }
    }
}

/// Creates the assistant's reply messages in the message store.
pub struct ThreadMessageFactory<Messages> {
    pub message_repository: Arc<Messages>,
}

impl<Messages> ThreadMessageFactory<Messages> {
    /// A factory that adds messages to the given store.
    pub fn new(message_repository: Arc<Messages>) -> (factory: Self)
        ensures
            factory.message_repository == message_repository,
    {
        ThreadMessageFactory { message_repository }
    }

    /// What the store is asked to add for the reply of run `run_id` on thread
    /// `thread_id`: a message with role "assistant" on that thread and run,
    /// with no content, empty status, and no attachments or metadata.
    pub fn assistant_message(thread_id: &str, run_id: &str) -> (request: DbCreateThreadMessageDto)
        ensures
            request.role@ == "assistant"@,
            opt_view(request.thread_id) == Some(thread_id@),
            opt_view(request.run_id) == Some(run_id@),
            request.content@.len() == 0,
            request.status@.len() == 0,
            request.attachments is None,
            request.metadata is None,
    {
        let default = DbCreateThreadMessageDto::default();
        DbCreateThreadMessageDto {
            role: String::from_str("assistant"),
            thread_id: Some(String::from_str(thread_id)),
            run_id: Some(String::from_str(run_id)),
            content: default.content,
            status: default.status,
            attachments: default.attachments,
            metadata: default.metadata,
        }
    }
}

} // verus!
