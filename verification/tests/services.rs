use std::sync::Arc;

use assistant_core::services::{StreamThreadRunService, ThreadMessageFactory};

#[test]
fn factory_keeps_its_store() {
    let store = Arc::new(vec![1u8, 2, 3]);
    let factory = ThreadMessageFactory::new(store.clone());
    assert!(Arc::ptr_eq(&factory.message_repository, &store));
}

#[test]
fn assistant_reply_request() {
    let request = ThreadMessageFactory::<()>::assistant_message("thread-9", "run-4");
    assert_eq!(request.role, "assistant");
    assert_eq!(request.thread_id, Some("thread-9".to_string()));
    assert_eq!(request.run_id, Some("run-4".to_string()));
    assert!(request.content.is_empty());
    assert_eq!(request.status, "");
    assert_eq!(request.attachments, None);
    assert!(request.metadata.is_none());
}

#[test]
fn service_keeps_its_collaborators() {
    let a = Arc::new(1u8);
    let b = Arc::new(2u16);
    let c = Arc::new(3u32);
    let d = Arc::new(4u64);
    let e = Arc::new("e");
    let f = Arc::new('f');
    let g = Arc::new(true);
    let h = Arc::new(8i8);
    let s = StreamThreadRunService::new(
        a.clone(),
        b.clone(),
        c.clone(),
        d.clone(),
        e.clone(),
        f.clone(),
        g.clone(),
        h.clone(),
    );
    assert!(Arc::ptr_eq(&s.run_factory, &a));
    assert!(Arc::ptr_eq(&s.inference_service, &b));
    assert!(Arc::ptr_eq(&s.thread_repository, &c));
    assert!(Arc::ptr_eq(&s.message_repository, &d));
    assert!(Arc::ptr_eq(&s.thread_message_factory, &e));
    assert!(Arc::ptr_eq(&s.message_delta_update_service, &f));
    assert!(Arc::ptr_eq(&s.run_status_mutator, &g));
    assert!(Arc::ptr_eq(&s.message_status_mutator, &h));
}

#[test]
fn cloned_service_shares_its_collaborators() {
    let s = StreamThreadRunService::new(
        Arc::new(1u8),
        Arc::new(2u8),
        Arc::new(3u8),
        Arc::new(4u8),
        Arc::new(5u8),
        Arc::new(6u8),
        Arc::new(7u8),
        Arc::new(8u8),
    );
    let c = s.clone();
    assert!(Arc::ptr_eq(&s.run_factory, &c.run_factory));
    assert!(Arc::ptr_eq(&s.inference_service, &c.inference_service));
    assert!(Arc::ptr_eq(&s.thread_repository, &c.thread_repository));
    assert!(Arc::ptr_eq(&s.message_repository, &c.message_repository));
    assert!(Arc::ptr_eq(&s.thread_message_factory, &c.thread_message_factory));
    assert!(Arc::ptr_eq(&s.message_delta_update_service, &c.message_delta_update_service));
    assert!(Arc::ptr_eq(&s.run_status_mutator, &c.run_status_mutator));
    assert!(Arc::ptr_eq(&s.message_status_mutator, &c.message_status_mutator));
}
