use assistant_core::inference_server::InferenceServer;

#[test]
fn url_names_the_port() {
    assert_eq!(InferenceServer::new(8080).url(), "http://localhost:8080");
    assert_eq!(InferenceServer::new(0).url(), "http://localhost:0");
    assert_eq!(InferenceServer::new(7).url(), "http://localhost:7");
    assert_eq!(InferenceServer::new(10).url(), "http://localhost:10");
    assert_eq!(InferenceServer::new(65535).url(), "http://localhost:65535");
}

#[test]
fn port_is_kept() {
    assert_eq!(InferenceServer::new(52525).port(), 52525);
}

#[test]
fn only_200_means_up() {
    assert!(InferenceServer::is_up_status(200));
    assert!(!InferenceServer::is_up_status(201));
    assert!(!InferenceServer::is_up_status(204));
    assert!(!InferenceServer::is_up_status(301));
    assert!(!InferenceServer::is_up_status(404));
    assert!(!InferenceServer::is_up_status(500));
}
