use nano_upload::config::{get_upload_endpoint, set_upload_endpoint, AppState, API_ENDPOINT};

#[test]
fn default_endpoint() {
    let state = AppState::new();
    assert_eq!(API_ENDPOINT, "https://nano.rayhanadev.com");
    assert_eq!(get_upload_endpoint(&state), "https://nano.rayhanadev.com");
}

#[test]
fn endpoint_can_be_replaced() {
    let mut state = AppState::new();
    set_upload_endpoint(&mut state, "http://localhost:3000".to_string());
    assert_eq!(get_upload_endpoint(&state), "http://localhost:3000");
    set_upload_endpoint(&mut state, "not a url at all".to_string());
    assert_eq!(get_upload_endpoint(&state), "not a url at all");
}
