use triton_client::wasm_client::{Client, Error};

#[test]
fn bridge_is_made_for_a_url() {
    let client = Client::new("https://svc.example:8001".to_string()).unwrap();
    assert_eq!(client.endpoint(), "https://svc.example:8001");
}

#[test]
fn bridge_is_made_for_any_text() {
    let client = Client::new("not a url".to_string()).unwrap();
    assert_eq!(client.endpoint(), "not a url");
    let empty = Client::new(String::new()).unwrap();
    assert_eq!(empty.endpoint(), "");
}

#[test]
fn bridge_can_be_taken_out() {
    let client = Client::new("http://localhost:8001".to_string()).unwrap();
    let bridge = client.into_bridge();
    let _copy = bridge.clone();
}

#[test]
fn bridge_error_kinds_are_distinct() {
    assert_ne!(Error::DataRefMissing, Error::NoAccessToken);
    assert_eq!(Error::DataRefMissing, Error::DataRefMissing);
    assert_eq!(Error::NoAccessToken, Error::NoAccessToken);
}
