use tonic::metadata::MetadataMap;
use tonic::transport::{Channel, Endpoint};
use triton_client::client::{Client, Error};

/// A transport that connects nowhere and records what was asked of it.
struct Stub {
    refuse: bool,
    attempts: usize,
    encrypted_attempts: usize,
    sent: Vec<MetadataMap>,
}

impl Stub {
    fn new(refuse: bool) -> Self {
        Stub { refuse, attempts: 0, encrypted_attempts: 0, sent: Vec::new() }
    }

    fn connect(&mut self, endpoint: &Endpoint, encrypted: bool) -> Result<Channel, tonic::transport::Error> {
        self.attempts += 1;
        if encrypted {
            self.encrypted_attempts += 1;
        }
        if self.refuse {
            match Endpoint::from_static("http://localhost:1").user_agent("\n") {
                Err(e) => Err(e),
                Ok(_) => panic!("a line feed is no user agent"),
            }
        } else {
            Ok(endpoint.connect_lazy())
        }
    }

    fn construct(&mut self, url: &str, token: Option<&str>) -> Result<Client, Error> {
        let plan = Client::resolve(url.to_string(), token.map(|t| t.to_string()))?;
        let outcome = self.connect(plan.endpoint(), plan.encrypted());
        Client::new(plan, outcome)
    }

    fn call(&mut self, client: &Client, metadata: MetadataMap) -> Result<(), Error> {
        let metadata = client.intercept(metadata)?;
        self.sent.push(metadata);
        client.complete(Ok(()))
    }
}

fn runtime() -> tokio::runtime::Runtime {
    tokio::runtime::Builder::new_current_thread().build().unwrap()
}

#[test]
fn malformed_endpoint_makes_no_connection_attempt() {
    let mut stub = Stub::new(false);
    for url in ["not a url", "", "http://exa mple.com", "ht tp://x"] {
        assert!(matches!(stub.construct(url, None), Err(Error::InvalidEndpoint)), "{:?}", url);
        assert!(matches!(stub.construct(url, Some("abc123")), Err(Error::InvalidEndpoint)), "{:?}", url);
    }
    assert_eq!(stub.attempts, 0);
}

#[test]
fn well_formed_endpoint_makes_exactly_one_attempt() {
    let rt = runtime();
    let _guard = rt.enter();
    let mut stub = Stub::new(false);
    assert!(stub.construct("https://svc.example:8001", None).is_ok());
    assert_eq!((stub.attempts, stub.encrypted_attempts), (1, 0));
    assert!(stub.construct("https://svc.example:8001", Some("abc123")).is_ok());
    assert_eq!((stub.attempts, stub.encrypted_attempts), (2, 1));
}

#[test]
fn refused_connection_is_not_retried() {
    let mut stub = Stub::new(true);
    assert!(matches!(stub.construct("https://svc.example:8001", Some("abc123")), Err(Error::ConnectionFailed)));
    assert_eq!(stub.attempts, 1);
    assert!(matches!(stub.construct("http://svc.example:8001", None), Err(Error::ConnectionFailed)));
    assert_eq!(stub.attempts, 2);
}

#[test]
fn illegal_credential_sends_nothing() {
    let rt = runtime();
    let _guard = rt.enter();
    let mut stub = Stub::new(false);
    let client = stub.construct("https://svc.example:8001", Some("abc\n123")).unwrap_or_else(|e| panic!("{:?}", e));
    assert_eq!(stub.call(&client, MetadataMap::new()), Err(Error::InvalidCredential));
    assert_eq!(stub.call(&client, MetadataMap::new()), Err(Error::InvalidCredential));
    assert!(stub.sent.is_empty());
}

#[test]
fn authenticated_calls_are_sent_with_one_bearer_entry() {
    let rt = runtime();
    let _guard = rt.enter();
    let mut stub = Stub::new(false);
    let client = stub.construct("https://svc.example:8001", Some("abc123")).unwrap_or_else(|e| panic!("{:?}", e));
    assert_eq!(stub.call(&client, MetadataMap::new()), Ok(()));
    assert_eq!(stub.call(&client, MetadataMap::new()), Ok(()));
    assert_eq!(stub.sent.len(), 2);
    for metadata in &stub.sent {
        let values: Vec<&[u8]> = metadata.get_all("authorization").iter().map(|v| v.as_bytes()).collect();
        assert_eq!(values, vec![&b"Bearer abc123"[..]]);
    }
}

#[test]
fn anonymous_calls_are_sent_without_authorization() {
    let rt = runtime();
    let _guard = rt.enter();
    let mut stub = Stub::new(false);
    let client = stub.construct("https://svc.example:8001", None).unwrap_or_else(|e| panic!("{:?}", e));
    assert_eq!(stub.call(&client, MetadataMap::new()), Ok(()));
    assert_eq!(stub.sent.len(), 1);
    assert!(!stub.sent[0].contains_key("authorization"));
}
