use tokio_postgres_dsql::Error;
use tokio_postgres_dsql::Field;
use tokio_postgres_dsql::Opts;
use tokio_postgres_dsql::SingleConnection;
use tokio_postgres_dsql::SslMode;
use tokio_postgres_dsql::TlsChoice;
use tokio_postgres_dsql::TokenKind;
use tokio_postgres_dsql::tls::tls_plan;

/// A fake wire-protocol client: answers every query with a fixed value.
#[derive(Debug)]
struct FakeClient {
    value: i32,
}

impl FakeClient {
    fn query_value(&self) -> i32 {
        self.value
    }
}

/// A fake background driver task whose completion the test controls.
struct FakeTask {
    finished: bool,
}

/// A fake backend standing in for the token signer and the connector: it
/// records which token kinds were requested and how many transports were
/// opened, and can be told to fail the signing call.
struct FakeBackend {
    kinds: Vec<TokenKind>,
    connects: usize,
    fail_token: bool,
}

impl FakeBackend {
    fn new() -> FakeBackend {
        FakeBackend { kinds: Vec::new(), connects: 0, fail_token: false }
    }

    fn sign(&mut self, kind: TokenKind) -> Result<String, String> {
        self.kinds.push(kind);
        if self.fail_token {
            Err(String::from("signing denied"))
        } else {
            Ok(String::from("fresh-token"))
        }
    }
}

/// Drives one `acquire`: checks staleness, reconnects through the fake
/// backend if needed, and issues the trivial query.
fn acquire(
    conn: &mut SingleConnection<FakeClient, FakeTask>,
    backend: &mut FakeBackend,
) -> Result<i32, Error> {
    let finished = match &conn.connection {
        Some(t) => t.finished,
        None => false,
    };
    if conn.needs_reconnect(finished) {
        let plan = conn.begin_reconnect()?;
        let _token = match backend.sign(plan.token_kind) {
            Ok(t) => t,
            Err(reason) => return Err(Error::TokenError(reason)),
        };
        backend.connects += 1;
        conn.complete_reconnect(FakeClient { value: 1 }, FakeTask { finished: false });
    }
    let client = conn.borrow_connected()?;
    Ok(client.query_value())
}

fn valid_opts(user: &[u8]) -> Opts {
    let mut conninfo = b"host=example.com port=5432 dbname=postgres sslmode=require user=".to_vec();
    conninfo.extend_from_slice(user);
    Opts::new(&conninfo, Some(b"us-east-1".to_vec())).unwrap()
}

#[test]
fn lazy_acquire_connects_and_queries_one() {
    let mut backend = FakeBackend::new();
    let mut conn: SingleConnection<FakeClient, FakeTask> = valid_opts(b"admin").lazy_one();
    assert!(conn.client.is_none());
    assert!(conn.connection.is_none());
    let value = acquire(&mut conn, &mut backend).unwrap();
    assert_eq!(value, 1);
    assert_eq!(backend.connects, 1);
    assert!(conn.client.is_some());
    assert!(conn.connection.is_some());
    // A healthy connection is reused: no second reconnect.
    let value = acquire(&mut conn, &mut backend).unwrap();
    assert_eq!(value, 1);
    assert_eq!(backend.connects, 1);
}

#[test]
fn token_failure_leaves_manager_unconnected() {
    let mut backend = FakeBackend::new();
    backend.fail_token = true;
    let mut conn: SingleConnection<FakeClient, FakeTask> = valid_opts(b"admin").lazy_one();
    let err = acquire(&mut conn, &mut backend).unwrap_err();
    assert_eq!(err, Error::TokenError(String::from("signing denied")));
    assert!(conn.client.is_none());
    assert!(conn.connection.is_none());
    // The failure does not poison the manager: the next acquire retries and
    // succeeds once signing works again.
    backend.fail_token = false;
    let value = acquire(&mut conn, &mut backend).unwrap();
    assert_eq!(value, 1);
    assert_eq!(backend.connects, 1);
    assert_eq!(backend.kinds.len(), 2);
}

#[test]
fn finished_task_triggers_exactly_one_reconnect() {
    let mut backend = FakeBackend::new();
    let mut conn: SingleConnection<FakeClient, FakeTask> = valid_opts(b"alice").lazy_one();
    acquire(&mut conn, &mut backend).unwrap();
    assert_eq!(backend.connects, 1);
    // Simulate the transport closing: the driver task finishes.
    if let Some(task) = &mut conn.connection {
        task.finished = true;
    }
    let value = acquire(&mut conn, &mut backend).unwrap();
    assert_eq!(value, 1);
    assert_eq!(backend.connects, 2);
    // And the replacement is healthy again.
    acquire(&mut conn, &mut backend).unwrap();
    assert_eq!(backend.connects, 2);
}

#[test]
fn admin_user_requests_elevated_token() {
    let mut backend = FakeBackend::new();
    let mut conn: SingleConnection<FakeClient, FakeTask> = valid_opts(b"admin").lazy_one();
    acquire(&mut conn, &mut backend).unwrap();
    assert_eq!(backend.kinds, vec![TokenKind::Admin]);
}

#[test]
fn other_users_request_standard_token() {
    let mut backend = FakeBackend::new();
    let mut conn: SingleConnection<FakeClient, FakeTask> = valid_opts(b"alice").lazy_one();
    acquire(&mut conn, &mut backend).unwrap();
    assert_eq!(backend.kinds, vec![TokenKind::Standard]);

    let mut backend = FakeBackend::new();
    // "admin0" is not the administrative identity.
    let mut conn: SingleConnection<FakeClient, FakeTask> = valid_opts(b"admin0").lazy_one();
    acquire(&mut conn, &mut backend).unwrap();
    assert_eq!(backend.kinds, vec![TokenKind::Standard]);
}

#[test]
fn multiple_hosts_fail_before_any_token_request() {
    let mut backend = FakeBackend::new();
    let opts = Opts::new(b"host=a,b user=admin", Some(b"us-east-1".to_vec())).unwrap();
    let mut conn: SingleConnection<FakeClient, FakeTask> = opts.lazy_one();
    let err = acquire(&mut conn, &mut backend).unwrap_err();
    assert_eq!(err, Error::InvalidArg(Field::Host));
    assert_eq!(backend.kinds.len(), 0);
    assert_eq!(backend.connects, 0);
}

#[test]
fn zero_hosts_fail_before_any_token_request() {
    let mut backend = FakeBackend::new();
    let opts = Opts::new(b"user=admin", Some(b"us-east-1".to_vec())).unwrap();
    let mut conn: SingleConnection<FakeClient, FakeTask> = opts.lazy_one();
    let err = acquire(&mut conn, &mut backend).unwrap_err();
    assert_eq!(err, Error::InvalidArg(Field::Host));
    assert_eq!(backend.kinds.len(), 0);
}

#[test]
fn unix_host_fails_as_invalid_host() {
    let mut backend = FakeBackend::new();
    let opts = Opts::new(b"host=/var/run/pg user=admin", Some(b"r".to_vec())).unwrap();
    let mut conn: SingleConnection<FakeClient, FakeTask> = opts.lazy_one();
    let err = acquire(&mut conn, &mut backend).unwrap_err();
    assert_eq!(err, Error::InvalidArg(Field::Host));
    assert_eq!(backend.kinds.len(), 0);
}

#[test]
fn missing_user_fails_before_any_token_request() {
    let mut backend = FakeBackend::new();
    let opts = Opts::new(b"host=h", Some(b"us-east-1".to_vec())).unwrap();
    let mut conn: SingleConnection<FakeClient, FakeTask> = opts.lazy_one();
    let err = acquire(&mut conn, &mut backend).unwrap_err();
    assert_eq!(err, Error::InvalidArg(Field::User));
    assert_eq!(backend.kinds.len(), 0);
}

#[test]
fn missing_region_fails_the_attempt() {
    let mut backend = FakeBackend::new();
    let opts = Opts::new(b"host=h user=u", None).unwrap();
    let mut conn: SingleConnection<FakeClient, FakeTask> = opts.lazy_one();
    let err = acquire(&mut conn, &mut backend).unwrap_err();
    assert_eq!(err, Error::InvalidArg(Field::Region));
    assert_eq!(backend.kinds.len(), 0);
}

#[test]
fn failed_validation_still_clears_previous_pair() {
    let mut backend = FakeBackend::new();
    let mut conn: SingleConnection<FakeClient, FakeTask> = valid_opts(b"u").lazy_one();
    acquire(&mut conn, &mut backend).unwrap();
    assert!(conn.client.is_some());
    // Break the stored region, then force staleness: the reconnect attempt
    // fails, and the old dead pair is discarded rather than kept.
    conn.opts.region = None;
    if let Some(task) = &mut conn.connection {
        task.finished = true;
    }
    let err = acquire(&mut conn, &mut backend).unwrap_err();
    assert_eq!(err, Error::InvalidArg(Field::Region));
    assert!(conn.client.is_none());
    assert!(conn.connection.is_none());
}

#[test]
fn borrow_before_any_connect_is_unknown() {
    let mut conn: SingleConnection<FakeClient, FakeTask> = valid_opts(b"u").lazy_one();
    let err = conn.borrow_connected().unwrap_err();
    assert_eq!(err, Error::Unknown);
}

#[test]
fn reconnect_plan_carries_connection_parameters() {
    let mut conn: SingleConnection<FakeClient, FakeTask> = valid_opts(b"admin").lazy_one();
    let plan = conn.begin_reconnect().unwrap();
    assert_eq!(plan.host, b"example.com".to_vec());
    assert_eq!(plan.port, 5432);
    assert_eq!(plan.user, b"admin".to_vec());
    assert_eq!(plan.dbname, Some(b"postgres".to_vec()));
    assert_eq!(plan.ssl_mode, SslMode::Require);
    assert_eq!(plan.token_kind, TokenKind::Admin);
    assert_eq!(plan.region, b"us-east-1".to_vec());
}

#[test]
fn default_port_is_5432() {
    let opts = Opts::new(b"host=h user=u", Some(b"r".to_vec())).unwrap();
    let mut conn: SingleConnection<FakeClient, FakeTask> = opts.lazy_one();
    let plan = conn.begin_reconnect().unwrap();
    assert_eq!(plan.port, 5432);
}

#[test]
fn tls_plan_never_downgrades_silently() {
    assert_eq!(tls_plan(SslMode::Disable, true).unwrap(), TlsChoice::Plaintext);
    assert_eq!(tls_plan(SslMode::Disable, false).unwrap(), TlsChoice::Plaintext);
    assert_eq!(tls_plan(SslMode::Prefer, true).unwrap(), TlsChoice::Secure);
    assert_eq!(tls_plan(SslMode::Prefer, false).unwrap(), TlsChoice::Plaintext);
    assert_eq!(tls_plan(SslMode::Require, true).unwrap(), TlsChoice::Secure);
    assert_eq!(tls_plan(SslMode::Require, false).unwrap_err(), Error::TlsConfig);
}
