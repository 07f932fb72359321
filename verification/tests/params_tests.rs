use tokio_postgres_dsql::params::parse_conninfo;
use tokio_postgres_dsql::Error;
use tokio_postgres_dsql::Host;
use tokio_postgres_dsql::Opts;
use tokio_postgres_dsql::ParseError;
use tokio_postgres_dsql::SslMode;

#[test]
fn parses_full_conninfo() {
    let c = parse_conninfo(b"host=example.com port=5432 user=admin dbname=postgres sslmode=require")
        .unwrap();
    assert_eq!(c.hosts, vec![Host::Tcp(b"example.com".to_vec())]);
    assert_eq!(c.ports, vec![5432u16]);
    assert_eq!(c.user, Some(b"admin".to_vec()));
    assert_eq!(c.dbname, Some(b"postgres".to_vec()));
    assert_eq!(c.password, None);
    assert_eq!(c.ssl_mode, SslMode::Require);
}

#[test]
fn empty_string_gives_defaults() {
    let c = parse_conninfo(b"").unwrap();
    assert!(c.hosts.is_empty());
    assert!(c.ports.is_empty());
    assert_eq!(c.user, None);
    assert_eq!(c.dbname, None);
    assert_eq!(c.password, None);
    assert_eq!(c.ssl_mode, SslMode::Prefer);
}

#[test]
fn whitespace_around_equals_is_skipped() {
    let c = parse_conninfo(b"host =\th  user\n= alice").unwrap();
    assert_eq!(c.hosts, vec![Host::Tcp(b"h".to_vec())]);
    assert_eq!(c.user, Some(b"alice".to_vec()));
}

#[test]
fn quoted_value_keeps_spaces_and_escapes() {
    let c = parse_conninfo(b"user='ad min' password='a\\'b'").unwrap();
    assert_eq!(c.user, Some(b"ad min".to_vec()));
    assert_eq!(c.password, Some(b"a'b".to_vec()));
}

#[test]
fn raw_value_backslash_escapes_next_byte() {
    let c = parse_conninfo(b"user=a\\ b").unwrap();
    assert_eq!(c.user, Some(b"a b".to_vec()));
}

#[test]
fn empty_value_is_allowed() {
    let c = parse_conninfo(b"user=").unwrap();
    assert_eq!(c.user, Some(Vec::new()));
    let c = parse_conninfo(b"user=''").unwrap();
    assert_eq!(c.user, Some(Vec::new()));
}

#[test]
fn host_list_splits_on_commas() {
    let c = parse_conninfo(b"host=a,b").unwrap();
    assert_eq!(
        c.hosts,
        vec![Host::Tcp(b"a".to_vec()), Host::Tcp(b"b".to_vec())]
    );
}

#[test]
fn leading_slash_names_unix_socket() {
    let c = parse_conninfo(b"host=/var/run/postgresql").unwrap();
    assert_eq!(c.hosts, vec![Host::Unix(b"/var/run/postgresql".to_vec())]);
}

#[test]
fn repeated_host_appends() {
    let c = parse_conninfo(b"host=a host=b").unwrap();
    assert_eq!(
        c.hosts,
        vec![Host::Tcp(b"a".to_vec()), Host::Tcp(b"b".to_vec())]
    );
}

#[test]
fn later_user_replaces_earlier() {
    let c = parse_conninfo(b"user=a user=b").unwrap();
    assert_eq!(c.user, Some(b"b".to_vec()));
}

#[test]
fn port_bounds_are_checked() {
    assert_eq!(parse_conninfo(b"port=65535").unwrap().ports, vec![65535u16]);
    assert_eq!(parse_conninfo(b"port=0").unwrap().ports, vec![0u16]);
    assert_eq!(
        parse_conninfo(b"port=65536").unwrap_err(),
        ParseError::InvalidPort
    );
    assert_eq!(
        parse_conninfo(b"port=99999").unwrap_err(),
        ParseError::InvalidPort
    );
    assert_eq!(parse_conninfo(b"port=x").unwrap_err(), ParseError::InvalidPort);
    assert_eq!(parse_conninfo(b"port=").unwrap_err(), ParseError::InvalidPort);
}

#[test]
fn sslmode_values() {
    assert_eq!(
        parse_conninfo(b"sslmode=disable").unwrap().ssl_mode,
        SslMode::Disable
    );
    assert_eq!(
        parse_conninfo(b"sslmode=prefer").unwrap().ssl_mode,
        SslMode::Prefer
    );
    assert_eq!(
        parse_conninfo(b"sslmode=require").unwrap().ssl_mode,
        SslMode::Require
    );
    assert_eq!(
        parse_conninfo(b"sslmode=verify-full").unwrap_err(),
        ParseError::InvalidSslMode
    );
}

#[test]
fn unknown_keyword_is_rejected() {
    assert_eq!(
        parse_conninfo(b"nope=1").unwrap_err(),
        ParseError::UnknownParameter
    );
}

#[test]
fn keyword_without_equals_is_rejected() {
    assert_eq!(parse_conninfo(b"host").unwrap_err(), ParseError::UnexpectedEof);
    assert_eq!(
        parse_conninfo(b"host h").unwrap_err(),
        ParseError::UnexpectedCharacter
    );
    assert_eq!(
        parse_conninfo(b"=x").unwrap_err(),
        ParseError::UnexpectedCharacter
    );
}

#[test]
fn unterminated_quote_or_escape_is_rejected() {
    assert_eq!(
        parse_conninfo(b"user='abc").unwrap_err(),
        ParseError::UnexpectedEof
    );
    assert_eq!(
        parse_conninfo(b"user=a\\").unwrap_err(),
        ParseError::UnexpectedEof
    );
}

#[test]
fn opts_new_propagates_parse_errors() {
    let err = Opts::new(b"bogus=1", Some(b"us-east-1".to_vec())).unwrap_err();
    assert_eq!(err, Error::Parse(ParseError::UnknownParameter));
    let ok = Opts::new(b"host=h user=u", None).unwrap();
    assert_eq!(ok.config.user, Some(b"u".to_vec()));
    assert_eq!(ok.region, None);
}
