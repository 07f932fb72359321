//! Connection-string parsing.
//!
//! A connection string is a whitespace-separated list of `keyword = value`
//! pairs, such as `host=example.com port=5432 user=admin dbname=postgres
//! sslmode=require`. Values may be single-quoted, and a backslash escapes the
//! next byte both inside and outside quotes. The recognized keywords are
//! `host` (a comma-separated list of hosts, where a leading `/` names a Unix
//! socket directory), `port`, `user`, `dbname`, `password` and `sslmode`.
//!
//! The parser is specified as a byte-at-a-time state machine: `step` consumes
//! one byte, `finish` closes the final pair, and `run` folds `step` over the
//! input. The executable parser is proved to return exactly what `parse_spec`
//! says, for every input.

use vstd::prelude::*;

verus! {

/// One host named by a connection string: a TCP host name or a Unix socket
/// directory (written with a leading `/`).
#[derive(Clone, Debug, PartialEq, Eq)]
pub enum Host {
    Tcp(Vec<u8>),
    Unix(Vec<u8>),
}

/// The mathematical value of a [`Host`].
pub ghost enum HostV {
    Tcp(Seq<u8>),
    Unix(Seq<u8>),
}

impl View for Host {
    type V = HostV;

    open spec fn view(&self) -> HostV {
        match self {
            Host::Tcp(n) => HostV::Tcp(n@),
            Host::Unix(p) => HostV::Unix(p@),
        }
    }
}

/// The TLS mode requested by a connection string.
#[derive(Clone, Copy, Debug, PartialEq, Eq, Structural)]
pub enum SslMode {
    /// Never use TLS.
    Disable,
    /// Use TLS when available, fall back to plaintext otherwise.
    Prefer,
    /// Require TLS; fail when it is unavailable.
    Require,
}

/// Why a connection string was rejected.
#[derive(Clone, Copy, Debug, PartialEq, Eq, Structural)]
pub enum ParseError {
    /// The input ended inside a pair: a keyword without `=`, an unfinished
    /// escape, or an unterminated quoted value.
    UnexpectedEof,
    /// A byte appeared where a keyword or `=` was expected.
    UnexpectedCharacter,
    /// A keyword other than the recognized six.
    UnknownParameter,
    /// A `port` value that is not a decimal number in `0..=65535`.
    InvalidPort,
    /// An `sslmode` value other than `disable`, `prefer` or `require`.
    InvalidSslMode,
}

/// The mathematical value of a parsed configuration.
#[verifier::ext_equal]
pub ghost struct ConfigV {
    pub hosts: Seq<HostV>,
    pub ports: Seq<u16>,
    pub user: Option<Seq<u8>>,
    pub dbname: Option<Seq<u8>>,
    pub password: Option<Seq<u8>>,
    pub ssl_mode: SslMode,
}

/// A parsed connection configuration.
///
/// Repeated `host` and `port` keywords append; the other keywords replace
/// their previous value. `ssl_mode` defaults to [`SslMode::Prefer`].
#[derive(Clone, Debug, PartialEq)]
pub struct ConnConfig {
    pub hosts: Vec<Host>,
    pub ports: Vec<u16>,
    pub user: Option<Vec<u8>>,
    pub dbname: Option<Vec<u8>>,
    pub password: Option<Vec<u8>>,
    pub ssl_mode: SslMode,
}

impl View for ConnConfig {
    type V = ConfigV;

    open spec fn view(&self) -> ConfigV {
        ConfigV {
            hosts: self.hosts@.map_values(|h: Host| h@),
            ports: self.ports@,
            user: match self.user {
                Some(u) => Some(u@),
                None => None,
            },
            dbname: match self.dbname {
                Some(d) => Some(d@),
                None => None,
            },
            password: match self.password {
                Some(p) => Some(p@),
                None => None,
            },
            ssl_mode: self.ssl_mode,
        }
    }
}

/// ASCII whitespace: space, tab, line feed, vertical tab, form feed,
/// carriage return.
pub open spec fn is_ws(b: u8) -> bool {
    b == 32 || b == 9 || b == 10 || b == 11 || b == 12 || b == 13
}

pub open spec fn kw_host() -> Seq<u8> {
    seq![104u8, 111u8, 115u8, 116u8]
}

pub open spec fn kw_port() -> Seq<u8> {
    seq![112u8, 111u8, 114u8, 116u8]
}

pub open spec fn kw_user() -> Seq<u8> {
    seq![117u8, 115u8, 101u8, 114u8]
}

pub open spec fn kw_dbname() -> Seq<u8> {
    seq![100u8, 98u8, 110u8, 97u8, 109u8, 101u8]
}

pub open spec fn kw_password() -> Seq<u8> {
    seq![112u8, 97u8, 115u8, 115u8, 119u8, 111u8, 114u8, 100u8]
}

pub open spec fn kw_sslmode() -> Seq<u8> {
    seq![115u8, 115u8, 108u8, 109u8, 111u8, 100u8, 101u8]
}

pub open spec fn ssl_disable() -> Seq<u8> {
    seq![100u8, 105u8, 115u8, 97u8, 98u8, 108u8, 101u8]
}

pub open spec fn ssl_prefer() -> Seq<u8> {
    seq![112u8, 114u8, 101u8, 102u8, 101u8, 114u8]
}

pub open spec fn ssl_require() -> Seq<u8> {
    seq![114u8, 101u8, 113u8, 117u8, 105u8, 114u8, 101u8]
}

/// Splits `v` at commas, starting at `i` with `cur` already read.
pub open spec fn split_from(v: Seq<u8>, i: int, cur: Seq<u8>) -> Seq<Seq<u8>>
    decreases v.len() - i,
{
    if i < 0 || i >= v.len() {
        seq![cur]
    } else if v[i] == 44 {
        seq![cur] + split_from(v, i + 1, Seq::empty())
    } else {
        split_from(v, i + 1, cur.push(v[i]))
    }
}

/// A host list piece with a leading `/` is a Unix socket directory; any
/// other piece is a TCP host name.
pub open spec fn host_of(p: Seq<u8>) -> HostV {
    if p.len() > 0 && p[0] == 47 {
        HostV::Unix(p)
    } else {
        HostV::Tcp(p)
    }
}

/// The hosts named by one `host` value.
pub open spec fn hosts_of(v: Seq<u8>) -> Seq<HostV> {
    split_from(v, 0, Seq::empty()).map_values(|p: Seq<u8>| host_of(p))
}

/// Reads decimal digits from `i` on with accumulator `acc`; `None` on a
/// non-digit or a value above 65535.
pub open spec fn digits(v: Seq<u8>, i: int, acc: int) -> Option<u16>
    decreases v.len() - i,
{
    if i < 0 || i >= v.len() {
        if 0 <= acc <= 65535 {
            Some(acc as u16)
        } else {
            None
        }
    } else if 48 <= v[i] <= 57 {
        if acc * 10 + (v[i] - 48) > 65535 {
            None
        } else {
            digits(v, i + 1, acc * 10 + (v[i] - 48))
        }
    } else {
        None
    }
}

/// A `port` value: one decimal number in `0..=65535`, at least one digit.
pub open spec fn parse_u16_sp(v: Seq<u8>) -> Option<u16> {
    if v.len() == 0 {
        None
    } else {
        digits(v, 0, 0)
    }
}

/// Applies one completed `keyword = value` pair to the configuration.
pub open spec fn apply_sp(c: ConfigV, k: Seq<u8>, v: Seq<u8>) -> Result<ConfigV, ParseError> {
    if k == kw_host() {
        Ok(ConfigV { hosts: c.hosts + hosts_of(v), ..c })
    } else if k == kw_port() {
        match parse_u16_sp(v) {
            Some(p) => Ok(ConfigV { ports: c.ports.push(p), ..c }),
            None => Err(ParseError::InvalidPort),
        }
    } else if k == kw_user() {
        Ok(ConfigV { user: Some(v), ..c })
    } else if k == kw_dbname() {
        Ok(ConfigV { dbname: Some(v), ..c })
    } else if k == kw_password() {
        Ok(ConfigV { password: Some(v), ..c })
    } else if k == kw_sslmode() {
        if v == ssl_disable() {
            Ok(ConfigV { ssl_mode: SslMode::Disable, ..c })
        } else if v == ssl_prefer() {
            Ok(ConfigV { ssl_mode: SslMode::Prefer, ..c })
        } else if v == ssl_require() {
            Ok(ConfigV { ssl_mode: SslMode::Require, ..c })
        } else {
            Err(ParseError::InvalidSslMode)
        }
    } else {
        Err(ParseError::UnknownParameter)
    }
}

/// The lexer's state between two bytes.
pub ghost enum LexStV {
    /// Before a keyword; whitespace is skipped here.
    BeforeKey,
    /// Inside a keyword.
    InKey(Seq<u8>),
    /// After a keyword, before its `=`.
    BeforeEq(Seq<u8>),
    /// After `=`, before the value; whitespace is skipped here.
    BeforeVal(Seq<u8>),
    /// Inside an unquoted value.
    RawVal(Seq<u8>, Seq<u8>),
    /// Inside an unquoted value, right after a backslash.
    RawEsc(Seq<u8>, Seq<u8>),
    /// Inside a quoted value.
    Quoted(Seq<u8>, Seq<u8>),
    /// Inside a quoted value, right after a backslash.
    QuotedEsc(Seq<u8>, Seq<u8>),
}

/// One step of the parser: consumes the byte `b`.
pub open spec fn step(c: ConfigV, st: LexStV, b: u8) -> Result<(ConfigV, LexStV), ParseError> {
    match st {
        LexStV::BeforeKey => {
            if is_ws(b) {
                Ok((c, LexStV::BeforeKey))
            } else if b == 61 {
                Err(ParseError::UnexpectedCharacter)
            } else {
                Ok((c, LexStV::InKey(seq![b])))
            }
        },
        LexStV::InKey(k) => {
            if b == 61 {
                Ok((c, LexStV::BeforeVal(k)))
            } else if is_ws(b) {
                Ok((c, LexStV::BeforeEq(k)))
            } else {
                Ok((c, LexStV::InKey(k.push(b))))
            }
        },
        LexStV::BeforeEq(k) => {
            if is_ws(b) {
                Ok((c, LexStV::BeforeEq(k)))
            } else if b == 61 {
                Ok((c, LexStV::BeforeVal(k)))
            } else {
                Err(ParseError::UnexpectedCharacter)
            }
        },
        LexStV::BeforeVal(k) => {
            if is_ws(b) {
                Ok((c, LexStV::BeforeVal(k)))
            } else if b == 39 {
                Ok((c, LexStV::Quoted(k, Seq::empty())))
            } else if b == 92 {
                Ok((c, LexStV::RawEsc(k, Seq::empty())))
            } else {
                Ok((c, LexStV::RawVal(k, seq![b])))
            }
        },
        LexStV::RawVal(k, v) => {
            if is_ws(b) {
                match apply_sp(c, k, v) {
                    Ok(c2) => Ok((c2, LexStV::BeforeKey)),
                    Err(e) => Err(e),
                }
            } else if b == 92 {
                Ok((c, LexStV::RawEsc(k, v)))
            } else {
                Ok((c, LexStV::RawVal(k, v.push(b))))
            }
        },
        LexStV::RawEsc(k, v) => Ok((c, LexStV::RawVal(k, v.push(b)))),
        LexStV::Quoted(k, v) => {
            if b == 39 {
                match apply_sp(c, k, v) {
                    Ok(c2) => Ok((c2, LexStV::BeforeKey)),
                    Err(e) => Err(e),
                }
            } else if b == 92 {
                Ok((c, LexStV::QuotedEsc(k, v)))
            } else {
                Ok((c, LexStV::Quoted(k, v.push(b))))
            }
        },
        LexStV::QuotedEsc(k, v) => Ok((c, LexStV::Quoted(k, v.push(b)))),
    }
}

/// Closes the parse at end of input.
pub open spec fn finish(c: ConfigV, st: LexStV) -> Result<ConfigV, ParseError> {
    match st {
        LexStV::BeforeKey => Ok(c),
        LexStV::InKey(_) => Err(ParseError::UnexpectedEof),
        LexStV::BeforeEq(_) => Err(ParseError::UnexpectedEof),
        LexStV::BeforeVal(k) => apply_sp(c, k, Seq::empty()),
        LexStV::RawVal(k, v) => apply_sp(c, k, v),
        LexStV::RawEsc(_, _) => Err(ParseError::UnexpectedEof),
        LexStV::Quoted(_, _) => Err(ParseError::UnexpectedEof),
        LexStV::QuotedEsc(_, _) => Err(ParseError::UnexpectedEof),
    }
}

/// Folds `step` over `s` from position `i`, then applies `finish`.
pub open spec fn run(s: Seq<u8>, i: int, c: ConfigV, st: LexStV) -> Result<ConfigV, ParseError>
    decreases s.len() - i,
{
    if i < 0 || i >= s.len() {
        finish(c, st)
    } else {
        match step(c, st, s[i]) {
            Ok(p) => run(s, i + 1, p.0, p.1),
            Err(e) => Err(e),
        }
    }
}

/// The configuration before any pair is applied.
pub open spec fn init_config() -> ConfigV {
    ConfigV {
        hosts: Seq::empty(),
        ports: Seq::empty(),
        user: None,
        dbname: None,
        password: None,
        ssl_mode: SslMode::Prefer,
    }
}

/// What parsing a whole connection string yields.
pub open spec fn parse_spec(s: Seq<u8>) -> Result<ConfigV, ParseError> {
    run(s, 0, init_config(), LexStV::BeforeKey)
}

fn is_ws_exec(b: u8) -> (r: bool)
    ensures
        r == is_ws(b),
{
    b == 32 || b == 9 || b == 10 || b == 11 || b == 12 || b == 13
}

pub(crate) fn copy_bytes(v: &[u8]) -> (r: Vec<u8>)
    ensures
        r@ == v@,
{
    let mut r: Vec<u8> = Vec::new();
    let mut i: usize = 0;
    while i < v.len()
        invariant
            i <= v.len(),
            r@ == v@.take(i as int),
        decreases v.len() - i,
    {
        r.push(v[i]);
        proof {
            assert(r@ =~= v@.take(i as int + 1));
        }
        i += 1;
    }
    proof {
        assert(v@.take(v@.len() as int) =~= v@);
    }
    r
}

fn is_kw_host(k: &[u8]) -> (r: bool)
    ensures
        r == (k@ == kw_host()),
{
    if k.len() != 4 {
        return false;
    }
    let r = k[0] == 104 && k[1] == 111 && k[2] == 115 && k[3] == 116;
    proof {
        if r {
            assert(k@ =~= kw_host());
        }
    }
    r
}

fn is_kw_port(k: &[u8]) -> (r: bool)
    ensures
        r == (k@ == kw_port()),
{
    if k.len() != 4 {
        return false;
    }
    let r = k[0] == 112 && k[1] == 111 && k[2] == 114 && k[3] == 116;
    proof {
        if r {
            assert(k@ =~= kw_port());
        }
    }
    r
}

fn is_kw_user(k: &[u8]) -> (r: bool)
    ensures
        r == (k@ == kw_user()),
{
    if k.len() != 4 {
        return false;
    }
    let r = k[0] == 117 && k[1] == 115 && k[2] == 101 && k[3] == 114;
    proof {
        if r {
            assert(k@ =~= kw_user());
        }
    }
    r
}

fn is_kw_dbname(k: &[u8]) -> (r: bool)
    ensures
        r == (k@ == kw_dbname()),
{
    if k.len() != 6 {
        return false;
    }
    let r = k[0] == 100 && k[1] == 98 && k[2] == 110 && k[3] == 97 && k[4] == 109 && k[5] == 101;
    proof {
        if r {
            assert(k@ =~= kw_dbname());
        }
    }
    r
}

fn is_kw_password(k: &[u8]) -> (r: bool)
    ensures
        r == (k@ == kw_password()),
{
    if k.len() != 8 {
        return false;
    }
    let r = k[0] == 112 && k[1] == 97 && k[2] == 115 && k[3] == 115 && k[4] == 119 && k[5] == 111
        && k[6] == 114 && k[7] == 100;
    proof {
        if r {
            assert(k@ =~= kw_password());
        }
    }
    r
}

fn is_kw_sslmode(k: &[u8]) -> (r: bool)
    ensures
        r == (k@ == kw_sslmode()),
{
    if k.len() != 7 {
        return false;
    }
    let r = k[0] == 115 && k[1] == 115 && k[2] == 108 && k[3] == 109 && k[4] == 111 && k[5] == 100
        && k[6] == 101;
    proof {
        if r {
            assert(k@ =~= kw_sslmode());
        }
    }
    r
}

fn is_ssl_disable(v: &[u8]) -> (r: bool)
    ensures
        r == (v@ == ssl_disable()),
{
    if v.len() != 7 {
        return false;
    }
    let r = v[0] == 100 && v[1] == 105 && v[2] == 115 && v[3] == 97 && v[4] == 98 && v[5] == 108
        && v[6] == 101;
    proof {
        if r {
            assert(v@ =~= ssl_disable());
        }
    }
    r
}

fn is_ssl_prefer(v: &[u8]) -> (r: bool)
    ensures
        r == (v@ == ssl_prefer()),
{
    if v.len() != 6 {
        return false;
    }
    let r = v[0] == 112 && v[1] == 114 && v[2] == 101 && v[3] == 102 && v[4] == 101 && v[5] == 114;
    proof {
        if r {
            assert(v@ =~= ssl_prefer());
        }
    }
    r
}

fn is_ssl_require(v: &[u8]) -> (r: bool)
    ensures
        r == (v@ == ssl_require()),
{
    if v.len() != 7 {
        return false;
    }
    let r = v[0] == 114 && v[1] == 101 && v[2] == 113 && v[3] == 117 && v[4] == 105 && v[5] == 114
        && v[6] == 101;
    proof {
        if r {
            assert(v@ =~= ssl_require());
        }
    }
    r
}

fn split_pieces(v: &[u8]) -> (r: Vec<Vec<u8>>)
    ensures
        r@.map_values(|p: Vec<u8>| p@) == split_from(v@, 0, Seq::<u8>::empty()),
{
    let mut pieces: Vec<Vec<u8>> = Vec::new();
    let mut cur: Vec<u8> = Vec::new();
    let mut i: usize = 0;
    while i < v.len()
        invariant
            i <= v.len(),
            split_from(v@, 0, Seq::<u8>::empty()) == pieces@.map_values(|p: Vec<u8>| p@)
                + split_from(v@, i as int, cur@),
        decreases v.len() - i,
    {
        let ghost pieces0 = pieces@;
        let ghost cur0 = cur@;
        let b = v[i];
        if b == 44 {
            pieces.push(cur);
            cur = Vec::new();
            proof {
                assert(split_from(v@, i as int, cur0) == seq![cur0] + split_from(
                    v@,
                    i as int + 1,
                    Seq::<u8>::empty(),
                ));
                assert(pieces@.map_values(|p: Vec<u8>| p@) =~~= pieces0.map_values(
                    |p: Vec<u8>| p@,
                ).push(cur0));
                assert(pieces@.map_values(|p: Vec<u8>| p@) + split_from(
                    v@,
                    i as int + 1,
                    Seq::<u8>::empty(),
                ) =~~= pieces0.map_values(|p: Vec<u8>| p@) + split_from(v@, i as int, cur0));
            }
        } else {
            cur.push(b);
            proof {
                assert(split_from(v@, i as int, cur0) == split_from(
                    v@,
                    i as int + 1,
                    cur0.push(b),
                ));
            }
        }
        i += 1;
    }
    let ghost pieces1 = pieces@;
    let ghost cur1 = cur@;
    pieces.push(cur);
    proof {
        assert(split_from(v@, v@.len() as int, cur1) == seq![cur1]);
        assert(pieces@.map_values(|p: Vec<u8>| p@) =~~= pieces1.map_values(|p: Vec<u8>| p@).push(
            cur1,
        ));
        assert(pieces@.map_values(|p: Vec<u8>| p@) =~~= pieces1.map_values(|p: Vec<u8>| p@)
            + seq![cur1]);
    }
    pieces
}

fn parse_port_value(v: &[u8]) -> (r: Option<u16>)
    ensures
        r == parse_u16_sp(v@),
{
    if v.len() == 0 {
        return None;
    }
    let mut acc: u32 = 0;
    let mut i: usize = 0;
    while i < v.len()
        invariant
            i <= v.len(),
            0 < v@.len(),
            acc <= 65535,
            parse_u16_sp(v@) == digits(v@, i as int, acc as int),
        decreases v.len() - i,
    {
        let b = v[i];
        if b < 48 || b > 57 {
            return None;
        }
        let acc2: u32 = acc * 10 + (b - 48) as u32;
        if acc2 > 65535 {
            return None;
        }
        acc = acc2;
        i += 1;
    }
    Some(acc as u16)
}

fn host_from_piece(p: Vec<u8>) -> (h: Host)
    ensures
        h@ == host_of(p@),
{
    if p.len() > 0 && p[0] == 47 {
        Host::Unix(p)
    } else {
        Host::Tcp(p)
    }
}

fn apply_param(c: &mut ConnConfig, k: &Vec<u8>, v: &Vec<u8>) -> (r: Result<(), ParseError>)
    ensures
        match r {
            Ok(u) => apply_sp(old(c)@, k@, v@) == Ok::<ConfigV, ParseError>(final(c)@),
            Err(e) => apply_sp(old(c)@, k@, v@) == Err::<ConfigV, ParseError>(e),
        },
{
    if is_kw_host(k.as_slice()) {
        let pieces = split_pieces(v.as_slice());
        let ghost pv = pieces@.map_values(|p: Vec<u8>| p@);
        let mut j: usize = 0;
        while j < pieces.len()
            invariant
                j <= pieces.len(),
                pv == pieces@.map_values(|p: Vec<u8>| p@),
                c@.hosts == old(c)@.hosts + pv.take(j as int).map_values(|p: Seq<u8>| host_of(p)),
                c@.ports == old(c)@.ports,
                c@.user == old(c)@.user,
                c@.dbname == old(c)@.dbname,
                c@.password == old(c)@.password,
                c@.ssl_mode == old(c)@.ssl_mode,
            decreases pieces.len() - j,
        {
            let ghost hosts0 = c@.hosts;
            let piece = copy_bytes(pieces[j].as_slice());
            let h = host_from_piece(piece);
            c.hosts.push(h);
            proof {
                assert(c@.hosts =~= hosts0.push(host_of(pv[j as int])));
                assert(pv.take(j as int + 1).map_values(|p: Seq<u8>| host_of(p)) =~= pv.take(
                    j as int,
                ).map_values(|p: Seq<u8>| host_of(p)).push(host_of(pv[j as int])));
                assert(c@.hosts =~= old(c)@.hosts + pv.take(j as int + 1).map_values(
                    |p: Seq<u8>| host_of(p),
                ));
            }
            j += 1;
        }
        proof {
            assert(pv.take(pv.len() as int) =~= pv);
            assert(c@.hosts =~= old(c)@.hosts + hosts_of(v@));
            assert(c@ =~~= ConfigV { hosts: old(c)@.hosts + hosts_of(v@), ..old(c)@ });
        }
        Ok(())
    } else if is_kw_port(k.as_slice()) {
        match parse_port_value(v.as_slice()) {
            Some(p) => {
                c.ports.push(p);
                proof {
                    assert(c@ =~~= ConfigV { ports: old(c)@.ports.push(p), ..old(c)@ });
                }
                Ok(())
            },
            None => Err(ParseError::InvalidPort),
        }
    } else if is_kw_user(k.as_slice()) {
        c.user = Some(copy_bytes(v.as_slice()));
        proof {
            assert(c@ =~~= ConfigV { user: Some(v@), ..old(c)@ });
        }
        Ok(())
    } else if is_kw_dbname(k.as_slice()) {
        c.dbname = Some(copy_bytes(v.as_slice()));
        proof {
            assert(c@ =~~= ConfigV { dbname: Some(v@), ..old(c)@ });
        }
        Ok(())
    } else if is_kw_password(k.as_slice()) {
        c.password = Some(copy_bytes(v.as_slice()));
        proof {
            assert(c@ =~~= ConfigV { password: Some(v@), ..old(c)@ });
        }
        Ok(())
    } else if is_kw_sslmode(k.as_slice()) {
        if is_ssl_disable(v.as_slice()) {
            c.ssl_mode = SslMode::Disable;
            proof {
                assert(c@ =~~= ConfigV { ssl_mode: SslMode::Disable, ..old(c)@ });
            }
            Ok(())
        } else if is_ssl_prefer(v.as_slice()) {
            c.ssl_mode = SslMode::Prefer;
            proof {
                assert(c@ =~~= ConfigV { ssl_mode: SslMode::Prefer, ..old(c)@ });
            }
            Ok(())
        } else if is_ssl_require(v.as_slice()) {
            c.ssl_mode = SslMode::Require;
            proof {
                assert(c@ =~~= ConfigV { ssl_mode: SslMode::Require, ..old(c)@ });
            }
            Ok(())
        } else {
            Err(ParseError::InvalidSslMode)
        }
    } else {
        Err(ParseError::UnknownParameter)
    }
}

/// The executable mirror of [`LexStV`].
enum LexState {
    BeforeKey,
    InKey(Vec<u8>),
    BeforeEq(Vec<u8>),
    BeforeVal(Vec<u8>),
    RawVal(Vec<u8>, Vec<u8>),
    RawEsc(Vec<u8>, Vec<u8>),
    Quoted(Vec<u8>, Vec<u8>),
    QuotedEsc(Vec<u8>, Vec<u8>),
}

impl View for LexState {
    type V = LexStV;

    closed spec fn view(&self) -> LexStV {
        match self {
            LexState::BeforeKey => LexStV::BeforeKey,
            LexState::InKey(k) => LexStV::InKey(k@),
            LexState::BeforeEq(k) => LexStV::BeforeEq(k@),
            LexState::BeforeVal(k) => LexStV::BeforeVal(k@),
            LexState::RawVal(k, v) => LexStV::RawVal(k@, v@),
            LexState::RawEsc(k, v) => LexStV::RawEsc(k@, v@),
            LexState::Quoted(k, v) => LexStV::Quoted(k@, v@),
            LexState::QuotedEsc(k, v) => LexStV::QuotedEsc(k@, v@),
        }
    }
}

fn lex_step(c: &mut ConnConfig, st: LexState, b: u8) -> (r: Result<LexState, ParseError>)
    ensures
        match r {
            Ok(st2) => step(old(c)@, st@, b) == Ok::<(ConfigV, LexStV), ParseError>(
                (final(c)@, st2@),
            ),
            Err(e) => step(old(c)@, st@, b) == Err::<(ConfigV, LexStV), ParseError>(e),
        },
{
    match st {
        LexState::BeforeKey => {
            if is_ws_exec(b) {
                Ok(LexState::BeforeKey)
            } else if b == 61 {
                Err(ParseError::UnexpectedCharacter)
            } else {
                let mut k: Vec<u8> = Vec::new();
                k.push(b);
                proof {
                    assert(k@ =~= seq![b]);
                }
                Ok(LexState::InKey(k))
            }
        },
        LexState::InKey(mut k) => {
            if b == 61 {
                Ok(LexState::BeforeVal(k))
            } else if is_ws_exec(b) {
                Ok(LexState::BeforeEq(k))
            } else {
                k.push(b);
                Ok(LexState::InKey(k))
            }
        },
        LexState::BeforeEq(k) => {
            if is_ws_exec(b) {
                Ok(LexState::BeforeEq(k))
            } else if b == 61 {
                Ok(LexState::BeforeVal(k))
            } else {
                Err(ParseError::UnexpectedCharacter)
            }
        },
        LexState::BeforeVal(k) => {
            if is_ws_exec(b) {
                Ok(LexState::BeforeVal(k))
            } else if b == 39 {
                let v: Vec<u8> = Vec::new();
                proof {
                    assert(v@ =~= Seq::<u8>::empty());
                }
                Ok(LexState::Quoted(k, v))
            } else if b == 92 {
                let v: Vec<u8> = Vec::new();
                proof {
                    assert(v@ =~= Seq::<u8>::empty());
                }
                Ok(LexState::RawEsc(k, v))
            } else {
                let mut v: Vec<u8> = Vec::new();
                v.push(b);
                proof {
                    assert(v@ =~= seq![b]);
                }
                Ok(LexState::RawVal(k, v))
            }
        },
        LexState::RawVal(k, mut v) => {
            if is_ws_exec(b) {
                match apply_param(c, &k, &v) {
                    Ok(u) => Ok(LexState::BeforeKey),
                    Err(e) => Err(e),
                }
            } else if b == 92 {
                Ok(LexState::RawEsc(k, v))
            } else {
                v.push(b);
                Ok(LexState::RawVal(k, v))
            }
        },
        LexState::RawEsc(k, mut v) => {
            v.push(b);
            Ok(LexState::RawVal(k, v))
        },
        LexState::Quoted(k, mut v) => {
            if b == 39 {
                match apply_param(c, &k, &v) {
                    Ok(u) => Ok(LexState::BeforeKey),
                    Err(e) => Err(e),
                }
            } else if b == 92 {
                Ok(LexState::QuotedEsc(k, v))
            } else {
                v.push(b);
                Ok(LexState::Quoted(k, v))
            }
        },
        LexState::QuotedEsc(k, mut v) => {
            v.push(b);
            Ok(LexState::Quoted(k, v))
        },
    }
}

fn lex_finish(c: ConnConfig, st: LexState) -> (r: Result<ConnConfig, ParseError>)
    ensures
        match r {
            Ok(c2) => finish(c@, st@) == Ok::<ConfigV, ParseError>(c2@),
            Err(e) => finish(c@, st@) == Err::<ConfigV, ParseError>(e),
        },
{
    let mut c = c;
    match st {
        LexState::BeforeKey => Ok(c),
        LexState::InKey(_) => Err(ParseError::UnexpectedEof),
        LexState::BeforeEq(_) => Err(ParseError::UnexpectedEof),
        LexState::BeforeVal(k) => {
            let v: Vec<u8> = Vec::new();
            proof {
                assert(v@ =~= Seq::<u8>::empty());
            }
            match apply_param(&mut c, &k, &v) {
                Ok(u) => Ok(c),
                Err(e) => Err(e),
            }
        },
        LexState::RawVal(k, v) => {
            match apply_param(&mut c, &k, &v) {
                Ok(u) => Ok(c),
                Err(e) => Err(e),
            }
        },
        LexState::RawEsc(_, _) => Err(ParseError::UnexpectedEof),
        LexState::Quoted(_, _) => Err(ParseError::UnexpectedEof),
        LexState::QuotedEsc(_, _) => Err(ParseError::UnexpectedEof),
    }
}

/// Parses a whole connection string.
///
/// Returns exactly what the specification-level parser [`parse_spec`] says:
/// the parsed configuration, or the first error the byte-at-a-time grammar
/// encounters.
pub fn parse_conninfo(s: &[u8]) -> (r: Result<ConnConfig, ParseError>)
    ensures
        match r {
            Ok(c) => parse_spec(s@) == Ok::<ConfigV, ParseError>(c@),
            Err(e) => parse_spec(s@) == Err::<ConfigV, ParseError>(e),
        },
{
    let mut c = ConnConfig {
        hosts: Vec::new(),
        ports: Vec::new(),
        user: None,
        dbname: None,
        password: None,
        ssl_mode: SslMode::Prefer,
    };
    proof {
        assert(c@ =~~= init_config());
    }
    let mut st = LexState::BeforeKey;
    let mut i: usize = 0;
    while i < s.len()
        invariant
            i <= s.len(),
            run(s@, i as int, c@, st@) == parse_spec(s@),
        decreases s.len() - i,
    {
        let ghost c0 = c@;
        let ghost st0 = st@;
        let b = s[i];
        match lex_step(&mut c, st, b) {
            Ok(st2) => {
                proof {
                    assert(run(s@, i as int, c0, st0) == run(s@, i as int + 1, c@, st2@));
                }
                st = st2;
            },
            Err(e) => {
                proof {
                    assert(run(s@, i as int, c0, st0) == Err::<ConfigV, ParseError>(e));
                }
                return Err(e);
            },
        }
        i += 1;
    }
    match lex_finish(c, st) {
        Ok(c2) => Ok(c2),
        Err(e) => Err(e),
    }
}

} // verus!
