//! The connection lifecycle manager.
//!
//! [`SingleConnection`] owns an optional client handle and an optional
//! background driver task, generic over their concrete types: the unverified
//! runtime instantiates them with the wire-protocol client and its task
//! handle. The manager's rules are verified here: a connection is usable only
//! while both handles are present and the task still runs; a reconnect
//! attempt first discards any previous pair, then either populates both
//! handles or leaves both empty — never one without the other.
//!
//! [`SingleConnection::begin_reconnect`] validates the stored options and
//! produces a [`ReconnectPlan`]: everything the runtime needs to request a
//! fresh auth token (host, region, and which of the two token kinds the user
//! is entitled to) and to open the transport. The runtime performs those
//! calls and, on success, hands the new pair to
//! [`SingleConnection::complete_reconnect`].

use crate::error::Error;
use crate::error::Field;
use crate::params::parse_conninfo;
use crate::params::parse_spec;
use crate::params::ConfigV;
use crate::params::ConnConfig;
use crate::params::HostV;
use crate::params::ParseError;
use crate::params::SslMode;
use crate::params::copy_bytes;
use crate::params::Host;
use vstd::prelude::*;

verus! {

/// The name of the distinguished administrative user, `admin`.
pub open spec fn admin_user() -> Seq<u8> {
    seq![97u8, 100u8, 109u8, 105u8, 110u8]
}

fn is_admin_user(u: &[u8]) -> (r: bool)
    ensures
        r == (u@ == admin_user()),
{
    if u.len() != 5 {
        return false;
    }
    let r = u[0] == 97 && u[1] == 100 && u[2] == 109 && u[3] == 105 && u[4] == 110;
    proof {
        if r {
            assert(u@ =~= admin_user());
        }
    }
    r
}

/// Which of the two token variants a reconnect attempt requests.
#[derive(Clone, Copy, Debug, PartialEq, Eq, Structural)]
pub enum TokenKind {
    /// The elevated, admin-scoped token, requested only for the user `admin`.
    Admin,
    /// The standard token, requested for every other user.
    Standard,
}

/// The mathematical value of an [`Opts`].
#[verifier::ext_equal]
pub ghost struct OptsV {
    pub config: ConfigV,
    pub region: Option<Seq<u8>>,
}

/// The immutable options of a manager: the parsed connection parameters and
/// the region of the stored SDK configuration, if it names one.
#[derive(Clone, Debug, PartialEq)]
pub struct Opts {
    pub config: ConnConfig,
    pub region: Option<Vec<u8>>,
}

/// The value of an optional byte string.
pub open spec fn opt_bytes_view(o: Option<Vec<u8>>) -> Option<Seq<u8>> {
    match o {
        Some(v) => Some(v@),
        None => None,
    }
}

impl View for Opts {
    type V = OptsV;

    open spec fn view(&self) -> OptsV {
        OptsV { config: self.config@, region: opt_bytes_view(self.region) }
    }
}

impl Opts {
    /// Parses a connection string and pairs it with the region resolved from
    /// the SDK configuration. The string must parse; whether it names a
    /// usable host and user is checked again on every reconnect attempt.
    pub fn new(conninfo: &[u8], region: Option<Vec<u8>>) -> (r: Result<Opts, Error>)
        ensures
            match r {
                Ok(o) => parse_spec(conninfo@) == Ok::<ConfigV, ParseError>(o@.config) && o@.region
                    == opt_bytes_view(region),
                Err(e) => (parse_spec(conninfo@) matches Err(pe) && e == Error::Parse(pe)),
            },
    {
        match parse_conninfo(conninfo) {
            Ok(config) => Ok(Opts { config, region }),
            Err(pe) => Err(Error::Parse(pe)),
        }
    }

    /// Creates an unconnected manager around these options; the first
    /// reconnect happens at first use.
    pub fn lazy_one<C, T>(self) -> (c: SingleConnection<C, T>)
        ensures
            c.opts == self,
            c.client is None,
            c.connection is None,
            c.wf(),
            !c.connected(),
    {
        SingleConnection { opts: self, client: None, connection: None }
    }
}

/// The mathematical value of a [`ReconnectPlan`].
#[verifier::ext_equal]
pub ghost struct PlanV {
    pub host: Seq<u8>,
    pub port: u16,
    pub user: Seq<u8>,
    pub dbname: Option<Seq<u8>>,
    pub ssl_mode: SslMode,
    pub token_kind: TokenKind,
    pub region: Seq<u8>,
}

/// Everything one reconnect attempt needs from the stored options: where to
/// connect, as whom, which token kind to request and for which region, and
/// the TLS mode to honour. The token itself is generated by the runtime from
/// this plan, fresh for every attempt.
#[derive(Clone, Debug, PartialEq)]
pub struct ReconnectPlan {
    pub host: Vec<u8>,
    pub port: u16,
    pub user: Vec<u8>,
    pub dbname: Option<Vec<u8>>,
    pub ssl_mode: SslMode,
    pub token_kind: TokenKind,
    pub region: Vec<u8>,
}

impl View for ReconnectPlan {
    type V = PlanV;

    open spec fn view(&self) -> PlanV {
        PlanV {
            host: self.host@,
            port: self.port,
            user: self.user@,
            dbname: opt_bytes_view(self.dbname),
            ssl_mode: self.ssl_mode,
            token_kind: self.token_kind,
            region: self.region@,
        }
    }
}

/// Whether the parsed configuration names exactly one host, and a TCP one.
pub open spec fn single_tcp_host(c: ConfigV) -> bool {
    c.hosts.len() == 1 && c.hosts[0] is Tcp
}

/// The name carried by a host, whichever kind it is.
pub open spec fn host_name(h: HostV) -> Seq<u8> {
    match h {
        HostV::Tcp(n) => n,
        HostV::Unix(p) => p,
    }
}

/// The port of a reconnect attempt: the first port named by the connection
/// string, or 5432 when it names none.
pub open spec fn effective_port(c: ConfigV) -> u16 {
    if c.ports.len() == 0 {
        5432u16
    } else {
        c.ports[0]
    }
}

/// What validating the options of a reconnect attempt yields: a plan, or the
/// first unusable argument in the order host, user, region.
pub open spec fn plan_spec(o: OptsV) -> Result<PlanV, Field> {
    if !single_tcp_host(o.config) {
        Err(Field::Host)
    } else {
        match o.config.user {
            None => Err(Field::User),
            Some(u) => match o.region {
                None => Err(Field::Region),
                Some(reg) => Ok(
                    PlanV {
                        host: host_name(o.config.hosts[0]),
                        port: effective_port(o.config),
                        user: u,
                        dbname: o.config.dbname,
                        ssl_mode: o.config.ssl_mode,
                        token_kind: if u == admin_user() {
                            TokenKind::Admin
                        } else {
                            TokenKind::Standard
                        },
                        region: reg,
                    },
                ),
            },
        }
    }
}

/// Whether a manager in state `s` must reconnect before handing out a
/// handle: it must whenever a handle or the task is missing, or the task has
/// finished.
pub open spec fn needs_reconnect_spec<C, T>(s: SingleConnection<C, T>, task_finished: bool) -> bool {
    !(s.client is Some && s.connection is Some) || task_finished
}

/// How one reconnect attempt relates the manager's states: the options are
/// kept, and the client/task pair reflects the outcome — both present on
/// success, both absent on failure.
pub open spec fn reconnect_transition<C, T>(
    before: SingleConnection<C, T>,
    after: SingleConnection<C, T>,
    outcome: Option<(C, T)>,
) -> bool {
    &&& after.opts == before.opts
    &&& match outcome {
        Some(p) => after.client == Some(p.0) && after.connection == Some(p.1),
        None => after.client is None && after.connection is None,
    }
}

/// A single managed connection: the stored options plus the optional
/// client/background-task pair, which transition together.
pub struct SingleConnection<C, T> {
    pub opts: Opts,
    pub client: Option<C>,
    pub connection: Option<T>,
}

impl<C, T> SingleConnection<C, T> {
    /// The manager's invariant: the client handle and the background task
    /// are present or absent together.
    pub open spec fn wf(self) -> bool {
        self.client is Some <==> self.connection is Some
    }

    /// Whether both a client and a background task are populated.
    pub open spec fn connected(self) -> bool {
        self.client is Some && self.connection is Some
    }

    /// The staleness check of `acquire`: given whether the current
    /// background task has finished, decides if a reconnect must happen
    /// before a handle can be handed out.
    pub fn needs_reconnect(&self, task_finished: bool) -> (r: bool)
        ensures
            r == needs_reconnect_spec(*self, task_finished),
    {
        match (&self.client, &self.connection) {
            (Some(_), Some(_)) => task_finished,
            _ => true,
        }
    }

    /// Starts a reconnect attempt: unconditionally discards any previous
    /// client/task pair, then validates the stored options into a
    /// [`ReconnectPlan`], or reports the first unusable argument. On an
    /// error the manager stays unconnected, ready for the next attempt; no
    /// token is requested and no transport is opened for invalid options.
    pub fn begin_reconnect(&mut self) -> (r: Result<ReconnectPlan, Error>)
        ensures
            final(self).client is None,
            final(self).connection is None,
            final(self).opts == old(self).opts,
            reconnect_transition(*old(self), *final(self), None::<(C, T)>),
            final(self).wf(),
            match r {
                Ok(plan) => plan_spec(old(self).opts@) == Ok::<PlanV, Field>(plan@),
                Err(e) => (plan_spec(old(self).opts@) matches Err(f) && e == Error::InvalidArg(f)),
            },
    {
        self.client = None;
        self.connection = None;
        let cfg = &self.opts.config;
        if cfg.hosts.len() != 1 {
            return Err(Error::InvalidArg(Field::Host));
        }
        let host: Vec<u8> = match &cfg.hosts[0] {
            Host::Tcp(n) => copy_bytes(n.as_slice()),
            Host::Unix(_) => {
                return Err(Error::InvalidArg(Field::Host));
            },
        };
        let user: Vec<u8> = match &cfg.user {
            Some(u) => copy_bytes(u.as_slice()),
            None => {
                return Err(Error::InvalidArg(Field::User));
            },
        };
        let region: Vec<u8> = match &self.opts.region {
            Some(reg) => copy_bytes(reg.as_slice()),
            None => {
                return Err(Error::InvalidArg(Field::Region));
            },
        };
        let cfg = &self.opts.config;
        let port: u16 = if cfg.ports.len() == 0 {
            5432
        } else {
            cfg.ports[0]
        };
        let dbname: Option<Vec<u8>> = match &cfg.dbname {
            Some(d) => Some(copy_bytes(d.as_slice())),
            None => None,
        };
        let token_kind = if is_admin_user(user.as_slice()) {
            TokenKind::Admin
        } else {
            TokenKind::Standard
        };
        let plan = ReconnectPlan {
            host,
            port,
            user,
            dbname,
            ssl_mode: cfg.ssl_mode,
            token_kind,
            region,
        };
        proof {
            assert(plan_spec(old(self).opts@) matches Ok(p) && p =~~= plan@);
        }
        Ok(plan)
    }

    /// Finishes a successful reconnect attempt: stores the freshly connected
    /// client and its background driver task, together.
    pub fn complete_reconnect(&mut self, client: C, task: T)
        ensures
            final(self).opts == old(self).opts,
            final(self).client == Some(client),
            final(self).connection == Some(task),
            reconnect_transition(*old(self), *final(self), Some((client, task))),
            final(self).wf(),
            final(self).connected(),
    {
        self.client = Some(client);
        self.connection = Some(task);
    }

    /// Hands out the live client handle, or [`Error::Unknown`] when none is
    /// populated.
    pub fn borrow_connected(&mut self) -> (r: Result<&mut C, Error>)
        ensures
            match r {
                Ok(c) => {
                    &&& old(self).client == Some(*c)
                    &&& final(self).client == Some(*final(c))
                    &&& final(self).connection == old(self).connection
                    &&& final(self).opts == old(self).opts
                },
                Err(e) => {
                    &&& e == Error::Unknown
                    &&& old(self).client is None
                    &&& *final(self) == *old(self)
                },
            },
    {
        match &mut self.client {
            Some(c) => Ok(c),
            None => Err(Error::Unknown),
        }
    }
}

/// A reconnect attempt never leaves a half-populated manager: whatever its
/// outcome, the client handle and the background task are present or absent
/// together, and they are present exactly when the attempt succeeded.
pub proof fn lemma_reconnect_no_half_state<C, T>(
    before: SingleConnection<C, T>,
    after: SingleConnection<C, T>,
    outcome: Option<(C, T)>,
)
    requires
        reconnect_transition(before, after, outcome),
    ensures
        after.wf(),
        after.connected() <==> outcome is Some,
        after.opts == before.opts,
{
}

/// A plan — the only carrier of a token request — exists exactly for options
/// with a single TCP host, a user and a region; for any other options
/// validation rejects the attempt before a token is requested or a transport
/// is opened.
pub proof fn lemma_plan_only_for_valid_options(o: OptsV)
    ensures
        plan_spec(o) is Ok <==> (single_tcp_host(o.config) && o.config.user is Some && o.region
            is Some),
{
}

/// Options whose host list is not a single TCP host are rejected as an
/// invalid `host` argument.
pub proof fn lemma_invalid_host_rejected(o: OptsV)
    requires
        !single_tcp_host(o.config),
    ensures
        plan_spec(o) == Err::<PlanV, Field>(Field::Host),
{
}

/// Options without a user are rejected as an invalid `user` argument.
pub proof fn lemma_missing_user_rejected(o: OptsV)
    requires
        single_tcp_host(o.config),
        o.config.user is None,
    ensures
        plan_spec(o) == Err::<PlanV, Field>(Field::User),
{
}

/// Every plan requests the elevated token exactly for the user `admin`, and
/// the standard token for every other user.
pub proof fn lemma_admin_token_kind(o: OptsV)
    ensures
        plan_spec(o) matches Ok(p) ==> (p.token_kind == TokenKind::Admin <==> o.config.user
            == Some(admin_user())),
        plan_spec(o) matches Ok(p) ==> (p.token_kind == TokenKind::Standard <==> o.config.user
            != Some(admin_user())),
{
}

/// A connected manager whose background task has finished is stale: the
/// next `acquire` must reconnect. An unconnected manager — in particular one
/// left behind by a failed reconnect attempt — must reconnect as well,
/// whatever the task flag says: no failure poisons the manager.
pub proof fn lemma_stale_or_failed_retries<C, T>(s: SingleConnection<C, T>, task_finished: bool)
    ensures
        s.connected() && task_finished ==> needs_reconnect_spec(s, task_finished),
        !s.connected() ==> needs_reconnect_spec(s, task_finished),
        !needs_reconnect_spec(s, task_finished) ==> s.connected() && !task_finished,
{
}

} // verus!
