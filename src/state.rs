//! Shared process state: the pairing code, the bound port and the session
//! registry, with the snapshots assembled from them.

use vstd::prelude::*;
use vstd::string::StringExecFns;
use crate::database::DatabaseEngine;
use crate::error::AdbaError;
use crate::ids::{generate_pairing_code, is_uuid_text, pairing_code_of};
use crate::text::push_char;

verus! {

/// The port recorded before the transport has bound one.
pub const DEFAULT_PORT: u16 = 5433;

/// The host named in connection details when no local address is known.
pub const LOOPBACK_HOST: &'static str = "127.0.0.1";

/// A snapshot of the running service.
#[derive(Debug, Clone, PartialEq, Eq)]
pub struct ServerStatus {
    pub running: bool,
    pub pg_port: u16,
    pub databases_count: usize,
    pub active_connections: usize,
    pub pairing_code: String,
    pub local_ip: Option<String>,
}

/// What a client needs to connect.
#[derive(Debug, Clone, PartialEq, Eq)]
pub struct ConnectionInfo {
    pub host: String,
    pub port: u16,
    pub pairing_code: String,
    pub connection_string: String,
}

/// A client's attachment to a tenant database.
#[derive(Debug, Clone, PartialEq, Eq)]
pub struct ConnectionSession {
    pub id: String,
    pub client_app: String,
    pub database: String,
    pub connected_at: i64,
}

/// The decimal digit characters, by value.
pub open spec fn digit_chars() -> Seq<char> {
    seq!['0', '1', '2', '3', '4', '5', '6', '7', '8', '9']
}

/// The decimal text of `n`, without leading zeros.
pub open spec fn decimal(n: nat) -> Seq<char>
    decreases n,
{
    if n < 10 {
        seq![digit_chars()[n as int]]
    } else {
        decimal(n / 10).push(digit_chars()[(n % 10) as int])
    }
}

/// Appends the decimal text of `n`.
pub fn push_decimal(s: &mut String, n: u16)
    ensures
        final(s)@ == old(s)@ + decimal(n as nat),
    decreases n,
{
    let digits = ['0', '1', '2', '3', '4', '5', '6', '7', '8', '9'];
    assert(digits@ == digit_chars());
    if n >= 10 {
        push_decimal(s, n / 10);
    }
    push_char(s, digits[(n % 10) as usize]);
    proof {
        if n >= 10 {
            assert(old(s)@ + decimal(n as nat) =~= old(s)@ + decimal((n / 10) as nat) + seq![
                digit_chars()[(n % 10) as int],
            ]);
        } else {
            assert(n % 10 == n);
        }
    }
}

/// The connection string for a pairing code, a host and a port.
pub open spec fn connection_string_of(code: Seq<char>, host: Seq<char>, port: u16) -> Seq<char> {
    "postgresql://adba:"@ + code + "@"@ + host + ":"@ + decimal(port as nat) + "/main"@
}

/// Builds the connection string that embeds a pairing code, a host and a port.
pub fn connection_string(code: &str, host: &str, port: u16) -> (r: String)
    ensures
        r@ == connection_string_of(code@, host@, port),
{
    let mut s = String::from_str("postgresql://adba:");
    s.append(code);
    s.append("@");
    s.append(host);
    s.append(":");
    push_decimal(&mut s, port);
    s.append("/main");
    s
}

/// Whether a presented code is accepted while `current`: exact,
/// case-sensitive equality.
pub open spec fn pairing_accepts(current: Seq<char>, presented: Seq<char>) -> bool {
    current == presented
}

/// The sessions other than those with the given id, in order.
pub open spec fn without_id(s: Seq<ConnectionSession>, id: Seq<char>) -> Seq<ConnectionSession>
    decreases s.len(),
{
    if s.len() == 0 {
        Seq::empty()
    } else if s.last().id@ == id {
        without_id(s.drop_last(), id)
    } else {
        without_id(s.drop_last(), id).push(s.last())
    }
}

/// The process-wide state that every request consults.
pub struct AppState {
    pub db: DatabaseEngine,
    pairing_code: String,
    pg_port: u16,
    active_connections: Vec<ConnectionSession>,
}

impl AppState {
    /// The database engine.
    pub closed spec fn engine(&self) -> DatabaseEngine {
        self.db
    }

    /// The current pairing code.
    pub closed spec fn code(&self) -> Seq<char> {
        self.pairing_code@
    }

    /// The last bound listening port.
    pub closed spec fn port(&self) -> u16 {
        self.pg_port
    }

    /// The active sessions, in the order added.
    pub closed spec fn sessions(&self) -> Seq<ConnectionSession> {
        self.active_connections@
    }

    /// The state with a given pairing code, the default port and no sessions.
    pub fn with_pairing_code(db: DatabaseEngine, code: String) -> (r: AppState)
        ensures
            r.engine() == db,
            r.code() == code@,
            r.port() == DEFAULT_PORT,
            r.sessions() == Seq::<ConnectionSession>::empty(),
    {
        AppState { db, pairing_code: code, pg_port: DEFAULT_PORT, active_connections: Vec::new() }
    }

    /// The state at process start: a fresh random pairing code, the default
    /// port and no sessions.
    pub fn new(db: DatabaseEngine) -> (r: AppState)
        ensures
            r.engine() == db,
            exists|t: Seq<char>| is_uuid_text(t) && r.code() == pairing_code_of(t),
            r.port() == DEFAULT_PORT,
            r.sessions() == Seq::<ConnectionSession>::empty(),
    {
        let code = generate_pairing_code();
        Self::with_pairing_code(db, code)
    }

    /// Records the port that the transport bound.
    pub fn set_pg_port(&mut self, port: u16)
        ensures
            final(self).port() == port,
            final(self).code() == old(self).code(),
            final(self).sessions() == old(self).sessions(),
            final(self).engine() == old(self).engine(),
    {
        self.pg_port = port;
    }

    /// The last bound listening port.
    pub fn pg_port(&self) -> (r: u16)
        ensures
            r == self.port(),
    {
        self.pg_port
    }

    /// The current pairing code.
    pub fn pairing_code(&self) -> (r: String)
        ensures
            r@ == self.code(),
    {
        self.pairing_code.clone()
    }

    /// Installs `code` as the pairing code; the previous one stops being
    /// accepted at once.
    pub fn install_pairing_code(&mut self, code: String)
        ensures
            final(self).code() == code@,
            final(self).port() == old(self).port(),
            final(self).sessions() == old(self).sessions(),
            final(self).engine() == old(self).engine(),
    {
        self.pairing_code = code;
    }

    /// Replaces the pairing code with a fresh random one and returns it.
    pub fn regenerate_pairing_code(&mut self) -> (r: String)
        ensures
            r@ == final(self).code(),
            exists|t: Seq<char>| is_uuid_text(t) && r@ == pairing_code_of(t),
            final(self).port() == old(self).port(),
            final(self).sessions() == old(self).sessions(),
            final(self).engine() == old(self).engine(),
    {
        let code = generate_pairing_code();
        let out = code.clone();
        self.install_pairing_code(code);
        out
    }

    /// Whether `code` is exactly the current pairing code.
    pub fn validate_pairing_code(&self, code: &str) -> (r: bool)
        ensures
            r == pairing_accepts(self.code(), code@),
    {
        let presented = String::from_str(code);
        self.pairing_code == presented
    }

    /// The authorization in front of statement execution: passes on the current
    /// pairing code, and fails with `Auth` on any other.
    pub fn authorize_query(&self, code: &str) -> (r: Result<(), AdbaError>)
        ensures
            r is Ok <==> pairing_accepts(self.code(), code@),
            r is Err ==> (r->Err_0 matches AdbaError::Auth(m) && m@ == "Invalid pairing code"@),
    {
        if self.validate_pairing_code(code) {
            Ok(())
        } else {
            Err(AdbaError::Auth(String::from_str("Invalid pairing code")))
        }
    }

    /// Registers a session at the end of the registry.
    pub fn add_connection(&mut self, session: ConnectionSession)
        ensures
            final(self).sessions() == old(self).sessions().push(session),
            final(self).code() == old(self).code(),
            final(self).port() == old(self).port(),
            final(self).engine() == old(self).engine(),
    {
        self.active_connections.push(session);
    }

    /// Removes every session with the given id; an absent id changes nothing.
    pub fn remove_connection(&mut self, id: &str)
        ensures
            final(self).sessions() == without_id(old(self).sessions(), id@),
            final(self).code() == old(self).code(),
            final(self).port() == old(self).port(),
            final(self).engine() == old(self).engine(),
    {
        let target = String::from_str(id);
        let mut rest: Vec<ConnectionSession> = Vec::new();
        std::mem::swap(&mut rest, &mut self.active_connections);
        let ghost orig = rest@;
        let n = rest.len();
        let mut kept: Vec<ConnectionSession> = Vec::new();
        let mut i: usize = 0;
        while i < n
            invariant
                n == orig.len(),
                i <= n,
                target@ == id@,
                rest@ == orig.subrange(i as int, n as int),
                kept@ == without_id(orig.subrange(0, i as int), id@),
            decreases n - i,
        {
            let s = rest.remove(0);
            proof {
                let pre = orig.subrange(0, i as int + 1);
                assert(pre.drop_last() =~= orig.subrange(0, i as int));
                assert(pre.last() == s);
            }
            if s.id != target {
                kept.push(s);
            }
            i = i + 1;
            assert(rest@ =~= orig.subrange(i as int, n as int));
        }
        assert(orig.subrange(0, n as int) =~= orig);
        self.active_connections = kept;
    }

    /// The number of active sessions.
    pub fn active_connection_count(&self) -> (r: usize)
        ensures
            r == self.sessions().len(),
    {
        self.active_connections.len()
    }

    /// The status snapshot, given the number of catalogued databases and the
    /// local address, if one was found.
    pub fn get_status(&self, databases_count: usize, local_ip: Option<String>) -> (r: ServerStatus)
        ensures
            r.running,
            r.pg_port == self.port(),
            r.databases_count == databases_count,
            r.active_connections == self.sessions().len(),
            r.pairing_code@ == self.code(),
            r.local_ip == local_ip,
    {
        ServerStatus {
            running: true,
            pg_port: self.pg_port,
            databases_count,
            active_connections: self.active_connections.len(),
            pairing_code: self.pairing_code.clone(),
            local_ip,
        }
    }

    /// The connection details, given the local address, if one was found; the
    /// loopback address stands in for a missing one.
    pub fn get_connection_info(&self, local_ip: Option<String>) -> (r: ConnectionInfo)
        ensures
            r.host@ == (match local_ip {
                Some(ip) => ip@,
                None => LOOPBACK_HOST@,
            }),
            r.port == self.port(),
            r.pairing_code@ == self.code(),
            r.connection_string@ == connection_string_of(self.code(), r.host@, self.port()),
    {
        let host = match local_ip {
            Some(ip) => ip,
            None => String::from_str(LOOPBACK_HOST),
        };
        let connection_string = connection_string(self.pairing_code.as_str(), host.as_str(), self.pg_port);
        ConnectionInfo {
            host,
            port: self.pg_port,
            pairing_code: self.pairing_code.clone(),
            connection_string,
        }
    }
}

/// Rotation revokes the previous code at once: after the pairing code has
/// changed, a request that presents the old one is refused, and one that
/// presents the new one passes.
pub proof fn lemma_rotation_revokes_old_code(before: AppState, after: AppState)
    requires
        after.code() != before.code(),
    ensures
        !pairing_accepts(after.code(), before.code()),
        pairing_accepts(after.code(), after.code()),
{
}

} // verus!
