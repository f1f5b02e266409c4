//! The health of the tmux server, gathered from several probes.

use vstd::prelude::*;

use crate::executor::TmuxOutput;
use crate::text::{
    concat, dec, nonempty_lines, nonempty_lines_exec, owned, parse_u32, parse_u64,
    parse_unsigned, push_decimal, splitn, splitn_exec, trim, trim_exec, views,
};

verus! {

#[derive(Debug, Clone, PartialEq, Eq)]
pub struct HealthStatus {
    pub available: bool,
    pub version: String,
    pub session_count: u32,
    pub client_count: u32,
    pub uptime_seconds: Option<u64>,
    pub server_pid: Option<u32>,
}

impl HealthStatus {
    /// The status of a server that could not be reached.
    pub fn unavailable() -> (h: HealthStatus)
        ensures
            !h.available,
            h.version@ == Seq::<char>::empty(),
            h.session_count == 0,
            h.client_count == 0,
            h.uptime_seconds is None,
            h.server_pid is None,
    {
        HealthStatus {
            available: false,
            version: String::new(),
            session_count: 0,
            client_count: 0,
            uptime_seconds: None,
            server_pid: None,
        }
    }

    /// "healthy ({version}, {n} sessions, {m} clients)" or "unavailable".
    pub fn to_string(&self) -> (s: String)
        ensures
            s@ == if self.available {
                "healthy ("@ + self.version@ + ", "@ + dec(self.session_count as nat) + " sessions, "@
                    + dec(self.client_count as nat) + " clients)"@
            } else {
                "unavailable"@
            },
    {
        if self.available {
            let a = concat("healthy (", self.version.as_str());
            let mut b = concat(a.as_str(), ", ");
            push_decimal(&mut b, self.session_count as u64);
            let mut c = concat(b.as_str(), " sessions, ");
            push_decimal(&mut c, self.client_count as u64);
            concat(c.as_str(), " clients)")
        } else {
            owned("unavailable")
        }
    }
}

/// The server pid and start time in `display-message -p '#{pid}\t#{start_time}'`
/// output, and the uptime at `now` (seconds since the epoch).
pub open spec fn server_info_at(stdout: Seq<char>, now: Option<u64>) -> (Option<u32>, Option<u64>) {
    let parts = splitn(trim(stdout), '\t', 2);
    if parts.len() < 2 {
        (None, None)
    } else {
        (
            match parse_unsigned(parts[0], u32::MAX as nat) {
                Ok(p) => Some(p as u32),
                Err(_) => None,
            },
            match (parse_unsigned(parts[1], u64::MAX as nat), now) {
                (Ok(st), Some(n)) => if st <= n {
                    Some((n - st) as u64)
                } else {
                    None
                },
                _ => None,
            },
        )
    }
}

/// Parse `display-message` output given the current time.
pub fn parse_server_info_at(stdout: &str, now: Option<u64>) -> (r: (Option<u32>, Option<u64>))
    ensures
        r == server_info_at(stdout@, now),
{
    let line = trim_exec(stdout);
    let parts = splitn_exec(line.as_str(), '\t', 2);
    if parts.len() < 2 {
        return (None, None);
    }
    assert(parts@[0]@ == views(parts@)[0]);
    assert(parts@[1]@ == views(parts@)[1]);
    proof {
        crate::text::lemma_parse_unsigned_bound(parts@[0]@, u32::MAX as nat);
        crate::text::lemma_parse_unsigned_bound(parts@[1]@, u64::MAX as nat);
    }
    let pid = match parse_u32(parts[0].as_str()) {
        Ok(p) => Some(p),
        Err(_) => None,
    };
    let uptime = match (parse_u64(parts[1].as_str()), now) {
        (Ok(st), Some(n)) => n.checked_sub(st),
        _ => None,
    };
    (pid, uptime)
}

/// Seconds since the Unix epoch by the system clock, when the clock is past it.
#[verifier::external_body]
fn unix_now() -> (r: Option<u64>) {
    match std::time::SystemTime::now().duration_since(std::time::UNIX_EPOCH) {
        Ok(d) => Some(d.as_secs()),
        Err(_) => None,
    }
}

/// Parse `display-message` output; the uptime is measured against the system clock.
pub fn parse_server_info(stdout: &str) -> (r: (Option<u32>, Option<u64>))
    ensures
        exists|now: Option<u64>| r == server_info_at(stdout@, now),
{
    let now = unix_now();
    parse_server_info_at(stdout, now)
}

/// How many non-empty lines `stdout` has, as a `u32` (`count() as u32`).
pub fn count_nonempty_lines(stdout: &str) -> (n: u32)
    ensures
        n == nonempty_lines(stdout@).len() as u32,
{
    let lines = nonempty_lines_exec(stdout);
    assert(views(lines@).len() == lines@.len());
    lines.len() as u32
}

/// The probe ran and tmux reported success.
pub open spec fn probe_ok(p: Option<TmuxOutput>) -> bool {
    p matches Some(o) && o.success
}

pub fn probe_succeeded(p: &Option<TmuxOutput>) -> (b: bool)
    ensures
        b == probe_ok(*p),
{
    match p {
        Some(o) => o.success,
        None => false,
    }
}

/// A count probe: its non-empty lines when it succeeded, else zero.
pub open spec fn probe_count(p: Option<TmuxOutput>) -> u32 {
    if probe_ok(p) {
        nonempty_lines(p->0.stdout@).len() as u32
    } else {
        0
    }
}

fn count_from_probe(p: &Option<TmuxOutput>) -> (n: u32)
    ensures
        n == probe_count(*p),
{
    match p {
        Some(o) => if o.success {
            count_nonempty_lines(o.stdout.as_str())
        } else {
            0
        },
        None => 0,
    }
}

/// The health status the probes add up to: unavailable unless the version
/// probe succeeded; the counts from the session and client probes; pid and
/// uptime from the display probe, measured at `now`.
pub fn health_from_probes_at(
    version: &Option<TmuxOutput>,
    sessions: &Option<TmuxOutput>,
    clients: &Option<TmuxOutput>,
    display: &Option<TmuxOutput>,
    now: Option<u64>,
) -> (h: HealthStatus)
    ensures
        h.available == probe_ok(*version),
        !probe_ok(*version) ==> {
            &&& h.version@ == Seq::<char>::empty()
            &&& h.session_count == 0
            &&& h.client_count == 0
            &&& h.uptime_seconds is None
            &&& h.server_pid is None
        },
        probe_ok(*version) ==> {
            &&& h.version@ == trim(version->0.stdout@)
            &&& h.session_count == probe_count(*sessions)
            &&& h.client_count == probe_count(*clients)
            &&& (h.server_pid, h.uptime_seconds) == if probe_ok(*display) {
                server_info_at(display->0.stdout@, now)
            } else {
                (None, None)
            }
        },
{
    let v = match version {
        Some(o) => if o.success {
            o
        } else {
            return HealthStatus::unavailable();
        },
        None => {
            return HealthStatus::unavailable();
        },
    };
    let version_text = trim_exec(v.stdout.as_str());
    let session_count = count_from_probe(sessions);
    let client_count = count_from_probe(clients);
    let (server_pid, uptime_seconds) = match display {
        Some(o) => if o.success {
            parse_server_info_at(o.stdout.as_str(), now)
        } else {
            (None, None)
        },
        None => (None, None),
    };
    HealthStatus {
        available: true,
        version: version_text,
        session_count,
        client_count,
        uptime_seconds,
        server_pid,
    }
}

/// `health_from_probes_at`, with the uptime measured against the system clock.
pub fn health_from_probes(
    version: &Option<TmuxOutput>,
    sessions: &Option<TmuxOutput>,
    clients: &Option<TmuxOutput>,
    display: &Option<TmuxOutput>,
) -> (h: HealthStatus)
    ensures
        h.available == probe_ok(*version),
        !probe_ok(*version) ==> {
            &&& h.version@ == Seq::<char>::empty()
            &&& h.session_count == 0
            &&& h.client_count == 0
            &&& h.uptime_seconds is None
            &&& h.server_pid is None
        },
        probe_ok(*version) ==> {
            &&& h.version@ == trim(version->0.stdout@)
            &&& h.session_count == probe_count(*sessions)
            &&& h.client_count == probe_count(*clients)
        },
        probe_ok(*version) && probe_ok(*display) ==> exists|now: Option<u64>|
            (h.server_pid, h.uptime_seconds) == #[trigger] server_info_at(display->0.stdout@, now),
        probe_ok(*version) && !probe_ok(*display) ==> h.server_pid is None && h.uptime_seconds is None,
{
    let now = unix_now();
    let h = health_from_probes_at(version, sessions, clients, display, now);
    proof {
        if probe_ok(*version) && probe_ok(*display) {
            assert((h.server_pid, h.uptime_seconds) == server_info_at(display->0.stdout@, now));
        }
    }
    h
}

} // verus!
