//! The game server's address: host, login port and world port.

use vstd::prelude::*;
use vstd::string::*;
use crate::text::{chars_of, string_from_chars, parse_u16, parses_as_u16};

verus! {

/// A server: its login port takes LoginRequest and most traffic, its world
/// port (the next one) takes ConnectResponse.
#[derive(Clone, Debug)]
pub struct ServerInfo {
    pub host: String,
    pub login_port: u16,
    pub world_port: u16,
}

/// The login port used when an address names none that parses.
pub const DEFAULT_LOGIN_PORT: u16 = 9000;

/// Everything before the first `:` (all of `s` when there is none).
pub open spec fn before_colon(s: Seq<char>) -> Seq<char> {
    if exists|i: int| 0 <= i < s.len() && s[i] == ':' {
        s.take(first_colon(s))
    } else {
        s
    }
}

/// The index of the first `:` in `s`.
pub open spec fn first_colon(s: Seq<char>) -> int {
    choose|i: int| 0 <= i < s.len() && s[i] == ':' && forall|j: int| 0 <= j < i ==> s[j] != ':'
}

/// The second `:`-separated field of `s`, if `s` holds a `:`.
pub open spec fn second_field(s: Seq<char>) -> Option<Seq<char>> {
    if exists|i: int| 0 <= i < s.len() && s[i] == ':' {
        Some(before_colon(s.skip(first_colon(s) + 1)))
    } else {
        None
    }
}

/// The login port an address names: its second `:`-field parsed as a `u16`,
/// or the default port.
pub open spec fn address_port(s: Seq<char>) -> u16 {
    match second_field(s) {
        Some(f) => match parses_as_u16(f) {
            Some(p) => p,
            None => DEFAULT_LOGIN_PORT,
        },
        None => DEFAULT_LOGIN_PORT,
    }
}

/// Index of the first `:` at or after `from`, or the length when there is none.
fn find_colon(s: &Vec<char>, from: usize) -> (r: usize)
    requires
        from <= s.len(),
    ensures
        from <= r <= s.len(),
        forall|j: int| from <= j < r ==> s@[j] != ':',
        r < s.len() ==> s@[r as int] == ':',
{
    let mut i = from;
    while i < s.len()
        invariant
            from <= i <= s.len(),
            forall|j: int| from <= j < i ==> s@[j] != ':',
        decreases s.len() - i,
    {
        if s[i] == ':' {
            return i;
        }
        i = i + 1;
    }
    i
}

proof fn lemma_first_colon(s: Seq<char>, k: int)
    requires
        0 <= k < s.len(),
        s[k] == ':',
        forall|j: int| 0 <= j < k ==> s[j] != ':',
    ensures
        first_colon(s) == k,
{
    let f = first_colon(s);
    assert(0 <= k < s.len() && s[k] == ':' && forall|j: int| 0 <= j < k ==> s[j] != ':');
    if f < k {
        assert(s[f] == ':');
    } else if f > k {
        assert(s[k] != ':');
    }
}

/// Split an address into host and login port: the host is everything before
/// the first `:`, the port is the next `:`-field parsed as a `u16`, or 9000.
pub fn parse_address(address: &str) -> (r: (String, u16))
    ensures
        r.0@ == before_colon(address@),
        r.1 == address_port(address@),
{
    let cs = chars_of(address);
    let k = find_colon(&cs, 0);
    let host = string_from_chars(vstd::slice::slice_subrange(cs.as_slice(), 0, k));
    if k == cs.len() {
        proof {
            assert(!(exists|i: int| 0 <= i < address@.len() && address@[i] == ':'));
            assert(cs@.subrange(0, k as int) == address@);
        }
        return (host, DEFAULT_LOGIN_PORT);
    }
    let m = find_colon(&cs, k + 1);
    let field = vstd::slice::slice_subrange(cs.as_slice(), k + 1, m);
    let port = match parse_u16(field) {
        Some(p) => p,
        None => DEFAULT_LOGIN_PORT,
    };
    proof {
        let s = address@;
        lemma_first_colon(s, k as int);
        assert(s.take(k as int) == cs@.subrange(0, k as int));
        let rest = s.skip(k as int + 1);
        if m < cs.len() {
            assert(rest[m - k - 1] == ':');
            lemma_first_colon(rest, m - k - 1);
            assert(rest.take(m - k - 1) =~= cs@.subrange(k as int + 1, m as int));
        } else {
            assert(!(exists|i: int| 0 <= i < rest.len() && rest[i] == ':'));
            assert(rest =~= cs@.subrange(k as int + 1, m as int));
        }
    }
    (host, port)
}

impl ServerInfo {
    /// The server `new` builds for `host` and `login_port`.
    pub open spec fn new_spec(host: String, login_port: u16) -> ServerInfo {
        ServerInfo {
            host,
            login_port,
            world_port: if login_port == u16::MAX { u16::MAX } else { (login_port + 1) as u16 },
        }
    }

    /// Server `host` with the given login port; the world port is the next one
    /// (the same one when the login port is already the largest).
    pub fn new(host: String, login_port: u16) -> (r: ServerInfo)
        ensures
            r.host == host,
            r.login_port == login_port,
            r.world_port == (if login_port == u16::MAX { u16::MAX } else { (login_port + 1) as u16 }),
    {
        let world_port = if login_port == u16::MAX { u16::MAX } else { login_port + 1 };
        ServerInfo { host, login_port, world_port }
    }

    /// Whether a packet from `peer_ip` comes from this server: its host, or loopback.
    pub fn is_from(&self, peer_ip: &String) -> (r: bool)
        ensures
            r == (peer_ip@ == self.host@ || peer_ip@ == "127.0.0.1"@ || peer_ip@ == "::1"@),
    {
        let v4 = String::from_str("127.0.0.1");
        let v6 = String::from_str("::1");
        *peer_ip == self.host || *peer_ip == v4 || *peer_ip == v6
    }
}

} // verus!
