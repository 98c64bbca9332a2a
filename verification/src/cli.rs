//! The command line's decisions: which server and account to use, whether
//! to reconnect, and the settings the client runs with.

use vstd::prelude::*;
use crate::config::{AccountConfig, ClientConfig, GromnieConfig, ServerConfig};
use crate::text::{concat, decimal, u64_to_decimal};

verus! {

/// Whether to reconnect: `--no-reconnect` wins over `--reconnect`, which
/// wins over the configuration file's setting.
pub fn resolve_reconnect(no_reconnect: bool, reconnect: bool, default_reconnect: bool) -> (r: bool)
    ensures
        r == (if no_reconnect { false } else if reconnect { true } else { default_reconnect }),
{
    if no_reconnect {
        false
    } else if reconnect {
        true
    } else {
        default_reconnect
    }
}

/// The names of `entries`, in order, separated by `", "`.
pub open spec fn joined_names<V>(entries: Seq<(String, V)>) -> Seq<char>
    decreases entries.len(),
{
    if entries.len() == 0 {
        Seq::empty()
    } else if entries.len() == 1 {
        entries[0].0@
    } else {
        joined_names(entries.drop_last()) + ", "@ + entries.last().0@
    }
}

/// The position of the first entry named `name`, if any.
pub open spec fn position_of_name<V>(entries: Seq<(String, V)>, name: Seq<char>) -> Option<int> {
    if exists|i: int| 0 <= i < entries.len() && entries[i].0@ == name {
        Some(choose|i: int| 0 <= i < entries.len() && entries[i].0@ == name
            && forall|j: int| 0 <= j < i ==> entries[j].0@ != name)
    } else {
        None
    }
}

fn names_joined<V>(entries: &Vec<(String, V)>) -> (r: String)
    ensures
        r@ == joined_names(entries@),
{
    let mut r = String::new();
    let mut i: usize = 0;
    while i < entries.len()
        invariant
            i <= entries@.len(),
            r@ == joined_names(entries@.subrange(0, i as int)),
        decreases entries.len() - i,
    {
        let ghost pre = entries@.subrange(0, i as int + 1);
        proof { assert(pre.drop_last() =~= entries@.subrange(0, i as int)); }
        if i == 0 {
            r = entries[i].0.clone();
        } else {
            let t = concat(&r, ", ");
            r = concat(&t, entries[i].0.as_str());
        }
        i = i + 1;
    }
    proof { assert(entries@.subrange(0, entries@.len() as int) =~= entries@); }
    r
}

fn find_named<V>(entries: &Vec<(String, V)>, name: &str) -> (r: Option<usize>)
    ensures
        r matches Some(i) ==> i < entries@.len() && entries@[i as int].0@ == name@
            && forall|j: int| 0 <= j < i ==> entries@[j].0@ != name@,
        r is None ==> forall|j: int| 0 <= j < entries@.len() ==> entries@[j].0@ != name@,
{
    let wanted = name.to_owned();
    let mut i: usize = 0;
    while i < entries.len()
        invariant
            i <= entries@.len(),
            wanted@ == name@,
            forall|j: int| 0 <= j < i ==> entries@[j].0@ != name@,
        decreases entries.len() - i,
    {
        if entries[i].0 == wanted {
            return Some(i);
        }
        i = i + 1;
    }
    None
}

/// `"<kind> '<name>' not found. Available <plural>: <names>"`.
pub open spec fn not_found_text(kind: Seq<char>, name: Seq<char>, plural: Seq<char>, names: Seq<char>) -> Seq<char> {
    kind + " '"@ + name + "' not found. Available "@ + plural + ": "@ + names
}

fn not_found(kind: &str, name: &str, plural: &str, names: &String) -> (r: String)
    ensures
        r@ == not_found_text(kind@, name@, plural@, names@),
{
    let t = kind.to_owned();
    let t = concat(&t, " '");
    let t = concat(&t, name);
    let t = concat(&t, "' not found. Available ");
    let t = concat(&t, plural);
    let t = concat(&t, ": ");
    concat(&t, names.as_str())
}

/// The server and the account the user named, or a message naming what is
/// missing and listing what is available (the server is looked up first).
pub fn resolve_server_and_account<'a>(config: &'a GromnieConfig, server_name: &str, account_name: &str)
    -> (r: Result<(&'a ServerConfig, &'a AccountConfig), String>)
    ensures
        match (position_of_name(config.servers@, server_name@), position_of_name(config.accounts@, account_name@)) {
            (Some(s), Some(a)) => r == Ok::<(&'a ServerConfig, &'a AccountConfig), String>(
                (&config.servers@[s].1, &config.accounts@[a].1)),
            (None, _) => r matches Err(m)
                && m@ == not_found_text("Server"@, server_name@, "servers"@, joined_names(config.servers@)),
            (Some(_), None) => r matches Err(m)
                && m@ == not_found_text("Account"@, account_name@, "accounts"@, joined_names(config.accounts@)),
        },
{
    let s = match find_named(&config.servers, server_name) {
        Some(i) => i,
        None => {
            let names = names_joined(&config.servers);
            proof {
                assert(!(exists|i: int| 0 <= i < config.servers@.len() && config.servers@[i].0@ == server_name@));
            }
            return Err(not_found("Server", server_name, "servers", &names));
        },
    };
    let a = match find_named(&config.accounts, account_name) {
        Some(i) => i,
        None => {
            let names = names_joined(&config.accounts);
            proof {
                assert(!(exists|i: int| 0 <= i < config.accounts@.len() && config.accounts@[i].0@ == account_name@));
                assert(config.servers@[s as int].0@ == server_name@);
            }
            return Err(not_found("Account", account_name, "accounts", &names));
        },
    };
    proof {
        let ps = choose|i: int| 0 <= i < config.servers@.len() && config.servers@[i].0@ == server_name@
            && forall|j: int| 0 <= j < i ==> config.servers@[j].0@ != server_name@;
        assert(config.servers@[s as int].0@ == server_name@);
        assert(ps == s as int) by {
            if ps < s as int { assert(config.servers@[ps].0@ != server_name@); }
            if ps > s as int { assert(config.servers@[s as int].0@ != server_name@); }
        }
        let pa = choose|i: int| 0 <= i < config.accounts@.len() && config.accounts@[i].0@ == account_name@
            && forall|j: int| 0 <= j < i ==> config.accounts@[j].0@ != account_name@;
        assert(config.accounts@[a as int].0@ == account_name@);
        assert(pa == a as int) by {
            if pa < a as int { assert(config.accounts@[pa].0@ != account_name@); }
            if pa > a as int { assert(config.accounts@[a as int].0@ != account_name@); }
        }
    }
    Ok((&config.servers[s].1, &config.accounts[a].1))
}

/// The settings for the chosen server and account: client id 0, the server
/// as `host:port`, the account's credentials.
pub fn build_client_config(server: &ServerConfig, account: &AccountConfig, reconnect: bool, character_name: Option<String>)
    -> (r: ClientConfig)
    ensures
        r.id == 0,
        r.address@ == server.host@ + ":"@ + decimal(server.port as nat),
        r.account_name == account.username,
        r.password == account.password,
        r.reconnect == reconnect,
        r.character_name == character_name,
{
    let t = concat(&server.host, ":");
    let p = u64_to_decimal(server.port as u64);
    ClientConfig {
        id: 0,
        address: concat(&t, p.as_str()),
        account_name: account.username.clone(),
        password: account.password.clone(),
        reconnect,
        character_name,
    }
}

/// `n` in at least two digits, zero-padded.
pub open spec fn two_digits(n: u64) -> Seq<char> {
    if n < 10 { "0"@ + decimal(n as nat) } else { decimal(n as nat) }
}

/// `h:mm:ss`-style clock text for `secs` seconds, each field at least two digits.
pub open spec fn clock_text(secs: u64) -> Seq<char> {
    two_digits(secs / 3600) + ":"@ + two_digits((secs % 3600) / 60) + ":"@ + two_digits(secs % 60)
}

/// The reply to the uptime command: the bot's uptime, and the time in game
/// when a character is logged in.
pub open spec fn uptime_text_spec(bot_secs: u64, ingame_secs: Option<u64>) -> Seq<char> {
    "**Bot Uptime:** "@ + clock_text(bot_secs) + "\n**In-Game Time:** "@ + match ingame_secs {
        Some(s) => clock_text(s),
        None => "Not logged in yet"@,
    }
}

fn push_two_digits(out: &String, n: u64) -> (r: String)
    ensures
        r@ == out@ + two_digits(n),
{
    let d = u64_to_decimal(n);
    if n < 10 {
        let t = concat(out, "0");
        let r = concat(&t, d.as_str());
        proof { assert(r@ =~= out@ + two_digits(n)); }
        r
    } else {
        concat(out, d.as_str())
    }
}

fn push_clock(out: &String, secs: u64) -> (r: String)
    ensures
        r@ == out@ + clock_text(secs),
{
    let t = push_two_digits(out, secs / 3600);
    let t = concat(&t, ":");
    let t = push_two_digits(&t, (secs % 3600) / 60);
    let t = concat(&t, ":");
    let r = push_two_digits(&t, secs % 60);
    proof { assert(r@ =~= out@ + clock_text(secs)); }
    r
}

/// The reply to the uptime command for `bot_secs` seconds of bot uptime and,
/// when logged in, `ingame_secs` seconds in game.
pub fn uptime_text(bot_secs: u64, ingame_secs: Option<u64>) -> (r: String)
    ensures
        r@ == uptime_text_spec(bot_secs, ingame_secs),
{
    let t = "**Bot Uptime:** ".to_owned();
    let t = push_clock(&t, bot_secs);
    let t = concat(&t, "\n**In-Game Time:** ");
    let r = match ingame_secs {
        Some(s) => push_clock(&t, s),
        None => concat(&t, "Not logged in yet"),
    };
    proof { assert(r@ =~= uptime_text_spec(bot_secs, ingame_secs)); }
    r
}

} // verus!
