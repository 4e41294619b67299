//! Host routing: reading the default route and pinning a host route to the
//! VPN endpoint so tunnel traffic does not route through the tunnel itself.

use vstd::prelude::*;
use vstd::string::StrSliceExecFns;
use crate::host_cmd::HostCommand;

verus! {

/// An ASCII whitespace character, as route output is tokenized by it.
pub open spec fn is_space(c: char) -> bool {
    c == ' ' || c == '\t' || c == '\n' || c == '\r'
}

/// The first whitespace position at or after `i`, or the length where the
/// rest of the text is one token.
pub open spec fn token_end(s: Seq<char>, i: int) -> int
    decreases s.len() - i,
    when 0 <= i
{
    if i >= s.len() {
        s.len() as int
    } else if is_space(s[i]) {
        i
    } else {
        token_end(s, i + 1)
    }
}

proof fn lemma_token_end_bounds(s: Seq<char>, i: int)
    requires
        0 <= i <= s.len(),
    ensures
        i <= token_end(s, i) <= s.len(),
    decreases s.len() - i,
{
    if i < s.len() && !is_space(s[i]) {
        lemma_token_end_bounds(s, i + 1);
    }
}

/// The whitespace-separated tokens of `s` from position `i` on.
pub open spec fn tokens_from(s: Seq<char>, i: int) -> Seq<Seq<char>>
    decreases s.len() - i,
    when 0 <= i <= s.len()
    via tokens_from_decreases
{
    if i >= s.len() {
        Seq::empty()
    } else if is_space(s[i]) {
        tokens_from(s, i + 1)
    } else {
        seq![s.subrange(i, token_end(s, i))] + tokens_from(s, token_end(s, i))
    }
}

#[via_fn]
proof fn tokens_from_decreases(s: Seq<char>, i: int) {
    if 0 <= i <= s.len() && i < s.len() && !is_space(s[i]) {
        lemma_token_end_bounds(s, i + 1);
        assert(token_end(s, i) == token_end(s, i + 1));
    }
}

/// The whitespace-separated tokens of the whole text.
pub open spec fn spec_tokens(s: Seq<char>) -> Seq<Seq<char>> {
    tokens_from(s, 0)
}

/// Whether `c` is ASCII whitespace.
fn is_space_char(c: char) -> (r: bool)
    ensures
        r == is_space(c),
{
    c == ' ' || c == '\t' || c == '\n' || c == '\r'
}

fn token_end_exec(s: &str, i: usize) -> (r: usize)
    requires
        i <= s@.len(),
    ensures
        r == token_end(s@, i as int),
        i <= r <= s@.len(),
    decreases s@.len() - i,
{
    let n = s.unicode_len();
    if i >= n {
        n
    } else if is_space_char(s.get_char(i)) {
        i
    } else {
        token_end_exec(s, i + 1)
    }
}

fn tokens_from_exec(s: &str, i: usize) -> (r: Vec<String>)
    requires
        i <= s@.len(),
    ensures
        r@.len() == tokens_from(s@, i as int).len(),
        forall|k: int|
            0 <= k < r@.len() ==> (#[trigger] r@[k])@ == tokens_from(s@, i as int)[k],
    decreases s@.len() - i,
{
    let n = s.unicode_len();
    if i >= n {
        Vec::new()
    } else if is_space_char(s.get_char(i)) {
        tokens_from_exec(s, i + 1)
    } else {
        let j = token_end_exec(s, i);
        proof {
            lemma_token_end_bounds(s@, i as int + 1);
            assert(token_end(s@, i as int) == token_end(s@, i as int + 1));
        }
        let tok = s.substring_char(i, j).to_owned();
        let mut rest = tokens_from_exec(s, j);
        let mut r: Vec<String> = Vec::new();
        r.push(tok);
        r.append(&mut rest);
        r
    }
}

/// Split a text into its whitespace-separated tokens.
pub fn split_tokens(s: &str) -> (r: Vec<String>)
    ensures
        r@.len() == spec_tokens(s@).len(),
        forall|k: int| 0 <= k < r@.len() ==> (#[trigger] r@[k])@ == spec_tokens(s@)[k],
{
    tokens_from_exec(s, 0)
}

/// Read the previous default route's gateway and device out of the host's
/// default-route listing (`default via <gateway> dev <device> ...`): the
/// third and fifth token.  Output with fewer tokens means the prior state
/// could not be determined — nothing to restore, not an error.
pub fn snapshot_default(route_output: &str) -> (r: Option<(String, String)>)
    ensures
        r is Some <==> spec_tokens(route_output@).len() >= 5,
        r matches Some(p) ==> p.0@ == spec_tokens(route_output@)[2] && p.1@ == spec_tokens(
            route_output@,
        )[4],
{
    let toks = split_tokens(route_output);
    if toks.len() >= 5 {
        let gw = toks[2].clone();
        let dev = toks[4].clone();
        Some((gw, dev))
    } else {
        None
    }
}

/// The routing invocation that pins a host route to the VPN endpoint via
/// the previous default gateway, so that tunnel transport traffic is never
/// routed into the tunnel.
pub fn host_route_to_endpoint(server_ip: &str, gw: &str, dev: &str) -> (r: HostCommand)
    ensures
        r.program@ == "ip"@,
        r.args_view() == seq![
            "route"@,
            "add"@,
            server_ip@ + "/32"@,
            "via"@,
            gw@,
            "dev"@,
            dev@,
        ],
{
    let mut args: Vec<String> = Vec::new();
    args.push(String::from_str("route"));
    args.push(String::from_str("add"));
    args.push(server_ip.to_owned().concat("/32"));
    args.push(String::from_str("via"));
    args.push(gw.to_owned());
    args.push(String::from_str("dev"));
    args.push(dev.to_owned());
    let r = HostCommand { program: String::from_str("ip"), args };
    proof {
        assert(r.args_view() =~= seq![
            "route"@,
            "add"@,
            server_ip@ + "/32"@,
            "via"@,
            gw@,
            "dev"@,
            dev@,
        ]);
    }
    r
}

/// Undo the routing changes of a full-tunnel setup.  The default route
/// itself needs no action — it is governed by the tunnel's allowed address
/// ranges and returns with the interface's removal — but the pinned host
/// route to the endpoint sits on the physical device and must be deleted
/// explicitly, exactly as it was added.  Without a snapshot no host route
/// was installed and there is nothing to restore.
pub fn restore_default(server_ip: &str, snapshot: &Option<(String, String)>) -> (r: Vec<
    HostCommand,
>)
    ensures
        snapshot is None ==> r@.len() == 0,
        snapshot matches Some(p) ==> {
            &&& r@.len() == 1
            &&& r@[0].program@ == "ip"@
            &&& r@[0].args_view() == seq![
                "route"@,
                "del"@,
                server_ip@ + "/32"@,
                "via"@,
                p.0@,
                "dev"@,
                p.1@,
            ]
        },
{
    match snapshot {
        None => Vec::new(),
        Some((gw, dev)) => {
            let mut args: Vec<String> = Vec::new();
            args.push(String::from_str("route"));
            args.push(String::from_str("del"));
            args.push(server_ip.to_owned().concat("/32"));
            args.push(String::from_str("via"));
            args.push(gw.clone());
            args.push(String::from_str("dev"));
            args.push(dev.clone());
            let cmd = HostCommand { program: String::from_str("ip"), args };
            proof {
                assert(cmd.args_view() =~= seq![
                    "route"@,
                    "del"@,
                    server_ip@ + "/32"@,
                    "via"@,
                    gw@,
                    "dev"@,
                    dev@,
                ]);
            }
            let mut r: Vec<HostCommand> = Vec::new();
            r.push(cmd);
            r
        },
    }
}

} // verus!
