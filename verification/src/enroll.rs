//! The enrollment decision: whether the server accepted the posted public
//! key.  The transport itself is outside the library; it hands the raw
//! response text in.

use vstd::prelude::*;
use vstd::string::{StrSliceExecFns, StringExecFns};
use crate::net::{find_from, find_char_from, is_digit, parse_number, spec_parse_number};

verus! {

/// Whether the text is an HTTP URL this client can post to: it starts with
/// `http://`.
pub open spec fn is_http_url(s: Seq<char>) -> bool {
    &&& s.len() >= 7
    &&& s[0] == 'h'
    &&& s[1] == 't'
    &&& s[2] == 't'
    &&& s[3] == 'p'
    &&& s[4] == ':'
    &&& s[5] == '/'
    &&& s[6] == '/'
}

/// Where the path begins in the part after the scheme: the first slash, or
/// the end where there is none.
pub open spec fn path_start(rest: Seq<char>) -> int {
    match find_from(rest, '/', 0) {
        Some(i) => i,
        None => rest.len() as int,
    }
}

/// The host of the part after the scheme: everything before the first
/// colon of the authority.
pub open spec fn spec_url_host(rest: Seq<char>) -> Seq<char> {
    let authority = rest.subrange(0, path_start(rest));
    match find_from(authority, ':', 0) {
        Some(c) => authority.subrange(0, c),
        None => authority,
    }
}

/// The port of the part after the scheme: the number after the colon —
/// leading zeros and a leading plus sign read as a bare number is — or
/// 8080 where there is no colon or the text after it is not a port.
pub open spec fn spec_url_port(rest: Seq<char>) -> int {
    let authority = rest.subrange(0, path_start(rest));
    match find_from(authority, ':', 0) {
        None => 8080,
        Some(c) => match spec_parse_number(
            authority.subrange(c + 1, authority.len() as int),
            65535,
        ) {
            Some(p) => p,
            None => 8080,
        },
    }
}

/// The path of the part after the scheme: from the first slash on, or `/`
/// where there is none.
pub open spec fn spec_url_path(rest: Seq<char>) -> Seq<char> {
    if path_start(rest) == rest.len() {
        "/"@
    } else {
        rest.subrange(path_start(rest), rest.len() as int)
    }
}

/// An HTTP destination: where the enrollment request goes.
#[derive(Clone, Debug)]
pub struct HttpTarget {
    pub host: String,
    pub port: u16,
    pub path: String,
}

/// Split an HTTP URL into host, port and path: `None` for anything that
/// does not start with `http://`; a missing or unreadable port falls back
/// to 8080; a missing path is `/`.
pub fn split_http_url(url: &str) -> (r: Option<HttpTarget>)
    ensures
        r is Some <==> is_http_url(url@),
        r matches Some(t) ==> {
            let rest = url@.skip(7);
            &&& t.host@ == spec_url_host(rest)
            &&& t.port as int == spec_url_port(rest)
            &&& t.path@ == spec_url_path(rest)
        },
{
    let n = url.unicode_len();
    if n < 7 {
        return None;
    }
    if !(url.get_char(0) == 'h' && url.get_char(1) == 't' && url.get_char(2) == 't'
        && url.get_char(3) == 'p' && url.get_char(4) == ':' && url.get_char(5) == '/'
        && url.get_char(6) == '/') {
        return None;
    }
    let rest = url.substring_char(7, n);
    proof {
        assert(rest@ =~= url@.skip(7));
    }
    let rest_len = rest.unicode_len();
    let pos = match find_char_from(rest, '/', 0) {
        Some(i) => i,
        None => rest_len,
    };
    let path = if pos == rest_len {
        String::from_str("/")
    } else {
        rest.substring_char(pos, rest_len).to_owned()
    };
    let authority = rest.substring_char(0, pos);
    let authority_len = authority.unicode_len();
    let (host, port): (String, u16) = match find_char_from(authority, ':', 0) {
        None => (authority.to_owned(), 8080),
        Some(c) => {
            let host = authority.substring_char(0, c).to_owned();
            let port = match parse_number(authority.substring_char(c + 1, authority_len), 65535) {
                Some(p) => p as u16,
                None => 8080,
            };
            (host, port)
        },
    };
    Some(HttpTarget { host, port, path })
}

/// The fixed external address of the post-handshake reachability probe:
/// reached directly over IP, with no DNS involved.
pub fn probe_target() -> (r: &'static str)
    ensures
        r@ == "1.1.1.1:443"@,
{
    "1.1.1.1:443"
}

/// Whether an HTTP response reports success for enrollment: a status line
/// of HTTP/1.1 or HTTP/1.0 with a 200-class (2xx) status.
pub open spec fn is_enrollment_success(s: Seq<char>) -> bool {
    &&& s.len() >= 12
    &&& s[0] == 'H'
    &&& s[1] == 'T'
    &&& s[2] == 'T'
    &&& s[3] == 'P'
    &&& s[4] == '/'
    &&& s[5] == '1'
    &&& s[6] == '.'
    &&& (s[7] == '1' || s[7] == '0')
    &&& s[8] == ' '
    &&& s[9] == '2'
    &&& is_digit(s[10])
    &&& is_digit(s[11])
}

/// Decide enrollment from the raw response: success exactly for a
/// 200-class status line of HTTP/1.1 or HTTP/1.0.  Any other outcome
/// aborts the connect sequence before any network mutation.
pub fn enrollment_succeeded(response: &str) -> (r: bool)
    ensures
        r == is_enrollment_success(response@),
{
    let n = response.unicode_len();
    if n < 12 {
        return false;
    }
    let d1 = response.get_char(10) as u32;
    let d2 = response.get_char(11) as u32;
    response.get_char(0) == 'H' && response.get_char(1) == 'T' && response.get_char(2) == 'T'
        && response.get_char(3) == 'P' && response.get_char(4) == '/' && response.get_char(5)
        == '1' && response.get_char(6) == '.' && (response.get_char(7) == '1'
        || response.get_char(7) == '0') && response.get_char(8) == ' ' && response.get_char(9)
        == '2' && 48 <= d1 && d1 <= 57 && 48 <= d2 && d2 <= 57
}

} // verus!
