use vstd::prelude::*;
use vstd::utf8::*;
use crate::downloader::before_first;
use crate::numbers::{signed_decimal, signed_decimal_string};
use crate::text::{chars_of, concat, str_eq, string_from, string_of, trim, trim_spec};

verus! {

/// The state of the local ZeroTier service.
#[derive(Debug, Clone)]
pub struct ZeroTierStatus {
    pub address: String,
    pub online: bool,
    pub version: String,
}

/// A network the local ZeroTier service has joined.
#[derive(Debug, Clone)]
pub struct ZeroTierNetwork {
    pub id: String,
    pub name: String,
    pub status: String,
    pub network_type: String,
    pub assigned_addresses: Vec<String>,
    pub port_device_name: String,
}

/// The address of the service's status endpoint.
pub fn status_url() -> (r: String)
    ensures
        r@ == "http://127.0.0.1:9993/status"@,
{
    string_from("http://127.0.0.1:9993/status")
}

/// The address of the service's list of networks.
pub fn networks_url() -> (r: String)
    ensures
        r@ == "http://127.0.0.1:9993/network"@,
{
    string_from("http://127.0.0.1:9993/network")
}

/// The address of one network, to join (POST) or leave (DELETE) it.
pub fn network_url(network_id: &str) -> (r: String)
    ensures
        r@ == "http://127.0.0.1:9993/network/"@ + network_id@,
{
    concat("http://127.0.0.1:9993/network/", network_id)
}

/// The header that carries the service's authentication token.
pub fn auth_header_name() -> (r: String)
    ensures
        r@ == "X-ZT1-Auth"@,
{
    string_from("X-ZT1-Auth")
}

/// Whether a text, without surrounding white space, is `n` bytes long in UTF-8.
pub open spec fn trimmed_len_is(raw: Seq<char>, n: nat) -> bool {
    encode_utf8(trim_spec(raw)).len() == n
}

/// An authentication token read from a file or a command's output: the text
/// without surrounding white space, if that is 24 bytes long.
pub fn normalize_token(raw: &str) -> (r: Option<String>)
    ensures
        trimmed_len_is(raw@, 24) ==> (r matches Some(t) && t@ == trim_spec(raw@)),
        !trimmed_len_is(raw@, 24) ==> r.is_none(),
{
    let t = trim(raw);
    if t.as_str().as_bytes().len() == 24 {
        Some(t)
    } else {
        None
    }
}

/// The network id typed in to join: the text without surrounding white space, if
/// that is 16 bytes long (the join button is off otherwise).
pub fn join_network_id(input: &str) -> (r: Option<String>)
    ensures
        trimmed_len_is(input@, 16) ==> (r matches Some(t) && t@ == trim_spec(input@)),
        !trimmed_len_is(input@, 16) ==> r.is_none(),
{
    let t = trim(input);
    if t.as_str().as_bytes().len() == 16 {
        Some(t)
    } else {
        None
    }
}

/// What `pkexec cat` of the token file gave: on success, the token (its output
/// without surrounding white space) when it is 24 bytes long, else an error that
/// shows it; on failure, an error with the exit code (`-1` where there is none)
/// and the error output without surrounding white space.
pub open spec fn pkexec_outcome_spec(success: bool, code: Option<i32>, stdout: Seq<char>, stderr: Seq<char>) -> Result<Seq<char>, Seq<char>> {
    if success {
        let token = trim_spec(stdout);
        if encode_utf8(token).len() == 24 {
            Ok(token)
        } else {
            Err("Некорректная длина токена: "@ + token)
        }
    } else {
        let c: int = match code {
            Some(c) => c as int,
            None => -1,
        };
        Err("Ошибка аутентификации (код "@ + signed_decimal(c) + "): "@ + trim_spec(stderr))
    }
}

/// The token, or the error, from what the privileged read of the token file gave
/// (its output already decoded as text).
pub fn pkexec_outcome(success: bool, code: Option<i32>, stdout: &str, stderr: &str) -> (r: Result<String, String>)
    ensures
        match pkexec_outcome_spec(success, code, stdout@, stderr@) {
            Ok(t) => r matches Ok(x) && x@ == t,
            Err(e) => r matches Err(x) && x@ == e,
        },
{
    if success {
        let token = trim(stdout);
        if token.as_str().as_bytes().len() == 24 {
            Ok(token)
        } else {
            Err(concat("Некорректная длина токена: ", token.as_str()))
        }
    } else {
        let c: i32 = match code {
            Some(c) => c,
            None => -1,
        };
        let a = concat("Ошибка аутентификации (код ", signed_decimal_string(c).as_str());
        let b = concat(a.as_str(), "): ");
        let e = trim(stderr);
        Err(concat(b.as_str(), e.as_str()))
    }
}

/// The address part of an assigned address such as `10.1.2.3/24`: the text before
/// the first `/`.
pub fn address_without_prefix(addr: &str) -> (r: String)
    ensures
        r@ == before_first(addr@, '/'),
{
    let c = chars_of(addr);
    let mut i: usize = 0;
    assert(c@.take(0) + before_first(c@.skip(0), '/') =~= before_first(c@, '/')) by {
        assert(c@.skip(0) =~= c@);
    }
    while i < c.len() && c[i] != '/'
        invariant
            i <= c@.len(),
            c@ == addr@,
            before_first(c@, '/') == c@.take(i as int) + before_first(c@.skip(i as int), '/'),
        decreases c.len() - i,
    {
        proof {
            let t = c@.skip(i as int);
            assert(t.drop_first() =~= c@.skip(i + 1));
            assert(c@.take(i as int) + seq![t[0]] =~= c@.take(i + 1));
            assert(c@.take(i as int) + (seq![t[0]] + before_first(t.drop_first(), '/'))
                =~= c@.take(i + 1) + before_first(t.drop_first(), '/'));
        }
        i = i + 1;
    }
    proof {
        let t = c@.skip(i as int);
        assert(before_first(t, '/') =~= Seq::<char>::empty());
        assert(c@.take(i as int) + Seq::<char>::empty() =~= c@.take(i as int));
    }
    string_of(&c.as_slice()[0..i])
}

/// The colour a network's status is shown in: green for `OK`, red for
/// `ACCESS_DENIED`, yellow for any other.
pub fn network_status_color(status: &str) -> (r: (u8, u8, u8))
    ensures
        status@ == "OK"@ ==> r == (100u8, 230u8, 100u8),
        status@ == "ACCESS_DENIED"@ ==> r == (230u8, 100u8, 100u8),
        status@ != "OK"@ && status@ != "ACCESS_DENIED"@ ==> r == (250u8, 210u8, 100u8),
{
    proof {
        reveal_strlit("OK");
        reveal_strlit("ACCESS_DENIED");
        assert("ACCESS_DENIED"@.len() != "OK"@.len());
    }
    if str_eq(status, "OK") {
        (100, 230, 100)
    } else if str_eq(status, "ACCESS_DENIED") {
        (230, 100, 100)
    } else {
        (250, 210, 100)
    }
}

} // verus!
