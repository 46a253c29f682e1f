//! Classification and presentation of Oracle Cloud API errors.

use vstd::prelude::*;
use crate::text::{
    concat2, concat3, contains_seq, decimal, is_digit, lemma_leading_u16_decimal, find_char, is_whitespace, is_ws, leading_u16,
    leading_u16_spec, lowercase, opt_view, str_chars, str_contains, str_starts_with, string_of,
    sub_chars, to_lowercase,
};

verus! {

/// The HTTP status of an `API error {status}: ...` message, if it has one.
pub open spec fn api_error_status(msg: Seq<char>) -> Option<u16> {
    if "API error "@.is_prefix_of(msg) {
        leading_u16_spec(msg.skip(10))
    } else {
        None
    }
}

/// Text that reports a network failure: a timeout, a connection or DNS
/// problem, or a reset connection.
pub open spec fn mentions_network_failure_spec(lower: Seq<char>) -> bool {
    ||| contains_seq(lower, "timed out"@)
    ||| contains_seq(lower, "timeout"@)
    ||| contains_seq(lower, "connection"@)
    ||| contains_seq(lower, "dns"@)
    ||| contains_seq(lower, "reset by peer"@)
}

/// An error is worth retrying when its API status is 429 or 5xx, or, when
/// the message carries no status, when it reports a network failure.
pub open spec fn retryable_spec(msg: Seq<char>) -> bool {
    match api_error_status(msg) {
        Some(status) => status == 429 || (500 <= status && status <= 599),
        None => mentions_network_failure_spec(lowercase(msg)),
    }
}

/// An Oracle Cloud API error is worth retrying exactly when its status is
/// 429 (too many requests) or a server error from 500 to 599, whatever
/// text follows the status.
pub proof fn law_api_status_retryable(status: u16, rest: Seq<char>)
    requires
        rest.len() == 0 || !is_digit(rest[0]),
    ensures
        retryable_spec("API error "@ + decimal(status as nat) + rest) <==> (status == 429 || (500
            <= status && status <= 599)),
{
    reveal_strlit("API error ");
    let msg = "API error "@ + decimal(status as nat) + rest;
    assert(msg.subrange(0, 10) =~= "API error "@);
    assert(msg.skip(10) =~= decimal(status as nat) + rest);
    lemma_leading_u16_decimal(status, rest);
}

/// Tests whether lower-cased error text reports a network failure.
pub fn mentions_network_failure(lower: &str) -> (b: bool)
    ensures
        b == mentions_network_failure_spec(lower@),
{
    str_contains(lower, "timed out") || str_contains(lower, "timeout") || str_contains(
        lower,
        "connection",
    ) || str_contains(lower, "dns") || str_contains(lower, "reset by peer")
}

/// Reads the status of an `API error {status}: ...` message.
pub fn api_error_status_of(msg: &str) -> (r: Option<u16>)
    ensures
        r == api_error_status(msg@),
{
    proof {
        reveal_strlit("API error ");
    }
    if str_starts_with(msg, "API error ") {
        let v = str_chars(msg);
        let rest = sub_chars(v.as_slice(), 10, v.len());
        proof {
            assert(rest@ =~= msg@.skip(10));
        }
        leading_u16(rest.as_slice())
    } else {
        None
    }
}

/// Decides whether an Oracle Cloud error is worth retrying.
pub fn is_retryable_oci_error(msg: &str) -> (b: bool)
    ensures
        b == retryable_spec(msg@),
{
    match api_error_status_of(msg) {
        Some(status) => status == 429 || (500 <= status && status <= 599),
        None => {
            let lower = to_lowercase(msg);
            mentions_network_failure(lower.as_str())
        },
    }
}

// ---------------------------------------------------------------------------
// Presentation
// ---------------------------------------------------------------------------

/// Whitespace runs collapsed: every run between two words becomes one
/// space, runs at either end vanish (`split_whitespace` joined with `" "`).
/// `pending` says a run was seen after a word, `started` that a word was.
pub open spec fn collapse_from(s: Seq<char>, pending: bool, started: bool) -> Seq<char>
    decreases s.len(),
{
    if s.len() == 0 {
        Seq::empty()
    } else if is_ws(s[0]) {
        collapse_from(s.drop_first(), started, started)
    } else {
        (if pending {
            seq![' ']
        } else {
            Seq::empty()
        }) + seq![s[0]] + collapse_from(s.drop_first(), false, true)
    }
}

/// `s` with whitespace runs collapsed.
pub open spec fn collapse_whitespace_spec(s: Seq<char>) -> Seq<char> {
    collapse_from(s, false, false)
}

/// Collapses whitespace runs to single spaces and drops them at the ends.
pub fn collapse_whitespace(s: &str) -> (r: String)
    ensures
        r@ == collapse_whitespace_spec(s@),
{
    let v = str_chars(s);
    let n = v.len();
    let mut out: Vec<char> = Vec::new();
    let mut pending = false;
    let mut started = false;
    let mut i: usize = 0;
    proof {
        assert(v@.skip(0) =~= v@);
    }
    while i < n
        invariant
            n == v@.len(),
            v@ == s@,
            i <= n,
            out@ + collapse_from(v@.skip(i as int), pending, started) == collapse_whitespace_spec(
                s@,
            ),
        decreases n - i,
    {
        let c = v[i];
        proof {
            assert(v@.skip(i as int)[0] == c);
            assert(v@.skip(i as int).drop_first() =~= v@.skip(i + 1));
        }
        if is_whitespace(c) {
            pending = started;
        } else {
            let ghost before = out@;
            if pending {
                out.push(' ');
            }
            out.push(c);
            proof {
                let pre: Seq<char> = if pending {
                    seq![' ']
                } else {
                    Seq::empty()
                };
                assert(out@ =~= before + pre + seq![c]);
                assert(before + (pre + seq![c] + collapse_from(v@.skip(i + 1), false, true))
                    =~= out@ + collapse_from(v@.skip(i + 1), false, true));
            }
            pending = false;
            started = true;
        }
        i = i + 1;
    }
    proof {
        assert(v@.skip(n as int).len() == 0);
        assert(out@ + Seq::<char>::empty() =~= out@);
    }
    string_of(out.as_slice())
}

/// What `serde_json::from_str::<Value>` followed by `get(key)` and
/// `as_str` yields for a text: `None` when the text is not JSON, else the
/// string member `key` if there is one.
pub uninterp spec fn json_str_member_spec(text: Seq<char>, key: Seq<char>) -> Option<Option<Seq<char>>>;

/// Calls `serde_json::from_str::<serde_json::Value>`, then `Value::get` and
/// `Value::as_str`. Claimed: the result is `json_str_member_spec` of text
/// and key.
#[verifier::external_body]
fn json_str_member(text: &str, key: &str) -> (r: Option<Option<String>>)
    ensures
        match r {
            None => json_str_member_spec(text@, key@) is None,
            Some(m) => json_str_member_spec(text@, key@) == Some(opt_view(m)),
        },
{
    match serde_json::from_str::<serde_json::Value>(text) {
        Ok(v) => Some(v.get(key).and_then(|s| s.as_str()).map(|s| s.to_string())),
        Err(_) => None,
    }
}

/// The summary of a JSON error body: `{message} ({code})`, or whichever of
/// the two is present, or else the raw message.
pub open spec fn summary_spec(msg: Seq<char>, code: Option<Seq<char>>, message: Option<Seq<char>>) -> Seq<char> {
    match (code, message) {
        (Some(c), Some(m)) => m + " ("@ + c + ")"@,
        (_, Some(m)) => m,
        (Some(c), _) => c,
        _ => msg,
    }
}

/// Summarises an error from the `code` and `message` members of its JSON
/// body.
pub fn summarize_error_fields(msg: &str, code: Option<String>, message: Option<String>) -> (r: String)
    ensures
        r@ == summary_spec(msg@, opt_view(code), opt_view(message)),
{
    match (code, message) {
        (Some(c), Some(m)) => {
            let a = concat3(m.as_str(), " (", c.as_str());
            concat2(a.as_str(), ")")
        },
        (_, Some(m)) => m,
        (Some(c), _) => c,
        _ => String::from_str(msg),
    }
}

/// A readable form of an Oracle Cloud error: when the message holds a JSON
/// body (from its first `{`), its summary; otherwise the message with
/// whitespace collapsed.
pub open spec fn humanize_spec(msg: Seq<char>) -> Seq<char> {
    if exists|i: int| 0 <= i < msg.len() && msg[i] == '{' {
        let i = choose|i: int|
            0 <= i < msg.len() && msg[i] == '{' && forall|k: int| 0 <= k < i ==> msg[k] != '{';
        let body = msg.skip(i);
        match json_str_member_spec(body, "code"@) {
            Some(code) => summary_spec(
                msg,
                code,
                match json_str_member_spec(body, "message"@) {
                    Some(m) => m,
                    None => None,
                },
            ),
            None => collapse_whitespace_spec(msg),
        }
    } else {
        collapse_whitespace_spec(msg)
    }
}

/// Turns an Oracle Cloud error into a readable line.
pub fn humanize_oci_error(msg: &str) -> (r: String)
    ensures
        r@ == humanize_spec(msg@),
{
    let v = str_chars(msg);
    match find_char(v.as_slice(), '{') {
        Some(start) => {
            proof {
                crate::text::lemma_first_index_unique(msg@, '{', start as int);
            }
            let tail = sub_chars(v.as_slice(), start, v.len());
            let body = string_of(tail.as_slice());
            proof {
                assert(body@ =~= msg@.skip(start as int));
            }
            match json_str_member(body.as_str(), "code") {
                Some(code) => {
                    let message = match json_str_member(body.as_str(), "message") {
                        Some(m) => m,
                        None => None,
                    };
                    summarize_error_fields(msg, code, message)
                },
                None => collapse_whitespace(msg),
            }
        },
        None => collapse_whitespace(msg),
    }
}

} // verus!
