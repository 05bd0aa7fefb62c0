use vstd::prelude::*;

use crate::ipv4::{
    all_digits, decimal_text, digits_value, is_digit, lemma_decimal_text_value,
    lemma_digits_value_prefix,
};
use crate::launch::{
    spec_shared_timing, SharedTiming, SocketAddress, CLIENT_TIMEOUT_SECS, SEND_INTERVAL_RATIO_BITS,
    TOKEN_EXPIRE_NEVER,
};
use crate::launch_options::{ClientLaunchOptions, SharedLaunchOptions};
use crate::time_span::TimeSpan;

verus! {

/// What `text.parse::<u64>()` gives: an optional `+` followed by one or
/// more ASCII decimal digits whose value fits in 64 bits; `None` where the
/// standard parser reports an error.
pub open spec fn spec_parse_u64(text: Seq<char>) -> Option<u64> {
    let digits = unsigned_digits(text);
    if digits.len() > 0 && all_digits(digits) && digits_value(digits) <= u64::MAX {
        Some(digits_value(digits) as u64)
    } else {
        None
    }
}

/// The text after an optional leading `+`.
pub open spec fn unsigned_digits(text: Seq<char>) -> Seq<char> {
    if text.len() > 0 && text[0] == '+' {
        text.skip(1)
    } else {
        text
    }
}

/// Parses a decimal `u64` as `text.parse::<u64>().ok()` does: an optional
/// `+` followed by one or more ASCII digits whose value fits in 64 bits.
pub fn parse_u64(text: &str) -> (r: Option<u64>)
    ensures
        r == spec_parse_u64(text@),
{
    let ghost s = text@;
    let n = text.unicode_len();
    let mut start: usize = 0;
    if n > 0 && text.get_char(0) == '+' {
        start = 1;
    }
    proof {
        assert(unsigned_digits(s) =~= s.subrange(start as int, n as int));
    }
    if start == n {
        return None;
    }
    let mut val: u64 = 0;
    let mut i: usize = start;
    proof {
        assert(s.subrange(start as int, start as int) =~= Seq::<char>::empty());
    }
    while i < n
        invariant
            text@ == s,
            n == s.len(),
            start < n,
            start <= i <= n,
            unsigned_digits(s) == s.subrange(start as int, n as int),
            all_digits(s.subrange(start as int, i as int)),
            val == digits_value(s.subrange(start as int, i as int)),
        decreases n - i,
    {
        let c = text.get_char(i);
        let code = c as u32;
        let ghost g = s.subrange(start as int, n as int);
        let ghost p = s.subrange(start as int, i as int);
        let ghost q = s.subrange(start as int, i + 1);
        proof {
            assert(g[i - start] == c);
            assert(q =~= p.push(c));
            assert(q.drop_last() =~= p);
            assert(g.take(i + 1 - start) =~= q);
        }
        if code < 48 || code > 57 {
            proof {
                assert(!is_digit(g[i - start]));
            }
            return None;
        }
        let next: u128 = (val as u128) * 10 + ((code - 48) as u128);
        proof {
            assert(digits_value(q) == next);
            assert forall|k: int| 0 <= k < q.len() implies is_digit(#[trigger] q[k]) by {
                if k < p.len() {
                    assert(q[k] == p[k]);
                }
            }
        }
        if next > 0xffff_ffff_ffff_ffffu128 {
            proof {
                if all_digits(g) {
                    lemma_digits_value_prefix(g, i + 1 - start);
                }
            }
            return None;
        }
        val = next as u64;
        i = i + 1;
    }
    proof {
        assert(s.subrange(start as int, n as int) == unsigned_digits(s));
    }
    Some(val)
}

/// The decimal text of every `u64` parses back to it, with or without a
/// leading `+`; a larger number's text does not parse; and a text that
/// parses is one or more digits after at most one leading `+`.
pub proof fn lemma_parse_u64(v: nat, text: Seq<char>)
    ensures
        v <= u64::MAX ==> spec_parse_u64(decimal_text(v)) == Some(v as u64),
        v <= u64::MAX ==> spec_parse_u64(seq!['+'] + decimal_text(v)) == Some(v as u64),
        v > u64::MAX ==> spec_parse_u64(decimal_text(v)) is None,
        spec_parse_u64(text) is Some ==> {
            &&& text.len() >= 1
            &&& (is_digit(text[0]) || (text[0] == '+' && text.len() >= 2))
            &&& forall|i: int| 1 <= i < text.len() ==> is_digit(#[trigger] text[i])
        },
{
    lemma_decimal_text_value(v);
    let t = decimal_text(v);
    assert(is_digit(t[0]));
    assert(unsigned_digits(t) == t);
    let pt = seq!['+'] + t;
    assert(pt[0] == '+');
    assert(unsigned_digits(pt) =~= t);
    if spec_parse_u64(text) is Some {
        let d = unsigned_digits(text);
        if text.len() > 0 && text[0] == '+' {
            assert forall|i: int| 1 <= i < text.len() implies is_digit(#[trigger] text[i]) by {
                assert(text[i] == d[i - 1]);
            }
        } else {
            assert forall|i: int| 1 <= i < text.len() implies is_digit(#[trigger] text[i]) by {
                assert(text[i] == d[i]);
            }
            assert(is_digit(d[0]));
        }
    }
}

/// The client id a browser client uses when its page address names none
/// that parses.
pub const FALLBACK_WEB_CLIENT_ID: u64 = 293857;

/// The client id of a browser client: the `client_id` parameter of its page
/// address where it is present and parses as a `u64`, else 293857.
pub fn web_client_id(client_id_param: Option<String>) -> (id: u64)
    ensures
        id == (match client_id_param {
            Some(p) => match spec_parse_u64(p@) {
                Some(v) => v,
                None => FALLBACK_WEB_CLIENT_ID,
            },
            None => FALLBACK_WEB_CLIENT_ID,
        }),
{
    match client_id_param {
        Some(p) => match parse_u64(p.as_str()) {
            Some(v) => v,
            None => FALLBACK_WEB_CLIENT_ID,
        },
        None => FALLBACK_WEB_CLIENT_ID,
    }
}

/// Where a browser client fetches its client settings from.
pub fn web_client_config_path() -> (p: &'static str)
    ensures
        p@ == "./options/web_client_options.ron"@,
{
    "./options/web_client_options.ron"
}

/// Where a browser client fetches its shared settings from.
pub fn web_shared_config_path() -> (p: &'static str)
    ensures
        p@ == "./options/shared_options.ron"@,
{
    "./options/shared_options.ron"
}

/// Everything a browser client launch needs: the shared timing, a
/// WebTransport connection (its own address, the server address, the
/// server certificate digest), its manual authentication, its timeouts and
/// tuning, and its asset folder.
#[derive(Clone, Debug, PartialEq, Eq)]
pub struct WebClientPlan {
    pub shared: SharedTiming,
    pub client_addr: SocketAddress,
    pub server_addr: SocketAddress,
    pub certificate_digest: String,
    pub client_id: u64,
    pub private_key: [u8; 32],
    pub protocol_id: u64,
    pub token_expire_secs: i32,
    pub client_timeout_secs: i32,
    pub correction_ticks_factor_bits: u32,
    pub min_delay: TimeSpan,
    pub send_interval_ratio_bits: u32,
    pub asset_path: String,
}

/// Why a browser client does not start.
#[derive(Clone, Copy, Debug, PartialEq, Eq, Structural)]
pub enum WebLaunchError {
    /// The client settings hold no server certificate digest.
    MissingCertificateDigest,
}

impl WebLaunchError {
    /// The error the browser client reports.
    pub fn message(&self) -> (s: &'static str)
        ensures
            s@ == "Missing certificate digest"@,
    {
        match self {
            WebLaunchError::MissingCertificateDigest => "Missing certificate digest",
        }
    }
}

/// Decides how a browser client with id `client_id` connects: over
/// WebTransport from its listen address to the configured server, trusting
/// the certificate with the configured digest; without a digest it does not
/// start.
pub fn plan_web_client(
    client: ClientLaunchOptions,
    shared: &SharedLaunchOptions,
    client_id: u64,
) -> (r: Result<WebClientPlan, WebLaunchError>)
    ensures
        client.certificate_digest is None <==> r == Err::<WebClientPlan, WebLaunchError>(
            WebLaunchError::MissingCertificateDigest,
        ),
        client.certificate_digest matches Some(digest) ==> (r matches Ok(p) && {
            &&& p.shared == spec_shared_timing(*shared)
            &&& p.client_addr == SocketAddress { ip: client.listen_addr, port: client.listen_port }
            &&& p.server_addr == SocketAddress { ip: client.server_addr, port: client.server_port }
            &&& p.certificate_digest == digest
            &&& p.client_id == client_id
            &&& p.private_key == shared.key
            &&& p.protocol_id == shared.protocol_id
            &&& p.token_expire_secs == TOKEN_EXPIRE_NEVER
            &&& p.client_timeout_secs == CLIENT_TIMEOUT_SECS
            &&& p.correction_ticks_factor_bits == client.correction_ticks_factor_bits
            &&& p.min_delay == client.min_delay
            &&& p.send_interval_ratio_bits == SEND_INTERVAL_RATIO_BITS
            &&& p.asset_path == client.asset_path
        }),
{
    match client.certificate_digest {
        None => Err(WebLaunchError::MissingCertificateDigest),
        Some(digest) => Ok(
            WebClientPlan {
                shared: SharedTiming::from_options(shared),
                client_addr: SocketAddress { ip: client.listen_addr, port: client.listen_port },
                server_addr: SocketAddress { ip: client.server_addr, port: client.server_port },
                certificate_digest: digest,
                client_id,
                private_key: shared.key,
                protocol_id: shared.protocol_id,
                token_expire_secs: TOKEN_EXPIRE_NEVER,
                client_timeout_secs: CLIENT_TIMEOUT_SECS,
                correction_ticks_factor_bits: client.correction_ticks_factor_bits,
                min_delay: client.min_delay,
                send_interval_ratio_bits: SEND_INTERVAL_RATIO_BITS,
                asset_path: client.asset_path,
            },
        ),
    }
}

} // verus!
