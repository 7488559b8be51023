//! Rendering a status code into the raw failure message that the language
//! and content lookups wrap around a non-success response.

use vstd::prelude::*;
use vstd::string::StringExecFns;

verus! {

/// The decimal ASCII digits of a non-negative number, most significant first.
pub open spec fn dec_bytes(n: int) -> Seq<u8>
    decreases n,
{
    if n <= 9 {
        seq![(48 + if n >= 0 { n } else { 0 }) as u8]
    } else {
        dec_bytes(n / 10) + seq![(48 + n % 10) as u8]
    }
}

/// The same digits as characters.
pub open spec fn dec_chars(n: int) -> Seq<char> {
    dec_bytes(n).map_values(|b: u8| b as char)
}

/// The decimal digits of `n`, most significant first.
pub fn u16_digits(n: u16) -> (r: Vec<u8>)
    ensures
        r@ == dec_bytes(n as int),
    decreases n,
{
    if n <= 9 {
        let mut v: Vec<u8> = Vec::new();
        v.push(48 + n as u8);
        proof {
            assert(v@ =~= dec_bytes(n as int));
        }
        v
    } else {
        let mut v = u16_digits(n / 10);
        v.push(48 + (n % 10) as u8);
        proof {
            assert(v@ =~= dec_bytes(n as int));
        }
        v
    }
}

/// Relies on `String::from_utf8`: ASCII bytes decode to the same code points,
/// one character per byte.
#[verifier::external_body]
fn ascii_to_string(bytes: &Vec<u8>) -> (r: String)
    requires
        forall|i: int| 0 <= i < bytes@.len() ==> bytes@[i] < 128,
    ensures
        r@ == bytes@.map_values(|b: u8| b as char),
{
    String::from_utf8(bytes.clone()).expect("ASCII bytes are valid UTF-8")
}

/// The status code of a response, rendered in decimal.
pub fn status_text(status: u16) -> (r: String)
    ensures
        r@ == dec_chars(status as int),
{
    let digits = u16_digits(status);
    proof {
        lemma_dec_bytes_ascii(status as int);
    }
    ascii_to_string(&digits)
}

/// Every byte that `dec_bytes` produces is an ASCII digit.
pub proof fn lemma_dec_bytes_ascii(n: int)
    ensures
        forall|i: int| 0 <= i < dec_bytes(n).len() ==> 48 <= #[trigger] dec_bytes(n)[i] <= 57,
    decreases n,
{
    if n > 9 {
        lemma_dec_bytes_ascii(n / 10);
        assert forall|i: int| 0 <= i < dec_bytes(n).len() implies 48 <= #[trigger] dec_bytes(n)[i]
            <= 57 by {
            if i < dec_bytes(n / 10).len() {
                assert(dec_bytes(n)[i] == dec_bytes(n / 10)[i]);
            }
        }
    }
}

/// The message that wraps a non-success status and its raw body text
/// verbatim, used where no structured parse of the body is attempted.
pub open spec fn raw_error_message_view(status: int, body: Seq<char>) -> Seq<char> {
    "GitHub API error: status = "@ + dec_chars(status) + ", message = "@ + body
}

/// Builds the raw failure message carrying the status code and the body text.
pub fn raw_error_message(status: u16, body: &str) -> (r: String)
    ensures
        r@ == raw_error_message_view(status as int, body@),
{
    let s = String::from_str("GitHub API error: status = ");
    let s = s.concat(status_text(status).as_str());
    let s = s.concat(", message = ");
    s.concat(body)
}

} // verus!
