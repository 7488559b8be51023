//! The Content object returned by the content lookup, and the Content
//! Decoder: whitespace stripping, base64 decoding, and lossy UTF-8 reading of
//! the file body the upstream returns.

use std::collections::HashMap;

use vstd::prelude::*;
use vstd::string::StringExecFns;
use vstd::utf8::{decode_utf8, encode_utf8, valid_utf8};

use crate::error::AppError;
use base64::Engine;

verus! {

/// A single file or directory entry in a repository, as the content lookup
/// returns it. When `content` is present it carries the base64-encoded file
/// body, wrapped in line breaks by the upstream, and `encoding` names that
/// encoding.
#[derive(Debug, Clone, PartialEq, Eq)]
pub struct GitHubContentObject {
    pub name: String,
    pub path: String,
    pub sha: String,
    pub size: i32,
    pub url: String,
    pub html_url: String,
    pub git_url: String,
    pub download_url: String,
    pub object_type: String,
    pub content: Option<String>,
    pub encoding: String,
    pub links: HashMap<String, String>,
}

/// Spec-level image of [`GitHubContentObject`].
#[verifier::ext_equal]
pub struct ContentView {
    pub name: Seq<char>,
    pub path: Seq<char>,
    pub sha: Seq<char>,
    pub size: i32,
    pub url: Seq<char>,
    pub html_url: Seq<char>,
    pub git_url: Seq<char>,
    pub download_url: Seq<char>,
    pub object_type: Seq<char>,
    pub content: Option<Seq<char>>,
    pub encoding: Seq<char>,
    pub links: Map<Seq<char>, Seq<char>>,
}

impl DeepView for GitHubContentObject {
    type V = ContentView;

    open spec fn deep_view(&self) -> ContentView {
        ContentView {
            name: self.name.deep_view(),
            path: self.path.deep_view(),
            sha: self.sha.deep_view(),
            size: self.size,
            url: self.url.deep_view(),
            html_url: self.html_url.deep_view(),
            git_url: self.git_url.deep_view(),
            download_url: self.download_url.deep_view(),
            object_type: self.object_type.deep_view(),
            content: self.content.deep_view(),
            encoding: self.encoding.deep_view(),
            links: self.links.deep_view(),
        }
    }
}

/// The whitespace bytes that the upstream may interleave into an encoded
/// body: space, newline, tab, carriage return, vertical tab and form feed.
pub open spec fn is_b64_ws(b: u8) -> bool {
    b == 32 || b == 10 || b == 9 || b == 13 || b == 11 || b == 12
}

/// A byte sequence with every whitespace byte removed.
pub open spec fn strip_ws(s: Seq<u8>) -> Seq<u8>
    decreases s.len(),
{
    if s.len() == 0 {
        Seq::empty()
    } else if is_b64_ws(s[0]) {
        strip_ws(s.drop_first())
    } else {
        seq![s[0]] + strip_ws(s.drop_first())
    }
}

/// Law: stripping distributes over concatenation, so whitespace interleaved
/// between any fragments of a body strips away fragment by fragment.
pub proof fn lemma_strip_ws_append(a: Seq<u8>, b: Seq<u8>)
    ensures
        strip_ws(a + b) == strip_ws(a) + strip_ws(b),
    decreases a.len(),
{
    if a.len() == 0 {
        assert(a + b =~= b);
        assert(strip_ws(a) + strip_ws(b) =~= strip_ws(b));
    } else {
        assert((a + b).drop_first() =~= a.drop_first() + b);
        assert((a + b)[0] == a[0]);
        lemma_strip_ws_append(a.drop_first(), b);
        if !is_b64_ws(a[0]) {
            assert(seq![a[0]] + (strip_ws(a.drop_first()) + strip_ws(b)) =~= (seq![a[0]]
                + strip_ws(a.drop_first())) + strip_ws(b));
        }
    }
}

/// Law: a sequence without whitespace strips to itself.
pub proof fn lemma_strip_ws_clean(s: Seq<u8>)
    requires
        forall|i: int| 0 <= i < s.len() ==> !is_b64_ws(#[trigger] s[i]),
    ensures
        strip_ws(s) == s,
    decreases s.len(),
{
    if s.len() > 0 {
        lemma_strip_ws_clean(s.drop_first());
        assert(seq![s[0]] + s.drop_first() =~= s);
    }
}

/// Law: a sequence of whitespace alone strips to nothing.
pub proof fn lemma_strip_ws_all_ws(s: Seq<u8>)
    requires
        forall|i: int| 0 <= i < s.len() ==> is_b64_ws(#[trigger] s[i]),
    ensures
        strip_ws(s) == Seq::<u8>::empty(),
    decreases s.len(),
{
    if s.len() > 0 {
        lemma_strip_ws_all_ws(s.drop_first());
    }
}

/// Whether a byte is one the upstream's line wrapping may introduce.
fn is_ws_byte(b: u8) -> (r: bool)
    ensures
        r == is_b64_ws(b),
{
    b == 32 || b == 10 || b == 9 || b == 13 || b == 11 || b == 12
}

/// Removes every whitespace byte, keeping the rest in order.
fn strip_whitespace(bytes: &[u8]) -> (out: Vec<u8>)
    ensures
        out@ == strip_ws(bytes@),
{
    let mut out: Vec<u8> = Vec::new();
    let mut i: usize = 0;
    while i < bytes.len()
        invariant
            i <= bytes@.len(),
            out@ == strip_ws(bytes@.subrange(0, i as int)),
        decreases bytes@.len() - i,
    {
        let b = bytes[i];
        if !is_ws_byte(b) {
            out.push(b);
        }
        proof {
            let prefix = bytes@.subrange(0, i as int);
            let one = seq![bytes@[i as int]];
            assert(bytes@.subrange(0, i as int + 1) =~= prefix + one);
            lemma_strip_ws_append(prefix, one);
            assert(one.drop_first() =~= Seq::<u8>::empty());
            assert(strip_ws(Seq::<u8>::empty()) =~= Seq::<u8>::empty());
            if is_b64_ws(bytes@[i as int]) {
                assert(strip_ws(one) =~= Seq::<u8>::empty());
                assert(strip_ws(prefix + one) =~= strip_ws(prefix));
            } else {
                assert(strip_ws(one) =~= one);
                assert(strip_ws(prefix + one) =~= strip_ws(prefix).push(bytes@[i as int]));
            }
        }
        i += 1;
    }
    proof {
        assert(bytes@.subrange(0, bytes@.len() as int) =~= bytes@);
    }
    out
}

/// What base64 decoding with the standard alphabet returns on a byte
/// sequence: `None` when the sequence is not a valid encoding.
pub uninterp spec fn b64_decoded(s: Seq<u8>) -> Option<Seq<u8>>;

/// Relies on base64's standard-alphabet engine `decode`: it returns the
/// decoded bytes exactly when the input is a valid standard-alphabet
/// encoding, a fixed function of the input.
#[verifier::external_body]
fn b64_decode(input: &Vec<u8>) -> (r: Option<Vec<u8>>)
    ensures
        match r {
            Some(v) => b64_decoded(input@) == Some(v@),
            None => b64_decoded(input@) is None,
        },
{
    base64::prelude::BASE64_STANDARD.decode(input.as_slice()).ok()
}

/// A byte of the standard base64 alphabet or its padding.
pub open spec fn is_b64_alphabet(b: u8) -> bool {
    (65 <= b <= 90) || (97 <= b <= 122) || (48 <= b <= 57) || b == 43 || b == 47 || b == 61
}

/// Relies on base64's standard-alphabet engine `encode`: the result carries
/// only alphabet and padding bytes, and `decode` returns exactly the input
/// bytes on it. The length bound keeps the encoded size below the address
/// space, where `encode` would panic.
#[verifier::external_body]
fn b64_encode(input: &Vec<u8>) -> (r: String)
    requires
        4 * input@.len() <= usize::MAX,
    ensures
        b64_decoded(encode_utf8(r@)) == Some(input@),
        forall|i: int|
            0 <= i < encode_utf8(r@).len() ==> is_b64_alphabet(#[trigger] encode_utf8(r@)[i]),
{
    base64::prelude::BASE64_STANDARD.encode(input.as_slice())
}

/// What lossy UTF-8 reading yields on bytes that are not valid UTF-8.
pub uninterp spec fn utf8_lossy_of(b: Seq<u8>) -> Seq<char>;

/// The text that lossy UTF-8 reading yields: the exact decoding on valid
/// UTF-8, and a replacement-carrying text otherwise.
pub open spec fn lossy_text_of(b: Seq<u8>) -> Seq<char> {
    if valid_utf8(b) {
        decode_utf8(b)
    } else {
        utf8_lossy_of(b)
    }
}

/// Relies on `String::from_utf8_lossy`: on valid UTF-8 it returns exactly the
/// decoded string, otherwise it replaces each invalid sequence with the
/// replacement character, a fixed function of the bytes.
#[verifier::external_body]
fn utf8_lossy(bytes: &Vec<u8>) -> (r: String)
    ensures
        r@ == lossy_text_of(bytes@),
        !valid_utf8(bytes@) ==> r@ == utf8_lossy_of(bytes@),
{
    String::from_utf8_lossy(bytes.as_slice()).into_owned()
}

/// The bytes a content body decodes to: its UTF-8 form with whitespace
/// stripped, read as base64.
pub open spec fn decoded_bytes_view(content: Seq<char>) -> Option<Seq<u8>> {
    b64_decoded(strip_ws(encode_utf8(content)))
}

/// The text a content body decodes to, read lossily as UTF-8.
pub open spec fn decoded_text_view(content: Seq<char>) -> Option<Seq<char>> {
    match decoded_bytes_view(content) {
        Some(b) => Some(lossy_text_of(b)),
        None => None,
    }
}

impl GitHubContentObject {
    /// Content Decoder: strips the transport's whitespace from the raw
    /// content, decodes the base64 body, and reads it as UTF-8 with lossy
    /// replacement. Absent raw content yields an absent result, not an
    /// error; malformed base64 is a typed failure, never a truncated body.
    pub fn decoded_content(&self) -> (r: Result<Option<String>, AppError>)
        ensures
            match r {
                Ok(None) => self.content is None,
                Ok(Some(s)) => self.content matches Some(c) && decoded_text_view(c@)
                    == Some(s@),
                Err(e) => self.content matches Some(c) && decoded_text_view(c@) is None
                    && e.deep_view() == crate::error::AppErrorView::DecodeError(
                    "could not decode github content"@,
                ),
            },
    {
        match &self.content {
            None => Ok(None),
            Some(c) => {
                let stripped = strip_whitespace(c.as_str().as_bytes());
                match b64_decode(&stripped) {
                    Some(raw) => Ok(Some(utf8_lossy(&raw))),
                    None => Err(
                        AppError::DecodeError(
                            String::from_str("could not decode github content"),
                        ),
                    ),
                }
            },
        }
    }
}

/// Produces a base64 content body for raw bytes: the Content Decoder returns
/// exactly those bytes from it.
pub fn encode_content(bytes: &Vec<u8>) -> (r: String)
    requires
        4 * bytes@.len() <= usize::MAX,
    ensures
        decoded_bytes_view(r@) == Some(bytes@),
        decoded_text_view(r@) == Some(lossy_text_of(bytes@)),
{
    let encoded = b64_encode(bytes);
    proof {
        assert forall|i: int| 0 <= i < encode_utf8(encoded@).len() implies !is_b64_ws(
            #[trigger] encode_utf8(encoded@)[i],
        ) by {
            assert(is_b64_alphabet(encode_utf8(encoded@)[i]));
        }
        lemma_strip_ws_clean(encode_utf8(encoded@));
    }
    encoded
}

/// Law: two content bodies whose whitespace-stripped bytes agree decode to
/// the same result, so interleaving whitespace into an encoded body never
/// changes what the Content Decoder yields.
pub proof fn lemma_decode_whitespace_insensitive(a: Seq<char>, b: Seq<char>)
    requires
        strip_ws(encode_utf8(a)) == strip_ws(encode_utf8(b)),
    ensures
        decoded_bytes_view(a) == decoded_bytes_view(b),
        decoded_text_view(a) == decoded_text_view(b),
{
}

/// Law, round trip: a content body that decodes to the UTF-8 bytes of a text
/// yields that text itself; with [`encode_content`]'s contract this gives
/// encode-then-decode identity for every UTF-8 input.
pub proof fn lemma_encode_decode_round_trip(text: Seq<char>, body: Seq<char>)
    requires
        decoded_bytes_view(body) == Some(encode_utf8(text)),
    ensures
        decoded_text_view(body) == Some(text),
{
    broadcast use vstd::utf8::encode_utf8_valid_utf8;
    broadcast use vstd::utf8::encode_utf8_decode_utf8;

}

/// Law, round trip with noise: take a body that decodes to the UTF-8 bytes
/// of a text, as [`encode_content`] produces, and any body that strips to the
/// same bytes — whitespace and line breaks interleaved anywhere; the Content
/// Decoder yields the original text from it.
pub proof fn lemma_content_round_trip(text: Seq<char>, clean: Seq<char>, noisy: Seq<char>)
    requires
        decoded_bytes_view(clean) == Some(encode_utf8(text)),
        strip_ws(encode_utf8(noisy)) == strip_ws(encode_utf8(clean)),
    ensures
        decoded_text_view(noisy) == Some(text),
{
    lemma_decode_whitespace_insensitive(noisy, clean);
    lemma_encode_decode_round_trip(text, noisy);
}

} // verus!
