//! The Transport Client's verifiable half: credential validation and the
//! deterministic construction of every URL and GraphQL request body. The
//! HTTP round trips themselves happen outside the library.

use vstd::prelude::*;
use vstd::string::StringExecFns;
use vstd::utf8::encode_utf8;

verus! {

/// A byte the authorization header may carry: horizontal tab, or anything
/// from the space character on except delete.
pub open spec fn valid_header_byte(b: u8) -> bool {
    b == 9 || (b >= 32 && b != 127)
}

/// A credential is valid when each byte of its UTF-8 form may stand in a
/// header value.
pub open spec fn valid_credential(token: Seq<char>) -> bool {
    forall|i: int|
        0 <= i < encode_utf8(token).len() ==> valid_header_byte(#[trigger] encode_utf8(token)[i])
}

/// Law: UTF-8 encoding distributes over concatenation, so a header value
/// built from valid pieces is valid as a whole.
pub proof fn lemma_encode_utf8_append(a: Seq<char>, b: Seq<char>)
    ensures
        encode_utf8(a + b) == encode_utf8(a) + encode_utf8(b),
    decreases a.len(),
{
    if a.len() == 0 {
        assert(a + b =~= b);
        assert(encode_utf8(a) + encode_utf8(b) =~= encode_utf8(b));
    } else {
        assert((a + b).drop_first() =~= a.drop_first() + b);
        assert((a + b)[0] == a[0]);
        lemma_encode_utf8_append(a.drop_first(), b);
        assert(vstd::utf8::encode_scalar(a[0] as u32) + (encode_utf8(a.drop_first())
            + encode_utf8(b)) =~= (vstd::utf8::encode_scalar(a[0] as u32) + encode_utf8(
            a.drop_first(),
        )) + encode_utf8(b));
    }
}

/// The credential-bound client configuration shared by all operations. It is
/// immutable once constructed; every call made with it carries the same
/// authorization header value held here.
#[derive(Debug, Clone, PartialEq, Eq)]
pub struct GitHubClient {
    pub auth_header: String,
}

impl GitHubClient {
    /// Builds a client around one credential. Construction fails exactly when
    /// the credential cannot be encoded into a valid authorization header
    /// value.
    pub fn new(token: &str) -> (r: Result<GitHubClient, crate::error::AppError>)
        ensures
            valid_credential(token@) ==> (r matches Ok(c) && c.auth_header@ == "token "@ + token@
                && valid_credential(c.auth_header@)),
            !valid_credential(token@) ==> r == Err::<
                GitHubClient,
                crate::error::AppError,
            >(crate::error::AppError::InvalidCredential),
    {
        let bytes = token.as_bytes();
        let mut i: usize = 0;
        while i < bytes.len()
            invariant
                i <= bytes@.len(),
                bytes@ == encode_utf8(token@),
                forall|j: int| 0 <= j < i ==> valid_header_byte(#[trigger] bytes@[j]),
            decreases bytes@.len() - i,
        {
            let b = bytes[i];
            if !(b == 9 || (b >= 32 && b != 127)) {
                assert(!valid_credential(token@));
                return Err(crate::error::AppError::InvalidCredential);
            }
            i += 1;
        }
        proof {
            lemma_token_prefix_stays_valid(token@);
        }
        Ok(GitHubClient { auth_header: String::from_str("token ").concat(token) })
    }
}

/// Law: the fixed scheme prefix keeps a valid credential's header value
/// valid, so a client built from a valid credential always encodes.
pub proof fn lemma_token_prefix_stays_valid(token: Seq<char>)
    requires
        valid_credential(token),
    ensures
        valid_credential("token "@ + token),
{
    reveal_strlit("token ");
    let prefix = "token "@;
    assert(vstd::utf8::is_ascii_chars(prefix));
    vstd::utf8::is_ascii_chars_encode_utf8(prefix);
    lemma_encode_utf8_append(prefix, token);
    assert forall|i: int| 0 <= i < encode_utf8(prefix + token).len() implies valid_header_byte(
        #[trigger] encode_utf8(prefix + token)[i],
    ) by {
        if i < encode_utf8(prefix).len() {
            assert(encode_utf8(prefix + token)[i] == encode_utf8(prefix)[i]);
            assert(encode_utf8(prefix)[i] == prefix[i] as u8);
        } else {
            assert(encode_utf8(prefix + token)[i] == encode_utf8(token)[i - encode_utf8(
                prefix,
            ).len()]);
        }
    }
}

/// The address of a user's public event feed, first page, one hundred items.
pub open spec fn user_events_url_view(username: Seq<char>) -> Seq<char> {
    "https://api.github.com/users/"@ + username + "/events?per_page=100&page=1"@
}

/// Builds the user-events URL. Callers must pre-sanitize names holding
/// reserved URL characters; nothing is escaped here.
pub fn user_events_url(username: &str) -> (r: String)
    ensures
        r@ == user_events_url_view(username@),
{
    String::from_str("https://api.github.com/users/").concat(username).concat(
        "/events?per_page=100&page=1",
    )
}

/// The address of a repository's language-breakdown endpoint.
pub open spec fn languages_url_view(owner: Seq<char>, repository: Seq<char>) -> Seq<char> {
    "https://api.github.com/repos/"@ + owner + "/"@ + repository + "/languages"@
}

/// Builds the language-lookup URL.
pub fn languages_url(owner: &str, repository: &str) -> (r: String)
    ensures
        r@ == languages_url_view(owner@, repository@),
{
    String::from_str("https://api.github.com/repos/").concat(owner).concat("/").concat(
        repository,
    ).concat("/languages")
}

/// The address of a repository path's content endpoint.
pub open spec fn content_url_view(owner: Seq<char>, repository: Seq<char>, path: Seq<char>) -> Seq<
    char,
> {
    "https://api.github.com/repos/"@ + owner + "/"@ + repository + "/contents/"@ + path
}

/// Builds the content-lookup URL.
pub fn content_url(owner: &str, repository: &str, path: &str) -> (r: String)
    ensures
        r@ == content_url_view(owner@, repository@, path@),
{
    String::from_str("https://api.github.com/repos/").concat(owner).concat("/").concat(
        repository,
    ).concat("/contents/").concat(path)
}

/// The one GraphQL endpoint both query operations post to.
pub open spec fn graphql_url_view() -> Seq<char> {
    "https://api.github.com/graphql"@
}

/// The GraphQL endpoint's address.
pub fn graphql_url() -> (r: String)
    ensures
        r@ == graphql_url_view(),
{
    String::from_str("https://api.github.com/graphql")
}

/// What serde_json renders a string value as: a quoted, escaped JSON string
/// literal.
pub uninterp spec fn json_quoted(s: Seq<char>) -> Seq<char>;

/// Relies on `serde_json::to_string` on a string slice: renders the JSON
/// string literal for it; on a string value serialization cannot fail.
#[verifier::external_body]
fn json_quote(s: &str) -> (r: String)
    ensures
        r@ == json_quoted(s@),
{
    serde_json::to_string(s).expect("serializing a string slice cannot fail")
}

/// The fixed profile-lookup request body: a query document with no variables.
pub open spec fn profile_query_body_view() -> Seq<char> {
    "{\"query\":\"query { viewer { login name } }\",\"variables\":{}}"@
}

/// The statically defined viewer-profile query.
pub struct ProfileQuery;

impl ProfileQuery {
    /// The request body posted for a profile lookup.
    pub fn build_query() -> (r: String)
        ensures
            r@ == profile_query_body_view(),
    {
        String::from_str("{\"query\":\"query { viewer { login name } }\",\"variables\":{}}")
    }
}

/// The repository-lookup request body for a given owner and name, both
/// rendered as JSON string literals.
pub open spec fn repository_query_body_view(owner: Seq<char>, name: Seq<char>) -> Seq<char> {
    "{\"query\":\"query ($owner: String!, $name: String!) { repository(owner: $owner, name: $name) { name description url } }\",\"variables\":{\"owner\":"@
        + json_quoted(owner) + ",\"name\":"@ + json_quoted(name) + "}}"@
}

/// The statically defined named-repository query.
pub struct RepositoryQuery;

impl RepositoryQuery {
    /// The request body posted for a repository lookup, with the owner and
    /// repository name as its variables.
    pub fn build_query(owner: &str, name: &str) -> (r: String)
        ensures
            r@ == repository_query_body_view(owner@, name@),
    {
        let s = String::from_str(
            "{\"query\":\"query ($owner: String!, $name: String!) { repository(owner: $owner, name: $name) { name description url } }\",\"variables\":{\"owner\":",
        );
        let s = s.concat(json_quote(owner).as_str());
        let s = s.concat(",\"name\":");
        let s = s.concat(json_quote(name).as_str());
        s.concat("}}")
    }
}

} // verus!
