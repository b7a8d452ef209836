use vstd::prelude::*;

verus! {

/// Client identification sent with the session-creation request.
pub const USER_AGENT: &'static str =
    "Mozilla/5.0 (X11; Linux x86_64) AppleWebKit/537.36 (KHTML, like Gecko) Chrome/120.0.0.0 Safari/537.36";

/// Endpoint that creates a conversation.
pub const CREATE_URL: &'static str = "https://www.bing.com/turing/conversation/create";

/// Client bundle version announced to the creation endpoint.
pub const BUNDLE_VERSION: &'static str = "1.1586.1";

/// Base address of the persistent channel.
pub const WS_URL: &'static str = "wss://sydney.bing.com/sydney/ChatHub";

/// What percent-encoding makes of a string.
pub uninterp spec fn url_encoded(s: Seq<char>) -> Seq<char>;

/// Characters that percent-encoding leaves as they are.
pub open spec fn is_unreserved(c: char) -> bool {
    ('a' <= c && c <= 'z') || ('A' <= c && c <= 'Z') || ('0' <= c && c <= '9') || c == '-'
        || c == '_' || c == '.' || c == '~'
}

/// Relies on `urlencoding::encode`: it percent-encodes every byte except
/// ASCII alphanumerics and `-`, `_`, `.`, `~`, so its result depends on the
/// input alone and a string made only of those characters comes back as is.
#[verifier::external_body]
fn percent_encode(s: &str) -> (r: String)
    ensures
        r@ == url_encoded(s@),
        (forall|i: int| 0 <= i < s@.len() ==> is_unreserved(#[trigger] s@[i])) ==> r@ == s@,
{
    urlencoding::encode(s).into_owned()
}

/// The query key that carries the channel credential.
pub open spec fn token_key() -> Seq<char> {
    "?sec_access_token="@
}

/// The channel address for an already encoded credential.
pub fn channel_url_with_token(encoded: &str) -> (r: String)
    ensures
        r@ == WS_URL@ + token_key() + encoded@,
{
    let r = String::from_str(WS_URL).concat("?sec_access_token=").concat(encoded);
    assert(r@ =~= WS_URL@ + token_key() + encoded@);
    r
}

/// The channel address for an encrypted conversation signature.
pub fn channel_url(encrypted_signature: &str) -> (r: String)
    ensures
        r@ == WS_URL@ + token_key() + url_encoded(encrypted_signature@),
{
    let encoded = percent_encode(encrypted_signature);
    channel_url_with_token(encoded.as_str())
}

/// The address of the session-creation request.
pub fn create_url() -> (r: String)
    ensures
        r@ == CREATE_URL@ + "?bundleVersion="@ + BUNDLE_VERSION@,
{
    let r = String::from_str(CREATE_URL).concat("?bundleVersion=").concat(BUNDLE_VERSION);
    assert(r@ =~= CREATE_URL@ + "?bundleVersion="@ + BUNDLE_VERSION@);
    r
}

} // verus!
