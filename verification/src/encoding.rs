//! Base64 text and URL parsing, through the `base64` and `url` crates.
use vstd::prelude::*;

verus! {

/// Whether base64 with padding can encode `n` bytes without the length
/// computation overflowing: `4 * ceil(n / 3)` fits in `usize`.
pub open spec fn base64_fits(n: nat) -> bool {
    4 * ((n + 2) / 3) <= usize::MAX
}

/// What the `base64` crate's `STANDARD` engine (RFC 4648 alphabet, with
/// padding) writes for the bytes `data`.
pub uninterp spec fn base64_standard(data: Seq<u8>) -> Seq<char>;

/// `base64::Engine::encode` on `general_purpose::STANDARD`. The crate
/// panics when the encoded length overflows `usize`; `requires` leaves
/// those inputs out. The contract names the encoding and does not spell it
/// out.
#[verifier::external_body]
pub(crate) fn encode_base64(data: &[u8]) -> (res: String)
    requires
        base64_fits(data@.len()),
    ensures
        res@ == base64_standard(data@),
{
    base64::Engine::encode(&base64::engine::general_purpose::STANDARD, data)
}

/// `url::Url`, a parsed URL held opaquely; `url_serialization` names the text
/// it stores.
#[verifier::external_type_specification]
#[verifier::external_body]
pub struct ExUrl(url::Url);

/// The serialization stored in a `url::Url` (what `Url::as_str` returns and
/// what `Url`'s `==` compares).
pub uninterp spec fn url_serialization(u: url::Url) -> Seq<char>;

/// What `url::Url::parse` makes of `text`: the serialization of the parsed
/// URL, or `None` where it returns a `ParseError`.
pub uninterp spec fn parsed_url(text: Seq<char>) -> Option<Seq<char>>;

/// The explicit port of the URL whose serialization is `serialization`, as
/// `url::Url::port` returns it (`None` where the URL names no port or names
/// its scheme's default port).
pub uninterp spec fn url_port(serialization: Seq<char>) -> Option<u16>;

/// `url::Url::parse`: parses an absolute URL. The contract ties success and
/// the stored serialization to `parsed_url(text)`; which `ParseError` comes
/// back is left unsaid.
#[verifier::external_body]
pub(crate) fn parse_url(text: &str) -> (res: core::result::Result<url::Url, url::ParseError>)
    ensures
        match res {
            Ok(u) => parsed_url(text@) == Some(url_serialization(u)),
            Err(_) => parsed_url(text@) is None,
        },
{
    url::Url::parse(text)
}

/// `From<url::Url> for String`: hands out the stored serialization.
#[verifier::external_body]
pub(crate) fn url_into_string(u: url::Url) -> (res: String)
    ensures
        res@ == url_serialization(u),
{
    u.into()
}

/// `url::Url::port`: the explicit port of the URL, a function of its
/// serialization (a `Url` is determined by it: its `==` compares nothing
/// else).
#[verifier::external_body]
pub(crate) fn url_port_number(u: &url::Url) -> (res: Option<u16>)
    ensures
        res == url_port(url_serialization(*u)),
{
    u.port()
}

} // verus!
