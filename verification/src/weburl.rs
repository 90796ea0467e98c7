//! What the wallet takes on trust from the `url` crate: parsing a URL,
//! reading its parts, and rewriting its port and scheme. No contract of a
//! function in this file is proved; each restates what the crate documents.

use vstd::prelude::*;
use vstd::utf8::encode_utf8;

verus! {

#[verifier::external_type_specification]
#[verifier::external_body]
pub struct ExUrl(url::Url);

#[verifier::external_type_specification]
#[verifier::external_body]
pub struct ExParseError(url::ParseError);

/// No URL text longer than this many bytes is rewritten: the `url` crate
/// keeps its offsets in 32 bits, and a rewrite may add a few bytes.
pub const URL_TEXT_LIMIT: usize = 4_294_967_280;

/// Whether a URL text is short enough to be rewritten.
pub open spec fn fits(text: Seq<char>) -> bool {
    encode_utf8(text).len() <= URL_TEXT_LIMIT
}

/// The text that a URL holds: its serialization, by which URLs compare.
pub uninterp spec fn url_text(u: url::Url) -> Seq<char>;

/// The words in which a parse error describes itself.
pub uninterp spec fn error_text(e: url::ParseError) -> Seq<char>;

/// What parsing a string gives: the text of the URL it parses to, or, for a
/// string that is no absolute URL, the description of the error.
pub uninterp spec fn parsed(s: Seq<char>) -> Result<Seq<char>, Seq<char>>;

/// The explicit port in a URL text, if it has one.
pub uninterp spec fn text_port(text: Seq<char>) -> Option<u16>;

/// The number of characters of `text` that stand before its first colon;
/// all of them where it has none.
pub open spec fn scheme_len(text: Seq<char>) -> nat
    decreases text.len(),
{
    if text.len() == 0 || text[0] == ':' {
        0
    } else {
        1 + scheme_len(text.drop_first())
    }
}

/// The scheme of a URL text: what stands before its first colon.
pub open spec fn text_scheme(text: Seq<char>) -> Seq<char> {
    text.take(scheme_len(text) as int)
}

/// A text that begins with `scheme`, then a colon, has `scheme` as its
/// scheme, provided `scheme` holds no colon itself.
pub proof fn lemma_scheme_before_colon(scheme: Seq<char>, rest: Seq<char>)
    requires
        !scheme.contains(':'),
    ensures
        text_scheme(scheme + seq![':'] + rest) == scheme,
    decreases scheme.len(),
{
    let text = scheme + seq![':'] + rest;
    if scheme.len() == 0 {
        assert(text[0] == ':');
        assert(text.take(0) =~= scheme);
    } else {
        assert(scheme.contains(scheme[0]));
        assert(text[0] == scheme[0]);
        let tail = scheme.drop_first();
        assert forall|c: char| tail.contains(c) implies scheme.contains(c) by {
            let i = choose|i: int| 0 <= i < tail.len() && tail[i] == c;
            assert(scheme[i + 1] == c);
        }
        lemma_scheme_before_colon(tail, rest);
        assert(text.drop_first() =~= tail + seq![':'] + rest);
        assert(scheme_len(text) == 1 + scheme_len(text.drop_first()));
        assert(text.drop_first().take(tail.len() as int) == tail);
        assert(scheme_len(text.drop_first()) == tail.len()) by {
            lemma_scheme_len_bounded(text.drop_first());
        }
        assert(text.take(scheme.len() as int) =~= scheme);
    }
}

/// The scheme is never longer than the text.
pub proof fn lemma_scheme_len_bounded(text: Seq<char>)
    ensures
        scheme_len(text) <= text.len(),
    decreases text.len(),
{
    if text.len() == 0 || text[0] == ':' {
    } else {
        lemma_scheme_len_bounded(text.drop_first());
    }
}

/// The host in a URL text, if it has one.
pub uninterp spec fn text_host(text: Seq<char>) -> Option<Seq<char>>;

/// A URL text after its port has been set; `None` where the URL cannot
/// have a port.
pub uninterp spec fn text_with_port(text: Seq<char>, port: Option<u16>) -> Option<Seq<char>>;

/// A URL text after its scheme has been set; `None` where the URL cannot
/// take that scheme.
pub uninterp spec fn text_with_scheme(text: Seq<char>, scheme: Seq<char>) -> Option<Seq<char>>;

/// `url::Url::parse`: gives a URL exactly for the strings that are absolute
/// URLs; the same string always gives the same URL text, or an error of
/// the same description.
#[verifier::external_body]
pub(crate) fn parse(s: &str) -> (r: Result<url::Url, url::ParseError>)
    ensures
        match r {
            Ok(u) => parsed(s@) == Ok::<Seq<char>, Seq<char>>(url_text(u)),
            Err(e) => parsed(s@) == Err::<Seq<char>, Seq<char>>(error_text(e)),
        },
{
    url::Url::parse(s)
}

/// `url::Url::as_str`: the serialization that the URL holds.
#[verifier::external_body]
pub(crate) fn as_str(u: &url::Url) -> (r: &str)
    ensures
        r@ == url_text(*u),
{
    u.as_str()
}

/// `url::Url::port`: the explicit port, which is part of the URL's text.
#[verifier::external_body]
pub(crate) fn port(u: &url::Url) -> (r: Option<u16>)
    ensures
        r == text_port(url_text(*u)),
{
    u.port()
}

/// `url::Url::scheme`: the scheme, which is the start of the URL's text up
/// to its first colon.
#[verifier::external_body]
pub(crate) fn scheme(u: &url::Url) -> (r: &str)
    ensures
        r@ == text_scheme(url_text(*u)),
{
    u.scheme()
}

/// `url::Url::host_str`: the host, which is part of the URL's text.
#[verifier::external_body]
pub(crate) fn host_str(u: &url::Url) -> (r: Option<&str>)
    ensures
        match r {
            Some(h) => text_host(url_text(*u)) == Some(h@),
            None => text_host(url_text(*u)) is None,
        },
{
    u.host_str()
}

/// `url::Url::set_port`: on success the URL's text is rewritten with the
/// port, on failure the URL is left as it was. Which of the two happens,
/// and the new text, depend on the old text and the port alone.
#[verifier::external_body]
pub(crate) fn set_port(u: &mut url::Url, port: Option<u16>) -> (r: Result<(), ()>)
    requires
        fits(url_text(*old(u))),
    ensures
        match r {
            Ok(_) => text_with_port(url_text(*old(u)), port) == Some(url_text(*final(u))),
            Err(_) => text_with_port(url_text(*old(u)), port) is None && url_text(*final(u))
                == url_text(*old(u)),
        },
{
    u.set_port(port)
}

/// `url::Url::set_scheme`: on success the URL's text is rewritten with the
/// scheme, on failure the URL is left as it was. Which of the two happens,
/// and the new text, depend on the old text and the scheme alone.
#[verifier::external_body]
pub(crate) fn set_scheme(u: &mut url::Url, scheme: &str) -> (r: Result<(), ()>)
    requires
        fits(url_text(*old(u))),
        scheme@.len() <= 3,
    ensures
        match r {
            Ok(_) => text_with_scheme(url_text(*old(u)), scheme@) == Some(url_text(*final(u))),
            Err(_) => text_with_scheme(url_text(*old(u)), scheme@) is None && url_text(
                *final(u),
            ) == url_text(*old(u)),
        },
{
    u.set_scheme(scheme)
}

/// The `Display` of `url::ParseError`: the description of the error, which
/// is one fixed text for each kind of error.
#[verifier::external_body]
pub(crate) fn describe(e: &url::ParseError) -> (r: String)
    ensures
        r@ == error_text(*e),
{
    e.to_string()
}

} // verus!
