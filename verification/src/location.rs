//! Addresses: what a user types, what a page links to, and what they come to.

use crate::backend::BackendError;
use crate::text::{
    begins_with, contains, copy_of, is_space, occurs_at, occurs_in, same_text, starts_with, trim,
    trimmed,
};
use vstd::prelude::*;

verus! {

/// The host of a URL.
#[derive(Debug, PartialEq, Eq)]
pub enum UrlHost {
    Domain(String),
    /// The four bytes of the address.
    Ipv4([u8; 4]),
    /// The eight groups of the address.
    Ipv6([u16; 8]),
}

/// A parsed URL, taken apart.
#[derive(Debug, PartialEq, Eq)]
pub struct PageUrl {
    /// The whole URL in its normal form.
    pub href: String,
    pub scheme: String,
    /// The host as it stands in the URL.
    pub host_text: Option<String>,
    pub host: Option<UrlHost>,
    pub path: String,
}

/// The host of a URL, as plain values.
pub ghost enum UrlHostParts {
    Domain(Seq<char>),
    Ipv4(Seq<u8>),
    Ipv6(Seq<u16>),
}

/// A parsed URL, as plain values.
pub ghost struct UrlParts {
    pub href: Seq<char>,
    pub scheme: Seq<char>,
    pub host_text: Option<Seq<char>>,
    pub host: Option<UrlHostParts>,
    pub path: Seq<char>,
}

impl View for UrlHost {
    type V = UrlHostParts;

    open spec fn view(&self) -> UrlHostParts {
        match self {
            UrlHost::Domain(name) => UrlHostParts::Domain(name@),
            UrlHost::Ipv4(bytes) => UrlHostParts::Ipv4(bytes@),
            UrlHost::Ipv6(groups) => UrlHostParts::Ipv6(groups@),
        }
    }
}

impl View for PageUrl {
    type V = UrlParts;

    open spec fn view(&self) -> UrlParts {
        UrlParts {
            href: self.href@,
            scheme: self.scheme@,
            host_text: match self.host_text {
                Some(text) => Some(text@),
                None => None,
            },
            host: match self.host {
                Some(host) => Some(host@),
                None => None,
            },
            path: self.path@,
        }
    }
}

/// Whether a scheme is one that pages are fetched by.
pub open spec fn is_web_scheme(scheme: Seq<char>) -> bool {
    scheme == "http"@ || scheme == "https"@
}

/// What `url::Url::parse` makes of a text: the parsed URL, or the message of
/// the error.
pub uninterp spec fn parsed_url(text: Seq<char>) -> Result<UrlParts, Seq<char>>;

/// What a text comes to when it is parsed by itself, as plain values.
pub open spec fn parse_outcome(result: Result<PageUrl, String>) -> Result<UrlParts, Seq<char>> {
    match result {
        Ok(url) => Ok(url@),
        Err(message) => Err(message@),
    }
}

/// The length of the longest label that is decoded from its ASCII form.
pub const MAX_ENCODED_LABEL: usize = 2004;

/// Whether a host has a label in ASCII form that is too long to be decoded; a
/// shorter text in other characters may have been encoded to one.
pub open spec fn has_long_encoded_label(host: Seq<char>) -> bool {
    exists|start: int| #[trigger]
        occurs_at(host, "xn--"@, start) && (start == 0 || host[start - 1] == '.') && start
            + MAX_ENCODED_LABEL < host.len() && !host.subrange(
            start,
            start + MAX_ENCODED_LABEL + 1,
        ).contains('.')
}

/// Whether the normal form of a URL of the web is as it should be: it is made of
/// visible ASCII characters, has the scheme in front, and stands for that URL
/// itself, unless the host has a label that cannot be decoded again.
pub open spec fn is_settled(url: UrlParts) -> bool {
    is_web_scheme(url.scheme) ==> {
        &&& begins_with(url.href, url.scheme + "://"@)
        &&& forall|i: int| 0 <= i < url.href.len() ==> '!' <= #[trigger] url.href[i] <= '~'
        &&& url.host_text matches Some(host) && (!has_long_encoded_label(host) ==> parsed_url(
            url.href,
        ) == Ok::<UrlParts, Seq<char>>(url))
    }
}

/// Calls `url::Url::parse` and takes the result apart.  The contract names the
/// outcome.  Of what the parser makes of a given text nothing is claimed but
/// that the normal form of a URL of the web is settled: `Url` keeps it as an
/// invariant that its text parses to the same URL again.
#[verifier::external_body]
fn parse_text(text: &str) -> (result: Result<PageUrl, String>)
    ensures
        parse_outcome(result) == parsed_url(text@),
        result matches Ok(url) ==> is_settled(url@),
{
    let url = url::Url::parse(text).map_err(|error| error.to_string())?;
    Ok(PageUrl {
        href: String::from(url.as_str()),
        scheme: String::from(url.scheme()),
        host_text: url.host_str().map(String::from),
        host: url.host().map(|host| match host {
            url::Host::Domain(name) => UrlHost::Domain(String::from(name)),
            url::Host::Ipv4(address) => UrlHost::Ipv4(address.octets()),
            url::Host::Ipv6(address) => UrlHost::Ipv6(address.segments()),
        }),
        path: String::from(url.path()),
    })
}

/// What `url::Url::join` makes of a reference in a document at the given URL:
/// the normal form and the scheme of the URL that it refers to.
pub uninterp spec fn joined_url(base: Seq<char>, reference: Seq<char>) -> Option<
    (Seq<char>, Seq<char>),
>;

/// What a reference comes to, as plain values.
pub open spec fn join_outcome(result: Option<(String, String)>) -> Option<(Seq<char>, Seq<char>)> {
    match result {
        Some((href, scheme)) => Some((href@, scheme@)),
        None => None,
    }
}

/// Calls `url::Url::join` on the URL with the normal form `base`.  The contract
/// names the outcome; there is none where either the base or the reference
/// does not parse.
#[verifier::external_body]
fn join_text(base: &str, reference: &str) -> (result: Option<(String, String)>)
    ensures
        join_outcome(result) == joined_url(base@, reference@),
{
    let url = url::Url::parse(base).ok()?.join(reference).ok()?;
    Some((String::from(url.as_str()), String::from(url.scheme())))
}

/// Whether a scheme is one that pages are fetched by.
pub fn fetches_pages(scheme: &str) -> (result: bool)
    ensures
        result == is_web_scheme(scheme@),
{
    same_text(scheme, "http") || same_text(scheme, "https")
}

impl PageUrl {
    /// Parse a URL.
    pub fn parse(text: &str) -> (result: Result<PageUrl, String>)
        ensures
            parse_outcome(result) == parsed_url(text@),
            result matches Ok(url) ==> is_settled(url@),
    {
        parse_text(text)
    }
}

/// Whether an address that names no scheme is taken for one of this machine.
pub open spec fn looks_local(address: Seq<char>) -> bool {
    ||| begins_with(address, "localhost"@)
    ||| begins_with(address, "127."@)
    ||| begins_with(address, "0.0.0.0"@)
    ||| begins_with(address, "["@)
}

/// The URL that an address stands for: the address itself where it names a
/// scheme, else one of this machine by `http` and any other by `https`.
pub open spec fn completed_address(address: Seq<char>) -> Seq<char> {
    if occurs_in(address, "://"@) {
        address
    } else if looks_local(address) {
        "http://"@ + address
    } else {
        "https://"@ + address
    }
}

/// Complete what a user typed to a URL; there is none where nothing was typed.
pub fn complete_address(location: &str) -> (result: Option<String>)
    ensures
        result is None <==> trimmed(location@).len() == 0,
        result matches Some(url) ==> url@ == completed_address(trimmed(location@)),
{
    let address = trim(location);
    if address.as_str().is_empty() {
        return None;
    }
    if contains(address.as_str(), "://") {
        return Some(address);
    }
    let local = starts_with(address.as_str(), "localhost") || starts_with(address.as_str(), "127.")
        || starts_with(address.as_str(), "0.0.0.0") || starts_with(address.as_str(), "[");
    let mut url = if local {
        copy_of("http://")
    } else {
        copy_of("https://")
    };
    url.push_str(address.as_str());
    Some(url)
}

/// What is made of the outcome of parsing a completed address: pages are
/// loaded by `http` and `https` only.
pub open spec fn judged(outcome: Result<UrlParts, Seq<char>>) -> Result<UrlParts, Seq<char>> {
    match outcome {
        Ok(url) => if is_web_scheme(url.scheme) {
            Ok(url)
        } else {
            Err("unsupported URL scheme: "@ + url.scheme)
        },
        Err(message) => Err("invalid address: "@ + message),
    }
}

/// A URL or the message of an error, as plain values.
pub open spec fn address_outcome(result: Result<PageUrl, BackendError>) -> Result<
    UrlParts,
    Seq<char>,
> {
    match result {
        Ok(url) => Ok(url@),
        Err(error) => Err(error.message_text()),
    }
}

/// Decide whether the page at a parsed address can be loaded.
pub fn judge_address(outcome: Result<PageUrl, String>) -> (result: Result<PageUrl, BackendError>)
    ensures
        address_outcome(result) == judged(parse_outcome(outcome)),
        result matches Ok(kept) ==> outcome == Ok::<PageUrl, String>(kept),
{
    match outcome {
        Ok(url) => {
            if fetches_pages(url.scheme.as_str()) {
                return Ok(url);
            }
            let mut message = copy_of("unsupported URL scheme: ");
            message.push_str(url.scheme.as_str());
            Err(BackendError::new(message.as_str()))
        },
        Err(error) => {
            let mut message = copy_of("invalid address: ");
            message.push_str(error.as_str());
            Err(BackendError::new(message.as_str()))
        },
    }
}

/// What a user's address comes to.
pub open spec fn normalized(location: Seq<char>) -> Result<UrlParts, Seq<char>> {
    if trimmed(location).len() == 0 {
        Err("the address is empty"@)
    } else {
        judged(parsed_url(completed_address(trimmed(location))))
    }
}

/// The URL of the page that a user asked for.
pub fn normalize_location(location: &str) -> (result: Result<PageUrl, BackendError>)
    ensures
        address_outcome(result) == normalized(location@),
        result matches Ok(url) ==> is_settled(url@),
        result matches Ok(url) ==> !has_long_encoded_label(url@.host_text->Some_0) ==> normalized(
            url.href@,
        ) == Ok::<UrlParts, Seq<char>>(url@),
{
    match complete_address(location) {
        None => Err(BackendError::new("the address is empty")),
        Some(candidate) => {
            let result = judge_address(parse_text(candidate.as_str()));
            proof {
                if result is Ok && !has_long_encoded_label(result->Ok_0@.host_text->Some_0) {
                    normal_addresses_stay(result->Ok_0@);
                }
            }
            result
        },
    }
}

/// What a module specifier refers to, given what it comes to by itself and as
/// a reference in the importing module.
pub open spec fn module_target(
    alone: Result<UrlParts, Seq<char>>,
    joined: Option<(Seq<char>, Seq<char>)>,
) -> Option<Seq<char>> {
    match alone {
        Ok(url) => if is_web_scheme(url.scheme) {
            Some(url.href)
        } else {
            None
        },
        Err(_) => match joined {
            Some((href, scheme)) => if is_web_scheme(scheme) {
                Some(href)
            } else {
                None
            },
            None => None,
        },
    }
}

/// An optional text, as plain values.
pub open spec fn optional_text(text: Option<String>) -> Option<Seq<char>> {
    match text {
        Some(text) => Some(text@),
        None => None,
    }
}

/// Choose the URL that a module specifier refers to, and keep it only if it can
/// be fetched.
pub fn choose_module_target(
    alone: Result<PageUrl, String>,
    joined: Option<(String, String)>,
) -> (result: Option<String>)
    ensures
        optional_text(result) == module_target(parse_outcome(alone), join_outcome(joined)),
{
    match alone {
        Ok(url) => if fetches_pages(url.scheme.as_str()) {
            Some(url.href)
        } else {
            None
        },
        Err(_) => match joined {
            Some((href, scheme)) => if fetches_pages(scheme.as_str()) {
                Some(href)
            } else {
                None
            },
            None => None,
        },
    }
}

/// Resolve a module specifier against its importing module's URL and keep only
/// what can be fetched over the network.
pub fn resolve_module_url(base: &str, specifier: &str) -> (result: Option<String>)
    ensures
        optional_text(result) == module_target(
            parsed_url(specifier@),
            joined_url(base@, specifier@),
        ),
{
    let alone = parse_text(specifier);
    if alone.is_ok() {
        return choose_module_target(alone, None);
    }
    choose_module_target(alone, join_text(base, specifier))
}

/// Whatever is typed, a page is loaded by `http` or `https` or not at all.
pub proof fn only_web_pages_are_loaded(location: Seq<char>)
    ensures
        normalized(location) matches Ok(url) ==> is_web_scheme(url.scheme),
{
}

/// The normal form of an address is kept: whoever asks for a page by the URL
/// that it is shown under asks for the same page.
pub proof fn normal_addresses_stay(url: UrlParts)
    requires
        is_web_scheme(url.scheme),
        is_settled(url),
        !has_long_encoded_label(url.host_text->Some_0),
    ensures
        normalized(url.href) == Ok::<UrlParts, Seq<char>>(url),
{
    reveal_strlit("://");
    let href = url.href;
    let lead = url.scheme + "://"@;
    let at = url.scheme.len() as int;
    assert(lead[at] == ':');
    assert(href.take(lead.len() as int)[at] == href[at]);
    assert(!is_space(href[0]) && !is_space(href.last()));
    assert(trimmed(href) == href);
    assert(href.subrange(at, at + 3) =~= "://"@) by {
        assert forall|i: int| 0 <= i < 3 implies href.subrange(at, at + 3)[i] == "://"@[i] by {
            assert(href.take(lead.len() as int)[at + i] == lead[at + i]);
        }
    }
    assert(occurs_at(href, "://"@, at));
}

/// White space around an address makes no difference.
pub proof fn surrounding_space_is_ignored(location: Seq<char>)
    ensures
        normalized(trimmed(location)) == normalized(location),
{
    crate::text::trimming_keeps_trimmed_text(location);
}

/// An address that names no scheme is completed by one of the two web schemes,
/// and one that names a scheme is kept.
pub proof fn completed_address_names_a_scheme(address: Seq<char>)
    ensures
        occurs_in(completed_address(address), "://"@),
        occurs_in(address, "://"@) ==> completed_address(address) == address,
{
    reveal_strlit("http://");
    reveal_strlit("https://");
    reveal_strlit("://");
    let completed = completed_address(address);
    if !occurs_in(address, "://"@) {
        let at: int = if looks_local(address) {
            4
        } else {
            5
        };
        assert(completed.subrange(at, at + 3) =~= "://"@);
        assert(occurs_at(completed, "://"@, at));
    }
}

/// Pages are fetched by `http` and `https`, and by nothing else.
pub proof fn web_schemes_are_two(scheme: Seq<char>)
    ensures
        is_web_scheme(scheme) <==> scheme == "http"@ || scheme == "https"@,
{
}

/// What a user types that names no scheme is completed in front and kept
/// otherwise: an address of this machine by `http`, any other by `https`.
pub proof fn addresses_are_completed_in_front(address: Seq<char>, rest: Seq<char>)
    requires
        !exists|head: Seq<char>, tail: Seq<char>| address == #[trigger] (head + "://"@ + tail),
    ensures
        completed_address(address) == "http://"@ + address || completed_address(address)
            == "https://"@ + address,
        address == "localhost"@ + rest || address == "127."@ + rest || address == "0.0.0.0"@ + rest
            || address == "["@ + rest ==> completed_address(address) == "http://"@ + address,
        completed_address(address) == "http://"@ + address ==> exists|tail: Seq<char>|
            #![trigger "["@ + tail]
            address == "localhost"@ + tail || address == "127."@ + tail || address == "0.0.0.0"@
                + tail || address == "["@ + tail,
{
    crate::text::parts_make_the_whole(address, "://"@);
    crate::text::parts_make_the_whole(address, "localhost"@);
    crate::text::parts_make_the_whole(address, "127."@);
    crate::text::parts_make_the_whole(address, "0.0.0.0"@);
    crate::text::parts_make_the_whole(address, "["@);
    reveal_strlit("http://");
    reveal_strlit("https://");
    let plain = "http://"@ + address;
    let secure = "https://"@ + address;
    assert(plain.len() != secure.len());
    if looks_local(address) {
        let tail = if begins_with(address, "localhost"@) {
            choose|tail: Seq<char>| address == #[trigger] ("localhost"@ + tail)
        } else if begins_with(address, "127."@) {
            choose|tail: Seq<char>| address == #[trigger] ("127."@ + tail)
        } else if begins_with(address, "0.0.0.0"@) {
            choose|tail: Seq<char>| address == #[trigger] ("0.0.0.0"@ + tail)
        } else {
            choose|tail: Seq<char>| address == #[trigger] ("["@ + tail)
        };
        assert(("["@ + tail).len() >= 0);
    }
}

/// An address that names a scheme is taken as it stands.
pub proof fn addresses_with_schemes_stand(head: Seq<char>, tail: Seq<char>)
    ensures
        completed_address(head + "://"@ + tail) == head + "://"@ + tail,
{
    crate::text::parts_make_the_whole(head + "://"@ + tail, "://"@);
}

/// An address is loaded exactly if it is not blank, is a URL once it has been
/// completed, and that URL is one of the web; it is loaded as that URL.  The
/// message about any other says what is wrong with it.
pub proof fn addresses_come_to_web_pages(location: Seq<char>)
    ensures
        ({
            let outcome = normalized(location);
            let address = trimmed(location);
            &&& address.len() == 0 ==> outcome == Err::<UrlParts, Seq<char>>(
                "the address is empty"@,
            )
            &&& address.len() > 0 ==> match parsed_url(completed_address(address)) {
                Ok(url) => if url.scheme == "http"@ || url.scheme == "https"@ {
                    outcome == Ok::<UrlParts, Seq<char>>(url)
                } else {
                    outcome == Err::<UrlParts, Seq<char>>("unsupported URL scheme: "@ + url.scheme)
                },
                Err(message) => outcome == Err::<UrlParts, Seq<char>>(
                    "invalid address: "@ + message,
                ),
            }
        }),
{
}

/// A module specifier that is a URL by itself is that URL, and any other is what
/// it comes to as a reference; neither is fetched unless it is of the web.
pub proof fn modules_are_where_they_say(
    alone: Result<UrlParts, Seq<char>>,
    joined: Option<(Seq<char>, Seq<char>)>,
    target: Seq<char>,
)
    ensures
        module_target(alone, joined) == Some(target) <==> {
            ||| alone matches Ok(url) && url.href == target && (url.scheme == "http"@ || url.scheme
                == "https"@)
            ||| alone is Err && (joined matches Some((href, scheme)) && href == target && (scheme
                == "http"@ || scheme == "https"@))
        },
{
}

} // verus!
