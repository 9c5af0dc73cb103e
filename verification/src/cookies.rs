//! One in-memory cookie jar shared by HTTP requests and the scripts of pages.

use crate::location::{
    fetches_pages, is_web_scheme, optional_text, parsed_url, PageUrl, UrlHost, UrlHostParts,
    UrlParts,
};
use crate::text::{begins_with, copy_of, ends_with, occurs_in, same_text, starts_with};
use vstd::prelude::*;

verus! {

/// The hosts that a cookie is for.
#[derive(Debug, PartialEq, Eq)]
pub enum CookieScope {
    /// One host alone.
    HostOnly(String),
    /// A domain with every host under it.
    Suffix(String),
}

/// The hosts that a cookie is for, as plain values.
pub ghost enum ScopeParts {
    HostOnly(Seq<char>),
    Suffix(Seq<char>),
}

impl View for CookieScope {
    type V = ScopeParts;

    open spec fn view(&self) -> ScopeParts {
        match self {
            CookieScope::HostOnly(domain) => ScopeParts::HostOnly(domain@),
            CookieScope::Suffix(domain) => ScopeParts::Suffix(domain@),
        }
    }
}

/// A cookie as it was received, taken apart.
#[derive(Debug, PartialEq, Eq)]
pub struct ParsedCookie {
    pub name: String,
    pub value: String,
    pub http_only: Option<bool>,
    pub secure: Option<bool>,
    /// The `Domain` attribute, where there is one.
    pub domain_attribute: Option<String>,
    /// The `Path` attribute, where there is one.
    pub path_attribute: Option<String>,
    /// The domain that the cookie is for, where there is one.
    pub domain: Option<String>,
    /// Whether the cookie is for that host alone.
    pub host_only: bool,
    pub path: String,
    /// Whether the cookie has a time at which it expires.
    pub persistent: bool,
    /// The `Max-Age` attribute in seconds, where there is one; none is below
    /// zero.
    pub max_age: Option<i64>,
}

/// How long a cookie lasts.
pub ghost enum Lifetime {
    /// For the session: it does not expire by itself.
    Session,
    /// Until a time that the clock may or may not have reached.
    Timed,
    /// Until a time long past: it has expired.
    Over,
}

/// A cookie as it was received, as plain values.
pub ghost struct CookieParts {
    pub name: Seq<char>,
    pub value: Seq<char>,
    pub http_only: bool,
    pub secure: bool,
    pub domain_attribute: Option<Seq<char>>,
    pub path_attribute: Option<Seq<char>>,
    pub scope: Option<ScopeParts>,
    pub path: Seq<char>,
    pub lifetime: Lifetime,
}

impl View for ParsedCookie {
    type V = CookieParts;

    open spec fn view(&self) -> CookieParts {
        CookieParts {
            name: self.name@,
            value: self.value@,
            http_only: self.http_only == Some(true),
            secure: self.secure == Some(true),
            domain_attribute: optional_text(self.domain_attribute),
            path_attribute: optional_text(self.path_attribute),
            scope: match self.domain {
                Some(domain) => Some(
                    if self.host_only {
                        ScopeParts::HostOnly(domain@)
                    } else {
                        ScopeParts::Suffix(domain@)
                    },
                ),
                None => None,
            },
            path: self.path@,
            lifetime: if !self.persistent {
                Lifetime::Session
            } else if self.max_age == Some(0i64) {
                Lifetime::Over
            } else {
                Lifetime::Timed
            },
        }
    }
}

/// The place of a cookie in the jar: its domain, its path and its name.
pub type CookieKey = (Seq<char>, Seq<char>, Seq<char>);

/// What the jar knows of a cookie at its place.
pub ghost struct CookieEntry {
    pub value: Seq<char>,
    pub http_only: bool,
    pub secure: bool,
    pub host_only: bool,
    pub lifetime: Lifetime,
}

/// A cookie that the jar hands out.
#[derive(Debug, PartialEq, Eq)]
pub struct StoredCookie {
    pub domain: String,
    pub path: String,
    pub name: String,
    pub value: String,
    pub http_only: Option<bool>,
}

/// A cookie that the jar hands out, as plain values.
pub ghost struct ShownCookie {
    pub domain: Seq<char>,
    pub path: Seq<char>,
    pub name: Seq<char>,
    pub value: Seq<char>,
    pub http_only: bool,
}

impl View for StoredCookie {
    type V = ShownCookie;

    open spec fn view(&self) -> ShownCookie {
        ShownCookie {
            domain: self.domain@,
            path: self.path@,
            name: self.name@,
            value: self.value@,
            http_only: self.http_only == Some(true),
        }
    }
}

impl ShownCookie {
    /// The place of the cookie in the jar.
    pub open spec fn key(self) -> CookieKey {
        (self.domain, self.path, self.name)
    }
}

/// Cookies as plain values.
pub open spec fn shown_all(cookies: Seq<StoredCookie>) -> Seq<ShownCookie> {
    cookies.map_values(|cookie: StoredCookie| cookie@)
}

/// What is handed out of an entry of the jar.
pub open spec fn shown(key: CookieKey, entry: CookieEntry) -> ShownCookie {
    ShownCookie {
        domain: key.0,
        path: key.1,
        name: key.2,
        value: entry.value,
        http_only: entry.http_only,
    }
}

/// `cookie_store::CookieStore` keeps cookies by domain, path and name.
#[verifier::external_type_specification]
#[verifier::external_body]
pub struct OutsideCookieStore(cookie_store::CookieStore);

/// The cookies in a store, by domain, path and name, with those that have
/// expired since they were stored.
pub uninterp spec fn stored_cookies(store: cookie_store::CookieStore) -> Map<
    CookieKey,
    CookieEntry,
>;

/// A jar without cookies.
pub open spec fn no_cookies() -> Map<CookieKey, CookieEntry> {
    Map::empty()
}

/// Calls `CookieStore::default`, which makes a store without cookies.
#[verifier::external_body]
fn empty_store() -> (result: cookie_store::CookieStore)
    ensures
        stored_cookies(result) == no_cookies(),
{
    cookie_store::CookieStore::default()
}

/// What `cookie_store::Cookie::parse` makes of the text of a cookie that the
/// given URL set; none where it refuses the cookie.
pub uninterp spec fn parsed_cookie(text: Seq<char>, url: Seq<char>) -> Option<CookieParts>;

/// A parsed cookie, as plain values.
pub open spec fn cookie_outcome(result: Option<ParsedCookie>) -> Option<CookieParts> {
    match result {
        Some(cookie) => Some(cookie@),
        None => None,
    }
}

/// Calls `cookie_store::Cookie::parse` and takes the cookie apart; a URL that
/// does not parse sets no cookie.  The contract names the outcome and claims
/// two things of it: a cookie without a `Domain` attribute is for one host
/// alone, and a `Path` attribute that begins with a slash is the path.
#[verifier::external_body]
fn parse_cookie(text: &str, url: &str) -> (result: Option<ParsedCookie>)
    ensures
        cookie_outcome(result) == parsed_cookie(text@, url@),
        result matches Some(cookie) ==> {
            &&& cookie.domain_attribute is None ==> cookie.host_only
            &&& cookie@.path_attribute matches Some(path) ==> begins_with(path, "/"@)
                ==> cookie.path@ == path
        },
{
    let url = url::Url::parse(url).ok()?;
    let cookie = cookie_store::Cookie::parse(String::from(text), &url).ok()?;
    Some(ParsedCookie {
        name: String::from(cookie.name()),
        value: String::from(cookie.value()),
        http_only: cookie.http_only(),
        secure: cookie.secure(),
        domain_attribute: cookie.domain().map(String::from),
        path_attribute: cookie.path().map(String::from),
        domain: cookie.domain.as_cow().map(String::from),
        host_only: matches!(cookie.domain, cookie_store::CookieDomain::HostOnly(_)),
        path: String::from(&cookie.path),
        persistent: cookie.is_persistent(),
        max_age: cookie.max_age().map(|age| age.whole_seconds()),
    })
}

/// The public suffix that the list of `psl` has for a domain; both in UTF-8.
pub uninterp spec fn listed_suffix(domain: Seq<u8>) -> Option<Seq<u8>>;

/// Some bytes, as plain values.
pub open spec fn optional_bytes(bytes: Option<Vec<u8>>) -> Option<Seq<u8>> {
    match bytes {
        Some(bytes) => Some(bytes@),
        None => None,
    }
}

/// Calls `psl::suffix`.  The contract names the outcome.
#[verifier::external_body]
fn suffix_of(domain: &[u8]) -> (result: Option<Vec<u8>>)
    ensures
        optional_bytes(result) == listed_suffix(domain@),
{
    psl::suffix(domain).map(|suffix| suffix.as_bytes().to_vec())
}

/// Whether a domain is a public suffix: one under which anybody can register.
pub open spec fn is_public_suffix(domain: Seq<char>) -> bool {
    listed_suffix(vstd::utf8::encode_utf8(domain)) == Some(vstd::utf8::encode_utf8(domain))
}

fn same_bytes(left: &[u8], right: &[u8]) -> (result: bool)
    ensures
        result == (left@ == right@),
{
    if left.len() != right.len() {
        return false;
    }
    let mut i: usize = 0;
    while i < left.len()
        invariant
            left.len() == right.len(),
            i <= left.len(),
            forall|j: int| 0 <= j < i ==> left@[j] == right@[j],
        decreases left.len() - i,
    {
        if left[i] != right[i] {
            return false;
        }
        i += 1;
    }
    assert(left@ =~= right@);
    true
}

fn is_registry(domain: &str) -> (result: bool)
    ensures
        result == is_public_suffix(domain@),
{
    let bytes = domain.as_bytes();
    match suffix_of(bytes) {
        Some(suffix) => same_bytes(&suffix, bytes),
        None => false,
    }
}

/// Whether what a page sends to a host cannot be read on the way: by `https`,
/// or within this machine.
pub open spec fn is_secure_origin(page: UrlParts) -> bool {
    ||| page.scheme == "https"@
    ||| match page.host {
        Some(UrlHostParts::Domain(name)) => name == "localhost"@,
        Some(UrlHostParts::Ipv4(bytes)) => bytes[0] == 127,
        Some(UrlHostParts::Ipv6(groups)) => groups == seq![
            0u16,
            0u16,
            0u16,
            0u16,
            0u16,
            0u16,
            0u16,
            1u16,
        ],
        None => false,
    }
}

fn secure_origin(url: &PageUrl) -> (result: bool)
    ensures
        result == is_secure_origin(url@),
{
    if same_text(url.scheme.as_str(), "https") {
        return true;
    }
    match &url.host {
        Some(UrlHost::Domain(name)) => same_text(name.as_str(), "localhost"),
        Some(UrlHost::Ipv4(bytes)) => bytes[0] == 127,
        Some(UrlHost::Ipv6(groups)) => {
            let result = groups[0] == 0 && groups[1] == 0 && groups[2] == 0 && groups[3] == 0
                && groups[4] == 0 && groups[5] == 0 && groups[6] == 0 && groups[7] == 1;
            proof {
                let loopback = seq![0u16, 0u16, 0u16, 0u16, 0u16, 0u16, 0u16, 1u16];
                if result {
                    assert(groups@ =~= loopback);
                } else {
                    assert(exists|i: int| 0 <= i < 8 && groups@[i] != loopback[i]);
                }
            }
            result
        },
        None => false,
    }
}

/// The hosts that a received cookie comes to be for, or none where it is
/// refused.  `public_suffix` says whether its domain is a public suffix, and
/// `from_http` whether it came with a response and not from a script.
pub open spec fn admitted(
    page: UrlParts,
    cookie: CookieParts,
    public_suffix: bool,
    from_http: bool,
) -> Option<ScopeParts> {
    let secure_here = is_secure_origin(page);
    if !from_http && cookie.http_only {
        None
    } else if cookie.secure && !secure_here {
        None
    } else if begins_with(cookie.name, "__Secure-"@) && !(cookie.secure && secure_here) {
        None
    } else if begins_with(cookie.name, "__Host-"@) && !(cookie.secure && secure_here
        && cookie.domain_attribute is None && cookie.path_attribute == Some("/"@)) {
        None
    } else {
        match cookie.scope {
            Some(ScopeParts::Suffix(domain)) => if !public_suffix {
                cookie.scope
            } else if page.host_text == Some(domain) {
                Some(ScopeParts::HostOnly(domain))
            } else {
                None
            },
            Some(ScopeParts::HostOnly(_)) | None => cookie.scope,
        }
    }
}

/// What is decided of a cookie, as plain values.
pub open spec fn scope_outcome(scope: Option<CookieScope>) -> Option<ScopeParts> {
    match scope {
        Some(scope) => Some(scope@),
        None => None,
    }
}

/// Decide which hosts a received cookie is for, or refuse it.
pub fn judge_cookie(
    url: &PageUrl,
    cookie: &ParsedCookie,
    public_suffix: bool,
    from_http: bool,
) -> (result: Option<CookieScope>)
    ensures
        scope_outcome(result) == admitted(url@, cookie@, public_suffix, from_http),
{
    let http_only = matches!(cookie.http_only, Some(true));
    if !from_http && http_only {
        return None;
    }
    // Neither a page nor an insecure response can plant a secure cookie; the
    // prefixes of a name promise as much to whoever reads it back.
    let secure_here = secure_origin(url);
    let secure = matches!(cookie.secure, Some(true));
    if secure && !secure_here {
        return None;
    }
    let name = cookie.name.as_str();
    if starts_with(name, "__Secure-") && (!secure || !secure_here) {
        return None;
    }
    if starts_with(name, "__Host-") {
        let whole_host = match &cookie.path_attribute {
            Some(path) => same_text(path.as_str(), "/"),
            None => false,
        };
        if !secure || !secure_here || cookie.domain_attribute.is_some() || !whole_host {
            return None;
        }
    }
    let domain = match &cookie.domain {
        Some(domain) => domain.as_str(),
        None => return None,
    };
    if cookie.host_only {
        return Some(CookieScope::HostOnly(copy_of(domain)));
    }
    if !public_suffix {
        return Some(CookieScope::Suffix(copy_of(domain)));
    }
    let own_host = match &url.host_text {
        Some(host) => same_text(host.as_str(), domain),
        None => false,
    };
    if own_host {
        Some(CookieScope::HostOnly(copy_of(domain)))
    } else {
        None
    }
}

/// Whether the host of a page is among those that a cookie is for: the one
/// host, or the domain with the hosts under it; an IPv4 address is under
/// nothing.
pub open spec fn scope_covers(scope: ScopeParts, page: UrlParts) -> bool {
    match page.host_text {
        Some(host) => match scope {
            ScopeParts::HostOnly(domain) => host == domain,
            ScopeParts::Suffix(domain) => host == domain || (!(page.host matches Some(
                UrlHostParts::Ipv4(_),
            )) && ends_with(host, "."@ + domain)),
        },
        None => false,
    }
}

/// Whether the path of a page is under the path of a cookie.
pub open spec fn path_covers(cookie_path: Seq<char>, page_path: Seq<char>) -> bool {
    &&& begins_with(cookie_path, "/"@)
    &&& begins_with(page_path, cookie_path)
    &&& page_path.len() == cookie_path.len() || cookie_path.last() == '/'
        || page_path[cookie_path.len() as int] == '/'
}

/// The domain of a scope.
pub open spec fn scope_domain(scope: ScopeParts) -> Seq<char> {
    match scope {
        ScopeParts::HostOnly(domain) => domain,
        ScopeParts::Suffix(domain) => domain,
    }
}

/// The place in the jar of a received cookie.
pub open spec fn received_key(cookie: CookieParts, scope: ScopeParts) -> CookieKey {
    (scope_domain(scope), cookie.path, cookie.name)
}

/// What the jar knows of a received cookie.
pub open spec fn received_entry(cookie: CookieParts, scope: ScopeParts) -> CookieEntry {
    CookieEntry {
        value: cookie.value,
        http_only: cookie.http_only,
        secure: cookie.secure,
        host_only: scope is HostOnly,
        lifetime: cookie.lifetime,
    }
}

/// Whether a cookie is refused for the sake of the one that the jar holds at its
/// place: a script leaves an `HttpOnly` cookie alone.  `existing` says whether
/// there is an unexpired cookie, and whether it is `HttpOnly`.
pub fn spares_existing(from_http: bool, existing: Option<Option<bool>>) -> (refused: bool)
    ensures
        refused == (!from_http && existing == Some(Some(true))),
{
    !from_http && matches!(existing, Some(Some(true)))
}

/// What the jar did with a cookie.
#[derive(Clone, Copy, Debug, PartialEq, Eq)]
pub enum StoreAnswer {
    /// It is at a place where there was none.
    Inserted,
    /// It has replaced the cookie at its place.
    Updated,
    /// It had expired, and has made the cookie at its place expire.
    Expired,
    /// Nothing.
    Refused,
}

/// Whether inserting a cookie takes a jar from `before` to `after` and is
/// answered by `answer`.  A cookie for another host is refused.  One for the
/// session is always there afterwards, and one whose lifetime is over never is:
/// it makes the cookie at its place expire, and is refused where there is none
/// that could.  One with a time to expire is taken either way, as the clock has
/// it; and since that time may pass while the jar looks at it, it may be refused
/// whatever is at its place.
pub open spec fn inserts(
    page: UrlParts,
    cookie: CookieParts,
    scope: ScopeParts,
    answer: StoreAnswer,
    before: Map<CookieKey, CookieEntry>,
    after: Map<CookieKey, CookieEntry>,
) -> bool {
    let key = received_key(cookie, scope);
    let entry = received_entry(cookie, scope);
    match answer {
        StoreAnswer::Inserted => {
            &&& scope_covers(scope, page)
            &&& !(cookie.lifetime is Over)
            &&& !before.contains_key(key)
            &&& after == before.insert(key, entry)
        },
        StoreAnswer::Updated => {
            &&& scope_covers(scope, page)
            &&& !(cookie.lifetime is Over)
            &&& before.contains_key(key)
            &&& after == before.insert(key, entry)
        },
        StoreAnswer::Expired => {
            &&& scope_covers(scope, page)
            &&& !(cookie.lifetime is Session)
            &&& before.contains_key(key)
            &&& !(before[key].lifetime is Over)
            &&& after == before.insert(
                key,
                CookieEntry { lifetime: Lifetime::Over, ..before[key] },
            )
        },
        StoreAnswer::Refused => {
            &&& scope_covers(scope, page) ==> !(cookie.lifetime is Session) && (
            cookie.lifetime is Over ==> !(before.contains_key(key)
                && before[key].lifetime is Session))
            &&& after == before
        },
    }
}

/// Whether a URL is that of a page on the web.
pub open spec fn is_web_url(url: Seq<char>) -> bool {
    parsed_url(url) matches Ok(page) && is_web_scheme(page.scheme)
}

/// Calls `CookieStore::insert` with the cookie that `cookie_store::Cookie::parse`
/// makes of the text, for the given hosts, and hands on what the store answers.
/// The contract says what each answer means for the cookies in the store, and
/// which answers are possible.  Whether a cookie with a time to expire has
/// expired is for the clock to say and left open; but `Max-Age=0`, like being
/// made to expire, puts that time at the beginning of 1970, and the clock is
/// taken to be past it.
#[verifier::external_body]
fn insert_cookie(
    store: &mut cookie_store::CookieStore,
    text: &str,
    url: &str,
    scope: &CookieScope,
) -> (answer: StoreAnswer)
    requires
        is_web_url(url@),
        parsed_cookie(text@, url@) is Some,
    ensures
        inserts(
            parsed_url(url@)->Ok_0,
            parsed_cookie(text@, url@)->Some_0,
            scope@,
            answer,
            stored_cookies(*old(store)),
            stored_cookies(*final(store)),
        ),
{
    let url = url::Url::parse(url).unwrap();
    let mut cookie = cookie_store::Cookie::parse(String::from(text), &url).unwrap();
    cookie.domain = match scope {
        CookieScope::HostOnly(host) => cookie_store::CookieDomain::HostOnly(host.clone()),
        CookieScope::Suffix(suffix) => cookie_store::CookieDomain::Suffix(suffix.clone()),
    };
    match store.insert(cookie, &url) {
        Ok(cookie_store::StoreAction::Inserted) => StoreAnswer::Inserted,
        Ok(cookie_store::StoreAction::UpdatedExisting) => StoreAnswer::Updated,
        Ok(cookie_store::StoreAction::ExpiredExisting) => StoreAnswer::Expired,
        Err(_) => StoreAnswer::Refused,
    }
}

/// Calls `CookieStore::get`, which finds the cookie at a place unless it has
/// expired, and says whether it is `HttpOnly`.  One for the session is always
/// found, and one whose lifetime is over never, the clock being past 1970; of
/// one with a time to expire it is left open.
#[verifier::external_body]
fn find_http_only(
    store: &cookie_store::CookieStore,
    domain: &str,
    path: &str,
    name: &str,
) -> (result: Option<Option<bool>>)
    ensures
        result matches Some(http_only) ==> {
            &&& stored_cookies(*store).contains_key((domain@, path@, name@))
            &&& !(stored_cookies(*store)[(domain@, path@, name@)].lifetime is Over)
            &&& stored_cookies(*store)[(domain@, path@, name@)].http_only == (http_only == Some(
                true,
            ))
        },
        result is None ==> {
            ||| !stored_cookies(*store).contains_key((domain@, path@, name@))
            ||| !(stored_cookies(*store)[(domain@, path@, name@)].lifetime is Session)
        },
{
    store.get(domain, path, name).map(|cookie| cookie.http_only())
}

/// Whether `CookieStore::matches` looks among the cookies of a domain for a
/// request to the given URL.  It goes by the ASCII form of the domain.
pub uninterp spec fn looks_under(domain: Seq<char>, url: Seq<char>) -> bool;

/// Whether a domain is its own ASCII form: it is written in small letters,
/// digits, hyphens and single dots between them, and nothing in it is encoded.
pub open spec fn is_plain_domain(domain: Seq<char>) -> bool {
    &&& domain.len() > 0 && domain[0] != '.' && domain.last() != '.'
    &&& !occurs_in(domain, ".."@)
    &&& !occurs_in(domain, "xn--"@)
    &&& forall|i: int|
        0 <= i < domain.len() ==> {
            let c = #[trigger] domain[i];
            'a' <= c <= 'z' || '0' <= c <= '9' || c == '-' || c == '.'
        }
}

/// The hosts that a cookie in the jar is for.
pub open spec fn entry_scope(key: CookieKey, entry: CookieEntry) -> ScopeParts {
    if entry.host_only {
        ScopeParts::HostOnly(key.0)
    } else {
        ScopeParts::Suffix(key.0)
    }
}

/// Whether a cookie of the jar goes with a request to the given URL, as long as
/// it has not expired.
pub open spec fn reaches(
    url: Seq<char>,
    page: UrlParts,
    key: CookieKey,
    entry: CookieEntry,
) -> bool {
    &&& is_plain_domain(key.0) || looks_under(key.0, url)
    &&& scope_covers(entry_scope(key, entry), page)
    &&& path_covers(key.1, page.path)
    &&& entry.secure ==> is_secure_origin(page)
}

/// Whether `HttpOnly` cookies go to a page: they go by every scheme that begins
/// like `http`.
pub open spec fn takes_http_only(page: UrlParts) -> bool {
    is_web_scheme(page.scheme) || begins_with(page.scheme, "http"@)
}

/// Whether it can be told that the host of a page is no address, or is the
/// domain itself.  Off the web the host is any text, and one that ends in a
/// digit may read as an address, which is under nothing.
pub open spec fn host_is_plain(page: UrlParts, domain: Seq<char>) -> bool {
    ||| is_web_scheme(page.scheme)
    ||| page.host_text matches Some(host) && (host == domain || !('0' <= host.last() <= '9'))
}

/// Whether a list holds cookies of the jar that go with a request to the given
/// URL: each at most once, all of those for the session, as far as the host is
/// plain, and none whose lifetime is over.
pub open spec fn is_selection(
    jar: Map<CookieKey, CookieEntry>,
    url: Seq<char>,
    page: UrlParts,
    listed: Seq<ShownCookie>,
) -> bool {
    &&& listed.no_duplicates()
    &&& forall|cookie: ShownCookie| #[trigger]
        listed.contains(cookie) ==> {
            &&& jar.contains_key(cookie.key())
            &&& shown(cookie.key(), jar[cookie.key()]) == cookie
            &&& !(jar[cookie.key()].lifetime is Over)
            &&& reaches(url, page, cookie.key(), jar[cookie.key()])
            &&& cookie.http_only ==> takes_http_only(page)
        }
    &&& forall|key: CookieKey| #[trigger]
        jar.contains_key(key) && jar[key].lifetime is Session && reaches(url, page, key, jar[key])
            && (jar[key].http_only ==> takes_http_only(page)) && host_is_plain(page, key.0)
            ==> listed.contains(shown(key, jar[key]))
}

/// Whether a list of cookies may be offered for the given URL.
pub open spec fn offers(
    jar: Map<CookieKey, CookieEntry>,
    url: Seq<char>,
    listed: Seq<ShownCookie>,
) -> bool {
    match parsed_url(url) {
        Ok(page) => is_selection(jar, url, page, listed),
        Err(_) => listed.len() == 0,
    }
}

/// Calls `CookieStore::matches`; there is nothing where the URL does not parse.
/// The contract says which cookies come out: those that have not expired and
/// are for the URL by their domain, their path and their security.  It leaves
/// open in what order, since the store walks hash maps, and whether a cookie
/// with a time to expire has expired; nor does it say, for a URL off the web
/// whose host ends in a digit, that all cookies of the domains above the host
/// come out, since the host may be an address.  The store looks at the cookies
/// of a domain only if the ASCII form of the domain is that of the host or one
/// that the host is under; a plain domain is its own ASCII form, and of others
/// the contract names the outcome.
#[verifier::external_body]
fn matching_cookies(store: &cookie_store::CookieStore, url: &str) -> (result: Vec<StoredCookie>)
    ensures
        offers(stored_cookies(*store), url@, shown_all(result@)),
        forall|i: int| 0 <= i < result.len() ==> looks_under(#[trigger] result[i].domain@, url@),
{
    let Ok(url) = url::Url::parse(url) else { return Vec::new() };
    store.matches(&url).into_iter().map(|cookie| StoredCookie {
        domain: String::from(&cookie.domain),
        path: String::from(&cookie.path),
        name: String::from(cookie.name()),
        value: String::from(cookie.value()),
        http_only: cookie.http_only(),
    }).collect()
}

/// The text of a cookie in a request.
pub open spec fn pair_text(name: Seq<char>, value: Seq<char>) -> Seq<char> {
    name + "="@ + value
}

/// Names and values, as plain values.
pub open spec fn pairs_of(pairs: Seq<(String, String)>) -> Seq<(Seq<char>, Seq<char>)> {
    pairs.map_values(|pair: (String, String)| (pair.0@, pair.1@))
}

/// The names and values of cookies.
pub open spec fn request_pairs(listed: Seq<ShownCookie>) -> Seq<(Seq<char>, Seq<char>)> {
    listed.map_values(|cookie: ShownCookie| (cookie.name, cookie.value))
}

/// Whether names and values may be offered for the given URL: they are those of
/// cookies that may be.
pub open spec fn offers_pairs(
    jar: Map<CookieKey, CookieEntry>,
    url: Seq<char>,
    pairs: Seq<(Seq<char>, Seq<char>)>,
) -> bool {
    exists|listed: Seq<ShownCookie>| #[trigger]
        offers(jar, url, listed) && pairs == request_pairs(listed)
}

/// Calls `CookieStore::get_request_values`, which gives the names and values of
/// what `CookieStore::matches` gives; there is nothing where the URL does not
/// parse.
#[verifier::external_body]
fn request_values(store: &cookie_store::CookieStore, url: &str) -> (result: Vec<(String, String)>)
    ensures
        offers_pairs(stored_cookies(*store), url@, pairs_of(result@)),
{
    let Ok(url) = url::Url::parse(url) else { return Vec::new() };
    store
        .get_request_values(&url)
        .map(|(name, value)| (String::from(name), String::from(value)))
        .collect()
}

/// Whether a text can stand in a header: it holds no control character but the
/// tab, of those in ASCII.
pub open spec fn fits_header(text: Seq<char>) -> bool {
    forall|i: int| 0 <= i < text.len() ==> is_header_char(#[trigger] text[i])
}

/// Whether a character can stand in a header.
pub open spec fn is_header_char(c: char) -> bool {
    c == '\t' || (c >= ' ' && c != '\u{7f}')
}

/// Calls `HeaderValue::from_str` of the `http` crate, which takes a text whose
/// UTF-8 bytes are each a tab or at least 32 and not 127.
#[verifier::external_body]
fn is_header_value(text: &str) -> (result: bool)
    ensures
        result == fits_header(text@),
{
    reqwest::header::HeaderValue::from_str(text).is_ok()
}

/// Names and values as they stand in a request, one after the other.
pub open spec fn joined_pairs(pairs: Seq<(Seq<char>, Seq<char>)>) -> Seq<char>
    decreases pairs.len(),
{
    if pairs.len() == 0 {
        Seq::empty()
    } else {
        let last = pair_text(pairs.last().0, pairs.last().1);
        if pairs.len() == 1 {
            last
        } else {
            joined_pairs(pairs.drop_last()) + "; "@ + last
        }
    }
}

/// Write names and values as they stand in a request.
fn join_pairs(pairs: &Vec<(String, String)>) -> (result: String)
    ensures
        result@ == joined_pairs(pairs_of(pairs@)),
{
    let mut result = String::new();
    let mut i: usize = 0;
    while i < pairs.len()
        invariant
            i <= pairs.len(),
            result@ == joined_pairs(pairs_of(pairs@).take(i as int)),
        decreases pairs.len() - i,
    {
        let ghost plain = pairs_of(pairs@);
        assert(plain.take(i + 1).drop_last() =~= plain.take(i as int));
        if i > 0 {
            result.push_str("; ");
        }
        let ghost lead = result@;
        result.push_str(pairs[i].0.as_str());
        result.push_str("=");
        result.push_str(pairs[i].1.as_str());
        assert(result@ =~= lead + pair_text(plain[i as int].0, plain[i as int].1));
        i += 1;
    }
    assert(pairs_of(pairs@).take(i as int) =~= pairs_of(pairs@));
    result
}

/// The cookies that scripts may see, in the same order.
pub open spec fn visible(listed: Seq<ShownCookie>) -> Seq<ShownCookie>
    decreases listed.len(),
{
    if listed.len() == 0 {
        listed
    } else if listed.last().http_only {
        visible(listed.drop_last())
    } else {
        visible(listed.drop_last()).push(listed.last())
    }
}

/// What scripts read of a list of cookies.
pub open spec fn script_text(listed: Seq<ShownCookie>) -> Seq<char> {
    joined_pairs(request_pairs(visible(listed)))
}

/// The length of a path in UTF-8.
pub open spec fn path_length(cookie: ShownCookie) -> int {
    vstd::utf8::encode_utf8(cookie.path).len() as int
}

/// Whether cookies with longer paths come first.
pub open spec fn longest_paths_first(listed: Seq<ShownCookie>) -> bool {
    forall|i: int, j: int|
        0 <= i < j < listed.len() ==> path_length(listed[i]) >= path_length(listed[j])
}

/// What may be offered may be offered in any order.
proof fn order_is_free(
    jar: Map<CookieKey, CookieEntry>,
    url: Seq<char>,
    listed: Seq<ShownCookie>,
    sorted: Seq<ShownCookie>,
)
    requires
        offers(jar, url, listed),
        sorted.to_multiset() == listed.to_multiset(),
    ensures
        offers(jar, url, sorted),
{
    broadcast use vstd::seq_lib::group_to_multiset_ensures;

    assert forall|cookie: ShownCookie| sorted.contains(cookie) == listed.contains(cookie) by {
        vstd::seq_lib::to_multiset_contains(sorted, cookie);
        vstd::seq_lib::to_multiset_contains(listed, cookie);
    }
    assert(sorted.len() == sorted.to_multiset().len());
    assert(listed.len() == listed.to_multiset().len());
    match parsed_url(url) {
        Ok(_) => {
            listed.lemma_multiset_has_no_duplicates();
            sorted.lemma_multiset_has_no_duplicates_conv();
        },
        Err(_) => {},
    }
}

/// Those of some cookies whose paths have the given length, in their order.
pub open spec fn with_path_length(listed: Seq<ShownCookie>, length: int) -> Seq<ShownCookie> {
    listed.filter(|cookie: ShownCookie| path_length(cookie) == length)
}

/// Where a cookie is put among others behind all those with longer paths and
/// before the rest, it comes first among those whose paths are as long.
proof fn insertion_is_stable(listed: Seq<ShownCookie>, at: int, cookie: ShownCookie, length: int)
    requires
        0 <= at <= listed.len(),
        forall|i: int| 0 <= i < at ==> path_length(#[trigger] listed[i]) > path_length(cookie),
    ensures
        with_path_length(listed.insert(at, cookie), length) == with_path_length(
            seq![cookie],
            length,
        ) + with_path_length(listed, length),
{
    let wanted = |other: ShownCookie| path_length(other) == length;
    let front = listed.take(at);
    let back = listed.skip(at);
    assert(listed =~= front + back);
    assert(listed.insert(at, cookie) =~= front + seq![cookie] + back);
    Seq::filter_distributes_over_add(front, back, wanted);
    Seq::filter_distributes_over_add(front, seq![cookie], wanted);
    Seq::filter_distributes_over_add(front + seq![cookie], back, wanted);
    if length == path_length(cookie) {
        assert(front.filter(wanted).len() == 0) by {
            if front.filter(wanted).len() > 0 {
                let other = front.filter(wanted)[0];
                front.lemma_filter_contains_rev(wanted, other);
            }
        }
        assert(front.filter(wanted) =~= Seq::empty());
    } else {
        assert(seq![cookie].filter(wanted).len() == 0) by {
            if seq![cookie].filter(wanted).len() > 0 {
                let other = seq![cookie].filter(wanted)[0];
                seq![cookie].lemma_filter_contains_rev(wanted, other);
                seq![cookie].lemma_filter_pred(wanted, 0);
            }
        }
        assert(seq![cookie].filter(wanted) =~= Seq::empty());
    }
    assert(listed.insert(at, cookie).filter(wanted) =~= seq![cookie].filter(wanted) + listed.filter(
        wanted,
    ));
}

/// Put cookies with longer paths first, and keep the order of those with paths
/// of the same length.
fn sort_by_path(cookies: Vec<StoredCookie>) -> (result: Vec<StoredCookie>)
    ensures
        longest_paths_first(shown_all(result@)),
        shown_all(result@).to_multiset() == shown_all(cookies@).to_multiset(),
        forall|length: int| #[trigger]
            with_path_length(shown_all(result@), length) == with_path_length(
                shown_all(cookies@),
                length,
            ),
{
    broadcast use vstd::seq_lib::group_to_multiset_ensures;

    let mut rest = cookies;
    let mut result: Vec<StoredCookie> = Vec::new();
    assert(shown_all(result@) =~= Seq::empty());
    assert(shown_all(result@).to_multiset() =~= vstd::multiset::Multiset::empty());
    assert forall|length: int|
        with_path_length(shown_all(rest@), length) + #[trigger] with_path_length(
            shown_all(result@),
            length,
        ) == with_path_length(shown_all(cookies@), length) by {
        reveal(Seq::filter);
        assert(with_path_length(shown_all(result@), length) =~= Seq::empty());
    }
    let mut left: usize = rest.len();
    while left > 0
        invariant
            left == rest.len(),
            longest_paths_first(shown_all(result@)),
            shown_all(result@).to_multiset().add(shown_all(rest@).to_multiset()) == shown_all(
                cookies@,
            ).to_multiset(),
            forall|length: int|
                with_path_length(shown_all(rest@), length) + #[trigger] with_path_length(
                    shown_all(result@),
                    length,
                ) == with_path_length(shown_all(cookies@), length),
        decreases left,
    {
        let ghost taken_from = shown_all(rest@);
        let cookie = rest.remove(left - 1);
        left -= 1;
        let length: usize = cookie.path.as_str().as_bytes().len();
        let mut at: usize = 0;
        while at < result.len() && result[at].path.as_str().as_bytes().len() > length
            invariant
                at <= result.len(),
                length == path_length(cookie@),
                forall|i: int|
                    0 <= i < at ==> path_length(#[trigger] shown_all(result@)[i]) > length,
            decreases result.len() - at,
        {
            assert(shown_all(result@)[at as int] == result@[at as int]@);
            at += 1;
        }
        let ghost before = shown_all(result@);
        proof {
            if at < before.len() {
                assert(before[at as int] == result@[at as int]@);
            }
        }
        result.insert(at, cookie);
        proof {
            assert(shown_all(result@) =~= before.insert(at as int, cookie@));
            vstd::seq_lib::to_multiset_insert(before, at as int, cookie@);
            assert(taken_from.remove(left as int) =~= shown_all(rest@));
            vstd::seq_lib::to_multiset_remove(taken_from, left as int);
            assert(taken_from[left as int] == cookie@);
            vstd::seq_lib::to_multiset_contains(taken_from, cookie@);
            assert(shown_all(result@).to_multiset().add(shown_all(rest@).to_multiset())
                =~= before.to_multiset().add(taken_from.to_multiset()));
            assert forall|length: int|
                with_path_length(shown_all(rest@), length) + #[trigger] with_path_length(
                    shown_all(result@),
                    length,
                ) == with_path_length(shown_all(cookies@), length) by {
                let wanted = |other: ShownCookie| path_length(other) == length;
                insertion_is_stable(before, at as int, cookie@, length);
                assert(taken_from =~= shown_all(rest@) + seq![cookie@]);
                Seq::filter_distributes_over_add(shown_all(rest@), seq![cookie@], wanted);
                assert(with_path_length(taken_from, length) + with_path_length(before, length)
                    == with_path_length(shown_all(cookies@), length));
                assert(with_path_length(shown_all(rest@), length) + with_path_length(
                    shown_all(result@),
                    length,
                ) =~= with_path_length(taken_from, length) + with_path_length(before, length));
            }
        }
    }
    assert(shown_all(rest@) =~= Seq::empty());
    assert(shown_all(rest@).to_multiset() =~= vstd::multiset::Multiset::empty());
    assert(shown_all(result@).to_multiset() =~= shown_all(cookies@).to_multiset());
    assert forall|length: int| #[trigger]
        with_path_length(shown_all(result@), length) == with_path_length(
            shown_all(cookies@),
            length,
        ) by {
        reveal(Seq::filter);
        assert(with_path_length(shown_all(rest@), length) =~= Seq::empty());
        assert(with_path_length(shown_all(rest@), length) + with_path_length(
            shown_all(result@),
            length,
        ) =~= with_path_length(shown_all(result@), length));
    }
    result
}

/// What of a list of cookies a script may read, as names and values.
fn visible_pairs(cookies: &Vec<StoredCookie>) -> (result: Vec<(String, String)>)
    ensures
        pairs_of(result@) == request_pairs(visible(shown_all(cookies@))),
{
    let mut result: Vec<(String, String)> = Vec::new();
    let mut i: usize = 0;
    assert(pairs_of(result@) =~= request_pairs(visible(shown_all(cookies@).take(0))));
    while i < cookies.len()
        invariant
            i <= cookies.len(),
            pairs_of(result@) == request_pairs(visible(shown_all(cookies@).take(i as int))),
        decreases cookies.len() - i,
    {
        let ghost plain = shown_all(cookies@);
        assert(plain.take(i + 1).drop_last() =~= plain.take(i as int));
        assert(plain[i as int] == cookies@[i as int]@);
        if !matches!(cookies[i].http_only, Some(true)) {
            let ghost before = pairs_of(result@);
            result.push((copy_of(cookies[i].name.as_str()), copy_of(cookies[i].value.as_str())));
            assert(pairs_of(result@) =~= before.push((plain[i as int].name, plain[i as int].value)));
            assert(request_pairs(visible(plain.take(i + 1))) =~= request_pairs(
                visible(plain.take(i as int)),
            ).push((plain[i as int].name, plain[i as int].value)));
        }
        i += 1;
    }
    assert(shown_all(cookies@).take(i as int) =~= shown_all(cookies@));
    result
}

/// Whether a received cookie is for all hosts under a public suffix.
pub open spec fn is_for_registry(cookie: CookieParts) -> bool {
    cookie.scope matches Some(ScopeParts::Suffix(domain)) && is_public_suffix(domain)
}

/// Whether a set holds the places of the cookies that have not expired, as far
/// as that can be told without the clock: those for the session are among them,
/// and those whose lifetime is over are not.
pub open spec fn is_live_set(jar: Map<CookieKey, CookieEntry>, live: Set<CookieKey>) -> bool {
    &&& forall|key: CookieKey| #[trigger]
        live.contains(key) ==> jar.contains_key(key) && !(jar[key].lifetime is Over)
    &&& forall|key: CookieKey| #[trigger]
        jar.contains_key(key) && jar[key].lifetime is Session ==> live.contains(key)
}

/// The places of the cookies for the session.
pub open spec fn sessions(jar: Map<CookieKey, CookieEntry>) -> Set<CookieKey> {
    Set::new(|key: CookieKey| jar.contains_key(key) && jar[key].lifetime is Session)
}

/// Whether a cookie that the page at `url` sets takes the jar from `before` to
/// `after`, where `live` holds the places of the cookies that have not expired
/// and `answer` is what the jar says, if it is asked at all to take the cookie.
/// For a script it is not asked where there is an `HttpOnly` cookie in the
/// place, unless that cookie has expired.
pub open spec fn stores_with(
    url: Seq<char>,
    text: Seq<char>,
    from_http: bool,
    live: Set<CookieKey>,
    answer: Option<StoreAnswer>,
    before: Map<CookieKey, CookieEntry>,
    after: Map<CookieKey, CookieEntry>,
) -> bool {
    match (parsed_url(url), parsed_cookie(text, url)) {
        (Ok(page), Some(cookie)) => match admitted(
            page,
            cookie,
            is_for_registry(cookie),
            from_http,
        ) {
            Some(scope) => {
                let key = received_key(cookie, scope);
                let guarded = !from_http && live.contains(key) && before[key].http_only;
                if guarded || !is_web_scheme(page.scheme) {
                    answer is None && after == before
                } else {
                    answer matches Some(given) && inserts(
                        page,
                        cookie,
                        scope,
                        given,
                        before,
                        after,
                    )
                }
            },
            None => answer is None && after == before,
        },
        _ => answer is None && after == before,
    }
}

/// Whether a cookie that the page at `url` sets takes the jar from `before` to
/// `after`: there are a set of unexpired cookies and an answer by which it does.
pub open spec fn stores(
    url: Seq<char>,
    text: Seq<char>,
    from_http: bool,
    before: Map<CookieKey, CookieEntry>,
    after: Map<CookieKey, CookieEntry>,
) -> bool {
    exists|live: Set<CookieKey>, answer: Option<StoreAnswer>|
        is_live_set(before, live) && #[trigger] stores_with(
            url,
            text,
            from_http,
            live,
            answer,
            before,
            after,
        )
}

/// Whether the cookies that a response from `url` sets, one after the other,
/// take the jar from `before` to `after`.
pub open spec fn stores_all(
    url: Seq<char>,
    texts: Seq<String>,
    before: Map<CookieKey, CookieEntry>,
    after: Map<CookieKey, CookieEntry>,
) -> bool
    decreases texts.len(),
{
    if texts.len() == 0 {
        after == before
    } else {
        exists|between: Map<CookieKey, CookieEntry>|
            stores_all(url, texts.drop_last(), before, between) && #[trigger] stores(
                url,
                texts.last()@,
                true,
                between,
                after,
            )
    }
}

/// The `HttpOnly` cookies at the given places.
pub open spec fn hidden_cookies(
    jar: Map<CookieKey, CookieEntry>,
    places: Set<CookieKey>,
) -> Map<CookieKey, CookieEntry> {
    jar.restrict(Set::new(|key: CookieKey| places.contains(key) && jar[key].http_only))
}

/// Whether the step from `before` to `after` spares the `HttpOnly` cookies, where
/// `live` holds the places of the cookies that have not expired.  Those that have
/// not expired are still the same; no cookie has become `HttpOnly`, nor has one
/// that is another value; and one place has changed at most.
pub open spec fn spares_http_only(
    live: Set<CookieKey>,
    before: Map<CookieKey, CookieEntry>,
    after: Map<CookieKey, CookieEntry>,
) -> bool {
    &&& hidden_cookies(after, live) == hidden_cookies(before, live)
    &&& forall|key: CookieKey| #[trigger]
        after.contains_key(key) && after[key].http_only ==> before.contains_key(key)
            && before[key].http_only && before[key].value == after[key].value
    &&& after == before || exists|key: CookieKey| #[trigger]
        after.contains_key(key) && after == before.insert(key, after[key])
}

/// What every cookie in the jar keeps: the promises of the two prefixes of a
/// name, and that no cookie is for all hosts under a public suffix.
pub open spec fn keeps_promises(jar: Map<CookieKey, CookieEntry>) -> bool {
    forall|key: CookieKey| #[trigger]
        jar.contains_key(key) ==> {
            &&& begins_with(key.2, "__Secure-"@) ==> jar[key].secure
            &&& begins_with(key.2, "__Host-"@) ==> jar[key].secure && jar[key].host_only && key.1
                == "/"@
            &&& !jar[key].host_only ==> !is_public_suffix(key.0)
        }
}

/// The cookies of the browser.  Pages are told by the text of their URLs; where
/// that does not parse, there are no cookies, and none is taken.
pub struct BrowserCookies {
    store: cookie_store::CookieStore,
}

impl Default for BrowserCookies {
    fn default() -> (result: BrowserCookies)
        ensures
            result@ == no_cookies(),
            keeps_promises(result@),
    {
        BrowserCookies { store: empty_store() }
    }
}

impl View for BrowserCookies {
    type V = Map<CookieKey, CookieEntry>;

    closed spec fn view(&self) -> Map<CookieKey, CookieEntry> {
        stored_cookies(self.store)
    }
}

impl BrowserCookies {
    /// What a script of the page at `url` reads: the cookies for the page, but
    /// for those that are `HttpOnly`, with longer paths first.
    pub fn document_cookies(&self, url: &str) -> (result: String)
        ensures
            !is_web_url(url@) ==> result@ == Seq::<char>::empty(),
            is_web_url(url@) ==> exists|listed: Seq<ShownCookie>|
                #![trigger script_text(listed)]
                {
                    &&& is_selection(self@, url@, parsed_url(url@)->Ok_0, listed)
                    &&& longest_paths_first(listed)
                    &&& result@ == script_text(listed)
                },
    {
        match PageUrl::parse(url) {
            Ok(page) => if !fetches_pages(page.scheme.as_str()) {
                return String::new();
            },
            Err(_) => return String::new(),
        }
        let cookies = matching_cookies(&self.store, url);
        let ghost found = shown_all(cookies@);
        let sorted = sort_by_path(cookies);
        let pairs = visible_pairs(&sorted);
        let result = join_pairs(&pairs);
        proof {
            let listed = shown_all(sorted@);
            order_is_free(self@, url@, found, listed);
            assert(result@ == script_text(listed));
        }
        result
    }

    /// Let a script of the page at `url` set a cookie.
    pub fn set_document_cookie(&mut self, url: &str, text: &str)
        ensures
            stores(url@, text@, false, old(self)@, final(self)@),
            keeps_promises(old(self)@) ==> keeps_promises(final(self)@),
            exists|live: Set<CookieKey>| #[trigger]
                is_live_set(old(self)@, live) && spares_http_only(live, old(self)@, final(self)@),
            !is_web_url(url@) || parsed_cookie(text@, url@) is None ==> final(self)@ == old(self)@,
    {
        let answer = self.store(url, text, false);
        proof {
            let live = choose|live: Set<CookieKey>|
                is_live_set(old(self)@, live) && #[trigger] stores_with(
                    url@,
                    text@,
                    false,
                    live,
                    answer,
                    old(self)@,
                    self@,
                );
            scripts_leave_http_only_cookies_alone(url@, text@, live, answer, old(self)@, self@);
        }
    }

    /// Let a page set a cookie; returns what the jar answered, or nothing where
    /// it was not asked.
    fn store(&mut self, url: &str, text: &str, from_http: bool) -> (answer: Option<StoreAnswer>)
        ensures
            exists|live: Set<CookieKey>|
                is_live_set(old(self)@, live) && #[trigger] stores_with(
                    url@,
                    text@,
                    from_http,
                    live,
                    answer,
                    old(self)@,
                    final(self)@,
                ),
            keeps_promises(old(self)@) ==> keeps_promises(final(self)@),
    {
        let ghost before = self@;
        let ghost mut live = sessions(before);
        let page = match PageUrl::parse(url) {
            Ok(page) => page,
            Err(_) => {
                assert(stores_with(url@, text@, from_http, live, None, before, self@));
                return None;
            },
        };
        if !fetches_pages(page.scheme.as_str()) {
            assert(stores_with(url@, text@, from_http, live, None, before, self@));
            return None;
        }
        let cookie = match parse_cookie(text, url) {
            Some(cookie) => cookie,
            None => {
                assert(stores_with(url@, text@, from_http, live, None, before, self@));
                return None;
            },
        };
        let public_suffix = match &cookie.domain {
            Some(domain) => !cookie.host_only && is_registry(domain.as_str()),
            None => false,
        };
        let scope = match judge_cookie(&page, &cookie, public_suffix, from_http) {
            Some(scope) => scope,
            None => {
                assert(stores_with(url@, text@, from_http, live, None, before, self@));
                return None;
            },
        };
        let domain = match &scope {
            CookieScope::HostOnly(domain) => domain,
            CookieScope::Suffix(domain) => domain,
        };
        let existing = if from_http {
            None
        } else {
            find_http_only(
                &self.store,
                domain.as_str(),
                cookie.path.as_str(),
                cookie.name.as_str(),
            )
        };
        proof {
            if existing is Some {
                live = live.insert(received_key(cookie@, scope@));
            }
        }
        if spares_existing(from_http, existing) {
            assert(stores_with(url@, text@, from_http, live, None, before, self@));
            return None;
        }
        let answer = insert_cookie(&mut self.store, text, url, &scope);
        proof {
            assert("/"@.take("/"@.len() as int) =~= "/"@);
            promises_are_kept(
                page@,
                cookie@,
                scope@,
                public_suffix,
                from_http,
                answer,
                before,
                self@,
            );
            assert(stores_with(url@, text@, from_http, live, Some(answer), before, self@));
        }
        Some(answer)
    }

    /// Take the cookies that a response from `url` sets, in their order.
    pub fn set_cookies(&mut self, url: &str, texts: &Vec<String>)
        ensures
            stores_all(url@, texts@, old(self)@, final(self)@),
            keeps_promises(old(self)@) ==> keeps_promises(final(self)@),
    {
        let mut i: usize = 0;
        while i < texts.len()
            invariant
                i <= texts.len(),
                stores_all(url@, texts@.take(i as int), old(self)@, self@),
                keeps_promises(old(self)@) ==> keeps_promises(self@),
            decreases texts.len() - i,
        {
            let ghost between = self@;
            self.store(url, texts[i].as_str(), true);
            assert(texts@.take(i + 1).drop_last() =~= texts@.take(i as int));
            assert(stores(url@, texts@.take(i + 1).last()@, true, between, self@));
            assert(stores_all(url@, texts@.take(i + 1).drop_last(), old(self)@, between));
            i += 1;
        }
        assert(texts@.take(i as int) =~= texts@);
    }

    /// The cookies that go with a request to `url`, as they stand in its
    /// header; none where there are none, or where they cannot stand there.
    pub fn cookies(&self, url: &str) -> (result: Option<String>)
        ensures
            exists|pairs: Seq<(Seq<char>, Seq<char>)>|
                #![trigger joined_pairs(pairs)]
                {
                    &&& offers_pairs(self@, url@, pairs)
                    &&& optional_text(result) == if pairs.len() > 0 && fits_header(
                        joined_pairs(pairs),
                    ) {
                        Some(joined_pairs(pairs))
                    } else {
                        None
                    }
                },
    {
        let pairs = request_values(&self.store, url);
        let text = join_pairs(&pairs);
        let ghost plain = pairs_of(pairs@);
        proof {
            reveal_strlit("=");
            if plain.len() > 0 {
                assert(pair_text(plain.last().0, plain.last().1).len() > 0);
            }
            assert(joined_pairs(plain).len() == 0 <==> plain.len() == 0);
        }
        if text.as_str().is_empty() {
            None
        } else if is_header_value(text.as_str()) {
            Some(text)
        } else {
            None
        }
    }
}

proof fn promises_are_kept(
    page: UrlParts,
    cookie: CookieParts,
    scope: ScopeParts,
    public_suffix: bool,
    from_http: bool,
    answer: StoreAnswer,
    before: Map<CookieKey, CookieEntry>,
    after: Map<CookieKey, CookieEntry>,
)
    requires
        admitted(page, cookie, public_suffix, from_http) == Some(scope),
        public_suffix == is_for_registry(cookie),
        cookie.domain_attribute is None ==> !(cookie.scope matches Some(ScopeParts::Suffix(_))),
        cookie.path_attribute == Some("/"@) ==> cookie.path == "/"@,
        inserts(page, cookie, scope, answer, before, after),
    ensures
        keeps_promises(before) ==> keeps_promises(after),
{
    let key = received_key(cookie, scope);
    if keeps_promises(before) {
        assert forall|other: CookieKey| #[trigger] after.contains_key(other) implies {
            &&& begins_with(other.2, "__Secure-"@) ==> after[other].secure
            &&& begins_with(other.2, "__Host-"@) ==> after[other].secure && after[other].host_only
                && other.1 == "/"@
            &&& !after[other].host_only ==> !is_public_suffix(other.0)
        } by {
            if other != key {
                assert(before.contains_key(other));
            }
        }
    }
}

/// A script spares the `HttpOnly` cookies that have not expired, whether they
/// have a time to expire or not: it can neither create, overwrite nor delete
/// one, and changes one other cookie at most.  Where it is on no page of the
/// web, or sets what is no cookie, it changes nothing.
pub proof fn scripts_leave_http_only_cookies_alone(
    url: Seq<char>,
    text: Seq<char>,
    live: Set<CookieKey>,
    answer: Option<StoreAnswer>,
    before: Map<CookieKey, CookieEntry>,
    after: Map<CookieKey, CookieEntry>,
)
    requires
        is_live_set(before, live),
        stores_with(url, text, false, live, answer, before, after),
    ensures
        spares_http_only(live, before, after),
        !is_web_url(url) || parsed_cookie(text, url) is None ==> after == before,
{
    if after != before {
        let page = parsed_url(url)->Ok_0;
        let cookie = parsed_cookie(text, url)->Some_0;
        let scope = admitted(page, cookie, is_for_registry(cookie), false)->Some_0;
        let key = received_key(cookie, scope);
        assert(after.contains_key(key));
        assert(after =~= before.insert(key, after[key]));
    }
    assert(hidden_cookies(after, live) =~= hidden_cookies(before, live));
}

/// With a cookie whose lifetime is over, a script removes its own: whatever the
/// jar held at that place, unless it was `HttpOnly` or had a time to expire, no
/// page is given it any more.
pub proof fn scripts_remove_their_cookies(
    origin: Seq<char>,
    text: Seq<char>,
    scope: ScopeParts,
    before: Map<CookieKey, CookieEntry>,
    after: Map<CookieKey, CookieEntry>,
    url: Seq<char>,
    page: UrlParts,
    listed: Seq<ShownCookie>,
    cookie: ShownCookie,
)
    requires
        is_web_url(origin),
        stores(origin, text, false, before, after),
        parsed_cookie(text, origin) matches Some(given) && given.lifetime is Over && admitted(
            parsed_url(origin)->Ok_0,
            given,
            is_for_registry(given),
            false,
        ) == Some(scope) && scope_covers(scope, parsed_url(origin)->Ok_0) && cookie.key()
            == received_key(given, scope),
        before.contains_key(cookie.key()) ==> !before[cookie.key()].http_only && !(
        before[cookie.key()].lifetime is Timed),
        is_selection(after, url, page, listed),
    ensures
        !listed.contains(cookie),
{
}

/// Whoever sets it, a secure cookie is only ever set from a secure origin.
pub proof fn secure_cookies_come_from_secure_origins(
    url: Seq<char>,
    text: Seq<char>,
    from_http: bool,
    before: Map<CookieKey, CookieEntry>,
    after: Map<CookieKey, CookieEntry>,
    key: CookieKey,
)
    requires
        stores(url, text, from_http, before, after),
        parsed_url(url) matches Ok(page) && !is_secure_origin(page),
        after.contains_key(key),
        after[key].secure,
    ensures
        before.contains_key(key),
        before[key].secure,
{
}

/// A cookie touches no place in the jar but its own, and that only if it is for
/// the host that set it.
pub proof fn cookies_stay_in_their_place(
    url: Seq<char>,
    text: Seq<char>,
    from_http: bool,
    before: Map<CookieKey, CookieEntry>,
    after: Map<CookieKey, CookieEntry>,
    key: CookieKey,
)
    requires
        stores(url, text, from_http, before, after),
        before.contains_key(key) != after.contains_key(key) || before[key] != after[key],
    ensures
        is_web_url(url),
        parsed_cookie(text, url) matches Some(cookie) && key.1 == cookie.path && key.2
            == cookie.name && (scope_covers(
            ScopeParts::HostOnly(key.0),
            parsed_url(url)->Ok_0,
        ) || scope_covers(ScopeParts::Suffix(key.0), parsed_url(url)->Ok_0)),
{
}

/// Whatever scripts read comes from cookies that are not `HttpOnly`, and all of
/// those are there.
pub proof fn scripts_read_no_http_only_cookie(listed: Seq<ShownCookie>)
    ensures
        forall|cookie: ShownCookie| #[trigger]
            visible(listed).contains(cookie) <==> listed.contains(cookie) && !cookie.http_only,
    decreases listed.len(),
{
    if listed.len() > 0 {
        let rest = listed.drop_last();
        let last = listed.last();
        scripts_read_no_http_only_cookie(rest);
        assert(listed =~= rest.push(last));
        assert forall|cookie: ShownCookie| #[trigger] visible(listed).contains(cookie) <==> (
        listed.contains(cookie) && !cookie.http_only) by {
            assert(listed.contains(cookie) <==> rest.contains(cookie) || cookie == last) by {
                if rest.contains(cookie) {
                    let i = choose|i: int| 0 <= i < rest.len() && rest[i] == cookie;
                    assert(listed[i] == cookie);
                }
                if cookie == last {
                    assert(listed[listed.len() - 1] == cookie);
                }
            }
            let seen = visible(rest);
            assert(seen.contains(cookie) <==> rest.contains(cookie) && !cookie.http_only);
            if last.http_only {
                assert(visible(listed) == seen);
            } else {
                assert(visible(listed) == seen.push(last));
                assert(visible(listed).contains(cookie) <==> seen.contains(cookie) || cookie
                    == last) by {
                    if seen.contains(cookie) {
                        let i = choose|i: int| 0 <= i < seen.len() && seen[i] == cookie;
                        assert(seen.push(last)[i] == cookie);
                    }
                    if cookie == last {
                        assert(seen.push(last)[seen.len() as int] == cookie);
                    }
                }
            }
        }
    }
}

/// A secure cookie goes only to secure origins, and one that is for one host
/// alone goes only to that host.
pub proof fn cookies_go_only_where_they_may(
    jar: Map<CookieKey, CookieEntry>,
    url: Seq<char>,
    page: UrlParts,
    listed: Seq<ShownCookie>,
    cookie: ShownCookie,
)
    requires
        is_selection(jar, url, page, listed),
        listed.contains(cookie),
    ensures
        jar[cookie.key()].secure ==> is_secure_origin(page),
        jar[cookie.key()].host_only ==> page.host_text == Some(cookie.domain),
        path_covers(cookie.path, page.path),
{
}

/// Scripts read what a response set: a cookie for the session that is taken
/// from a response and is not `HttpOnly` is among those that scripts of every
/// page it reaches may read.
pub proof fn scripts_share_the_cookies_of_responses(
    origin: Seq<char>,
    text: Seq<char>,
    scope: ScopeParts,
    before: Map<CookieKey, CookieEntry>,
    after: Map<CookieKey, CookieEntry>,
    url: Seq<char>,
    page: UrlParts,
    listed: Seq<ShownCookie>,
)
    requires
        is_web_url(origin),
        stores(origin, text, true, before, after),
        parsed_cookie(text, origin) matches Some(cookie) && !cookie.http_only
            && cookie.lifetime is Session && admitted(
            parsed_url(origin)->Ok_0,
            cookie,
            is_for_registry(cookie),
            true,
        ) == Some(scope) && scope_covers(scope, parsed_url(origin)->Ok_0) && reaches(
            url,
            page,
            received_key(cookie, scope),
            received_entry(cookie, scope),
        ),
        is_web_scheme(page.scheme),
        is_selection(after, url, page, listed),
    ensures
        ({
            let cookie = parsed_cookie(text, origin)->Some_0;
            visible(listed).contains(
                shown(received_key(cookie, scope), received_entry(cookie, scope)),
            )
        }),
{
    let cookie = parsed_cookie(text, origin)->Some_0;
    let key = received_key(cookie, scope);
    assert(after.contains_key(key));
    scripts_read_no_http_only_cookie(listed);
}

/// What a page sends is safe on the way by `https`, whatever the host, and by
/// any scheme to this machine: to `localhost`, to an IPv4 address that begins
/// with 127, and to the IPv6 address that is all zeros but for a one at its end.
pub proof fn secure_origins_are_these(page: UrlParts)
    ensures
        page.scheme == "https"@ ==> is_secure_origin(page),
        page.scheme != "https"@ ==> match page.host {
            Some(UrlHostParts::Domain(name)) => is_secure_origin(page) <==> name == "localhost"@,
            Some(UrlHostParts::Ipv4(bytes)) => is_secure_origin(page) <==> bytes[0] == 127,
            Some(UrlHostParts::Ipv6(groups)) => groups.len() == 8 ==> (is_secure_origin(page)
                <==> groups[7] == 1 && forall|i: int| 0 <= i < 7 ==> #[trigger] groups[i] == 0),
            None => !is_secure_origin(page),
        },
{
    match page.host {
        Some(UrlHostParts::Ipv6(groups)) => {
            let loopback = seq![0u16, 0u16, 0u16, 0u16, 0u16, 0u16, 0u16, 1u16];
            if groups.len() == 8 && groups[7] == 1 && forall|i: int|
                0 <= i < 7 ==> #[trigger] groups[i] == 0 {
                assert(groups =~= loopback);
            }
            if groups == loopback {
                assert(forall|i: int| 0 <= i < 7 ==> #[trigger] groups[i] == 0);
            }
        },
        _ => {},
    }
}

/// A cookie is refused for one of these reasons, and for no other: a script
/// would make it `HttpOnly`; it is secure and its origin is not; its name begins
/// with `__Secure-` and it is not both secure and from a secure origin; its name
/// begins with `__Host-` and it is not that either, or names a domain, or has not
/// the whole host as its path; it is for no host; or it is for all hosts under a
/// public suffix that is not its own host.
pub proof fn cookies_are_refused_for_these_reasons(
    page: UrlParts,
    cookie: CookieParts,
    public_suffix: bool,
    from_http: bool,
)
    ensures
        ({
            let safe = cookie.secure && is_secure_origin(page);
            admitted(page, cookie, public_suffix, from_http) is None <==> {
                ||| !from_http && cookie.http_only
                ||| cookie.secure && !is_secure_origin(page)
                ||| begins_with(cookie.name, "__Secure-"@) && !safe
                ||| begins_with(cookie.name, "__Host-"@) && (!safe || cookie.domain_attribute is Some
                    || cookie.path_attribute != Some("/"@))
                ||| cookie.scope is None
                ||| cookie.scope matches Some(ScopeParts::Suffix(domain)) && public_suffix
                    && page.host_text != Some(domain)
            }
        }),
{
}

/// A cookie that is not refused is for the hosts that it names: one for a single
/// host stays so, and one for a domain is for that domain with all hosts under
/// it, unless the domain is a public suffix, where it is for that host alone.
pub proof fn admitted_cookies_keep_their_hosts(
    page: UrlParts,
    cookie: CookieParts,
    public_suffix: bool,
    from_http: bool,
    scope: ScopeParts,
)
    requires
        admitted(page, cookie, public_suffix, from_http) == Some(scope),
    ensures
        match cookie.scope {
            Some(ScopeParts::HostOnly(host)) => scope == ScopeParts::HostOnly(host),
            Some(ScopeParts::Suffix(domain)) => if public_suffix {
                scope == ScopeParts::HostOnly(domain) && page.host_text == Some(domain)
            } else {
                scope == ScopeParts::Suffix(domain)
            },
            None => false,
        },
{
}

/// A cookie with a domain that is no public suffix keeps that domain with all
/// hosts under it, wherever it is allowed at all: from a response of a secure
/// origin it is taken so, secure or not, unless its name has a reserved prefix.
pub proof fn domain_cookies_keep_their_domain(
    page: UrlParts,
    cookie: CookieParts,
    domain: Seq<char>,
)
    requires
        page.scheme == "https"@,
        cookie.scope == Some(ScopeParts::Suffix(domain)),
        listed_suffix(vstd::utf8::encode_utf8(domain)) != Some(vstd::utf8::encode_utf8(domain)),
        !begins_with(cookie.name, "__Secure-"@),
        !begins_with(cookie.name, "__Host-"@),
    ensures
        admitted(page, cookie, is_for_registry(cookie), true) == Some(ScopeParts::Suffix(domain)),
        !cookie.http_only ==> admitted(page, cookie, is_for_registry(cookie), false) == Some(
            ScopeParts::Suffix(domain),
        ),
{
}

/// A domain is a public suffix exactly if the list has the whole of it as the
/// suffix of it.
pub proof fn public_suffixes_are_listed_whole(domain: Seq<char>)
    ensures
        is_public_suffix(domain) <==> (listed_suffix(vstd::utf8::encode_utf8(domain)) matches Some(
            suffix,
        ) && suffix == vstd::utf8::encode_utf8(domain)),
{
}

/// A cookie for one host is for a page on that host only.  One for a domain is
/// for the domain itself and for every host that is a name, a dot and the
/// domain, and for nothing else; an IPv4 address is under nothing.
pub proof fn scopes_cover_their_hosts(page: UrlParts, host: Seq<char>, domain: Seq<char>)
    requires
        page.host_text == Some(host),
    ensures
        scope_covers(ScopeParts::HostOnly(domain), page) <==> host == domain,
        scope_covers(ScopeParts::Suffix(domain), page) <==> host == domain || (!(
        page.host matches Some(UrlHostParts::Ipv4(_))) && exists|name: Seq<char>|
            host == #[trigger] (name + ("."@ + domain))),
{
    crate::text::parts_make_the_whole(host, "."@ + domain);
}

/// A cookie's path covers the paths that go on from it at a slash: itself, what
/// follows a slash after it, and, if it ends in a slash, all that begins with it.
pub proof fn paths_cover_what_is_below(cookie_path: Seq<char>, page_path: Seq<char>)
    requires
        cookie_path.len() > 0,
        cookie_path[0] == '/',
    ensures
        path_covers(cookie_path, page_path) <==> {
            &&& page_path.len() >= cookie_path.len()
            &&& forall|i: int| 0 <= i < cookie_path.len() ==> #[trigger] page_path[i]
                == cookie_path[i]
            &&& page_path.len() > cookie_path.len() && cookie_path.last() != '/'
                ==> page_path[cookie_path.len() as int] == '/'
        },
{
    let size = cookie_path.len() as int;
    reveal_strlit("/");
    assert(cookie_path.take(1) =~= "/"@);
    if begins_with(page_path, cookie_path) {
        assert forall|i: int| 0 <= i < size implies #[trigger] page_path[i] == cookie_path[i] by {
            assert(page_path.take(size)[i] == page_path[i]);
        }
    }
    if page_path.len() >= size && forall|i: int|
        0 <= i < size ==> #[trigger] page_path[i] == cookie_path[i] {
        assert(page_path.take(size) =~= cookie_path);
    }
}

/// Names and values stand in a request as `name=value`, in their order, with a
/// semicolon and a space between one and the next.
pub proof fn pairs_are_joined_in_order(
    pairs: Seq<(Seq<char>, Seq<char>)>,
    name: Seq<char>,
    value: Seq<char>,
)
    ensures
        joined_pairs(Seq::empty()) == Seq::<char>::empty(),
        joined_pairs(seq![(name, value)]) == name + "="@ + value,
        pairs.len() > 0 ==> joined_pairs(pairs.push((name, value))) == joined_pairs(pairs) + "; "@
            + (name + "="@ + value),
{
    assert(pairs.push((name, value)).drop_last() =~= pairs);
    assert(seq![(name, value)].drop_last() =~= Seq::empty());
}

/// The pairs of a request are the names and values of its cookies, one for one.
pub proof fn pairs_are_names_and_values(listed: Seq<ShownCookie>, i: int)
    requires
        0 <= i < listed.len(),
    ensures
        request_pairs(listed).len() == listed.len(),
        request_pairs(listed)[i].0 == listed[i].name,
        request_pairs(listed)[i].1 == listed[i].value,
{
}

/// Scripts read the cookies that are not `HttpOnly` in the order of the list: one
/// more such cookie comes last, and one that is `HttpOnly` changes nothing.
pub proof fn scripts_read_in_order(listed: Seq<ShownCookie>, cookie: ShownCookie)
    ensures
        script_text(Seq::empty()) == Seq::<char>::empty(),
        cookie.http_only ==> script_text(listed.push(cookie)) == script_text(listed),
        !cookie.http_only ==> script_text(listed.push(cookie)) == if visible(listed).len() == 0 {
            cookie.name + "="@ + cookie.value
        } else {
            script_text(listed) + "; "@ + (cookie.name + "="@ + cookie.value)
        },
{
    let before = request_pairs(visible(listed));
    assert(listed.push(cookie).drop_last() =~= listed);
    assert(request_pairs(Seq::<ShownCookie>::empty()) =~= Seq::empty());
    if !cookie.http_only {
        assert(request_pairs(visible(listed).push(cookie)) =~= before.push(
            (cookie.name, cookie.value),
        ));
        pairs_are_joined_in_order(before, cookie.name, cookie.value);
        if visible(listed).len() == 0 {
            assert(before.push((cookie.name, cookie.value)) =~= seq![(cookie.name, cookie.value)]);
        }
    }
}

/// Of two cookies in the order that scripts read them, the earlier never has the
/// shorter path.
pub proof fn earlier_cookies_have_no_shorter_path(listed: Seq<ShownCookie>, i: int, j: int)
    requires
        longest_paths_first(listed),
        0 <= i < j < listed.len(),
    ensures
        vstd::utf8::encode_utf8(listed[i].path).len() >= vstd::utf8::encode_utf8(
            listed[j].path,
        ).len(),
{
    assert(path_length(listed[i]) >= path_length(listed[j]));
}

/// A cookie for the session that is not refused and is for the host that set it
/// is in the jar afterwards: at the place of its domain, its path and its name,
/// with its value and all its attributes, while nothing else in the jar has
/// changed.  For a script this holds unless there is an unexpired `HttpOnly`
/// cookie in the place.
pub proof fn admitted_cookies_are_kept(
    url: Seq<char>,
    page: UrlParts,
    text: Seq<char>,
    cookie: CookieParts,
    from_http: bool,
    domain: Seq<char>,
    host_only: bool,
    before: Map<CookieKey, CookieEntry>,
    after: Map<CookieKey, CookieEntry>,
)
    requires
        parsed_url(url) == Ok::<UrlParts, Seq<char>>(page),
        page.scheme == "http"@ || page.scheme == "https"@,
        parsed_cookie(text, url) == Some(cookie),
        cookie.lifetime is Session,
        admitted(page, cookie, is_for_registry(cookie), from_http) == Some(
            if host_only {
                ScopeParts::HostOnly(domain)
            } else {
                ScopeParts::Suffix(domain)
            },
        ),
        page.host_text matches Some(host) && (host == domain || (!host_only && !(
        page.host matches Some(UrlHostParts::Ipv4(_))) && exists|name: Seq<char>|
            host == #[trigger] (name + ("."@ + domain)))),
        from_http || !before.contains_key((domain, cookie.path, cookie.name)) || !before[(
            domain,
            cookie.path,
            cookie.name,
        )].http_only,
        stores(url, text, from_http, before, after),
    ensures
        after == before.insert(
            (domain, cookie.path, cookie.name),
            CookieEntry {
                value: cookie.value,
                http_only: cookie.http_only,
                secure: cookie.secure,
                host_only,
                lifetime: Lifetime::Session,
            },
        ),
{
    scopes_cover_their_hosts(page, page.host_text->Some_0, domain);
    let (live, answer) = choose|live: Set<CookieKey>, answer: Option<StoreAnswer>|
        is_live_set(before, live) && #[trigger] stores_with(
            url,
            text,
            from_http,
            live,
            answer,
            before,
            after,
        );
    assert(stores_with(url, text, from_http, live, answer, before, after));
}

/// Where a cookie is refused, or its page is none of the web, the jar stays as it
/// is, whoever sets it.
pub proof fn refused_cookies_change_nothing(
    url: Seq<char>,
    text: Seq<char>,
    from_http: bool,
    before: Map<CookieKey, CookieEntry>,
    after: Map<CookieKey, CookieEntry>,
)
    requires
        stores(url, text, from_http, before, after),
        parsed_url(url) is Err || parsed_cookie(text, url) is None || (parsed_url(url) matches Ok(
            page,
        ) && page.scheme != "http"@ && page.scheme != "https"@) || admitted(
            parsed_url(url)->Ok_0,
            parsed_cookie(text, url)->Some_0,
            is_for_registry(parsed_cookie(text, url)->Some_0),
            from_http,
        ) is None,
    ensures
        after == before,
{
}

/// The cookies of a response are taken one after the other, each from the jar
/// that the ones before it have left.
pub proof fn cookies_of_a_response_are_taken_in_turn(
    url: Seq<char>,
    texts: Seq<String>,
    text: String,
    before: Map<CookieKey, CookieEntry>,
    between: Map<CookieKey, CookieEntry>,
    after: Map<CookieKey, CookieEntry>,
)
    ensures
        stores_all(url, Seq::empty(), before, after) <==> after == before,
        stores_all(url, texts, before, between) && stores(url, text@, true, between, after)
            ==> stores_all(url, texts.push(text), before, after),
        stores_all(url, texts.push(text), before, after) ==> exists|middle: Map<
            CookieKey,
            CookieEntry,
        >| stores_all(url, texts, before, middle) && #[trigger] stores(
            url,
            text@,
            true,
            middle,
            after,
        ),
{
    let all = texts.push(text);
    assert(all.drop_last() =~= texts);
    assert(all.last() == text);
    if stores_all(url, texts, before, between) && stores(url, text@, true, between, after) {
        assert(stores_all(url, all.drop_last(), before, between));
        assert(stores(url, all.last()@, true, between, after));
    }
    if stores_all(url, all, before, after) {
        let middle = choose|middle: Map<CookieKey, CookieEntry>|
            stores_all(url, all.drop_last(), before, middle) && #[trigger] stores(
                url,
                all.last()@,
                true,
                middle,
                after,
            );
        assert(stores_all(url, texts, before, middle));
        assert(stores(url, text@, true, middle, after));
    }
}

/// A received cookie is `HttpOnly` or secure exactly if it says so, and its other
/// parts are what they are.
pub proof fn received_cookies_are_read_as_they_are(cookie: ParsedCookie)
    ensures
        cookie@.http_only <==> cookie.http_only == Some(true),
        cookie@.secure <==> cookie.secure == Some(true),
        cookie@.name == cookie.name@,
        cookie@.value == cookie.value@,
        cookie@.path == cookie.path@,
        cookie@.scope is Some <==> cookie.domain is Some,
        cookie.domain matches Some(domain) ==> cookie@.scope == Some(
            if cookie.host_only {
                ScopeParts::HostOnly(domain@)
            } else {
                ScopeParts::Suffix(domain@)
            },
        ),
        cookie@.lifetime is Session <==> !cookie.persistent,
        cookie@.lifetime is Over <==> cookie.persistent && cookie.max_age == Some(0i64),
{
}

/// No host can set a cookie for a public suffix that it is under: such a cookie
/// is refused, whoever sets it; the host of the suffix itself can set one for
/// itself alone.
pub proof fn public_suffixes_share_no_cookies(
    page: UrlParts,
    cookie: CookieParts,
    domain: Seq<char>,
    from_http: bool,
)
    requires
        cookie.scope == Some(ScopeParts::Suffix(domain)),
        listed_suffix(vstd::utf8::encode_utf8(domain)) == Some(vstd::utf8::encode_utf8(domain)),
    ensures
        page.host_text != Some(domain) ==> admitted(
            page,
            cookie,
            is_for_registry(cookie),
            from_http,
        ) is None,
        page.host_text == Some(domain) ==> (admitted(
            page,
            cookie,
            is_for_registry(cookie),
            from_http,
        ) matches Some(scope) ==> scope == ScopeParts::HostOnly(domain)),
{
}

/// Every cookie that is not refused is handed to the jar, with or without a time
/// to expire, whatever hosts it is for; only what a script sets in the place of an
/// unexpired `HttpOnly` cookie is not.
pub proof fn admitted_cookies_reach_the_jar(
    url: Seq<char>,
    page: UrlParts,
    text: Seq<char>,
    cookie: CookieParts,
    from_http: bool,
    scope: ScopeParts,
    domain: Seq<char>,
    live: Set<CookieKey>,
    answer: Option<StoreAnswer>,
    before: Map<CookieKey, CookieEntry>,
    after: Map<CookieKey, CookieEntry>,
)
    requires
        parsed_url(url) == Ok::<UrlParts, Seq<char>>(page),
        page.scheme == "http"@ || page.scheme == "https"@,
        parsed_cookie(text, url) == Some(cookie),
        admitted(page, cookie, is_for_registry(cookie), from_http) == Some(scope),
        scope == ScopeParts::HostOnly(domain) || scope == ScopeParts::Suffix(domain),
        stores_with(url, text, from_http, live, answer, before, after),
    ensures
        ({
            let place = (domain, cookie.path, cookie.name);
            let spared = !from_http && live.contains(place) && before[place].http_only;
            &&& spared ==> answer is None && after == before
            &&& !spared ==> (answer matches Some(given) && inserts(
                page,
                cookie,
                scope,
                given,
                before,
                after,
            ))
        }),
{
}

/// Cookies can stand in a header exactly if no character of them is one of the
/// control characters of ASCII, of which the tab alone is allowed.
pub proof fn headers_hold_no_control_characters(text: Seq<char>)
    ensures
        !fits_header(text) <==> exists|i: int|
            0 <= i < text.len() && ((#[trigger] text[i] <= '\u{1f}' && text[i] != '\u{9}')
                || text[i] == '\u{7f}'),
{
    assert forall|i: int| 0 <= i < text.len() implies is_header_char(#[trigger] text[i]) == !((
    text[i] <= '\u{1f}' && text[i] != '\u{9}') || text[i] == '\u{7f}') by {}
}

} // verus!
