//! Deriving the status endpoint's URL: replace the path of any URL that
//! points at the server with the well-known status path, leaving scheme,
//! credentials, host, port, query and fragment untouched.

use vstd::prelude::*;

verus! {

#[verifier::external_type_specification]
#[verifier::external_body]
pub struct ExUrl(url::Url);

/// The components of a parsed `url::Url`. A parsed URL's serialization is
/// canonical, so these components determine the URL.
#[verifier::ext_equal]
pub struct UrlParts {
    pub scheme: Seq<char>,
    pub username: Seq<char>,
    pub password: Option<Seq<char>>,
    pub host: Option<Seq<char>>,
    pub port: Option<u16>,
    pub path: Seq<char>,
    pub query: Option<Seq<char>>,
    pub fragment: Option<Seq<char>>,
    pub cannot_be_a_base: bool,
}

/// The components of a `url::Url` value.
pub uninterp spec fn url_parts(u: url::Url) -> UrlParts;

/// What `url::Url::parse` yields on a string: `None` exactly when the string
/// is not a valid absolute URL. Parsing depends on the string alone.
pub uninterp spec fn url_spec(s: Seq<char>) -> Option<UrlParts>;

/// The path that `url::Url::set_path` installs: a function of the URL's
/// scheme, its cannot-be-a-base flag, and the given string (percent-encoding
/// what is not already a valid path character).
pub uninterp spec fn encoded_path(scheme: Seq<char>, cannot_be_a_base: bool, p: Seq<char>) -> Seq<
    char,
>;

/// The canonical serialization of a parsed URL, as `url::Url::as_str` returns
/// it: a function of the URL's components.
pub uninterp spec fn url_string(p: UrlParts) -> Seq<char>;

/// Relies on `url::Url::parse`: parsing depends on the input string alone,
/// and an error means the string is not a valid URL.
#[verifier::external_body]
pub fn parse_url(s: &str) -> (r: Option<url::Url>)
    ensures
        match r {
            Some(u) => url_spec(s@) == Some(url_parts(u)),
            None => url_spec(s@) is None,
        },
{
    url::Url::parse(s).ok()
}

/// Relies on `url::Url::set_path`, called with a rooted path (one starting
/// with `/`): it replaces the path with a function of the URL's scheme, its
/// cannot-be-a-base flag and the given string, and leaves every other
/// component unchanged — scheme, credentials, host, port, query, fragment,
/// and the cannot-be-a-base flag itself. (On an empty or query- or
/// fragment-leading string the path of a no-authority URL can become empty,
/// which flips that flag; the rooted-path precondition keeps such inputs
/// out.)
#[verifier::external_body]
fn set_url_path(u: &mut url::Url, p: &str)
    requires
        p@.len() > 0,
        p@[0] == '/',
    ensures
        url_parts(*final(u)) == (UrlParts {
            path: encoded_path(
                url_parts(*old(u)).scheme,
                url_parts(*old(u)).cannot_be_a_base,
                p@,
            ),
            ..url_parts(*old(u))
        }),
{
    u.set_path(p);
}

/// Relies on `url::Url::as_str`: the serialization of a parsed URL is
/// determined by its components.
#[verifier::external_body]
pub fn url_to_string(u: &url::Url) -> (r: String)
    ensures
        r@ == url_string(url_parts(*u)),
{
    u.as_str().to_owned()
}

/// The components of the status URL derived from a URL with components `p`:
/// the path is replaced by the well-known status path, everything else is
/// kept.
pub open spec fn derive_parts(p: UrlParts) -> UrlParts {
    UrlParts { path: encoded_path(p.scheme, p.cannot_be_a_base, "/status-json.xsl"@), ..p }
}

/// Generate the status-document URL for the server a URL points at, by
/// replacing its path with `/status-json.xsl`.
pub fn generate_icecast_stats_url(base: url::Url) -> (r: url::Url)
    ensures
        url_parts(r) == derive_parts(url_parts(base)),
{
    let mut u = base;
    proof {
        broadcast use vstd::string::group_string_axioms;

        reveal_strlit("/status-json.xsl");
        assert("/status-json.xsl"@.len() == 16);
        assert("/status-json.xsl"@[0] == '/');
    }
    set_url_path(&mut u, "/status-json.xsl");
    proof {
        assert(url_parts(u) =~= derive_parts(url_parts(base)));
    }
    u
}

/// Deriving the status URL is idempotent: a second derivation changes
/// nothing, so the derivation of an already derived URL is itself.
pub proof fn lemma_derive_idempotent(p: UrlParts)
    ensures
        derive_parts(derive_parts(p)) == derive_parts(p),
{
    assert(derive_parts(derive_parts(p)) =~= derive_parts(p));
}

/// Deriving the status URL preserves scheme, credentials, host, port, query
/// and fragment; only the path changes.
pub proof fn lemma_derive_preserves_components(p: UrlParts)
    ensures
        derive_parts(p).scheme == p.scheme,
        derive_parts(p).username == p.username,
        derive_parts(p).password == p.password,
        derive_parts(p).host == p.host,
        derive_parts(p).port == p.port,
        derive_parts(p).query == p.query,
        derive_parts(p).fragment == p.fragment,
        derive_parts(p).cannot_be_a_base == p.cannot_be_a_base,
{
}

} // verus!
