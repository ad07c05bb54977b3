use vstd::prelude::*;
use crate::errors::ApiError;
use crate::model::{Link, CreateLinkRequest, EntityKind};
use crate::str_eq;

verus! {

// ---------------------------------------------------------------------------
// URL normalization and link assembly
// ---------------------------------------------------------------------------

/// A stored link URL always carries the scheme.
pub open spec fn spec_normalize_url(s: Seq<char>) -> Seq<char> {
    if s.len() >= 8 && s.subrange(0, 8) == "https://"@ {
        s
    } else {
        "https://"@ + s
    }
}

/// Prefix a URL with `https://` unless it already starts with it.
pub fn normalize_url(url: &str) -> (r: String)
    ensures
        r@ == spec_normalize_url(url@),
{
    let n = url.unicode_len();
    if n >= 8 {
        let prefix = url.substring_char(0, 8);
        if str_eq(prefix, "https://") {
            return url.to_owned();
        }
    }
    let mut out: String = "https://".to_owned();
    out.append(url);
    out
}

/// The title a created link gets: an empty user title defers to the page
/// metadata (or stays empty); an absent user title takes the metadata title,
/// which must then be present.
pub open spec fn spec_choose_text(
    payload: Option<Seq<char>>,
    metadata: Option<Seq<char>>,
) -> Seq<char> {
    if payload == Some(Seq::<char>::empty()) {
        if metadata is Some {
            metadata->Some_0
        } else {
            Seq::empty()
        }
    } else if payload is Some {
        payload->Some_0
    } else {
        metadata->Some_0
    }
}

/// Pick the link's title (or description): the user's text wins unless it is
/// empty or absent, in which case the page metadata fills in.
pub fn choose_text(payload: &Option<String>, metadata: &Option<String>) -> (r: String)
    requires
        payload.deep_view() is Some || metadata.deep_view() is Some,
    ensures
        r@ == spec_choose_text(payload.deep_view(), metadata.deep_view()),
{
    match payload {
        Some(p) => {
            if p.as_str().is_empty() {
                proof {
                    assert(p@ =~= Seq::<char>::empty());
                }
                match metadata {
                    Some(m) => m.clone(),
                    None => String::new(),
                }
            } else {
                p.clone()
            }
        },
        None => match metadata {
            Some(m) => m.clone(),
            None => {
                proof {
                    assert(false);
                }
                String::new()
            },
        },
    }
}

/// Assemble the link row a create request produces, from the resolved URL,
/// title, description and icon.
pub fn assemble_link(
    id: String,
    req: &CreateLinkRequest,
    url: String,
    title: String,
    description: String,
    icon: String,
    now: i64,
) -> (r: Link)
    ensures
        r@.id == id@,
        r@.url == url@,
        r@.title == title@,
        r@.description == Some(description@),
        r@.icon == Some(icon@),
        r@.order_index == req.next_order_index,
        r@.owner_type == req.owner_type,
        r@.owner_id == req.owner_id@,
        r@.column_type == req.column_type@,
        r@.created_at == now,
{
    Link {
        id: id,
        title: title,
        url: url,
        icon: Some(icon),
        order_index: req.next_order_index,
        owner_type: req.owner_type,
        owner_id: req.owner_id.clone(),
        created_at: now,
        description: Some(description),
        column_type: req.column_type.clone(),
    }
}

// ---------------------------------------------------------------------------
// Favicon resolution
// ---------------------------------------------------------------------------

/// The host component url::Url::parse extracts from a URL's text; absent
/// when the text does not parse or has no host.
pub uninterp spec fn url_host_of(s: Seq<char>) -> Option<Seq<char>>;

/// Relies on url::Url::parse and Url::host_str: the host of a URL is a
/// function of the text alone.
#[verifier::external_body]
fn parse_host(url: &str) -> (r: Option<String>)
    ensures
        r.deep_view() == url_host_of(url@),
{
    match url::Url::parse(url) {
        Ok(u) => u.host_str().map(|h| h.to_string()),
        Err(_) => None,
    }
}

/// The base64 text the standard-alphabet engine produces for given bytes.
pub uninterp spec fn base64_std_of(b: Seq<u8>) -> Seq<char>;

/// Relies on base64's BASE64_STANDARD engine: the encoding is a function of
/// the bytes alone, four output characters for every three input bytes.
#[verifier::external_body]
fn base64_encode(bytes: &[u8]) -> (r: String)
    ensures
        r@ == base64_std_of(bytes@),
        r@.len() == 4 * ((bytes@.len() + 2) / 3),
{
    base64::Engine::encode(&base64::prelude::BASE64_STANDARD, bytes)
}

/// The inline `data:` URL a fetched favicon is stored as.
pub open spec fn spec_data_url(mime: Option<Seq<char>>, bytes: Seq<u8>) -> Seq<char> {
    "data:"@ + (if mime is Some {
        mime->Some_0
    } else {
        "unknown"@
    }) + ";base64,"@ + base64_std_of(bytes)
}

/// Inline a fetched favicon as a `data:` URL carrying its media type and
/// base64-encoded bytes.
pub fn favicon_data_url(mime_type: &Option<String>, bytes: &[u8]) -> (r: String)
    ensures
        r@ == spec_data_url(mime_type.deep_view(), bytes@),
{
    let mut out: String = "data:".to_owned();
    match mime_type {
        Some(m) => out.append(m.as_str()),
        None => out.append("unknown"),
    }
    out.append(";base64,");
    let encoded = base64_encode(bytes);
    out.append(encoded.as_str());
    out
}

/// A domain with its trailing slashes removed.
pub open spec fn spec_trim_trailing_slash(s: Seq<char>) -> Seq<char>
    decreases s.len(),
{
    if s.len() > 0 && s.last() == '/' {
        spec_trim_trailing_slash(s.drop_last())
    } else {
        s
    }
}

/// Remove trailing slashes from a domain.
pub fn trim_trailing_slash(s: &str) -> (r: String)
    ensures
        r@ == spec_trim_trailing_slash(s@),
{
    let mut n = s.unicode_len();
    proof {
        assert(s@.subrange(0, n as int) =~= s@);
    }
    while n > 0 && s.get_char(n - 1) == '/'
        invariant
            n <= s@.len(),
            spec_trim_trailing_slash(s@.subrange(0, n as int)) == spec_trim_trailing_slash(s@),
        decreases n,
    {
        proof {
            assert(s@.subrange(0, n as int).drop_last() =~= s@.subrange(0, (n - 1) as int));
        }
        n = n - 1;
    }
    s.substring_char(0, n).to_owned()
}

/// The fallback favicon locations probed when a page names no icon, in probe
/// order, under the link's host.
pub open spec fn spec_favicon_candidates(base: Seq<char>) -> Seq<Seq<char>> {
    seq![
        base + "/favicon.ico"@,
        base + "/images/favicon.ico"@,
        base + "/assets/favicon.ico"@,
        base + "/static/favicon.ico"@,
        base + "/public/favicon.ico"@,
        base + "/icon/favicon.ico"@,
        base + "/icons/favicon.ico"@,
        base + "/icon.svg"@,
        base + "/favicon-32x32.png"@,
    ]
}

/// The favicon URLs to probe for a domain, in order.
pub fn favicon_candidates(base: &str) -> (r: Vec<String>)
    ensures
        r.deep_view() == spec_favicon_candidates(base@),
{
    let mut out: Vec<String> = Vec::new();
    let mut u: String = base.to_owned();
    u.append("/favicon.ico");
    out.push(u);
    let mut u: String = base.to_owned();
    u.append("/images/favicon.ico");
    out.push(u);
    let mut u: String = base.to_owned();
    u.append("/assets/favicon.ico");
    out.push(u);
    let mut u: String = base.to_owned();
    u.append("/static/favicon.ico");
    out.push(u);
    let mut u: String = base.to_owned();
    u.append("/public/favicon.ico");
    out.push(u);
    let mut u: String = base.to_owned();
    u.append("/icon/favicon.ico");
    out.push(u);
    let mut u: String = base.to_owned();
    u.append("/icons/favicon.ico");
    out.push(u);
    let mut u: String = base.to_owned();
    u.append("/icon.svg");
    out.push(u);
    let mut u: String = base.to_owned();
    u.append("/favicon-32x32.png");
    out.push(u);
    proof {
        assert(out.deep_view() =~= spec_favicon_candidates(base@));
    }
    out
}

/// The `https://`-prefixed, slash-trimmed base under which favicon locations
/// are probed for a link's host.
pub fn favicon_base(host: &str) -> (r: String)
    ensures
        r@ == spec_trim_trailing_slash(spec_normalize_url(host@)),
{
    let with_scheme = normalize_url(host);
    trim_trailing_slash(with_scheme.as_str())
}

/// The probe base for a whole link URL: its parsed host, schemed and
/// trimmed; nothing when the URL has no parsable host.
pub fn favicon_base_for(url: &str) -> (r: Option<String>)
    ensures
        r.deep_view() == match url_host_of(url@) {
            Some(h) => Some(spec_trim_trailing_slash(spec_normalize_url(h))),
            None => None::<Seq<char>>,
        },
{
    match parse_host(url) {
        Some(h) => Some(favicon_base(h.as_str())),
        None => None,
    }
}

} // verus!
