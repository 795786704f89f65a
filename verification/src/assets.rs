//! Where the demo's assets live and how their URLs are formed.

use vstd::prelude::*;

verus! {

/// The directory, relative to the page's origin, that holds every asset.
pub open spec fn asset_dir() -> Seq<char> {
    seq!['a', 's', 's', 'e', 't', 's', '/']
}

/// `prefix` is an initial segment of `s`.
pub open spec fn has_prefix(s: Seq<char>, prefix: Seq<char>) -> bool {
    prefix.len() <= s.len() && s.subrange(0, prefix.len() as int) == prefix
}

/// The path of an asset below the origin: names already inside the asset
/// directory are kept, all others are placed inside it.
pub open spec fn spec_asset_path(file_name: Seq<char>) -> Seq<char> {
    if has_prefix(file_name, asset_dir()) {
        file_name
    } else {
        asset_dir() + file_name
    }
}

/// Whether `s` begins with `prefix`, character by character.
pub fn starts_with(s: &str, prefix: &str) -> (r: bool)
    ensures
        r == has_prefix(s@, prefix@),
{
    let n = prefix.unicode_len();
    let m = s.unicode_len();
    if n > m {
        return false;
    }
    let mut i: usize = 0;
    while i < n
        invariant
            n == prefix@.len(),
            m == s@.len(),
            n <= m,
            i <= n,
            forall|j: int| 0 <= j < i ==> s@[j] == prefix@[j],
        decreases n - i,
    {
        if s.get_char(i) != prefix.get_char(i) {
            assert(s@.subrange(0, n as int)[i as int] != prefix@[i as int]);
            return false;
        }
        i = i + 1;
    }
    assert(s@.subrange(0, n as int) =~= prefix@);
    true
}

/// The path of the asset `file_name` below the origin.
pub fn asset_path(file_name: &str) -> (path: String)
    ensures
        path@ == spec_asset_path(file_name@),
{
    let dir = "assets/";
    proof {
        reveal_strlit("assets/");
    }
    assert(dir@ =~= asset_dir());
    if starts_with(file_name, dir) {
        file_name.to_string()
    } else {
        let mut path = dir.to_string();
        path.append(file_name);
        path
    }
}

/// The text of an optional string.
pub open spec fn opt_text(s: Option<String>) -> Option<Seq<char>> {
    match s {
        Some(t) => Some(t@),
        None => None,
    }
}

/// What `reqwest::Url::parse(base)` followed by `Url::join(reference)` on
/// the parsed base yields, as the serialization of the resulting URL, or
/// `None` when either step reports a parse error.
pub uninterp spec fn url_resolution(base: Seq<char>, reference: Seq<char>) -> Option<Seq<char>>;

/// Resolves `reference` against the absolute URL `base` with the `url`
/// crate (re-exported by `reqwest` as `reqwest::Url`): `Url::parse(base)`,
/// then `Url::join(reference)` on it. Claimed: the result is the
/// serialization of the joined URL, and the same texts always resolve to
/// the same result.
#[verifier::external_body]
fn resolve_url(base: &str, reference: &str) -> (resolved: Option<String>)
    ensures
        opt_text(resolved) == url_resolution(base@, reference@),
{
    match reqwest::Url::parse(base) {
        Ok(parsed) => match parsed.join(reference) {
            Ok(joined) => Some(String::from(joined)),
            Err(_) => None,
        },
        Err(_) => None,
    }
}

/// The base URL of a page origin: the origin followed by `/`.
pub open spec fn spec_origin_base(origin: Seq<char>) -> Seq<char> {
    origin.push('/')
}

/// The absolute URL of the asset `file_name` served from `origin`, or
/// `None` when the origin or the path does not form a valid URL.
pub fn format_url(origin: &str, file_name: &str) -> (url: Option<String>)
    ensures
        opt_text(url) == url_resolution(spec_origin_base(origin@), spec_asset_path(file_name@)),
        opt_text(url) == url_resolution(origin@.push('/'), spec_asset_path(file_name@)),
{
    let path = asset_path(file_name);
    let mut base = origin.to_string();
    let slash = "/";
    proof {
        reveal_strlit("/");
    }
    base.append(slash);
    assert(base@ =~= spec_origin_base(origin@));
    resolve_url(base.as_str(), path.as_str())
}

/// The base an asset path is resolved against is the origin itself with a
/// single `/` after it: one character longer, the origin as its prefix, and
/// `/` as its last character.
pub proof fn lemma_origin_base(origin: Seq<char>)
    ensures
        spec_origin_base(origin).len() == origin.len() + 1,
        spec_origin_base(origin).subrange(0, origin.len() as int) == origin,
        spec_origin_base(origin)[origin.len() as int] == '/',
        spec_origin_base(origin) == origin.push('/'),
{
    assert(spec_origin_base(origin).subrange(0, origin.len() as int) =~= origin);
}

/// An asset path keeps the whole file name at its end, and is either the
/// name itself (when it already lies in the asset directory) or exactly the
/// directory's seven characters longer.
pub proof fn lemma_asset_path_keeps_name(file_name: Seq<char>)
    ensures
        spec_asset_path(file_name).len() >= file_name.len(),
        spec_asset_path(file_name).subrange(
            spec_asset_path(file_name).len() - file_name.len(),
            spec_asset_path(file_name).len() as int,
        ) == file_name,
        has_prefix(file_name, asset_dir()) ==> spec_asset_path(file_name) == file_name,
        !has_prefix(file_name, asset_dir()) ==> spec_asset_path(file_name).len() == file_name.len()
            + 7,
{
    let p = spec_asset_path(file_name);
    assert(p.subrange(p.len() - file_name.len(), p.len() as int) =~= file_name);
}

/// Every asset path lies inside the asset directory.
pub proof fn lemma_asset_path_in_dir(file_name: Seq<char>)
    ensures
        has_prefix(spec_asset_path(file_name), asset_dir()),
{
    if !has_prefix(file_name, asset_dir()) {
        assert((asset_dir() + file_name).subrange(0, asset_dir().len() as int) =~= asset_dir());
    }
}

/// Placing a name inside the asset directory twice is the same as placing
/// it once: a path that is already an asset path is left as it is.
pub proof fn lemma_asset_path_idempotent(file_name: Seq<char>)
    ensures
        spec_asset_path(spec_asset_path(file_name)) == spec_asset_path(file_name),
{
    lemma_asset_path_in_dir(file_name);
}

/// A name that was already placed inside the asset directory (as the
/// material loader does before fetching) is served from the same URL as
/// the bare name.
pub proof fn lemma_format_url_prefixed_name(origin: Seq<char>, file_name: Seq<char>)
    ensures
        url_resolution(spec_origin_base(origin), spec_asset_path(spec_asset_path(file_name)))
            == url_resolution(spec_origin_base(origin), spec_asset_path(file_name)),
{
    lemma_asset_path_idempotent(file_name);
}

} // verus!
