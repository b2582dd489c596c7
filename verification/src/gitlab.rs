//! GitLab-style adapter: turns a merge-request web URL of the shape
//! `https://<host>/<namespace>/<project>/-/<rest>` into the API endpoint
//! `https://<host>/api/v4/projects/<namespace>%2F<project>/<rest>`, and
//! derives the project-lookup endpoint used to resolve a clone URL.
use vstd::prelude::*;
use vstd::string::*;

use crate::github::seg_ok;
use crate::text::dec_str;
use crate::text::append_decimal;
use crate::text::find_char;
use crate::text::find_char_at;
use crate::text::has_prefix;
use crate::text::lemma_find_char;
use crate::text::lemma_find_char_value;
use crate::text::starts_with;

verus! {

/// The web URL of a merge request, assembled from its parts; `base` is
/// the scheme plus host, as in `https://gitlab.example.com`.
pub open spec fn gl_web_of(
    base: Seq<char>,
    ns: Seq<char>,
    proj: Seq<char>,
    rest: Seq<char>,
) -> Seq<char> {
    base + "/"@ + ns + "/"@ + proj + "/-/"@ + rest
}

/// The API endpoint for the same merge request; the slash between
/// namespace and project is URL-encoded as `%2F`.
pub open spec fn gl_api_of(
    base: Seq<char>,
    ns: Seq<char>,
    proj: Seq<char>,
    rest: Seq<char>,
) -> Seq<char> {
    base + "/api/v4/projects/"@ + ns + "%2F"@ + proj + "/"@ + rest
}

/// The API endpoint that looks one project up by its numeric id.
pub open spec fn gl_project_api_of(base: Seq<char>, id: int) -> Seq<char> {
    base + "/api/v4/projects/"@ + dec_str(id)
}

/// Deterministic parse of a merge-request web URL into
/// `(base, namespace, project, rest)`; `None` on any other shape.
pub open spec fn gl_parse(s: Seq<char>) -> Option<(Seq<char>, Seq<char>, Seq<char>, Seq<char>)> {
    let p = "https://"@;
    if !has_prefix(s, p) {
        None
    } else {
        let i = p.len() as int;
        let h = find_char(s, i, '/');
        if h <= i || h >= s.len() {
            None
        } else {
            let base = s.subrange(0, h);
            let j = find_char(s, h + 1, '/');
            if j <= h + 1 || j >= s.len() {
                None
            } else {
                let ns = s.subrange(h + 1, j);
                let k = find_char(s, j + 1, '/');
                if k <= j + 1 || k >= s.len() {
                    None
                } else {
                    let proj = s.subrange(j + 1, k);
                    let tail = s.subrange(k, s.len() as int);
                    if !has_prefix(tail, "/-/"@) {
                        None
                    } else {
                        Some((base, ns, proj, s.subrange(k + 3, s.len() as int)))
                    }
                }
            }
        }
    }
}

/// The scheme-plus-host prefix of a URL: `https://` up to but not
/// including the first `'/'` after it; `None` when the host is empty or
/// the scheme is another one.
pub open spec fn gl_base_of(s: Seq<char>) -> Option<Seq<char>> {
    let p = "https://"@;
    if !has_prefix(s, p) {
        None
    } else {
        let h = find_char(s, p.len() as int, '/');
        if h <= p.len() {
            None
        } else {
            Some(s.subrange(0, h))
        }
    }
}

/// Derives the API endpoint from a merge-request web URL. Returns `None`
/// exactly when the URL is not of the documented shape.
pub fn gitlab_api_url(url: &str) -> (r: Option<String>)
    ensures
        match gl_parse(url@) {
            Some(t) => r is Some && r.unwrap()@ == gl_api_of(t.0, t.1, t.2, t.3),
            None => r is None,
        },
{
    if !starts_with(url, "https://") {
        return None;
    }
    let plen: usize = "https://".unicode_len();
    assert(plen == "https://"@.len());
    let n = url.unicode_len();
    let h = find_char_at(url, plen, '/');
    if h <= plen || h >= n {
        return None;
    }
    let base = url.substring_char(0, h);
    let j = find_char_at(url, h + 1, '/');
    if j <= h + 1 || j >= n {
        return None;
    }
    let ns = url.substring_char(h + 1, j);
    let k = find_char_at(url, j + 1, '/');
    if k <= j + 1 || k >= n {
        return None;
    }
    let proj = url.substring_char(j + 1, k);
    let tail = url.substring_char(k, n);
    proof {
        assert(tail@ =~= url@.subrange(k as int, url@.len() as int));
    }
    if !starts_with(tail, "/-/") {
        return None;
    }
    proof {
        reveal_strlit("/-/");
    }
    let rest = url.substring_char(k + 3, n);
    let mut api = base.to_owned();
    api.append("/api/v4/projects/");
    api.append(ns);
    api.append("%2F");
    api.append(proj);
    api.append("/");
    api.append(rest);
    proof {
        let t = gl_parse(url@).unwrap();
        assert(t.0 == base@);
        assert(t.1 == ns@);
        assert(t.2 == proj@);
        assert(t.3 == rest@);
        assert(api@ =~= gl_api_of(base@, ns@, proj@, rest@));
    }
    Some(api)
}

/// Extracts the scheme-plus-host prefix from a URL. Returns `None`
/// exactly when `gl_base_of` does.
pub fn gitlab_base_url(url: &str) -> (r: Option<String>)
    ensures
        match gl_base_of(url@) {
            Some(b) => r is Some && r.unwrap()@ == b,
            None => r is None,
        },
{
    if !starts_with(url, "https://") {
        return None;
    }
    let plen: usize = "https://".unicode_len();
    assert(plen == "https://"@.len());
    let h = find_char_at(url, plen, '/');
    if h <= plen {
        return None;
    }
    let base = url.substring_char(0, h);
    Some(base.to_owned())
}

/// Builds the project-lookup endpoint from a scheme-plus-host prefix and
/// a numeric project id.
pub fn gitlab_project_api_url(base: &str, id: u32) -> (r: String)
    ensures
        r@ == gl_project_api_of(base@, id as int),
{
    let mut api = base.to_owned();
    api.append("/api/v4/projects/");
    append_decimal(id, &mut api);
    proof {
        assert(api@ =~= gl_project_api_of(base@, id as int));
    }
    api
}

/// The scheme-plus-host prefix the project lookup extracts from the
/// original URL is exactly the base the merge-request parse found, so
/// both API calls of a run address the same host.
pub proof fn lemma_gl_base_agrees(s: Seq<char>)
    requires
        gl_parse(s) is Some,
    ensures
        gl_base_of(s) == Some(gl_parse(s).unwrap().0),
{
}

/// Soundness of the parse: whatever parses was exactly a URL of the
/// documented shape, with well-formed segments.
pub proof fn lemma_gl_parse_sound(s: Seq<char>)
    requires
        gl_parse(s) is Some,
    ensures
        seg_ok(gl_parse(s).unwrap().1),
        seg_ok(gl_parse(s).unwrap().2),
        s == gl_web_of(
            gl_parse(s).unwrap().0,
            gl_parse(s).unwrap().1,
            gl_parse(s).unwrap().2,
            gl_parse(s).unwrap().3,
        ),
{
    let p = "https://"@;
    let i = p.len() as int;
    let h = find_char(s, i, '/');
    let j = find_char(s, h + 1, '/');
    let k = find_char(s, j + 1, '/');
    lemma_find_char(s, i, '/');
    lemma_find_char(s, h + 1, '/');
    lemma_find_char(s, j + 1, '/');
    let base = s.subrange(0, h);
    let ns = s.subrange(h + 1, j);
    let proj = s.subrange(j + 1, k);
    let rest = s.subrange(k + 3, s.len() as int);
    let tail = s.subrange(k, s.len() as int);
    reveal_strlit("/-/");
    reveal_strlit("/");
    assert(seg_ok(ns));
    assert(seg_ok(proj));
    assert forall|x: int| 0 <= x < 3 implies tail[x] == "/-/"@[x] by {
        assert(tail.subrange(0, 3)[x] == tail[x]);
    }
    assert(s =~= gl_web_of(base, ns, proj, rest));
}

/// Completeness of the parse, and the encoding law: every URL of the
/// documented shape parses back into its parts, and the derived endpoint
/// joins namespace and project with `%2F` where the web URL had `/`.
pub proof fn lemma_gitlab_encodes_namespace(
    base: Seq<char>,
    ns: Seq<char>,
    proj: Seq<char>,
    rest: Seq<char>,
)
    requires
        has_prefix(base, "https://"@),
        base.len() > "https://"@.len(),
        forall|x: int| "https://"@.len() <= x < base.len() ==> base[x] != '/',
        seg_ok(ns),
        seg_ok(proj),
    ensures
        gl_parse(gl_web_of(base, ns, proj, rest)) == Some((base, ns, proj, rest)),
        gl_api_of(base, ns, proj, rest) == base + "/api/v4/projects/"@ + ns + "%2F"@ + proj + "/"@
            + rest,
{
    let s = gl_web_of(base, ns, proj, rest);
    let p = "https://"@;
    reveal_strlit("https://");
    reveal_strlit("/-/");
    reveal_strlit("/");
    let i = p.len() as int;
    assert(s.subrange(0, i) =~= base.subrange(0, i));
    let h = base.len() as int;
    assert forall|x: int| i <= x < h implies s[x] != '/' by {
        assert(s[x] == base[x]);
    }
    assert(s[h] == '/');
    lemma_find_char_value(s, i, '/', h);
    let j = h + 1 + ns.len() as int;
    assert forall|x: int| h + 1 <= x < j implies s[x] != '/' by {
        assert(s[x] == ns[x - (h + 1)]);
    }
    assert(s[j] == '/');
    lemma_find_char_value(s, h + 1, '/', j);
    let k = j + 1 + proj.len() as int;
    assert forall|x: int| j + 1 <= x < k implies s[x] != '/' by {
        assert(s[x] == proj[x - (j + 1)]);
    }
    assert(s[k] == '/');
    lemma_find_char_value(s, j + 1, '/', k);
    assert(s.subrange(0, h) =~= base);
    assert(s.subrange(h + 1, j) =~= ns);
    assert(s.subrange(j + 1, k) =~= proj);
    let tail = s.subrange(k, s.len() as int);
    assert(tail.subrange(0, 3) =~= "/-/"@);
    assert(s.subrange(k + 3, s.len() as int) =~= rest);
}

} // verus!
