//! GitHub-style adapter: turns a pull-request web URL of the shape
//! `https://github.com/<owner>/<repo>/pull/<number>` into the API
//! endpoint `https://api.github.com/repos/<owner>/<repo>/pulls/<number>`.
use vstd::prelude::*;
use vstd::string::*;

use crate::text::find_char;
use crate::text::find_char_at;
use crate::text::has_prefix;
use crate::text::lemma_find_char;
use crate::text::lemma_find_char_value;
use crate::text::starts_with;

verus! {

/// A path segment: non-empty and free of `'/'`.
pub open spec fn seg_ok(s: Seq<char>) -> bool {
    s.len() > 0 && forall|i: int| 0 <= i < s.len() ==> s[i] != '/'
}

/// Decimal digits only, at least one.
pub open spec fn digits_ok(s: Seq<char>) -> bool {
    s.len() > 0 && forall|i: int| 0 <= i < s.len() ==> '0' <= #[trigger] s[i] <= '9'
}

/// The web URL of a pull request, assembled from its parts.
pub open spec fn gh_web_of(owner: Seq<char>, repo: Seq<char>, num: Seq<char>) -> Seq<char> {
    "https://github.com/"@ + owner + "/"@ + repo + "/pull/"@ + num
}

/// The API endpoint for the same pull request.
pub open spec fn gh_api_of(owner: Seq<char>, repo: Seq<char>, num: Seq<char>) -> Seq<char> {
    "https://api.github.com/repos/"@ + owner + "/"@ + repo + "/pulls/"@ + num
}

/// Deterministic parse of a pull-request web URL into
/// `(owner, repo, number)`; `None` on anything of another shape.
pub open spec fn gh_parse(s: Seq<char>) -> Option<(Seq<char>, Seq<char>, Seq<char>)> {
    let p = "https://github.com/"@;
    if !has_prefix(s, p) {
        None
    } else {
        let i = p.len() as int;
        let j = find_char(s, i, '/');
        if j <= i || j >= s.len() {
            None
        } else {
            let owner = s.subrange(i, j);
            let k = find_char(s, j + 1, '/');
            if k <= j + 1 || k >= s.len() {
                None
            } else {
                let repo = s.subrange(j + 1, k);
                let tail = s.subrange(k, s.len() as int);
                if !has_prefix(tail, "/pull/"@) {
                    None
                } else {
                    let num = s.subrange(k + 6, s.len() as int);
                    if digits_ok(num) {
                        Some((owner, repo, num))
                    } else {
                        None
                    }
                }
            }
        }
    }
}

/// The endpoint derivation as a total rewriting: URLs of the documented
/// shape are rewritten, all other text is left unchanged.
pub open spec fn gh_derive(s: Seq<char>) -> Seq<char> {
    match gh_parse(s) {
        Some(t) => gh_api_of(t.0, t.1, t.2),
        None => s,
    }
}

fn all_digits(s: &str, from: usize) -> (r: bool)
    requires
        from <= s@.len(),
    ensures
        r == digits_ok(s@.subrange(from as int, s@.len() as int)),
{
    let n = s.unicode_len();
    if from == n {
        return false;
    }
    let mut i: usize = from;
    while i < n
        invariant
            from <= i <= n,
            n == s@.len(),
            from < n,
            forall|j: int| from <= j < i ==> '0' <= #[trigger] s@[j] <= '9',
        decreases n - i,
    {
        let c = s.get_char(i);
        if c < '0' || c > '9' {
            assert(s@.subrange(from as int, n as int)[i - from] == s@[i as int]);
            return false;
        }
        i = i + 1;
    }
    assert forall|j: int|
        0 <= j < s@.subrange(from as int, n as int).len() implies '0' <= #[trigger] s@.subrange(
        from as int,
        n as int,
    )[j] <= '9' by {
        assert(s@.subrange(from as int, n as int)[j] == s@[j + from]);
    }
    true
}

/// Derives the API endpoint from a pull-request web URL. Returns `None`
/// exactly when the URL is not of the documented shape.
pub fn github_api_url(url: &str) -> (r: Option<String>)
    ensures
        match gh_parse(url@) {
            Some(t) => r is Some && r.unwrap()@ == gh_api_of(t.0, t.1, t.2),
            None => r is None,
        },
{
    let ghost p = "https://github.com/"@;
    if !starts_with(url, "https://github.com/") {
        return None;
    }
    let plen: usize = "https://github.com/".unicode_len();
    assert(plen == p.len());
    let n = url.unicode_len();
    let j = find_char_at(url, plen, '/');
    if j <= plen || j >= n {
        return None;
    }
    let owner = url.substring_char(plen, j);
    let k = find_char_at(url, j + 1, '/');
    if k <= j + 1 || k >= n {
        return None;
    }
    let repo = url.substring_char(j + 1, k);
    let tail = url.substring_char(k, n);
    proof {
        assert(tail@ =~= url@.subrange(k as int, url@.len() as int));
    }
    if !starts_with(tail, "/pull/") {
        return None;
    }
    proof {
        reveal_strlit("/pull/");
    }
    if !all_digits(url, k + 6) {
        return None;
    }
    let num = url.substring_char(k + 6, n);
    let mut api = String::from_str("https://api.github.com/repos/");
    api.append(owner);
    api.append("/");
    api.append(repo);
    api.append("/pulls/");
    api.append(num);
    proof {
        let t = gh_parse(url@).unwrap();
        assert(t.0 == owner@);
        assert(t.1 == repo@);
        assert(t.2 == num@);
        assert(api@ =~= gh_api_of(owner@, repo@, num@));
    }
    Some(api)
}

/// Soundness of the parse: whatever parses was exactly a URL of the
/// documented shape, with well-formed segments.
pub proof fn lemma_gh_parse_sound(s: Seq<char>)
    requires
        gh_parse(s) is Some,
    ensures
        seg_ok(gh_parse(s).unwrap().0),
        seg_ok(gh_parse(s).unwrap().1),
        digits_ok(gh_parse(s).unwrap().2),
        s == gh_web_of(gh_parse(s).unwrap().0, gh_parse(s).unwrap().1, gh_parse(s).unwrap().2),
{
    let p = "https://github.com/"@;
    let i = p.len() as int;
    let j = find_char(s, i, '/');
    let k = find_char(s, j + 1, '/');
    lemma_find_char(s, i, '/');
    lemma_find_char(s, j + 1, '/');
    let owner = s.subrange(i, j);
    let repo = s.subrange(j + 1, k);
    let num = s.subrange(k + 6, s.len() as int);
    let tail = s.subrange(k, s.len() as int);
    reveal_strlit("/pull/");
    reveal_strlit("/");
    assert(seg_ok(owner));
    assert(seg_ok(repo));
    assert forall|x: int| 0 <= x < 6 implies tail[x] == "/pull/"@[x] by {
        assert(tail.subrange(0, 6)[x] == tail[x]);
    }
    assert(s =~= gh_web_of(owner, repo, num));
}

/// Completeness of the parse: every URL of the documented shape parses
/// back into exactly its parts.
pub proof fn lemma_gh_parse_complete(owner: Seq<char>, repo: Seq<char>, num: Seq<char>)
    requires
        seg_ok(owner),
        seg_ok(repo),
        digits_ok(num),
    ensures
        gh_parse(gh_web_of(owner, repo, num)) == Some((owner, repo, num)),
{
    let s = gh_web_of(owner, repo, num);
    let p = "https://github.com/"@;
    reveal_strlit("https://github.com/");
    reveal_strlit("/pull/");
    reveal_strlit("/");
    let i = p.len() as int;
    assert(s.subrange(0, i) =~= p);
    let j = i + owner.len() as int;
    assert forall|x: int| i <= x < j implies s[x] != '/' by {
        assert(s[x] == owner[x - i]);
    }
    assert(s[j] == '/');
    lemma_find_char_value(s, i, '/', j);
    let k = j + 1 + repo.len() as int;
    assert forall|x: int| j + 1 <= x < k implies s[x] != '/' by {
        assert(s[x] == repo[x - (j + 1)]);
    }
    assert(s[k] == '/');
    lemma_find_char_value(s, j + 1, '/', k);
    assert(s.subrange(i, j) =~= owner);
    assert(s.subrange(j + 1, k) =~= repo);
    let tail = s.subrange(k, s.len() as int);
    assert(tail.subrange(0, 6) =~= "/pull/"@);
    assert(s.subrange(k + 6, s.len() as int) =~= num);
}

/// Deriving the endpoint is idempotent: a derived endpoint is not itself
/// a web URL of the documented shape, so deriving again changes nothing.
pub proof fn lemma_github_derivation_idempotent(s: Seq<char>)
    ensures
        gh_derive(gh_derive(s)) == gh_derive(s),
{
    if gh_parse(s) is Some {
        let t = gh_parse(s).unwrap();
        let api = gh_api_of(t.0, t.1, t.2);
        reveal_strlit("https://api.github.com/repos/");
        reveal_strlit("https://github.com/");
        if has_prefix(api, "https://github.com/"@) {
            assert(api.subrange(0, 19)[8] == api[8]);
            assert(api[8] == "https://api.github.com/repos/"@[8]);
            assert(false);
        }
        assert(gh_parse(api) is None);
    }
}

} // verus!
