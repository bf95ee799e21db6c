use vstd::prelude::*;
use crate::text::{chars_of, lemma_trim_end_char, lemma_trim_start_char, trim_end_char, trim_start_char};

verus! {

/// The scheme separator `://` starts at index `i` of `s`.
pub open spec fn sep_at(s: Seq<char>, i: int) -> bool {
    0 <= i && i + 3 <= s.len() && s[i] == ':' && s[i + 1] == '/' && s[i + 2] == '/'
}

/// The first index `>= k` at which `://` starts in `s`, if any.
pub open spec fn first_sep(s: Seq<char>, k: int) -> Option<int>
    decreases s.len() - k,
{
    if k < 0 || k + 3 > s.len() {
        None
    } else if sep_at(s, k) {
        Some(k)
    } else {
        first_sep(s, k + 1)
    }
}

/// The first index in `[k, b)` holding `/` or `:`, or `b` when there is none.
pub open spec fn first_stop(s: Seq<char>, k: int, b: int) -> int
    decreases b - k,
{
    if k >= b {
        b
    } else if s[k] == '/' || s[k] == ':' {
        k
    } else {
        first_stop(s, k + 1, b)
    }
}

/// Where the part of `url` after the scheme starts and ends: the text
/// between the first `://` and the next one (or the end); the whole of
/// `url` when it holds no `://`.
pub open spec fn after_scheme_bounds(url: Seq<char>) -> (int, int) {
    match first_sep(url, 0) {
        None => (0, url.len() as int),
        Some(i) => match first_sep(url, i + 3) {
            None => (i + 3, url.len() as int),
            Some(j) => (i + 3, j),
        },
    }
}

/// Where the authority that starts at `k` ends: the first index in `[k, b)`
/// holding `/`, `?` or `#`, or `b` when there is none.
pub open spec fn authority_end(s: Seq<char>, k: int, b: int) -> int
    decreases b - k,
{
    if k >= b {
        b
    } else if s[k] == '/' || s[k] == '?' || s[k] == '#' {
        k
    } else {
        authority_end(s, k + 1, b)
    }
}

/// The last index in `[k, e)` holding `@`, if any.
pub open spec fn last_at(s: Seq<char>, k: int, e: int) -> Option<int>
    decreases e - k,
{
    if e <= k {
        None
    } else if s[e - 1] == '@' {
        Some(e - 1)
    } else {
        last_at(s, k, e - 1)
    }
}

/// Where the host of `url` starts: after the scheme, and after the userinfo
/// (everything up to the last `@` of the authority, which ends at the first
/// `/`, `?` or `#`) when there is one.
pub open spec fn host_start(url: Seq<char>) -> int {
    let (a, b) = after_scheme_bounds(url);
    match last_at(url, a, authority_end(url, a, b)) {
        Some(i) => i + 1,
        None => a,
    }
}

/// The host part of `url`: what follows the scheme and the userinfo, up to
/// the first `/` or `:` (the port).
pub open spec fn host_of(url: Seq<char>) -> Seq<char> {
    let (a, b) = after_scheme_bounds(url);
    url.subrange(host_start(url), first_stop(url, host_start(url), b))
}

/// `s` begins with `prefix`.
pub open spec fn starts_with(s: Seq<char>, prefix: Seq<char>) -> bool {
    prefix.len() <= s.len() && s.take(prefix.len() as int) == prefix
}

/// The host part of `url` begins with `prefix`.
pub open spec fn spec_host_starts_with(url: Seq<char>, prefix: Seq<char>) -> bool {
    starts_with(host_of(url), prefix)
}

/// `base` without its trailing slashes, one slash, then `path` without its
/// leading slashes.
pub open spec fn spec_url_for(base: Seq<char>, path: Seq<char>) -> Seq<char> {
    trim_end_char(base, '/') + seq!['/'] + trim_start_char(path, '/')
}

/// Slashes at the end of the base URL do not change any resource URL.
pub proof fn law_url_for_ignores_trailing_slash(base: Seq<char>, path: Seq<char>)
    ensures
        spec_url_for(base.push('/'), path) == spec_url_for(base, path),
{
    assert(base.push('/').drop_last() == base);
}

/// Slashes at the start of a resource path do not change its URL.
pub proof fn law_url_for_ignores_leading_slash(base: Seq<char>, path: Seq<char>)
    ensures
        spec_url_for(base, seq!['/'] + path) == spec_url_for(base, path),
{
    assert((seq!['/'] + path).drop_first() == path);
}

/// A resource URL is a prefix of the base URL, exactly one slash, and a
/// suffix of the path: the slash that joins them is never doubled.
pub proof fn law_url_for_single_slash(base: Seq<char>, path: Seq<char>)
    ensures
        ({
            let u = spec_url_for(base, path);
            let n = trim_end_char(base, '/').len() as int;
            &&& u[n] == '/'
            &&& n > 0 ==> u[n - 1] != '/'
            &&& n + 1 < u.len() ==> u[n + 1] != '/'
            &&& u.take(n) == base.take(n)
            &&& u.skip(n + 1) == path.skip(path.len() - (u.len() - n - 1))
            &&& u.len() - n - 1 <= path.len()
        }),
{
    lemma_trim_end_char(base, '/');
    lemma_trim_start_char(path, '/');
    let u = spec_url_for(base, path);
    let b = trim_end_char(base, '/');
    let p = trim_start_char(path, '/');
    let n = b.len() as int;
    assert(u.take(n) == b);
    assert(u.skip(n + 1) == p);
    if n > 0 {
        assert(u[n - 1] == b.last());
    }
    if n + 1 < u.len() {
        assert(u[n + 1] == p[0]);
    }
}

/// `h` is a bare host name: non-empty, with no `/`, `:` or `@`.
pub open spec fn plain_host(h: Seq<char>) -> bool {
    h.len() > 0 && forall|i: int| 0 <= i < h.len() ==> h[i] != '/' && h[i] != ':' && h[i] != '@'
}

proof fn lemma_first_sep_none(s: Seq<char>, k: int)
    requires
        0 <= k,
        forall|i: int| k <= i < s.len() ==> s[i] != ':',
    ensures
        first_sep(s, k) is None,
    decreases s.len() - k,
{
    if k + 3 <= s.len() {
        lemma_first_sep_none(s, k + 1);
    }
}

proof fn lemma_first_sep_found(s: Seq<char>, k: int, j: int)
    requires
        0 <= k <= j,
        sep_at(s, j),
        forall|i: int| k <= i < j ==> s[i] != ':',
    ensures
        first_sep(s, k) == Some(j),
    decreases j - k,
{
    if k < j {
        lemma_first_sep_found(s, k + 1, j);
    }
}

proof fn lemma_first_sep_in(s: Seq<char>, k: int)
    ensures
        first_sep(s, k) matches Some(j) ==> k <= j && sep_at(s, j),
    decreases s.len() - k,
{
    if k >= 0 && k + 3 <= s.len() && !sep_at(s, k) {
        lemma_first_sep_in(s, k + 1);
    }
}

proof fn lemma_first_stop_at(s: Seq<char>, k: int, j: int, b: int)
    requires
        k <= j <= b,
        forall|i: int| k <= i < j ==> s[i] != '/' && s[i] != ':',
        j == b || s[j] == '/' || s[j] == ':',
    ensures
        first_stop(s, k, b) == j,
    decreases j - k,
{
    if k < j {
        lemma_first_stop_at(s, k + 1, j, b);
    }
}

proof fn lemma_authority_end_bounds(s: Seq<char>, k: int, b: int)
    requires
        k <= b,
    ensures
        k <= authority_end(s, k, b) <= b,
    decreases b - k,
{
    if k < b && !(s[k] == '/' || s[k] == '?' || s[k] == '#') {
        lemma_authority_end_bounds(s, k + 1, b);
    }
}

proof fn lemma_last_at_none(s: Seq<char>, k: int, e: int)
    requires
        forall|i: int| k <= i < e ==> s[i] != '@',
    ensures
        last_at(s, k, e) is None,
    decreases e - k,
{
    if e > k {
        lemma_last_at_none(s, k, e - 1);
    }
}

/// A bare host name is its own host part.
pub proof fn law_host_plain(h: Seq<char>, p: Seq<char>)
    requires
        plain_host(h),
    ensures
        host_of(h) == h,
        spec_host_starts_with(h, p) == starts_with(h, p),
{
    lemma_first_sep_none(h, 0);
    lemma_authority_end_bounds(h, 0, h.len() as int);
    lemma_last_at_none(h, 0, authority_end(h, 0, h.len() as int));
    lemma_first_stop_at(h, 0, h.len() as int, h.len() as int);
    assert(h.subrange(0, h.len() as int) == h);
}

/// A bare host name after a scheme (with no `:`) and `://`, followed by
/// nothing or by a port or path (with no `@`), has the same host part as
/// the bare name: `http://h`, `https://h:443/any/path` and `h` agree.
pub proof fn law_host_after_scheme(scheme: Seq<char>, h: Seq<char>, rest: Seq<char>, p: Seq<char>)
    requires
        plain_host(h),
        forall|i: int| 0 <= i < scheme.len() ==> scheme[i] != ':',
        rest.len() == 0 || rest[0] == '/' || rest[0] == ':',
        forall|i: int| 0 <= i < rest.len() ==> rest[i] != '@',
    ensures
        host_of(scheme + seq![':', '/', '/'] + h + rest) == h,
        spec_host_starts_with(scheme + seq![':', '/', '/'] + h + rest, p) == starts_with(h, p),
{
    let url = scheme + seq![':', '/', '/'] + h + rest;
    let n = scheme.len() as int;
    let a = n + 3;
    let e = a + h.len();
    assert(url.len() == e + rest.len());
    assert(sep_at(url, n));
    lemma_first_sep_found(url, 0, n);
    lemma_first_sep_in(url, a);
    let b = after_scheme_bounds(url).1;
    assert(after_scheme_bounds(url).0 == a);
    assert(e <= b <= url.len()) by {
        if let Some(j) = first_sep(url, a) {
            if j < e {
                assert(url[j] == h[j - a]);
            }
        }
    }
    assert(forall|i: int| a <= i < url.len() ==> url[i] != '@') by {
        assert forall|i: int| a <= i < url.len() implies url[i] != '@' by {
            if i < e {
                assert(url[i] == h[i - a]);
            } else {
                assert(url[i] == rest[i - e]);
            }
        }
    }
    lemma_authority_end_bounds(url, a, b);
    lemma_last_at_none(url, a, authority_end(url, a, b));
    assert(host_start(url) == a);
    assert forall|i: int| a <= i < e implies url[i] != '/' && url[i] != ':' by {
        assert(url[i] == h[i - a]);
    }
    if e < b {
        assert(url[e] == rest[0]);
    }
    lemma_first_stop_at(url, a, e, b);
    assert(url.subrange(a, e) =~= h);
}

fn find_sep(v: &Vec<char>, from: usize) -> (r: Option<usize>)
    requires
        from <= v.len(),
    ensures
        match r {
            Some(i) => first_sep(v@, from as int) == Some(i as int),
            None => first_sep(v@, from as int) is None,
        },
        r matches Some(i) ==> from <= i && i + 3 <= v.len(),
{
    let mut k = from;
    while v.len() >= 3 && k <= v.len() - 3
        invariant
            from <= k <= v.len(),
            first_sep(v@, from as int) == first_sep(v@, k as int),
        decreases v.len() - k,
    {
        if v[k] == ':' && v[k + 1] == '/' && v[k + 2] == '/' {
            return Some(k);
        }
        k = k + 1;
    }
    None
}

fn find_stop(v: &Vec<char>, from: usize, to: usize) -> (r: usize)
    requires
        from <= to <= v.len(),
    ensures
        r as int == first_stop(v@, from as int, to as int),
        from <= r <= to,
{
    let mut k = from;
    while k < to
        invariant
            from <= k <= to <= v.len(),
            first_stop(v@, from as int, to as int) == first_stop(v@, k as int, to as int),
        decreases to - k,
    {
        if v[k] == '/' || v[k] == ':' {
            return k;
        }
        k = k + 1;
    }
    k
}

fn find_authority_end(v: &Vec<char>, from: usize, to: usize) -> (r: usize)
    requires
        from <= to <= v.len(),
    ensures
        r as int == authority_end(v@, from as int, to as int),
        from <= r <= to,
{
    let mut k = from;
    while k < to
        invariant
            from <= k <= to <= v.len(),
            authority_end(v@, from as int, to as int) == authority_end(v@, k as int, to as int),
        decreases to - k,
    {
        if v[k] == '/' || v[k] == '?' || v[k] == '#' {
            return k;
        }
        k = k + 1;
    }
    k
}

fn find_last_at(v: &Vec<char>, from: usize, to: usize) -> (r: Option<usize>)
    requires
        from <= to <= v.len(),
    ensures
        match r {
            Some(i) => last_at(v@, from as int, to as int) == Some(i as int) && from <= i < to,
            None => last_at(v@, from as int, to as int) is None,
        },
{
    let mut e = to;
    while e > from
        invariant
            from <= e <= to <= v.len(),
            last_at(v@, from as int, to as int) == last_at(v@, from as int, e as int),
        decreases e - from,
    {
        if v[e - 1] == '@' {
            return Some(e - 1);
        }
        e = e - 1;
    }
    None
}

/// Returns true if the host part of `url` starts with `prefix`.
pub fn host_starts_with(url: &str, prefix: &str) -> (r: bool)
    ensures
        r == spec_host_starts_with(url@, prefix@),
{
    let u = chars_of(url);
    let p = chars_of(prefix);
    let (a, b) = match find_sep(&u, 0) {
        None => (0, u.len()),
        Some(i) => match find_sep(&u, i + 3) {
            None => (i + 3, u.len()),
            Some(j) => (i + 3, j),
        },
    };
    assert(a <= b <= u.len() && (a as int, b as int) == after_scheme_bounds(u@));
    let auth_end = find_authority_end(&u, a, b);
    let h = match find_last_at(&u, a, auth_end) {
        Some(i) => i + 1,
        None => a,
    };
    assert(h as int == host_start(u@));
    let e = find_stop(&u, h, b);
    assert(host_of(url@) == u@.subrange(h as int, e as int));
    if p.len() > e - h {
        return false;
    }
    let mut i: usize = 0;
    while i < p.len()
        invariant
            h <= e <= u.len(),
            p.len() <= e - h,
            u@ == url@,
            p@ == prefix@,
            host_of(url@) == u@.subrange(h as int, e as int),
            i <= p.len(),
            forall|t: int| 0 <= t < i ==> u@[h + t] == p@[t],
        decreases p.len() - i,
    {
        if u[h + i] != p[i] {
            assert(u@.subrange(h as int, e as int).take(p@.len() as int)[i as int] != p@[i as int]);
            return false;
        }
        i = i + 1;
    }
    assert(u@.subrange(h as int, e as int).take(p@.len() as int) =~= p@);
    true
}

} // verus!
