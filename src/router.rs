//! Maps a request's method and path to the handler that answers it.
use vstd::prelude::*;
use crate::text::chars_of;

verus! {

/// The method of a request.
#[derive(Debug, Clone, Copy, PartialEq, Eq, Structural)]
pub enum Method {
    Get,
    Head,
    Post,
    Put,
    Delete,
    Patch,
    Options,
    Other,
}

/// The handler that a request is dispatched to.
#[derive(Debug, Clone, Copy, PartialEq, Eq, Structural)]
pub enum Route {
    Favicon,
    Health,
    Liveness,
    Readiness,
    Hostname,
    /// A chapter, by its 1-based number as written in the path.
    Chapter(usize),
    Config,
    Secret,
    ConfigFile,
    ConfigMapFile,
    ConfigSecretFile,
    /// A GET request that no route matches.
    NotFound,
    /// A request with another method than GET.
    MethodNotAllowed,
}

/// The path prefix of a chapter request; the chapter number follows it.
pub open spec fn chapter_prefix() -> Seq<char> {
    "/enchiridion/"@
}

pub open spec fn is_digit(c: char) -> bool {
    '0' <= c && c <= '9'
}

/// The value of a string of decimal digits.
pub open spec fn value_of(d: Seq<char>) -> nat
    decreases d.len(),
{
    if d.len() == 0 {
        0
    } else {
        value_of(d.drop_last()) * 10 + (d.last() as nat - '0' as nat) as nat
    }
}

/// The value of a non-empty string of decimal digits; `None` for anything else.
pub open spec fn digits_value(d: Seq<char>) -> Option<nat> {
    if d.len() > 0 && forall|i: int| 0 <= i < d.len() ==> is_digit(#[trigger] d[i]) {
        Some(value_of(d))
    } else {
        None
    }
}

/// The number that a path segment spells: decimal digits, optionally after a
/// single `+`.
pub open spec fn segment_value(seg: Seq<char>) -> Option<nat> {
    if seg.len() > 0 && seg[0] == '+' {
        digits_value(seg.drop_first())
    } else {
        digits_value(seg)
    }
}

/// The chapter number that a path segment gives, where it spells a number
/// that fits in a `usize`.
pub open spec fn chapter_number(seg: Seq<char>) -> Option<usize> {
    match segment_value(seg) {
        Some(v) => if v <= usize::MAX {
            Some(v as usize)
        } else {
            None
        },
        None => None,
    }
}

/// The route of a request with method `m` and path `p`. Only GET requests
/// are routed; every other method is refused. A chapter path whose last
/// segment is not a number matches no route.
pub open spec fn route_of(m: Method, p: Seq<char>) -> Route {
    if m != Method::Get {
        Route::MethodNotAllowed
    } else if chapter_prefix().is_prefix_of(p) {
        match chapter_number(p.subrange(chapter_prefix().len() as int, p.len() as int)) {
            Some(n) => Route::Chapter(n),
            None => Route::NotFound,
        }
    } else if p == "/favicon.ico"@ {
        Route::Favicon
    } else if p == "/health"@ {
        Route::Health
    } else if p == "/liveness"@ {
        Route::Liveness
    } else if p == "/readiness"@ {
        Route::Readiness
    } else if p == "/hostname"@ {
        Route::Hostname
    } else if p == "/config"@ {
        Route::Config
    } else if p == "/secret"@ {
        Route::Secret
    } else if p == "/config_file"@ {
        Route::ConfigFile
    } else if p == "/config_map_file"@ {
        Route::ConfigMapFile
    } else if p == "/config_secret_file"@ {
        Route::ConfigSecretFile
    } else {
        Route::NotFound
    }
}

proof fn lemma_value_of_prefix(d: Seq<char>, k: int)
    requires
        0 <= k <= d.len(),
    ensures
        value_of(d.subrange(0, k)) <= value_of(d),
    decreases d.len(),
{
    if k < d.len() {
        assert(d.drop_last().subrange(0, k) =~= d.subrange(0, k));
        lemma_value_of_prefix(d.drop_last(), k);
    } else {
        assert(d.subrange(0, k) =~= d);
    }
}

/// Whether `a` holds, from `start` on, the characters of `b`.
fn matches_at(a: &Vec<char>, start: usize, b: &Vec<char>) -> (r: bool)
    requires
        start <= a@.len(),
    ensures
        r == (a@.subrange(start as int, a@.len() as int) == b@),
{
    if a.len() - start != b.len() {
        assert(a@.subrange(start as int, a@.len() as int).len() != b@.len());
        return false;
    }
    let alen = a.len();
    let mut i: usize = 0;
    while i < b.len()
        invariant
            alen == a@.len(),
            start <= a@.len(),
            start + b@.len() == a@.len(),
            i <= b@.len(),
            forall|j: int| 0 <= j < i ==> a@[start + j] == b@[j],
        decreases b@.len() - i,
    {
        if a[start + i] != b[i] {
            assert(a@.subrange(start as int, a@.len() as int)[i as int] != b@[i as int]);
            return false;
        }
        i = i + 1;
    }
    assert(a@.subrange(start as int, a@.len() as int) =~= b@);
    true
}

/// Whether `a` is the path `lit`.
fn is_path(a: &Vec<char>, lit: &str) -> (r: bool)
    ensures
        r == (a@ == lit@),
{
    let b = chars_of(lit);
    let r = matches_at(a, 0, &b);
    assert(a@.subrange(0, a@.len() as int) =~= a@);
    r
}

/// Whether `a` starts with the characters of `b`.
fn has_prefix(a: &Vec<char>, b: &Vec<char>) -> (r: bool)
    ensures
        r == b@.is_prefix_of(a@),
{
    if b.len() > a.len() {
        return false;
    }
    let mut i: usize = 0;
    while i < b.len()
        invariant
            b@.len() <= a@.len(),
            i <= b@.len(),
            forall|j: int| 0 <= j < i ==> a@[j] == b@[j],
        decreases b@.len() - i,
    {
        if a[i] != b[i] {
            return false;
        }
        i = i + 1;
    }
    assert(a@.subrange(0, b@.len() as int) =~= b@);
    true
}

/// The chapter number spelled by `p` from `start` on, as the route gives it.
pub fn parse_chapter(p: &Vec<char>, start: usize) -> (r: Option<usize>)
    requires
        start <= p@.len(),
    ensures
        r == chapter_number(p@.subrange(start as int, p@.len() as int)),
{
    let ghost seg = p@.subrange(start as int, p@.len() as int);
    let n = p.len();
    let mut i = start;
    if i < n && p[i] == '+' {
        i = i + 1;
    }
    let ghost d = if seg.len() > 0 && seg[0] == '+' {
        seg.drop_first()
    } else {
        seg
    };
    assert(d =~= p@.subrange(i as int, n as int));
    assert(segment_value(seg) == digits_value(d));
    if i == n {
        return None;
    }
    let first = i;
    let mut acc: usize = 0;
    while i < n
        invariant
            first <= i <= n,
            first < n,
            n == p@.len(),
            seg == p@.subrange(start as int, n as int),
            segment_value(seg) == digits_value(d),
            d == p@.subrange(first as int, n as int),
            forall|j: int| first <= j < i ==> is_digit(#[trigger] p@[j]),
            acc == value_of(p@.subrange(first as int, i as int)),
        decreases n - i,
    {
        let c = p[i];
        if !('0' <= c && c <= '9') {
            assert(!is_digit(d[i - first]));
            return None;
        }
        let v = (c as u32 - '0' as u32) as usize;
        let ghost pre = p@.subrange(first as int, i + 1);
        assert(pre.drop_last() =~= p@.subrange(first as int, i as int));
        if acc > (usize::MAX - v) / 10 {
            proof {
                assert(acc * 10 + v > usize::MAX) by (nonlinear_arith)
                    requires
                        acc > (usize::MAX - v) / 10,
                        v <= 9,
                ;
                assert(value_of(pre) > usize::MAX);
                assert(d.subrange(0, i + 1 - first) =~= pre);
                lemma_value_of_prefix(d, i + 1 - first);
            }
            return None;
        }
        proof {
            assert(acc * 10 + v <= usize::MAX) by (nonlinear_arith)
                requires
                    acc <= (usize::MAX - v) / 10,
                    v <= 9,
            ;
        }
        acc = acc * 10 + v;
        i = i + 1;
    }
    assert(p@.subrange(first as int, n as int) =~= d);
    assert(forall|j: int| 0 <= j < d.len() ==> is_digit(#[trigger] d[j])) by {
        assert(forall|j: int| 0 <= j < d.len() ==> d[j] == p@[first + j]);
    }
    Some(acc)
}

/// The route of a request with method `method` and path `path`.
pub fn route(method: Method, path: &str) -> (r: Route)
    ensures
        r == route_of(method, path@),
{
    if method != Method::Get {
        return Route::MethodNotAllowed;
    }
    let p = chars_of(path);
    let prefix = chars_of("/enchiridion/");
    if has_prefix(&p, &prefix) {
        return match parse_chapter(&p, prefix.len()) {
            Some(n) => Route::Chapter(n),
            None => Route::NotFound,
        };
    }
    if is_path(&p, "/favicon.ico") {
        Route::Favicon
    } else if is_path(&p, "/health") {
        Route::Health
    } else if is_path(&p, "/liveness") {
        Route::Liveness
    } else if is_path(&p, "/readiness") {
        Route::Readiness
    } else if is_path(&p, "/hostname") {
        Route::Hostname
    } else if is_path(&p, "/config") {
        Route::Config
    } else if is_path(&p, "/secret") {
        Route::Secret
    } else if is_path(&p, "/config_file") {
        Route::ConfigFile
    } else if is_path(&p, "/config_map_file") {
        Route::ConfigMapFile
    } else if is_path(&p, "/config_secret_file") {
        Route::ConfigSecretFile
    } else {
        Route::NotFound
    }
}

} // verus!
