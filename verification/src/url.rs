//! Resolution of request paths against an optional base URL.

use vstd::prelude::*;
use vstd::string::*;

verus! {

/// `s` with every trailing `/` removed.
pub open spec fn trim_trailing_slashes(s: Seq<char>) -> Seq<char>
    decreases s.len(),
{
    if s.len() > 0 && s.last() == '/' {
        trim_trailing_slashes(s.drop_last())
    } else {
        s
    }
}

/// `s` with every leading `/` removed.
pub open spec fn trim_leading_slashes(s: Seq<char>) -> Seq<char>
    decreases s.len(),
{
    if s.len() > 0 && s[0] == '/' {
        trim_leading_slashes(s.drop_first())
    } else {
        s
    }
}

/// The URL a request for `path` goes to: with a base, the base without its
/// trailing slashes, one `/`, and the path without its leading slashes;
/// without a base, the path itself.
pub open spec fn resolve(base: Option<Seq<char>>, path: Seq<char>) -> Seq<char> {
    match base {
        Some(b) => trim_trailing_slashes(b) + seq!['/'] + trim_leading_slashes(path),
        None => path,
    }
}

/// `n` slash characters.
pub open spec fn slashes(n: nat) -> Seq<char> {
    Seq::new(n, |i: int| '/')
}

/// Trimming trailing slashes leaves a prefix of the input that does not
/// end in `/`, and trimming again changes nothing.
pub proof fn trim_trailing_slashes_is_clean(s: Seq<char>)
    ensures
        trim_trailing_slashes(s).len() <= s.len(),
        trim_trailing_slashes(s) =~= s.subrange(0, trim_trailing_slashes(s).len() as int),
        trim_trailing_slashes(s).len() > 0 ==> trim_trailing_slashes(s).last() != '/',
        trim_trailing_slashes(trim_trailing_slashes(s)) == trim_trailing_slashes(s),
    decreases s.len(),
{
    if s.len() > 0 && s.last() == '/' {
        trim_trailing_slashes_is_clean(s.drop_last());
    }
}

/// Trimming leading slashes leaves a suffix of the input that does not
/// start with `/`, and trimming again changes nothing.
pub proof fn trim_leading_slashes_is_clean(s: Seq<char>)
    ensures
        trim_leading_slashes(s).len() <= s.len(),
        trim_leading_slashes(s) =~= s.subrange(
            s.len() - trim_leading_slashes(s).len(),
            s.len() as int,
        ),
        trim_leading_slashes(s).len() > 0 ==> trim_leading_slashes(s)[0] != '/',
        trim_leading_slashes(trim_leading_slashes(s)) == trim_leading_slashes(s),
    decreases s.len(),
{
    if s.len() > 0 && s[0] == '/' {
        trim_leading_slashes_is_clean(s.drop_first());
    }
}

proof fn trim_trailing_ignores_appended_slashes(s: Seq<char>, n: nat)
    ensures
        trim_trailing_slashes(s + slashes(n)) == trim_trailing_slashes(s),
    decreases n,
{
    if n > 0 {
        assert((s + slashes(n)).drop_last() =~= s + slashes((n - 1) as nat));
        trim_trailing_ignores_appended_slashes(s, (n - 1) as nat);
    } else {
        assert(s + slashes(n) =~= s);
    }
}

proof fn trim_leading_ignores_prepended_slashes(s: Seq<char>, n: nat)
    ensures
        trim_leading_slashes(slashes(n) + s) == trim_leading_slashes(s),
    decreases n,
{
    if n > 0 {
        assert((slashes(n) + s).drop_first() =~= slashes((n - 1) as nat) + s);
        trim_leading_ignores_prepended_slashes(s, (n - 1) as nat);
    } else {
        assert(slashes(n) + s =~= s);
    }
}

/// Extra trailing slashes on the base URL do not change where any path
/// resolves to.
pub proof fn trailing_slashes_on_base_do_not_matter(base: Seq<char>, extra: nat, path: Seq<char>)
    ensures
        resolve(Some(base + slashes(extra)), path) == resolve(Some(base), path),
{
    trim_trailing_ignores_appended_slashes(base, extra);
}

/// Extra leading slashes on the path do not change where it resolves to
/// against a base URL.
pub proof fn leading_slashes_on_path_do_not_matter(base: Seq<char>, extra: nat, path: Seq<char>)
    ensures
        resolve(Some(base), slashes(extra) + path) == resolve(Some(base), path),
{
    trim_leading_ignores_prepended_slashes(path, extra);
}

/// With a base URL, every path (a full URL included) resolves to a URL that
/// starts with the trimmed base followed by exactly one `/`: resolution never
/// leaves the base.
pub proof fn resolution_stays_under_base(base: Seq<char>, path: Seq<char>)
    ensures
        ({
            let head = trim_trailing_slashes(base);
            let r = resolve(Some(base), path);
            &&& r.len() >= head.len() + 1
            &&& r.subrange(0, head.len() as int) == head
            &&& r[head.len() as int] == '/'
            &&& r.len() > head.len() + 1 ==> r[head.len() + 1int] != '/'
            &&& head.len() > 0 ==> r[head.len() - 1] != '/'
        }),
{
    trim_trailing_slashes_is_clean(base);
    trim_leading_slashes_is_clean(path);
    let head = trim_trailing_slashes(base);
    let r = resolve(Some(base), path);
    assert(r.subrange(0, head.len() as int) =~= head);
}

/// Without a base URL, a path is used exactly as given.
pub proof fn no_base_means_path_verbatim(path: Seq<char>)
    ensures
        resolve(None, path) == path,
{
}

/// Number of characters left after removing trailing slashes from `s[0..n]`.
fn trailing_trim_len(s: &str) -> (n: usize)
    ensures
        n <= s@.len(),
        s@.subrange(0, n as int) == trim_trailing_slashes(s@),
{
    let len = s.unicode_len();
    let mut n = len;
    assert(s@.subrange(0, len as int) =~= s@);
    while n > 0 && s.get_char(n - 1) == '/'
        invariant
            len == s@.len(),
            n <= len,
            trim_trailing_slashes(s@.subrange(0, n as int)) == trim_trailing_slashes(s@),
        decreases n,
    {
        assert(s@.subrange(0, n as int).drop_last() =~= s@.subrange(0, n - 1));
        n = n - 1;
    }
    proof {
        let t = s@.subrange(0, n as int);
        if n > 0 {
            assert(t.last() == s@[n - 1]);
        }
    }
    n
}

/// Number of leading slashes of `s`.
fn leading_trim_start(s: &str) -> (k: usize)
    ensures
        k <= s@.len(),
        s@.subrange(k as int, s@.len() as int) == trim_leading_slashes(s@),
{
    let len = s.unicode_len();
    let mut k: usize = 0;
    assert(s@.subrange(0, len as int) =~= s@);
    while k < len && s.get_char(k) == '/'
        invariant
            len == s@.len(),
            k <= len,
            trim_leading_slashes(s@.subrange(k as int, len as int)) == trim_leading_slashes(s@),
        decreases len - k,
    {
        assert(s@.subrange(k as int, len as int).drop_first() =~= s@.subrange(k + 1, len as int));
        k = k + 1;
    }
    proof {
        let t = s@.subrange(k as int, len as int);
        if k < len {
            assert(t[0] == s@[k as int]);
        }
        assert(s@.subrange(0, len as int) =~= s@);
    }
    k
}

/// Joins `base` and `path` as [`resolve`] describes, or returns `path`
/// when there is no base.
pub fn resolve_against(base: Option<&str>, path: &str) -> (r: String)
    ensures
        r@ == resolve(
            match base {
                Some(b) => Some(b@),
                None => None,
            },
            path@,
        ),
{
    match base {
        Some(b) => {
            let n = trailing_trim_len(b);
            let head = b.substring_char(0, n);
            let plen = path.unicode_len();
            let k = leading_trim_start(path);
            let tail = path.substring_char(k, plen);
            let mut out = String::from_str(head);
            let slash = "/";
            proof {
                reveal_strlit("/");
            }
            out.append(slash);
            out.append(tail);
            out
        },
        None => String::from_str(path),
    }
}

} // verus!
