//! Primitives for scanning character sequences: substring search, slicing,
//! and conversions between `&str`, `String` and `Vec<char>`.
use vstd::prelude::*;
use vstd::string::StrSliceExecFns;

verus! {

/// True when `pat` occurs in `t` starting exactly at index `i`.
pub open spec fn match_at(t: Seq<char>, pat: Seq<char>, i: int) -> bool {
    0 <= i && i + pat.len() <= t.len() && t.subrange(i, i + pat.len() as int) == pat
}

/// Index of the first occurrence of `pat` in `t` at or after `from`,
/// or `None` when there is none.
pub open spec fn find_from(t: Seq<char>, pat: Seq<char>, from: int) -> Option<int>
    decreases t.len() - from + 1,
{
    if from < 0 || from + pat.len() > t.len() {
        None
    } else if match_at(t, pat, from) {
        Some(from)
    } else {
        find_from(t, pat, from + 1)
    }
}

/// True when `pat` occurs somewhere in `t`.
pub open spec fn contains_sub(t: Seq<char>, pat: Seq<char>) -> bool {
    find_from(t, pat, 0) is Some
}

fn is_match_at(t: &Vec<char>, pat: &Vec<char>, i: usize) -> (b: bool)
    requires
        i + pat@.len() <= t@.len(),
    ensures
        b == match_at(t@, pat@, i as int),
{
    let n = t.len();
    let m = pat.len();
    let mut k: usize = 0;
    while k < m
        invariant
            n == t@.len(),
            m == pat@.len(),
            i + m <= n,
            k <= m,
            forall|j: int| 0 <= j < k ==> t@[i + j] == pat@[j],
        decreases pat@.len() - k,
    {
        if t[i + k] != pat[k] {
            assert(t@.subrange(i as int, i + pat@.len())[k as int] == t@[i + k]);
            return false;
        }
        k += 1;
    }
    assert(t@.subrange(i as int, i + pat@.len()) =~= pat@);
    true
}

/// First occurrence of `pat` in `t` at or after `from`, as `find_from` gives it.
pub fn find(t: &Vec<char>, pat: &Vec<char>, from: usize) -> (r: Option<usize>)
    ensures
        match r {
            Some(i) => {
                &&& find_from(t@, pat@, from as int) == Some(i as int)
                &&& from <= i
                &&& i + pat@.len() <= t@.len()
                &&& match_at(t@, pat@, i as int)
            },
            None => find_from(t@, pat@, from as int) is None,
        },
{
    let n = t.len();
    let m = pat.len();
    let mut p: usize = from;
    loop
        invariant
            n == t@.len(),
            m == pat@.len(),
            from <= p,
            find_from(t@, pat@, from as int) == find_from(t@, pat@, p as int),
        decreases t@.len() + 1 - p,
    {
        if n < m || p > n - m {
            return None;
        }
        if is_match_at(t, pat, p) {
            return Some(p);
        }
        proof {
            if m == 0 {
                assert(t@.subrange(p as int, p as int) =~= pat@);
            }
        }
        p = p + 1;
    }
}

/// True when `pat` occurs in `t` starting exactly at index `i`.
pub fn lit_at(t: &Vec<char>, pat: &Vec<char>, i: usize) -> (b: bool)
    ensures
        b == match_at(t@, pat@, i as int),
{
    let n = t.len();
    let m = pat.len();
    if m > n || i > n - m {
        return false;
    }
    is_match_at(t, pat, i)
}

/// True when `pat` occurs somewhere in `t`.
pub fn contains_pat(t: &Vec<char>, pat: &Vec<char>) -> (b: bool)
    ensures
        b == contains_sub(t@, pat@),
{
    find(t, pat, 0).is_some()
}

/// The characters of `s`, in order, as a vector.
pub fn vec_of(s: &str) -> (v: Vec<char>)
    ensures
        v@ == s@,
{
    let n = s.unicode_len();
    let mut v: Vec<char> = Vec::new();
    let mut i: usize = 0;
    while i < n
        invariant
            n == s@.len(),
            i <= n,
            v@ == s@.subrange(0, i as int),
        decreases n - i,
    {
        let c = s.get_char(i);
        v.push(c);
        assert(s@.subrange(0, i as int).push(s@[i as int]) =~= s@.subrange(0, i + 1 as int));
        i += 1;
    }
    assert(v@ =~= s@);
    v
}

/// Relies on `String::push`: appends the given character to the end of the string.
#[verifier::external_body]
fn push_char(s: &mut String, c: char)
    ensures
        final(s)@ == old(s)@.push(c),
{
    s.push(c);
}

/// The characters of `v`, in order, as a string.
pub fn string_of(v: &Vec<char>) -> (s: String)
    ensures
        s@ == v@,
{
    let mut s = String::new();
    let mut i: usize = 0;
    while i < v.len()
        invariant
            i <= v@.len(),
            s@ == v@.subrange(0, i as int),
        decreases v@.len() - i,
    {
        push_char(&mut s, v[i]);
        assert(v@.subrange(0, i as int).push(v@[i as int]) =~= v@.subrange(0, i + 1 as int));
        i += 1;
    }
    assert(s@ =~= v@);
    s
}

/// Appends `src[from..to]` to `dst`.
pub fn append_range(dst: &mut Vec<char>, src: &Vec<char>, from: usize, to: usize)
    requires
        from <= to <= src@.len(),
    ensures
        final(dst)@ == old(dst)@ + src@.subrange(from as int, to as int),
{
    let mut k: usize = from;
    while k < to
        invariant
            from <= k <= to <= src@.len(),
            dst@ == old(dst)@ + src@.subrange(from as int, k as int),
        decreases to - k,
    {
        dst.push(src[k]);
        assert(old(dst)@ + src@.subrange(from as int, k as int) + seq![src@[k as int]] =~= old(
            dst,
        )@ + src@.subrange(from as int, k + 1 as int));
        k += 1;
    }
}

/// The view of an optional string.
pub open spec fn opt_str_view(o: Option<String>) -> Option<Seq<char>> {
    match o {
        Some(s) => Some(s@),
        None => None,
    }
}

/// The view of a string-or-string result.
pub open spec fn res_str_view(r: Result<String, String>) -> Result<Seq<char>, Seq<char>> {
    match r {
        Ok(s) => Ok(s@),
        Err(e) => Err(e@),
    }
}

} // verus!
