//! Character-level text helpers with exact specifications.
use vstd::prelude::*;
use vstd::string::*;

verus! {

/// `s` is `a`, then the separator `c`, then `b`, and `c` occurs nowhere else.
pub open spec fn splits_once(s: Seq<char>, c: char, a: Seq<char>, b: Seq<char>) -> bool {
    s == a + seq![c] + b && !a.contains(c) && !b.contains(c)
}

/// The two sides of the single occurrence of `c` in `s`, if `c` occurs exactly once.
pub open spec fn split_once_spec(s: Seq<char>, c: char) -> Option<(Seq<char>, Seq<char>)> {
    if exists|a: Seq<char>, b: Seq<char>| splits_once(s, c, a, b) {
        let (a, b) = choose|a: Seq<char>, b: Seq<char>| splits_once(s, c, a, b);
        Some((a, b))
    } else {
        None
    }
}

/// `pat` occurs in `s` starting at position `i`.
pub open spec fn occurs_at(s: Seq<char>, pat: Seq<char>, i: int) -> bool {
    0 <= i && i + pat.len() <= s.len() && s.subrange(i, i + pat.len()) == pat
}

/// `pat` occurs somewhere in `s`.
pub open spec fn contains_seq(s: Seq<char>, pat: Seq<char>) -> bool {
    exists|i: int| occurs_at(s, pat, i)
}

/// Every non-overlapping occurrence of `pat` in `s`, scanning from the left,
/// replaced by `rep`.
pub open spec fn replace_all(s: Seq<char>, pat: Seq<char>, rep: Seq<char>) -> Seq<char>
    decreases s.len(),
{
    if s.len() == 0 {
        s
    } else if pat.len() > 0 && occurs_at(s, pat, 0) {
        rep + replace_all(s.subrange(pat.len() as int, s.len() as int), pat, rep)
    } else {
        seq![s[0]] + replace_all(s.subrange(1, s.len() as int), pat, rep)
    }
}

/// The characters of `s` with every letter mapped to lower case.
pub uninterp spec fn lower_of(s: Seq<char>) -> Seq<char>;

/// The characters of `s` without leading and trailing white space.
pub uninterp spec fn trim_of(s: Seq<char>) -> Seq<char>;

/// Relies on `str::to_lowercase`: the result depends on the characters alone,
/// and the empty string stays empty.
#[verifier::external_body]
pub(crate) fn lowercase(s: &str) -> (r: String)
    ensures
        r@ == lower_of(s@),
        s@.len() == 0 ==> r@.len() == 0,
{
    s.to_lowercase()
}

/// Relies on `str::trim`: the result depends on the characters alone, and is
/// no longer than they are.
#[verifier::external_body]
pub(crate) fn trimmed(s: &str) -> (r: String)
    ensures
        r@ == trim_of(s@),
        r@.len() <= s@.len(),
{
    s.trim().to_string()
}

/// A split of `s` around one occurrence of `c` is unique.
pub proof fn lemma_splits_once_unique(
    s: Seq<char>,
    c: char,
    a1: Seq<char>,
    b1: Seq<char>,
    a2: Seq<char>,
    b2: Seq<char>,
)
    requires
        splits_once(s, c, a1, b1),
        splits_once(s, c, a2, b2),
    ensures
        a1 == a2,
        b1 == b2,
{
    if a1.len() < a2.len() {
        assert(s[a1.len() as int] == c);
        assert(a2[a1.len() as int] == s[a1.len() as int]);
        assert(a2.contains(c));
    } else if a2.len() < a1.len() {
        assert(s[a2.len() as int] == c);
        assert(a1[a2.len() as int] == s[a2.len() as int]);
        assert(a1.contains(c));
    }
    assert(a1 =~= s.subrange(0, a1.len() as int));
    assert(a2 =~= s.subrange(0, a2.len() as int));
    assert(b1 =~= s.subrange(a1.len() + 1int, s.len() as int));
    assert(b2 =~= s.subrange(a2.len() + 1int, s.len() as int));
}

/// The characters of `s`, one per element.
pub fn chars_of(s: &str) -> (r: Vec<char>)
    ensures
        r@ == s@,
{
    let n = s.unicode_len();
    let mut r: Vec<char> = Vec::new();
    let mut i: usize = 0;
    while i < n
        invariant
            n == s@.len(),
            i <= n,
            r@ == s@.subrange(0, i as int),
        decreases n - i,
    {
        r.push(s.get_char(i));
        i = i + 1;
        assert(r@ =~= s@.subrange(0, i as int));
    }
    assert(s@.subrange(0, n as int) =~= s@);
    r
}

/// Splits `s` around `c` when `c` occurs in it exactly once.
pub fn split_once_exact(s: &str, c: char) -> (r: Option<(String, String)>)
    ensures
        match r {
            Some(p) => split_once_spec(s@, c) == Some((p.0@, p.1@)),
            None => split_once_spec(s@, c) is None,
        },
{
    let cs = chars_of(s);
    let n = cs.len();
    let mut i: usize = 0;
    while i < n && cs[i] != c
        invariant
            n == cs@.len(),
            cs@ == s@,
            i <= n,
            forall|k: int| 0 <= k < i ==> cs@[k] != c,
        decreases n - i,
    {
        i = i + 1;
    }
    if i == n {
        assert forall|a: Seq<char>, b: Seq<char>| !splits_once(s@, c, a, b) by {
            if splits_once(s@, c, a, b) {
                assert(s@[a.len() as int] == c);
            }
        }
        return None;
    }
    let mut j: usize = i + 1;
    while j < n && cs[j] != c
        invariant
            n == cs@.len(),
            cs@ == s@,
            i < j <= n,
            forall|k: int| i < k < j ==> cs@[k] != c,
        decreases n - j,
    {
        j = j + 1;
    }
    if j < n {
        assert forall|a: Seq<char>, b: Seq<char>| !splits_once(s@, c, a, b) by {
            if splits_once(s@, c, a, b) {
                let k = a.len() as int;
                assert(s@[k] == c);
                if (i as int) < k {
                    assert(a[i as int] == s@[i as int]);
                    assert(a.contains(c));
                } else if (i as int) == k {
                    assert(b[j - k - 1] == s@[j as int]);
                    assert(b.contains(c));
                } else {
                    assert(b[i - k - 1] == s@[i as int]);
                    assert(b.contains(c));
                }
            }
        }
        return None;
    }
    let a = s.substring_char(0, i);
    let b = s.substring_char(i + 1, n);
    let ra = String::from_str(a);
    let rb = String::from_str(b);
    assert(s@ =~= ra@ + seq![c] + rb@);
    assert(!ra@.contains(c)) by {
        if ra@.contains(c) {
            let k = choose|k: int| 0 <= k < ra@.len() && ra@[k] == c;
            assert(s@[k] == c);
        }
    }
    assert(!rb@.contains(c)) by {
        if rb@.contains(c) {
            let k = choose|k: int| 0 <= k < rb@.len() && rb@[k] == c;
            assert(s@[i + 1 + k] == c);
        }
    }
    assert(splits_once(s@, c, ra@, rb@));
    proof {
        let (x, y) = choose|x: Seq<char>, y: Seq<char>| splits_once(s@, c, x, y);
        lemma_splits_once_unique(s@, c, x, y, ra@, rb@);
    }
    Some((ra, rb))
}

/// Whether `a` and `b` hold the same characters.
pub fn eq_str(a: &str, b: &str) -> (r: bool)
    ensures
        r == (a@ == b@),
{
    let ca = chars_of(a);
    let cb = chars_of(b);
    if ca.len() != cb.len() {
        return false;
    }
    let n = ca.len();
    let mut i: usize = 0;
    while i < n
        invariant
            n == ca@.len(),
            n == cb@.len(),
            ca@ == a@,
            cb@ == b@,
            i <= n,
            forall|k: int| 0 <= k < i ==> ca@[k] == cb@[k],
        decreases n - i,
    {
        if ca[i] != cb[i] {
            return false;
        }
        i = i + 1;
    }
    assert(ca@ =~= cb@);
    true
}

/// Whether `pat` occurs in `cs` at position `i`.
fn matches_at(cs: &Vec<char>, pat: &Vec<char>, i: usize) -> (r: bool)
    ensures
        r == occurs_at(cs@, pat@, i as int),
{
    if i > cs.len() || pat.len() > cs.len() - i {
        return false;
    }
    let m = pat.len();
    let mut k: usize = 0;
    while k < m
        invariant
            m == pat@.len(),
            i + m <= cs.len(),
            k <= m,
            forall|t: int| 0 <= t < k ==> cs@[i + t] == pat@[t],
        decreases m - k,
    {
        if cs[i + k] != pat[k] {
            assert(cs@.subrange(i as int, i + m)[k as int] != pat@[k as int]);
            return false;
        }
        k = k + 1;
    }
    assert(cs@.subrange(i as int, i + m) =~= pat@);
    true
}

/// Whether `pat` occurs anywhere in `s`.
pub fn contains_str(s: &str, pat: &str) -> (r: bool)
    ensures
        r == contains_seq(s@, pat@),
{
    let cs = chars_of(s);
    let ps = chars_of(pat);
    let n = cs.len();
    let mut i: usize = 0;
    while i <= n
        invariant
            n == cs@.len(),
            cs@ == s@,
            ps@ == pat@,
            forall|k: int| 0 <= k < i ==> !occurs_at(s@, pat@, k),
        decreases n + 1 - i,
    {
        if matches_at(&cs, &ps, i) {
            return true;
        }
        if i == n {
            assert forall|k: int| !occurs_at(s@, pat@, k) by {
                if k > n {
                    assert(k + pat@.len() > s@.len());
                }
            }
            return false;
        }
        i = i + 1;
    }
    false
}

/// Replaces every non-overlapping occurrence of `pat` in `s`, from the left,
/// with `rep`.
pub fn replace_str(s: &str, pat: &str, rep: &str) -> (r: String)
    requires
        pat@.len() > 0,
    ensures
        r@ == replace_all(s@, pat@, rep@),
{
    let cs = chars_of(s);
    let ps = chars_of(pat);
    let n = cs.len();
    let m = ps.len();
    let mut r = String::new();
    let mut i: usize = 0;
    assert(s@.subrange(0, n as int) =~= s@);
    while i < n
        invariant
            n == cs@.len(),
            m == ps@.len(),
            m > 0,
            cs@ == s@,
            ps@ == pat@,
            i <= n,
            r@ + replace_all(s@.subrange(i as int, n as int), pat@, rep@) == replace_all(
                s@,
                pat@,
                rep@,
            ),
        decreases n - i,
    {
        let ghost rest = s@.subrange(i as int, n as int);
        if matches_at(&cs, &ps, i) {
            proof {
                assert(rest.subrange(0, m as int) =~= s@.subrange(i as int, i + m));
                assert(rest.subrange(m as int, rest.len() as int) =~= s@.subrange(
                    i + m,
                    n as int,
                ));
            }
            r.append(rep);
            i = i + m;
        } else {
            proof {
                if occurs_at(rest, pat@, 0) {
                    assert(rest.subrange(0, m as int) =~= s@.subrange(i as int, i + m));
                }
                assert(rest.subrange(1, rest.len() as int) =~= s@.subrange(i + 1, n as int));
            }
            let one = s.substring_char(i, i + 1);
            assert(one@ =~= seq![rest[0]]);
            r.append(one);
            i = i + 1;
        }
        proof {
            assert(r@ + replace_all(s@.subrange(i as int, n as int), pat@, rep@) =~= replace_all(
                s@,
                pat@,
                rep@,
            ));
        }
    }
    assert(s@.subrange(n as int, n as int) =~= Seq::<char>::empty());
    assert(r@ =~= r@ + replace_all(Seq::<char>::empty(), pat@, rep@));
    r
}

} // verus!
