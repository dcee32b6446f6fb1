//! Lexicographic order of strings, as `Ord` for `String` orders them (by code
//! point, which for UTF-8 is byte order), and of artists by name then link.

use vstd::prelude::*;
use vstd::string::*;

use crate::media::Artist;

verus! {

/// `a` comes before `b` when they agree before position `k`.
pub open spec fn str_lt_from(a: Seq<char>, b: Seq<char>, k: int) -> bool
    decreases a.len() - k,
{
    if k < 0 {
        false
    } else if k >= a.len() {
        k < b.len()
    } else if k >= b.len() {
        false
    } else if (a[k] as u32) < (b[k] as u32) {
        true
    } else if (a[k] as u32) > (b[k] as u32) {
        false
    } else {
        str_lt_from(a, b, k + 1)
    }
}

/// `a` comes strictly before `b`.
pub open spec fn str_lt(a: Seq<char>, b: Seq<char>) -> bool {
    str_lt_from(a, b, 0)
}

/// Artists are ordered by name, then by link.
pub open spec fn artist_lt(x: Artist, y: Artist) -> bool {
    str_lt(x.name@, y.name@) || (x.name@ == y.name@ && str_lt(x.link@, y.link@))
}

/// Each artist comes strictly before every later one.
pub open spec fn artists_ascending(s: Seq<Artist>) -> bool {
    forall|i: int, j: int| 0 <= i < j < s.len() ==> artist_lt(#[trigger] s[i], #[trigger] s[j])
}

proof fn lemma_str_lt_trans(a: Seq<char>, b: Seq<char>, c: Seq<char>, k: int)
    requires
        str_lt_from(a, b, k),
        str_lt_from(b, c, k),
    ensures
        str_lt_from(a, c, k),
    decreases a.len() - k,
{
    if 0 <= k < a.len() && k < b.len() && k < c.len() && a[k] as u32 == b[k] as u32 && b[k] as u32
        == c[k] as u32 {
        lemma_str_lt_trans(a, b, c, k + 1);
    }
}

proof fn lemma_str_lt_irrefl(a: Seq<char>, k: int)
    ensures
        !str_lt_from(a, a, k),
    decreases a.len() - k,
{
    if 0 <= k < a.len() {
        lemma_str_lt_irrefl(a, k + 1);
    }
}

/// The order of artists is transitive.
pub proof fn lemma_artist_lt_trans(x: Artist, y: Artist, z: Artist)
    requires
        artist_lt(x, y),
        artist_lt(y, z),
    ensures
        artist_lt(x, z),
{
    if str_lt(x.name@, y.name@) && str_lt(y.name@, z.name@) {
        lemma_str_lt_trans(x.name@, y.name@, z.name@, 0);
    } else if x.name@ == y.name@ && y.name@ == z.name@ {
        lemma_str_lt_trans(x.link@, y.link@, z.link@, 0);
    }
}

/// No artist comes before itself.
pub proof fn lemma_artist_lt_irrefl(x: Artist)
    ensures
        !artist_lt(x, x),
{
    lemma_str_lt_irrefl(x.name@, 0);
    lemma_str_lt_irrefl(x.link@, 0);
}

/// Compares two strings: `-1` when `a` comes first, `1` when `b` does, `0`
/// when they are equal.
pub fn compare_str(a: &str, b: &str) -> (r: i8)
    ensures
        r == -1 || r == 0 || r == 1,
        r == -1 <==> str_lt(a@, b@),
        r == 1 <==> str_lt(b@, a@),
        r == 0 <==> a@ == b@,
{
    let n = a.unicode_len();
    let m = b.unicode_len();
    let mut k: usize = 0;
    while k < n && k < m
        invariant
            n == a@.len(),
            m == b@.len(),
            k <= n,
            k <= m,
            a@.subrange(0, k as int) == b@.subrange(0, k as int),
            str_lt(a@, b@) == str_lt_from(a@, b@, k as int),
            str_lt(b@, a@) == str_lt_from(b@, a@, k as int),
        decreases n - k,
    {
        let x = a.get_char(k);
        let y = b.get_char(k);
        if (x as u32) < (y as u32) {
            proof {
                if a@ == b@ {
                    assert(a@[k as int] == b@[k as int]);
                }
            }
            return -1;
        }
        if (x as u32) > (y as u32) {
            proof {
                if a@ == b@ {
                    assert(a@[k as int] == b@[k as int]);
                }
            }
            return 1;
        }
        proof {
            assert(x == y);
            assert(a@.subrange(0, k + 1) =~= a@.subrange(0, k as int).push(x));
            assert(b@.subrange(0, k + 1) =~= b@.subrange(0, k as int).push(y));
        }
        k = k + 1;
    }
    if n < m {
        proof {
            if a@ == b@ {
                assert(a@.len() == b@.len());
            }
        }
        -1
    } else if m < n {
        proof {
            if a@ == b@ {
                assert(a@.len() == b@.len());
            }
        }
        1
    } else {
        proof {
            assert(a@ =~= a@.subrange(0, k as int));
            assert(b@ =~= b@.subrange(0, k as int));
            lemma_str_lt_irrefl(a@, k as int);
        }
        0
    }
}

/// Compares two artists by name, then link: `-1`, `0` or `1` as for strings.
pub fn compare_artist(x: &Artist, y: &Artist) -> (r: i8)
    ensures
        r == -1 || r == 0 || r == 1,
        r == -1 <==> artist_lt(*x, *y),
        r == 1 <==> artist_lt(*y, *x),
        r == 0 <==> (x.name@ == y.name@ && x.link@ == y.link@),
{
    let c = compare_str(x.name.as_str(), y.name.as_str());
    if c != 0 {
        c
    } else {
        compare_str(x.link.as_str(), y.link.as_str())
    }
}

/// Two artists with the same name and link.
pub open spec fn same_artist(a: Artist, b: Artist) -> bool {
    a.name@ == b.name@ && a.link@ == b.link@
}

/// Whether `s` holds an artist with the name and link of `a`.
pub open spec fn has_artist(s: Seq<Artist>, a: Artist) -> bool {
    exists|i: int| 0 <= i < s.len() && same_artist(#[trigger] s[i], a)
}

/// Adds `x` to the ascending list `v` at its place, unless an artist with the
/// same name and link is there already.
pub fn insert_artist(v: &mut Vec<Artist>, x: Artist)
    requires
        artists_ascending(old(v)@),
    ensures
        artists_ascending(final(v)@),
        forall|a: Artist| has_artist(final(v)@, a) <==> (has_artist(old(v)@, a) || same_artist(x, a)),
{
    let ghost s = v@;
    let mut p: usize = 0;
    while p < v.len() && compare_artist(&v[p], &x) == -1
        invariant
            v@ == s,
            p <= s.len(),
            forall|i: int| 0 <= i < p ==> artist_lt(#[trigger] s[i], x),
        decreases s.len() - p,
    {
        p = p + 1;
    }
    if p < v.len() && compare_artist(&v[p], &x) == 0 {
        assert forall|a: Artist| has_artist(v@, a) <==> (has_artist(s, a) || same_artist(x, a)) by {
            if same_artist(x, a) {
                assert(same_artist(s[p as int], a));
            }
        }
        return;
    }
    proof {
        if p < s.len() {
            assert(artist_lt(x, s[p as int]));
        }
    }
    v.insert(p, x);
    proof {
        let t = v@;
        assert(t =~= s.insert(p as int, x));
        assert forall|i: int, j: int| 0 <= i < j < t.len() implies artist_lt(#[trigger] t[i], #[trigger] t[j]) by {
            if j < p {
            } else if j == p {
            } else if i < p {
                assert(t[j] == s[j - 1]);
            } else if i == p {
                assert(t[j] == s[j - 1]);
                if j - 1 > p {
                    assert(artist_lt(s[p as int], s[j - 1]));
                    lemma_artist_lt_trans(x, s[p as int], s[j - 1]);
                }
            } else {
                assert(t[i] == s[i - 1]);
                assert(t[j] == s[j - 1]);
            }
        }
        assert forall|a: Artist| has_artist(t, a) <==> (has_artist(s, a) || same_artist(x, a)) by {
            if has_artist(t, a) {
                let i = choose|i: int| 0 <= i < t.len() && same_artist(#[trigger] t[i], a);
                if i < p {
                    assert(same_artist(s[i], a));
                } else if i > p {
                    assert(same_artist(s[i - 1], a));
                }
            }
            if has_artist(s, a) {
                let i = choose|i: int| 0 <= i < s.len() && same_artist(#[trigger] s[i], a);
                if i < p {
                    assert(same_artist(t[i], a));
                } else {
                    assert(same_artist(t[i + 1], a));
                }
            }
            if same_artist(x, a) {
                assert(same_artist(t[p as int], a));
            }
        }
    }
}

/// The artists of `items` in ascending order, each name and link once.
pub fn sorted_artists(items: Vec<Artist>) -> (r: Vec<Artist>)
    ensures
        artists_ascending(r@),
        forall|a: Artist| has_artist(r@, a) <==> has_artist(items@, a),
{
    let mut r: Vec<Artist> = Vec::new();
    let mut i: usize = 0;
    while i < items.len()
        invariant
            i <= items@.len(),
            artists_ascending(r@),
            forall|a: Artist| has_artist(r@, a) <==> has_artist(items@.subrange(0, i as int), a),
        decreases items@.len() - i,
    {
        let x = Artist { name: items[i].name.clone(), link: items[i].link.clone() };
        insert_artist(&mut r, x);
        proof {
            let pre = items@.subrange(0, i as int);
            let post = items@.subrange(0, i + 1);
            assert(post =~= pre.push(items@[i as int]));
            assert forall|a: Artist| has_artist(post, a) <==> (has_artist(pre, a) || same_artist(x, a)) by {
                if has_artist(post, a) {
                    let j = choose|j: int| 0 <= j < post.len() && same_artist(#[trigger] post[j], a);
                    if j < i {
                        assert(same_artist(pre[j], a));
                    }
                }
                if has_artist(pre, a) {
                    let j = choose|j: int| 0 <= j < pre.len() && same_artist(#[trigger] pre[j], a);
                    assert(same_artist(post[j], a));
                }
                if same_artist(x, a) {
                    assert(same_artist(post[i as int], a));
                }
                if same_artist(post[i as int], a) {
                    assert(same_artist(x, a));
                }
            }
        }
        i = i + 1;
    }
    assert(items@.subrange(0, i as int) =~= items@);
    r
}

/// Each string comes strictly before every later one.
pub open spec fn strings_ascending(s: Seq<String>) -> bool {
    forall|i: int, j: int| 0 <= i < j < s.len() ==> str_lt((#[trigger] s[i])@, (#[trigger] s[j])@)
}

/// Whether `s` holds a string equal to `x`.
pub open spec fn has_string(s: Seq<String>, x: Seq<char>) -> bool {
    exists|i: int| 0 <= i < s.len() && (#[trigger] s[i])@ == x
}

/// Adds `x` to the ascending list `v` at its place, unless it is there already.
pub fn insert_string(v: &mut Vec<String>, x: String)
    requires
        strings_ascending(old(v)@),
    ensures
        strings_ascending(final(v)@),
        forall|a: Seq<char>| has_string(final(v)@, a) <==> (has_string(old(v)@, a) || x@ == a),
{
    let ghost s = v@;
    let mut p: usize = 0;
    while p < v.len() && compare_str(v[p].as_str(), x.as_str()) == -1
        invariant
            v@ == s,
            p <= s.len(),
            forall|i: int| 0 <= i < p ==> str_lt((#[trigger] s[i])@, x@),
        decreases s.len() - p,
    {
        p = p + 1;
    }
    if p < v.len() && compare_str(v[p].as_str(), x.as_str()) == 0 {
        assert forall|a: Seq<char>| has_string(v@, a) <==> (has_string(s, a) || x@ == a) by {
            if x@ == a {
                assert(s[p as int]@ == a);
            }
        }
        return;
    }
    let ghost xv = x@;
    v.insert(p, x);
    proof {
        let t = v@;
        assert(t =~= s.insert(p as int, t[p as int]));
        assert forall|i: int, j: int| 0 <= i < j < t.len() implies str_lt((#[trigger] t[i])@, (#[trigger] t[j])@) by {
            if j < p {
            } else if j == p {
            } else if i < p {
                assert(t[j] == s[j - 1]);
            } else if i == p {
                assert(t[j] == s[j - 1]);
                if j - 1 > p {
                    assert(str_lt(s[p as int]@, s[j - 1]@));
                    lemma_str_lt_trans(xv, s[p as int]@, s[j - 1]@, 0);
                }
            } else {
                assert(t[i] == s[i - 1]);
                assert(t[j] == s[j - 1]);
            }
        }
        assert forall|a: Seq<char>| has_string(t, a) <==> (has_string(s, a) || xv == a) by {
            if has_string(t, a) {
                let i = choose|i: int| 0 <= i < t.len() && (#[trigger] t[i])@ == a;
                if i < p {
                    assert(s[i]@ == a);
                } else if i > p {
                    assert(s[i - 1]@ == a);
                }
            }
            if has_string(s, a) {
                let i = choose|i: int| 0 <= i < s.len() && (#[trigger] s[i])@ == a;
                if i < p {
                    assert(t[i]@ == a);
                } else {
                    assert(t[i + 1]@ == a);
                }
            }
            if xv == a {
                assert(t[p as int]@ == a);
            }
        }
    }
}

/// The strings of `items` in ascending order, each once.
pub fn sorted_strings(items: Vec<String>) -> (r: Vec<String>)
    ensures
        strings_ascending(r@),
        forall|a: Seq<char>| has_string(r@, a) <==> has_string(items@, a),
{
    let mut r: Vec<String> = Vec::new();
    let mut i: usize = 0;
    while i < items.len()
        invariant
            i <= items@.len(),
            strings_ascending(r@),
            forall|a: Seq<char>| has_string(r@, a) <==> has_string(items@.subrange(0, i as int), a),
        decreases items@.len() - i,
    {
        let x = items[i].clone();
        insert_string(&mut r, x);
        proof {
            let pre = items@.subrange(0, i as int);
            let post = items@.subrange(0, i + 1);
            assert(post =~= pre.push(items@[i as int]));
            assert forall|a: Seq<char>| has_string(post, a) <==> (has_string(pre, a) || x@ == a) by {
                if has_string(post, a) {
                    let j = choose|j: int| 0 <= j < post.len() && (#[trigger] post[j])@ == a;
                    if j < i {
                        assert(pre[j]@ == a);
                    }
                }
                if has_string(pre, a) {
                    let j = choose|j: int| 0 <= j < pre.len() && (#[trigger] pre[j])@ == a;
                    assert(post[j]@ == a);
                }
                if x@ == a {
                    assert(post[i as int]@ == a);
                }
            }
        }
        i = i + 1;
    }
    assert(items@.subrange(0, i as int) =~= items@);
    r
}

} // verus!
