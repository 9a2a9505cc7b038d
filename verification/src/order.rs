//! The lexicographic order of strings, and the sorted set of a list of strings.
use vstd::prelude::*;

use crate::text::{chars_of, str_eq, texts};

verus! {

/// `a` comes before `b` in lexicographic order.
pub open spec fn lex_less(a: Seq<char>, b: Seq<char>) -> bool
    decreases a.len(),
{
    if b.len() == 0 {
        false
    } else if a.len() == 0 {
        true
    } else if a[0] != b[0] {
        a[0] < b[0]
    } else {
        lex_less(a.skip(1), b.skip(1))
    }
}

/// Nothing comes before itself.
pub proof fn lex_irreflexive(a: Seq<char>)
    ensures
        !lex_less(a, a),
    decreases a.len(),
{
    if a.len() > 0 {
        lex_irreflexive(a.skip(1));
    }
}

/// The order is transitive.
pub proof fn lex_transitive(a: Seq<char>, b: Seq<char>, c: Seq<char>)
    requires
        lex_less(a, b),
        lex_less(b, c),
    ensures
        lex_less(a, c),
    decreases a.len(),
{
    if a.len() > 0 && a[0] == b[0] && b[0] == c[0] {
        lex_transitive(a.skip(1), b.skip(1), c.skip(1));
    }
}

/// The first character in which two strings differ decides, and a string comes before every
/// longer one that begins with it.
pub proof fn first_difference_decides(
    head: Seq<char>,
    x: char,
    y: char,
    a: Seq<char>,
    b: Seq<char>,
)
    ensures
        x < y ==> lex_less(head + seq![x] + a, head + seq![y] + b),
        x > y ==> !lex_less(head + seq![x] + a, head + seq![y] + b),
        lex_less(head, head + seq![x] + a),
        !lex_less(head + seq![x] + a, head),
    decreases head.len(),
{
    let s = head + seq![x] + a;
    let t = head + seq![y] + b;
    if head.len() == 0 {
        assert(s[0] == x && t[0] == y);
    } else {
        first_difference_decides(head.skip(1), x, y, a, b);
        assert(s.skip(1) =~= head.skip(1) + seq![x] + a);
        assert(t.skip(1) =~= head.skip(1) + seq![y] + b);
        assert(s[0] == head[0] && t[0] == head[0]);
    }
}

/// Of two different strings, one comes before the other.
pub proof fn lex_total(a: Seq<char>, b: Seq<char>)
    ensures
        a == b || lex_less(a, b) || lex_less(b, a),
    decreases a.len(),
{
    if a.len() == 0 && b.len() == 0 {
        assert(a =~= b);
    } else if a.len() > 0 && b.len() > 0 && a[0] == b[0] {
        lex_total(a.skip(1), b.skip(1));
        if a.skip(1) == b.skip(1) {
            assert forall|i: int| 0 <= i < a.len() implies a[i] == b[i] by {
                if i > 0 {
                    assert(a.skip(1)[i - 1] == b.skip(1)[i - 1]);
                }
            }
            assert(a.skip(1).len() == b.skip(1).len());
            assert(a =~= b);
        }
    }
}

/// Each element comes before every later one.
pub open spec fn strictly_sorted(t: Seq<Seq<char>>) -> bool {
    forall|i: int, j: int| 0 <= i < j < t.len() ==> lex_less(#[trigger] t[i], #[trigger] t[j])
}

/// How many leading elements of `t` come before `x`.
pub open spec fn insert_position(t: Seq<Seq<char>>, x: Seq<char>) -> int
    decreases t.len(),
{
    if t.len() == 0 || !lex_less(t[0], x) {
        0
    } else {
        1 + insert_position(t.skip(1), x)
    }
}

/// The sorted set `t` with `x` in it.
pub open spec fn insert_distinct(t: Seq<Seq<char>>, x: Seq<char>) -> Seq<Seq<char>> {
    if t.contains(x) {
        t
    } else {
        t.insert(insert_position(t, x), x)
    }
}

/// The distinct elements of `s`, in lexicographic order.
pub open spec fn sorted_set(s: Seq<Seq<char>>) -> Seq<Seq<char>>
    decreases s.len(),
{
    if s.len() == 0 {
        Seq::empty()
    } else {
        insert_distinct(sorted_set(s.drop_last()), s.last())
    }
}

/// `insert_position` splits a list into what comes before `x` and the rest.
proof fn insert_position_splits(t: Seq<Seq<char>>, x: Seq<char>)
    ensures
        0 <= insert_position(t, x) <= t.len(),
        forall|j: int| 0 <= j < insert_position(t, x) ==> lex_less(#[trigger] t[j], x),
        insert_position(t, x) < t.len() ==> !lex_less(t[insert_position(t, x)], x),
    decreases t.len(),
{
    if t.len() > 0 && lex_less(t[0], x) {
        insert_position_splits(t.skip(1), x);
        assert forall|j: int| 0 <= j < insert_position(t, x) implies lex_less(
            #[trigger] t[j],
            x,
        ) by {
            if j > 0 {
                assert(t.skip(1)[j - 1] == t[j]);
            }
        }
    }
}

/// The position that splits a list into what comes before `x` and the rest.
proof fn insert_position_unique(t: Seq<Seq<char>>, x: Seq<char>, i: int)
    requires
        0 <= i <= t.len(),
        forall|j: int| 0 <= j < i ==> lex_less(#[trigger] t[j], x),
        i < t.len() ==> !lex_less(t[i], x),
    ensures
        insert_position(t, x) == i,
{
    insert_position_splits(t, x);
    let k = insert_position(t, x);
    if k < i {
        assert(lex_less(t[k], x));
    } else if i < k {
        assert(lex_less(t[i], x));
    }
}

/// Inserting keeps a list strictly sorted and adds `x` and nothing else.
proof fn insert_distinct_keeps(t: Seq<Seq<char>>, x: Seq<char>)
    requires
        strictly_sorted(t),
    ensures
        strictly_sorted(insert_distinct(t, x)),
        forall|y: Seq<char>|
            insert_distinct(t, x).contains(y) <==> t.contains(y) || y == x,
{
    insert_position_splits(t, x);
    if !t.contains(x) {
        let k = insert_position(t, x);
        let r = t.insert(k, x);
        assert forall|j: int| k <= j < t.len() implies lex_less(x, #[trigger] t[j]) by {
            lex_total(t[k], x);
            assert(t[k] != x);
            if k < j {
                lex_transitive(x, t[k], t[j]);
            }
        }
        assert forall|i: int, j: int| 0 <= i < j < r.len() implies lex_less(
            #[trigger] r[i],
            #[trigger] r[j],
        ) by {
            let a = if i < k { r[i] == t[i] } else if i == k { r[i] == x } else { r[i] == t[i - 1] };
            let b = if j < k { r[j] == t[j] } else if j == k { r[j] == x } else { r[j] == t[j - 1] };
            assert(a && b);
        }
        assert forall|y: Seq<char>| r.contains(y) <==> t.contains(y) || y == x by {
            if t.contains(y) {
                let i = choose|i: int| 0 <= i < t.len() && t[i] == y;
                assert(r[if i < k { i } else { i + 1 }] == y);
            }
            if y == x {
                assert(r[k] == y);
            }
            if r.contains(y) {
                let i = choose|i: int| 0 <= i < r.len() && r[i] == y;
                if i < k {
                    assert(t[i] == y);
                } else if i > k {
                    assert(t[i - 1] == y);
                }
            }
        }
    }
}

/// The sorted set is strictly sorted, and holds what the list holds.
pub proof fn sorted_set_is_the_set(s: Seq<Seq<char>>)
    ensures
        strictly_sorted(sorted_set(s)),
        forall|y: Seq<char>| sorted_set(s).contains(y) <==> s.contains(y),
    decreases s.len(),
{
    if s.len() > 0 {
        let p = s.drop_last();
        sorted_set_is_the_set(p);
        insert_distinct_keeps(sorted_set(p), s.last());
        assert forall|y: Seq<char>| sorted_set(s).contains(y) <==> s.contains(y) by {
            if p.contains(y) {
                let i = choose|i: int| 0 <= i < p.len() && p[i] == y;
                assert(s[i] == y);
            }
            if y == s.last() {
                assert(s[s.len() - 1] == y);
            }
            if s.contains(y) && y != s.last() {
                let i = choose|i: int| 0 <= i < s.len() && s[i] == y;
                assert(p[i] == y);
            }
        }
    }
}

/// The sorted set has no more elements than the list.
pub proof fn sorted_set_is_no_longer(s: Seq<Seq<char>>)
    ensures
        sorted_set(s).len() <= s.len(),
    decreases s.len(),
{
    if s.len() > 0 {
        sorted_set_is_no_longer(s.drop_last());
        insert_position_splits(sorted_set(s.drop_last()), s.last());
    }
}

/// In a strictly sorted list no element stands twice.
pub proof fn strictly_sorted_is_distinct(t: Seq<Seq<char>>, i: int, j: int)
    requires
        strictly_sorted(t),
        0 <= i < t.len(),
        0 <= j < t.len(),
        t[i] == t[j],
    ensures
        i == j,
{
    lex_irreflexive(t[i]);
}

/// Two strictly sorted lists with the same elements are the same list.
pub proof fn strictly_sorted_lists_agree(t: Seq<Seq<char>>, u: Seq<Seq<char>>)
    requires
        strictly_sorted(t),
        strictly_sorted(u),
        forall|y: Seq<char>| t.contains(y) <==> u.contains(y),
    ensures
        t == u,
    decreases t.len(),
{
    if t.len() == 0 {
        if u.len() > 0 {
            assert(u.contains(u[0]));
        }
        assert(t =~= u);
    } else {
        assert(t.contains(t.last()));
        assert(u.len() > 0);
        assert(u.contains(u.last()));
        let a = choose|a: int| 0 <= a < t.len() && t[a] == u.last();
        let b = choose|b: int| 0 <= b < u.len() && u[b] == t.last();
        if a < t.len() - 1 && b < u.len() - 1 {
            lex_transitive(t.last(), u.last(), t.last());
            lex_irreflexive(t.last());
        }
        assert(t.last() == u.last());
        let tp = t.drop_last();
        let up = u.drop_last();
        assert forall|y: Seq<char>| tp.contains(y) <==> up.contains(y) by {
            if tp.contains(y) {
                let i = choose|i: int| 0 <= i < tp.len() && tp[i] == y;
                assert(t[i] == y);
                assert(u.contains(y));
                let j = choose|j: int| 0 <= j < u.len() && u[j] == y;
                if j == u.len() - 1 {
                    strictly_sorted_is_distinct(t, i, t.len() - 1);
                }
                assert(up[j] == y);
            }
            if up.contains(y) {
                let i = choose|i: int| 0 <= i < up.len() && up[i] == y;
                assert(u[i] == y);
                assert(t.contains(y));
                let j = choose|j: int| 0 <= j < t.len() && t[j] == y;
                if j == t.len() - 1 {
                    strictly_sorted_is_distinct(u, i, u.len() - 1);
                }
                assert(tp[j] == y);
            }
        }
        strictly_sorted_lists_agree(tp, up);
        assert(t =~= tp.push(t.last()));
        assert(u =~= up.push(u.last()));
    }
}

/// Whether `a` comes before `b` in lexicographic order.
pub fn str_less(a: &str, b: &str) -> (r: bool)
    ensures
        r == lex_less(a@, b@),
{
    let x = chars_of(a);
    let y = chars_of(b);
    let mut i: usize = 0;
    assert(a@.skip(0) =~= a@);
    assert(b@.skip(0) =~= b@);
    while i < x.len() && i < y.len()
        invariant
            x@ == a@,
            y@ == b@,
            i <= x.len(),
            i <= y.len(),
            lex_less(a@, b@) == lex_less(a@.skip(i as int), b@.skip(i as int)),
        decreases x.len() - i,
    {
        let ghost p = a@.skip(i as int);
        let ghost q = b@.skip(i as int);
        assert(p[0] == x@[i as int] && q[0] == y@[i as int]);
        if x[i] != y[i] {
            return x[i] < y[i];
        }
        assert(p.skip(1) =~= a@.skip(i + 1));
        assert(q.skip(1) =~= b@.skip(i + 1));
        i += 1;
    }
    i < y.len()
}

/// Whether `x` is one of `v`.
pub fn list_contains(v: &Vec<String>, x: &str) -> (r: bool)
    ensures
        r == texts(v@).contains(x@),
{
    let mut i: usize = 0;
    while i < v.len()
        invariant
            i <= v.len(),
            forall|j: int| 0 <= j < i ==> texts(v@)[j] != x@,
        decreases v.len() - i,
    {
        if str_eq(v[i].as_str(), x) {
            assert(texts(v@)[i as int] == x@);
            return true;
        }
        i += 1;
    }
    false
}

/// The distinct elements of `v`, in lexicographic order.
pub fn sorted_distinct(v: &Vec<String>) -> (r: Vec<String>)
    ensures
        texts(r@) == sorted_set(texts(v@)),
{
    let mut r: Vec<String> = Vec::new();
    assert(texts(r@) =~= sorted_set(texts(v@).take(0)));
    let mut i: usize = 0;
    while i < v.len()
        invariant
            i <= v.len(),
            texts(r@) == sorted_set(texts(v@).take(i as int)),
        decreases v.len() - i,
    {
        let x = v[i].as_str();
        let ghost before = texts(r@);
        proof {
            assert(texts(v@).take(i + 1).drop_last() =~= texts(v@).take(i as int));
            assert(texts(v@).take(i + 1).last() == x@);
        }
        if !list_contains(&r, x) {
            let mut k: usize = 0;
            while k < r.len() && str_less(r[k].as_str(), x)
                invariant
                    k <= r.len(),
                    texts(r@) == before,
                    forall|j: int| 0 <= j < k ==> lex_less(#[trigger] before[j], x@),
                ensures
                    k <= r.len(),
                    forall|j: int| 0 <= j < k ==> lex_less(#[trigger] before[j], x@),
                    k < r.len() ==> !lex_less(before[k as int], x@),
                decreases r.len() - k,
            {
                k += 1;
            }
            proof {
                insert_position_unique(before, x@, k as int);
            }
            r.insert(k, v[i].clone());
            assert(texts(r@) =~= before.insert(k as int, x@));
        }
        i += 1;
    }
    assert(texts(v@).take(v.len() as int) =~= texts(v@));
    r
}

} // verus!
