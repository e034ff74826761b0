//! The mathematical model of a clip store: an ordered sequence of texts in
//! which no text is empty and none occurs twice, with the laws of inserting
//! and deleting by value.

use vstd::prelude::*;

verus! {

/// The texts held by a sequence of strings, in order.
pub open spec fn texts(v: Seq<String>) -> Seq<Seq<char>> {
    Seq::new(v.len(), |i: int| v[i]@)
}

/// A sequence of texts is a clip set when no text is empty and none repeats.
pub open spec fn is_clip_set(s: Seq<Seq<char>>) -> bool {
    &&& forall|i: int| 0 <= i < s.len() ==> (#[trigger] s[i]).len() > 0
    &&& s.no_duplicates()
}

/// `x` stands at exactly one index of `s`.
pub open spec fn holds_once(s: Seq<Seq<char>>, x: Seq<char>) -> bool {
    exists|i: int|
        0 <= i < s.len() && #[trigger] s[i] == x && forall|j: int|
            0 <= j < s.len() && #[trigger] s[j] == x ==> j == i
}

/// The store after recording `x`: unchanged when `x` is empty or already a
/// member, otherwise `x` is appended.
pub open spec fn insert_text(s: Seq<Seq<char>>, x: Seq<char>) -> Seq<Seq<char>> {
    if x.len() == 0 || s.contains(x) {
        s
    } else {
        s.push(x)
    }
}

/// The store after deleting `x` by value: unchanged when `x` is no member.
pub open spec fn delete_text(s: Seq<Seq<char>>, x: Seq<char>) -> Seq<Seq<char>> {
    if s.contains(x) {
        s.remove(s.index_of(x))
    } else {
        s
    }
}

/// The store after recording every text of `xs`, first to last.
pub open spec fn insert_all(s: Seq<Seq<char>>, xs: Seq<Seq<char>>) -> Seq<Seq<char>>
    decreases xs.len(),
{
    if xs.len() == 0 {
        s
    } else {
        insert_text(insert_all(s, xs.drop_last()), xs.last())
    }
}

/// In a sequence without repeats, a member stands exactly once.
pub proof fn lemma_member_holds_once(s: Seq<Seq<char>>, x: Seq<char>)
    requires
        s.no_duplicates(),
        s.contains(x),
    ensures
        holds_once(s, x),
{
    let i = s.index_of(x);
    assert(0 <= i < s.len() && s[i] == x);
    assert forall|j: int| 0 <= j < s.len() && #[trigger] s[j] == x implies j == i by {}
}

/// Recording a text keeps a clip set a clip set, keeps every earlier clip at
/// its index, and leaves a non-empty text in the store exactly once.
pub proof fn lemma_insert_text(s: Seq<Seq<char>>, x: Seq<char>)
    requires
        is_clip_set(s),
    ensures
        is_clip_set(insert_text(s, x)),
        s.len() <= insert_text(s, x).len() <= s.len() + 1,
        forall|i: int| 0 <= i < s.len() ==> #[trigger] insert_text(s, x)[i] == s[i],
        forall|y: Seq<char>|
            #[trigger] insert_text(s, x).contains(y) <==> s.contains(y) || (y == x && x.len() > 0),
        x.len() > 0 ==> holds_once(insert_text(s, x), x),
{
    let r = insert_text(s, x);
    if x.len() > 0 && !s.contains(x) {
        assert(r[s.len() as int] == x);
        assert forall|i: int, j: int| 0 <= i < r.len() && 0 <= j < r.len() && i != j implies r[i]
            != r[j] by {
            if i < s.len() {
                assert(s.contains(r[i]));
            }
            if j < s.len() {
                assert(s.contains(r[j]));
            }
        }
        assert forall|y: Seq<char>| #[trigger] r.contains(y) <==> s.contains(y) || y == x by {
            if r.contains(y) {
                let k = choose|k: int| 0 <= k < r.len() && r[k] == y;
                if k < s.len() {
                    assert(s[k] == y);
                }
            }
            if s.contains(y) {
                let k = choose|k: int| 0 <= k < s.len() && s[k] == y;
                assert(r[k] == y);
            }
        }
    }
    if x.len() > 0 {
        assert(r.contains(x));
        lemma_member_holds_once(r, x);
    }
}

/// Deleting by value keeps a clip set a clip set, removes the text, and keeps
/// every other clip, in the order they had.
pub proof fn lemma_delete_text(s: Seq<Seq<char>>, x: Seq<char>)
    requires
        is_clip_set(s),
    ensures
        is_clip_set(delete_text(s, x)),
        !delete_text(s, x).contains(x),
        forall|y: Seq<char>| #[trigger] delete_text(s, x).contains(y) <==> s.contains(y) && y != x,
        forall|i: int|
            0 <= i < s.len() && s[i] == x ==> delete_text(s, x) == #[trigger] s.remove(i),
{
    let r = delete_text(s, x);
    if s.contains(x) {
        let k = s.index_of(x);
        assert(0 <= k < s.len() && s[k] == x);
        assert forall|i: int, j: int| 0 <= i < r.len() && 0 <= j < r.len() && i != j implies r[i]
            != r[j] by {
            let si = if i < k { i } else { i + 1 };
            let sj = if j < k { j } else { j + 1 };
            assert(r[i] == s[si] && r[j] == s[sj]);
        }
        assert forall|i: int| 0 <= i < r.len() implies (#[trigger] r[i]).len() > 0 by {
            let si = if i < k { i } else { i + 1 };
            assert(r[i] == s[si]);
        }
        assert forall|y: Seq<char>| #[trigger] r.contains(y) <==> s.contains(y) && y != x by {
            if r.contains(y) {
                let i = choose|i: int| 0 <= i < r.len() && r[i] == y;
                let si = if i < k { i } else { i + 1 };
                assert(r[i] == s[si]);
            }
            if s.contains(y) && y != x {
                let i = choose|i: int| 0 <= i < s.len() && s[i] == y;
                let ri = if i < k { i } else { i - 1 };
                assert(r[ri] == s[i]);
            }
        }
    } else {
        assert forall|i: int| 0 <= i < s.len() implies s[i] != x by {
            if s[i] == x {
                assert(s.contains(x));
            }
        }
    }
}

/// Uniqueness: after any sequence of inserts the store is a clip set that
/// holds each non-empty inserted text exactly once, and nothing besides what
/// it held before and what was inserted.
pub proof fn lemma_insert_all_unique(s: Seq<Seq<char>>, xs: Seq<Seq<char>>)
    requires
        is_clip_set(s),
    ensures
        is_clip_set(insert_all(s, xs)),
        forall|k: int|
            0 <= k < xs.len() && (#[trigger] xs[k]).len() > 0 ==> holds_once(
                insert_all(s, xs),
                xs[k],
            ),
        forall|y: Seq<char>|
            #[trigger] insert_all(s, xs).contains(y) <==> s.contains(y) || (xs.contains(y)
                && y.len() > 0),
    decreases xs.len(),
{
    if xs.len() > 0 {
        let before = insert_all(s, xs.drop_last());
        let r = insert_all(s, xs);
        lemma_insert_all_unique(s, xs.drop_last());
        lemma_insert_text(before, xs.last());
        assert forall|y: Seq<char>| #[trigger] r.contains(y) <==> s.contains(y) || (xs.contains(y)
            && y.len() > 0) by {
            if xs.drop_last().contains(y) {
                let k = choose|k: int| 0 <= k < xs.drop_last().len() && xs.drop_last()[k] == y;
                assert(xs[k] == y);
            }
            if xs.contains(y) {
                let k = choose|k: int| 0 <= k < xs.len() && xs[k] == y;
                if k < xs.len() - 1 {
                    assert(xs.drop_last()[k] == y);
                } else {
                    assert(y == xs.last());
                }
            }
            assert(xs.contains(xs.last()));
        }
        assert forall|k: int| 0 <= k < xs.len() && (#[trigger] xs[k]).len() > 0 implies holds_once(
            r,
            xs[k],
        ) by {
            assert(xs.contains(xs[k]));
            assert(r.contains(xs[k]));
            lemma_member_holds_once(r, xs[k]);
        }
    }
}

/// Idempotence: recording a text twice leaves the store as recording it once.
pub proof fn lemma_insert_idempotent(s: Seq<Seq<char>>, x: Seq<char>)
    ensures
        insert_text(insert_text(s, x), x) == insert_text(s, x),
{
    if x.len() > 0 && !s.contains(x) {
        assert(s.push(x)[s.len() as int] == x);
    }
}

/// Deleting a text that the store does not hold leaves the store unchanged.
pub proof fn lemma_delete_absent(s: Seq<Seq<char>>, x: Seq<char>)
    requires
        !s.contains(x),
    ensures
        delete_text(s, x) == s,
{
}

/// Round trip: a non-empty text that was just recorded is a member of the
/// store, character for character, whatever characters it holds.
pub proof fn lemma_insert_round_trip(s: Seq<Seq<char>>, x: Seq<char>)
    requires
        x.len() > 0,
    ensures
        insert_text(s, x).contains(x),
{
    if !s.contains(x) {
        assert(s.push(x)[s.len() as int] == x);
    }
}

} // verus!
