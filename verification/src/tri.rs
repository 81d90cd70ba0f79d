//! Stable sorting of creature sequences by ascending level.
//!
//! The sort is specified as an insertion sort: each element, taken in input
//! order, is placed after every element already at its level or below. That
//! specification pins the result down completely, and the lemmas here derive
//! the classical sorting laws from it: the result is sorted, the sort is
//! stable (creatures of equal level keep their relative order), and it is
//! idempotent.

use vstd::prelude::*;
use crate::pokemon::Pokemon;

verus! {

/// The sequence is sorted by ascending level.
pub open spec fn niveau_trie(s: Seq<Pokemon>) -> bool {
    forall|i: int, j: int| 0 <= i <= j < s.len() ==> s[i].niveau <= s[j].niveau
}

/// Number of leading elements of `s` whose level is at most that of `p`:
/// the position where a stable insertion of `p` lands.
pub open spec fn position_insertion(s: Seq<Pokemon>, p: Pokemon) -> int
    decreases s.len(),
{
    if s.len() == 0 {
        0
    } else if s[0].niveau <= p.niveau {
        1 + position_insertion(s.drop_first(), p)
    } else {
        0
    }
}

/// Inserts `p` after every leading element whose level is at most
/// `p.niveau`, and before the rest.
pub open spec fn insere_par_niveau(s: Seq<Pokemon>, p: Pokemon) -> Seq<Pokemon>
    decreases s.len(),
{
    if s.len() == 0 {
        seq![p]
    } else if s[0].niveau <= p.niveau {
        seq![s[0]] + insere_par_niveau(s.drop_first(), p)
    } else {
        seq![p] + s
    }
}

/// The stable sort by level: insert the elements one by one, in input order.
pub open spec fn tri_par_niveau(s: Seq<Pokemon>) -> Seq<Pokemon>
    decreases s.len(),
{
    if s.len() == 0 {
        Seq::empty()
    } else {
        insere_par_niveau(tri_par_niveau(s.drop_last()), s.last())
    }
}

/// The predicate "has level `v`", used to state stability.
pub open spec fn de_niveau(v: u32) -> spec_fn(Pokemon) -> bool {
    |p: Pokemon| p.niveau == v
}

/// Inserting `p` into `s` splits `s` at `position_insertion`: everything
/// before that position has level at most `p.niveau`, the element right
/// after it (if any) has a greater level, and the result is the two parts
/// with `p` in between.
pub proof fn lemma_insere_caracterisation(s: Seq<Pokemon>, p: Pokemon)
    ensures
        0 <= position_insertion(s, p) <= s.len(),
        forall|i: int| 0 <= i < position_insertion(s, p) ==> s[i].niveau <= p.niveau,
        position_insertion(s, p) < s.len()
            ==> s[position_insertion(s, p)].niveau > p.niveau,
        insere_par_niveau(s, p)
            == s.take(position_insertion(s, p)) + seq![p] + s.skip(position_insertion(s, p)),
    decreases s.len(),
{
    let k = position_insertion(s, p);
    if s.len() == 0 {
        assert(insere_par_niveau(s, p) =~= s.take(0) + seq![p] + s.skip(0));
    } else if s[0].niveau <= p.niveau {
        let rest = s.drop_first();
        lemma_insere_caracterisation(rest, p);
        let k1 = position_insertion(rest, p);
        assert(k == 1 + k1);
        assert forall|i: int| 0 <= i < k implies s[i].niveau <= p.niveau by {
            if i > 0 {
                assert(s[i] == rest[i - 1]);
            }
        }
        if k < s.len() {
            assert(s[k] == rest[k - 1]);
        }
        assert(insere_par_niveau(s, p)
            == seq![s[0]] + (rest.take(k1) + seq![p] + rest.skip(k1)));
        assert(seq![s[0]] + (rest.take(k1) + seq![p] + rest.skip(k1))
            =~= s.take(k) + seq![p] + s.skip(k));
    } else {
        assert(insere_par_niveau(s, p) =~= s.take(0) + seq![p] + s.skip(0));
    }
}

/// Inserting into a sorted sequence keeps it sorted.
pub proof fn lemma_insere_trie(s: Seq<Pokemon>, p: Pokemon)
    requires
        niveau_trie(s),
    ensures
        niveau_trie(insere_par_niveau(s, p)),
        insere_par_niveau(s, p).len() == s.len() + 1,
{
    lemma_insere_caracterisation(s, p);
    let k = position_insertion(s, p);
    let r = insere_par_niveau(s, p);
    assert forall|i: int, j: int| 0 <= i <= j < r.len() implies r[i].niveau <= r[j].niveau by {
        if i < k {
            assert(r[i] == s[i]);
        } else if i == k {
            assert(r[i] == p);
        } else {
            assert(r[i] == s[i - 1]);
        }
        if j < k {
            assert(r[j] == s[j]);
        } else if j == k {
            assert(r[j] == p);
        } else {
            assert(r[j] == s[j - 1]);
        }
        if i < k && j == k {
            assert(s[i].niveau <= p.niveau);
        }
        if i == k && j > k {
            assert(k < s.len());
            assert(s[k].niveau > p.niveau);
            assert(s[k].niveau <= s[j - 1].niveau);
        }
        if i < k && j > k {
            assert(s[i].niveau <= s[j - 1].niveau);
        }
    }
}

/// The sort returns a sorted sequence of the same length.
pub proof fn lemma_tri_trie(s: Seq<Pokemon>)
    ensures
        niveau_trie(tri_par_niveau(s)),
        tri_par_niveau(s).len() == s.len(),
    decreases s.len(),
{
    if s.len() > 0 {
        lemma_tri_trie(s.drop_last());
        lemma_insere_trie(tri_par_niveau(s.drop_last()), s.last());
    }
}

/// Sorting an already sorted sequence returns it unchanged.
pub proof fn lemma_tri_fixe(s: Seq<Pokemon>)
    requires
        niveau_trie(s),
    ensures
        tri_par_niveau(s) == s,
    decreases s.len(),
{
    if s.len() == 0 {
        assert(tri_par_niveau(s) =~= s);
    } else {
        let d = s.drop_last();
        let p = s.last();
        assert(niveau_trie(d)) by {
            assert forall|i: int, j: int| 0 <= i <= j < d.len()
                implies d[i].niveau <= d[j].niveau by {
                assert(d[i] == s[i]);
                assert(d[j] == s[j]);
            }
        }
        lemma_tri_fixe(d);
        lemma_insere_caracterisation(d, p);
        let k = position_insertion(d, p);
        assert(k == d.len()) by {
            if k < d.len() {
                assert(d[k].niveau > p.niveau);
                assert(s[k].niveau <= s[s.len() - 1].niveau);
            }
        }
        assert(d.take(k) =~= d);
        assert(insere_par_niveau(d, p) =~= s);
    }
}

/// Sorting by level is idempotent: a second sort changes nothing.
pub proof fn lemma_tri_idempotent(s: Seq<Pokemon>)
    ensures
        tri_par_niveau(tri_par_niveau(s)) == tri_par_niveau(s),
{
    lemma_tri_trie(s);
    lemma_tri_fixe(tri_par_niveau(s));
}

/// A filter that rejects every element of the sequence returns the empty
/// sequence.
proof fn lemma_filtre_tous_exclus(s: Seq<Pokemon>, pred: spec_fn(Pokemon) -> bool)
    requires
        forall|i: int| 0 <= i < s.len() ==> !pred(s[i]),
    ensures
        s.filter(pred) == Seq::<Pokemon>::empty(),
    decreases s.len(),
{
    reveal(Seq::filter);
    if s.len() == 0 {
        assert(s.filter(pred) =~= Seq::<Pokemon>::empty());
    } else {
        assert forall|i: int| 0 <= i < s.drop_last().len()
            implies !pred(s.drop_last()[i]) by {
            assert(s.drop_last()[i] == s[i]);
        }
        lemma_filtre_tous_exclus(s.drop_last(), pred);
        assert(!pred(s.last()));
    }
}

/// Filtering a one-element sequence keeps or drops that single element.
proof fn lemma_filtre_singleton(p: Pokemon, pred: spec_fn(Pokemon) -> bool)
    ensures
        pred(p) ==> seq![p].filter(pred) == seq![p],
        !pred(p) ==> seq![p].filter(pred) == Seq::<Pokemon>::empty(),
{
    reveal(Seq::filter);
    let s = seq![p];
    assert(s.drop_last() =~= Seq::<Pokemon>::empty());
    assert(Seq::<Pokemon>::empty().filter(pred) == Seq::<Pokemon>::empty());
    assert(s.last() == p);
    if pred(p) {
        assert(s.filter(pred) =~= seq![p]);
    } else {
        assert(s.filter(pred) =~= Seq::<Pokemon>::empty());
    }
}

/// A stable insertion, seen through the level-`v` filter: it appends `p` to
/// the creatures of level `v` when `p` is of that level, and leaves them
/// untouched otherwise. Holds for sorted sequences, where every element
/// displaced past `p` has a strictly greater level.
proof fn lemma_insere_filtre(s: Seq<Pokemon>, p: Pokemon, v: u32)
    requires
        niveau_trie(s),
    ensures
        p.niveau == v ==> insere_par_niveau(s, p).filter(de_niveau(v))
            == s.filter(de_niveau(v)).push(p),
        p.niveau != v ==> insere_par_niveau(s, p).filter(de_niveau(v))
            == s.filter(de_niveau(v)),
{
    let pred = de_niveau(v);
    lemma_insere_caracterisation(s, p);
    let k = position_insertion(s, p);
    let a = s.take(k);
    let b = s.skip(k);
    Seq::filter_distributes_over_add(a + seq![p], b, pred);
    Seq::filter_distributes_over_add(a, seq![p], pred);
    Seq::filter_distributes_over_add(a, b, pred);
    assert(a + b =~= s);
    lemma_filtre_singleton(p, pred);
    if p.niveau == v {
        assert forall|i: int| 0 <= i < b.len() implies !pred(b[i]) by {
            assert(b[i] == s[k + i]);
            assert(s[k].niveau <= s[k + i].niveau);
            assert(s[k].niveau > p.niveau);
        }
        lemma_filtre_tous_exclus(b, pred);
        assert(insere_par_niveau(s, p).filter(pred)
            =~= s.filter(pred).push(p));
    } else {
        assert(insere_par_niveau(s, p).filter(pred) =~= s.filter(pred));
    }
}

/// The sort is stable: for every level `v`, the subsequence of creatures at
/// level `v` comes out of the sort exactly as it went in.
pub proof fn lemma_tri_stable(s: Seq<Pokemon>, v: u32)
    ensures
        tri_par_niveau(s).filter(de_niveau(v)) == s.filter(de_niveau(v)),
    decreases s.len(),
{
    let pred = de_niveau(v);
    if s.len() == 0 {
        assert(tri_par_niveau(s) =~= s);
    } else {
        let d = s.drop_last();
        let p = s.last();
        lemma_tri_stable(d, v);
        lemma_tri_trie(d);
        lemma_insere_filtre(tri_par_niveau(d), p, v);
        Seq::filter_distributes_over_add(d, seq![p], pred);
        lemma_filtre_singleton(p, pred);
        assert(d + seq![p] =~= s);
        if p.niveau == v {
            assert(d.filter(pred) + seq![p] =~= d.filter(pred).push(p));
        } else {
            assert(d.filter(pred) + Seq::<Pokemon>::empty() =~= d.filter(pred));
        }
    }
}

/// Unfolds one step of the sort of a prefix: sorting `i + 1` elements is
/// inserting element `i` into the sort of the first `i`.
pub proof fn lemma_tri_prefixe_suivant(s: Seq<Pokemon>, i: int)
    requires
        0 <= i < s.len(),
    ensures
        tri_par_niveau(s.take(i + 1))
            == insere_par_niveau(tri_par_niveau(s.take(i)), s[i]),
{
    let t = s.take(i + 1);
    assert(t.drop_last() =~= s.take(i));
    assert(t.last() == s[i]);
}

} // verus!
