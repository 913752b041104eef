//! Laws of the service, stated and proved over the model: lookup is
//! determined by the board, ingestion followed by lookup finds what was
//! ingested, and a stream delivers exactly the matching notes, in
//! insertion order.

use vstd::prelude::*;

use crate::model::{
    author_pred, authored_by, by_author, first_match_at, lookup_result, no_author_match_in,
    no_title_match, title_matches, Note,
};

verus! {

/// A title lookup's result is pinned down by the board: whenever
/// position `i` holds the first note bearing `t`, the only result the
/// lookup contract admits is that very note.
pub proof fn lemma_lookup_determined(s: Seq<Note>, t: Seq<char>, r: Option<Note>, i: int)
    requires
        lookup_result(s, t, r),
        first_match_at(s, t, i),
    ensures
        r == Some(s[i]),
{
    match r {
        Some(n) => {
            let j = choose|j: int| #[trigger] first_match_at(s, t, j) && n == s[j];
            if j < i {
                assert(!title_matches(s[j], t));
            }
            if i < j {
                assert(!title_matches(s[i], t));
            }
            assert(j == i);
        },
        None => {
            assert(!title_matches(s[i], t));
            assert(false);
        },
    }
}

/// Ingesting notes and then looking one of them up by title returns
/// exactly that note, provided no note already on the board and no
/// earlier ingested note bears the same title. (With a duplicate title
/// the earlier note wins, so those inputs are left out.)
pub proof fn lemma_append_then_lookup(before: Seq<Note>, added: Seq<Note>, k: int)
    requires
        0 <= k < added.len(),
        no_title_match(before, added[k].title@),
        forall|j: int| 0 <= j < k ==> !title_matches(#[trigger] added[j], added[k].title@),
    ensures
        first_match_at(before + added, added[k].title@, before.len() + k),
        forall|r: Option<Note>|
            #[trigger] lookup_result(before + added, added[k].title@, r) ==> r == Some(added[k]),
{
    let s = before + added;
    let t = added[k].title@;
    let i = before.len() + k;
    assert(s[i] == added[k]);
    assert forall|j: int| 0 <= j < i implies !title_matches(#[trigger] s[j], t) by {
        if j < before.len() {
            assert(s[j] == before[j]);
        } else {
            assert(s[j] == added[j - before.len()]);
        }
    }
    assert(first_match_at(s, t, i));
    assert forall|r: Option<Note>| #[trigger] lookup_result(s, t, r) implies r == Some(
        added[k],
    ) by {
        lemma_lookup_determined(s, t, r, i);
    }
}

/// A stream delivers exactly the matching notes and nothing else: every
/// delivered note was written from `m`, every note of `s` written from
/// `m` is delivered, and no more notes are delivered than the board
/// holds.
pub proof fn lemma_streamed_exactly_matches(s: Seq<Note>, m: Seq<char>)
    ensures
        by_author(s, m).len() <= s.len(),
        forall|i: int|
            0 <= i < by_author(s, m).len() ==> authored_by(#[trigger] by_author(s, m)[i], m),
        forall|i: int|
            0 <= i < s.len() && authored_by(#[trigger] s[i], m) ==> by_author(s, m).contains(s[i]),
{
    let pred = author_pred(m);
    s.lemma_filter_len(pred);
    assert forall|i: int| 0 <= i < by_author(s, m).len() implies authored_by(
        #[trigger] by_author(s, m)[i],
        m,
    ) by {
        s.lemma_filter_pred(pred, i);
    }
    assert forall|i: int|
        0 <= i < s.len() && authored_by(#[trigger] s[i], m) implies by_author(s, m).contains(
        s[i],
    ) by {
        s.lemma_filter_contains(pred, i);
    }
}

/// A query for a mail address no note was written from streams zero
/// notes before it closes.
pub proof fn lemma_unknown_author_streams_nothing(s: Seq<Note>, m: Seq<char>)
    requires
        no_author_match_in(s, m, 0, s.len() as int),
    ensures
        by_author(s, m) == Seq::<Note>::empty(),
{
    crate::model::lemma_by_author_unchanged(s, m, 0, s.len() as int);
    crate::model::lemma_by_author_empty(s, m);
    assert(s.take(s.len() as int) =~= s);
}

/// Delivery order is insertion order: what a stream has delivered after
/// the scan has passed the first `k` notes is a prefix of everything it
/// delivers — notes are never delivered out of scan order.
pub proof fn lemma_stream_order(s: Seq<Note>, m: Seq<char>, k: int)
    requires
        0 <= k <= s.len(),
    ensures
        by_author(s.take(k), m).is_prefix_of(by_author(s, m)),
    decreases s.len() - k,
{
    if k == s.len() {
        assert(s.take(k) =~= s);
        assert(by_author(s.take(k), m).is_prefix_of(by_author(s, m)));
    } else {
        lemma_stream_order(s, m, k + 1);
        if authored_by(s[k], m) {
            crate::model::lemma_by_author_step(s, m, k);
        } else {
            crate::model::lemma_by_author_unchanged(s, m, k, k + 1);
        }
        let a = by_author(s.take(k), m);
        let b = by_author(s.take(k + 1), m);
        let c = by_author(s, m);
        assert(b.is_prefix_of(c));
        assert(a.is_prefix_of(c)) by {
            assert(a =~= b.subrange(0, a.len() as int));
            assert(b =~= c.subrange(0, b.len() as int));
            assert(a =~= c.subrange(0, a.len() as int));
        }
    }
}

} // verus!
