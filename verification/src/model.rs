//! The data model: notes and authors as plain records, and the spec
//! functions that the service's contracts are stated over.

use vstd::prelude::*;

verus! {

/// Who wrote a note: a display nickname and the mail address that
/// author-filtered queries match on.
pub struct Author {
    pub nickname: String,
    pub mail: String,
}

/// The unit of data stored and queried: a title (the lookup key),
/// free-text content, and an optional author. Nothing enforces title
/// uniqueness; duplicates are permitted.
pub struct Note {
    pub title: String,
    pub content: String,
    pub author: Option<Author>,
}

impl Clone for Author {
    fn clone(&self) -> (res: Self)
        ensures
            res == *self,
    {
        Author { nickname: self.nickname.clone(), mail: self.mail.clone() }
    }
}

impl Clone for Note {
    fn clone(&self) -> (res: Self)
        ensures
            res == *self,
    {
        Note {
            title: self.title.clone(),
            content: self.content.clone(),
            author: match &self.author {
                Some(a) => Some(a.clone()),
                None => None,
            },
        }
    }
}

/// The note bears the given title, compared exactly (case-sensitive).
pub open spec fn title_matches(n: Note, t: Seq<char>) -> bool {
    n.title@ == t
}

/// The note was written from the given mail address; a note without an
/// author matches no address.
pub open spec fn authored_by(n: Note, m: Seq<char>) -> bool {
    n.author matches Some(a) && a.mail@ == m
}

/// No note in `s` bears the title `t`.
pub open spec fn no_title_match(s: Seq<Note>, t: Seq<char>) -> bool {
    forall|i: int| 0 <= i < s.len() ==> !title_matches(#[trigger] s[i], t)
}

/// Position `i` holds the first note of `s` bearing the title `t`.
pub open spec fn first_match_at(s: Seq<Note>, t: Seq<char>, i: int) -> bool {
    &&& 0 <= i < s.len()
    &&& title_matches(s[i], t)
    &&& forall|j: int| 0 <= j < i ==> !title_matches(#[trigger] s[j], t)
}

/// What a title lookup returns: the note at the first matching position,
/// or nothing when no note of `s` bears the title.
pub open spec fn lookup_result(s: Seq<Note>, t: Seq<char>, r: Option<Note>) -> bool {
    match r {
        Some(n) => exists|i: int| #[trigger] first_match_at(s, t, i) && n == s[i],
        None => no_title_match(s, t),
    }
}

/// The author-match predicate as a single value, so that every statement
/// about filtering uses one and the same function.
pub open spec fn author_pred(m: Seq<char>) -> spec_fn(Note) -> bool {
    |n: Note| authored_by(n, m)
}

/// The notes of `s` written from mail address `m`, in insertion order:
/// exactly what a ListNotesByAuthor stream delivers before it closes.
pub open spec fn by_author(s: Seq<Note>, m: Seq<char>) -> Seq<Note> {
    s.filter(author_pred(m))
}

/// No note in positions `lo..hi` of `s` is written from `m`.
pub open spec fn no_author_match_in(s: Seq<Note>, m: Seq<char>, lo: int, hi: int) -> bool {
    forall|j: int| lo <= j < hi ==> !authored_by(#[trigger] s[j], m)
}

/// Scanning a stretch with no matching note delivers nothing: the stream
/// contents after `hi` notes equal the contents after `lo` notes.
pub proof fn lemma_by_author_unchanged(s: Seq<Note>, m: Seq<char>, lo: int, hi: int)
    requires
        0 <= lo <= hi <= s.len(),
        no_author_match_in(s, m, lo, hi),
    ensures
        by_author(s.take(hi), m) == by_author(s.take(lo), m),
    decreases hi - lo,
{
    if lo < hi {
        reveal(Seq::filter);
        assert(s.take(hi).drop_last() =~= s.take(hi - 1));
        assert(s.take(hi).last() == s[hi - 1]);
        assert(!author_pred(m)(s[hi - 1]));
        lemma_by_author_unchanged(s, m, lo, hi - 1);
    }
}

/// Scanning past a matching note delivers exactly that note next.
pub proof fn lemma_by_author_step(s: Seq<Note>, m: Seq<char>, k: int)
    requires
        0 <= k < s.len(),
        authored_by(s[k], m),
    ensures
        by_author(s.take(k + 1), m) == by_author(s.take(k), m).push(s[k]),
{
    reveal(Seq::filter);
    assert(s.take(k + 1).drop_last() =~= s.take(k));
    assert(s.take(k + 1).last() == s[k]);
    assert(author_pred(m)(s[k]));
}

/// A scan that has not started yet has delivered nothing.
pub proof fn lemma_by_author_empty(s: Seq<Note>, m: Seq<char>)
    ensures
        by_author(s.take(0), m) == Seq::<Note>::empty(),
{
    reveal(Seq::filter);
    assert(s.take(0) =~= Seq::<Note>::empty());
    assert(by_author(s.take(0), m) =~= Seq::<Note>::empty());
}

} // verus!
