//! The noticeboard service: an ordered, in-memory collection of notes
//! with the three operations the service exposes — point lookup by
//! title, author-filtered streaming, and ingestion of incoming notes.
//!
//! The streaming operation is split along the suspension point: the
//! verified scan is `stream_step`, one producer step per delivered note,
//! and `list_notes_by_author` is the whole scan at once. An async caller
//! drives `stream_step` in a loop, sending each note on a bounded
//! channel between steps, so a full buffer suspends the scan and a slow
//! consumer throttles the producer.

use vstd::prelude::*;

use crate::model::{
    authored_by, by_author, first_match_at, lemma_by_author_empty, lemma_by_author_step,
    lemma_by_author_unchanged, lookup_result, no_author_match_in, title_matches, Author, Note,
};

verus! {

/// The service state: the shared sequence of notes, in insertion order.
/// It is never reordered and nothing is ever deleted; ingestion appends
/// to the end.
pub struct NoticeboardService {
    notes: Vec<Note>,
}

impl View for NoticeboardService {
    type V = Seq<Note>;

    closed spec fn view(&self) -> Seq<Note> {
        self.notes@
    }
}

impl NoticeboardService {
    /// An empty board.
    pub fn new() -> (r: Self)
        ensures
            r@ == Seq::<Note>::empty(),
    {
        NoticeboardService { notes: Vec::new() }
    }

    /// How many notes the board holds.
    pub fn len(&self) -> (n: usize)
        ensures
            n == self@.len(),
    {
        self.notes.len()
    }

    /// The note at position `i`, in insertion order.
    pub fn note_at(&self, i: usize) -> (n: &Note)
        requires
            i < self@.len(),
        ensures
            *n == self@[i as int],
    {
        &self.notes[i]
    }

    /// GetNoteByTitle: scans in insertion order and returns the first
    /// note whose title equals `title` exactly, or `None` when no note
    /// matches. Absence is reported explicitly rather than by a default
    /// note value.
    pub fn get_note_by_title(&self, title: &String) -> (r: Option<Note>)
        ensures
            lookup_result(self@, title@, r),
    {
        let n = self.notes.len();
        let mut i: usize = 0;
        while i < n
            invariant
                n == self@.len(),
                i <= n,
                forall|j: int| 0 <= j < i ==> !title_matches(#[trigger] self@[j], title@),
            decreases n - i,
        {
            if self.notes[i].title == *title {
                proof {
                    assert(first_match_at(self@, title@, i as int));
                }
                return Some(self.notes[i].clone());
            }
            i += 1;
        }
        None
    }

    /// One producer step of ListNotesByAuthor: starting at position
    /// `pos`, find the next note written from `mail`. Returns that note
    /// with the position to resume from, or `None` once the scan is
    /// complete. The caller delivers the note downstream between steps,
    /// so the scan advances only as fast as delivery allows.
    pub fn stream_step(&self, mail: &String, pos: usize) -> (r: Option<(Note, usize)>)
        ensures
            (match r {
                Some((n, next)) => {
                    &&& pos < next <= self@.len()
                    &&& authored_by(self@[next - 1], mail@)
                    &&& n == self@[next - 1]
                    &&& no_author_match_in(self@, mail@, pos as int, next - 1)
                },
                None => no_author_match_in(self@, mail@, pos as int, self@.len() as int),
            }),
    {
        let n = self.notes.len();
        let mut i: usize = pos;
        while i < n
            invariant
                n == self@.len(),
                pos <= i,
                no_author_match_in(self@, mail@, pos as int, i as int),
            decreases n - i,
        {
            match &self.notes[i].author {
                Some(a) => {
                    if a.mail == *mail {
                        return Some((self.notes[i].clone(), i + 1));
                    }
                },
                None => {},
            }
            i += 1;
        }
        None
    }

    /// ListNotesByAuthor, scanned to completion: every note written from
    /// `mail`, in insertion order, and nothing else. Implemented as the
    /// same step loop an async producer runs, one `stream_step` per
    /// delivered note.
    pub fn list_notes_by_author(&self, mail: &String) -> (r: Vec<Note>)
        ensures
            r@ == by_author(self@, mail@),
    {
        let mut out: Vec<Note> = Vec::new();
        let mut pos: usize = 0;
        let mut done = false;
        proof {
            lemma_by_author_empty(self@, mail@);
        }
        while !done
            invariant
                pos <= self@.len(),
                out@ == by_author(self@.take(pos as int), mail@),
                done ==> out@ == by_author(self@, mail@),
            decreases self@.len() - pos, (if done { 0int } else { 1int }),
        {
            match self.stream_step(mail, pos) {
                Some((note, next)) => {
                    proof {
                        lemma_by_author_unchanged(self@, mail@, pos as int, next - 1);
                        lemma_by_author_step(self@, mail@, next - 1);
                    }
                    out.push(note);
                    pos = next;
                },
                None => {
                    proof {
                        lemma_by_author_unchanged(self@, mail@, pos as int, self@.len() as int);
                        assert(self@.take(self@.len() as int) =~= self@);
                    }
                    done = true;
                },
            }
        }
        out
    }

    /// One AddNotes ingestion step: appends one incoming note, exactly
    /// as received, to the end of the board. Readers observe the board
    /// either before or after the whole append, never in between.
    pub fn add_note(&mut self, note: Note)
        ensures
            final(self)@ == old(self)@.push(note),
    {
        self.notes.push(note);
    }

    /// AddNotes, for a fully received batch: appends every incoming note
    /// in order, with no existence check and no validation. If the
    /// caller's input stream fails mid-sequence, it passes the notes
    /// received so far; they stay appended (no rollback).
    pub fn add_notes(&mut self, incoming: Vec<Note>)
        ensures
            final(self)@ == old(self)@ + incoming@,
    {
        let ghost orig: Seq<Note> = self@;
        let n = incoming.len();
        let mut i: usize = 0;
        proof {
            assert(orig + incoming@.take(0) =~= orig);
        }
        while i < n
            invariant
                n == incoming@.len(),
                i <= n,
                self@ == orig + incoming@.take(i as int),
            decreases n - i,
        {
            let note = incoming[i].clone();
            proof {
                assert((orig + incoming@.take(i as int)).push(incoming@[i as int]) =~= orig
                    + incoming@.take(i as int + 1));
            }
            self.notes.push(note);
            i += 1;
        }
        proof {
            assert(orig + incoming@.take(n as int) =~= orig + incoming@);
        }
    }

    /// The board the reference deployment starts from: "Hello" and
    /// "Goodbye" by Hans, then "What up" by Lisa.
    pub fn seeded() -> (r: Self)
        ensures
            r@.len() == 3,
            r@[0].title@ == "Hello"@,
            r@[0].content@ == "This note says hello."@,
            r@[0].author matches Some(a) && a.nickname@ == "Hans"@ && a.mail@ == "hans@gmail.com"@,
            r@[1].title@ == "Goodbye"@,
            r@[1].content@ == "This note says goodbye."@,
            r@[1].author matches Some(a) && a.nickname@ == "Hans"@ && a.mail@ == "hans@gmail.com"@,
            r@[2].title@ == "What up"@,
            r@[2].content@ == "This note says what up."@,
            r@[2].author matches Some(a) && a.nickname@ == "Lisa"@ && a.mail@ == "lisa@gmail.com"@,
    {
        let mut notes: Vec<Note> = Vec::new();
        notes.push(
            Note {
                title: "Hello".to_owned(),
                content: "This note says hello.".to_owned(),
                author: Some(
                    Author { nickname: "Hans".to_owned(), mail: "hans@gmail.com".to_owned() },
                ),
            },
        );
        notes.push(
            Note {
                title: "Goodbye".to_owned(),
                content: "This note says goodbye.".to_owned(),
                author: Some(
                    Author { nickname: "Hans".to_owned(), mail: "hans@gmail.com".to_owned() },
                ),
            },
        );
        notes.push(
            Note {
                title: "What up".to_owned(),
                content: "This note says what up.".to_owned(),
                author: Some(
                    Author { nickname: "Lisa".to_owned(), mail: "lisa@gmail.com".to_owned() },
                ),
            },
        );
        NoticeboardService { notes }
    }
}

} // verus!
