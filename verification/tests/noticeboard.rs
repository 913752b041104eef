use noticeboard::board::NoticeboardService;
use noticeboard::model::{Author, Note};

fn note(title: &str, content: &str, author: Option<Author>) -> Note {
    Note { title: title.to_string(), content: content.to_string(), author }
}

fn by(nickname: &str, mail: &str) -> Option<Author> {
    Some(Author { nickname: nickname.to_string(), mail: mail.to_string() })
}

#[test]
fn new_board_is_empty() {
    let board = NoticeboardService::new();
    assert_eq!(board.len(), 0);
    assert!(board.get_note_by_title(&"Hello".to_string()).is_none());
}

#[test]
fn seeded_board_holds_the_three_fixtures() {
    let board = NoticeboardService::seeded();
    assert_eq!(board.len(), 3);
    assert_eq!(board.note_at(0).title, "Hello");
    assert_eq!(board.note_at(0).content, "This note says hello.");
    assert_eq!(board.note_at(0).author.as_ref().unwrap().nickname, "Hans");
    assert_eq!(board.note_at(0).author.as_ref().unwrap().mail, "hans@gmail.com");
    assert_eq!(board.note_at(1).title, "Goodbye");
    assert_eq!(board.note_at(1).content, "This note says goodbye.");
    assert_eq!(board.note_at(1).author.as_ref().unwrap().mail, "hans@gmail.com");
    assert_eq!(board.note_at(2).title, "What up");
    assert_eq!(board.note_at(2).content, "This note says what up.");
    assert_eq!(board.note_at(2).author.as_ref().unwrap().nickname, "Lisa");
    assert_eq!(board.note_at(2).author.as_ref().unwrap().mail, "lisa@gmail.com");
}

#[test]
fn lookup_returns_the_first_matching_note() {
    let board = NoticeboardService::seeded();
    let found = board.get_note_by_title(&"Hello".to_string()).unwrap();
    assert_eq!(found.title, "Hello");
    assert_eq!(found.content, "This note says hello.");
    assert_eq!(found.author.as_ref().unwrap().nickname, "Hans");
}

#[test]
fn lookup_of_a_missing_title_returns_none() {
    let board = NoticeboardService::seeded();
    assert!(board.get_note_by_title(&"Nope".to_string()).is_none());
}

#[test]
fn lookup_with_duplicate_titles_returns_the_earlier_note() {
    let mut board = NoticeboardService::new();
    board.add_note(note("Twice", "first", by("Hans", "hans@gmail.com")));
    board.add_note(note("Twice", "second", by("Lisa", "lisa@gmail.com")));
    let found = board.get_note_by_title(&"Twice".to_string()).unwrap();
    assert_eq!(found.content, "first");
}

#[test]
fn stream_by_hans_delivers_hello_then_goodbye() {
    let board = NoticeboardService::seeded();
    let streamed = board.list_notes_by_author(&"hans@gmail.com".to_string());
    assert_eq!(streamed.len(), 2);
    assert_eq!(streamed[0].title, "Hello");
    assert_eq!(streamed[1].title, "Goodbye");
}

#[test]
fn stream_by_lisa_delivers_only_what_up() {
    let board = NoticeboardService::seeded();
    let streamed = board.list_notes_by_author(&"lisa@gmail.com".to_string());
    assert_eq!(streamed.len(), 1);
    assert_eq!(streamed[0].title, "What up");
    assert_eq!(streamed[0].content, "This note says what up.");
}

#[test]
fn stream_by_an_unknown_mail_delivers_nothing() {
    let board = NoticeboardService::seeded();
    let streamed = board.list_notes_by_author(&"unknown@x.com".to_string());
    assert!(streamed.is_empty());
}

#[test]
fn notes_without_an_author_never_match() {
    let mut board = NoticeboardService::new();
    board.add_note(note("Orphan", "nobody signed this", None));
    board.add_note(note("Signed", "hi", by("Hans", "hans@gmail.com")));
    let streamed = board.list_notes_by_author(&"hans@gmail.com".to_string());
    assert_eq!(streamed.len(), 1);
    assert_eq!(streamed[0].title, "Signed");
    let empty = board.list_notes_by_author(&"".to_string());
    assert!(empty.is_empty());
}

#[test]
fn duplicate_mails_are_all_streamed_in_insertion_order() {
    let mut board = NoticeboardService::new();
    board.add_note(note("A", "1", by("Hans", "h@x.com")));
    board.add_note(note("B", "2", by("Hansi", "h@x.com")));
    board.add_note(note("C", "3", by("Lisa", "l@x.com")));
    board.add_note(note("D", "4", by("Hans", "h@x.com")));
    let streamed = board.list_notes_by_author(&"h@x.com".to_string());
    let titles: Vec<&str> = streamed.iter().map(|n| n.title.as_str()).collect();
    assert_eq!(titles, vec!["A", "B", "D"]);
}

#[test]
fn stream_step_walks_exactly_the_listed_notes() {
    let board = NoticeboardService::seeded();
    let mail = "hans@gmail.com".to_string();
    let mut walked: Vec<Note> = Vec::new();
    let mut pos: usize = 0;
    while let Some((n, next)) = board.stream_step(&mail, pos) {
        walked.push(n);
        pos = next;
    }
    let listed = board.list_notes_by_author(&mail);
    assert_eq!(walked.len(), listed.len());
    for (w, l) in walked.iter().zip(listed.iter()) {
        assert_eq!(w.title, l.title);
        assert_eq!(w.content, l.content);
    }
}

#[test]
fn stream_step_on_an_empty_board_closes_at_once() {
    let board = NoticeboardService::new();
    assert!(board.stream_step(&"hans@gmail.com".to_string(), 0).is_none());
}

#[test]
fn adding_notes_then_looking_each_up_finds_them() {
    let mut board = NoticeboardService::seeded();
    let before = board.len();
    let incoming = vec![
        note("First fresh", "one", by("Mia", "mia@x.com")),
        note("Second fresh", "two", None),
        note("Third fresh", "three", by("Mia", "mia@x.com")),
    ];
    board.add_notes(incoming);
    assert_eq!(board.len(), before + 3);
    for (title, content) in [
        ("First fresh", "one"),
        ("Second fresh", "two"),
        ("Third fresh", "three"),
    ] {
        let found = board.get_note_by_title(&title.to_string()).unwrap();
        assert_eq!(found.title, title);
        assert_eq!(found.content, content);
    }
}

#[test]
fn add_notes_appends_at_the_end_in_order() {
    let mut board = NoticeboardService::seeded();
    board.add_notes(vec![note("X", "x", None), note("Y", "y", None)]);
    assert_eq!(board.len(), 5);
    assert_eq!(board.note_at(3).title, "X");
    assert_eq!(board.note_at(4).title, "Y");
}

#[test]
fn add_notes_with_an_empty_batch_changes_nothing() {
    let mut board = NoticeboardService::seeded();
    board.add_notes(Vec::new());
    assert_eq!(board.len(), 3);
    assert_eq!(board.note_at(0).title, "Hello");
}

#[test]
fn an_added_note_is_streamed_after_existing_matches() {
    let mut board = NoticeboardService::seeded();
    board.add_note(note("Again", "late note", by("Hans", "hans@gmail.com")));
    let streamed = board.list_notes_by_author(&"hans@gmail.com".to_string());
    let titles: Vec<&str> = streamed.iter().map(|n| n.title.as_str()).collect();
    assert_eq!(titles, vec!["Hello", "Goodbye", "Again"]);
}
