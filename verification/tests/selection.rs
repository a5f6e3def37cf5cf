use bible_rs::{BibleError, JSONError, VerseError};
use bible_rs::gateway::{Book, Chapter};
use bible_rs::resolver::{
    chapter_at_index, find_book, select_random_book, select_random_chapter,
    select_random_verse_id, split_verse_id,
};
use bible_rs::rng::get_rng_from_date;

fn book(id: &str, name: &str) -> Book {
    Book { id: id.to_string(), name: name.to_string() }
}

fn chapter(id: &str, number: &str) -> Chapter {
    Chapter { id: id.to_string(), number: number.to_string() }
}

#[test]
fn select_random_book_is_deterministic_per_seed() {
    let books: Vec<Book> = (0..20).map(|i| book(&format!("B{}", i), &format!("Book {}", i))).collect();
    let mut rng1 = get_rng_from_date("2024-01-15").unwrap();
    let mut rng2 = get_rng_from_date("2024-01-15").unwrap();
    let a = select_random_book(&books, &mut rng1).unwrap();
    let b = select_random_book(&books, &mut rng2).unwrap();
    assert_eq!(a, b);
}

#[test]
fn select_random_verse_id_is_deterministic_per_seed() {
    let ids: Vec<String> = (0..50).map(|i| format!("JHN.3.{}", i)).collect();
    let mut rng1 = get_rng_from_date("2020-06-01").unwrap();
    let mut rng2 = get_rng_from_date("2020-06-01").unwrap();
    assert_eq!(
        select_random_verse_id(&ids, &mut rng1).unwrap(),
        select_random_verse_id(&ids, &mut rng2).unwrap()
    );
}

#[test]
fn selection_on_empty_lists_reports_nothing_available() {
    let mut rng = get_rng_from_date("2024-01-15").unwrap();
    assert_eq!(select_random_book(&vec![], &mut rng), Err(BibleError::NoBooksAvailable));
    assert_eq!(
        select_random_chapter(&vec![], &mut rng),
        Err(VerseError::Resolve(BibleError::NoChaptersAvailable))
    );
    assert_eq!(select_random_verse_id(&vec![], &mut rng), Err(BibleError::NoVersesAvailable));
}

#[test]
fn chapter_at_intro_index_advances_by_one() {
    let chapters = vec![chapter("GEN.intro", "intro"), chapter("GEN.1", "1")];
    assert_eq!(chapter_at_index(&chapters, 0).unwrap(), "GEN.1");
    assert_eq!(chapter_at_index(&chapters, 1).unwrap(), "GEN.1");
}

#[test]
fn chapter_at_trailing_intro_index_fails() {
    let chapters = vec![chapter("GEN.1", "1"), chapter("GEN.intro", "intro")];
    assert_eq!(chapter_at_index(&chapters, 0).unwrap(), "GEN.1");
    assert_eq!(chapter_at_index(&chapters, 1), Err(JSONError::ErrorWithChapters));
}

#[test]
fn select_random_chapter_skips_a_leading_intro() {
    // With an intro chapter first and one real chapter, either draw lands on
    // "GEN.1": index 0 is skipped forward, index 1 is taken as it is.
    let chapters = vec![chapter("GEN.intro", "intro"), chapter("GEN.1", "1")];
    for date in ["2024-01-15", "2024-01-16", "2024-02-01", "1999-12-31"] {
        let mut rng = get_rng_from_date(date).unwrap();
        assert_eq!(select_random_chapter(&chapters, &mut rng).unwrap(), "GEN.1");
    }
}

#[test]
fn find_book_matches_case_insensitively() {
    let books = vec![book("GEN", "Genesis"), book("JHN", "John")];
    assert_eq!(find_book(&books, "John"), Some(1));
    assert_eq!(find_book(&books, "john"), Some(1));
    assert_eq!(find_book(&books, "JOHN"), Some(1));
    assert_eq!(find_book(&books, "genesis"), Some(0));
    assert_eq!(find_book(&books, "Mark"), None);
}

#[test]
fn find_book_prefers_the_last_match() {
    let books = vec![book("A", "John"), book("B", "JOHN")];
    assert_eq!(find_book(&books, "john"), Some(1));
}

#[test]
fn split_verse_id_yields_three_segments() {
    let (b, c, v) = split_verse_id("GEN.1.1").unwrap();
    assert_eq!(b, "GEN");
    assert_eq!(c, "1");
    assert_eq!(v, "1");
}

#[test]
fn split_verse_id_rejects_other_shapes() {
    assert_eq!(split_verse_id("GEN.1"), Err(JSONError::ErrorWithVerses));
    assert_eq!(split_verse_id("GEN"), Err(JSONError::ErrorWithVerses));
    assert_eq!(split_verse_id(""), Err(JSONError::ErrorWithVerses));
    assert_eq!(split_verse_id("GEN.1.1.1"), Err(JSONError::ErrorWithVerses));
}

#[test]
fn split_verse_id_keeps_empty_segments() {
    let (b, c, v) = split_verse_id("..").unwrap();
    assert_eq!(b, "");
    assert_eq!(c, "");
    assert_eq!(v, "");
}

#[test]
fn successive_draws_from_one_seed_repeat_across_generators() {
    let ids: Vec<String> = (0..17).map(|i| format!("PSA.23.{}", i)).collect();
    let books: Vec<Book> = (0..11).map(|i| book(&format!("B{}", i), &format!("Book {}", i))).collect();
    let mut rng1 = get_rng_from_date("2024-07-04").unwrap();
    let mut rng2 = get_rng_from_date("2024-07-04").unwrap();
    // Two draws in sequence from each generator: both the first and the
    // second draw must agree between the generators.
    let first1 = select_random_book(&books, &mut rng1).unwrap();
    let second1 = select_random_verse_id(&ids, &mut rng1).unwrap();
    let first2 = select_random_book(&books, &mut rng2).unwrap();
    let second2 = select_random_verse_id(&ids, &mut rng2).unwrap();
    assert_eq!(first1, first2);
    assert_eq!(second1, second2);
}
