use bible_rs::{BibleError, JSONError, VerseError};
use bible_rs::resolver::{ApiRequest, Resolver, StepOutcome};
use bible_rs::rng::{get_rng, get_rng_from_date};

const BOOKS: &str = r#"{"data":[{"id":"JHN","name":"John"}]}"#;
const CHAPTERS: &str = r#"{"data":[{"id":"JHN.3","number":"3"}]}"#;
const VERSES: &str = r#"{"data":[{"id":"JHN.3.16"}]}"#;
const TEXT: &str = r#"{"data":{"content":"  For God so loved the world.  "}}"#;
const BOOK_NAME: &str = r#"{"data":{"name":"John"}}"#;

fn expect_next(outcome: StepOutcome) -> ApiRequest {
    match outcome {
        StepOutcome::Next(req) => req,
        StepOutcome::Finished(_) => panic!("resolution finished too early"),
    }
}

#[test]
fn named_book_resolution_returns_the_supplied_name_verbatim() {
    let rng = get_rng();
    let (mut resolver, first) = Resolver::new(rng, Some("John".to_string()));
    assert!(matches!(first, ApiRequest::Books));

    let req = expect_next(resolver.step(BOOKS).unwrap());
    match req {
        ApiRequest::Chapters { book_id } => assert_eq!(book_id, "JHN"),
        _ => panic!("expected a chapters request"),
    }
    let req = expect_next(resolver.step(CHAPTERS).unwrap());
    match req {
        ApiRequest::Verses { chapter_id } => assert_eq!(chapter_id, "JHN.3"),
        _ => panic!("expected a verses request"),
    }
    let req = expect_next(resolver.step(VERSES).unwrap());
    match req {
        ApiRequest::VerseText { verse_id } => assert_eq!(verse_id, "JHN.3.16"),
        _ => panic!("expected a verse-text request"),
    }
    match resolver.step(TEXT).unwrap() {
        StepOutcome::Finished(verse) => {
            assert_eq!(verse.book, "John");
            assert_eq!(verse.chapter, "3");
            assert_eq!(verse.number, "16");
            assert_eq!(verse.verse, "For God so loved the world.");
        },
        StepOutcome::Next(_) => panic!("expected the resolution to finish"),
    }
}

#[test]
fn lower_case_book_name_matches_and_is_kept() {
    let rng = get_rng();
    let (mut resolver, _) = Resolver::new(rng, Some("john".to_string()));
    expect_next(resolver.step(BOOKS).unwrap());
    expect_next(resolver.step(CHAPTERS).unwrap());
    expect_next(resolver.step(VERSES).unwrap());
    match resolver.step(TEXT).unwrap() {
        StepOutcome::Finished(verse) => assert_eq!(verse.book, "john"),
        StepOutcome::Next(_) => panic!("expected the resolution to finish"),
    }
}

#[test]
fn upper_case_book_name_matches() {
    let rng = get_rng();
    let (mut resolver, _) = Resolver::new(rng, Some("JOHN".to_string()));
    let req = expect_next(resolver.step(BOOKS).unwrap());
    match req {
        ApiRequest::Chapters { book_id } => assert_eq!(book_id, "JHN"),
        _ => panic!("expected a chapters request"),
    }
}

#[test]
fn unknown_book_name_is_invalid() {
    let rng = get_rng();
    let (mut resolver, _) = Resolver::new(rng, Some("Mark".to_string()));
    assert_eq!(resolver.step(BOOKS), Err(VerseError::Resolve(BibleError::InvalidBook)));
}

#[test]
fn random_resolution_fetches_the_book_display_name() {
    let rng = get_rng_from_date("2024-01-15").unwrap();
    let (mut resolver, first) = Resolver::new(rng, None);
    assert!(matches!(first, ApiRequest::Books));

    let req = expect_next(resolver.step(BOOKS).unwrap());
    match req {
        ApiRequest::Chapters { book_id } => assert_eq!(book_id, "JHN"),
        _ => panic!("expected a chapters request"),
    }
    expect_next(resolver.step(CHAPTERS).unwrap());
    expect_next(resolver.step(VERSES).unwrap());
    let req = expect_next(resolver.step(TEXT).unwrap());
    match req {
        ApiRequest::BookName { book_id } => assert_eq!(book_id, "JHN"),
        _ => panic!("expected a book-name request"),
    }
    match resolver.step(BOOK_NAME).unwrap() {
        StepOutcome::Finished(verse) => {
            assert_eq!(verse.book, "John");
            assert_eq!(verse.chapter, "3");
            assert_eq!(verse.number, "16");
            assert_eq!(verse.verse, "For God so loved the world.");
        },
        StepOutcome::Next(_) => panic!("expected the resolution to finish"),
    }
}

#[test]
fn daily_resolutions_with_the_same_date_agree() {
    let run = || {
        let rng = get_rng_from_date("2024-03-10").unwrap();
        let (mut resolver, _) = Resolver::new(rng, None);
        let many_books = r#"{"data":[
            {"id":"GEN","name":"Genesis"},{"id":"EXO","name":"Exodus"},
            {"id":"LEV","name":"Leviticus"},{"id":"NUM","name":"Numbers"},
            {"id":"DEU","name":"Deuteronomy"},{"id":"JOS","name":"Joshua"},
            {"id":"JDG","name":"Judges"},{"id":"RUT","name":"Ruth"}
        ]}"#;
        match expect_next(resolver.step(many_books).unwrap()) {
            ApiRequest::Chapters { book_id } => book_id,
            _ => panic!("expected a chapters request"),
        }
    };
    assert_eq!(run(), run());
}

#[test]
fn empty_books_body_reports_no_books() {
    let rng = get_rng();
    let (mut resolver, _) = Resolver::new(rng, None);
    assert_eq!(
        resolver.step(r#"{"data":[]}"#),
        Err(VerseError::Resolve(BibleError::NoBooksAvailable))
    );
}

#[test]
fn empty_chapters_body_reports_no_chapters() {
    let rng = get_rng();
    let (mut resolver, _) = Resolver::new(rng, None);
    expect_next(resolver.step(BOOKS).unwrap());
    assert_eq!(
        resolver.step(r#"{"data":[]}"#),
        Err(VerseError::Resolve(BibleError::NoChaptersAvailable))
    );
}

#[test]
fn empty_verses_body_reports_no_verses() {
    let rng = get_rng();
    let (mut resolver, _) = Resolver::new(rng, None);
    expect_next(resolver.step(BOOKS).unwrap());
    expect_next(resolver.step(CHAPTERS).unwrap());
    assert_eq!(
        resolver.step(r#"{"data":[]}"#),
        Err(VerseError::Resolve(BibleError::NoVersesAvailable))
    );
}

#[test]
fn malformed_books_body_is_a_decode_failure() {
    let rng = get_rng();
    let (mut resolver, _) = Resolver::new(rng, None);
    assert_eq!(
        resolver.step("it is not json"),
        Err(VerseError::Decode(JSONError::ErrorWithBooks))
    );
}

#[test]
fn malformed_verse_id_is_a_decode_failure() {
    let rng = get_rng();
    let (mut resolver, _) = Resolver::new(rng, None);
    expect_next(resolver.step(BOOKS).unwrap());
    expect_next(resolver.step(CHAPTERS).unwrap());
    expect_next(resolver.step(r#"{"data":[{"id":"JHN-3-16"}]}"#).unwrap());
    assert_eq!(resolver.step(TEXT), Err(VerseError::Decode(JSONError::ErrorWithVerses)));
}

#[test]
fn trailing_intro_chapter_fails_when_drawn() {
    // One chapter only, and it is an intro: the skip forward runs off the end.
    let rng = get_rng();
    let (mut resolver, _) = Resolver::new(rng, None);
    expect_next(resolver.step(BOOKS).unwrap());
    assert_eq!(
        resolver.step(r#"{"data":[{"id":"JHN.intro","number":"intro"}]}"#),
        Err(VerseError::Decode(JSONError::ErrorWithChapters))
    );
}
