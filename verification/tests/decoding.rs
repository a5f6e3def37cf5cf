use bible_rs::JSONError;
use bible_rs::gateway::{
    decode_bibles, decode_bible_name, decode_book_name, decode_books, decode_chapters,
    decode_verse_ids, decode_verse_text, list_books_from_bodies,
};

#[test]
fn decode_books_reads_ids_and_names_in_order() {
    let body = r#"{"data":[{"id":"GEN","name":"Genesis"},{"id":"EXO","name":"Exodus"}]}"#;
    let books = decode_books(body).unwrap();
    assert_eq!(books.len(), 2);
    assert_eq!(books[0].id, "GEN");
    assert_eq!(books[0].name, "Genesis");
    assert_eq!(books[1].id, "EXO");
    assert_eq!(books[1].name, "Exodus");
}

#[test]
fn decode_books_empty_data_is_an_empty_list() {
    let books = decode_books(r#"{"data":[]}"#).unwrap();
    assert_eq!(books.len(), 0);
}

#[test]
fn decode_books_rejects_bad_bodies() {
    assert_eq!(decode_books("not json"), Err(JSONError::ErrorWithBooks));
    assert_eq!(decode_books(r#"{"other":[]}"#), Err(JSONError::ErrorWithBooks));
    assert_eq!(decode_books(r#"{"data":{}}"#), Err(JSONError::ErrorWithBooks));
    assert_eq!(
        decode_books(r#"{"data":[{"id":"GEN"}]}"#),
        Err(JSONError::ErrorWithBooks)
    );
    assert_eq!(
        decode_books(r#"{"data":[{"id":7,"name":"Genesis"}]}"#),
        Err(JSONError::ErrorWithBooks)
    );
}

#[test]
fn decode_chapters_reads_ids_and_numbers() {
    let body =
        r#"{"data":[{"id":"GEN.intro","number":"intro"},{"id":"GEN.1","number":"1"}]}"#;
    let chapters = decode_chapters(body).unwrap();
    assert_eq!(chapters.len(), 2);
    assert_eq!(chapters[0].id, "GEN.intro");
    assert_eq!(chapters[0].number, "intro");
    assert_eq!(chapters[1].id, "GEN.1");
    assert_eq!(chapters[1].number, "1");
}

#[test]
fn decode_chapters_missing_number_is_empty() {
    let chapters = decode_chapters(r#"{"data":[{"id":"GEN.1"},{"id":"GEN.2","number":4}]}"#)
        .unwrap();
    assert_eq!(chapters[0].number, "");
    assert_eq!(chapters[1].number, "");
}

#[test]
fn decode_chapters_rejects_bad_bodies() {
    assert_eq!(decode_chapters("[1,2]"), Err(JSONError::ErrorWithChapters));
    assert_eq!(
        decode_chapters(r#"{"data":[{"number":"1"}]}"#),
        Err(JSONError::ErrorWithChapters)
    );
}

#[test]
fn decode_verse_ids_reads_ids_in_order() {
    let ids = decode_verse_ids(r#"{"data":[{"id":"JHN.3.16"},{"id":"JHN.3.17"}]}"#).unwrap();
    assert_eq!(ids, vec!["JHN.3.16".to_string(), "JHN.3.17".to_string()]);
}

#[test]
fn decode_verse_ids_rejects_bad_bodies() {
    assert_eq!(decode_verse_ids(r#"{"data":"JHN.3.16"}"#), Err(JSONError::ErrorWithVerses));
    assert_eq!(decode_verse_ids(r#"{"data":[{"id":3}]}"#), Err(JSONError::ErrorWithVerses));
}

#[test]
fn decode_verse_text_trims_the_content() {
    let body = r#"{"data":{"content":"  For God so loved the world.\n"}}"#;
    assert_eq!(decode_verse_text(body).unwrap(), "For God so loved the world.");
}

#[test]
fn decode_verse_text_rejects_missing_content() {
    assert_eq!(
        decode_verse_text(r#"{"data":{"id":"JHN.3.16"}}"#),
        Err(JSONError::ErrorWithVerses)
    );
    assert_eq!(decode_verse_text("{}"), Err(JSONError::ErrorWithVerses));
}

#[test]
fn decode_bible_name_reads_the_display_name() {
    assert_eq!(
        decode_bible_name(r#"{"data":{"name":"King James Version"}}"#).unwrap(),
        "King James Version"
    );
}

#[test]
fn decode_bible_name_rejects_missing_name() {
    assert_eq!(decode_bible_name(r#"{"data":{}}"#), Err(JSONError::ErrorWithBibleVersion));
    assert_eq!(decode_bible_name("null"), Err(JSONError::ErrorWithBibleVersion));
}

#[test]
fn decode_book_name_reads_the_display_name() {
    assert_eq!(decode_book_name(r#"{"data":{"name":"John"}}"#).unwrap(), "John");
    assert_eq!(decode_book_name(r#"{"data":{}}"#), Err(JSONError::ErrorWithBooks));
}

#[test]
fn decode_bibles_tolerates_missing_fields() {
    let body = r#"{"data":[
        {"id":"kjv","name":"King James","description":"classic","language":{"name":"English"}},
        {"id":"x"}
    ]}"#;
    let bibles = decode_bibles(body).unwrap();
    assert_eq!(bibles.len(), 2);
    assert_eq!(bibles[0].name, "King James");
    assert_eq!(bibles[0].description, "classic");
    assert_eq!(bibles[0].language, "English");
    assert_eq!(bibles[0].id, "kjv");
    assert_eq!(bibles[1].name, "");
    assert_eq!(bibles[1].description, "");
    assert_eq!(bibles[1].language, "");
    assert_eq!(bibles[1].id, "x");
}

#[test]
fn decode_bibles_rejects_a_missing_array() {
    assert_eq!(decode_bibles(r#"{"data":7}"#), Err(JSONError::ErrorWithBibles));
}

#[test]
fn list_books_builds_the_listing() {
    let info = r#"{"data":{"name":"King James Version"}}"#;
    let body = r#"{"data":[{"id":"GEN","name":"Genesis"},{"id":"EXO","name":"Exodus"}]}"#;
    let books = list_books_from_bodies(info, body).unwrap();
    assert_eq!(books.version, "King James Version");
    assert_eq!(books.books, vec!["Genesis".to_string(), "Exodus".to_string()]);
}

#[test]
fn list_books_reports_the_info_failure_first() {
    let err = list_books_from_bodies("bad", "also bad").unwrap_err();
    assert_eq!(err, JSONError::ErrorWithBibleVersion);
    let err = list_books_from_bodies(r#"{"data":{"name":"KJV"}}"#, "bad").unwrap_err();
    assert_eq!(err, JSONError::ErrorWithBooks);
}
