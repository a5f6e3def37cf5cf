//! Decoding of the verse provider's response bodies.
//!
//! Each provider endpoint answers with a JSON document whose payload sits
//! under a top-level "data" member. The functions here take the fetched body
//! text and decode it into domain values; fetching itself is the surrounding
//! application's business. Every decoder's contract states exactly which
//! bodies decode and into what, over the JSON model.

use vstd::prelude::*;
use vstd::string::StringExecFns;
use crate::JSONError;
use crate::display::{Bible, BibleView, Books};
use crate::json::{
    JsonData, json_as_array, json_get, json_parse, json_view, member_str, parse_json,
    spec_member, spec_member_str, str_or_empty,
};

verus! {

/// A book of the Bible: the provider's identifier and the display name.
#[derive(Debug, PartialEq, Eq)]
pub struct Book {
    pub id: String,
    pub name: String,
}

/// The mathematical value of a [`Book`].
pub struct BookView {
    pub id: Seq<char>,
    pub name: Seq<char>,
}

impl View for Book {
    type V = BookView;

    open spec fn view(&self) -> BookView {
        BookView { id: self.id@, name: self.name@ }
    }
}

impl DeepView for Book {
    type V = BookView;

    open spec fn deep_view(&self) -> BookView {
        self.view()
    }
}

/// A chapter of a book: the provider's identifier and the chapter number,
/// which is the sentinel "intro" on front-matter pseudo-chapters. A chapter
/// whose number is absent or not a string counts as unnumbered: its number
/// here is empty, which is never the sentinel.
#[derive(Debug, PartialEq, Eq)]
pub struct Chapter {
    pub id: String,
    pub number: String,
}

/// The mathematical value of a [`Chapter`].
pub struct ChapterView {
    pub id: Seq<char>,
    pub number: Seq<char>,
}

impl View for Chapter {
    type V = ChapterView;

    open spec fn view(&self) -> ChapterView {
        ChapterView { id: self.id@, number: self.number@ }
    }
}

impl DeepView for Chapter {
    type V = ChapterView;

    open spec fn deep_view(&self) -> ChapterView {
        self.view()
    }
}

/// What one element of the books array decodes to, when it is an object with
/// string members "id" and "name".
pub open spec fn spec_book_of(j: JsonData) -> Option<BookView> {
    match (spec_member_str(j, "id"@), spec_member_str(j, "name"@)) {
        (Some(id), Some(name)) => Some(BookView { id, name }),
        _ => None,
    }
}

/// What a books array decodes to: every element must decode.
pub open spec fn spec_books_from_arr(a: Seq<JsonData>) -> Result<Seq<BookView>, JSONError> {
    if forall|i: int| 0 <= i < a.len() ==> spec_book_of(#[trigger] a[i]) is Some {
        Ok(Seq::new(a.len(), |i: int| spec_book_of(a[i])->0))
    } else {
        Err(JSONError::ErrorWithBooks)
    }
}

/// What a books document decodes to: the decoded "data" array.
pub open spec fn spec_books_of(doc: JsonData) -> Result<Seq<BookView>, JSONError> {
    match spec_member(doc, "data"@) {
        Some(d) => if d is Arr {
            spec_books_from_arr(d->Arr_0)
        } else {
            Err(JSONError::ErrorWithBooks)
        },
        None => Err(JSONError::ErrorWithBooks),
    }
}

/// What a books response body decodes to.
pub open spec fn spec_decode_books(body: Seq<char>) -> Result<Seq<BookView>, JSONError> {
    match json_parse(body) {
        Some(doc) => spec_books_of(doc),
        None => Err(JSONError::ErrorWithBooks),
    }
}

/// Decodes the book list of a Bible version: each element of the "data" array
/// yields its "id" and "name" strings, in the provider's order.
pub fn decode_books(body: &str) -> (r: Result<Vec<Book>, JSONError>)
    ensures
        match r {
            Ok(books) => spec_decode_books(body@) == Ok::<Seq<BookView>, JSONError>(
                books.deep_view(),
            ),
            Err(e) => spec_decode_books(body@) == Err::<Seq<BookView>, JSONError>(e),
        },
{
    let doc = match parse_json(body) {
        Ok(v) => v,
        Err(_) => {
            return Err(JSONError::ErrorWithBooks);
        },
    };
    let data = match json_get(&doc, "data") {
        Some(d) => d,
        None => {
            return Err(JSONError::ErrorWithBooks);
        },
    };
    let arr = match json_as_array(data) {
        Some(a) => a,
        None => {
            return Err(JSONError::ErrorWithBooks);
        },
    };
    let ghost a = json_view(*data)->Arr_0;
    let ghost goal = spec_decode_books(body@);
    let n = arr.len();
    let mut out: Vec<Book> = Vec::new();
    let mut i: usize = 0;
    while i < n
        invariant
            i <= n,
            n == arr@.len(),
            n == a.len(),
            forall|k: int| 0 <= k < a.len() ==> json_view(#[trigger] arr@[k]) == a[k],
            goal == spec_decode_books(body@),
            goal == spec_books_from_arr(a),
            forall|k: int| 0 <= k < i ==> spec_book_of(#[trigger] a[k]) is Some,
            out@.len() == i,
            forall|k: int| 0 <= k < i ==> #[trigger] out@[k]@ == spec_book_of(a[k])->0,
        decreases n - i,
    {
        let e = &arr[i];
        let id = match member_str(e, "id") {
            Some(s) => s,
            None => {
                return Err(JSONError::ErrorWithBooks);
            },
        };
        let name = match member_str(e, "name") {
            Some(s) => s,
            None => {
                return Err(JSONError::ErrorWithBooks);
            },
        };
        out.push(Book { id: id.to_owned(), name: name.to_owned() });
        i = i + 1;
    }
    proof {
        assert(out.deep_view() =~= Seq::new(a.len(), |k: int| spec_book_of(a[k])->0));
    }
    Ok(out)
}

/// What one element of the chapters array decodes to: the "id" string is
/// required; the "number" string defaults to empty.
pub open spec fn spec_chapter_of(j: JsonData) -> Option<ChapterView> {
    match spec_member_str(j, "id"@) {
        Some(id) => Some(ChapterView { id, number: str_or_empty(spec_member_str(j, "number"@)) }),
        None => None,
    }
}

/// What a chapters array decodes to: every element must decode.
pub open spec fn spec_chapters_from_arr(a: Seq<JsonData>) -> Result<Seq<ChapterView>, JSONError> {
    if forall|i: int| 0 <= i < a.len() ==> spec_chapter_of(#[trigger] a[i]) is Some {
        Ok(Seq::new(a.len(), |i: int| spec_chapter_of(a[i])->0))
    } else {
        Err(JSONError::ErrorWithChapters)
    }
}

/// What a chapters document decodes to: the decoded "data" array.
pub open spec fn spec_chapters_of(doc: JsonData) -> Result<Seq<ChapterView>, JSONError> {
    match spec_member(doc, "data"@) {
        Some(d) => if d is Arr {
            spec_chapters_from_arr(d->Arr_0)
        } else {
            Err(JSONError::ErrorWithChapters)
        },
        None => Err(JSONError::ErrorWithChapters),
    }
}

/// What a chapters response body decodes to.
pub open spec fn spec_decode_chapters(body: Seq<char>) -> Result<Seq<ChapterView>, JSONError> {
    match json_parse(body) {
        Some(doc) => spec_chapters_of(doc),
        None => Err(JSONError::ErrorWithChapters),
    }
}

/// Decodes the chapter list of a book: each element of the "data" array
/// yields its "id" string and its "number" string, empty when absent.
pub fn decode_chapters(body: &str) -> (r: Result<Vec<Chapter>, JSONError>)
    ensures
        match r {
            Ok(chapters) => spec_decode_chapters(body@) == Ok::<Seq<ChapterView>, JSONError>(
                chapters.deep_view(),
            ),
            Err(e) => spec_decode_chapters(body@) == Err::<Seq<ChapterView>, JSONError>(e),
        },
{
    let doc = match parse_json(body) {
        Ok(v) => v,
        Err(_) => {
            return Err(JSONError::ErrorWithChapters);
        },
    };
    let data = match json_get(&doc, "data") {
        Some(d) => d,
        None => {
            return Err(JSONError::ErrorWithChapters);
        },
    };
    let arr = match json_as_array(data) {
        Some(a) => a,
        None => {
            return Err(JSONError::ErrorWithChapters);
        },
    };
    let ghost a = json_view(*data)->Arr_0;
    let ghost goal = spec_decode_chapters(body@);
    let n = arr.len();
    let mut out: Vec<Chapter> = Vec::new();
    let mut i: usize = 0;
    while i < n
        invariant
            i <= n,
            n == arr@.len(),
            n == a.len(),
            forall|k: int| 0 <= k < a.len() ==> json_view(#[trigger] arr@[k]) == a[k],
            goal == spec_decode_chapters(body@),
            goal == spec_chapters_from_arr(a),
            forall|k: int| 0 <= k < i ==> spec_chapter_of(#[trigger] a[k]) is Some,
            out@.len() == i,
            forall|k: int| 0 <= k < i ==> #[trigger] out@[k]@ == spec_chapter_of(a[k])->0,
        decreases n - i,
    {
        let e = &arr[i];
        let id = match member_str(e, "id") {
            Some(s) => s,
            None => {
                return Err(JSONError::ErrorWithChapters);
            },
        };
        let number = match member_str(e, "number") {
            Some(s) => s.to_owned(),
            None => String::new(),
        };
        out.push(Chapter { id: id.to_owned(), number });
        i = i + 1;
    }
    proof {
        assert(out.deep_view() =~= Seq::new(a.len(), |k: int| spec_chapter_of(a[k])->0));
    }
    Ok(out)
}

/// What one element of the verses array decodes to: its "id" string.
pub open spec fn spec_verse_id_of(j: JsonData) -> Option<Seq<char>> {
    spec_member_str(j, "id"@)
}

/// What a verses array decodes to: every element must decode.
pub open spec fn spec_verse_ids_from_arr(a: Seq<JsonData>) -> Result<Seq<Seq<char>>, JSONError> {
    if forall|i: int| 0 <= i < a.len() ==> spec_verse_id_of(#[trigger] a[i]) is Some {
        Ok(Seq::new(a.len(), |i: int| spec_verse_id_of(a[i])->0))
    } else {
        Err(JSONError::ErrorWithVerses)
    }
}

/// What a verses document decodes to: the decoded "data" array.
pub open spec fn spec_verse_ids_of(doc: JsonData) -> Result<Seq<Seq<char>>, JSONError> {
    match spec_member(doc, "data"@) {
        Some(d) => if d is Arr {
            spec_verse_ids_from_arr(d->Arr_0)
        } else {
            Err(JSONError::ErrorWithVerses)
        },
        None => Err(JSONError::ErrorWithVerses),
    }
}

/// What a verses response body decodes to.
pub open spec fn spec_decode_verse_ids(body: Seq<char>) -> Result<Seq<Seq<char>>, JSONError> {
    match json_parse(body) {
        Some(doc) => spec_verse_ids_of(doc),
        None => Err(JSONError::ErrorWithVerses),
    }
}

/// Decodes the verse list of a chapter: each element of the "data" array
/// yields its "id" string, in the provider's order.
pub fn decode_verse_ids(body: &str) -> (r: Result<Vec<String>, JSONError>)
    ensures
        match r {
            Ok(ids) => spec_decode_verse_ids(body@) == Ok::<Seq<Seq<char>>, JSONError>(
                ids.deep_view(),
            ),
            Err(e) => spec_decode_verse_ids(body@) == Err::<Seq<Seq<char>>, JSONError>(e),
        },
{
    let doc = match parse_json(body) {
        Ok(v) => v,
        Err(_) => {
            return Err(JSONError::ErrorWithVerses);
        },
    };
    let data = match json_get(&doc, "data") {
        Some(d) => d,
        None => {
            return Err(JSONError::ErrorWithVerses);
        },
    };
    let arr = match json_as_array(data) {
        Some(a) => a,
        None => {
            return Err(JSONError::ErrorWithVerses);
        },
    };
    let ghost a = json_view(*data)->Arr_0;
    let ghost goal = spec_decode_verse_ids(body@);
    let n = arr.len();
    let mut out: Vec<String> = Vec::new();
    let mut i: usize = 0;
    while i < n
        invariant
            i <= n,
            n == arr@.len(),
            n == a.len(),
            forall|k: int| 0 <= k < a.len() ==> json_view(#[trigger] arr@[k]) == a[k],
            goal == spec_decode_verse_ids(body@),
            goal == spec_verse_ids_from_arr(a),
            forall|k: int| 0 <= k < i ==> spec_verse_id_of(#[trigger] a[k]) is Some,
            out@.len() == i,
            forall|k: int| 0 <= k < i ==> #[trigger] out@[k]@ == spec_verse_id_of(a[k])->0,
        decreases n - i,
    {
        let e = &arr[i];
        let id = match member_str(e, "id") {
            Some(s) => s,
            None => {
                return Err(JSONError::ErrorWithVerses);
            },
        };
        out.push(id.to_owned());
        i = i + 1;
    }
    proof {
        assert(out.deep_view() =~= Seq::new(a.len(), |k: int| spec_verse_id_of(a[k])->0));
    }
    Ok(out)
}

/// The characters that trimming surrounding whitespace leaves.
pub uninterp spec fn trim_of(s: Seq<char>) -> Seq<char>;

/// Relies on str::trim: the input without leading and trailing whitespace, a
/// function of the characters alone.
#[verifier::external_body]
fn trim_str(s: &str) -> (r: String)
    ensures
        r@ == trim_of(s@),
{
    s.trim().to_owned()
}

/// What a verse-text document decodes to: the "data" object's "content"
/// string, trimmed of surrounding whitespace.
pub open spec fn spec_verse_text_of(doc: JsonData) -> Result<Seq<char>, JSONError> {
    match spec_member(doc, "data"@) {
        Some(d) => match spec_member_str(d, "content"@) {
            Some(s) => Ok(trim_of(s)),
            None => Err(JSONError::ErrorWithVerses),
        },
        None => Err(JSONError::ErrorWithVerses),
    }
}

/// What a verse-text response body decodes to.
pub open spec fn spec_decode_verse_text(body: Seq<char>) -> Result<Seq<char>, JSONError> {
    match json_parse(body) {
        Some(doc) => spec_verse_text_of(doc),
        None => Err(JSONError::ErrorWithVerses),
    }
}

/// Decodes a verse's text: the "content" string under "data", trimmed.
pub fn decode_verse_text(body: &str) -> (r: Result<String, JSONError>)
    ensures
        match r {
            Ok(text) => spec_decode_verse_text(body@) == Ok::<Seq<char>, JSONError>(text@),
            Err(e) => spec_decode_verse_text(body@) == Err::<Seq<char>, JSONError>(e),
        },
{
    let doc = match parse_json(body) {
        Ok(v) => v,
        Err(_) => {
            return Err(JSONError::ErrorWithVerses);
        },
    };
    let data = match json_get(&doc, "data") {
        Some(d) => d,
        None => {
            return Err(JSONError::ErrorWithVerses);
        },
    };
    match member_str(data, "content") {
        Some(s) => Ok(trim_str(s)),
        None => Err(JSONError::ErrorWithVerses),
    }
}

/// What a name document decodes to: the "data" object's "name" string.
pub open spec fn spec_data_name_of(doc: JsonData) -> Option<Seq<char>> {
    match spec_member(doc, "data"@) {
        Some(d) => spec_member_str(d, "name"@),
        None => None,
    }
}

/// What a version-info response body decodes to: the version's
/// display name.
pub open spec fn spec_decode_bible_name(body: Seq<char>) -> Result<Seq<char>, JSONError> {
    match json_parse(body) {
        Some(doc) => match spec_data_name_of(doc) {
            Some(s) => Ok(s),
            None => Err(JSONError::ErrorWithBibleVersion),
        },
        None => Err(JSONError::ErrorWithBibleVersion),
    }
}

/// Decodes the display name of a Bible version from its info document.
pub fn decode_bible_name(body: &str) -> (r: Result<String, JSONError>)
    ensures
        match r {
            Ok(name) => spec_decode_bible_name(body@) == Ok::<Seq<char>, JSONError>(name@),
            Err(e) => spec_decode_bible_name(body@) == Err::<Seq<char>, JSONError>(e),
        },
{
    let doc = match parse_json(body) {
        Ok(v) => v,
        Err(_) => {
            return Err(JSONError::ErrorWithBibleVersion);
        },
    };
    let data = match json_get(&doc, "data") {
        Some(d) => d,
        None => {
            return Err(JSONError::ErrorWithBibleVersion);
        },
    };
    match member_str(data, "name") {
        Some(s) => Ok(s.to_owned()),
        None => Err(JSONError::ErrorWithBibleVersion),
    }
}

/// What a book-info response body decodes to: the book's display name.
pub open spec fn spec_decode_book_name(body: Seq<char>) -> Result<Seq<char>, JSONError> {
    match json_parse(body) {
        Some(doc) => match spec_data_name_of(doc) {
            Some(s) => Ok(s),
            None => Err(JSONError::ErrorWithBooks),
        },
        None => Err(JSONError::ErrorWithBooks),
    }
}

/// Decodes the display name of a book from its info document.
pub fn decode_book_name(body: &str) -> (r: Result<String, JSONError>)
    ensures
        match r {
            Ok(name) => spec_decode_book_name(body@) == Ok::<Seq<char>, JSONError>(name@),
            Err(e) => spec_decode_book_name(body@) == Err::<Seq<char>, JSONError>(e),
        },
{
    let doc = match parse_json(body) {
        Ok(v) => v,
        Err(_) => {
            return Err(JSONError::ErrorWithBooks);
        },
    };
    let data = match json_get(&doc, "data") {
        Some(d) => d,
        None => {
            return Err(JSONError::ErrorWithBooks);
        },
    };
    match member_str(data, "name") {
        Some(s) => Ok(s.to_owned()),
        None => Err(JSONError::ErrorWithBooks),
    }
}

/// What one element of the bibles array decodes to. Every field tolerates an
/// absent or non-string member as the empty string; the language is the
/// "name" member of the element's "language" object.
pub open spec fn spec_bible_of(j: JsonData) -> BibleView {
    BibleView {
        name: str_or_empty(spec_member_str(j, "name"@)),
        description: str_or_empty(spec_member_str(j, "description"@)),
        language: str_or_empty(
            match spec_member(j, "language"@) {
                Some(l) => spec_member_str(l, "name"@),
                None => None,
            },
        ),
        id: str_or_empty(spec_member_str(j, "id"@)),
    }
}

/// What a bibles document decodes to: one record per element of "data".
pub open spec fn spec_bibles_of(doc: JsonData) -> Result<Seq<BibleView>, JSONError> {
    match spec_member(doc, "data"@) {
        Some(d) => if d is Arr {
            Ok(Seq::new(d->Arr_0.len(), |i: int| spec_bible_of(d->Arr_0[i])))
        } else {
            Err(JSONError::ErrorWithBibles)
        },
        None => Err(JSONError::ErrorWithBibles),
    }
}

/// What a bibles response body decodes to.
pub open spec fn spec_decode_bibles(body: Seq<char>) -> Result<Seq<BibleView>, JSONError> {
    match json_parse(body) {
        Some(doc) => spec_bibles_of(doc),
        None => Err(JSONError::ErrorWithBibles),
    }
}

/// Decodes the list of available Bible versions: one metadata record per
/// element of the "data" array, with absent fields as empty strings.
pub fn decode_bibles(body: &str) -> (r: Result<Vec<Bible>, JSONError>)
    ensures
        match r {
            Ok(bibles) => spec_decode_bibles(body@) == Ok::<Seq<BibleView>, JSONError>(
                bibles.deep_view(),
            ),
            Err(e) => spec_decode_bibles(body@) == Err::<Seq<BibleView>, JSONError>(e),
        },
{
    let doc = match parse_json(body) {
        Ok(v) => v,
        Err(_) => {
            return Err(JSONError::ErrorWithBibles);
        },
    };
    let data = match json_get(&doc, "data") {
        Some(d) => d,
        None => {
            return Err(JSONError::ErrorWithBibles);
        },
    };
    let arr = match json_as_array(data) {
        Some(a) => a,
        None => {
            return Err(JSONError::ErrorWithBibles);
        },
    };
    let ghost a = json_view(*data)->Arr_0;
    let n = arr.len();
    let mut out: Vec<Bible> = Vec::new();
    let mut i: usize = 0;
    while i < n
        invariant
            i <= n,
            n == arr@.len(),
            n == a.len(),
            forall|k: int| 0 <= k < a.len() ==> json_view(#[trigger] arr@[k]) == a[k],
            out@.len() == i,
            forall|k: int| 0 <= k < i ==> #[trigger] out@[k]@ == spec_bible_of(a[k]),
        decreases n - i,
    {
        let e = &arr[i];
        let name = match member_str(e, "name") {
            Some(s) => s.to_owned(),
            None => String::new(),
        };
        let description = match member_str(e, "description") {
            Some(s) => s.to_owned(),
            None => String::new(),
        };
        let language = match json_get(e, "language") {
            Some(l) => match member_str(l, "name") {
                Some(s) => s.to_owned(),
                None => String::new(),
            },
            None => String::new(),
        };
        let id = match member_str(e, "id") {
            Some(s) => s.to_owned(),
            None => String::new(),
        };
        out.push(Bible { name, description, language, id });
        i = i + 1;
    }
    proof {
        assert(out.deep_view() =~= Seq::new(a.len(), |k: int| spec_bible_of(a[k])));
    }
    Ok(out)
}

/// Builds the books listing of a Bible version from the version-info body
/// and the books body: the version's display name over the book names,
/// in the provider's order. A failure to decode the info body wins over one
/// in the books body, as the info document is read first.
pub fn list_books_from_bodies(info_body: &str, books_body: &str) -> (r: Result<Books, JSONError>)
    ensures
        match r {
            Ok(b) => spec_decode_bible_name(info_body@) == Ok::<Seq<char>, JSONError>(b.version@)
                && spec_decode_books(books_body@) is Ok && b.books.deep_view()
                == spec_decode_books(books_body@)->Ok_0.map_values(|bk: BookView| bk.name),
            Err(e) => match spec_decode_bible_name(info_body@) {
                Err(e1) => e == e1,
                Ok(_) => spec_decode_books(books_body@) == Err::<Seq<BookView>, JSONError>(e),
            },
        },
{
    let version = match decode_bible_name(info_body) {
        Ok(v) => v,
        Err(e) => {
            return Err(e);
        },
    };
    let books = match decode_books(books_body) {
        Ok(b) => b,
        Err(e) => {
            return Err(e);
        },
    };
    let ghost decoded = spec_decode_books(books_body@)->Ok_0;
    let n = books.len();
    let mut names: Vec<String> = Vec::new();
    let mut i: usize = 0;
    while i < n
        invariant
            i <= n,
            n == books@.len(),
            decoded == books.deep_view(),
            decoded.len() == n,
            names@.len() == i,
            forall|k: int| 0 <= k < i ==> #[trigger] names@[k]@ == decoded[k].name,
        decreases n - i,
    {
        names.push(books[i].name.clone());
        i = i + 1;
    }
    proof {
        assert(names.deep_view() =~= decoded.map_values(|bk: BookView| bk.name));
    }
    Ok(Books::new(version, names))
}

} // verus!
