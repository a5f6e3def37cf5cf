//! Selection policy and the step-by-step verse resolution pipeline.
//!
//! A resolution is a linear pipeline: pick a book, pick a chapter of it, pick
//! a verse of that chapter, fetch the verse's text, and resolve the book's
//! display name. Every pick draws from the seeded generator, so a seed
//! determines the whole resolution. Between the steps stand the provider's
//! responses; the surrounding application fetches each requested body and
//! hands it back to the resolver.

use vstd::prelude::*;
use vstd::string::StrSliceExecFns;
use vstd::string::StringExecFns;
use crate::{BibleError, JSONError, VerseError};
use crate::display::{Verse, VerseView};
use crate::gateway::{
    Book, BookView, Chapter, ChapterView, decode_book_name, decode_books, decode_chapters,
    decode_verse_ids, decode_verse_text, spec_decode_book_name, spec_decode_books,
    spec_decode_chapters, spec_decode_verse_ids, spec_decode_verse_text,
};
use crate::rng::{draw_index, gen_index, rng_after_draw};

verus! {

/// The characters that lowercasing maps a string to.
pub uninterp spec fn lower_of(s: Seq<char>) -> Seq<char>;

/// Relies on str::to_lowercase: the lowercase mapping depends on the
/// characters alone.
#[verifier::external_body]
fn lowercase(s: &str) -> (r: String)
    ensures
        r@ == lower_of(s@),
{
    s.to_lowercase()
}

/// Whether a book's display name matches a requested name, comparing
/// case-insensitively.
pub open spec fn spec_book_matches(b: BookView, name: Seq<char>) -> bool {
    lower_of(b.name) == lower_of(name)
}

/// The index of the last book whose name matches, if any does.
pub open spec fn spec_find_book(books: Seq<BookView>, name: Seq<char>) -> Option<int>
    decreases books.len(),
{
    if books.len() == 0 {
        None
    } else if spec_book_matches(books.last(), name) {
        Some(books.len() - 1)
    } else {
        spec_find_book(books.drop_last(), name)
    }
}

/// Finds the book whose display name equals the requested name up to case;
/// when several match, the last match wins.
pub fn find_book(books: &Vec<Book>, name: &str) -> (r: Option<usize>)
    ensures
        match r {
            Some(i) => i < books@.len() && spec_find_book(books.deep_view(), name@) == Some(
                i as int,
            ),
            None => spec_find_book(books.deep_view(), name@) is None,
        },
{
    let wanted = lowercase(name);
    let ghost views = books.deep_view();
    let n = books.len();
    let mut found: Option<usize> = None;
    let mut i: usize = 0;
    proof {
        assert(views.take(0) =~= Seq::<BookView>::empty());
    }
    while i < n
        invariant
            i <= n,
            n == books@.len(),
            views == books.deep_view(),
            views.len() == n,
            wanted@ == lower_of(name@),
            match found {
                Some(f) => f < i && spec_find_book(views.take(i as int), name@) == Some(f as int),
                None => spec_find_book(views.take(i as int), name@) is None,
            },
        decreases n - i,
    {
        proof {
            assert(views.take(i + 1).drop_last() =~= views.take(i as int));
            assert(views.take(i + 1).last() == views[i as int]);
        }
        let candidate = lowercase(books[i].name.as_str());
        if candidate == wanted {
            found = Some(i);
        }
        i = i + 1;
    }
    proof {
        assert(views.take(n as int) =~= views);
    }
    found
}

/// Picks a book uniformly at random and yields its identifier; an empty list
/// has no books to offer.
pub fn select_random_book(books: &Vec<Book>, rng: &mut rand::rngs::StdRng) -> (r: Result<
    String,
    BibleError,
>)
    ensures
        match r {
            Ok(id) => books@.len() > 0 && id@ == books.deep_view()[draw_index(
                *old(rng),
                books@.len() as usize,
            ) as int].id && *final(rng) == rng_after_draw(*old(rng), books@.len() as usize),
            Err(e) => e == BibleError::NoBooksAvailable && books@.len() == 0 && *final(rng)
                == *old(rng),
        },
{
    let n = books.len();
    if n == 0 {
        return Err(BibleError::NoBooksAvailable);
    }
    let i = gen_index(rng, n);
    Ok(books[i].id.clone())
}

/// The chapter identifier that picking the given index yields: the chapter at
/// the index, except that an "intro" pseudo-chapter there is skipped by one
/// position - a skip past the end of the list fails as the provider data
/// being unusable.
pub open spec fn spec_chapter_pick(chapters: Seq<ChapterView>, i: int) -> Result<
    Seq<char>,
    JSONError,
> {
    if chapters[i].number == "intro"@ {
        if i + 1 < chapters.len() {
            Ok(chapters[i + 1].id)
        } else {
            Err(JSONError::ErrorWithChapters)
        }
    } else {
        Ok(chapters[i].id)
    }
}

/// Resolves a drawn index to a chapter identifier, skipping one position
/// forward off an "intro" pseudo-chapter.
pub fn chapter_at_index(chapters: &Vec<Chapter>, index: usize) -> (r: Result<String, JSONError>)
    requires
        index < chapters@.len(),
    ensures
        match r {
            Ok(id) => spec_chapter_pick(chapters.deep_view(), index as int) == Ok::<
                Seq<char>,
                JSONError,
            >(id@),
            Err(e) => spec_chapter_pick(chapters.deep_view(), index as int) == Err::<
                Seq<char>,
                JSONError,
            >(e),
        },
{
    let intro = "intro".to_owned();
    let n = chapters.len();
    if chapters[index].number == intro {
        if index + 1 < n {
            Ok(chapters[index + 1].id.clone())
        } else {
            Err(JSONError::ErrorWithChapters)
        }
    } else {
        Ok(chapters[index].id.clone())
    }
}

/// Picks a chapter uniformly at random, applying the "intro" skip policy; an
/// empty list has no chapters to offer.
pub fn select_random_chapter(chapters: &Vec<Chapter>, rng: &mut rand::rngs::StdRng) -> (r: Result<
    String,
    VerseError,
>)
    ensures
        match r {
            Ok(id) => chapters@.len() > 0 && spec_chapter_pick(
                chapters.deep_view(),
                draw_index(*old(rng), chapters@.len() as usize) as int,
            ) == Ok::<Seq<char>, JSONError>(id@) && *final(rng) == rng_after_draw(
                *old(rng),
                chapters@.len() as usize,
            ),
            Err(VerseError::Resolve(e)) => e == BibleError::NoChaptersAvailable && chapters@.len()
                == 0 && *final(rng) == *old(rng),
            Err(VerseError::Decode(e)) => chapters@.len() > 0 && spec_chapter_pick(
                chapters.deep_view(),
                draw_index(*old(rng), chapters@.len() as usize) as int,
            ) == Err::<Seq<char>, JSONError>(e) && *final(rng) == rng_after_draw(
                *old(rng),
                chapters@.len() as usize,
            ),
            Err(_) => false,
        },
{
    let n = chapters.len();
    if n == 0 {
        return Err(VerseError::Resolve(BibleError::NoChaptersAvailable));
    }
    let i = gen_index(rng, n);
    match chapter_at_index(chapters, i) {
        Ok(id) => Ok(id),
        Err(e) => Err(VerseError::Decode(e)),
    }
}

/// Picks a verse identifier uniformly at random; an empty list has no verses
/// to offer.
pub fn select_random_verse_id(verse_ids: &Vec<String>, rng: &mut rand::rngs::StdRng) -> (r: Result<
    String,
    BibleError,
>)
    ensures
        match r {
            Ok(id) => verse_ids@.len() > 0 && id@ == verse_ids.deep_view()[draw_index(
                *old(rng),
                verse_ids@.len() as usize,
            ) as int] && *final(rng) == rng_after_draw(*old(rng), verse_ids@.len() as usize),
            Err(e) => e == BibleError::NoVersesAvailable && verse_ids@.len() == 0 && *final(rng)
                == *old(rng),
        },
{
    let n = verse_ids.len();
    if n == 0 {
        return Err(BibleError::NoVersesAvailable);
    }
    let i = gen_index(rng, n);
    Ok(verse_ids[i].clone())
}

/// The position of the last '.' in the sequence, or -1 when there is none.
pub open spec fn last_dot(s: Seq<char>) -> int
    decreases s.len(),
{
    if s.len() == 0 {
        -1
    } else if s.last() == '.' {
        s.len() - 1
    } else {
        last_dot(s.drop_last())
    }
}

/// The segments that splitting on '.' yields, in order; one more segment than
/// there are dots.
pub open spec fn spec_split_dots(s: Seq<char>) -> Seq<Seq<char>>
    decreases s.len(),
{
    let d = last_dot(s);
    if 0 <= d < s.len() {
        spec_split_dots(s.take(d)) + seq![s.skip(d + 1)]
    } else {
        seq![s]
    }
}

/// How many characters of the sequence are '.'.
pub open spec fn dot_count(s: Seq<char>) -> nat
    decreases s.len(),
{
    if s.len() == 0 {
        0
    } else if s.last() == '.' {
        dot_count(s.drop_last()) + 1
    } else {
        dot_count(s.drop_last())
    }
}

/// The last dot lies on a '.', and nothing after it is one; without one, no
/// character is a '.'.
proof fn lemma_last_dot_props(s: Seq<char>)
    ensures
        -1 <= last_dot(s) < s.len(),
        0 <= last_dot(s) ==> s[last_dot(s)] == '.',
        forall|k: int| last_dot(s) < k < s.len() ==> s[k] != '.',
    decreases s.len(),
{
    if s.len() > 0 && s.last() != '.' {
        lemma_last_dot_props(s.drop_last());
        assert forall|k: int| last_dot(s) < k < s.len() implies s[k] != '.' by {
            if k < s.len() - 1 {
                assert(s[k] == s.drop_last()[k]);
            }
        }
    }
}

/// Cutting at the last dot removes exactly one dot.
proof fn lemma_dot_count_cut(s: Seq<char>)
    requires
        0 <= last_dot(s) < s.len(),
    ensures
        dot_count(s) == dot_count(s.take(last_dot(s))) + 1,
    decreases s.len(),
{
    let d = last_dot(s);
    if d == s.len() - 1 {
        assert(s.last() == '.') by {
            if s.last() != '.' {
                lemma_last_dot_props(s.drop_last());
            }
        }
        assert(s.take(d) =~= s.drop_last());
    } else {
        assert(s.last() != '.');
        assert(last_dot(s.drop_last()) == d);
        lemma_dot_count_cut(s.drop_last());
        assert(s.drop_last().take(d) =~= s.take(d));
    }
}

/// A sequence without a dot has a dot count of zero.
proof fn lemma_dot_count_none(s: Seq<char>)
    requires
        last_dot(s) < 0,
    ensures
        dot_count(s) == 0,
    decreases s.len(),
{
    if s.len() > 0 {
        assert(s.last() != '.');
        lemma_dot_count_none(s.drop_last());
    }
}

/// Splitting on '.' yields exactly one segment more than there are dots. In
/// particular a verse identifier splits into exactly three segments if and
/// only if it holds exactly two dots.
pub proof fn lemma_split_dots_count(s: Seq<char>)
    ensures
        spec_split_dots(s).len() == dot_count(s) + 1,
    decreases s.len(),
{
    let d = last_dot(s);
    lemma_last_dot_props(s);
    if 0 <= d < s.len() {
        lemma_dot_count_cut(s);
        lemma_split_dots_count(s.take(d));
    } else {
        lemma_dot_count_none(s);
    }
}

/// Splits a verse identifier "{book}.{chapter}.{verse}" into its three
/// segments; an identifier of any other shape is a decode failure.
pub fn split_verse_id(verse_id: &str) -> (r: Result<(String, String, String), JSONError>)
    ensures
        match r {
            Ok(parts) => spec_split_dots(verse_id@).len() == 3 && parts.0@ == spec_split_dots(
                verse_id@,
            )[0] && parts.1@ == spec_split_dots(verse_id@)[1] && parts.2@ == spec_split_dots(
                verse_id@,
            )[2],
            Err(e) => spec_split_dots(verse_id@).len() != 3 && e == JSONError::ErrorWithVerses,
        },
{
    let parts = split_dots(verse_id);
    if parts.len() == 3 {
        let first = parts[0].clone();
        let second = parts[1].clone();
        let third = parts[2].clone();
        Ok((first, second, third))
    } else {
        Err(JSONError::ErrorWithVerses)
    }
}

/// Splits a string on '.' into its segments.
fn split_dots(s: &str) -> (parts: Vec<String>)
    ensures
        parts.deep_view() == spec_split_dots(s@),
    decreases s@.len(),
{
    let n = s.unicode_len();
    let mut j: usize = n;
    proof {
        assert(s@.take(n as int) =~= s@);
    }
    while j > 0
        invariant
            j <= n,
            n == s@.len(),
            last_dot(s@) == last_dot(s@.take(j as int)),
        decreases j,
    {
        let c = s.get_char(j - 1);
        proof {
            assert(s@.take(j as int).last() == s@[j - 1]);
            if c != '.' {
                assert(s@.take(j as int).drop_last() =~= s@.take(j - 1));
            }
        }
        if c == '.' {
            let prefix = s.substring_char(0, j - 1);
            let rest = s.substring_char(j, n);
            proof {
                assert(prefix@ =~= s@.take(j - 1));
                assert(rest@ =~= s@.skip(j as int));
            }
            let mut parts = split_dots(prefix);
            parts.push(rest.to_owned());
            proof {
                assert(parts.deep_view() =~= spec_split_dots(s@.take(j - 1)) + seq![
                    s@.skip(j as int),
                ]);
            }
            return parts;
        }
        j = j - 1;
    }
    proof {
        assert(s@.take(0) =~= Seq::<char>::empty());
        assert(last_dot(s@) < 0);
    }
    let mut parts = Vec::<String>::new();
    parts.push(s.to_owned());
    proof {
        assert(parts.deep_view() =~= seq![s@]);
    }
    parts
}

/// One request against the verse provider, to be performed by the caller.
#[derive(Debug, PartialEq, Eq)]
pub enum ApiRequest {
    Books,
    Chapters { book_id: String },
    Verses { chapter_id: String },
    VerseText { verse_id: String },
    BookName { book_id: String },
}

/// The mathematical value of an [`ApiRequest`].
pub enum ApiRequestView {
    Books,
    Chapters { book_id: Seq<char> },
    Verses { chapter_id: Seq<char> },
    VerseText { verse_id: Seq<char> },
    BookName { book_id: Seq<char> },
}

impl View for ApiRequest {
    type V = ApiRequestView;

    open spec fn view(&self) -> ApiRequestView {
        match self {
            ApiRequest::Books => ApiRequestView::Books,
            ApiRequest::Chapters { book_id } => ApiRequestView::Chapters { book_id: book_id@ },
            ApiRequest::Verses { chapter_id } => ApiRequestView::Verses {
                chapter_id: chapter_id@,
            },
            ApiRequest::VerseText { verse_id } => ApiRequestView::VerseText {
                verse_id: verse_id@,
            },
            ApiRequest::BookName { book_id } => ApiRequestView::BookName { book_id: book_id@ },
        }
    }
}

/// Where a resolution stands: which response the resolver is waiting for, and
/// what it has gathered so far. A book-scoped resolution carries the caller's
/// book name in `named`; `Done` is terminal, reached on success and on
/// failure alike.
#[derive(Debug)]
pub enum ResolverState {
    Books { named: Option<String> },
    Chapters { named: Option<String> },
    Verses { named: Option<String> },
    Text { named: Option<String>, verse_id: String },
    Name { text: String, chapter: String, number: String },
    Done,
}

/// The mathematical value of a [`ResolverState`].
pub enum ResolverStateView {
    Books { named: Option<Seq<char>> },
    Chapters { named: Option<Seq<char>> },
    Verses { named: Option<Seq<char>> },
    Text { named: Option<Seq<char>>, verse_id: Seq<char> },
    Name { text: Seq<char>, chapter: Seq<char>, number: Seq<char> },
    Done,
}

/// The view of an optional owned string.
pub open spec fn spec_opt_str_view(o: Option<String>) -> Option<Seq<char>> {
    match o {
        Some(s) => Some(s@),
        None => None,
    }
}

impl View for ResolverState {
    type V = ResolverStateView;

    open spec fn view(&self) -> ResolverStateView {
        match self {
            ResolverState::Books { named } => ResolverStateView::Books {
                named: spec_opt_str_view(*named),
            },
            ResolverState::Chapters { named } => ResolverStateView::Chapters {
                named: spec_opt_str_view(*named),
            },
            ResolverState::Verses { named } => ResolverStateView::Verses {
                named: spec_opt_str_view(*named),
            },
            ResolverState::Text { named, verse_id } => ResolverStateView::Text {
                named: spec_opt_str_view(*named),
                verse_id: verse_id@,
            },
            ResolverState::Name { text, chapter, number } => ResolverStateView::Name {
                text: text@,
                chapter: chapter@,
                number: number@,
            },
            ResolverState::Done => ResolverStateView::Done,
        }
    }
}

/// What one step hands back: the next request to perform, or the resolved
/// verse.
#[derive(Debug, PartialEq, Eq)]
pub enum StepOutcome {
    Next(ApiRequest),
    Finished(Verse),
}

/// The mathematical value of a [`StepOutcome`].
pub enum StepOutcomeView {
    Next(ApiRequestView),
    Finished(VerseView),
}

impl View for StepOutcome {
    type V = StepOutcomeView;

    open spec fn view(&self) -> StepOutcomeView {
        match self {
            StepOutcome::Next(q) => StepOutcomeView::Next(q@),
            StepOutcome::Finished(v) => StepOutcomeView::Finished(v@),
        }
    }
}

/// What one step leaves behind: the state and generator afterwards, and the
/// step's outcome.
pub struct StepResult {
    pub state: ResolverStateView,
    pub rng: rand::rngs::StdRng,
    pub outcome: Result<StepOutcomeView, VerseError>,
}

/// A failed step: the resolution is over, the generator keeps the given
/// state, and the error is handed out.
pub open spec fn spec_fail(rng: rand::rngs::StdRng, e: VerseError) -> StepResult {
    StepResult { state: ResolverStateView::Done, rng, outcome: Err(e) }
}

/// Stepping on the books response: decode the list, then either match the
/// requested name (the last case-insensitive match wins, without drawing) or
/// draw a book at random; ask for that book's chapters.
pub open spec fn spec_step_books(
    named: Option<Seq<char>>,
    rng: rand::rngs::StdRng,
    body: Seq<char>,
) -> StepResult {
    match spec_decode_books(body) {
        Ok(books) => match named {
            Some(n) => match spec_find_book(books, n) {
                Some(i) => StepResult {
                    state: ResolverStateView::Chapters { named },
                    rng,
                    outcome: Ok(
                        StepOutcomeView::Next(
                            ApiRequestView::Chapters { book_id: books[i].id },
                        ),
                    ),
                },
                None => spec_fail(rng, VerseError::Resolve(BibleError::InvalidBook)),
            },
            None => if books.len() == 0 {
                spec_fail(rng, VerseError::Resolve(BibleError::NoBooksAvailable))
            } else {
                StepResult {
                    state: ResolverStateView::Chapters { named: None },
                    rng: rng_after_draw(rng, books.len() as usize),
                    outcome: Ok(
                        StepOutcomeView::Next(
                            ApiRequestView::Chapters {
                                book_id: books[draw_index(rng, books.len() as usize) as int].id,
                            },
                        ),
                    ),
                }
            },
        },
        Err(e) => spec_fail(rng, VerseError::Decode(e)),
    }
}

/// Stepping on the chapters response: decode the list, draw an index, apply
/// the "intro" skip policy, and ask for that chapter's verses.
pub open spec fn spec_step_chapters(
    named: Option<Seq<char>>,
    rng: rand::rngs::StdRng,
    body: Seq<char>,
) -> StepResult {
    match spec_decode_chapters(body) {
        Ok(chapters) => if chapters.len() == 0 {
            spec_fail(rng, VerseError::Resolve(BibleError::NoChaptersAvailable))
        } else {
            let i = draw_index(rng, chapters.len() as usize);
            let rng2 = rng_after_draw(rng, chapters.len() as usize);
            match spec_chapter_pick(chapters, i as int) {
                Ok(id) => StepResult {
                    state: ResolverStateView::Verses { named },
                    rng: rng2,
                    outcome: Ok(
                        StepOutcomeView::Next(ApiRequestView::Verses { chapter_id: id }),
                    ),
                },
                Err(e) => spec_fail(rng2, VerseError::Decode(e)),
            }
        },
        Err(e) => spec_fail(rng, VerseError::Decode(e)),
    }
}

/// Stepping on the verses response: decode the identifiers, draw one, and ask
/// for its text.
pub open spec fn spec_step_verses(
    named: Option<Seq<char>>,
    rng: rand::rngs::StdRng,
    body: Seq<char>,
) -> StepResult {
    match spec_decode_verse_ids(body) {
        Ok(ids) => if ids.len() == 0 {
            spec_fail(rng, VerseError::Resolve(BibleError::NoVersesAvailable))
        } else {
            let id = ids[draw_index(rng, ids.len() as usize) as int];
            StepResult {
                state: ResolverStateView::Text { named, verse_id: id },
                rng: rng_after_draw(rng, ids.len() as usize),
                outcome: Ok(StepOutcomeView::Next(ApiRequestView::VerseText { verse_id: id })),
            }
        },
        Err(e) => spec_fail(rng, VerseError::Decode(e)),
    }
}

/// Stepping on the verse-text response: decode the text and split the verse
/// identifier into book, chapter and verse number. A book-scoped resolution
/// finishes here with the caller's book name verbatim; otherwise the book's
/// display name is asked for.
pub open spec fn spec_step_text(
    named: Option<Seq<char>>,
    verse_id: Seq<char>,
    rng: rand::rngs::StdRng,
    body: Seq<char>,
) -> StepResult {
    match spec_decode_verse_text(body) {
        Ok(text) => {
            let parts = spec_split_dots(verse_id);
            if parts.len() != 3 {
                spec_fail(rng, VerseError::Decode(JSONError::ErrorWithVerses))
            } else {
                match named {
                    Some(n) => StepResult {
                        state: ResolverStateView::Done,
                        rng,
                        outcome: Ok(
                            StepOutcomeView::Finished(
                                VerseView {
                                    book: n,
                                    chapter: parts[1],
                                    number: parts[2],
                                    verse: text,
                                },
                            ),
                        ),
                    },
                    None => StepResult {
                        state: ResolverStateView::Name {
                            text,
                            chapter: parts[1],
                            number: parts[2],
                        },
                        rng,
                        outcome: Ok(
                            StepOutcomeView::Next(
                                ApiRequestView::BookName { book_id: parts[0] },
                            ),
                        ),
                    },
                }
            }
        },
        Err(e) => spec_fail(rng, VerseError::Decode(e)),
    }
}

/// Stepping on the book-name response: decode the display name and finish.
pub open spec fn spec_step_name(
    text: Seq<char>,
    chapter: Seq<char>,
    number: Seq<char>,
    rng: rand::rngs::StdRng,
    body: Seq<char>,
) -> StepResult {
    match spec_decode_book_name(body) {
        Ok(name) => StepResult {
            state: ResolverStateView::Done,
            rng,
            outcome: Ok(
                StepOutcomeView::Finished(VerseView { book: name, chapter, number, verse: text }),
            ),
        },
        Err(e) => spec_fail(rng, VerseError::Decode(e)),
    }
}

/// What one step does, for every state and response body. A finished
/// resolution is never stepped again; that case is excluded by the stepping
/// function's precondition.
pub open spec fn spec_step(
    state: ResolverStateView,
    rng: rand::rngs::StdRng,
    body: Seq<char>,
) -> StepResult {
    match state {
        ResolverStateView::Books { named } => spec_step_books(named, rng, body),
        ResolverStateView::Chapters { named } => spec_step_chapters(named, rng, body),
        ResolverStateView::Verses { named } => spec_step_verses(named, rng, body),
        ResolverStateView::Text { named, verse_id } => spec_step_text(named, verse_id, rng, body),
        ResolverStateView::Name { text, chapter, number } => spec_step_name(
            text,
            chapter,
            number,
            rng,
            body,
        ),
        ResolverStateView::Done => spec_fail(rng, VerseError::Decode(JSONError::ErrorWithVerses)),
    }
}

fn clone_opt_string(o: &Option<String>) -> (r: Option<String>)
    ensures
        r == *o,
{
    match o {
        Some(s) => Some(s.clone()),
        None => None,
    }
}

fn step_books(named: &Option<String>, rng: &mut rand::rngs::StdRng, body: &str) -> (r: Result<
    (ResolverState, StepOutcome),
    VerseError,
>)
    ensures
        ({
            let t = spec_step_books(spec_opt_str_view(*named), *old(rng), body@);
            match r {
                Ok(p) => p.0@ == t.state && t.outcome == Ok::<StepOutcomeView, VerseError>(p.1@)
                    && *final(rng) == t.rng,
                Err(e) => t.state == ResolverStateView::Done && t.outcome == Err::<
                    StepOutcomeView,
                    VerseError,
                >(e) && *final(rng) == t.rng,
            }
        }),
{
    let books = match decode_books(body) {
        Ok(b) => b,
        Err(e) => {
            return Err(VerseError::Decode(e));
        },
    };
    let book_id = match named {
        Some(n) => match find_book(&books, n.as_str()) {
            Some(i) => books[i].id.clone(),
            None => {
                return Err(VerseError::Resolve(BibleError::InvalidBook));
            },
        },
        None => match select_random_book(&books, rng) {
            Ok(id) => id,
            Err(e) => {
                return Err(VerseError::Resolve(e));
            },
        },
    };
    let next_named = clone_opt_string(named);
    Ok(
        (
            ResolverState::Chapters { named: next_named },
            StepOutcome::Next(ApiRequest::Chapters { book_id }),
        ),
    )
}

fn step_chapters(named: &Option<String>, rng: &mut rand::rngs::StdRng, body: &str) -> (r: Result<
    (ResolverState, StepOutcome),
    VerseError,
>)
    ensures
        ({
            let t = spec_step_chapters(spec_opt_str_view(*named), *old(rng), body@);
            match r {
                Ok(p) => p.0@ == t.state && t.outcome == Ok::<StepOutcomeView, VerseError>(p.1@)
                    && *final(rng) == t.rng,
                Err(e) => t.state == ResolverStateView::Done && t.outcome == Err::<
                    StepOutcomeView,
                    VerseError,
                >(e) && *final(rng) == t.rng,
            }
        }),
{
    let chapters = match decode_chapters(body) {
        Ok(c) => c,
        Err(e) => {
            return Err(VerseError::Decode(e));
        },
    };
    let chapter_id = match select_random_chapter(&chapters, rng) {
        Ok(id) => id,
        Err(e) => {
            return Err(e);
        },
    };
    let next_named = clone_opt_string(named);
    Ok(
        (
            ResolverState::Verses { named: next_named },
            StepOutcome::Next(ApiRequest::Verses { chapter_id }),
        ),
    )
}

fn step_verses(named: &Option<String>, rng: &mut rand::rngs::StdRng, body: &str) -> (r: Result<
    (ResolverState, StepOutcome),
    VerseError,
>)
    ensures
        ({
            let t = spec_step_verses(spec_opt_str_view(*named), *old(rng), body@);
            match r {
                Ok(p) => p.0@ == t.state && t.outcome == Ok::<StepOutcomeView, VerseError>(p.1@)
                    && *final(rng) == t.rng,
                Err(e) => t.state == ResolverStateView::Done && t.outcome == Err::<
                    StepOutcomeView,
                    VerseError,
                >(e) && *final(rng) == t.rng,
            }
        }),
{
    let ids = match decode_verse_ids(body) {
        Ok(v) => v,
        Err(e) => {
            return Err(VerseError::Decode(e));
        },
    };
    let verse_id = match select_random_verse_id(&ids, rng) {
        Ok(id) => id,
        Err(e) => {
            return Err(VerseError::Resolve(e));
        },
    };
    let next_named = clone_opt_string(named);
    let request_id = verse_id.clone();
    Ok(
        (
            ResolverState::Text { named: next_named, verse_id },
            StepOutcome::Next(ApiRequest::VerseText { verse_id: request_id }),
        ),
    )
}

fn step_text(
    named: &Option<String>,
    verse_id: &String,
    rng: &mut rand::rngs::StdRng,
    body: &str,
) -> (r: Result<(ResolverState, StepOutcome), VerseError>)
    ensures
        ({
            let t = spec_step_text(spec_opt_str_view(*named), verse_id@, *old(rng), body@);
            match r {
                Ok(p) => p.0@ == t.state && t.outcome == Ok::<StepOutcomeView, VerseError>(p.1@)
                    && *final(rng) == t.rng,
                Err(e) => t.state == ResolverStateView::Done && t.outcome == Err::<
                    StepOutcomeView,
                    VerseError,
                >(e) && *final(rng) == t.rng,
            }
        }),
{
    let text = match decode_verse_text(body) {
        Ok(t) => t,
        Err(e) => {
            return Err(VerseError::Decode(e));
        },
    };
    let parts = match split_verse_id(verse_id.as_str()) {
        Ok(p) => p,
        Err(e) => {
            return Err(VerseError::Decode(e));
        },
    };
    match named {
        Some(n) => Ok(
            (
                ResolverState::Done,
                StepOutcome::Finished(Verse::new(text, n.clone(), parts.1, parts.2)),
            ),
        ),
        None => Ok(
            (
                ResolverState::Name { text, chapter: parts.1, number: parts.2 },
                StepOutcome::Next(ApiRequest::BookName { book_id: parts.0 }),
            ),
        ),
    }
}

fn step_name(
    text: &String,
    chapter: &String,
    number: &String,
    rng: &mut rand::rngs::StdRng,
    body: &str,
) -> (r: Result<(ResolverState, StepOutcome), VerseError>)
    ensures
        ({
            let t = spec_step_name(text@, chapter@, number@, *old(rng), body@);
            match r {
                Ok(p) => p.0@ == t.state && t.outcome == Ok::<StepOutcomeView, VerseError>(p.1@)
                    && *final(rng) == t.rng,
                Err(e) => t.state == ResolverStateView::Done && t.outcome == Err::<
                    StepOutcomeView,
                    VerseError,
                >(e) && *final(rng) == t.rng,
            }
        }),
{
    let name = match decode_book_name(body) {
        Ok(n) => n,
        Err(e) => {
            return Err(VerseError::Decode(e));
        },
    };
    Ok(
        (
            ResolverState::Done,
            StepOutcome::Finished(
                Verse::new(text.clone(), name, chapter.clone(), number.clone()),
            ),
        ),
    )
}

/// The step-by-step verse resolution: it owns the seeded generator and walks
/// the pipeline one provider response at a time.
pub struct Resolver {
    pub rng: rand::rngs::StdRng,
    pub state: ResolverState,
}

impl Resolver {
    /// Begins a resolution with the given generator; a book-scoped resolution
    /// names its book. The caller performs the returned request first.
    pub fn new(rng: rand::rngs::StdRng, book: Option<String>) -> (r: (Resolver, ApiRequest))
        ensures
            r.0.state@ == (ResolverStateView::Books { named: spec_opt_str_view(book) }),
            r.0.rng == rng,
            r.1@ == ApiRequestView::Books,
    {
        (Resolver { rng, state: ResolverState::Books { named: book } }, ApiRequest::Books)
    }

    /// Feeds the response body of the last request in, and steps: either the
    /// next request to perform, the resolved verse, or the failure that ends
    /// the resolution.
    pub fn step(&mut self, body: &str) -> (r: Result<StepOutcome, VerseError>)
        requires
            !(old(self).state@ is Done),
        ensures
            ({
                let t = spec_step(old(self).state@, old(self).rng, body@);
                &&& final(self).state@ == t.state
                &&& final(self).rng == t.rng
                &&& (match r {
                    Ok(o) => t.outcome == Ok::<StepOutcomeView, VerseError>(o@),
                    Err(e) => t.outcome == Err::<StepOutcomeView, VerseError>(e),
                })
            }),
    {
        let res = match &self.state {
            ResolverState::Books { named } => step_books(named, &mut self.rng, body),
            ResolverState::Chapters { named } => step_chapters(named, &mut self.rng, body),
            ResolverState::Verses { named } => step_verses(named, &mut self.rng, body),
            ResolverState::Text { named, verse_id } => step_text(
                named,
                verse_id,
                &mut self.rng,
                body,
            ),
            ResolverState::Name { text, chapter, number } => step_name(
                text,
                chapter,
                number,
                &mut self.rng,
                body,
            ),
            ResolverState::Done => unreached(),
        };
        match res {
            Ok((st, out)) => {
                self.state = st;
                Ok(out)
            },
            Err(e) => {
                self.state = ResolverState::Done;
                Err(e)
            },
        }
    }
}

/// Whether a resolution is book-scoped for the given name, in every state it
/// can pass through.
pub open spec fn spec_named_mode(state: ResolverStateView, name: Seq<char>) -> bool {
    match state {
        ResolverStateView::Books { named } => named == Some(name),
        ResolverStateView::Chapters { named } => named == Some(name),
        ResolverStateView::Verses { named } => named == Some(name),
        ResolverStateView::Text { named, verse_id } => named == Some(name),
        ResolverStateView::Name { text, chapter, number } => false,
        ResolverStateView::Done => true,
    }
}

/// A book-scoped resolution carries the caller's book name through every
/// step, and a verse it finishes with holds that name verbatim as its book.
pub proof fn lemma_named_book_verbatim(
    state: ResolverStateView,
    name: Seq<char>,
    rng: rand::rngs::StdRng,
    body: Seq<char>,
)
    requires
        spec_named_mode(state, name),
        !(state is Done),
    ensures
        spec_named_mode(spec_step(state, rng, body).state, name),
        match spec_step(state, rng, body).outcome {
            Ok(StepOutcomeView::Finished(v)) => v.book == name,
            _ => true,
        },
{
}

} // verus!
