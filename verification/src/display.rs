//! The value types a resolution produces, and their displayable text.
//!
//! Rendering to the terminal itself is left to the surrounding application;
//! here stand the types and the exact strings and padding widths they
//! display with.

use vstd::prelude::*;
use vstd::string::StringExecFns;

verus! {

/// A resolved verse: the human-readable book name, the chapter and verse
/// numbers as the provider writes them, and the verse text.
#[derive(Debug, PartialEq, Eq)]
pub struct Verse {
    pub book: String,
    pub chapter: String,
    pub number: String,
    pub verse: String,
}

/// The mathematical value of a [`Verse`].
pub struct VerseView {
    pub book: Seq<char>,
    pub chapter: Seq<char>,
    pub number: Seq<char>,
    pub verse: Seq<char>,
}

impl View for Verse {
    type V = VerseView;

    open spec fn view(&self) -> VerseView {
        VerseView {
            book: self.book@,
            chapter: self.chapter@,
            number: self.number@,
            verse: self.verse@,
        }
    }
}

/// The books of one Bible version, under the version's display name.
#[derive(Debug, PartialEq, Eq)]
pub struct Books {
    pub version: String,
    pub books: Vec<String>,
}

/// Metadata about one available Bible version.
#[derive(Debug, PartialEq, Eq)]
pub struct Bible {
    pub name: String,
    pub description: String,
    pub language: String,
    pub id: String,
}

/// The mathematical value of a [`Bible`].
pub struct BibleView {
    pub name: Seq<char>,
    pub description: Seq<char>,
    pub language: Seq<char>,
    pub id: Seq<char>,
}

impl View for Bible {
    type V = BibleView;

    open spec fn view(&self) -> BibleView {
        BibleView {
            name: self.name@,
            description: self.description@,
            language: self.language@,
            id: self.id@,
        }
    }
}

impl DeepView for Bible {
    type V = BibleView;

    open spec fn deep_view(&self) -> BibleView {
        self.view()
    }
}

impl Books {
    pub fn new(version: String, books: Vec<String>) -> (r: Books)
        ensures
            r.version == version,
            r.books == books,
    {
        Books { version, books }
    }

    /// The listing the books display as: the version name, an underline of
    /// '=' of the same length, then one book per line.
    pub fn listing(&self) -> (r: String)
        ensures
            r@ == self.version@ + "\n"@ + Seq::new(self.version@.len(), |i: int| '=')
                + spec_book_lines(self.books@.map_values(|b: String| b@)),
    {
        let mut out = self.version.clone();
        out.append("\n");
        let mut i: usize = 0;
        let n = self.version.as_str().unicode_len();
        proof {
            reveal_strlit("=");
            assert(out@ + Seq::new(0, |k: int| '=') =~= out@);
        }
        let ghost header = out@;
        while i < n
            invariant
                i <= n,
                n == self.version@.len(),
                "="@.len() == 1 && "="@[0] == '=',
                out@ == header + Seq::new(i as nat, |k: int| '='),
            decreases n - i,
        {
            out.append("=");
            proof {
                assert(header + Seq::new(i as nat, |k: int| '=') + "="@
                    =~= header + Seq::new((i + 1) as nat, |k: int| '='));
            }
            i = i + 1;
        }
        let ghost views = self.books@.map_values(|b: String| b@);
        proof {
            assert(views.take(0) =~= Seq::empty());
            assert(out@ + spec_book_lines(views.take(0)) =~= out@);
        }
        let ghost underlined = out@;
        let m = self.books.len();
        let mut j: usize = 0;
        while j < m
            invariant
                j <= m,
                m == self.books@.len(),
                views == self.books@.map_values(|b: String| b@),
                views.len() == m,
                out@ == underlined + spec_book_lines(views.take(j as int)),
            decreases m - j,
        {
            out.append("\n");
            out.append(self.books[j].as_str());
            proof {
                assert(views.take(j + 1).drop_last() =~= views.take(j as int));
                assert(views.take(j + 1).last() == views[j as int]);
                assert(out@ =~= underlined + spec_book_lines(views.take(j + 1)));
            }
            j = j + 1;
        }
        proof {
            assert(views.take(m as int) =~= views);
        }
        out
    }
}

/// One "\n"-prefixed line per book, in order.
pub open spec fn spec_book_lines(books: Seq<Seq<char>>) -> Seq<char>
    decreases books.len(),
{
    if books.len() == 0 {
        Seq::empty()
    } else {
        spec_book_lines(books.drop_last()) + "\n"@ + books.last()
    }
}

impl Verse {
    /// Creates a new [`Verse`].
    pub fn new(verse: String, book: String, chapter: String, number: String) -> (r: Verse)
        ensures
            r.book == book,
            r.chapter == chapter,
            r.number == number,
            r.verse == verse,
    {
        Verse { book, chapter, number, verse }
    }

    /// The displayable reference of the verse: "{book} {chapter}:{number}".
    pub fn reference(&self) -> (r: String)
        ensures
            r@ == self.book@ + " "@ + self.chapter@ + ":"@ + self.number@,
    {
        let mut out = self.book.clone();
        out.append(" ");
        out.append(self.chapter.as_str());
        out.append(":");
        out.append(self.number.as_str());
        out
    }

    /// The column the reference is right-aligned to under a terminal of the
    /// given width: none under very narrow terminals, the terminal width when
    /// the verse overflows it, and the verse length otherwise.
    pub fn padding(&self, width: usize) -> (p: usize)
        ensures
            p == spec_verse_padding(width, self.verse@.len()),
    {
        let len = self.verse.as_str().unicode_len();
        if width < 10 {
            0
        } else if width < len {
            width
        } else {
            len
        }
    }
}

/// The padding rule for a rendered verse.
pub open spec fn spec_verse_padding(width: usize, verse_len: nat) -> nat {
    if width < 10 {
        0
    } else if width < verse_len {
        width as nat
    } else {
        verse_len
    }
}

impl Bible {
    pub fn new(name: String, description: String, language: String, id: String) -> (r: Bible)
        ensures
            r.name == name,
            r.description == description,
            r.language == language,
            r.id == id,
    {
        Bible { name, description, language, id }
    }

    /// The lines the metadata displays as, one labelled field per line.
    pub fn listing(&self) -> (r: String)
        ensures
            r@ == "Bible: "@ + self.name@ + "\n"@ + "Description: "@ + self.description@
                + "\n"@ + "Language: "@ + self.language@ + "\n"@ + "ID: "@ + self.id@ + "\n"@,
    {
        let mut out = String::new();
        out.append("Bible: ");
        out.append(self.name.as_str());
        out.append("\n");
        out.append("Description: ");
        out.append(self.description.as_str());
        out.append("\n");
        out.append("Language: ");
        out.append(self.language.as_str());
        out.append("\n");
        out.append("ID: ");
        out.append(self.id.as_str());
        out.append("\n");
        proof {
            assert(out@ =~= "Bible: "@ + self.name@ + "\n"@ + "Description: "@
                + self.description@ + "\n"@ + "Language: "@ + self.language@ + "\n"@
                + "ID: "@ + self.id@ + "\n"@);
        }
        out
    }
}

} // verus!
