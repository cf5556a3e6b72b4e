//! The text of one opened article, laid out as display lines.

use crate::util::line_views;
use vstd::prelude::*;
use vstd::utf8::encode_utf8;

verus! {

/// The lines that `textwrap::wrap` folds `text` into at `width` columns.
pub uninterp spec fn wrapped(text: Seq<char>, width: nat) -> Seq<Seq<char>>;

/// A text that the reflow leaves as it is: a single line of fewer bytes than
/// the width, with no blank at its end.
pub open spec fn fits_on_one_line(text: Seq<char>, width: int) -> bool {
    &&& !text.contains('\n')
    &&& encode_utf8(text).len() < width
    &&& text.len() > 0 ==> text.last() != ' '
}

/// Folds `text` into lines of at most `width` columns with `textwrap::wrap`.
///
/// The contract names the lines that come back. It adds two things that the
/// source of `wrap` shows. There is always a line, since every line of the
/// text gives at least one. And a text without a line feed that is shorter in
/// bytes than the width is not split, only stripped of blanks at its end, so
/// it comes back as the only line when it ends in none.
#[verifier::external_body]
fn wrap_text(text: &str, width: usize) -> (lines: Vec<String>)
    requires
        width >= 1,
    ensures
        line_views(lines@) == wrapped(text@, width as nat),
        lines@.len() >= 1,
        fits_on_one_line(text@, width as int) ==> line_views(lines@) == seq![text@],
{
    textwrap::wrap(text, width).into_iter().map(|line| line.into_owned()).collect()
}

/// What starts every line of the body and stands alone between paragraphs.
pub open spec fn line_break() -> Seq<char> {
    seq!['\r', '\n']
}

/// The lines that one paragraph adds to a document: each of its reflowed
/// lines behind a line break, then a blank line that is a line break alone.
pub open spec fn paragraph_lines(reflowed: Seq<Seq<char>>) -> Seq<Seq<char>> {
    Seq::new(reflowed.len(), |i: int| line_break() + reflowed[i]).push(line_break())
}

/// The lines of a body of `paragraphs` at `width` columns.
pub open spec fn body_lines(paragraphs: Seq<Seq<char>>, width: nat) -> Seq<Seq<char>>
    decreases paragraphs.len(),
{
    if paragraphs.len() == 0 {
        Seq::empty()
    } else {
        body_lines(paragraphs.drop_last(), width) + paragraph_lines(
            wrapped(paragraphs.last(), width),
        )
    }
}

/// The lines of the document for an article: the reflowed title, then the
/// body.
pub open spec fn document_lines(
    title: Seq<char>,
    paragraphs: Seq<Seq<char>>,
    width: nat,
) -> Seq<Seq<char>> {
    wrapped(title, width) + body_lines(paragraphs, width)
}

/// The first line that the reflow gives for `title`: the title line of its
/// document.
pub open spec fn title_line(title: Seq<char>, width: nat) -> Seq<char> {
    wrapped(title, width)[0]
}

/// A row as it is drawn: a line of the body without the line break that
/// starts it, any other line as it is.
pub open spec fn row_text(line: Seq<char>) -> Seq<char> {
    if line.len() >= 2 && line[0] == '\r' && line[1] == '\n' {
        line.subrange(2, line.len() as int)
    } else {
        line
    }
}

/// Whether `lines` end in the blank line that closes a paragraph.
pub open spec fn ends_blank(lines: Seq<Seq<char>>) -> bool {
    lines.len() > 0 && lines.last() == line_break()
}

/// The display lines of one opened article. There is always a first line,
/// which is the title line.
#[derive(Debug)]
pub struct Document {
    lines: Vec<String>,
}

impl View for Document {
    type V = Seq<Seq<char>>;

    closed spec fn view(&self) -> Seq<Seq<char>> {
        line_views(self.lines@)
    }
}

impl Document {
    /// The invariant of a document: it holds a line.
    #[verifier::type_invariant]
    spec fn holds_a_line(&self) -> bool {
        self.lines@.len() >= 1
    }

    /// A document that holds the lines of a title and no body yet.
    pub fn new(title_lines: Vec<String>) -> (doc: Document)
        requires
            title_lines@.len() >= 1,
        ensures
            doc@ == line_views(title_lines@),
    {
        Document { lines: title_lines }
    }

    /// The document with one more paragraph, given as its reflowed lines.
    pub fn with_paragraph(self, reflowed: &Vec<String>) -> (doc: Document)
        ensures
            doc@ == self@ + paragraph_lines(line_views(reflowed@)),
    {
        proof {
            use_type_invariant(&self);
            reveal_strlit("\r\n");
            assert("\r\n"@ =~= line_break());
        }
        let ghost before = self@;
        let mut lines = self.lines;
        let mut i: usize = 0;
        while i < reflowed.len()
            invariant
                i <= reflowed.len(),
                "\r\n"@ == line_break(),
                before.len() >= 1,
                line_views(lines@) == before + Seq::new(
                    i as nat,
                    |k: int| line_break() + line_views(reflowed@)[k],
                ),
            decreases reflowed.len() - i,
        {
            let mut line = String::from_str("\r\n");
            line.append(reflowed[i].as_str());
            let ghost earlier = line_views(lines@);
            lines.push(line);
            assert(line_views(lines@) =~= earlier.push(line@));
            assert(line_views(lines@) =~= before + Seq::new(
                (i + 1) as nat,
                |k: int| line_break() + line_views(reflowed@)[k],
            ));
            i += 1;
        }
        let blank = String::from_str("\r\n");
        let ghost earlier = line_views(lines@);
        lines.push(blank);
        assert(line_views(lines@) =~= earlier.push(blank@));
        assert(line_views(lines@) =~= before + paragraph_lines(line_views(reflowed@)));
        Document { lines }
    }

    /// Lays out an article: its title and each paragraph of its body,
    /// reflowed to `width` columns.
    pub fn compose(title: &str, paragraphs: &Vec<String>, width: usize) -> (doc: Document)
        requires
            width >= 1,
        ensures
            doc@ == document_lines(title@, line_views(paragraphs@), width as nat),
            doc@.len() >= 1,
            doc@[0] == title_line(title@, width as nat),
            fits_on_one_line(title@, width as int) ==> doc@[0] == title@,
            fits_on_one_line(title@, width as int) && paragraphs@.len() == 0 ==> doc@ == seq![
                title@,
            ],
    {
        let mut doc = Document::new(wrap_text(title, width));
        let ghost texts = line_views(paragraphs@);
        let mut i: usize = 0;
        while i < paragraphs.len()
            invariant
                i <= paragraphs.len(),
                width >= 1,
                texts == line_views(paragraphs@),
                doc@ == wrapped(title@, width as nat) + body_lines(
                    texts.take(i as int),
                    width as nat,
                ),
                wrapped(title@, width as nat).len() >= 1,
                fits_on_one_line(title@, width as int) ==> wrapped(title@, width as nat) == seq![
                    title@,
                ],
            decreases paragraphs.len() - i,
        {
            let reflowed = wrap_text(paragraphs[i].as_str(), width);
            doc = doc.with_paragraph(&reflowed);
            proof {
                let next = texts.take(i + 1);
                assert(next.drop_last() =~= texts.take(i as int));
                assert(next.last() == paragraphs[i as int]@);
            }
            i += 1;
        }
        assert(texts.take(paragraphs.len() as int) =~= texts);
        doc
    }

    /// The number of lines, which is at least one.
    pub fn len(&self) -> (n: usize)
        ensures
            n == self@.len(),
            n >= 1,
    {
        proof {
            use_type_invariant(self);
        }
        self.lines.len()
    }

    /// The lines, first to last.
    pub fn lines(&self) -> (lines: &[String])
        ensures
            line_views(lines@) == self@,
    {
        self.lines.as_slice()
    }

    /// Whether the document ends in the blank line that closes a paragraph.
    pub fn ends_blank(&self) -> (blank: bool)
        ensures
            blank == ends_blank(self@),
    {
        let n: usize = self.len();
        proof {
            reveal_strlit("\r\n");
            assert("\r\n"@ =~= line_break());
        }
        let blank = String::from_str("\r\n");
        self.lines[n - 1] == blank
    }
}

/// The text of a row as it is drawn: a line of the body loses the line break
/// that starts it.
pub fn drawn_text(line: &str) -> (text: &str)
    ensures
        text@ == row_text(line@),
{
    let n: usize = line.unicode_len();
    if n >= 2 && line.get_char(0) == '\r' && line.get_char(1) == '\n' {
        line.substring_char(2, n)
    } else {
        line
    }
}

} // verus!
