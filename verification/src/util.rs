//! The one-line form of an article in the list: its title, clipped to the
//! room the terminal leaves, followed by its timestamp in parentheses.

use crate::scrape::{article_views, Article, ArticleView};
use vstd::prelude::*;
use vstd::string::StringSliceAdditionalSpecFns;
use vstd::utf8::{
    decode_utf8, decode_utf8_split, encode_utf8, encode_utf8_decode_utf8, encode_utf8_valid_utf8,
    is_char_boundary, is_char_boundary_start_end_of_seq, valid_utf8_split,
};

verus! {

/// The models of a sequence of lines, in order.
pub open spec fn line_views(lines: Seq<String>) -> Seq<Seq<char>> {
    Seq::new(lines.len(), |i: int| lines[i]@)
}

/// The last character boundary of `bytes` at or before `index`.
pub open spec fn floor_boundary(bytes: Seq<u8>, index: int) -> int
    decreases index,
{
    if index <= 0 || is_char_boundary(bytes, index) {
        index
    } else {
        floor_boundary(bytes, index - 1)
    }
}

/// What marks a title as cut short.
pub open spec fn ellipsis() -> Seq<char> {
    seq!['.', '.', '.']
}

/// A title cut to at most `limit` bytes of UTF-8.
///
/// A title that fits is kept whole. A longer one keeps its first `limit`
/// bytes, less those of a character that the cut would split, and ends in
/// three dots.
pub open spec fn clipped(title: Seq<char>, limit: int) -> Seq<char> {
    let bytes = encode_utf8(title);
    if bytes.len() <= limit {
        title
    } else {
        decode_utf8(bytes.take(floor_boundary(bytes, limit))) + ellipsis()
    }
}

/// The cut of a clipped title falls on a character boundary at or before the
/// limit.
pub proof fn lemma_floor_boundary(bytes: Seq<u8>, index: int)
    requires
        is_char_boundary(bytes, 0),
        0 <= index,
    ensures
        0 <= floor_boundary(bytes, index) <= index,
        is_char_boundary(bytes, floor_boundary(bytes, index)),
    decreases index,
{
    if index > 0 && !is_char_boundary(bytes, index) {
        lemma_floor_boundary(bytes, index - 1);
    }
}

/// A title that is cut keeps some of its first characters, which take up no
/// more bytes than the limit, and nothing else but the three dots.
pub proof fn lemma_clipped_keeps_a_prefix(title: Seq<char>, limit: int)
    requires
        0 <= limit < encode_utf8(title).len(),
    ensures
        exists|n: int|
            0 <= n <= title.len() && encode_utf8(#[trigger] title.take(n)).len() <= limit
                && clipped(title, limit) == title.take(n) + ellipsis(),
{
    let bytes = encode_utf8(title);
    encode_utf8_valid_utf8(title);
    encode_utf8_decode_utf8(title);
    is_char_boundary_start_end_of_seq(bytes);
    lemma_floor_boundary(bytes, limit);
    let cut = floor_boundary(bytes, limit);
    let head = decode_utf8(bytes.take(cut));
    let tail = decode_utf8(bytes.subrange(cut, bytes.len() as int));
    decode_utf8_split(bytes, cut);
    valid_utf8_split(bytes, cut);
    assert(title =~= head + tail);
    assert(title.take(head.len() as int) =~= head);
    vstd::utf8::decode_utf8_encode_utf8(bytes.take(cut));
    assert(encode_utf8(title.take(head.len() as int)).len() <= limit);
}

/// The bytes left for a title on a row of `width` columns once the timestamp,
/// the space and parentheses around it and the three dots are set aside.
pub open spec fn title_room(width: int, datetime: Seq<char>) -> int {
    let room = width - encode_utf8(datetime).len() - 6;
    if room > 0 {
        room
    } else {
        0
    }
}

/// The row that stands for an article in the list.
pub open spec fn display_title(article: ArticleView, width: int) -> Seq<char> {
    clipped(article.title, title_room(width, article.datetime)) + seq![' ', '(']
        + article.datetime + seq![')']
}

/// The rows that stand for a sequence of articles.
pub open spec fn display_titles(articles: Seq<ArticleView>, width: int) -> Seq<Seq<char>> {
    Seq::new(articles.len(), |i: int| display_title(articles[i], width))
}

/// Cuts a title to at most `limit` bytes.
pub fn clip_title(title: &str, limit: usize) -> (out: String)
    ensures
        out@ == clipped(title@, limit as int),
{
    let ghost bytes = title.spec_bytes();
    if title.as_bytes().len() <= limit {
        return title.to_owned();
    }
    proof {
        encode_utf8_valid_utf8(title@);
        is_char_boundary_start_end_of_seq(bytes);
    }
    let mut cut: usize = limit;
    while !title.is_char_boundary(cut)
        invariant
            bytes == encode_utf8(title@),
            bytes == title.spec_bytes(),
            is_char_boundary(bytes, 0),
            cut <= limit < bytes.len(),
            floor_boundary(bytes, cut as int) == floor_boundary(bytes, limit as int),
        decreases cut,
    {
        cut = cut - 1;
    }
    let (head, _) = title.split_at(cut);
    proof {
        encode_utf8_decode_utf8(head@);
        assert(head.spec_bytes() == bytes.take(cut as int));
    }
    let mut out = head.to_owned();
    proof {
        reveal_strlit("...");
    }
    out.append("...");
    assert("..."@ =~= ellipsis());
    out
}

/// The texts of `parts`, one after the other.
pub open spec fn joined(parts: Seq<Seq<char>>) -> Seq<char>
    decreases parts.len(),
{
    if parts.len() == 0 {
        Seq::empty()
    } else {
        joined(parts.drop_last()) + parts.last()
    }
}

/// The text of an element, from its text nodes: all of them, joined.
pub fn element_to_text(nodes: &Vec<String>) -> (text: String)
    ensures
        text@ == joined(line_views(nodes@)),
{
    let ghost parts = line_views(nodes@);
    let mut text = String::new();
    let mut i: usize = 0;
    while i < nodes.len()
        invariant
            i <= nodes.len(),
            parts == line_views(nodes@),
            text@ == joined(parts.take(i as int)),
        decreases nodes.len() - i,
    {
        proof {
            assert(parts.take(i + 1).drop_last() =~= parts.take(i as int));
        }
        text.append(nodes[i].as_str());
        i += 1;
    }
    assert(parts.take(nodes.len() as int) =~= parts);
    text
}

/// Whether two texts hold the same characters.
pub fn same_text(a: &str, b: &str) -> (same: bool)
    ensures
        same == (a@ == b@),
{
    let left = a.as_bytes();
    let right = b.as_bytes();
    proof {
        encode_utf8_decode_utf8(a@);
        encode_utf8_decode_utf8(b@);
    }
    if left.len() != right.len() {
        return false;
    }
    let mut i: usize = 0;
    while i < left.len()
        invariant
            i <= left.len(),
            left.len() == right.len(),
            left@ == encode_utf8(a@),
            right@ == encode_utf8(b@),
            forall|k: int| 0 <= k < i ==> left[k] == right[k],
        decreases left.len() - i,
    {
        if left[i] != right[i] {
            return false;
        }
        i += 1;
    }
    assert(left@ =~= right@);
    true
}

/// Builds the row that stands for `article` on a terminal `term_width`
/// columns wide.
pub fn title_row(article: &Article, term_width: usize) -> (row: String)
    ensures
        row@ == display_title(article@, term_width as int),
{
    let taken: usize = article.datetime.as_str().as_bytes().len().saturating_add(6);
    let room: usize = term_width.saturating_sub(taken);
    let mut row = clip_title(article.title.as_str(), room);
    proof {
        reveal_strlit(" (");
        reveal_strlit(")");
        assert(" ("@ =~= seq![' ', '(']);
        assert(")"@ =~= seq![')']);
    }
    row.append(" (");
    row.append(article.datetime.as_str());
    row.append(")");
    row
}

/// Builds the rows that stand for `articles`, one for each and in order.
pub fn articles_to_titles(articles: &Vec<Article>, term_width: usize) -> (titles: Vec<String>)
    ensures
        line_views(titles@) == display_titles(article_views(articles@), term_width as int),
{
    let mut titles: Vec<String> = Vec::new();
    let mut i: usize = 0;
    while i < articles.len()
        invariant
            i <= articles.len(),
            titles.len() == i,
            forall|k: int|
                0 <= k < i ==> (#[trigger] titles[k])@ == display_title(
                    articles[k]@,
                    term_width as int,
                ),
        decreases articles.len() - i,
    {
        titles.push(title_row(&articles[i], term_width));
        i += 1;
    }
    assert(line_views(titles@) =~= display_titles(article_views(articles@), term_width as int));
    titles
}

} // verus!
