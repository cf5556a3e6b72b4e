//! The title filter: which articles of the full list a query keeps.

use crate::scrape::{article_views, Article, ArticleView};
use regex::RegexBuilder;
use vstd::prelude::*;

verus! {

/// What the `regex` crate answers when `pattern` is compiled, to ignore case
/// or not, and searched for anywhere in `text`: `None` when the pattern does
/// not compile, else whether there is a match.
pub uninterp spec fn pattern_match(
    pattern: Seq<char>,
    ignore_case: bool,
    text: Seq<char>,
) -> Option<bool>;

/// Compiles `pattern` with `regex::RegexBuilder`, with `case_insensitive` set
/// to `ignore_case`, and searches `text` for it with `Regex::is_match`.
///
/// The contract names the answer. It adds what the crate's documentation says
/// of the empty pattern: it is valid and matches in every text.
#[verifier::external_body]
fn match_pattern(pattern: &str, ignore_case: bool, text: &str) -> (found: Option<bool>)
    ensures
        found == pattern_match(pattern@, ignore_case, text@),
        pattern@.len() == 0 ==> found == Some(true),
{
    match RegexBuilder::new(pattern).case_insensitive(ignore_case).build() {
        Ok(compiled) => Some(compiled.is_match(text)),
        Err(_) => None,
    }
}

/// Whether `query` keeps an article with this title: it does where the query,
/// read as a pattern without regard to case, matches in the title. A query
/// that is no valid pattern keeps nothing.
pub open spec fn title_matches(query: Seq<char>, title: Seq<char>) -> bool {
    pattern_match(query, true, title) == Some(true)
}

/// The test that `query` puts every article to.
pub open spec fn title_filter(query: Seq<char>) -> spec_fn(ArticleView) -> bool {
    |article: ArticleView| title_matches(query, article.title)
}

/// The articles of `all` that `query` keeps, in their order.
pub open spec fn matching(all: Seq<ArticleView>, query: Seq<char>) -> Seq<ArticleView> {
    all.filter(title_filter(query))
}

/// The answers of the pattern matcher for the titles of `all`, in order.
pub open spec fn verdicts_of(all: Seq<ArticleView>, query: Seq<char>) -> Seq<Option<bool>> {
    Seq::new(all.len(), |i: int| pattern_match(query, true, all[i].title))
}

/// The articles of `all` whose verdict is a match, in their order.
pub open spec fn kept(all: Seq<ArticleView>, verdicts: Seq<Option<bool>>) -> Seq<ArticleView>
    decreases all.len(),
{
    if all.len() == 0 || verdicts.len() != all.len() {
        Seq::empty()
    } else if verdicts.last() == Some(true) {
        kept(all.drop_last(), verdicts.drop_last()).push(all.last())
    } else {
        kept(all.drop_last(), verdicts.drop_last())
    }
}

/// Whether `part` can be had from `whole` by leaving items out.
pub open spec fn is_subsequence(part: Seq<ArticleView>, whole: Seq<ArticleView>) -> bool
    decreases whole.len(),
{
    if part.len() == 0 {
        true
    } else if whole.len() == 0 {
        false
    } else {
        ||| part.last() == whole.last() && is_subsequence(part.drop_last(), whole.drop_last())
        ||| is_subsequence(part, whole.drop_last())
    }
}

/// Every sequence is a subsequence of itself.
pub proof fn lemma_subsequence_of_itself(whole: Seq<ArticleView>)
    ensures
        is_subsequence(whole, whole),
    decreases whole.len(),
{
    if whole.len() > 0 {
        lemma_subsequence_of_itself(whole.drop_last());
    }
}

/// Whatever the verdicts, what is kept is a subsequence of the full list.
pub proof fn lemma_kept_is_subsequence(all: Seq<ArticleView>, verdicts: Seq<Option<bool>>)
    ensures
        is_subsequence(kept(all, verdicts), all),
    decreases all.len(),
{
    if all.len() > 0 && verdicts.len() == all.len() {
        lemma_kept_is_subsequence(all.drop_last(), verdicts.drop_last());
        if verdicts.last() == Some(true) {
            let rest = kept(all.drop_last(), verdicts.drop_last());
            assert(rest.push(all.last()).drop_last() == rest);
        }
    }
}

/// Keeping by the matcher's verdicts is filtering by the query.
pub proof fn lemma_kept_is_matching(all: Seq<ArticleView>, query: Seq<char>)
    ensures
        kept(all, verdicts_of(all, query)) == matching(all, query),
    decreases all.len(),
{
    reveal(Seq::filter);
    if all.len() > 0 {
        lemma_kept_is_matching(all.drop_last(), query);
        assert(verdicts_of(all, query).drop_last() == verdicts_of(all.drop_last(), query));
    }
}

/// Whatever the query, the articles it keeps are a subsequence of the full
/// list.
pub proof fn lemma_matching_is_subsequence(all: Seq<ArticleView>, query: Seq<char>)
    ensures
        is_subsequence(matching(all, query), all),
{
    lemma_kept_is_matching(all, query);
    lemma_kept_is_subsequence(all, verdicts_of(all, query));
}

/// Verdicts that are all a match keep the full list.
pub proof fn lemma_kept_all(all: Seq<ArticleView>, verdicts: Seq<Option<bool>>)
    requires
        verdicts.len() == all.len(),
        forall|i: int| 0 <= i < verdicts.len() ==> verdicts[i] == Some(true),
    ensures
        kept(all, verdicts) == all,
    decreases all.len(),
{
    if all.len() > 0 {
        lemma_kept_all(all.drop_last(), verdicts.drop_last());
        assert(all.drop_last().push(all.last()) == all);
    }
}

/// Asks the pattern matcher about the title of each article.
pub fn match_titles(query: &str, articles: &Vec<Article>) -> (verdicts: Vec<Option<bool>>)
    ensures
        verdicts@ == verdicts_of(article_views(articles@), query@),
        query@.len() == 0 ==> forall|i: int|
            0 <= i < verdicts.len() ==> verdicts[i] == Some(true),
{
    let mut verdicts: Vec<Option<bool>> = Vec::new();
    let mut i: usize = 0;
    while i < articles.len()
        invariant
            i <= articles.len(),
            verdicts.len() == i,
            forall|k: int|
                0 <= k < i ==> verdicts[k] == pattern_match(
                    query@,
                    true,
                    (#[trigger] articles[k]).title@,
                ),
            query@.len() == 0 ==> forall|k: int| 0 <= k < i ==> verdicts[k] == Some(true),
        decreases articles.len() - i,
    {
        verdicts.push(match_pattern(query, true, articles[i].title.as_str()));
        i += 1;
    }
    assert(verdicts@ =~= verdicts_of(article_views(articles@), query@));
    verdicts
}

/// Copies the articles whose verdict is a match, in their order.
pub fn keep_matching(articles: &Vec<Article>, verdicts: &Vec<Option<bool>>) -> (found: Vec<Article>)
    requires
        verdicts.len() == articles.len(),
    ensures
        article_views(found@) == kept(article_views(articles@), verdicts@),
{
    let ghost all = article_views(articles@);
    let mut found: Vec<Article> = Vec::new();
    let mut i: usize = 0;
    while i < articles.len()
        invariant
            i <= articles.len(),
            verdicts.len() == articles.len(),
            all == article_views(articles@),
            article_views(found@) == kept(all.take(i as int), verdicts@.take(i as int)),
        decreases articles.len() - i,
    {
        proof {
            assert(all.take(i + 1).drop_last() == all.take(i as int));
            assert(verdicts@.take(i + 1).drop_last() == verdicts@.take(i as int));
        }
        if let Some(true) = verdicts[i] {
            let ghost earlier = article_views(found@);
            found.push(articles[i].clone());
            assert(article_views(found@) =~= earlier.push(all[i as int]));
        }
        i += 1;
    }
    assert(all.take(articles.len() as int) == all);
    assert(verdicts@.take(articles.len() as int) == verdicts@);
    found
}

} // verus!
