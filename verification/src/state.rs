//! The browse state machine: the article list, the open article and the
//! viewport that pages through whichever of the two is on screen.

use crate::document::{
    document_lines, ends_blank, fits_on_one_line, title_line, wrapped, Document,
};
use crate::filter::{
    is_subsequence, keep_matching, lemma_kept_all, lemma_kept_is_matching,
    lemma_matching_is_subsequence, lemma_subsequence_of_itself, match_titles, matching,
};
use crate::input::Action;
use crate::prompt::PromptKind;
use crate::scrape::{article_views, Article, ArticleView, FetchError};
use crate::util::{articles_to_titles, display_titles, line_views};
use crate::viewport::{Position, Viewport};
use rand::Rng;
use vstd::prelude::*;
use vstd::slice::slice_subrange;

verus! {

/// Which of the two content spaces is on screen.
#[derive(Clone, Copy, Debug, PartialEq, Eq, Structural)]
pub enum Mode {
    /// The list of article titles, with one highlighted row.
    Select,
    /// The text of one opened article.
    Article,
}

/// The content space on screen, with what only that space holds.
#[derive(Debug)]
enum Space {
    Listing,
    Reading { document: Document },
}

/// What the shell around the browser does after an intent was applied.
#[derive(Clone, Copy, Debug, PartialEq, Eq, Structural)]
pub enum Step {
    /// Leave the browser.
    Quit,
    /// Draw the rows on screen.
    Render,
    /// Fetch the body of the selected article and open it.
    Fetch,
    /// Open a prompt in the status row.
    Prompt(PromptKind),
    /// Nothing.
    Idle,
}

/// The mathematical model of a [`State`].
pub struct StateView {
    /// Every article that was fetched, in the order of the source.
    pub all: Seq<ArticleView>,
    /// The articles in the list: all of them, or those a filter kept.
    pub active: Seq<ArticleView>,
    /// Selected row and scroll offset.
    pub position: Position,
    /// The lines of the open article, or `None` while the list is on screen.
    pub document: Option<Seq<Seq<char>>>,
    /// The columns of a row.
    pub width: int,
    /// The rows of the viewport.
    pub height: int,
}

impl StateView {
    /// The content space on screen.
    pub open spec fn mode(self) -> Mode {
        if self.document is Some {
            Mode::Article
        } else {
            Mode::Select
        }
    }

    /// The rows that the viewport pages through: the lines of the open
    /// article, or else the list with one row for each article.
    pub open spec fn rows(self) -> Seq<Seq<char>> {
        match self.document {
            Some(lines) => lines,
            None => display_titles(self.active, self.width),
        }
    }

    /// The number of rows that the viewport pages through.
    pub open spec fn length(self) -> int {
        self.rows().len() as int
    }

    /// The invariants of the state machine.
    ///
    /// The list is a subsequence of all articles and the position is valid
    /// for the rows on screen. While an article is open the selection still
    /// names the row it was opened from, and the document holds a first line,
    /// which is the title line of that article.
    pub open spec fn wf(self) -> bool {
        &&& self.width >= 1
        &&& is_subsequence(self.active, self.all)
        &&& self.position.valid(self.mode(), self.height, self.length())
        &&& self.document matches Some(lines) ==> {
            &&& self.position.selected < self.active.len()
            &&& lines.len() >= 1
            &&& lines[0] == title_line(
                self.active[self.position.selected].title,
                self.width as nat,
            )
        }
    }

    /// The same state at another position.
    pub open spec fn at(self, position: Position) -> StateView {
        StateView { position, ..self }
    }

    /// The state after moving one row up.
    pub open spec fn moved_up(self) -> StateView {
        self.at(self.position.moved_up(self.mode()))
    }

    /// The state after moving one row down.
    pub open spec fn moved_down(self) -> StateView {
        self.at(self.position.moved_down(self.mode(), self.height, self.length()))
    }

    /// The state after moving a full window up.
    pub open spec fn paged_up(self) -> StateView {
        self.at(self.position.paged_up(self.mode(), self.height))
    }

    /// The state after moving a full window down.
    pub open spec fn paged_down(self) -> StateView {
        self.at(self.position.paged_down(self.mode(), self.height, self.length()))
    }

    /// The state after jumping to the top.
    pub open spec fn at_top(self) -> StateView {
        self.at(self.position.at_top(self.mode()))
    }

    /// The state after jumping to the bottom.
    pub open spec fn at_bottom(self) -> StateView {
        self.at(self.position.at_bottom(self.mode(), self.height, self.length()))
    }

    /// Whether the selection names an article that can be opened.
    pub open spec fn can_open(self) -> bool {
        self.position.selected < self.active.len()
    }

    /// The state after the article in `row` of the list was opened on a body
    /// of `paragraphs`: its document is on screen, scrolled to the top, and
    /// the selection names the row.
    pub open spec fn opened(self, row: int, paragraphs: Seq<Seq<char>>) -> StateView {
        StateView {
            position: Position { selected: row, offset: 0 },
            document: Some(document_lines(self.active[row].title, paragraphs, self.width as nat)),
            ..self
        }
    }

    /// What holds of a state in which an article with this title was just
    /// opened, on a body that was empty or not.
    ///
    /// The document is on screen and holds a first line, the title line. That
    /// line is the title itself where the title fits on a line. With an
    /// empty body the document, and what is on screen of it, is then that one
    /// line.
    pub open spec fn shows_title(self, title: Seq<char>, empty_body: bool) -> bool {
        &&& self.document is Some
        &&& self.rows().len() >= 1
        &&& self.rows()[0] == title_line(title, self.width as nat)
        &&& fits_on_one_line(title, self.width) ==> self.rows()[0] == title
        &&& fits_on_one_line(title, self.width) && empty_body ==> {
            &&& self.rows() == seq![title]
            &&& self.visible() == seq![title]
        }
    }

    /// The state after the open article was closed: the list is back on
    /// screen at its top. With no article open nothing changes.
    pub open spec fn closed(self) -> StateView {
        if self.document is Some {
            StateView { position: Position::origin(), document: None, ..self }
        } else {
            self
        }
    }

    /// The state after a reset: the full list is on screen at its top.
    pub open spec fn reset(self) -> StateView {
        StateView {
            active: self.all,
            position: Position::origin(),
            document: None,
            ..self
        }
    }

    /// The state after filtering by `query`: the list holds the articles of
    /// the full list that the query keeps, at its top. While an article is
    /// open nothing changes.
    pub open spec fn filtered(self, query: Seq<char>) -> StateView {
        if self.document is Some {
            self
        } else {
            StateView {
                active: matching(self.all, query),
                position: Position::origin(),
                ..self
            }
        }
    }

    /// The state after filtering by each of `queries` in turn.
    pub open spec fn filtered_by_all(self, queries: Seq<Seq<char>>) -> StateView
        decreases queries.len(),
    {
        if queries.len() == 0 {
            self
        } else {
            self.filtered_by_all(queries.drop_last()).filtered(queries.last())
        }
    }

    /// The state in which a random article is picked: a reset one where the
    /// list holds nothing, else the same.
    pub open spec fn refilled(self) -> StateView {
        if self.active.len() == 0 {
            self.reset()
        } else {
            self
        }
    }

    /// The state after an intent.
    ///
    /// The six movements move, going back closes the open article and a
    /// reset resets. Starting a search resets the list that is on screen.
    /// Opening an article, a command prompt and leaving change nothing by
    /// themselves.
    pub open spec fn applied(self, action: Action) -> StateView {
        match action {
            Action::MoveUp => self.moved_up(),
            Action::MoveDown => self.moved_down(),
            Action::PageUp => self.paged_up(),
            Action::PageDown => self.paged_down(),
            Action::GotoTop => self.at_top(),
            Action::GotoBottom => self.at_bottom(),
            Action::GoBack => self.closed(),
            Action::Reset => self.reset(),
            Action::Search => if self.document is Some {
                self
            } else {
                self.reset()
            },
            _ => self,
        }
    }

    /// What the shell does after an intent.
    ///
    /// An article is fetched only from the list and only where the selection
    /// names one. A search prompt opens only over the list.
    pub open spec fn step(self, action: Action) -> Step {
        match action {
            Action::Quit => Step::Quit,
            Action::EnterArticle => if self.document is None && self.can_open() {
                Step::Fetch
            } else {
                Step::Idle
            },
            Action::Search => if self.document is Some {
                Step::Render
            } else {
                Step::Prompt(PromptKind::Search)
            },
            Action::CommandMode => Step::Prompt(PromptKind::Command),
            Action::NoOp => Step::Idle,
            _ => Step::Render,
        }
    }

    /// The state after a sequence of intents, applied first to last.
    pub open spec fn applied_all(self, actions: Seq<Action>) -> StateView
        decreases actions.len(),
    {
        if actions.len() == 0 {
            self
        } else {
            self.applied_all(actions.drop_last()).applied(actions.last())
        }
    }

    /// The half-open range of rows on screen.
    ///
    /// It is the window of the viewport, except that the blank line which
    /// closes the last paragraph of an article is left out where the window
    /// reaches it.
    pub open spec fn visible_range(self) -> (int, int) {
        let (start, end) = self.position.window(self.height, self.length());
        if self.document is Some && end == self.length() && start < end && ends_blank(self.rows()) {
            (start, end - 1)
        } else {
            (start, end)
        }
    }

    /// The rows on screen.
    pub open spec fn visible(self) -> Seq<Seq<char>> {
        let (start, end) = self.visible_range();
        self.rows().subrange(start, end)
    }
}

/// Every transition keeps the invariants of the state machine.
pub proof fn lemma_transitions_keep_wf(s: StateView, query: Seq<char>)
    requires
        s.wf(),
    ensures
        s.moved_up().wf(),
        s.moved_down().wf(),
        s.paged_up().wf(),
        s.paged_down().wf(),
        s.at_top().wf(),
        s.at_bottom().wf(),
        s.closed().wf(),
        s.reset().wf(),
        s.filtered(query).wf(),
        s.refilled().wf(),
{
    lemma_subsequence_of_itself(s.all);
    lemma_matching_is_subsequence(s.all, query);
}

/// Whatever sequence of intents is applied to a well-formed state, the state
/// is well-formed after every one of them.
pub proof fn lemma_intents_keep_wf(s: StateView, actions: Seq<Action>)
    requires
        s.wf(),
    ensures
        forall|k: int|
            0 <= k <= actions.len() ==> (#[trigger] s.applied_all(actions.take(k))).wf(),
    decreases actions.len(),
{
    assert forall|k: int| 0 <= k <= actions.len() implies (#[trigger] s.applied_all(
        actions.take(k),
    )).wf() by {
        let prefix = actions.take(k);
        if k > 0 {
            lemma_intents_keep_wf(s, prefix.drop_last());
            assert(prefix.drop_last().take(k - 1) == prefix.drop_last());
            lemma_transitions_keep_wf(s.applied_all(prefix.drop_last()), Seq::empty());
        }
    }
}

/// Picking any row of a list that holds an article and opening it on any body
/// puts the article on screen: the selection names the row and the document
/// is the reflowed title of that article, followed by the body. Where the
/// reflow of the title gives a line, as it does whenever it is run, the state
/// is well-formed and the first line of the document is the title line.
pub proof fn lemma_random_article_opens(s: StateView, row: int, paragraphs: Seq<Seq<char>>)
    requires
        s.wf(),
        0 <= row < s.active.len(),
    ensures
        s.refilled() == s,
        s.opened(row, paragraphs).mode() == Mode::Article,
        s.opened(row, paragraphs).position == (Position { selected: row, offset: 0 }),
        s.opened(row, paragraphs).rows() == document_lines(
            s.active[row].title,
            paragraphs,
            s.width as nat,
        ),
        s.opened(row, paragraphs).rows().take(
            wrapped(s.active[row].title, s.width as nat).len() as int,
        ) == wrapped(s.active[row].title, s.width as nat),
        wrapped(s.active[row].title, s.width as nat).len() >= 1 ==> {
            &&& s.opened(row, paragraphs).wf()
            &&& s.opened(row, paragraphs).rows().len() >= 1
            &&& s.opened(row, paragraphs).rows()[0] == title_line(
                s.active[row].title,
                s.width as nat,
            )
        },
{
    let title_lines = wrapped(s.active[row].title, s.width as nat);
    assert(s.opened(row, paragraphs).rows().take(title_lines.len() as int) =~= title_lines);
}

/// Filtering again by the same query changes nothing: the list depends on
/// the full list and the query alone.
pub proof fn lemma_filter_twice(s: StateView, query: Seq<char>)
    ensures
        s.filtered(query).filtered(query) == s.filtered(query),
        s.document is None ==> s.filtered(query).active == matching(s.all, query),
{
}

/// Filtering never touches the full list, whatever the queries.
pub proof fn lemma_filters_keep_all(s: StateView, queries: Seq<Seq<char>>)
    ensures
        s.filtered_by_all(queries).all == s.all,
    decreases queries.len(),
{
    if queries.len() > 0 {
        lemma_filters_keep_all(s, queries.drop_last());
    }
}

/// A reset after any sequence of filters shows the full list again, at its
/// top.
pub proof fn lemma_reset_after_filters(s: StateView, queries: Seq<Seq<char>>)
    ensures
        s.filtered_by_all(queries).reset().active == s.all,
        s.filtered_by_all(queries).reset().position == Position::origin(),
        s.filtered_by_all(queries).reset().mode() == Mode::Select,
{
    lemma_filters_keep_all(s, queries);
}

/// Returns a number below `bound`, drawn with `random_range` from the
/// generator that `rand::rng` hands out. Nothing more is known of it.
#[verifier::external_body]
fn random_index(bound: usize) -> (index: usize)
    requires
        bound > 0,
    ensures
        index < bound,
{
    rand::rng().random_range(0..bound)
}

/// The state of the browser.
#[derive(Debug)]
pub struct State {
    articles: Vec<Article>,
    all_articles: Vec<Article>,
    titles: Vec<String>,
    viewport: Viewport,
    space: Space,
    term_height: usize,
    term_width: usize,
}

impl View for State {
    type V = StateView;

    closed spec fn view(&self) -> StateView {
        StateView {
            all: article_views(self.all_articles@),
            active: article_views(self.articles@),
            position: self.viewport@,
            document: match self.space {
                Space::Listing => None,
                Space::Reading { document } => Some(document@),
            },
            width: self.term_width as int,
            height: self.term_height as int,
        }
    }
}

impl State {
    /// Whether the state is consistent: its model is well-formed and it holds
    /// the row of every article in the list.
    pub closed spec fn wf(&self) -> bool {
        &&& self@.wf()
        &&& line_views(self.titles@) == display_titles(self@.active, self@.width)
    }

    /// A consistent state has a well-formed model.
    pub proof fn lemma_wf(&self)
        requires
            self.wf(),
        ensures
            self@.wf(),
    {
    }

    /// The state at startup: the list of all `articles` at its top, on a
    /// viewport of `term_height` rows of `term_width` columns.
    pub fn new(articles: Vec<Article>, term_width: usize, term_height: usize) -> (state: State)
        requires
            term_width >= 1,
            term_height >= 1,
        ensures
            state.wf(),
            state@ == (StateView {
                all: article_views(articles@),
                active: article_views(articles@),
                position: Position::origin(),
                document: None,
                width: term_width as int,
                height: term_height as int,
            }),
    {
        let all_articles = articles.clone();
        let titles = articles_to_titles(&articles, term_width);
        proof {
            assert(article_views(all_articles@) =~= article_views(articles@));
            lemma_subsequence_of_itself(article_views(articles@));
        }
        State {
            articles,
            all_articles,
            titles,
            viewport: Viewport::new(),
            space: Space::Listing,
            term_height,
            term_width,
        }
    }

    /// The content space on screen.
    pub fn mode(&self) -> (mode: Mode)
        ensures
            mode == self@.mode(),
    {
        match self.space {
            Space::Listing => Mode::Select,
            Space::Reading { .. } => Mode::Article,
        }
    }

    /// The number of rows that the viewport pages through.
    fn length(&self) -> (n: usize)
        requires
            self.wf(),
        ensures
            n == self@.length(),
    {
        match &self.space {
            Space::Listing => self.titles.len(),
            Space::Reading { document } => document.len(),
        }
    }

    /// The rows of the viewport.
    pub fn height(&self) -> (rows: usize)
        ensures
            rows == self@.height,
    {
        self.term_height
    }

    /// The columns of a row.
    pub fn width(&self) -> (columns: usize)
        ensures
            columns == self@.width,
    {
        self.term_width
    }

    /// The selected row of the list.
    pub fn selected_row(&self) -> (row: usize)
        ensures
            row == self@.position.selected,
    {
        self.viewport.selected()
    }

    /// The first row on screen.
    pub fn row_offset(&self) -> (row: usize)
        ensures
            row == self@.position.offset,
    {
        self.viewport.offset()
    }

    /// The number of articles in the list.
    pub fn article_count(&self) -> (n: usize)
        ensures
            n == self@.active.len(),
    {
        self.articles.len()
    }

    /// The article in `row` of the list, if there is one.
    pub fn article(&self, row: usize) -> (found: Option<&Article>)
        ensures
            match found {
                Some(article) => row < self@.active.len() && article@ == self@.active[row as int],
                None => row >= self@.active.len(),
            },
    {
        if row < self.articles.len() {
            Some(&self.articles[row])
        } else {
            None
        }
    }

    /// The article that the selection names, if there is one.
    pub fn selected_article(&self) -> (found: Option<&Article>)
        ensures
            match found {
                Some(article) => {
                    &&& self@.can_open()
                    &&& article@ == self@.active[self@.position.selected]
                },
                None => !self@.can_open(),
            },
    {
        self.article(self.viewport.selected())
    }

    /// Moves one row up: the selection in the list, the window in an article.
    pub fn move_up(&mut self)
        requires
            old(self).wf(),
        ensures
            final(self).wf(),
            final(self)@ == old(self)@.moved_up(),
    {
        let mode = self.mode();
        let length = self.length();
        self.viewport.move_up(mode, self.term_height, length);
    }

    /// Moves one row down: the selection in the list, the window in an
    /// article.
    pub fn move_down(&mut self)
        requires
            old(self).wf(),
        ensures
            final(self).wf(),
            final(self)@ == old(self)@.moved_down(),
    {
        let mode = self.mode();
        let length = self.length();
        self.viewport.move_down(mode, self.term_height, length);
    }

    /// Moves a full window up.
    pub fn page_up(&mut self)
        requires
            old(self).wf(),
        ensures
            final(self).wf(),
            final(self)@ == old(self)@.paged_up(),
    {
        let mode = self.mode();
        let length = self.length();
        self.viewport.page_up(mode, self.term_height, length);
    }

    /// Moves a full window down.
    pub fn page_down(&mut self)
        requires
            old(self).wf(),
        ensures
            final(self).wf(),
            final(self)@ == old(self)@.paged_down(),
    {
        let mode = self.mode();
        let length = self.length();
        self.viewport.page_down(mode, self.term_height, length);
    }

    /// Jumps to the top.
    pub fn go_top(&mut self)
        requires
            old(self).wf(),
        ensures
            final(self).wf(),
            final(self)@ == old(self)@.at_top(),
    {
        let mode = self.mode();
        self.viewport.goto_top(mode);
    }

    /// Jumps to the bottom.
    pub fn go_bottom(&mut self)
        requires
            old(self).wf(),
        ensures
            final(self).wf(),
            final(self)@ == old(self)@.at_bottom(),
    {
        let mode = self.mode();
        let length = self.length();
        self.viewport.goto_bottom(mode, self.term_height, length);
    }

    /// Opens the article in `row` of the list on what fetching its body gave.
    ///
    /// A body puts the document of the article on screen, scrolled to the
    /// top. Its first line is the title line: the title itself where that
    /// fits on a line. A title that fits and an empty body give a document of
    /// that one line. A failure is handed back and leaves the state as it
    /// was.
    pub fn enter_article_at(
        &mut self,
        row: usize,
        fetched: Result<Vec<String>, FetchError>,
    ) -> (outcome: Result<(), FetchError>)
        requires
            old(self).wf(),
            row < old(self)@.active.len(),
        ensures
            final(self).wf(),
            match fetched {
                Ok(paragraphs) => {
                    &&& outcome is Ok
                    &&& final(self)@ == old(self)@.opened(row as int, line_views(paragraphs@))
                    &&& final(self)@.shows_title(
                        old(self)@.active[row as int].title,
                        paragraphs@.len() == 0,
                    )
                },
                Err(error) => outcome == Err::<(), FetchError>(error) && *final(self) == *old(
                    self,
                ),
            },
    {
        match fetched {
            Ok(paragraphs) => {
                let document = Document::compose(
                    self.articles[row].title.as_str(),
                    &paragraphs,
                    self.term_width,
                );
                self.space = Space::Reading { document };
                self.viewport = Viewport::new();
                self.viewport.select(row);
                proof {
                    let title = old(self)@.active[row as int].title;
                    if paragraphs@.len() == 0 && fits_on_one_line(title, old(self)@.width) {
                        assert(self@.rows() == seq![title]);
                        assert(title != crate::document::line_break());
                        assert(self@.visible() =~= seq![title]);
                    }
                }
                Ok(())
            },
            Err(error) => Err(error),
        }
    }

    /// Opens the selected article on what fetching its body gave.
    ///
    /// A body puts the document of the article on screen, scrolled to the
    /// top. Its first line is the title line: the title itself where that
    /// fits on a line. A title that fits and an empty body give a document of
    /// that one line. A failure is handed back and leaves the state as it
    /// was.
    pub fn enter_article(&mut self, fetched: Result<Vec<String>, FetchError>) -> (outcome:
        Result<(), FetchError>)
        requires
            old(self).wf(),
            old(self)@.can_open(),
        ensures
            final(self).wf(),
            match fetched {
                Ok(paragraphs) => {
                    &&& outcome is Ok
                    &&& final(self)@ == old(self)@.opened(
                        old(self)@.position.selected,
                        line_views(paragraphs@),
                    )
                    &&& final(self)@.shows_title(
                        old(self)@.active[old(self)@.position.selected].title,
                        paragraphs@.len() == 0,
                    )
                },
                Err(error) => outcome == Err::<(), FetchError>(error) && *final(self) == *old(
                    self,
                ),
            },
    {
        let row: usize = self.viewport.selected();
        self.enter_article_at(row, fetched)
    }

    /// Closes the open article and shows the list at its top. With no
    /// article open nothing changes.
    pub fn go_back(&mut self)
        requires
            old(self).wf(),
        ensures
            final(self).wf(),
            final(self)@ == old(self)@.closed(),
    {
        match self.mode() {
            Mode::Select => {},
            Mode::Article => {
                self.space = Space::Listing;
                self.viewport = Viewport::new();
            },
        }
    }

    /// Drops any filter and shows the full list at its top.
    pub fn reset(&mut self)
        requires
            old(self).wf(),
        ensures
            final(self).wf(),
            final(self)@ == old(self)@.reset(),
    {
        self.articles = self.all_articles.clone();
        self.titles = articles_to_titles(&self.articles, self.term_width);
        self.space = Space::Listing;
        self.viewport = Viewport::new();
        proof {
            assert(article_views(self.articles@) =~= article_views(self.all_articles@));
            lemma_subsequence_of_itself(self@.all);
        }
    }

    /// Filters the full list by `search_string`, a pattern that is matched
    /// against each title without regard to case, and shows what it keeps at
    /// the top. Returns the rows that are then on screen.
    ///
    /// A string that is no valid pattern keeps nothing; the empty string
    /// keeps everything. While an article is open nothing changes.
    pub fn filter_articles(&mut self, search_string: &str) -> (rows: Vec<String>)
        requires
            old(self).wf(),
        ensures
            final(self).wf(),
            final(self)@ == old(self)@.filtered(search_string@),
            line_views(rows@) == final(self)@.visible(),
            search_string@.len() == 0 && old(self)@.document is None ==> final(self)@.active
                == old(self)@.all,
    {
        match self.mode() {
            Mode::Article => {},
            Mode::Select => {
                let verdicts = match_titles(search_string, &self.all_articles);
                self.articles = keep_matching(&self.all_articles, &verdicts);
                self.titles = articles_to_titles(&self.articles, self.term_width);
                self.viewport = Viewport::new();
                proof {
                    lemma_kept_is_matching(self@.all, search_string@);
                    lemma_matching_is_subsequence(self@.all, search_string@);
                    if search_string@.len() == 0 {
                        lemma_kept_all(self@.all, verdicts@);
                    }
                }
            },
        }
        copy_lines(self.get_subset())
    }

    /// The rows on screen.
    pub fn get_subset(&self) -> (rows: &[String])
        requires
            self.wf(),
        ensures
            line_views(rows@) == self@.visible(),
    {
        match &self.space {
            Space::Listing => {
                let (start, end) = self.viewport.window(self.term_height, self.titles.len());
                let rows = slice_subrange(self.titles.as_slice(), start, end);
                assert(line_views(rows@) =~= self@.visible());
                rows
            },
            Space::Reading { document } => {
                let (start, end) = self.viewport.window(self.term_height, document.len());
                let end: usize = if end == document.len() && start < end && document.ends_blank() {
                    end - 1
                } else {
                    end
                };
                let rows = slice_subrange(document.lines(), start, end);
                assert(line_views(rows@) =~= self@.visible());
                rows
            },
        }
    }

    /// The row of the viewport that holds the selection, while the list is
    /// on screen.
    pub fn get_relative_row(&self) -> (row: usize)
        requires
            self.wf(),
            self@.mode() == Mode::Select,
        ensures
            row == self@.position.relative_selected(),
            row < self@.height,
    {
        self.viewport.relative_selected()
    }

    /// Applies an intent and says what the shell does next.
    pub fn apply(&mut self, action: Action) -> (step: Step)
        requires
            old(self).wf(),
        ensures
            final(self).wf(),
            final(self)@ == old(self)@.applied(action),
            step == old(self)@.step(action),
    {
        match action {
            Action::Quit => Step::Quit,
            Action::MoveUp => {
                self.move_up();
                Step::Render
            },
            Action::MoveDown => {
                self.move_down();
                Step::Render
            },
            Action::PageUp => {
                self.page_up();
                Step::Render
            },
            Action::PageDown => {
                self.page_down();
                Step::Render
            },
            Action::GotoTop => {
                self.go_top();
                Step::Render
            },
            Action::GotoBottom => {
                self.go_bottom();
                Step::Render
            },
            Action::GoBack => {
                self.go_back();
                Step::Render
            },
            Action::Reset => {
                self.reset();
                Step::Render
            },
            Action::EnterArticle => match self.mode() {
                Mode::Select => if self.viewport.selected() < self.articles.len() {
                    Step::Fetch
                } else {
                    Step::Idle
                },
                Mode::Article => Step::Idle,
            },
            Action::Search => match self.mode() {
                Mode::Select => {
                    self.reset();
                    Step::Prompt(PromptKind::Search)
                },
                Mode::Article => Step::Render,
            },
            Action::CommandMode => Step::Prompt(PromptKind::Command),
            Action::NoOp => Step::Idle,
        }
    }

    /// Picks a row of the list at random, for its article to be opened.
    ///
    /// A list that holds nothing is first reset to the full list. `None` is
    /// returned where even that holds nothing.
    pub fn random_article(&mut self) -> (picked: Option<usize>)
        requires
            old(self).wf(),
        ensures
            final(self).wf(),
            final(self)@ == old(self)@.refilled(),
            match picked {
                Some(row) => row < final(self)@.active.len(),
                None => final(self)@.active.len() == 0,
            },
    {
        if self.articles.len() == 0 {
            self.reset();
        }
        if self.articles.len() == 0 {
            None
        } else {
            Some(random_index(self.articles.len()))
        }
    }
}

/// Copies a run of lines.
fn copy_lines(lines: &[String]) -> (copy: Vec<String>)
    ensures
        line_views(copy@) == line_views(lines@),
{
    let mut copy: Vec<String> = Vec::new();
    let mut i: usize = 0;
    while i < lines.len()
        invariant
            i <= lines.len(),
            copy.len() == i,
            forall|k: int| 0 <= k < i ==> (#[trigger] copy[k])@ == lines[k]@,
        decreases lines.len() - i,
    {
        copy.push(lines[i].clone());
        i += 1;
    }
    assert(line_views(copy@) =~= line_views(lines@));
    copy
}

} // verus!
