//! The one-line prompt of the status row, in which a search or a command is
//! typed, and what each key typed there does to the browser.

use crate::input::Key;
use crate::state::{State, StateView};
use crate::util::{line_views, same_text};
use vstd::prelude::*;

verus! {

/// What a prompt is for.
#[derive(Clone, Copy, Debug, PartialEq, Eq, Structural)]
pub enum PromptKind {
    /// A search, which filters the list while it is typed.
    Search,
    /// A command, which is run when Enter ends it.
    Command,
}

/// What a key does to a prompt.
#[derive(Clone, Copy, Debug, PartialEq, Eq, Structural)]
pub enum PromptEvent {
    /// Esc: the prompt is given up.
    Cancelled,
    /// Backspace in an empty prompt: the prompt is left.
    Closed,
    /// Enter: the input is handed in.
    Submitted,
    /// Any other key: the prompt stays open, its input changed or not.
    Edited,
}

/// What a command asks for.
#[derive(Clone, Copy, Debug, PartialEq, Eq, Structural)]
pub enum Command {
    /// Open an article picked at random.
    Random,
    /// Drop the filter and show the full list.
    Reset,
    /// Nothing that is known.
    Invalid,
}

/// What the shell around the browser does after a key in a prompt.
#[derive(Debug)]
pub enum PromptStep {
    /// Go on prompting; nothing new is drawn.
    Continue,
    /// Go on prompting and draw these rows of the list, the first one
    /// highlighted.
    Redraw(Vec<String>),
    /// End the prompt and clear the status row.
    Clear,
    /// End the prompt.
    Leave,
    /// End the prompt and open an article picked at random.
    OpenRandom,
    /// End the prompt and show this complaint about the command.
    Reject(String),
}

/// The command that `text` spells.
pub open spec fn command_of(text: Seq<char>) -> Command {
    if text == "random"@ {
        Command::Random
    } else if text == "reset"@ || text == "noh"@ {
        Command::Reset
    } else {
        Command::Invalid
    }
}

/// The complaint about `text` as a command.
pub open spec fn complaint(text: Seq<char>) -> Seq<char> {
    text + " is not a valid command!"@
}

/// Reads `text` as a command.
pub fn parse_command(text: &str) -> (command: Command)
    ensures
        command == command_of(text@),
{
    if same_text(text, "random") {
        Command::Random
    } else if same_text(text, "reset") || same_text(text, "noh") {
        Command::Reset
    } else {
        Command::Invalid
    }
}

/// Appends `c` to `text` with `String::push`.
#[verifier::external_body]
fn push_char(text: &mut String, c: char)
    ensures
        final(text)@ == old(text)@.push(c),
{
    text.push(c)
}

/// Takes the last character off `text` with `String::pop`, which hands it
/// out, or `None` where the text is empty.
#[verifier::external_body]
fn pop_char(text: &mut String) -> (last: Option<char>)
    ensures
        match last {
            Some(c) => old(text)@.len() > 0 && c == old(text)@.last() && final(text)@ == old(
                text,
            )@.drop_last(),
            None => old(text)@.len() == 0 && final(text)@ == old(text)@,
        },
{
    text.pop()
}

/// The mathematical model of a [`Prompt`].
pub struct PromptView {
    pub kind: PromptKind,
    pub input: Seq<char>,
}

impl PromptView {
    /// The character that the status row shows before the input.
    pub open spec fn starting_char(self) -> char {
        match self.kind {
            PromptKind::Search => '/',
            PromptKind::Command => ':',
        }
    }

    /// The status row.
    pub open spec fn status_line(self) -> Seq<char> {
        seq![self.starting_char()] + self.input
    }

    /// What `key` does to the prompt.
    pub open spec fn event(self, key: Key) -> PromptEvent {
        match key {
            Key::Esc => PromptEvent::Cancelled,
            Key::Backspace => if self.input.len() == 0 {
                PromptEvent::Closed
            } else {
                PromptEvent::Edited
            },
            Key::Char(c) => if c == '\n' {
                PromptEvent::Submitted
            } else {
                PromptEvent::Edited
            },
            _ => PromptEvent::Edited,
        }
    }

    /// The prompt after `key`: a character is appended, Backspace takes the
    /// last one off, and no other key changes the input.
    pub open spec fn pressed(self, key: Key) -> PromptView {
        match key {
            Key::Char(c) => if c == '\n' {
                self
            } else {
                PromptView { input: self.input.push(c), ..self }
            },
            Key::Backspace => if self.input.len() == 0 {
                self
            } else {
                PromptView { input: self.input.drop_last(), ..self }
            },
            _ => self,
        }
    }

    /// The browser after `key` was typed into the prompt.
    ///
    /// Giving the prompt up resets the browser. A search filters the list by
    /// the input after every key that leaves the prompt open. A command is
    /// run when it is handed in, and only a reset changes the browser then.
    pub open spec fn browser_after(self, key: Key, browser: StateView) -> StateView {
        match self.event(key) {
            PromptEvent::Cancelled => browser.reset(),
            PromptEvent::Closed => browser,
            PromptEvent::Submitted => if self.kind == PromptKind::Command && command_of(self.input)
                == Command::Reset {
                browser.reset()
            } else {
                browser
            },
            PromptEvent::Edited => if self.kind == PromptKind::Search {
                browser.filtered(self.pressed(key).input)
            } else {
                browser
            },
        }
    }
}

/// The text typed into the status row.
#[derive(Debug)]
pub struct Prompt {
    kind: PromptKind,
    input: String,
}

impl View for Prompt {
    type V = PromptView;

    closed spec fn view(&self) -> PromptView {
        PromptView { kind: self.kind, input: self.input@ }
    }
}

impl Prompt {
    /// An empty prompt.
    pub fn new(kind: PromptKind) -> (prompt: Prompt)
        ensures
            prompt@ == (PromptView { kind, input: Seq::empty() }),
    {
        Prompt { kind, input: String::new() }
    }

    /// What the prompt is for.
    pub fn kind(&self) -> (kind: PromptKind)
        ensures
            kind == self@.kind,
    {
        self.kind
    }

    /// What was typed so far.
    pub fn input(&self) -> (text: &str)
        ensures
            text@ == self@.input,
    {
        self.input.as_str()
    }

    /// The status row: the starting character, then what was typed.
    pub fn status_line(&self) -> (line: String)
        ensures
            line@ == self@.status_line(),
    {
        proof {
            reveal_strlit("/");
            reveal_strlit(":");
            assert("/"@ =~= seq!['/']);
            assert(":"@ =~= seq![':']);
        }
        let mut line = match self.kind {
            PromptKind::Search => String::from_str("/"),
            PromptKind::Command => String::from_str(":"),
        };
        line.append(self.input.as_str());
        line
    }

    /// Takes one key and says what it did.
    pub fn press(&mut self, key: Key) -> (event: PromptEvent)
        ensures
            event == old(self)@.event(key),
            final(self)@ == old(self)@.pressed(key),
    {
        match key {
            Key::Esc => PromptEvent::Cancelled,
            Key::Backspace => {
                match pop_char(&mut self.input) {
                    Some(_) => PromptEvent::Edited,
                    None => PromptEvent::Closed,
                }
            },
            Key::Char(c) => {
                if c == '\n' {
                    PromptEvent::Submitted
                } else {
                    push_char(&mut self.input, c);
                    PromptEvent::Edited
                }
            },
            _ => PromptEvent::Edited,
        }
    }

    /// Takes one key, lets it act on the browser, and says what the shell
    /// does next.
    pub fn handle(&mut self, key: Key, browser: &mut State) -> (step: PromptStep)
        requires
            old(browser).wf(),
        ensures
            final(browser).wf(),
            final(self)@ == old(self)@.pressed(key),
            final(browser)@ == old(self)@.browser_after(key, old(browser)@),
            match step {
                PromptStep::Continue => old(self)@.event(key) == PromptEvent::Edited && old(
                    self,
                )@.kind == PromptKind::Command,
                PromptStep::Redraw(rows) => old(self)@.event(key) == PromptEvent::Edited && old(
                    self,
                )@.kind == PromptKind::Search && line_views(rows@) == final(browser)@.visible(),
                PromptStep::Clear => old(self)@.event(key) == PromptEvent::Cancelled || old(
                    self,
                )@.event(key) == PromptEvent::Closed,
                PromptStep::Leave => old(self)@.event(key) == PromptEvent::Submitted && (old(
                    self,
                )@.kind == PromptKind::Search || command_of(old(self)@.input) == Command::Reset),
                PromptStep::OpenRandom => old(self)@.event(key) == PromptEvent::Submitted && old(
                    self,
                )@.kind == PromptKind::Command && command_of(old(self)@.input) == Command::Random,
                PromptStep::Reject(message) => old(self)@.event(key) == PromptEvent::Submitted
                    && old(self)@.kind == PromptKind::Command && command_of(old(self)@.input)
                    == Command::Invalid && message@ == complaint(old(self)@.input),
            },
    {
        match self.press(key) {
            PromptEvent::Cancelled => {
                browser.reset();
                PromptStep::Clear
            },
            PromptEvent::Closed => PromptStep::Clear,
            PromptEvent::Submitted => match self.kind {
                PromptKind::Search => PromptStep::Leave,
                PromptKind::Command => match parse_command(self.input.as_str()) {
                    Command::Random => PromptStep::OpenRandom,
                    Command::Reset => {
                        browser.reset();
                        PromptStep::Leave
                    },
                    Command::Invalid => {
                        let mut message = self.input.clone();
                        message.append(" is not a valid command!");
                        PromptStep::Reject(message)
                    },
                },
            },
            PromptEvent::Edited => match self.kind {
                PromptKind::Search => PromptStep::Redraw(
                    browser.filter_articles(self.input.as_str()),
                ),
                PromptKind::Command => PromptStep::Continue,
            },
        }
    }
}

} // verus!
