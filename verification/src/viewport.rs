//! The viewport engine: a selected row and a scroll offset over a sequence
//! that is known only by its length, seen through a window of fixed height.

use crate::input::Action;
use crate::state::Mode;
use vstd::prelude::*;

verus! {

/// The largest scroll offset that still fills a window of `height` rows from
/// a sequence of `length` rows; zero when everything fits.
pub open spec fn max_offset(height: int, length: int) -> int {
    if length > height {
        length - height
    } else {
        0
    }
}

/// The index of the last row of a sequence of `length` rows; zero when the
/// sequence is empty.
pub open spec fn last_row(length: int) -> int {
    if length > 0 {
        length - 1
    } else {
        0
    }
}

/// The mathematical model of a [`Viewport`].
pub struct Position {
    pub selected: int,
    pub offset: int,
}

impl Position {
    /// The position at the start of a sequence.
    pub open spec fn origin() -> Position {
        Position { selected: 0, offset: 0 }
    }

    /// The invariants of a viewport of `height` rows over `length` rows.
    ///
    /// The offset never scrolls past the last full window. While a list is on
    /// screen the selected row exists (or is zero on an empty list) and lies
    /// inside the window.
    pub open spec fn valid(self, mode: Mode, height: int, length: int) -> bool {
        &&& height >= 1
        &&& length >= 0
        &&& 0 <= self.selected
        &&& 0 <= self.offset <= max_offset(height, length)
        &&& mode == Mode::Select ==> {
            &&& self.selected <= last_row(length)
            &&& self.offset <= self.selected <= self.offset + height - 1
        }
    }

    /// One row up. In a list the selection moves and drags the window along
    /// when it leaves it through the top; in an article the window scrolls.
    pub open spec fn moved_up(self, mode: Mode) -> Position {
        match mode {
            Mode::Select => if self.selected == 0 {
                self
            } else {
                Position {
                    selected: self.selected - 1,
                    offset: if self.selected == self.offset {
                        self.offset - 1
                    } else {
                        self.offset
                    },
                }
            },
            Mode::Article => if self.offset == 0 {
                self
            } else {
                Position { selected: self.selected, offset: self.offset - 1 }
            },
        }
    }

    /// One row down. In a list the selection stops at the last row and drags
    /// the window along when it leaves it through the bottom; in an article
    /// the window scrolls until it shows the last row.
    pub open spec fn moved_down(self, mode: Mode, height: int, length: int) -> Position {
        match mode {
            Mode::Select => if self.selected + 1 >= length {
                self
            } else {
                Position {
                    selected: self.selected + 1,
                    offset: if self.selected + 1 - self.offset + 1 > height {
                        self.offset + 1
                    } else {
                        self.offset
                    },
                }
            },
            Mode::Article => if self.offset + height >= length {
                self
            } else {
                Position { selected: self.selected, offset: self.offset + 1 }
            },
        }
    }

    /// A full window up: selection and offset both move back by `height`,
    /// each stopping at zero. In an article only the offset moves.
    pub open spec fn paged_up(self, mode: Mode, height: int) -> Position {
        let offset = if self.offset > height {
            self.offset - height
        } else {
            0
        };
        match mode {
            Mode::Select => Position {
                selected: if self.selected > height {
                    self.selected - height
                } else {
                    0
                },
                offset,
            },
            Mode::Article => Position { selected: self.selected, offset },
        }
    }

    /// A full window down: selection and offset both move on by `height`,
    /// the selection stopping at the last row and the offset at the last full
    /// window. In an article only the offset moves.
    pub open spec fn paged_down(self, mode: Mode, height: int, length: int) -> Position {
        let offset = if self.offset + height < max_offset(height, length) {
            self.offset + height
        } else {
            max_offset(height, length)
        };
        match mode {
            Mode::Select => Position {
                selected: if self.selected + height < last_row(length) {
                    self.selected + height
                } else {
                    last_row(length)
                },
                offset,
            },
            Mode::Article => Position { selected: self.selected, offset },
        }
    }

    /// The start of the sequence. An article has no selected row, so there
    /// only the offset returns to zero.
    pub open spec fn at_top(self, mode: Mode) -> Position {
        match mode {
            Mode::Select => Position::origin(),
            Mode::Article => Position { selected: self.selected, offset: 0 },
        }
    }

    /// The end of the sequence: the last full window and, in a list, the last
    /// row.
    pub open spec fn at_bottom(self, mode: Mode, height: int, length: int) -> Position {
        match mode {
            Mode::Select => Position {
                selected: last_row(length),
                offset: max_offset(height, length),
            },
            Mode::Article => Position {
                selected: self.selected,
                offset: max_offset(height, length),
            },
        }
    }

    /// The half-open range of rows that the window shows.
    pub open spec fn window(self, height: int, length: int) -> (int, int) {
        (
            self.offset,
            if self.offset + height < length {
                self.offset + height
            } else {
                length
            },
        )
    }

    /// The row of the window that holds the selection.
    pub open spec fn relative_selected(self) -> int {
        self.selected - self.offset
    }

    /// The position after one intent. Only the six movements change it.
    pub open spec fn after(self, action: Action, mode: Mode, height: int, length: int) -> Position {
        match action {
            Action::MoveUp => self.moved_up(mode),
            Action::MoveDown => self.moved_down(mode, height, length),
            Action::PageUp => self.paged_up(mode, height),
            Action::PageDown => self.paged_down(mode, height, length),
            Action::GotoTop => self.at_top(mode),
            Action::GotoBottom => self.at_bottom(mode, height, length),
            _ => self,
        }
    }

    /// The position after a sequence of intents, applied first to last.
    pub open spec fn after_all(
        self,
        actions: Seq<Action>,
        mode: Mode,
        height: int,
        length: int,
    ) -> Position
        decreases actions.len(),
    {
        if actions.len() == 0 {
            self
        } else {
            self.after_all(actions.drop_last(), mode, height, length).after(
                actions.last(),
                mode,
                height,
                length,
            )
        }
    }
}

/// A single movement keeps a valid position valid.
pub proof fn lemma_move_keeps_valid(
    p: Position,
    action: Action,
    mode: Mode,
    height: int,
    length: int,
)
    requires
        p.valid(mode, height, length),
    ensures
        p.after(action, mode, height, length).valid(mode, height, length),
{
}

/// Whatever sequence of movements is applied to a valid position, the
/// position is valid after every one of them.
pub proof fn lemma_moves_keep_valid(
    p: Position,
    actions: Seq<Action>,
    mode: Mode,
    height: int,
    length: int,
)
    requires
        p.valid(mode, height, length),
    ensures
        forall|k: int|
            0 <= k <= actions.len() ==> (#[trigger] p.after_all(
                actions.take(k),
                mode,
                height,
                length,
            )).valid(mode, height, length),
    decreases actions.len(),
{
    assert forall|k: int| 0 <= k <= actions.len() implies (#[trigger] p.after_all(
        actions.take(k),
        mode,
        height,
        length,
    )).valid(mode, height, length) by {
        let prefix = actions.take(k);
        if k > 0 {
            lemma_moves_keep_valid(p, prefix.drop_last(), mode, height, length);
            assert(prefix.drop_last().take(k - 1) == prefix.drop_last());
            lemma_move_keeps_valid(
                p.after_all(prefix.drop_last(), mode, height, length),
                prefix.last(),
                mode,
                height,
                length,
            );
        }
    }
}

/// Jumping to the top, to the bottom and to the top again ends at the top,
/// and doing so a second time changes nothing.
pub proof fn lemma_top_bottom_top(p: Position, mode: Mode, height: int, length: int)
    ensures
        p.at_top(mode).at_bottom(mode, height, length).at_top(mode) == p.at_top(mode),
        p.at_top(mode).at_bottom(mode, height, length).at_top(mode).at_top(mode).at_bottom(
            mode,
            height,
            length,
        ).at_top(mode) == p.at_top(mode).at_bottom(mode, height, length).at_top(mode),
{
}

/// The scalar navigation state: which row is selected and which row is the
/// first one visible.
#[derive(Clone, Copy, Debug)]
pub struct Viewport {
    selected: usize,
    offset: usize,
}

impl View for Viewport {
    type V = Position;

    closed spec fn view(&self) -> Position {
        Position { selected: self.selected as int, offset: self.offset as int }
    }
}

impl Viewport {
    /// A viewport at the start of its sequence.
    pub fn new() -> (v: Viewport)
        ensures
            v@ == Position::origin(),
    {
        Viewport { selected: 0, offset: 0 }
    }

    /// The selected row.
    pub fn selected(&self) -> (row: usize)
        ensures
            row == self@.selected,
    {
        self.selected
    }

    /// The first visible row.
    pub fn offset(&self) -> (row: usize)
        ensures
            row == self@.offset,
    {
        self.offset
    }

    /// Names `row` as the selected one and leaves the offset as it is.
    pub fn select(&mut self, row: usize)
        ensures
            final(self)@ == (Position { selected: row as int, offset: old(self)@.offset }),
    {
        self.selected = row;
    }

    /// Moves one row up.
    pub fn move_up(&mut self, mode: Mode, height: usize, length: usize)
        requires
            old(self)@.valid(mode, height as int, length as int),
        ensures
            final(self)@ == old(self)@.moved_up(mode),
            final(self)@.valid(mode, height as int, length as int),
    {
        match mode {
            Mode::Select => {
                if self.selected == 0 {
                    return ;
                }
                self.selected -= 1;
                if self.selected + 1 == self.offset {
                    self.offset -= 1;
                }
            },
            Mode::Article => {
                if self.offset == 0 {
                    return ;
                }
                self.offset -= 1;
            },
        }
    }

    /// Moves one row down.
    pub fn move_down(&mut self, mode: Mode, height: usize, length: usize)
        requires
            old(self)@.valid(mode, height as int, length as int),
        ensures
            final(self)@ == old(self)@.moved_down(mode, height as int, length as int),
            final(self)@.valid(mode, height as int, length as int),
    {
        match mode {
            Mode::Select => {
                if length == 0 || self.selected >= length - 1 {
                    return ;
                }
                self.selected += 1;
                if self.selected - self.offset >= height {
                    self.offset += 1;
                }
            },
            Mode::Article => {
                if height >= length || self.offset >= length - height {
                    return ;
                }
                self.offset += 1;
            },
        }
    }

    /// Moves a full window up.
    pub fn page_up(&mut self, mode: Mode, height: usize, length: usize)
        requires
            old(self)@.valid(mode, height as int, length as int),
        ensures
            final(self)@ == old(self)@.paged_up(mode, height as int),
            final(self)@.valid(mode, height as int, length as int),
    {
        self.offset = self.offset.saturating_sub(height);
        match mode {
            Mode::Select => {
                self.selected = self.selected.saturating_sub(height);
            },
            Mode::Article => {},
        }
    }

    /// Moves a full window down.
    pub fn page_down(&mut self, mode: Mode, height: usize, length: usize)
        requires
            old(self)@.valid(mode, height as int, length as int),
        ensures
            final(self)@ == old(self)@.paged_down(mode, height as int, length as int),
            final(self)@.valid(mode, height as int, length as int),
    {
        let bottom: usize = length.saturating_sub(height);
        self.offset = if height < bottom - self.offset {
            self.offset + height
        } else {
            bottom
        };
        match mode {
            Mode::Select => {
                let last: usize = length.saturating_sub(1);
                self.selected = if height < last - self.selected {
                    self.selected + height
                } else {
                    last
                };
            },
            Mode::Article => {},
        }
    }

    /// Jumps to the start of the sequence.
    pub fn goto_top(&mut self, mode: Mode)
        ensures
            final(self)@ == old(self)@.at_top(mode),
            forall|height: int, length: int|
                height >= 1 && length >= 0 ==> #[trigger] final(self)@.valid(
                    mode,
                    height,
                    length,
                ),
    {
        self.offset = 0;
        match mode {
            Mode::Select => {
                self.selected = 0;
            },
            Mode::Article => {},
        }
    }

    /// Jumps to the end of the sequence. A sequence shorter than the window
    /// leaves the offset at zero.
    pub fn goto_bottom(&mut self, mode: Mode, height: usize, length: usize)
        ensures
            final(self)@ == old(self)@.at_bottom(mode, height as int, length as int),
            height >= 1 ==> final(self)@.valid(mode, height as int, length as int),
    {
        self.offset = length.saturating_sub(height);
        match mode {
            Mode::Select => {
                self.selected = length.saturating_sub(1);
            },
            Mode::Article => {},
        }
    }

    /// The half-open range of rows that the window shows.
    pub fn window(&self, height: usize, length: usize) -> (range: (usize, usize))
        requires
            self@.offset <= length,
        ensures
            (range.0 as int, range.1 as int) == self@.window(height as int, length as int),
            range.0 <= range.1 <= length,
    {
        let end: usize = if height < length - self.offset {
            self.offset + height
        } else {
            length
        };
        (self.offset, end)
    }

    /// The row of the window that holds the selection.
    pub fn relative_selected(&self) -> (row: usize)
        requires
            self@.offset <= self@.selected,
        ensures
            row == self@.relative_selected(),
    {
        self.selected - self.offset
    }
}

} // verus!
