//! Which minute of the dial is highlighted, and whether its note is open.

use vstd::prelude::*;

verus! {

/// The number of minute slots on the dial.
pub const MINUTE_SLOTS: u32 = 60;

/// A move of the highlight along the dial.
#[derive(Clone, Copy, Debug, PartialEq, Eq)]
pub enum Direction {
    Right,
    Left,
    Up,
    Down,
}

/// By how many slots a move goes round the dial.
pub open spec fn stride(direction: Direction) -> int {
    match direction {
        Direction::Right => 1,
        Direction::Left => -1,
        Direction::Up => 5,
        Direction::Down => -5,
    }
}

/// The slot highlighted after a move: the first slot where none was
/// highlighted, else the slot `stride` further round the dial.
pub open spec fn moved_minute(current: Option<u32>, direction: Direction) -> int {
    match current {
        None => 0,
        Some(m) => (m + stride(direction)) % 60,
    }
}

/// The slot highlighted after each move of `moves`, in turn.
pub open spec fn minute_after(current: Option<u32>, moves: Seq<Direction>) -> Option<u32>
    decreases moves.len(),
{
    if moves.len() == 0 {
        current
    } else {
        minute_after(Some(moved_minute(current, moves[0]) as u32), moves.drop_first())
    }
}

/// What a selection is, with the key of an open note as text.
pub enum SelectionView {
    NoSelection,
    Selected(u32),
    Editing(u32, Seq<char>),
}

/// The state of the highlight. While a note is open the state keeps the key
/// that was derived when it was opened: virtual time may run on meanwhile, and
/// the note goes back under the key it was opened for.
#[derive(Debug)]
pub enum Selection {
    NoSelection,
    Selected(u32),
    Editing(u32, String),
}

impl View for Selection {
    type V = SelectionView;

    open spec fn view(&self) -> SelectionView {
        match self {
            Selection::NoSelection => SelectionView::NoSelection,
            Selection::Selected(m) => SelectionView::Selected(*m),
            Selection::Editing(m, key) => SelectionView::Editing(*m, key@),
        }
    }
}

impl SelectionView {
    /// The highlighted slot, if any.
    pub open spec fn minute(self) -> Option<u32> {
        match self {
            SelectionView::NoSelection => None,
            SelectionView::Selected(m) => Some(m),
            SelectionView::Editing(m, _) => Some(m),
        }
    }

    /// The highlighted slot is on the dial.
    pub open spec fn wf(self) -> bool {
        match self.minute() {
            None => true,
            Some(m) => m < 60,
        }
    }

    /// The state after a move. While a note is open the highlight stays.
    pub open spec fn moved(self, direction: Direction) -> SelectionView {
        match self {
            SelectionView::Editing(_, _) => self,
            _ => SelectionView::Selected(moved_minute(self.minute(), direction) as u32),
        }
    }

    /// The state after a confirm that derived `key`: the note of the
    /// highlighted slot is open. Without a highlight, and while a note is open,
    /// nothing changes.
    pub open spec fn opened(self, key: Seq<char>) -> SelectionView {
        match self {
            SelectionView::Selected(m) => SelectionView::Editing(m, key),
            _ => self,
        }
    }

    /// The state after a cancel: the open note is closed, its slot stays
    /// highlighted.
    pub open spec fn closed(self) -> SelectionView {
        match self {
            SelectionView::Editing(m, _) => SelectionView::Selected(m),
            _ => self,
        }
    }

    /// The key of the open note, if one is open.
    pub open spec fn open_key(self) -> Option<Seq<char>> {
        match self {
            SelectionView::Editing(_, key) => Some(key),
            _ => None,
        }
    }
}

/// The slot that a move leads to.
pub fn move_minute(current: Option<u32>, direction: Direction) -> (next: u32)
    requires
        current matches Some(m) ==> m < MINUTE_SLOTS,
    ensures
        next == moved_minute(current, direction),
        next < MINUTE_SLOTS,
{
    match current {
        None => 0,
        Some(m) => match direction {
            Direction::Right => (m + 1) % 60,
            Direction::Left => if m == 0 {
                59
            } else {
                m - 1
            },
            Direction::Up => (m + 5) % 60,
            Direction::Down => if m < 5 {
                m + 55
            } else {
                m - 5
            },
        },
    }
}

impl Selection {
    /// The highlighted slot is on the dial.
    pub open spec fn wf(&self) -> bool {
        self@.wf()
    }

    /// The highlighted slot, if any.
    pub fn minute(&self) -> (minute: Option<u32>)
        ensures
            minute == self@.minute(),
    {
        match self {
            Selection::NoSelection => None,
            Selection::Selected(m) => Some(*m),
            Selection::Editing(m, _) => Some(*m),
        }
    }

    /// Whether a note is open.
    pub fn is_editing(&self) -> (editing: bool)
        ensures
            editing == (self@ is Editing),
    {
        match self {
            Selection::Editing(_, _) => true,
            _ => false,
        }
    }

    /// Moves the highlight, unless a note is open.
    pub fn moved(self, direction: Direction) -> (next: Selection)
        requires
            self.wf(),
        ensures
            next@ == self@.moved(direction),
            next.wf(),
    {
        match self {
            Selection::NoSelection => Selection::Selected(move_minute(None, direction)),
            Selection::Selected(m) => Selection::Selected(move_minute(Some(m), direction)),
            Selection::Editing(m, key) => Selection::Editing(m, key),
        }
    }

    /// Opens the note of the highlighted slot under `key`.
    pub fn begin_edit(self, key: String) -> (next: Selection)
        ensures
            next@ == self@.opened(key@),
            self.wf() ==> next.wf(),
    {
        match self {
            Selection::Selected(m) => Selection::Editing(m, key),
            Selection::NoSelection => Selection::NoSelection,
            Selection::Editing(m, held) => Selection::Editing(m, held),
        }
    }

    /// Closes the open note and hands back the key it was opened under.
    pub fn end_edit(self) -> (closed: (Selection, Option<String>))
        ensures
            closed.0@ == self@.closed(),
            crate::notes::text_of(closed.1) == self@.open_key(),
            self.wf() ==> closed.0.wf(),
    {
        match self {
            Selection::Editing(m, key) => (Selection::Selected(m), Some(key)),
            Selection::Selected(m) => (Selection::Selected(m), None),
            Selection::NoSelection => (Selection::NoSelection, None),
        }
    }
}

/// A move leads to a slot on the dial, wherever it starts.
pub proof fn lemma_move_stays_on_dial(current: Option<u32>, direction: Direction)
    ensures
        0 <= moved_minute(current, direction) < 60,
{
}

/// The highlight stays on the dial under any run of moves.
pub proof fn lemma_moves_stay_on_dial(current: Option<u32>, moves: Seq<Direction>)
    requires
        current matches Some(m) ==> m < 60,
    ensures
        minute_after(current, moves) matches Some(m) ==> m < 60,
    decreases moves.len(),
{
    if moves.len() > 0 {
        lemma_move_stays_on_dial(current, moves[0]);
        lemma_moves_stay_on_dial(
            Some(moved_minute(current, moves[0]) as u32),
            moves.drop_first(),
        );
    }
}

/// A move and the move opposite to it cancel: right then left, left then
/// right, up then down and down then up each lead back to the slot they
/// started from.
pub proof fn lemma_opposite_moves_cancel(minute: u32)
    requires
        minute < 60,
    ensures
        moved_minute(Some(moved_minute(Some(minute), Direction::Right) as u32), Direction::Left)
            == minute,
        moved_minute(Some(moved_minute(Some(minute), Direction::Left) as u32), Direction::Right)
            == minute,
        moved_minute(Some(moved_minute(Some(minute), Direction::Up) as u32), Direction::Down)
            == minute,
        moved_minute(Some(moved_minute(Some(minute), Direction::Down) as u32), Direction::Up)
            == minute,
{
}

} // verus!
