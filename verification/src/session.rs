//! The state of the whole clock and what each control does to it.
//!
//! The surrounding program reads the keys, keeps the text being edited and
//! writes the notes out; here is decided what each control changes.

use vstd::prelude::*;
use crate::clock::VirtualClock;
use crate::note_key::{key_text, note_key, HourStamp};
use crate::notes::{looked_up, saved, NoteMap, NoteStore};
use crate::selection::{Direction, Selection, SelectionView};

verus! {

/// A control that the clock reacts to. While a note is open only `Cancel`
/// counts: every other key belongs to the text being edited.
#[derive(Clone, Copy, Debug, PartialEq, Eq)]
pub enum Control {
    Quit,
    Faster,
    Slower,
    Move(Direction),
    Confirm,
    Cancel,
}

/// What the surrounding program has to do after a control.
#[derive(Debug)]
pub enum Outcome {
    /// Nothing.
    Idle,
    /// Show the editor, filled with this text.
    EditorOpened(String),
    /// Write the notes out: one was saved.
    NoteSaved,
}

/// The clock, its notes and its highlight.
pub struct Session {
    pub clock: VirtualClock,
    pub notes: NoteStore,
    pub selection: Selection,
    pub should_quit: bool,
}

/// The text that the editor starts with: the note under `key`, or nothing.
pub open spec fn initial_text(notes: NoteMap, key: Seq<char>) -> Seq<char> {
    match looked_up(notes, key) {
        Some(text) => text,
        None => Seq::empty(),
    }
}

impl Session {
    /// The notes and the highlight are well formed.
    pub open spec fn wf(&self) -> bool {
        self.notes.wf() && self.selection.wf()
    }

    /// The clock as it should be after `control`.
    pub open spec fn clock_after(&self, control: Control) -> VirtualClock {
        if self.selection@ is Editing {
            self.clock
        } else {
            match control {
                Control::Faster => self.clock.sped_up(),
                Control::Slower => self.clock.slowed_down(),
                _ => self.clock,
            }
        }
    }

    /// The highlight as it should be after `control`, where a confirm derives
    /// its key from `stamp`.
    pub open spec fn selection_after(&self, control: Control, stamp: HourStamp) -> SelectionView {
        match self.selection@ {
            SelectionView::Editing(_, _) => match control {
                Control::Cancel => self.selection@.closed(),
                _ => self.selection@,
            },
            SelectionView::Selected(m) => match control {
                Control::Move(direction) => self.selection@.moved(direction),
                Control::Confirm => self.selection@.opened(key_text(stamp, m)),
                _ => self.selection@,
            },
            SelectionView::NoSelection => match control {
                Control::Move(direction) => self.selection@.moved(direction),
                _ => self.selection@,
            },
        }
    }

    /// The notes as they should be after `control`: a cancel saves `buffer`
    /// under the key that the open note was opened with, changed or not.
    pub open spec fn notes_after(&self, control: Control, buffer: Seq<char>) -> NoteMap {
        match (self.selection@, control) {
            (SelectionView::Editing(_, key), Control::Cancel) => saved(self.notes@, key, buffer),
            _ => self.notes@,
        }
    }

    /// Whether the loop should end after `control`.
    pub open spec fn quit_after(&self, control: Control) -> bool {
        self.should_quit || (!(self.selection@ is Editing) && control == Control::Quit)
    }

    /// A session that starts at the real instant `now` with the given notes
    /// and no highlight.
    pub fn new(now: i64, notes: NoteStore) -> (session: Session)
        requires
            notes.wf(),
        ensures
            session.wf(),
            session.clock.virtual_micros == now,
            session.clock.last_real_micros == now,
            session.clock.multiplier_tenths == 10,
            session.notes@ == notes@,
            session.selection@ == SelectionView::NoSelection,
            !session.should_quit,
    {
        Session {
            clock: VirtualClock::new(now),
            notes,
            selection: Selection::NoSelection,
            should_quit: false,
        }
    }

    /// One logic tick at the real instant `real_now`.
    pub fn tick(&mut self, real_now: i64)
        ensures
            final(self).clock == old(self).clock.after_tick(real_now),
            final(self).notes == old(self).notes,
            final(self).selection == old(self).selection,
            final(self).should_quit == old(self).should_quit,
    {
        self.clock.advance(real_now);
    }

    /// Reacts to one control. `stamp` is the virtual date and hour now, and
    /// `buffer` the text in the editor. A confirm opens the note of the
    /// highlighted slot under the key of this hour; a cancel saves the text under
    /// that same key, whatever hour virtual time has reached by then.
    pub fn handle(self, control: Control, stamp: HourStamp, buffer: String) -> (next: (
        Session,
        Outcome,
    ))
        requires
            self.wf(),
        ensures
            next.0.wf(),
            next.0.clock == self.clock_after(control),
            next.0.selection@ == self.selection_after(control, stamp),
            next.0.notes@ == self.notes_after(control, buffer@),
            next.0.should_quit == self.quit_after(control),
            match (self.selection@, control) {
                (SelectionView::Editing(_, _), Control::Cancel) => next.1 is NoteSaved,
                (SelectionView::Selected(m), Control::Confirm) => next.1 matches Outcome::EditorOpened(
                    text,
                ) && text@ == initial_text(self.notes@, key_text(stamp, m)),
                _ => next.1 is Idle,
            },
    {
        let Session { clock, notes, selection, should_quit } = self;
        let mut clock = clock;
        let mut notes = notes;
        if selection.is_editing() {
            match control {
                Control::Cancel => {
                    let (selection, key) = selection.end_edit();
                    match key {
                        Some(key) => {
                            notes.save(key, buffer);
                        },
                        None => {},
                    }
                    (Session { clock, notes, selection, should_quit }, Outcome::NoteSaved)
                },
                _ => (Session { clock, notes, selection, should_quit }, Outcome::Idle),
            }
        } else {
            match control {
                Control::Quit => (
                    Session { clock, notes, selection, should_quit: true },
                    Outcome::Idle,
                ),
                Control::Faster => {
                    clock.increase();
                    (Session { clock, notes, selection, should_quit }, Outcome::Idle)
                },
                Control::Slower => {
                    clock.decrease();
                    (Session { clock, notes, selection, should_quit }, Outcome::Idle)
                },
                Control::Move(direction) => {
                    let selection = selection.moved(direction);
                    (Session { clock, notes, selection, should_quit }, Outcome::Idle)
                },
                Control::Confirm => match selection.minute() {
                    Some(m) => {
                        let key = note_key(stamp, m);
                        let text = match notes.lookup(&key) {
                            Some(text) => text,
                            None => String::new(),
                        };
                        let selection = selection.begin_edit(key);
                        (Session { clock, notes, selection, should_quit }, Outcome::EditorOpened(text))
                    },
                    None => (Session { clock, notes, selection, should_quit }, Outcome::Idle),
                },
                Control::Cancel => (Session { clock, notes, selection, should_quit }, Outcome::Idle),
            }
        }
    }
}

} // verus!
