//! Interpretation of one frame's input: the pointer as it is sampled at the
//! start of the frame, then the discrete events in the order they arrived.

use vstd::prelude::*;
use crate::config::{
    GOL_CELL_H, GOL_CELL_W, GOL_COLS, GOL_MEMORY_SIZE, GOL_ROWS, SCREEN_SCALE,
};
use crate::mode::{CursorIcon, GameMode};
use crate::session::GameOfLife;

verus! {

/// The pointer as sampled once in a frame: its position in window pixels,
/// counted from the top left corner of the window, and whether the primary
/// (left) and secondary (right) buttons are held.
#[derive(Clone, Copy, Debug, PartialEq, Eq, Structural)]
pub struct PointerState {
    pub x: u32,
    pub y: u32,
    pub left: bool,
    pub right: bool,
}

/// The keys the session tells apart.
#[derive(Clone, Copy, Debug, PartialEq, Eq, Structural)]
pub enum Key {
    Escape,
    Return,
    F1,
    /// Any other key.
    Other,
}

/// A discrete event of the frame.
#[derive(Clone, Copy, Debug, PartialEq, Eq, Structural)]
pub enum InputEvent {
    /// The window was asked to close.
    Quit,
    /// A key went down.
    KeyDown(Key),
    /// A key came up.
    KeyUp(Key),
    /// A pointer button went down. Reserved: it has no effect.
    MouseButtonDown,
    /// Anything else.
    Other,
}

/// What the frame's input asks of the program around the session.
#[derive(Debug)]
pub struct FrameOutcome {
    /// Whether the session goes on after this frame.
    pub running: bool,
    /// The cursors to show, in the order they were asked for.
    pub cursors: Vec<CursorIcon>,
}

/// Column of the cells under the window pixels of column `x`: the pixel is
/// scaled down to the surface, divided by the width of a cell and reduced
/// modulo the number of columns.
pub open spec fn pointer_col(x: int) -> int {
    x / (SCREEN_SCALE as int) / (GOL_CELL_W as int) % (GOL_COLS as int)
}

/// Row of the cells under the window pixels of row `y`.
pub open spec fn pointer_row(y: int) -> int {
    y / (SCREEN_SCALE as int) / (GOL_CELL_H as int) % (GOL_ROWS as int)
}

/// Index of the cell under the window pixel `(x, y)`.
pub open spec fn pointer_cell(x: int, y: int) -> int {
    pointer_row(y) * GOL_COLS + pointer_col(x)
}

/// Whether the pointer edits the grid in this frame: only while editing, and
/// only while one of its buttons is held.
pub open spec fn pointer_edits(mode: GameMode, pointer: PointerState) -> bool {
    mode == GameMode::Edit && (pointer.left || pointer.right)
}

/// The cells after the pointer was applied: where it edits, the cell under
/// it is made alive by the primary button and dead by the secondary button
/// alone.
pub open spec fn cells_after_pointer(
    mode: GameMode,
    pointer: PointerState,
    cells: Seq<i32>,
) -> Seq<i32> {
    if pointer_edits(mode, pointer) {
        cells.update(
            pointer_cell(pointer.x as int, pointer.y as int),
            if pointer.left {
                1
            } else {
                0
            },
        )
    } else {
        cells
    }
}

/// The events that end the session: the quit signal and the press of Escape.
pub open spec fn event_quits(event: InputEvent) -> bool {
    event == InputEvent::Quit || event == InputEvent::KeyDown(Key::Escape)
}

/// The toggle action: the release of Return.
pub open spec fn event_toggles(event: InputEvent) -> bool {
    event == InputEvent::KeyUp(Key::Return)
}

/// The theme action: the release of F1.
pub open spec fn event_flips_theme(event: InputEvent) -> bool {
    event == InputEvent::KeyUp(Key::F1)
}

/// The session goes on exactly if no event of the frame ends it.
pub open spec fn keeps_running(events: Seq<InputEvent>) -> bool {
    forall|i: int| 0 <= i < events.len() ==> !event_quits(#[trigger] events[i])
}

/// The mode after the events, each toggle action applied in turn.
pub open spec fn mode_after_events(mode: GameMode, events: Seq<InputEvent>) -> GameMode
    decreases events.len(),
{
    if events.len() == 0 {
        mode
    } else {
        let before = mode_after_events(mode, events.drop_last());
        if event_toggles(events.last()) {
            before.toggled()
        } else {
            before
        }
    }
}

/// The theme after the events, flipped once for each theme action.
pub open spec fn dark_after_events(dark: bool, events: Seq<InputEvent>) -> bool
    decreases events.len(),
{
    if events.len() == 0 {
        dark
    } else {
        let before = dark_after_events(dark, events.drop_last());
        if event_flips_theme(events.last()) {
            !before
        } else {
            before
        }
    }
}

/// The cursors that the toggle actions among the events ask for, in order.
pub open spec fn cursors_of_events(mode: GameMode, events: Seq<InputEvent>) -> Seq<CursorIcon>
    decreases events.len(),
{
    if events.len() == 0 {
        Seq::empty()
    } else {
        let before = mode_after_events(mode, events.drop_last());
        let earlier = cursors_of_events(mode, events.drop_last());
        if event_toggles(events.last()) && before.toggle_cursor() is Some {
            earlier.push(before.toggle_cursor()->0)
        } else {
            earlier
        }
    }
}

/// Outside of editing the pointer leaves every cell as it is, whatever its
/// position and its buttons.
pub proof fn lemma_pointer_edits_only_while_editing(
    mode: GameMode,
    pointer: PointerState,
    cells: Seq<i32>,
)
    requires
        mode != GameMode::Edit,
    ensures
        cells_after_pointer(mode, pointer, cells) == cells,
{
}

/// Two toggle actions in a row lead back to the mode before them, and the
/// cursor asked for last is the cursor of that mode.
pub proof fn lemma_two_toggles_lead_back(mode: GameMode, events: Seq<InputEvent>)
    requires
        events.len() == 2,
        event_toggles(events[0]),
        event_toggles(events[1]),
    ensures
        mode_after_events(mode, events) == mode,
        mode == GameMode::Stop ==> cursors_of_events(mode, events) == Seq::<CursorIcon>::empty(),
        mode != GameMode::Stop ==> cursors_of_events(mode, events).len() == 2 && Some(
            cursors_of_events(mode, events).last(),
        ) == mode.cursor(),
{
    reveal_with_fuel(mode_after_events, 3);
    reveal_with_fuel(cursors_of_events, 3);
    let first = events.drop_last();
    assert(first.len() == 1);
    assert(first.last() == events[0]);
    assert(first.drop_last().len() == 0);
}

/// Index of the cell under the window pixel `(x, y)`.
pub fn cell_under_pointer(x: u32, y: u32) -> (index: usize)
    ensures
        index == pointer_cell(x as int, y as int),
        index < GOL_MEMORY_SIZE,
{
    let col: u32 = (x / SCREEN_SCALE / GOL_CELL_W) % (GOL_COLS as u32);
    let row: u32 = (y / SCREEN_SCALE / GOL_CELL_H) % (GOL_ROWS as u32);
    (row * (GOL_COLS as u32) + col) as usize
}

impl GameOfLife {
    /// Applies one frame's input. First the pointer: while editing, a held
    /// primary button makes the cell under the pointer alive, and a held
    /// secondary button makes it dead. Then every event in its turn: the
    /// release of Return toggles between editing and playing and asks for
    /// the new mode's cursor, the release of F1 flips the theme, the quit
    /// signal and the press of Escape end the session after this frame.
    pub fn handle_events(&mut self, pointer: &PointerState, events: &Vec<InputEvent>) -> (outcome:
        FrameOutcome)
        ensures
            final(self).memory@ == cells_after_pointer(
                old(self).mode,
                *pointer,
                old(self).memory@,
            ),
            old(self).mode != GameMode::Edit ==> final(self).memory@ == old(self).memory@,
            final(self).mode == mode_after_events(old(self).mode, events@),
            final(self).dark == dark_after_events(old(self).dark, events@),
            final(self).colors == old(self).colors,
            final(self).frames == old(self).frames,
            outcome.running == keeps_running(events@),
            outcome.cursors@ == cursors_of_events(old(self).mode, events@),
    {
        let mut is_running: bool = true;
        let mut cursors: Vec<CursorIcon> = Vec::new();

        if self.mode == GameMode::Edit && (pointer.left || pointer.right) {
            let idx: usize = cell_under_pointer(pointer.x, pointer.y);
            if pointer.left {
                let _ = self.memory.set(idx, 1);
            } else if pointer.right {
                let _ = self.memory.set(idx, 0);
            }
        }
        let ghost edited = self.memory@;

        let mut i: usize = 0;
        while i < events.len()
            invariant
                0 <= i <= events.len(),
                self.memory@ == edited,
                self.colors == old(self).colors,
                self.frames == old(self).frames,
                self.mode == mode_after_events(old(self).mode, events@.take(i as int)),
                self.dark == dark_after_events(old(self).dark, events@.take(i as int)),
                is_running == keeps_running(events@.take(i as int)),
                cursors@ == cursors_of_events(old(self).mode, events@.take(i as int)),
            decreases events.len() - i,
        {
            proof {
                let seen = events@.take(i as int + 1);
                assert(seen.drop_last() =~= events@.take(i as int));
                assert(seen.last() == events@[i as int]);
                assert(keeps_running(seen) == (keeps_running(events@.take(i as int))
                    && !event_quits(events@[i as int]))) by {
                    if keeps_running(seen) {
                        assert forall|j: int| 0 <= j < i implies !event_quits(
                            #[trigger] events@.take(i as int)[j],
                        ) by {
                            assert(seen[j] == events@.take(i as int)[j]);
                        }
                        assert(seen[i as int] == events@[i as int]);
                    }
                }
            }
            match events[i] {
                InputEvent::MouseButtonDown => {},
                InputEvent::KeyUp(Key::Return) => {
                    let (mode, cursor) = self.mode.toggle();
                    self.set_mode(mode);
                    match cursor {
                        Some(icon) => {
                            cursors.push(icon);
                        },
                        None => {},
                    }
                },
                InputEvent::KeyUp(Key::F1) => {
                    self.dark = !self.dark;
                },
                InputEvent::Quit | InputEvent::KeyDown(Key::Escape) => {
                    is_running = false;
                },
                _ => (),
            }
            i += 1;
        }
        assert(events@.take(events.len() as int) =~= events@);

        FrameOutcome { running: is_running, cursors }
    }
}

} // verus!
