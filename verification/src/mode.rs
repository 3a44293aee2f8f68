//! The modes of a session and the toggle between editing and playing.

use vstd::prelude::*;

verus! {

/// What the session is doing.
#[derive(Clone, Copy, Debug, PartialEq, Eq, Structural)]
pub enum GameMode {
    /// The grid is frozen and the pointer paints and erases cells.
    Edit,
    /// Generations advance at the pace of the animation timer.
    Play,
    /// The grid is frozen. No input leads here.
    Stop,
}

/// An appearance of the pointer's cursor.
#[derive(Clone, Copy, Debug, PartialEq, Eq, Structural)]
pub enum CursorIcon {
    /// The cursor shown while editing.
    Edit,
    /// The cursor shown while playing.
    Play,
}

impl GameMode {
    /// The cursor that belongs to the mode, if it has one.
    pub open spec fn cursor(self) -> Option<CursorIcon> {
        match self {
            GameMode::Edit => Some(CursorIcon::Edit),
            GameMode::Play => Some(CursorIcon::Play),
            GameMode::Stop => None,
        }
    }

    /// The mode that the toggle action leads to.
    pub open spec fn toggled(self) -> GameMode {
        match self {
            GameMode::Play => GameMode::Edit,
            GameMode::Edit => GameMode::Play,
            GameMode::Stop => GameMode::Stop,
        }
    }

    /// The cursor that the toggle action asks for when it is taken in this
    /// mode: that of the mode it leads to, or none where it changes nothing.
    pub open spec fn toggle_cursor(self) -> Option<CursorIcon> {
        match self {
            GameMode::Stop => None,
            _ => self.toggled().cursor(),
        }
    }

    /// The toggle action: playing becomes editing and editing becomes
    /// playing, each with the request to show the new mode's cursor. Nothing
    /// happens while stopped.
    pub fn toggle(self) -> (next: (GameMode, Option<CursorIcon>))
        ensures
            next.0 == self.toggled(),
            next.1 == self.toggle_cursor(),
    {
        match self {
            GameMode::Play => (GameMode::Edit, Some(CursorIcon::Edit)),
            GameMode::Edit => (GameMode::Play, Some(CursorIcon::Play)),
            GameMode::Stop => (GameMode::Stop, None),
        }
    }
}

/// The cursor on screen after a request: the requested one, or the one shown
/// before where nothing was requested.
pub open spec fn cursor_after(shown: CursorIcon, request: Option<CursorIcon>) -> CursorIcon {
    match request {
        Some(icon) => icon,
        None => shown,
    }
}

/// Toggling twice leads back to the mode it started from, and where the
/// cursor of that mode was on screen before, it is on screen again.
pub proof fn lemma_toggle_twice_restores(mode: GameMode, shown: CursorIcon)
    requires
        mode.cursor() is Some ==> mode.cursor() == Some(shown),
    ensures
        mode.toggled().toggled() == mode,
        cursor_after(
            cursor_after(shown, mode.toggle_cursor()),
            mode.toggled().toggle_cursor(),
        ) == shown,
{
}

} // verus!
