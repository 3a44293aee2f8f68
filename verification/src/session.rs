//! The session: mode, theme, palette, animation timer and grid.

use vstd::prelude::*;
use vstd::arithmetic::div_mod::{
    lemma_basic_div, lemma_div_plus_one, lemma_mod_add_multiples_vanish, lemma_small_mod,
};
use crate::config::{ANIMATION_PERIOD, GOL_MEMORY_SIZE};
use crate::grid::Grid;
use crate::mode::GameMode;
use crate::palette::ColorPalette;
use crate::rules::{generations, lemma_generations_shift, next_generation};

verus! {

/// One running simulation.
pub struct GameOfLife {
    /// What the session is doing.
    pub mode: GameMode,
    /// Whether the dark theme is on.
    pub dark: bool,
    /// The two colours of the theme: the dark one, then the light one.
    pub colors: ColorPalette,
    /// The animation timer: frames per generation, and frames left until the
    /// next one.
    pub frames: (i32, i32),
    /// The current generation.
    pub memory: Grid,
}

/// The two colours a new session draws with: a blackish and a whitish one.
pub open spec fn default_palette() -> Seq<(u8, u8, u8)> {
    seq![(0x22u8, 0x22u8, 0x23u8), (0xF0u8, 0xF6u8, 0xF0u8)]
}

/// Whether a frame in this mode and with this timer brings a new
/// generation: only while playing, and only when the count of frames left
/// runs out.
pub open spec fn frame_fires(mode: GameMode, frames: (i32, i32)) -> bool {
    mode == GameMode::Play && frames.1 - 1 <= 0
}

/// The timer after a frame: while playing it counts down by one and starts
/// again from the period when it runs out; otherwise it stands still.
pub open spec fn timer_after(mode: GameMode, frames: (i32, i32)) -> (i32, i32) {
    if mode != GameMode::Play {
        frames
    } else if frames.1 - 1 <= 0 {
        (frames.0, frames.0)
    } else {
        (frames.0, (frames.1 - 1) as i32)
    }
}

/// The cells after `n` frames in a mode that does not change meanwhile.
pub open spec fn cells_after_frames(
    mode: GameMode,
    frames: (i32, i32),
    cells: Seq<i32>,
    n: nat,
) -> Seq<i32>
    decreases n,
{
    if n == 0 {
        cells
    } else {
        cells_after_frames(
            mode,
            timer_after(mode, frames),
            if frame_fires(mode, frames) {
                next_generation(cells)
            } else {
                cells
            },
            (n - 1) as nat,
        )
    }
}

/// The timer after `n` frames in a mode that does not change meanwhile.
pub open spec fn timer_after_frames(mode: GameMode, frames: (i32, i32), n: nat) -> (i32, i32)
    decreases n,
{
    if n == 0 {
        frames
    } else {
        timer_after_frames(mode, timer_after(mode, frames), (n - 1) as nat)
    }
}

/// Number of generations that `n` frames bring while playing, when
/// `remaining` frames of a period of `period` frames are left at the start.
pub open spec fn generations_in_frames(period: int, remaining: int, n: nat) -> nat {
    if n < remaining {
        0
    } else {
        (1 + (n - remaining) / period) as nat
    }
}

/// Frames left of the period after `n` frames of playing, when `remaining`
/// frames of a period of `period` frames are left at the start.
pub open spec fn remaining_after_frames(period: int, remaining: int, n: nat) -> int {
    if n < remaining {
        remaining - n
    } else {
        period - (n - remaining) % period
    }
}

/// While playing, the first generation comes when the frames left of the
/// period have passed, and one more after every full period from then on.
pub proof fn lemma_playing_frames(period: i32, remaining: i32, cells: Seq<i32>, n: nat)
    requires
        1 <= remaining <= period,
    ensures
        cells_after_frames(GameMode::Play, (period, remaining), cells, n) == generations(
            cells,
            generations_in_frames(period as int, remaining as int, n),
        ),
        timer_after_frames(GameMode::Play, (period, remaining), n) == (
            period,
            remaining_after_frames(period as int, remaining as int, n) as i32,
        ),
    decreases n,
{
    if n > 0 {
        let m = (n - 1) as nat;
        if remaining > 1 {
            lemma_playing_frames(period, (remaining - 1) as i32, cells, m);
        } else {
            lemma_playing_frames(period, period, next_generation(cells), m);
            lemma_generations_shift(cells, generations_in_frames(period as int, period as int, m));
            if m < period {
                lemma_basic_div(m as int, period as int);
                lemma_small_mod(m, period as nat);
            } else {
                lemma_div_plus_one(m - period, period as int);
                lemma_mod_add_multiples_vanish(m - period, period as int);
            }
        }
    }
}

/// While playing with a fresh timer, a generation comes exactly once in
/// every `period` frames: after `n` frames the grid has moved on by
/// `n / period` generations.
pub proof fn lemma_generation_every_period(period: i32, cells: Seq<i32>, n: nat)
    requires
        period >= 1,
    ensures
        cells_after_frames(GameMode::Play, (period, period), cells, n) == generations(
            cells,
            (n / (period as nat)) as nat,
        ),
        timer_after_frames(GameMode::Play, (period, period), n) == (
            period,
            (period - n % (period as nat)) as i32,
        ),
{
    lemma_playing_frames(period, period, cells, n);
    if n < period {
        lemma_basic_div(n as int, period as int);
        lemma_small_mod(n, period as nat);
    } else {
        lemma_div_plus_one(n - period, period as int);
        lemma_mod_add_multiples_vanish(n - period, period as int);
    }
}

/// Outside of playing no frame brings a generation, and the timer stands
/// still.
pub proof fn lemma_frozen_outside_play(
    mode: GameMode,
    frames: (i32, i32),
    cells: Seq<i32>,
    n: nat,
)
    requires
        mode != GameMode::Play,
    ensures
        cells_after_frames(mode, frames, cells, n) == cells,
        timer_after_frames(mode, frames, n) == frames,
    decreases n,
{
    if n > 0 {
        lemma_frozen_outside_play(mode, frames, cells, (n - 1) as nat);
    }
}

impl GameOfLife {
    /// A session that plays, in the dark theme, on an empty grid, with a
    /// fresh timer of `ANIMATION_PERIOD` frames.
    pub fn new() -> (game: GameOfLife)
        ensures
            game.mode == GameMode::Play,
            game.dark,
            game.colors.palette@ == default_palette(),
            game.frames == (ANIMATION_PERIOD, ANIMATION_PERIOD),
            game.memory@ == Seq::new(GOL_MEMORY_SIZE as nat, |i: int| 0i32),
    {
        let mut palette: Vec<(u8, u8, u8)> = Vec::new();
        palette.push((0x22, 0x22, 0x23));
        palette.push((0xF0, 0xF6, 0xF0));
        assert(palette@ =~= default_palette());
        let colors: ColorPalette = ColorPalette::set(palette);
        GameOfLife {
            mode: GameMode::Play,
            dark: true,
            colors,
            frames: (ANIMATION_PERIOD, ANIMATION_PERIOD),
            memory: Grid::new(),
        }
    }

    /// Puts the session into `mode`.
    pub fn set_mode(&mut self, mode: GameMode)
        ensures
            final(self).mode == mode,
            final(self).dark == old(self).dark,
            final(self).colors == old(self).colors,
            final(self).frames == old(self).frames,
            final(self).memory == old(self).memory,
    {
        self.mode = mode;
    }

    /// One frame of simulation. While playing, the timer counts down, and
    /// when it runs out the grid moves on by one generation and the timer
    /// starts again. In the other modes nothing changes.
    pub fn update(&mut self)
        ensures
            final(self).mode == old(self).mode,
            final(self).dark == old(self).dark,
            final(self).colors == old(self).colors,
            final(self).frames == timer_after(old(self).mode, old(self).frames),
            final(self).memory@ == (if frame_fires(old(self).mode, old(self).frames) {
                next_generation(old(self).memory@)
            } else {
                old(self).memory@
            }),
    {
        match self.mode {
            GameMode::Edit => {},
            GameMode::Play => {
                if self.frames.1 <= 1 {
                    self.frames.1 = self.frames.0;
                    self.memory.animate();
                } else {
                    self.frames.1 -= 1;
                }
            },
            GameMode::Stop => {},
        }
    }
}

} // verus!
