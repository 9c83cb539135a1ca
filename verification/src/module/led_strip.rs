//! The LED strip, as the colours of its LEDs.
//!
//! `LedStrip` holds the frame that the strip is to show. Whoever owns the
//! hardware writes the frame to it after each change.

use crate::error::AppError;
use crate::service::led_strip::LedStripService;
use crate::theme::{AppTheme, Theme};
use vstd::prelude::*;

verus! {

/// How often a frame is written to the strip, so that a glitch on the line
/// does not leave a wrong colour standing.
pub const FRAME_REPEATS: u8 = 5;

/// The pause between two writes of a frame, in milliseconds.
pub const FRAME_PAUSE_MS: u32 = 1;

/// The colour of one LED.
#[derive(Copy, Clone, Debug, PartialEq, Eq, Structural)]
pub struct Rgb {
    pub r: u8,
    pub g: u8,
    pub b: u8,
}

/// A colour at a quarter of its brightness, each part rounded down.
pub open spec fn dimmed(r: u8, g: u8, b: u8) -> Rgb {
    Rgb { r: r / 4, g: g / 4, b: b / 4 }
}

/// The three colours of a theme, from the start of the strip to its end.
pub open spec fn bands(theme: Theme) -> (Rgb, Rgb, Rgb) {
    match theme {
        Theme::Original => (dimmed(255, 0, 0), dimmed(160, 160, 0), dimmed(255, 0, 0)),
        Theme::Hoverboard => (dimmed(255, 255, 0), dimmed(255, 20, 147), dimmed(50, 205, 50)),
        Theme::Plutonium => (dimmed(255, 255, 0), dimmed(124, 252, 0), dimmed(119, 136, 153)),
        Theme::OldWest => (dimmed(205, 127, 50), dimmed(245, 245, 245), dimmed(112, 66, 20)),
        Theme::Cafe80s => (dimmed(64, 224, 208), dimmed(255, 105, 180), dimmed(128, 0, 128)),
    }
}

/// The colour of LED `i` on a strip of `num_leds` LEDs: the strip is split
/// in three at one third and at two thirds of its length, both rounded down.
pub open spec fn pixel(theme: Theme, num_leds: int, i: int) -> Rgb {
    if i < num_leds / 3 {
        bands(theme).0
    } else if i < 2 * num_leds / 3 {
        bands(theme).1
    } else {
        bands(theme).2
    }
}

/// The frame of a theme on a strip of `num_leds` LEDs.
pub open spec fn themed_frame(theme: Theme, num_leds: int) -> Seq<Rgb> {
    Seq::new(num_leds as nat, |i: int| pixel(theme, num_leds, i))
}

/// The frame of a strip that is switched off.
pub open spec fn dark_frame(num_leds: int) -> Seq<Rgb> {
    Seq::new(num_leds as nat, |i: int| Rgb { r: 0, g: 0, b: 0 })
}

/// A strip of LEDs and the frame it is to show, one colour per LED.
#[derive(Clone, Debug)]
pub struct LedStrip {
    pub frame: Vec<Rgb>,
    pub num_leds: u8,
}

impl LedStrip {
    /// A strip of `num_leds` LEDs to which nothing has been written yet.
    pub fn new(num_leds: u8) -> (strip: Self)
        ensures
            strip.num_leds == num_leds,
            strip.frame@.len() == 0,
    {
        LedStrip { frame: Vec::new(), num_leds }
    }
}

impl LedStripService for LedStrip {
    /// Switches the strip off, which is how it starts.
    fn init(&mut self) -> (done: Result<(), AppError>)
        ensures
            done is Ok,
            final(self).num_leds == old(self).num_leds,
            final(self).frame@ == dark_frame(old(self).num_leds as int),
    {
        self.turn_off()
    }

    /// Switches every LED off.
    fn turn_off(&mut self) -> (done: Result<(), AppError>)
        ensures
            done is Ok,
            final(self).num_leds == old(self).num_leds,
            final(self).frame@ == dark_frame(old(self).num_leds as int),
    {
        let mut frame: Vec<Rgb> = Vec::new();
        let mut i: u8 = 0;
        while i < self.num_leds
            invariant
                i <= self.num_leds,
                frame@ == dark_frame(i as int),
            decreases self.num_leds - i,
        {
            frame.push(Rgb { r: 0, g: 0, b: 0 });
            i += 1;
        }
        self.frame = frame;
        Ok(())
    }
}

/// The three colours of a theme.
fn theme_bands(theme: &Theme) -> (colours: (Rgb, Rgb, Rgb))
    ensures
        colours == bands(*theme),
{
    match theme {
        Theme::Original => (scaled(255, 0, 0), scaled(160, 160, 0), scaled(255, 0, 0)),
        Theme::Hoverboard => (scaled(255, 255, 0), scaled(255, 20, 147), scaled(50, 205, 50)),
        Theme::Plutonium => (scaled(255, 255, 0), scaled(124, 252, 0), scaled(119, 136, 153)),
        Theme::OldWest => (scaled(205, 127, 50), scaled(245, 245, 245), scaled(112, 66, 20)),
        Theme::Cafe80s => (scaled(64, 224, 208), scaled(255, 105, 180), scaled(128, 0, 128)),
    }
}

/// A colour at a quarter of its brightness.
fn scaled(r: u8, g: u8, b: u8) -> (colour: Rgb)
    ensures
        colour == dimmed(r, g, b),
{
    Rgb { r: r / 4, g: g / 4, b: b / 4 }
}

impl AppTheme for LedStrip {
    /// Shows a theme: the first third of the strip in the theme's first
    /// colour, the second third in its second, the rest in its third.
    fn apply_theme(&mut self, theme: &Theme) -> (done: Result<(), AppError>)
        ensures
            done is Ok,
            final(self).num_leds == old(self).num_leds,
            final(self).frame@ == themed_frame(*theme, old(self).num_leds as int),
    {
        let (first, second, third) = theme_bands(theme);
        let num_leds: u16 = self.num_leds as u16;
        let first_end: u16 = num_leds / 3;
        let second_end: u16 = 2 * num_leds / 3;
        let mut frame: Vec<Rgb> = Vec::new();
        let mut i: u16 = 0;
        while i < num_leds
            invariant
                i <= num_leds,
                num_leds == self.num_leds,
                first_end == num_leds / 3,
                second_end == 2 * num_leds / 3,
                (first, second, third) == bands(*theme),
                frame@ == Seq::new(i as nat, |k: int| pixel(*theme, num_leds as int, k)),
            decreases num_leds - i,
        {
            if i < first_end {
                frame.push(first);
            } else if i < second_end {
                frame.push(second);
            } else {
                frame.push(third);
            }
            i += 1;
        }
        self.frame = frame;
        Ok(())
    }
}

/// Every theme lights every LED of the strip, and in at most three runs of
/// one colour each: a colour begins only at the start of the strip, at one
/// third or at two thirds of its length.
pub proof fn lemma_theme_has_three_runs(theme: Theme, num_leds: int, i: int)
    requires
        0 <= i,
        i + 1 < num_leds,
    ensures
        themed_frame(theme, num_leds).len() == num_leds,
        themed_frame(theme, num_leds)[i] != themed_frame(theme, num_leds)[i + 1] ==> i + 1
            == num_leds / 3 || i + 1 == 2 * num_leds / 3,
{
}

} // verus!
