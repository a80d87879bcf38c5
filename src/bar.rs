//! The progress bar's data model: progress in fixed point, and an ordered
//! list of weighted, colored sections.
use vstd::prelude::*;
use crate::color::SrgbColor;

verus! {

/// The number of progress steps in a full bar, 2^24: every step count up to
/// it converts exactly to a single-precision fraction. A fraction given as a
/// float is rounded to this grid, so 0.1 reads back as 0.10000002.
pub const PROGRESS_FULL: u32 = 16_777_216;

/// `x` held to the range of progress, `[0, PROGRESS_FULL]`.
pub open spec fn clamp_progress(x: int) -> int {
    if x < 0 {
        0
    } else if x > PROGRESS_FULL {
        PROGRESS_FULL as int
    } else {
        x
    }
}

/// Progress in steps, always within `[0, PROGRESS_FULL]`.
#[derive(Clone, Copy, Debug)]
pub struct Progress {
    value: u32,
}

impl View for Progress {
    type V = int;

    closed spec fn view(&self) -> int {
        self.value as int
    }
}

impl Progress {
    #[verifier::type_invariant]
    spec fn in_range(&self) -> bool {
        self.value <= PROGRESS_FULL
    }

    fn clamped(x: i128) -> (r: Progress)
        ensures
            r@ == clamp_progress(x as int),
    {
        let value: u32 = if x < 0 {
            0
        } else if x > PROGRESS_FULL as i128 {
            PROGRESS_FULL
        } else {
            x as u32
        };
        Progress { value }
    }

    fn get(&self) -> (r: u32)
        ensures
            r == self@,
            r <= PROGRESS_FULL,
    {
        proof {
            use_type_invariant(self);
        }
        self.value
    }
}

/// A bar with differently colored sections, each with a size relative to
/// the others, and a color for the space not yet progressed to.
#[derive(Clone, Debug)]
pub struct ProgressBar {
    /// Progress in steps, between 0 and `PROGRESS_FULL`.
    pub progress: Progress,
    /// The sections in order, each a relative weight and a color.
    pub sections: Vec<(u32, SrgbColor)>,
    /// The color of the space that is not progressed to.
    pub empty_color: SrgbColor,
}

/// What a bar holds: progress in steps, the sections in order, and the
/// color of the space not yet progressed to.
pub struct BarState {
    pub progress: int,
    pub sections: Seq<(u32, SrgbColor)>,
    pub empty_color: SrgbColor,
}

impl View for ProgressBar {
    type V = BarState;

    open spec fn view(&self) -> BarState {
        BarState {
            progress: self.progress@,
            sections: self.sections@,
            empty_color: self.empty_color,
        }
    }
}

impl ProgressBar {
    /// Returns the sections, in order.
    pub fn sections(&self) -> (r: &Vec<(u32, SrgbColor)>)
        ensures
            r@ == self@.sections,
    {
        &self.sections
    }

    /// Returns the color of the space not yet progressed to.
    pub fn empty_color(&self) -> (r: SrgbColor)
        ensures
            r == self@.empty_color,
    {
        self.empty_color
    }

    /// Creates a bar with the given sections, no progress and a transparent
    /// empty color.
    pub fn new(sections: Vec<(u32, SrgbColor)>) -> (r: ProgressBar)
        ensures
            r@.progress == 0,
            r@.sections == sections@,
            r@.empty_color == SrgbColor::transparent_spec(),
    {
        ProgressBar { progress: Progress::clamped(0), sections, empty_color: SrgbColor::transparent() }
    }

    /// Creates a bar with one section of weight 1 in the given color.
    pub fn single(color: SrgbColor) -> (r: ProgressBar)
        ensures
            r@.progress == 0,
            r@.sections == seq![(1u32, color)],
            r@.empty_color == SrgbColor::transparent_spec(),
    {
        let sections: Vec<(u32, SrgbColor)> = vec![(1u32, color)];
        ProgressBar { progress: Progress::clamped(0), sections, empty_color: SrgbColor::transparent() }
    }

    /// Sets the progress to `amount` steps, held to `[0, PROGRESS_FULL]`.
    pub fn set_progress(&mut self, amount: i64) -> (r: &mut ProgressBar)
        ensures
            r@.progress == clamp_progress(amount as int),
            r@.sections == old(self)@.sections,
            r@.empty_color == old(self)@.empty_color,
            *final(self) == *final(r),
    {
        self.progress = Progress::clamped(amount as i128);
        self
    }

    /// Returns the current progress, in steps.
    pub fn get_progress(&self) -> (r: u32)
        ensures
            r == self@.progress,
            self@.progress <= PROGRESS_FULL,
    {
        self.progress.get()
    }

    /// Adds `amount` steps (a decrease where negative) to the progress, and
    /// holds the sum to `[0, PROGRESS_FULL]`.
    pub fn increase_progress(&mut self, amount: i64) -> (r: &mut ProgressBar)
        ensures
            r@.progress == clamp_progress(old(self)@.progress + amount),
            r@.sections == old(self)@.sections,
            r@.empty_color == old(self)@.empty_color,
            *final(self) == *final(r),
    {
        let sum: i128 = self.progress.get() as i128 + amount as i128;
        self.progress = Progress::clamped(sum);
        self
    }

    /// Sets the progress back to 0.
    pub fn reset(&mut self) -> (r: &mut ProgressBar)
        ensures
            r@.progress == 0,
            r@.sections == old(self)@.sections,
            r@.empty_color == old(self)@.empty_color,
            *final(self) == *final(r),
    {
        self.progress = Progress::clamped(0);
        self
    }

    /// Whether the bar is full.
    pub fn is_finished(&self) -> (r: bool)
        ensures
            r == (self@.progress >= PROGRESS_FULL),
    {
        self.progress.get() >= PROGRESS_FULL
    }

    /// Removes every section.
    pub fn clear_sections(&mut self) -> (r: &mut ProgressBar)
        ensures
            r@.progress == old(self)@.progress,
            r@.sections == Seq::<(u32, SrgbColor)>::empty(),
            r@.empty_color == old(self)@.empty_color,
            *final(self) == *final(r),
    {
        self.sections.clear();
        self
    }

    /// Sets the color of the space not yet progressed to.
    pub fn set_empty_color(&mut self, color: SrgbColor) -> (r: &mut ProgressBar)
        ensures
            r@.progress == old(self)@.progress,
            r@.sections == old(self)@.sections,
            r@.empty_color == color,
            *final(self) == *final(r),
    {
        self.empty_color = color;
        self
    }

    /// Appends a section of the given weight and color after the others.
    pub fn add_section(&mut self, amount: u32, color: SrgbColor) -> (r: &mut ProgressBar)
        ensures
            r@.progress == old(self)@.progress,
            r@.sections == old(self)@.sections.push((amount, color)),
            r@.empty_color == old(self)@.empty_color,
            *final(self) == *final(r),
    {
        self.sections.push((amount, color));
        self
    }
}

impl Default for ProgressBar {
    /// A bar with no sections, no progress and a transparent empty color.
    fn default() -> (r: ProgressBar)
        ensures
            r@.progress == 0,
            r@.sections.len() == 0,
            r@.empty_color == SrgbColor::transparent_spec(),
    {
        ProgressBar { progress: Progress::clamped(0), sections: Vec::new(), empty_color: SrgbColor::transparent() }
    }
}

} // verus!
