//! The loading scene: a bar that grows by a fixed step on every frame until it
//! has reached its full width, and then hands over to the main menu.
//!
//! Widths are whole pixels. The bar sits inside a border, inset on every side, so
//! its full width is the border's width less twice the inset. A frame on which the
//! bar is short of its full width grows it by one step, even if that carries it
//! past the full width; the first frame that finds it full leaves the scene.
//!
//! A frame reports the new width and no more. What is written on the bar is a
//! percentage that the caller works out from the two widths and hands to
//! [`percent_caption`](crate::caption::percent_caption).

use vstd::prelude::*;
use crate::scene::SceneState;

verus! {

/// The width of the border around the bar, in pixels.
pub const LOADING_BORDER_WIDTH: u32 = 600;

/// The height of the border around the bar, in pixels.
pub const LOADING_BORDER_HEIGHT: u32 = 60;

/// The distance between the border and the bar, on every side, in pixels.
pub const LOADER_INSET: u32 = 5;

/// The height of the bar, in pixels: four fifths of the border's height.
pub const LOADER_HEIGHT: u32 = LOADING_BORDER_HEIGHT - LOADING_BORDER_HEIGHT / 5;

/// By how much the bar grows on a frame, in pixels.
pub const LOADER_STEP: u32 = 100;

/// The height of the box that holds the line above the bar, in pixels.
pub const LOADING_TEXT_HEIGHT: u32 = 35;

/// How far the top of that box lies above the top of the border, in pixels.
pub const LOADING_TEXT_RISE: u32 = 37;

/// The size of the type of the line above the bar.
pub const LOADING_TEXT_FONT_SIZE: u32 = 30;

/// The size of the type of the caption on the bar.
pub const TEXT_FONT_SIZE: u32 = 40;

/// The greatest full width a bar can have: one step below the greatest number,
/// so that a last step past the full width can still be counted.
pub const MAX_LOADER_WIDTH: u32 = u32::MAX - LOADER_STEP;

/// The loading bar.
#[derive(Clone, Copy, Debug, PartialEq, Eq, Structural)]
pub struct Loader {
    /// The width at which the bar is full.
    pub max_width: u32,
    /// The width of the bar now.
    pub current_width: u32,
}

/// What a frame did to the loading bar.
#[derive(Clone, Copy, Debug, PartialEq, Eq, Structural)]
pub enum LoaderUpdate {
    /// The bar grew: its new width.
    Grown { width: u32 },
    /// The bar was full: the scene to go to.
    Finished { next: SceneState },
}

impl Loader {
    /// The bar can take a step from any width short of its full width.
    pub open spec fn wf(&self) -> bool {
        self.max_width <= MAX_LOADER_WIDTH
    }

    /// The bar has reached its full width, or is past it.
    pub open spec fn is_full(&self) -> bool {
        self.current_width >= self.max_width
    }

    /// The bar after a frame: one step wider if it was short of its full width,
    /// unchanged if it was full.
    pub open spec fn step(&self) -> Loader {
        if self.is_full() {
            *self
        } else {
            Loader {
                max_width: self.max_width,
                current_width: (self.current_width + LOADER_STEP) as u32,
            }
        }
    }

    /// What a frame reports of the bar.
    pub open spec fn update(&self) -> LoaderUpdate {
        if self.is_full() {
            LoaderUpdate::Finished { next: SceneState::MainMenuScene }
        } else {
            LoaderUpdate::Grown { width: self.step().current_width }
        }
    }

    /// The bar after a number of frames.
    pub open spec fn run(&self, frames: nat) -> Loader
        decreases frames,
    {
        if frames == 0 {
            *self
        } else {
            self.run((frames - 1) as nat).step()
        }
    }

    /// How many frames grow the bar before one finds it full.
    pub open spec fn frames_to_fill(&self) -> nat {
        if self.is_full() {
            0
        } else {
            ((self.max_width - self.current_width + LOADER_STEP - 1) / (LOADER_STEP as int)) as nat
        }
    }

    /// An empty bar that is full at `max_width`, if a bar can be that wide.
    pub fn new(max_width: u32) -> (loader: Option<Loader>)
        ensures
            max_width <= MAX_LOADER_WIDTH ==> loader == Some(
                Loader { max_width, current_width: 0 },
            ),
            max_width > MAX_LOADER_WIDTH ==> loader is None,
    {
        if max_width <= MAX_LOADER_WIDTH {
            Some(Loader { max_width, current_width: 0 })
        } else {
            None
        }
    }

    /// The empty bar of the loading scene, which fills the inside of its border.
    pub fn in_border() -> (loader: Loader)
        ensures
            loader == (Loader {
                max_width: (LOADING_BORDER_WIDTH - 2 * LOADER_INSET) as u32,
                current_width: 0,
            }),
            loader.wf(),
    {
        Loader { max_width: LOADING_BORDER_WIDTH - 2 * LOADER_INSET, current_width: 0 }
    }

    /// Whether the bar can take a step from any width short of its full width.
    pub fn is_well_formed(&self) -> (well_formed: bool)
        ensures
            well_formed == self.wf(),
    {
        self.max_width <= MAX_LOADER_WIDTH
    }
}

/// One frame of the loading scene. A bar short of its full width grows by one
/// step, and the frame reports the new width. A full bar stays as it is, and the
/// frame reports that the main menu comes next.
pub fn update_loader(loader: &mut Loader) -> (update: LoaderUpdate)
    requires
        old(loader).wf(),
    ensures
        *final(loader) == old(loader).step(),
        update == old(loader).update(),
{
    if loader.current_width < loader.max_width {
        loader.current_width += LOADER_STEP;
        LoaderUpdate::Grown { width: loader.current_width }
    } else {
        LoaderUpdate::Finished { next: SceneState::MainMenuScene }
    }
}

/// Over any number of frames the full width stays what it was, and the bar is as
/// many steps wider as frames have passed, up to the frames it takes to fill.
pub proof fn lemma_run_width(loader: Loader, frames: nat)
    requires
        loader.wf(),
    ensures
        loader.run(frames).max_width == loader.max_width,
        loader.run(frames).current_width == loader.current_width + LOADER_STEP * (if frames
            < loader.frames_to_fill() {
            frames
        } else {
            loader.frames_to_fill()
        }),
    decreases frames,
{
    if frames > 0 {
        lemma_run_width(loader, (frames - 1) as nat);
    }
}

/// A frame finds the bar full, and so leaves the scene, exactly from the frame on
/// that follows the frames it takes to fill: every frame before it grows the bar.
pub proof fn lemma_run_full(loader: Loader, frames: nat)
    requires
        loader.wf(),
    ensures
        loader.run(frames).is_full() <==> frames >= loader.frames_to_fill(),
        loader.run(frames).update() is Finished <==> frames >= loader.frames_to_fill(),
{
    lemma_run_width(loader, frames);
}

/// The bar never shrinks: after more frames it is at least as wide.
pub proof fn lemma_run_monotonic(loader: Loader, early: nat, late: nat)
    requires
        loader.wf(),
        early <= late,
    ensures
        loader.run(early).current_width <= loader.run(late).current_width,
{
    lemma_run_width(loader, early);
    lemma_run_width(loader, late);
}

/// A bar that is less than a step past its full width stays so: growth stops with
/// the step that reaches the full width.
pub proof fn lemma_run_bounded(loader: Loader, frames: nat)
    requires
        loader.wf(),
        loader.current_width < loader.max_width + LOADER_STEP,
    ensures
        loader.run(frames).current_width < loader.max_width + LOADER_STEP,
{
    lemma_run_width(loader, frames);
}

} // verus!
