//! The engine of an activity tracker for a touch screen: a stack of
//! full-screen views that is navigated by taps and drags, composited
//! through a circular reveal, while a GPS track accumulates in the
//! background.
//!
//! The engine computes in whole numbers throughout and does no input or
//! output of its own.  Whoever uses it reads the clock, the touch screen
//! and the GPS, draws, and keeps the record file; the engine decides.
//!
//! * [`gesture`] tells taps from drags, one state machine per touch.
//! * [`screens`] holds the stack of screens and [`runtime`] routes input
//!   to its top; [`navigation`] says what a press means on each screen.
//! * [`transition`] is the curve of the reveal, [`compositor`] what is kept
//!   of a screen's off-screen target, [`frames`] the frame counter of an
//!   animated image.
//! * [`geo`] projects GPS fixes onto a plane and [`track`] accumulates
//!   them into distance, time and speed; [`records`] stores finished
//!   trainings.
//! * [`images`] and [`fonts`] are catalogues of loaded assets, built on
//!   [`catalogue`]; [`config`] chooses a surface configuration; [`fixed`]
//!   holds the arithmetic that the others share.
//!
//! Units: angles in 1e-7 degree, lengths in millimetres, times in
//! milliseconds, speeds in millimetres per second, positions on the touch
//! screen in pixels.

pub mod catalogue;
pub mod compositor;
pub mod config;
pub mod fixed;
pub mod fonts;
pub mod frames;
pub mod geo;
pub mod gesture;
pub mod images;
pub mod navigation;
pub mod records;
pub mod runtime;
pub mod screens;
pub mod track;
pub mod transition;
