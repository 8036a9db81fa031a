//! Assembly of the run options.
//!
//! Flag handling itself (the argument parser, path expansion) is an outside
//! collaborator: it terminates the process on malformed input and hands over
//! a fully-qualified path plus the integer flag values that were present.
//! What is assembled here is the options record, with the documented
//! defaults filled in for absent dimension flags.

use vstd::prelude::*;
use crate::units::{DistPx, PX};

verus! {

/// Default declared image width, in pixels, when no width flag is given.
pub const DEFAULT_WIDTH_PX: i64 = 1900;

/// Default declared image height, in pixels, when no height flag is given.
pub const DEFAULT_HEIGHT_PX: i64 = 800;

/// The validated run options: the fully-qualified input path and the
/// declared dimensions of the raw image it holds.
pub struct Options {
    pub input: String,
    pub width: DistPx,
    pub height: DistPx,
}

/// Builds the run options from the command-line flag values: the input
/// path as handed over, and the declared dimensions tagged with the pixel
/// unit, with the documented defaults for absent flags.
pub fn parse(input: String, width: Option<i64>, height: Option<i64>) -> (r: Options)
    ensures
        r.input@ == input@,
        r.width@ == match width {
            Some(w) => w as int,
            None => DEFAULT_WIDTH_PX as int,
        },
        r.height@ == match height {
            Some(h) => h as int,
            None => DEFAULT_HEIGHT_PX as int,
        },
{
    let w = match width {
        Some(w) => w,
        None => DEFAULT_WIDTH_PX,
    };
    let h = match height {
        Some(h) => h,
        None => DEFAULT_HEIGHT_PX,
    };
    Options { input, width: DistPx::of(w, PX), height: DistPx::of(h, PX) }
}

} // verus!
