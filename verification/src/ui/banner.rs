//! The banner: the logo, drawn by the application, and the layout of its
//! one-line form.

use vstd::prelude::*;

verus! {

/// The banner.
#[derive(Debug, Default, Clone, Copy, PartialEq, Eq)]
pub struct Banner;

/// The brand name the one-line banner shows.
pub const BRAND: &'static str = "KRAKEN AGENT";

impl Banner {
    /// The dashes left and right of the brand in the one-line banner of
    /// `width` columns: the columns the brand and a space on each side leave,
    /// split in two, the odd one on the right.
    pub fn mini_dashes(&self, width: u16) -> (r: (usize, usize))
        ensures
            r.0 + r.1 == if width >= 14 { width - 14 } else { 0 },
            r.0 == (if width >= 14 { width - 14 } else { 0 }) / 2,
    {
        let total: usize = if width >= 14 { (width - 14) as usize } else { 0 };
        let left = total / 2;
        (left, total - left)
    }
}

} // verus!
