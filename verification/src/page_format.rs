//! Page sizes: a validated width/height pair and the common named formats.

use vstd::prelude::*;
use crate::units::Pt;

verus! {

/// A page's width and height, in hundredths of a point.
#[derive(Debug, Clone, Copy, PartialEq, Eq, Structural)]
pub struct PageSize {
    pub width: Pt,
    pub height: Pt,
}

/// Rejection of a non-positive page dimension.
#[derive(Debug, Clone, Copy, PartialEq, Eq, Structural)]
pub enum PageSizeError {
    InvalidWidth(Pt),
    InvalidHeight(Pt),
}

impl PageSize {
    /// Builds a page size, rejecting non-positive dimensions; the width is
    /// checked first.
    pub fn new(width: Pt, height: Pt) -> (r: Result<PageSize, PageSizeError>)
        ensures
            width.0 <= 0 ==> r == Result::<PageSize, PageSizeError>::Err(
                PageSizeError::InvalidWidth(width),
            ),
            width.0 > 0 && height.0 <= 0 ==> r == Result::<PageSize, PageSizeError>::Err(
                PageSizeError::InvalidHeight(height),
            ),
            width.0 > 0 && height.0 > 0 ==> r == Result::<PageSize, PageSizeError>::Ok(
                PageSize { width, height },
            ),
    {
        if width.0 <= 0 {
            return Err(PageSizeError::InvalidWidth(width));
        }
        if height.0 <= 0 {
            return Err(PageSizeError::InvalidHeight(height));
        }
        Ok(PageSize { width, height })
    }

    /// Builds a page size without validating the dimensions.
    pub fn new_with_const(width: Pt, height: Pt) -> (r: PageSize)
        ensures
            r == (PageSize { width, height }),
    {
        PageSize { width, height }
    }

    /// The same size with width and height exchanged.
    pub open spec fn spec_inverse(self) -> PageSize {
        PageSize { width: self.height, height: self.width }
    }

    /// Exchanges width and height.
    pub fn inverse(self) -> (r: PageSize)
        ensures
            r == self.spec_inverse(),
    {
        PageSize { width: self.height, height: self.width }
    }

    pub fn width(&self) -> (r: Pt)
        ensures
            r == self.width,
    {
        self.width
    }

    /// The width's raw value in hundredths of a point.
    pub fn width_value(&self) -> (r: i64)
        ensures
            r == self.width.0,
    {
        self.width.0
    }

    pub fn height(&self) -> (r: Pt)
        ensures
            r == self.height,
    {
        self.height
    }

    /// The height's raw value in hundredths of a point.
    pub fn height_value(&self) -> (r: i64)
        ensures
            r == self.height.0,
    {
        self.height.0
    }
}

/// The named page formats, with their sizes in points.
#[derive(Debug, Clone, Copy, PartialEq, Eq, Structural)]
pub enum PageFormat {
    A4,
    A5,
    Letter,
    GovernmentLetter,
    Legal,
    JuniorLegal,
    Ledger,
    Tabloid,
}

impl PageFormat {
    /// The size of this format, in hundredths of a point.
    pub open spec fn spec_format(self) -> PageSize {
        match self {
            PageFormat::A4 => PageSize { width: Pt(59528), height: Pt(84189) },
            PageFormat::A5 => PageSize { width: Pt(41953), height: Pt(59528) },
            PageFormat::Letter => PageSize { width: Pt(61200), height: Pt(79200) },
            PageFormat::GovernmentLetter => PageSize { width: Pt(61200), height: Pt(75600) },
            PageFormat::Legal => PageSize { width: Pt(61200), height: Pt(100800) },
            PageFormat::JuniorLegal => PageSize { width: Pt(57600), height: Pt(36000) },
            PageFormat::Ledger => PageSize { width: Pt(122400), height: Pt(79200) },
            PageFormat::Tabloid => PageSize { width: Pt(79200), height: Pt(122400) },
        }
    }

    pub fn get_format(&self) -> (r: PageSize)
        ensures
            r == self.spec_format(),
    {
        match self {
            PageFormat::A4 => PageSize { width: Pt(59528), height: Pt(84189) },
            PageFormat::A5 => PageSize { width: Pt(41953), height: Pt(59528) },
            PageFormat::Letter => PageSize { width: Pt(61200), height: Pt(79200) },
            PageFormat::GovernmentLetter => PageSize { width: Pt(61200), height: Pt(75600) },
            PageFormat::Legal => PageSize { width: Pt(61200), height: Pt(100800) },
            PageFormat::JuniorLegal => PageSize { width: Pt(57600), height: Pt(36000) },
            PageFormat::Ledger => PageSize { width: Pt(122400), height: Pt(79200) },
            PageFormat::Tabloid => PageSize { width: Pt(79200), height: Pt(122400) },
        }
    }
}

} // verus!
