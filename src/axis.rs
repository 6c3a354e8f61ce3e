use vstd::prelude::*;

verus! {

/// One of the three world axes.
#[derive(Debug, Clone, Copy, PartialEq, Eq, Structural)]
pub enum WorldAxis {
    X,
    Y,
    Z,
}

/// The plane a grid lies in, named by the two world axes that span it.
#[derive(Debug, Clone, Copy, PartialEq, Eq, Structural)]
pub enum GridAxis {
    Xy,
    Yz,
    Zx,
}

/// The two families of parallel lines that together tile the grid plane.
///
/// Horizontal-family lines run along the plane's first axis and are spaced
/// along its second; vertical-family lines swap the two roles.
#[derive(Debug, Clone, Copy, PartialEq, Eq, Structural)]
pub enum LineFamily {
    Horizontal,
    Vertical,
}

impl GridAxis {
    /// The world axis along which horizontal-family lines run.
    pub open spec fn first_axis(self) -> WorldAxis {
        match self {
            GridAxis::Xy => WorldAxis::X,
            GridAxis::Yz => WorldAxis::Z,
            GridAxis::Zx => WorldAxis::X,
        }
    }

    /// The world axis along which vertical-family lines run.
    pub open spec fn second_axis(self) -> WorldAxis {
        match self {
            GridAxis::Xy => WorldAxis::Y,
            GridAxis::Yz => WorldAxis::Y,
            GridAxis::Zx => WorldAxis::Z,
        }
    }

    /// The world axis that is held at zero for every point of the grid.
    pub open spec fn normal_axis(self) -> WorldAxis {
        match self {
            GridAxis::Xy => WorldAxis::Z,
            GridAxis::Yz => WorldAxis::X,
            GridAxis::Zx => WorldAxis::Y,
        }
    }

    /// The world axis along which the lines of `family` run.
    pub open spec fn run_axis(self, family: LineFamily) -> WorldAxis {
        match family {
            LineFamily::Horizontal => self.first_axis(),
            LineFamily::Vertical => self.second_axis(),
        }
    }

    /// The world axis along which the lines of `family` are spaced apart.
    pub open spec fn offset_axis(self, family: LineFamily) -> WorldAxis {
        match family {
            LineFamily::Horizontal => self.second_axis(),
            LineFamily::Vertical => self.first_axis(),
        }
    }

    /// The plane's first and second axes, as a lookup in the axis table.
    pub fn plane_axes(&self) -> (r: (WorldAxis, WorldAxis))
        ensures
            r.0 == self.first_axis(),
            r.1 == self.second_axis(),
    {
        match self {
            GridAxis::Xy => (WorldAxis::X, WorldAxis::Y),
            GridAxis::Yz => (WorldAxis::Z, WorldAxis::Y),
            GridAxis::Zx => (WorldAxis::X, WorldAxis::Z),
        }
    }

    /// The axis the lines of `family` run along, and the axis they are
    /// spaced along.
    pub fn line_axes(&self, family: LineFamily) -> (r: (WorldAxis, WorldAxis))
        ensures
            r.0 == self.run_axis(family),
            r.1 == self.offset_axis(family),
    {
        let (first, second) = self.plane_axes();
        match family {
            LineFamily::Horizontal => (first, second),
            LineFamily::Vertical => (second, first),
        }
    }
}

} // verus!
