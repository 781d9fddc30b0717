//! The size of a grid, in cells, and its division into the tiles that the
//! kernel's workgroups take.

use vstd::prelude::*;

verus! {

/// One workgroup of the kernel takes a tile of 8 by 8 cells.
pub const WORKGROUP_WIDTH: u32 = 8;

/// Whether `extent` cells can be cut into whole tiles: a positive multiple
/// of the workgroup width.
pub open spec fn is_tile_multiple(extent: u32) -> bool {
    extent > 0 && extent % WORKGROUP_WIDTH == 0
}

/// The width and height of a grid. Both are positive multiples of the
/// workgroup width; no value of this type exists of which that does not hold.
#[derive(Clone, Copy, Debug)]
pub struct GridDimensions {
    width: u32,
    height: u32,
}

impl GridDimensions {
    #[verifier::type_invariant]
    closed spec fn tiles_fit(self) -> bool {
        is_tile_multiple(self.width) && is_tile_multiple(self.height)
    }

    /// The number of cells in a row.
    pub closed spec fn spec_width(&self) -> u32 {
        self.width
    }

    /// The number of rows.
    pub closed spec fn spec_height(&self) -> u32 {
        self.height
    }

    /// What holds of every value of this type that a program can hold; stated
    /// for proofs, which may speak of values that no program made.
    pub open spec fn is_valid(self) -> bool {
        is_tile_multiple(self.spec_width()) && is_tile_multiple(self.spec_height())
    }

    /// The number of cells of the grid.
    pub open spec fn spec_cell_count(self) -> nat {
        self.spec_width() as nat * self.spec_height() as nat
    }

    /// The number of workgroups that cover the grid along each axis: one per
    /// tile across, one per tile down, and a single layer.
    pub open spec fn spec_workgroup_counts(self) -> (u32, u32, u32) {
        (
            ((self.spec_width() + WORKGROUP_WIDTH - 1) / WORKGROUP_WIDTH as int) as u32,
            ((self.spec_height() + WORKGROUP_WIDTH - 1) / WORKGROUP_WIDTH as int) as u32,
            1u32,
        )
    }

    /// The dimensions `width` by `height`, or `None` unless both are positive
    /// multiples of the workgroup width.
    pub fn new(width: u32, height: u32) -> (made: Option<GridDimensions>)
        ensures
            made.is_some() <==> is_tile_multiple(width) && is_tile_multiple(height),
            made matches Some(dimensions) ==> dimensions.spec_width() == width
                && dimensions.spec_height() == height && dimensions.is_valid(),
    {
        if width > 0 && width % WORKGROUP_WIDTH == 0 && height > 0 && height % WORKGROUP_WIDTH
            == 0 {
            Some(GridDimensions { width, height })
        } else {
            None
        }
    }

    /// The number of cells in a row.
    #[verifier::when_used_as_spec(spec_width)]
    pub fn width(&self) -> (width: u32)
        ensures
            width == self.spec_width(),
            is_tile_multiple(width),
    {
        proof {
            use_type_invariant(self);
        }
        self.width
    }

    /// The number of rows.
    #[verifier::when_used_as_spec(spec_height)]
    pub fn height(&self) -> (height: u32)
        ensures
            height == self.spec_height(),
            is_tile_multiple(height),
    {
        proof {
            use_type_invariant(self);
        }
        self.height
    }

    /// The number of cells of the grid.
    pub fn cell_count(&self) -> (count: u64)
        ensures
            count == self.spec_cell_count(),
            count > 0,
    {
        proof {
            use_type_invariant(self);
            assert(self.width as nat * self.height as nat <= 0xffff_ffff * 0xffff_ffff)
                by (nonlinear_arith)
                requires
                    self.width <= 0xffff_ffff,
                    self.height <= 0xffff_ffff,
            ;
            assert(self.width as nat * self.height as nat > 0) by (nonlinear_arith)
                requires
                    self.width > 0,
                    self.height > 0,
            ;
        }
        self.width as u64 * self.height as u64
    }

    /// The number of workgroups that cover the grid along each axis.
    pub fn workgroup_counts(&self) -> (counts: (u32, u32, u32))
        ensures
            counts == self.spec_workgroup_counts(),
            counts.0 * WORKGROUP_WIDTH == self.spec_width(),
            counts.1 * WORKGROUP_WIDTH == self.spec_height(),
            counts.2 == 1,
    {
        proof {
            use_type_invariant(self);
        }
        let workgroup_count_x: u32 = (self.width + (WORKGROUP_WIDTH - 1)) / WORKGROUP_WIDTH;
        let workgroup_count_y: u32 = (self.height + (WORKGROUP_WIDTH - 1)) / WORKGROUP_WIDTH;
        let workgroup_count_z: u32 = 1;
        (workgroup_count_x, workgroup_count_y, workgroup_count_z)
    }
}

/// Whole tiles cover a valid grid exactly: the workgroups along an axis,
/// each a workgroup width long, add up to the grid's extent, so that no
/// workgroup reaches beyond the grid and no cell is left out.
pub proof fn lemma_tiles_cover_grid(dimensions: GridDimensions)
    requires
        dimensions.is_valid(),
    ensures
        dimensions.spec_workgroup_counts().0 * WORKGROUP_WIDTH == dimensions.spec_width(),
        dimensions.spec_workgroup_counts().1 * WORKGROUP_WIDTH == dimensions.spec_height(),
        dimensions.spec_workgroup_counts().2 == 1,
        dimensions.spec_workgroup_counts().0 * dimensions.spec_workgroup_counts().1 * 64
            == dimensions.spec_cell_count(),
{
    let x = dimensions.spec_workgroup_counts().0 as int;
    let y = dimensions.spec_workgroup_counts().1 as int;
    assert(x * 8 == dimensions.spec_width());
    assert(y * 8 == dimensions.spec_height());
    assert(x * y * 64 == (x * 8) * (y * 8)) by (nonlinear_arith);
}

} // verus!
