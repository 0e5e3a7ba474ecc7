//! Column-major accumulation of pixel data.
//!
//! The pixel grid of a width × height raster is emitted as a sequence of
//! `width` columns, each a sequence of `height` byte values (column-major, not
//! row-major). The grid is filled one column at a time, left to right; each
//! column is obtained by reading a 1 × height window of the raster at that
//! column's offset, with the resampling target equal to the window so that the
//! read is a pass-through copy.

use vstd::prelude::*;

verus! {

/// The window that must be read from the raster to obtain the next column:
/// a `win_width` × `win_height` region at pixel offset (`x_off`, `y_off`),
/// resampled to a `buf_width` × `buf_height` buffer.
#[derive(Debug, Clone, Copy, PartialEq, Eq, Structural)]
pub struct ReadWindow {
    pub x_off: usize,
    pub y_off: usize,
    pub win_width: usize,
    pub win_height: usize,
    pub buf_width: usize,
    pub buf_height: usize,
}

/// A partially filled column-major pixel grid.
pub struct ColumnGrid {
    width: usize,
    height: usize,
    cols: Vec<Vec<u8>>,
}

impl ColumnGrid {
    /// The columns accumulated so far, each as a sequence of bytes.
    pub closed spec fn view(&self) -> Seq<Seq<u8>> {
        Seq::new(self.cols@.len(), |i: int| self.cols@[i]@)
    }

    /// The number of columns the full grid will have.
    pub closed spec fn spec_width(&self) -> usize {
        self.width
    }

    /// The number of rows in every column.
    pub closed spec fn spec_height(&self) -> usize {
        self.height
    }

    /// Every accumulated column has exactly `height` rows, and no more than
    /// `width` columns have been accumulated.
    pub open spec fn wf(&self) -> bool {
        &&& self@.len() <= self.spec_width()
        &&& forall|i: int| 0 <= i < self@.len() ==> (#[trigger] self@[i]).len() == self.spec_height()
    }

    /// All `width` columns have been accumulated.
    pub open spec fn complete(&self) -> bool {
        self@.len() == self.spec_width()
    }

    /// An empty grid for a width × height raster.
    pub fn new(width: usize, height: usize) -> (g: ColumnGrid)
        ensures
            g.wf(),
            g@ == Seq::<Seq<u8>>::empty(),
            g.spec_width() == width,
            g.spec_height() == height,
    {
        let g = ColumnGrid { width, height, cols: Vec::new() };
        proof {
            assert(g@ =~= Seq::<Seq<u8>>::empty());
        }
        g
    }

    #[verifier::when_used_as_spec(spec_width)]
    pub fn width(&self) -> (w: usize)
        ensures
            w == self.spec_width(),
    {
        self.width
    }

    #[verifier::when_used_as_spec(spec_height)]
    pub fn height(&self) -> (h: usize)
        ensures
            h == self.spec_height(),
    {
        self.height
    }

    /// Whether every column has been accumulated.
    pub fn is_complete(&self) -> (r: bool)
        ensures
            r == self.complete(),
    {
        self.cols.len() == self.width
    }

    /// The index of the next column to read, counting from the left.
    pub fn next_column(&self) -> (x: usize)
        requires
            self.wf(),
            !self.complete(),
        ensures
            x == self@.len(),
            x < self.spec_width(),
    {
        self.cols.len()
    }

    /// The raster window to read for the next column: a 1 × height strip at
    /// column offset `next_column()`, resampled to an equal-sized buffer.
    pub fn read_window(&self) -> (w: ReadWindow)
        requires
            !self.complete(),
        ensures
            w.x_off == self@.len(),
            w.y_off == 0,
            w.win_width == 1,
            w.win_height == self.spec_height(),
            w.buf_width == w.win_width,
            w.buf_height == w.win_height,
    {
        ReadWindow {
            x_off: self.cols.len(),
            y_off: 0,
            win_width: 1,
            win_height: self.height,
            buf_width: 1,
            buf_height: self.height,
        }
    }

    /// Appends the bytes read for the next column.
    pub fn push_column(&mut self, col: Vec<u8>)
        requires
            old(self).wf(),
            !old(self).complete(),
            col@.len() == old(self).spec_height(),
        ensures
            final(self).wf(),
            final(self)@ == old(self)@.push(col@),
            final(self).spec_width() == old(self).spec_width(),
            final(self).spec_height() == old(self).spec_height(),
    {
        self.cols.push(col);
        proof {
            assert(self@ =~= old(self)@.push(col@));
        }
    }

    /// Hands the finished grid out as `width` columns of `height` bytes each.
    pub fn into_columns(self) -> (r: Vec<Vec<u8>>)
        requires
            self.wf(),
            self.complete(),
        ensures
            r@.len() == self.spec_width(),
            forall|i: int| 0 <= i < r@.len() ==> (#[trigger] r@[i])@ == self@[i],
            forall|i: int| 0 <= i < r@.len() ==> (#[trigger] r@[i])@.len() == self.spec_height(),
    {
        proof {
            assert forall|i: int| 0 <= i < self.cols@.len() implies (#[trigger] self.cols@[i])@.len()
                == self.spec_height() by {
                assert(self@[i] == self.cols@[i]@);
            }
        }
        self.cols
    }
}

/// A complete well-formed grid holds exactly `width` columns, each of exactly
/// `height` bytes: the shape of the `data` field of the output document.
pub proof fn lemma_complete_grid_shape(g: &ColumnGrid)
    requires
        g.wf(),
        g.complete(),
    ensures
        g@.len() == g.spec_width(),
        forall|i: int| 0 <= i < g@.len() ==> (#[trigger] g@[i]).len() == g.spec_height(),
{
}

} // verus!
