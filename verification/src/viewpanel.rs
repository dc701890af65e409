//! The image panel: a grid of equally sized panes, each showing one
//! rendered slice.
//!
//! The panel itself only holds layout and rendering parameters; turning
//! a pane's samples into pixel bytes goes through the colormap stage,
//! with the numeric scalar extraction performed by the display layer
//! outside this crate.

use vstd::prelude::*;

use crate::colormap::ViewMode;
use crate::rational::{Frac, Rat};

verus! {

/// A message delivered to the view panel.
#[derive(Debug, Clone)]
pub enum ViewPanelMessage {
    Increment,
}

/// A grid of image panes and the parameters their pixels are rendered
/// with.
pub struct ViewPanel {
    /// The number of panes in the grid.
    pub n_panes: usize,
    /// The size of each pane, columns by rows.
    pub pane_dims: [usize; 2],
    /// The shape of the pane grid, rows by columns.
    pub grid_dims: [usize; 2],
    /// The scalar taken from each sample.
    pub view_mode: ViewMode,
    /// The factor each scalar is multiplied by before the clamp.
    pub scaling: Rat,
}

impl ViewPanel {
    /// Well-formedness: the grid's pane count is addressable and the
    /// scaling factor is in bounds.
    pub open spec fn wf(self) -> bool {
        &&& self.grid_dims@[0] * self.grid_dims@[1] <= usize::MAX as int
        &&& self.scaling.wf()
    }

    /// Applies a panel message; no current message changes the panel.
    pub fn update(&mut self, message: ViewPanelMessage)
        ensures
            *final(self) == *old(self),
    {
        match message {
            ViewPanelMessage::Increment => {},
        }
    }

    /// The number of panes the grid holds.
    pub fn pane_count(&self) -> (r: usize)
        requires
            self.wf(),
        ensures
            r as int == self.grid_dims@[0] * self.grid_dims@[1],
    {
        self.grid_dims[0] * self.grid_dims[1]
    }
}

impl Default for ViewPanel {
    /// The default panel: one row of three 512 by 512 panes, rendered
    /// as magnitudes scaled by 128.
    fn default() -> (r: ViewPanel)
        ensures
            r.n_panes == 3,
            r.pane_dims@ == seq![512usize, 512usize],
            r.grid_dims@ == seq![1usize, 3usize],
            r.view_mode == ViewMode::Mag,
            r.scaling@ == (Frac { n: 128, d: 1 }),
            r.wf(),
    {
        let pane_dims: [usize; 2] = [512, 512];
        let grid_dims: [usize; 2] = [1, 3];
        proof {
            assert(pane_dims@ =~= seq![512usize, 512usize]);
            assert(grid_dims@ =~= seq![1usize, 3usize]);
        }
        ViewPanel {
            n_panes: 3,
            pane_dims,
            grid_dims,
            view_mode: ViewMode::Mag,
            scaling: Rat::exact(128, 1),
        }
    }
}

} // verus!
