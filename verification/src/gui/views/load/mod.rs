//! First loading screen: the progress of the chip library load, as the
//! loading tasks report it.

pub mod state;

use vstd::prelude::*;

use self::state::ChipLoadingState;

verus! {

/// The loading screen.
pub struct LoadingView {
    /// The progress of the chip library load.
    pub chips: ChipLoadingState,
    /// Whether the load completed.
    pub finished: bool,
}

impl LoadingView {
    /// Creates the loading screen, with nothing loaded.
    pub fn new() -> (v: Self)
        ensures
            v.chips == ChipLoadingState::new_spec(),
            !v.finished,
    {
        LoadingView { chips: ChipLoadingState::new(), finished: false }
    }

    /// Whether the load completed.
    pub fn finished(&self) -> (b: bool)
        ensures
            b == self.finished,
    {
        self.finished
    }

    /// Takes the latest reports of the loading tasks, each absent when there
    /// is no such task: the chip counter (the number of chips loaded and the
    /// number to load), the manufacturers and search counters, and the
    /// completion flag. Returns true when the load completed with success
    /// now.
    pub fn screen(
        &mut self,
        chip: Option<(usize, usize)>,
        mnfs: Option<usize>,
        search: Option<usize>,
        done: Option<bool>,
    ) -> (completed: bool)
        ensures
            final(self).chips == (ChipLoadingState {
                chips: match chip {
                    Some(c) => (c.0, c.1),
                    None => old(self).chips.chips,
                },
                mnfs: match mnfs {
                    Some(m) => m,
                    None => old(self).chips.mnfs,
                },
                search: match search {
                    Some(s) => s,
                    None => old(self).chips.search,
                },
                ..old(self).chips
            }),
            completed == (done == Some(true)),
            final(self).finished == (old(self).finished || completed),
    {
        if let Some(c) = chip {
            self.chips.maxchip(c.1);
            self.chips.loadedchip(c.0);
        }
        if let Some(m) = mnfs {
            self.chips.mnfs(m);
        }
        if let Some(s) = search {
            self.chips.search(s);
        }
        if let Some(true) = done {
            self.finished = true;
            return true;
        }
        false
    }
}

} // verus!
