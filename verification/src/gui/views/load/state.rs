//! Progress of the initial load of the chip library.

use vstd::prelude::*;

verus! {

/// Progress of the chip library load.
#[derive(Debug, Clone, Copy)]
pub struct ChipLoadingState {
    /// Number of chips loaded, and number of chips to load.
    pub chips: (usize, usize),
    /// Number of manufacturers entries generated.
    pub mnfs: usize,
    /// Number of families entries generated.
    pub fmls: usize,
    /// Number of search engine entries generated.
    pub search: usize,
}

impl ChipLoadingState {
    /// The empty progress.
    pub open spec fn new_spec() -> Self {
        ChipLoadingState { chips: (0, 0), mnfs: 0, fmls: 0, search: 0 }
    }

    /// Creates an empty `ChipLoadingState`.
    pub fn new() -> (s: Self)
        ensures
            s == Self::new_spec(),
    {
        ChipLoadingState { chips: (0, 0), mnfs: 0, fmls: 0, search: 0 }
    }

    /// Sets the number of chips to load.
    pub fn maxchip(&mut self, max: usize)
        ensures
            *final(self) == (ChipLoadingState { chips: (old(self).chips.0, max), ..*old(self) }),
    {
        self.chips.1 = max;
    }

    /// Sets the number of chips loaded.
    pub fn loadedchip(&mut self, l: usize)
        ensures
            *final(self) == (ChipLoadingState { chips: (l, old(self).chips.1), ..*old(self) }),
    {
        self.chips.0 = l;
    }

    /// Sets the number of manufacturers entries generated.
    pub fn mnfs(&mut self, mnfs: usize)
        ensures
            *final(self) == (ChipLoadingState { mnfs, ..*old(self) }),
    {
        self.mnfs = mnfs;
    }

    /// Sets the number of families entries generated.
    pub fn fmls(&mut self, fmls: usize)
        ensures
            *final(self) == (ChipLoadingState { fmls, ..*old(self) }),
    {
        self.fmls = fmls;
    }

    /// Sets the number of search entries generated.
    pub fn search(&mut self, search: usize)
        ensures
            *final(self) == (ChipLoadingState { search, ..*old(self) }),
    {
        self.search = search;
    }
}

} // verus!
