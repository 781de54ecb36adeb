//! GUI component to select the target.

use vstd::prelude::*;

use crate::text::{byte_len, text_len};

verus! {

/// The names of the targets that a selection list shows: the targets at
/// the matched positions, in match order, skipping positions past the end of
/// the target list; or every target when there is no search.
pub open spec fn possible_names(matches: Option<Seq<usize>>, targets: Seq<Seq<char>>) -> Seq<Seq<char>> {
    match matches {
        Some(m) => m.filter(|i: usize| i < targets.len()).map_values(|i: usize| targets[i as int]),
        None => targets,
    }
}

/// State of the target selection: the text input, the selected target and
/// the positions of the targets that match the input.
pub struct TargetSelection {
    /// The current text input.
    pub input: String,
    /// The currently selected target.
    pub selected: Option<String>,
    /// The indices of the targets that currently match the search.
    pub matches: Option<Vec<usize>>,
}

impl TargetSelection {
    /// Creates a new target selector, with no input, selection or search.
    pub fn new() -> (t: Self)
        ensures
            t.input@ == Seq::<char>::empty(),
            t.selected is None,
            t.matches is None,
    {
        Self { input: String::new(), selected: None, matches: None }
    }

    /// An input of two bytes or more is searched for in the target library;
    /// a shorter one shows every target.
    pub fn search_needed(input: &String) -> (b: bool)
        ensures
            b == (byte_len(input@) >= 2),
    {
        text_len(input.as_str()) >= 2
    }

    /// Updates the text input, with `found` the library's matches for `new`:
    /// they are kept when the input is searched, dropped otherwise.
    pub fn textinput(&mut self, new: String, found: Option<Vec<usize>>)
        ensures
            final(self).input@ == new@,
            final(self).selected == old(self).selected,
            final(self).matches == (if byte_len(new@) >= 2 {
                found
            } else {
                None
            }),
    {
        let search = Self::search_needed(&new);
        self.input = new;
        if search {
            self.matches = found;
        } else {
            self.matches = None;
        }
    }

    /// Marks the given target as selected; the input shows its name.
    pub fn mark(&mut self, name: String)
        ensures
            final(self).input@ == name@,
            final(self).selected == Some(name),
            final(self).matches == old(self).matches,
    {
        self.input = name.clone();
        self.selected = Some(name);
    }

    /// Unmarks the target.
    pub fn unmark(&mut self)
        ensures
            final(self).selected is None,
            final(self).input == old(self).input,
            final(self).matches == old(self).matches,
    {
        self.selected = None;
    }

    /// The names of the targets that the list of possible targets shows,
    /// given the names of all targets in the library.
    pub fn possible(&self, targets: &Vec<String>) -> (names: Vec<String>)
        ensures
            names@.map_values(|s: String| s@) == possible_names(
                match self.matches {
                    Some(m) => Some(m@),
                    None => None,
                },
                targets@.map_values(|s: String| s@),
            ),
    {
        let ghost f = |s: String| s@;
        let ghost tv = targets@.map_values(f);
        let mut names: Vec<String> = Vec::new();
        match &self.matches {
            Some(m) => {
                let ghost p = |i: usize| i < tv.len();
                let ghost g = |i: usize| tv[i as int];
                let mut k: usize = 0;
                while k < m.len()
                    invariant
                        k <= m@.len(),
                        f == (|s: String| s@),
                        tv == targets@.map_values(f),
                        p == (|i: usize| i < tv.len()),
                        g == (|i: usize| tv[i as int]),
                        names@.map_values(f) == m@.take(k as int).filter(p).map_values(g),
                    decreases m@.len() - k,
                {
                    let i = m[k];
                    proof {
                        crate::seqs::lemma_filter_take_push(m@, p, k as int);
                    }
                    if i < targets.len() {
                        let ghost before = names@;
                        let t = targets[i].clone();
                        names.push(t);
                        proof {
                            crate::seqs::lemma_map_push(before, t, f);
                            crate::seqs::lemma_map_push(m@.take(k as int).filter(p), i, g);
                        }
                    }
                    k = k + 1;
                }
                assert(m@.take(m@.len() as int) =~= m@);
            },
            None => {
                let mut k: usize = 0;
                while k < targets.len()
                    invariant
                        k <= targets@.len(),
                        f == (|s: String| s@),
                        names@.map_values(f) == targets@.take(k as int).map_values(f),
                    decreases targets@.len() - k,
                {
                    let ghost before = names@;
                    let t = targets[k].clone();
                    names.push(t);
                    proof {
                        crate::seqs::lemma_map_push(before, t, f);
                        crate::seqs::lemma_take_push(targets@, k as int);
                        crate::seqs::lemma_map_push(targets@.take(k as int), targets@[k as int], f);
                    }
                    k = k + 1;
                }
                assert(targets@.take(targets@.len() as int) =~= targets@);
            },
        }
        names
    }

    /// The message of the "Select" button, given whether the library has a
    /// target named as the input: it selects the input if so, and the button
    /// does nothing otherwise.
    pub fn select_message(&self, exists: bool) -> (m: Option<crate::gui::Message>)
        ensures
            match m {
                Some(crate::gui::Message::SelectTarget(name)) => exists && name@ == self.input@,
                Some(_) => false,
                None => !exists,
            },
    {
        if exists {
            Some(crate::gui::Message::SelectTarget(self.input.clone()))
        } else {
            None
        }
    }

    /// The buttons of the list of possible targets: each name shown, as in
    /// `possible`, with the message its button sends, which puts that name
    /// in the text input.
    pub fn possible_buttons(&self, targets: &Vec<String>) -> (b: Vec<(String, crate::gui::Message)>)
        ensures
            b@.map_values(|e: (String, crate::gui::Message)| e.0@) == possible_names(
                match self.matches {
                    Some(m) => Some(m@),
                    None => None,
                },
                targets@.map_values(|s: String| s@),
            ),
            forall|t: int|
                #![trigger b@[t]]
                0 <= t < b@.len() ==> (b@[t].1 matches crate::gui::Message::USBConfiguration(
                    super::Message::TargetTextChange(n),
                ) && n@ == b@[t].0@),
    {
        let names = self.possible(targets);
        let ghost f = |s: String| s@;
        let ghost g = |e: (String, crate::gui::Message)| e.0@;
        let mut b: Vec<(String, crate::gui::Message)> = Vec::new();
        let mut t: usize = 0;
        while t < names.len()
            invariant
                t <= names@.len(),
                f == (|s: String| s@),
                g == (|e: (String, crate::gui::Message)| e.0@),
                b@.map_values(g) == names@.take(t as int).map_values(f),
                forall|u: int|
                    #![trigger b@[u]]
                    0 <= u < b@.len() ==> (b@[u].1 matches crate::gui::Message::USBConfiguration(
                        super::Message::TargetTextChange(n),
                    ) && n@ == b@[u].0@),
            decreases names@.len() - t,
        {
            let name = names[t].clone();
            let msg = crate::gui::Message::USBConfiguration(super::Message::TargetTextChange(names[t].clone()));
            let e = (name, msg);
            proof {
                crate::seqs::lemma_map_push(b@, e, g);
                crate::seqs::lemma_take_push(names@, t as int);
                crate::seqs::lemma_map_push(names@.take(t as int), names@[t as int], f);
            }
            b.push(e);
            t = t + 1;
        }
        assert(names@.take(names@.len() as int) =~= names@);
        b
    }
}

} // verus!

verus! {

/// The list of possible targets shows every target when there is no search;
/// during a search it shows only names of the library, and when every match
/// is a position of the library it shows exactly the matched targets, one
/// per match, in match order.
pub proof fn law_possible_names(matches: Option<Seq<usize>>, targets: Seq<Seq<char>>)
    ensures
        matches is None ==> possible_names(matches, targets) == targets,
        forall|k: int|
            0 <= k < possible_names(matches, targets).len() ==> targets.contains(
                #[trigger] possible_names(matches, targets)[k],
            ),
        matches matches Some(m) ==> ((forall|j: int| 0 <= j < m.len() ==> #[trigger] m[j] < targets.len()) ==> {
            &&& possible_names(matches, targets).len() == m.len()
            &&& forall|j: int| 0 <= j < m.len() ==> #[trigger] possible_names(matches, targets)[j] == targets[m[j] as int]
        }),
{
    if let Some(m) = matches {
        let p = |i: usize| i < targets.len();
        let f = m.filter(p);
        assert forall|k: int| 0 <= k < possible_names(matches, targets).len() implies targets.contains(
            #[trigger] possible_names(matches, targets)[k],
        ) by {
            m.lemma_filter_pred(p, k);
            assert(targets[f[k] as int] == possible_names(matches, targets)[k]);
        }
        if forall|j: int| 0 <= j < m.len() ==> #[trigger] m[j] < targets.len() {
            crate::seqs::lemma_filter_all(m, p);
        }
    }
}

} // verus!
