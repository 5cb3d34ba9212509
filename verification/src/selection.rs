//! Selection results.
//!
//! A confirmed open dialog reports a table of (display name, full path)
//! pairs.  [`Selection`] takes ownership of the decoded table and exposes a
//! read-only, restartable, finite sequence over the entries; the table is
//! released exactly once, when the owning value goes out of scope, and no
//! entry can be read after that — the ownership design makes a use after
//! release unrepresentable rather than checked at run time.

use vstd::prelude::*;

verus! {

/// The abstract value of one selection entry.
#[verifier::ext_equal]
pub ghost struct PairView {
    pub file_name: Seq<char>,
    pub file_path_name: Seq<char>,
}

/// One selected file, as the native layer reports it: its display name and
/// its full path.
pub struct SelectionPair {
    pub file_name: String,
    pub file_path_name: String,
}

impl View for SelectionPair {
    type V = PairView;

    open spec fn view(&self) -> PairView {
        PairView { file_name: self.file_name@, file_path_name: self.file_path_name@ }
    }
}

impl DeepView for SelectionPair {
    type V = PairView;

    open spec fn deep_view(&self) -> PairView {
        self.view()
    }
}

/// An owned table of selection entries, decoded from what the native layer
/// reported for a confirmed dialog.
pub struct Selection {
    pairs: Vec<SelectionPair>,
}

impl View for Selection {
    type V = Seq<PairView>;

    closed spec fn view(&self) -> Seq<PairView> {
        self.pairs.deep_view()
    }
}

impl Selection {
    /// Take ownership of a decoded selection table.
    pub fn new(pairs: Vec<SelectionPair>) -> (s: Selection)
        ensures
            s@ == pairs.deep_view(),
    {
        Selection { pairs }
    }

    /// The number of selected files.
    pub fn count(&self) -> (n: usize)
        ensures
            n == self@.len(),
    {
        self.pairs.len()
    }

    /// The full paths of the selected files, in the order the native layer
    /// reported them, unchanged in count and content.
    pub fn files(&self) -> (r: Vec<String>)
        ensures
            r.deep_view() == self@.map_values(|p: PairView| p.file_path_name),
    {
        let ghost paths = self@.map_values(|p: PairView| p.file_path_name);
        let mut r: Vec<String> = Vec::new();
        let n = self.pairs.len();
        let mut i: usize = 0;
        while i < n
            invariant
                n == self.pairs.len(),
                i <= n,
                paths == self@.map_values(|p: PairView| p.file_path_name),
                self@ == self.pairs.deep_view(),
                r.deep_view().len() == i as nat,
                forall|j: int| 0 <= j < i ==> r.deep_view()[j] == paths[j],
            decreases n - i,
        {
            r.push(self.pairs[i].file_path_name.clone());
            i = i + 1;
        }
        proof {
            assert(r.deep_view() =~= paths);
        }
        r
    }

    /// Consume the selection, yielding the full paths of the selected files.
    pub fn into_vec(self) -> (r: Vec<String>)
        ensures
            r.deep_view() == self@.map_values(|p: PairView| p.file_path_name),
    {
        self.files()
    }
}

} // verus!
