//! The actions a document tool offers, with their display strings.

use vstd::prelude::*;

verus! {

/// One operation the tool can perform on PDF files.
#[derive(Debug, Clone, Copy, PartialEq, Eq, Structural)]
pub enum Action {
    Split,
    Extract,
    Merge,
    Compress,
}

impl Action {
    /// The short label shown for this action.
    pub open spec fn spec_label(self) -> Seq<char> {
        match self {
            Action::Split => "Split"@,
            Action::Extract => "Extract pages"@,
            Action::Merge => "Merge"@,
            Action::Compress => "Compress"@,
        }
    }

    /// The hover hint shown for this action.
    pub open spec fn spec_hint(self) -> Seq<char> {
        match self {
            Action::Split => "Split a single PDF into multiple"@,
            Action::Extract => "Extract a page or range of pages from a PDF"@,
            Action::Merge => "Merge a group of PDFs into one"@,
            Action::Compress => "Compress PDFs"@,
        }
    }

    /// Every supported action, in display order.
    pub fn all() -> (r: Vec<Action>)
        ensures
            r@ == seq![Action::Split, Action::Extract, Action::Merge, Action::Compress],
    {
        let mut v: Vec<Action> = Vec::new();
        v.push(Action::Split);
        v.push(Action::Extract);
        v.push(Action::Merge);
        v.push(Action::Compress);
        proof {
            assert(v@ =~= seq![Action::Split, Action::Extract, Action::Merge, Action::Compress]);
        }
        v
    }

    /// The short label shown for this action.
    pub fn label(&self) -> (r: &'static str)
        ensures
            r@ == self.spec_label(),
    {
        match self {
            Action::Split => "Split",
            Action::Extract => "Extract pages",
            Action::Merge => "Merge",
            Action::Compress => "Compress",
        }
    }

    /// The hover hint shown for this action.
    pub fn hint(&self) -> (r: &'static str)
        ensures
            r@ == self.spec_hint(),
    {
        match self {
            Action::Split => "Split a single PDF into multiple",
            Action::Extract => "Extract a page or range of pages from a PDF",
            Action::Merge => "Merge a group of PDFs into one",
            Action::Compress => "Compress PDFs",
        }
    }
}

} // verus!
