use vstd::prelude::*;

verus! {

/// How a find command treats the selection.
#[derive(Clone, Copy, Debug, PartialEq, Eq, Structural)]
pub enum ModifySelection {
    /// The selection stays as it is.
    Untouched,
    /// The match becomes the selection.
    Replace,
    /// The match is added to the selection.
    Add,
    /// The match is added, and the region it was found from is removed.
    AddRemoveCurrent,
}

impl ModifySelection {
    /// The name under which the peer knows this choice.
    pub open spec fn spec_name(self) -> Seq<char> {
        match self {
            ModifySelection::Untouched => "none"@,
            ModifySelection::Replace => "set"@,
            ModifySelection::Add => "add"@,
            ModifySelection::AddRemoveCurrent => "add_remove_current"@,
        }
    }

    /// The name under which the peer knows this choice.
    pub fn name(self) -> (r: &'static str)
        ensures
            r@ == self.spec_name(),
    {
        match self {
            ModifySelection::Untouched => "none",
            ModifySelection::Replace => "set",
            ModifySelection::Add => "add",
            ModifySelection::AddRemoveCurrent => "add_remove_current",
        }
    }
}

} // verus!
