use vstd::prelude::*;

verus! {

/// A handle to a widget: an index into the widget stores and the generation
/// of that index.
#[derive(Clone, Copy, Debug, PartialEq, Eq, Structural, Hash)]
pub struct Entity {
    pub index: u32,
    pub generation: u32,
}

impl Entity {
    #[verifier::allow_in_spec]
    pub fn new(index: u32, generation: u32) -> Self
        returns
            (Entity { index, generation }),
    {
        Entity { index, generation }
    }

    /// The handle that stands for no widget.
    #[verifier::allow_in_spec]
    pub fn null() -> Self
        returns
            (Entity { index: u32::MAX, generation: u32::MAX }),
    {
        Entity { index: u32::MAX, generation: u32::MAX }
    }

    /// The window's own widget, at the root of the hierarchy.
    #[verifier::allow_in_spec]
    pub fn root() -> Self
        returns
            (Entity { index: 0, generation: 0 }),
    {
        Entity { index: 0, generation: 0 }
    }
}

} // verus!
