use vstd::prelude::*;

verus! {

/// Where a level stands on the list.
#[derive(Debug, Clone, Copy, PartialEq, Eq, Structural)]
pub enum LevelStatus {
    Pending,
    MainList,
    Legacy,
    Removed,
}

/// The identifying part of a level: its internal id and its name.
#[derive(Debug, Clone)]
pub struct BaseLevel {
    pub id: u128,
    pub name: String,
}

impl BaseLevel {
    /// An equal copy of this level.
    pub fn duplicate(&self) -> (r: BaseLevel)
        ensures
            r == *self,
    {
        BaseLevel { id: self.id, name: self.name.clone() }
    }
}

} // verus!
