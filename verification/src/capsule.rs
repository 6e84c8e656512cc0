//! The instance capsule: the one value a host holds for a plugin instance.

use vstd::prelude::*;
use vstd::std_specs::convert::FromSpecImpl;

verus! {

/// Holds zero or one plugin instance of type `D`.
///
/// A capsule is *empty* before an instance was constructed and *populated*
/// once it holds one.
pub struct DataWrapper<D> {
    pub data: Option<D>,
}

impl<D> DataWrapper<D> {
    /// Whether the capsule holds a live instance.
    pub open spec fn populated(&self) -> bool {
        self.data is Some
    }

    /// Tells whether the capsule holds a live instance.
    pub fn is_populated(&self) -> (r: bool)
        ensures
            r == self.populated(),
    {
        self.data.is_some()
    }
}

impl<D> Default for DataWrapper<D> {
    /// An empty capsule.
    fn default() -> (w: Self)
        ensures
            w.data is None,
    {
        Self { data: None }
    }
}

impl<D> From<D> for DataWrapper<D> {
    /// A populated capsule around `data`.
    fn from(data: D) -> (w: Self) {
        Self { data: Some(data) }
    }
}

impl<D> FromSpecImpl<D> for DataWrapper<D> {
    open spec fn obeys_from_spec() -> bool {
        true
    }

    open spec fn from_spec(data: D) -> Self {
        DataWrapper { data: Some(data) }
    }
}

} // verus!
