//! Coordinate-space tags and the index capability an entity has in one of them.
use vstd::prelude::*;

verus! {

/// The mass-to-charge ratio (m/z) coordinate space.
#[derive(Default, Debug, Clone, Copy, PartialEq, Eq, Structural, PartialOrd)]
pub struct MZ();

/// The neutral mass coordinate space.
#[derive(Default, Debug, Clone, Copy)]
pub struct Mass();

/// The elapsed event time coordinate space.
#[derive(Default, Debug, Clone, Copy)]
pub struct Time();

/// The ion mobility time coordinate space.
#[derive(Default, Debug, Clone, Copy)]
pub struct IonMobility();

/// The ordinal of an entity within the collection that holds it.
pub type IndexType = u32;

/// An entity that carries an ordinal in coordinate space `T`, assigned by
/// the collection that holds it.
pub trait IndexedCoordinate<T> {
    /// The ordinal the entity currently reports.
    spec fn index_view(&self) -> IndexType;

    fn get_index(&self) -> (r: IndexType)
        ensures
            r == self.index_view(),
    ;

    fn set_index(&mut self, index: IndexType);
}

/// A shared borrow reports the referent's index and ignores writes.
impl<T: IndexedCoordinate<C>, C> IndexedCoordinate<C> for &T {
    open spec fn index_view(&self) -> IndexType {
        (**self).index_view()
    }

    fn get_index(&self) -> (r: IndexType) {
        (**self).get_index()
    }

    fn set_index(&mut self, _index: IndexType)
        ensures
            *final(self) == *old(self),
    {
    }
}

} // verus!
