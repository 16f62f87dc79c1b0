//! The charge capability of a peak, and its borrowed views.
use vstd::prelude::*;

verus! {

/// An entity with a determined charge state.
pub trait KnownCharge {
    /// The charge state the entity currently reports.
    spec fn charge_view(&self) -> i32;

    fn charge(&self) -> (r: i32)
        ensures
            r == self.charge_view(),
    ;
}

/// A shared borrow reports the referent's charge.
impl<T: KnownCharge> KnownCharge for &T {
    open spec fn charge_view(&self) -> i32 {
        (**self).charge_view()
    }

    fn charge(&self) -> (r: i32) {
        (**self).charge()
    }
}

/// A mutable borrow reports the referent's charge.
impl<T: KnownCharge> KnownCharge for &mut T {
    open spec fn charge_view(&self) -> i32 {
        (**self).charge_view()
    }

    fn charge(&self) -> (r: i32) {
        (**self).charge()
    }
}

/// An entity whose stored charge state can be written in place.
pub trait KnownChargeMut: KnownCharge {
    /// Hands out the stored charge: it starts as the current charge, and
    /// what is left in it becomes the entity's charge.
    fn charge_mut(&mut self) -> (r: &mut i32)
        ensures
            *r == old(self).charge_view(),
            final(self).charge_view() == *final(r),
    ;
}

/// A mutable borrow hands out the referent's stored charge.
impl<T: KnownChargeMut> KnownChargeMut for &mut T {
    fn charge_mut(&mut self) -> (r: &mut i32) {
        (**self).charge_mut()
    }
}

} // verus!
