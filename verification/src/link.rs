//! Non-owning references to components that are owned elsewhere.
//!
//! The machine owns its components through `Rc<RefCell<_>>`; the router keeps
//! only a `Weak` to each, so that no ownership cycle arises. Nothing in this
//! file is proved: it gives Verus the names of the standard types involved and
//! a contract-free entry to each standard function used on them.

use std::cell::Ref;
use std::cell::RefCell;
use std::cell::RefMut;
use std::rc::Rc;
use std::rc::Weak;
use vstd::prelude::*;

verus! {

/// `std::cell::RefCell`, taken as opaque: its content can change behind a
/// shared reference, so nothing is known of it.
#[verifier::external_type_specification]
#[verifier::external_body]
#[verifier::reject_recursive_types(T)]
pub struct ExRefCell<T: ?Sized>(RefCell<T>);

/// `std::cell::Ref`, the guard of a shared borrow, taken as opaque.
#[verifier::external_type_specification]
#[verifier::external_body]
#[verifier::reject_recursive_types(T)]
pub struct ExRef<'b, T: ?Sized>(Ref<'b, T>);

/// `std::cell::RefMut`, the guard of an exclusive borrow, taken as opaque.
#[verifier::external_type_specification]
#[verifier::external_body]
#[verifier::reject_recursive_types(T)]
pub struct ExRefMut<'b, T: ?Sized + 'b>(RefMut<'b, T>);

/// A `std::rc::Weak<RefCell<T>>`: a reference that does not keep its referent
/// alive. Opaque, because `Weak` carries an allocator parameter that cannot be
/// named here.
#[verifier::external_body]
#[verifier::reject_recursive_types(T)]
pub struct Backref<T> {
    weak: Weak<RefCell<T>>,
}

/// `Rc::downgrade`: a new non-owning reference to the component behind
/// `owner`. Nothing is claimed of the result.
#[verifier::external_body]
pub(crate) fn downgrade<T>(owner: &Rc<RefCell<T>>) -> Backref<T> {
    Backref { weak: Rc::downgrade(owner) }
}

/// `Weak::upgrade`: the component, if some owner still keeps it alive. Whether
/// one does is not a function of the arguments, so nothing is claimed.
#[verifier::external_body]
pub(crate) fn upgrade<T>(backref: &Backref<T>) -> Option<Rc<RefCell<T>>> {
    backref.weak.upgrade()
}

/// `RefCell::try_borrow`: a shared borrow, unless the cell is borrowed
/// exclusively right now. Nothing is claimed of which it is.
#[verifier::external_body]
pub(crate) fn try_borrow<T>(cell: &RefCell<T>) -> Option<Ref<'_, T>> {
    match cell.try_borrow() {
        Ok(guard) => Some(guard),
        Err(_) => None,
    }
}

/// `RefCell::try_borrow_mut`: an exclusive borrow, unless the cell is borrowed
/// in any way right now. Nothing is claimed of which it is.
#[verifier::external_body]
pub(crate) fn try_borrow_mut<T>(cell: &RefCell<T>) -> Option<RefMut<'_, T>> {
    match cell.try_borrow_mut() {
        Ok(guard) => Some(guard),
        Err(_) => None,
    }
}

/// `Deref::deref` of a shared guard: the component it guards. Nothing is
/// claimed of the component's state.
#[verifier::external_body]
pub(crate) fn peek<'a, 'b, T>(guard: &'a Ref<'b, T>) -> &'a T {
    std::ops::Deref::deref(guard)
}

/// `DerefMut::deref_mut` of an exclusive guard: the component it guards.
/// Nothing is claimed of the component's state, before or after.
#[verifier::external_body]
pub(crate) fn peek_mut<'a, 'b, T>(guard: &'a mut RefMut<'b, T>) -> &'a mut T {
    std::ops::DerefMut::deref_mut(guard)
}

} // verus!
