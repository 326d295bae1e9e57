//! The garbage-collected heap, as far as this crate touches it.
//!
//! Nothing in this file is proved. Each function holds one call into the
//! collector or into a borrowed cell, and its contract says what the
//! collector's source shows of that call.

use crate::dispatch_object::DispatchObjectData;
use crate::events::{DispatchList, ListenerView};
use crate::script_object::ScriptObjectData;
use gc_arena::barrier::Write;
use gc_arena::lock::RefLock;
use gc_arena::{Gc, GcWeak, Mutation};
use std::cell::{Ref, RefMut};
use vstd::prelude::*;

verus! {

/// `gc_arena::Gc`: a pointer to an object on the heap that keeps the object
/// alive.
#[verifier::external_type_specification]
#[verifier::external_body]
#[verifier::reject_recursive_types(T)]
pub struct ExGc<'gc, T: ?Sized>(Gc<'gc, T>);

/// `gc_arena::GcWeak`: a pointer to an object on the heap that does not keep
/// the object alive.
#[verifier::external_type_specification]
#[verifier::external_body]
#[verifier::reject_recursive_types(T)]
pub struct ExGcWeak<'gc, T: ?Sized + 'gc>(GcWeak<'gc, T>);

/// `gc_arena::Mutation`: the gateway through which the heap is changed.
#[verifier::external_type_specification]
#[verifier::external_body]
pub struct ExMutation<'gc>(Mutation<'gc>);

/// `gc_arena::lock::RefLock`: a cell on the heap whose borrows are checked
/// when they are made.
#[verifier::external_type_specification]
#[verifier::external_body]
#[verifier::reject_recursive_types(T)]
pub struct ExRefLock<T: ?Sized>(RefLock<T>);

/// `std::cell::Ref`: a shared borrow of what a cell holds.
#[verifier::external_type_specification]
#[verifier::external_body]
#[verifier::reject_recursive_types(T)]
pub struct ExRef<'b, T: ?Sized>(Ref<'b, T>);

/// `std::cell::RefMut`: the one borrow for writing of what a cell holds.
#[verifier::external_type_specification]
#[verifier::external_body]
#[verifier::reject_recursive_types(T)]
pub struct ExRefMut<'b, T: ?Sized + 'b>(RefMut<'b, T>);

/// The header of the plain object that `gc` points to. It is set when the
/// object is allocated and never written again.
pub uninterp spec fn script_base(gc: Gc<'_, ScriptObjectData>) -> ScriptObjectData;

/// The header of the dispatch object that `gc` points to. It is set when the
/// object is allocated and never written again.
pub uninterp spec fn dispatch_base(gc: Gc<'_, DispatchObjectData>) -> ScriptObjectData;

/// The weak pointer to the object that `gc` points to.
pub uninterp spec fn weak_of(gc: Gc<'_, DispatchObjectData>) -> GcWeak<'_, DispatchObjectData>;

/// The pointer that `weak` was made from, which is the one that it resolves
/// to for as long as the object is alive.
pub uninterp spec fn strong_of(weak: GcWeak<'_, DispatchObjectData>) -> Gc<'_, DispatchObjectData>;

/// The list that `lock` was made around.
pub uninterp spec fn made_around(lock: RefLock<DispatchList>) -> Seq<ListenerView>;

/// The list that the dispatch object that `gc` points to was allocated
/// with. What the object holds later is not spoken of.
pub uninterp spec fn dispatch_first_list(gc: Gc<'_, DispatchObjectData>) -> Seq<ListenerView>;

/// `Gc::new_static`: allocates `data` on the heap. The new object holds
/// `data`, so its header is the one given.
#[verifier::external_body]
pub(crate) fn allocate_script<'gc>(mc: &Mutation<'gc>, data: ScriptObjectData) -> (gc: Gc<
    'gc,
    ScriptObjectData,
>)
    ensures
        script_base(gc) == data,
{
    Gc::new_static(mc, data)
}

/// `Gc::as_ref`: the data that `gc` points to, which is the header itself.
#[verifier::external_body]
pub(crate) fn script_data<'gc>(gc: Gc<'gc, ScriptObjectData>) -> (data: &'gc ScriptObjectData)
    ensures
        *data == script_base(gc),
{
    Gc::as_ref(gc)
}

/// `Gc::ptr_eq`: whether both pointers point to one allocation. A pointer's
/// value is the allocation that it points to.
#[verifier::external_body]
pub(crate) fn same_allocation<'gc, T>(a: Gc<'gc, T>, b: Gc<'gc, T>) -> (same: bool)
    ensures
        same == (a == b),
{
    Gc::ptr_eq(a, b)
}

/// `RefLock::new`: a lock around `list`.
#[verifier::external_body]
pub(crate) fn lock_list(list: DispatchList) -> (lock: RefLock<DispatchList>)
    ensures
        made_around(lock) == list@,
{
    RefLock::new(list)
}

/// `Gc::new_static`: allocates `data` on the heap. The new object holds
/// `data`, so its header is the one given, and the list that it begins with
/// is the one that the lock of `data` was made around.
#[verifier::external_body]
pub(crate) fn allocate_dispatch<'gc>(mc: &Mutation<'gc>, data: DispatchObjectData) -> (gc: Gc<
    'gc,
    DispatchObjectData,
>)
    ensures
        dispatch_base(gc) == data.header(),
        dispatch_first_list(gc) == data.first_list(),
{
    Gc::new_static(mc, data)
}

/// `Gc::as_ref`: the data that `gc` points to. Its header is the one that
/// the object was allocated with.
#[verifier::external_body]
pub(crate) fn dispatch_data<'gc>(gc: Gc<'gc, DispatchObjectData>) -> (data: &'gc DispatchObjectData)
    ensures
        data.header() == dispatch_base(gc),
{
    Gc::as_ref(gc)
}

/// `Gc::as_ptr`, then the pointer's `addr`: the address of the object.
/// Nothing is promised of an address.
#[verifier::external_body]
pub(crate) fn address_of<'gc>(gc: Gc<'gc, DispatchObjectData>) -> (address: usize) {
    Gc::as_ptr(gc).addr()
}

/// `Gc::downgrade`: the weak pointer to the same object. It keeps the
/// pointer that it was made from.
#[verifier::external_body]
pub(crate) fn downgrade_dispatch<'gc>(gc: Gc<'gc, DispatchObjectData>) -> (weak: GcWeak<
    'gc,
    DispatchObjectData,
>)
    ensures
        weak == weak_of(gc),
        strong_of(weak) == gc,
{
    Gc::downgrade(gc)
}

/// `GcWeak::upgrade`: the strong pointer, unless the object was dropped or
/// is about to be. A pointer that comes back is the one that `weak` was
/// made from.
#[verifier::external_body]
pub(crate) fn upgrade_dispatch<'gc>(weak: GcWeak<'gc, DispatchObjectData>, mc: &Mutation<'gc>) -> (gc:
    Option<Gc<'gc, DispatchObjectData>>)
    ensures
        gc matches Some(strong) ==> strong == strong_of(weak) && weak_of(strong) == weak,
{
    weak.upgrade(mc)
}

/// `RefLock::try_borrow`: a shared borrow of the object's list, or `None`
/// while the list is borrowed for writing.
#[verifier::external_body]
pub(crate) fn borrow_dispatch<'gc>(gc: Gc<'gc, DispatchObjectData>) -> (view: Option<
    Ref<'gc, DispatchList>,
>) {
    Gc::as_ref(gc).dispatch.try_borrow().ok()
}

/// `Gc::write`, then `RefCell::try_borrow_mut` on the unlocked list: passes
/// the write barrier of the object and borrows its list for writing, or
/// gives `None` while the list is borrowed in any way.
#[verifier::external_body]
pub(crate) fn borrow_dispatch_mut<'gc>(mc: &Mutation<'gc>, gc: Gc<'gc, DispatchObjectData>) -> (view:
    Option<RefMut<'gc, DispatchList>>) {
    let data = Gc::write(mc, gc);
    Write::from_static(&data.dispatch).unlock().try_borrow_mut().ok()
}

/// `Ref::deref`: the list behind a shared borrow.
#[verifier::external_body]
pub(crate) fn borrowed_list<'a, 'b>(view: &'a Ref<'b, DispatchList>) -> (list: &'a DispatchList) {
    &**view
}

/// `RefMut::deref_mut`: the list behind a borrow for writing.
#[verifier::external_body]
pub(crate) fn borrowed_list_mut<'a, 'b>(view: &'a mut RefMut<'b, DispatchList>) -> (list:
    &'a mut DispatchList) {
    &mut **view
}

} // verus!
