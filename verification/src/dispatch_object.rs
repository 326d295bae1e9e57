//! Dispatch list object representation.
//!
//! A dispatch object exists solely to hold the event listeners attached to
//! another object. Scripts can neither construct nor subclass it; it is only
//! reached as a private attachment of an event target.

use crate::arena::{
    address_of, allocate_dispatch, borrow_dispatch, borrow_dispatch_mut, dispatch_base,
    dispatch_data, dispatch_first_list, downgrade_dispatch, lock_list, made_around,
    same_allocation, strong_of, upgrade_dispatch, weak_of,
};
use crate::error::Error;
use crate::events::{DispatchList, ListenerView};
use crate::object::{Object, TObject, Value};
use crate::script_object::ScriptObjectData;
use crate::text::{hex_form, hex_text};
use gc_arena::lock::RefLock;
use gc_arena::{Gc, GcWeak, Mutation};
use std::cell::{Ref, RefMut};
use vstd::prelude::*;

verus! {

/// What a dispatch object holds on the heap: the shared header, then the
/// list.
pub struct DispatchObjectData {
    /// Base script object
    pub(crate) base: ScriptObjectData,
    /// The dispatch list this object holds.
    pub(crate) dispatch: RefLock<DispatchList>,
}

impl DispatchObjectData {
    /// The shared header that the data begins with.
    pub closed spec fn header(&self) -> ScriptObjectData {
        self.base
    }

    /// The list that the data was made with.
    pub closed spec fn first_list(&self) -> Seq<ListenerView> {
        made_around(self.dispatch)
    }

    /// The data of a dispatch object with the given header and an empty list.
    pub fn new(base: ScriptObjectData) -> (data: DispatchObjectData)
        ensures
            data.header() == base,
            data.first_list() == Seq::<ListenerView>::empty(),
    {
        DispatchObjectData { base, dispatch: lock_list(DispatchList::new()) }
    }

    /// The shared header.
    pub fn base(&self) -> (base: &ScriptObjectData)
        ensures
            *base == self.header(),
    {
        &self.base
    }
}

/// A handle to a dispatch object. It keeps the object alive.
#[derive(Clone, Copy)]
pub struct DispatchObject<'gc>(pub Gc<'gc, DispatchObjectData>);

/// A handle to a dispatch object that does not keep it alive.
#[derive(Clone, Copy)]
pub struct DispatchObjectWeak<'gc>(pub GcWeak<'gc, DispatchObjectData>);

impl<'gc> DispatchObject<'gc> {
    /// The weak handle that refers to the same object.
    pub open spec fn weak(self) -> DispatchObjectWeak<'gc> {
        DispatchObjectWeak(weak_of(self.0))
    }

    /// The list that the object was allocated with.
    pub open spec fn first_list(self) -> Seq<ListenerView> {
        dispatch_first_list(self.0)
    }

    /// Construct an empty dispatch list.
    pub fn empty_list(mc: &Mutation<'gc>, class: u64) -> (object: Object<'gc>)
        ensures
            object matches Object::DispatchObject(holder) && holder.base_data() == (
            ScriptObjectData { class }) && holder.first_list() == Seq::<ListenerView>::empty(),
    {
        let base = ScriptObjectData::new(class);
        Object::DispatchObject(DispatchObject(allocate_dispatch(mc, DispatchObjectData::new(base))))
    }

    /// A text for logs that names the object by its address on the heap.
    pub fn debug_text(&self) -> (text: String)
        ensures
            exists|address: nat| text@ == debug_form(#[trigger] hex_form(address)),
    {
        let address = hex_text(address_of(self.0));
        debug_form_of(address.as_str())
    }

    /// Whether both handles refer to one object.
    pub fn ptr_eq(self, other: DispatchObject<'gc>) -> (same: bool)
        ensures
            same == (self == other),
    {
        same_allocation(self.0, other.0)
    }

    /// A handle to the same object that does not keep it alive.
    pub fn downgrade(&self) -> (weak: DispatchObjectWeak<'gc>)
        ensures
            weak == self.weak(),
            weak.strong() == *self,
    {
        DispatchObjectWeak(downgrade_dispatch(self.0))
    }
}

impl<'gc> TObject<'gc> for DispatchObject<'gc> {
    open spec fn base_data(&self) -> ScriptObjectData {
        dispatch_base(self.0)
    }

    open spec fn holds_dispatch_list(&self) -> bool {
        true
    }

    fn gc_base(&self) -> (base: &'gc ScriptObjectData) {
        dispatch_data(self.0).base()
    }

    /// Scripts cannot construct a dispatch object: the call always fails.
    fn construct(self, _mc: &Mutation<'gc>, _args: &[Value<'gc>]) -> (made: Result<
        Object<'gc>,
        Error,
    >)
        ensures
            made == Err::<Object<'gc>, Error>(Error::NotConstructible),
    {
        Err(Error::NotConstructible)
    }

    /// Scripts cannot subclass a dispatch object: coercing it to a primitive
    /// value, which subclassing begins with, always fails.
    fn value_of(&self) -> (value: Result<Value<'gc>, Error>)
        ensures
            value == Err::<Value<'gc>, Error>(Error::NotSubclassable),
    {
        Err(Error::NotSubclassable)
    }

    /// Unwrap this object as a list of event handlers.
    fn as_dispatch(&self) -> (view: Option<Result<Ref<'gc, DispatchList>, Error>>) {
        match borrow_dispatch(self.0) {
            Some(view) => Some(Ok(view)),
            None => Some(Err(Error::BorrowViolation)),
        }
    }

    /// Unwrap this object as a mutable list of event handlers. The heap's
    /// write barrier is passed on the way.
    fn as_dispatch_mut(&self, mc: &Mutation<'gc>) -> (view: Option<
        Result<RefMut<'gc, DispatchList>, Error>,
    >) {
        match borrow_dispatch_mut(mc, self.0) {
            Some(view) => Some(Ok(view)),
            None => Some(Err(Error::BorrowViolation)),
        }
    }
}

impl<'gc> DispatchObjectWeak<'gc> {
    /// The handle that this weak handle was made from.
    pub open spec fn strong(self) -> DispatchObject<'gc> {
        DispatchObject(strong_of(self.0))
    }

    /// The strong handle to the object, unless the object has been collected.
    /// A handle that comes back is the one that this weak handle was made
    /// from: it refers to the same object, not to a copy.
    pub fn upgrade(&self, mc: &Mutation<'gc>) -> (strong: Option<DispatchObject<'gc>>)
        ensures
            strong matches Some(object) ==> object == self.strong() && object.weak() == *self,
    {
        match upgrade_dispatch(self.0, mc) {
            Some(gc) => Some(DispatchObject(gc)),
            None => None,
        }
    }
}

/// The text that names a dispatch object by the given address: the address
/// stands as the one field, `ptr`, of the object's name.
pub open spec fn debug_form(address: Seq<char>) -> Seq<char> {
    "DispatchObject { ptr: "@ + address + " }"@
}

/// The text that names a dispatch object by the given address.
pub fn debug_form_of(address: &str) -> (text: String)
    ensures
        text@ == debug_form(address@),
{
    String::from_str("DispatchObject { ptr: ").concat(address).concat(" }")
}

} // verus!
