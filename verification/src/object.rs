//! The uniform handle to an object of any kind, and the operations that
//! every kind answers in its own way.

use crate::dispatch_object::DispatchObject;
use crate::error::Error;
use crate::events::DispatchList;
use crate::script_object::{ScriptObject, ScriptObjectData};
use gc_arena::Mutation;
use std::cell::{Ref, RefMut};
use vstd::prelude::*;

verus! {

/// A handle to an object of some kind. Two handles are equal where they
/// refer to one object on the heap, whatever the object holds.
#[derive(Clone, Copy)]
pub enum Object<'gc> {
    /// A plain object.
    ScriptObject(ScriptObject<'gc>),
    /// An internal holder of a dispatch list.
    DispatchObject(DispatchObject<'gc>),
}

/// A value of the scripting language.
#[derive(Clone, Copy)]
pub enum Value<'gc> {
    Undefined,
    Null,
    Bool(bool),
    Integer(i32),
    Object(Object<'gc>),
}

/// The operations that every kind of object answers in its own way. Code
/// that holds a handle works against these and need not know the kind.
pub trait TObject<'gc>: Sized {
    /// The header of the object that the handle refers to.
    spec fn base_data(&self) -> ScriptObjectData;

    /// Whether the object's kind holds a dispatch list.
    spec fn holds_dispatch_list(&self) -> bool;

    /// The object's header. Every kind has one, so this never fails.
    fn gc_base(&self) -> (base: &'gc ScriptObjectData)
        ensures
            *base == self.base_data(),
    ;

    /// Constructs a new object as this one's class does.
    fn construct(self, mc: &Mutation<'gc>, args: &[Value<'gc>]) -> (made: Result<
        Object<'gc>,
        Error,
    >)
        ensures
            made matches Err(e) ==> e == Error::NotConstructible,
    ;

    /// Coerces the object to a primitive value.
    fn value_of(&self) -> (value: Result<Value<'gc>, Error>)
        ensures
            value matches Err(e) ==> e == Error::NotSubclassable,
    ;

    /// The object's dispatch list for reading: `None` for a kind that holds
    /// none. The view is refused while the list is borrowed for writing;
    /// the list is then left as the live view has it.
    fn as_dispatch(&self) -> (view: Option<Result<Ref<'gc, DispatchList>, Error>>)
        ensures
            view.is_some() == self.holds_dispatch_list(),
            view matches Some(Err(e)) ==> e == Error::BorrowViolation,
    ;

    /// The object's dispatch list for writing: `None` for a kind that holds
    /// none. The view is refused while the list is borrowed in any other
    /// way; the list is then not changed and stays readable through the
    /// live view.
    fn as_dispatch_mut(&self, mc: &Mutation<'gc>) -> (view: Option<
        Result<RefMut<'gc, DispatchList>, Error>,
    >)
        ensures
            view.is_some() == self.holds_dispatch_list(),
            view matches Some(Err(e)) ==> e == Error::BorrowViolation,
    ;
}

impl<'gc> TObject<'gc> for Object<'gc> {
    open spec fn base_data(&self) -> ScriptObjectData {
        match *self {
            Object::ScriptObject(object) => object.base_data(),
            Object::DispatchObject(object) => object.base_data(),
        }
    }

    open spec fn holds_dispatch_list(&self) -> bool {
        *self is DispatchObject
    }

    fn gc_base(&self) -> (base: &'gc ScriptObjectData) {
        match self {
            Object::ScriptObject(object) => object.gc_base(),
            Object::DispatchObject(object) => object.gc_base(),
        }
    }

    /// A plain object answers with a new plain object of its own class; a
    /// dispatch object refuses.
    fn construct(self, mc: &Mutation<'gc>, args: &[Value<'gc>]) -> (made: Result<
        Object<'gc>,
        Error,
    >)
        ensures
            self is DispatchObject ==> made == Err::<Object<'gc>, Error>(Error::NotConstructible),
            self is ScriptObject ==> (made matches Ok(Object::ScriptObject(object))
                && object.base_data() == self.base_data()),
    {
        match self {
            Object::ScriptObject(object) => object.construct(mc, args),
            Object::DispatchObject(object) => object.construct(mc, args),
        }
    }

    /// A plain object answers with itself; a dispatch object refuses.
    fn value_of(&self) -> (value: Result<Value<'gc>, Error>)
        ensures
            *self is DispatchObject ==> value == Err::<Value<'gc>, Error>(Error::NotSubclassable),
            *self is ScriptObject ==> value == Ok::<Value<'gc>, Error>(Value::Object(*self)),
    {
        match self {
            Object::ScriptObject(object) => object.value_of(),
            Object::DispatchObject(object) => object.value_of(),
        }
    }

    fn as_dispatch(&self) -> (view: Option<Result<Ref<'gc, DispatchList>, Error>>) {
        match self {
            Object::ScriptObject(object) => object.as_dispatch(),
            Object::DispatchObject(object) => object.as_dispatch(),
        }
    }

    fn as_dispatch_mut(&self, mc: &Mutation<'gc>) -> (view: Option<
        Result<RefMut<'gc, DispatchList>, Error>,
    >) {
        match self {
            Object::ScriptObject(object) => object.as_dispatch_mut(mc),
            Object::DispatchObject(object) => object.as_dispatch_mut(mc),
        }
    }
}

impl<'gc> Object<'gc> {
    /// The identity of the object's class, read from its header.
    pub fn class(&self) -> (class: u64)
        ensures
            class == self.base_data().class,
    {
        self.gc_base().class
    }

    /// Whether both handles refer to one object.
    pub fn ptr_eq(self, other: Object<'gc>) -> (same: bool)
        ensures
            same == (self == other),
    {
        match (self, other) {
            (Object::ScriptObject(a), Object::ScriptObject(b)) => a.ptr_eq(b),
            (Object::DispatchObject(a), Object::DispatchObject(b)) => a.ptr_eq(b),
            _ => false,
        }
    }

    /// The dispatch object behind the handle, if it is one.
    pub fn as_dispatch_object(&self) -> (holder: Option<DispatchObject<'gc>>)
        ensures
            holder == match *self {
                Object::DispatchObject(object) => Some(object),
                Object::ScriptObject(_) => None::<DispatchObject<'gc>>,
            },
    {
        match self {
            Object::DispatchObject(object) => Some(*object),
            Object::ScriptObject(_) => None,
        }
    }
}

} // verus!
