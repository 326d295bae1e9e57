//! The data that every kind of object begins with, and the plain kind of
//! object that holds nothing else.

use crate::arena::{allocate_script, same_allocation, script_base, script_data};
use crate::error::Error;
use crate::events::DispatchList;
use crate::object::{Object, TObject, Value};
use gc_arena::{Gc, Mutation};
use std::cell::{Ref, RefMut};
use vstd::prelude::*;

verus! {

/// The header that every kind of object shares: generic code reads it without
/// knowing the kind.
#[derive(Clone, Copy, Debug, PartialEq, Eq)]
pub struct ScriptObjectData {
    /// The identity of the object's class.
    pub class: u64,
}

impl ScriptObjectData {
    /// The header of an object of the given class.
    pub fn new(class: u64) -> (base: ScriptObjectData)
        ensures
            base == (ScriptObjectData { class }),
    {
        ScriptObjectData { class }
    }
}

/// A handle to a plain object: one with a header and nothing more.
#[derive(Clone, Copy)]
pub struct ScriptObject<'gc>(pub Gc<'gc, ScriptObjectData>);

impl<'gc> ScriptObject<'gc> {
    /// Allocates a plain object of the given class.
    pub fn new(mc: &Mutation<'gc>, class: u64) -> (object: ScriptObject<'gc>)
        ensures
            object.base_data() == (ScriptObjectData { class }),
    {
        ScriptObject(allocate_script(mc, ScriptObjectData::new(class)))
    }

    /// Whether both handles refer to one object.
    pub fn ptr_eq(self, other: ScriptObject<'gc>) -> (same: bool)
        ensures
            same == (self == other),
    {
        same_allocation(self.0, other.0)
    }
}

impl<'gc> TObject<'gc> for ScriptObject<'gc> {
    open spec fn base_data(&self) -> ScriptObjectData {
        script_base(self.0)
    }

    open spec fn holds_dispatch_list(&self) -> bool {
        false
    }

    fn gc_base(&self) -> (base: &'gc ScriptObjectData) {
        script_data(self.0)
    }

    /// A plain object answers with a new plain object of its own class.
    fn construct(self, mc: &Mutation<'gc>, _args: &[Value<'gc>]) -> (made: Result<
        Object<'gc>,
        Error,
    >)
        ensures
            made matches Ok(Object::ScriptObject(object)) && object.base_data()
                == self.base_data(),
    {
        Ok(Object::ScriptObject(ScriptObject::new(mc, self.gc_base().class)))
    }

    /// A plain object is its own primitive value.
    fn value_of(&self) -> (value: Result<Value<'gc>, Error>)
        ensures
            value == Ok::<Value<'gc>, Error>(Value::Object(Object::ScriptObject(*self))),
    {
        Ok(Value::Object(Object::ScriptObject(*self)))
    }

    /// A plain object holds no dispatch list.
    fn as_dispatch(&self) -> (view: Option<Result<Ref<'gc, DispatchList>, Error>>) {
        None
    }

    /// A plain object holds no dispatch list.
    fn as_dispatch_mut(&self, _mc: &Mutation<'gc>) -> (view: Option<
        Result<RefMut<'gc, DispatchList>, Error>,
    >) {
        None
    }
}

} // verus!
