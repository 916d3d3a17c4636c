//! The opaque value that foreign code hands to Rust and back.

use vstd::prelude::*;

verus! {

/// The std marker that makes a type not `Unpin`.
#[verifier::external_type_specification]
#[verifier::external_body]
pub struct ExPhantomPinned(core::marker::PhantomPinned);

/// The std cell, used here only as the marker that makes a type not `Sync`.
#[verifier::external_type_specification]
#[verifier::external_body]
#[verifier::reject_recursive_types(T)]
pub struct ExCell<T: ?Sized>(core::cell::Cell<T>);

/// Opaque type, similar but not quite the same as `c_void`: it has no
/// size, is `Send` but neither `Sync` nor `Unpin`.
pub struct OpaqueSendable {
    _data: [u8; 0],
    _marker: core::marker::PhantomData<(core::cell::Cell<()>, core::marker::PhantomPinned)>,
}

impl OpaqueSendable {
    /// A value of the opaque type, as the side that creates opaque data
    /// holds it.
    pub fn new() -> Self {
        OpaqueSendable { _data: [], _marker: core::marker::PhantomData }
    }
}

/// How the value behind an `OpaqueData` is dropped: the side that created
/// the value supplies it (for foreign code, a function of its own).
pub trait DropOpaque {
    /// Whether this drop function has been applied to `value`: what dropping
    /// a value means for the side that created it. Code that is generic over
    /// the drop function learns it only from `drop_opaque`; a side that says
    /// nothing more (the default) asks nothing of its drop function.
    closed spec fn drops(&self, value: core::mem::ManuallyDrop<OpaqueSendable>) -> bool {
        true
    }

    /// Drops the value; it is handed over, so that it can be dropped only
    /// once.
    fn drop_opaque(&self, value: Box<core::mem::ManuallyDrop<OpaqueSendable>>)
        ensures
            self.drops(*value),
    ;
}

/// A value owned by foreign code, together with the function that drops it.
///
/// The value may be absent: it was moved out, or already dropped.
pub struct OpaqueData<D> {
    ptr: Option<Box<core::mem::ManuallyDrop<OpaqueSendable>>>,
    drop_fn: D,
}

impl<D: DropOpaque + Copy> OpaqueData<D> {
    /// The value held, if any.
    pub closed spec fn value(&self) -> Option<Box<core::mem::ManuallyDrop<OpaqueSendable>>> {
        self.ptr
    }

    /// The function that drops the value.
    pub closed spec fn dropper(&self) -> D {
        self.drop_fn
    }

    /// Opaque data holding `value`.
    pub fn new(value: Box<core::mem::ManuallyDrop<OpaqueSendable>>, drop_fn: D) -> (r: Self)
        ensures
            r.value() == Some(value),
            r.dropper() == drop_fn,
    {
        OpaqueData { ptr: Some(value), drop_fn }
    }

    /// Whether a value is held.
    pub fn holds_value(&self) -> (r: bool)
        ensures
            r == self.value() is Some,
    {
        self.ptr.is_some()
    }

    /// Moves the value out of `data` into a new `OpaqueData` with the same
    /// drop function; `data` is left without a value, so that the value is
    /// dropped at most once.
    pub fn move_out(data: &mut OpaqueData<D>) -> (r: OpaqueData<D>)
        ensures
            r.value() == old(data).value(),
            r.dropper() == old(data).dropper(),
            final(data).value() is None,
            final(data).dropper() == old(data).dropper(),
    {
        OpaqueData { ptr: data.ptr.take(), drop_fn: data.drop_fn }
    }

    /// Drops the value held, if any, by handing it to the drop function;
    /// afterwards no value is held, so it can not be dropped again. Without
    /// a value nothing happens.
    pub fn drop_inner_value(&mut self)
        ensures
            final(self).value() is None,
            final(self).dropper() == old(self).dropper(),
            old(self).value() matches Some(b) ==> old(self).dropper().drops(*b),
            old(self).value() is None ==> *final(self) == *old(self),
    {
        if let Some(not_null) = self.ptr.take() {
            self.drop_fn.drop_opaque(not_null);
        }
    }
}

/// Drops the value of `data` in place.
///
/// Afterwards `data` is still valid, but holds no value. This avoids certain
/// "copy" pitfalls around FFI.
pub fn drop_opaque_data<D: DropOpaque + Copy>(data: &mut OpaqueData<D>)
    ensures
        final(data).value() is None,
        final(data).dropper() == old(data).dropper(),
        old(data).value() matches Some(b) ==> old(data).dropper().drops(*b),
        old(data).value() is None ==> *final(data) == *old(data),
{
    data.drop_inner_value();
}

/// The drop function for opaque data that is copied rather than owned: it
/// does nothing.
pub fn drop_copy_opaque_data(_data: &mut core::mem::ManuallyDrop<OpaqueSendable>)
    ensures
        *final(_data) == *old(_data),
{
}

/// A drop function that does nothing, for values that are copied rather
/// than owned.
#[derive(Clone, Copy)]
pub struct CopiedValue;

impl DropOpaque for CopiedValue {
    /// A copied value needs nothing done to be dropped.
    open spec fn drops(&self, value: core::mem::ManuallyDrop<OpaqueSendable>) -> bool {
        true
    }

    fn drop_opaque(&self, value: Box<core::mem::ManuallyDrop<OpaqueSendable>>) {
        let mut value = value;
        drop_copy_opaque_data(&mut value);
    }
}

} // verus!
