use crate::context::{Context, ContextMarker};
use std::any::{Any, TypeId};
use std::marker::PhantomData;
use vstd::prelude::*;

verus! {

/// `std::any::TypeId`: the identity of a type, of which only equality is
/// used.
#[verifier::external_type_specification]
#[verifier::external_body]
pub struct ExTypeId(TypeId);

/// The identity of the type `T`: one value for each type, the same at every
/// call. Nothing more is known of it here; that two types have two
/// identities is a premise wherever it is needed.
pub closed spec fn type_key<T: ?Sized + 'static>() -> TypeId {
    arbitrary::<(TypeId, PhantomData<T>)>().0
}

/// `TypeId::of`: the identity of `T`, which depends on `T` alone.
pub assume_specification<T: ?Sized + 'static>[ TypeId::of::<T> ]() -> (key: TypeId)
    ensures
        key == type_key::<T>(),
;

/// `==` on `TypeId`: whether the two are the same identity.
pub assume_specification[ <TypeId as PartialEq>::eq ](a: &TypeId, b: &TypeId) -> (same: bool)
    ensures
        same == (*a == *b),
;

/// Whether `A` and `B` are types of two identities.
pub fn identities_differ<A: ?Sized + 'static, B: ?Sized + 'static>() -> (r: bool)
    ensures
        r == (type_key::<A>() != type_key::<B>()),
{
    !(TypeId::of::<A>() == TypeId::of::<B>())
}

/// A context of some marker type, held as `Box<dyn Any + Send + Sync>` so
/// that contexts of different marker types fit in one collection.
#[verifier::external_body]
pub struct Slot {
    inner: Box<dyn Any + Send + Sync>,
}

/// The context in `slot` where it is one of marker `M`, `None` where it is
/// one of another marker.
pub closed spec fn held<M: ContextMarker>(slot: Slot) -> Option<Context<M>> {
    arbitrary::<spec_fn(Slot) -> Option<Context<M>>>()(slot)
}

/// `Box::new` and the coercion to `dyn Any`: the slot holds `context`, as a
/// context of marker `M`.
#[verifier::external_body]
pub(crate) fn seal<M: ContextMarker>(context: Context<M>) -> (slot: Slot)
    ensures
        held::<M>(slot) == Some(context),
{
    Slot { inner: Box::new(context) }
}

/// `downcast_ref` of `dyn Any`: the context in `slot` where it is one of
/// marker `M`, else `None`.
#[verifier::external_body]
pub(crate) fn open<M: ContextMarker>(slot: &Slot) -> (context: Option<&Context<M>>)
    ensures
        context == (match held::<M>(*slot) {
            Some(c) => Some(&c),
            None => None,
        }),
{
    slot.inner.downcast_ref::<Context<M>>()
}

} // verus!
