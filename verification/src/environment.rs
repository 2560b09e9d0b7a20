use crate::context::{is_copy_of, Context, ContextMarker};
use crate::registry::Registry;
use crate::slot::{held, open, seal, type_key, Slot};
use crate::types::{EnvError, EnvType};
use std::any::TypeId;
use vstd::prelude::*;
use vstd::std_specs::convert::FromSpec;

verus! {

/// The context of marker `M` among `contexts`: what the slot under the
/// identity of `M` holds, and `None` where there is no such slot.
pub open spec fn context_in<M: ContextMarker>(contexts: Map<TypeId, Slot>) -> Option<Context<M>> {
    if contexts.contains_key(type_key::<M>()) {
        held::<M>(contexts[type_key::<M>()])
    } else {
        None
    }
}

/// Whether `after` is `before` with `context` registered: a slot that holds
/// `context` stands under the identity of `M`, in place of any slot that
/// stood there, and every other slot is as it was.
pub open spec fn registers<M: ContextMarker>(
    before: Map<TypeId, Slot>,
    context: Context<M>,
    after: Map<TypeId, Slot>,
) -> bool {
    exists|slot: Slot|
        #![trigger held::<M>(slot)]
        held::<M>(slot) == Some(context) && after == before.insert(type_key::<M>(), slot)
}

/// What an environment holds: the current environment, and the contexts
/// under the identities of their marker types.
pub struct EnvironmentView {
    pub current: EnvType,
    pub contexts: Map<TypeId, Slot>,
}

impl EnvironmentView {
    /// The context registered for `M`, if there is one.
    pub open spec fn context<M: ContextMarker>(self) -> Option<Context<M>> {
        context_in::<M>(self.contexts)
    }

    /// The value that the context registered for `M` has for `env`; `None`
    /// where no context is registered for `M` or it has none for `env`.
    pub open spec fn value<M: ContextMarker>(self, env: EnvType) -> Option<M::Value> {
        match self.context::<M>() {
            Some(context) => context@.value_for(env),
            None => None,
        }
    }
}

/// The current environment together with contexts of any number of marker
/// types. Built by an `EnvironmentBuilder` and not changed after.
pub struct Environment {
    current: EnvType,
    contexts: Registry,
}

impl View for Environment {
    type V = EnvironmentView;

    closed spec fn view(&self) -> EnvironmentView {
        EnvironmentView { current: self.current, contexts: self.contexts@ }
    }
}

impl Environment {
    /// The current environment.
    pub fn current_env(&self) -> (r: &EnvType)
        ensures
            *r == self@.current,
    {
        &self.current
    }

    /// The context registered for `M`, if there is one.
    pub fn context<M: ContextMarker>(&self) -> (r: Option<&Context<M>>)
        ensures
            r == (match self@.context::<M>() {
                Some(context) => Some(&context),
                None => None,
            }),
    {
        match self.contexts.get(&TypeId::of::<M>()) {
            Some(slot) => open::<M>(slot),
            None => None,
        }
    }

    /// A copy of the value that the context registered for `M` has for the
    /// current environment.
    pub fn current_value<M: ContextMarker>(&self) -> (r: Option<M::Value>)
        ensures
            is_copy_of(self@.value::<M>(self@.current), r),
    {
        self.value::<M>(self.current_env())
    }

    /// A copy of the value that the context registered for `M` has for
    /// `env`; `None` where no context is registered for `M` or it has no
    /// value for `env`.
    pub fn value<M: ContextMarker>(&self, env: &EnvType) -> (r: Option<M::Value>)
        ensures
            is_copy_of(self@.value::<M>(*env), r),
    {
        match self.context::<M>() {
            Some(context) => context.get_for_env(env),
            None => None,
        }
    }
}

/// What an environment builder holds: the current environment once it is
/// set, and the contexts registered so far.
pub struct EnvironmentBuilderView {
    pub current: Option<EnvType>,
    pub contexts: Map<TypeId, Slot>,
}

/// Collects the current environment and the contexts of an environment.
pub struct EnvironmentBuilder {
    current: Option<EnvType>,
    contexts: Registry,
}

impl View for EnvironmentBuilder {
    type V = EnvironmentBuilderView;

    closed spec fn view(&self) -> EnvironmentBuilderView {
        EnvironmentBuilderView { current: self.current, contexts: self.contexts@ }
    }
}

impl Default for EnvironmentBuilder {
    /// A builder without a current environment and without contexts.
    fn default() -> (r: Self)
        ensures
            r@.current is None,
            r@.contexts == Map::<TypeId, Slot>::empty(),
    {
        EnvironmentBuilder { current: None, contexts: Registry::new() }
    }
}

impl EnvironmentBuilder {
    /// Sets the current environment.
    pub fn current_env(self, env: EnvType) -> (r: Self)
        ensures
            r@.current == Some(env),
            r@.contexts == self@.contexts,
    {
        EnvironmentBuilder { current: Some(env), contexts: self.contexts }
    }

    /// Sets the current environment to the one that `config` converts to.
    pub fn current_from<T>(self, config: T) -> (r: Self) where EnvType: From<T>
        ensures
            r@.current is Some,
            call_ensures(<EnvType as From<T>>::from, (config,), r@.current->0),
            <EnvType as FromSpec<T>>::obeys_from_spec() ==> r@.current == Some(
                <EnvType as FromSpec<T>>::from_spec(config),
            ),
            r@.contexts == self@.contexts,
    {
        EnvironmentBuilder { current: Some(EnvType::from(config)), contexts: self.contexts }
    }

    /// Registers `context` for `M`; a context registered for `M` before is
    /// lost, the contexts of other markers stay.
    pub fn with_context<M: ContextMarker>(self, context: Context<M>) -> (r: Self)
        ensures
            r@.current == self@.current,
            registers::<M>(self@.contexts, context, r@.contexts),
    {
        let slot = seal::<M>(context);
        assert(held::<M>(slot) == Some(context));
        EnvironmentBuilder {
            current: self.current,
            contexts: self.contexts.insert(TypeId::of::<M>(), slot),
        }
    }

    /// The environment with the current environment and the contexts that
    /// were set; `NoCurrentEnv` where no current environment was set, and in
    /// no other case.
    pub fn build(self) -> (r: Result<Environment, EnvError>)
        ensures
            match self@.current {
                Some(current) => r is Ok && r->Ok_0@ == (EnvironmentView {
                    current,
                    contexts: self@.contexts,
                }),
                None => r is Err && r->Err_0 == EnvError::NoCurrentEnv,
            },
    {
        match self.current {
            Some(current) => Ok(Environment { current, contexts: self.contexts }),
            None => Err(EnvError::NoCurrentEnv),
        }
    }
}

/// A context that was registered is the one found for its marker.
pub proof fn law_registered_is_found<M: ContextMarker>(
    before: Map<TypeId, Slot>,
    context: Context<M>,
    after: Map<TypeId, Slot>,
)
    requires
        registers::<M>(before, context, after),
    ensures
        context_in::<M>(after) == Some(context),
{
}

/// Registering a context for one marker leaves what is found for a marker
/// of another identity as it was.
pub proof fn law_other_markers_keep_theirs<M: ContextMarker, N: ContextMarker>(
    before: Map<TypeId, Slot>,
    context: Context<M>,
    after: Map<TypeId, Slot>,
)
    requires
        type_key::<M>() != type_key::<N>(),
        registers::<M>(before, context, after),
    ensures
        context_in::<N>(after) == context_in::<N>(before),
{
}

/// Contexts registered for two markers of different identities are both
/// found, each for its own marker, in whichever order they came.
pub proof fn law_two_markers_both_found<A: ContextMarker, B: ContextMarker>(
    start: Map<TypeId, Slot>,
    first: Context<A>,
    middle: Map<TypeId, Slot>,
    second: Context<B>,
    end: Map<TypeId, Slot>,
)
    requires
        type_key::<A>() != type_key::<B>(),
        registers::<A>(start, first, middle),
        registers::<B>(middle, second, end),
    ensures
        context_in::<A>(end) == Some(first),
        context_in::<B>(end) == Some(second),
{
    law_registered_is_found::<A>(start, first, middle);
    law_other_markers_keep_theirs::<B, A>(middle, second, end);
}

/// Of two contexts registered for one marker the later is the one found.
pub proof fn law_last_registration_stays<M: ContextMarker>(
    start: Map<TypeId, Slot>,
    first: Context<M>,
    middle: Map<TypeId, Slot>,
    last: Context<M>,
    end: Map<TypeId, Slot>,
)
    requires
        registers::<M>(start, first, middle),
        registers::<M>(middle, last, end),
    ensures
        context_in::<M>(end) == Some(last),
        registers::<M>(start, last, end),
{
    let slot = choose|slot: Slot|
        #![trigger held::<M>(slot)]
        held::<M>(slot) == Some(last) && end == middle.insert(type_key::<M>(), slot);
    let earlier = choose|earlier: Slot|
        #![trigger held::<M>(earlier)]
        held::<M>(earlier) == Some(first) && middle == start.insert(type_key::<M>(), earlier);
    assert(start.insert(type_key::<M>(), earlier).insert(type_key::<M>(), slot) =~= start.insert(
        type_key::<M>(),
        slot,
    ));
}

} // verus!
