use crate::tag_map::TagMap;
use crate::types::{EnvError, EnvType};
use std::marker::PhantomData;
use vstd::prelude::*;

verus! {

/// A marker type that names a context and fixes the type of its values.
/// Two markers with the same `Value` are still two contexts.
pub trait ContextMarker: Send + Sync + 'static {
    type Value: Clone + Send + Sync + 'static;
}

/// What a context holds: at most one value for each environment, and
/// possibly a default.
pub struct ContextView<V> {
    pub entries: Map<EnvType, V>,
    pub default: Option<V>,
}

impl<V> ContextView<V> {
    /// No value for any environment and no default.
    pub open spec fn empty() -> Self {
        ContextView { entries: Map::empty(), default: None }
    }

    /// `self` with `value` for `env`, in place of any value it had for `env`.
    pub open spec fn set(self, env: EnvType, value: V) -> Self {
        ContextView { entries: self.entries.insert(env, value), default: self.default }
    }

    /// `self` with `value` as its default, in place of any default it had.
    pub open spec fn set_default(self, value: V) -> Self {
        ContextView { entries: self.entries, default: Some(value) }
    }

    /// The value for `env`: its own where there is one, else the default,
    /// else none.
    pub open spec fn value_for(self, env: EnvType) -> Option<V> {
        if self.entries.contains_key(env) {
            Some(self.entries[env])
        } else {
            self.default
        }
    }
}

/// Whether `got` is what a lookup that finds `held` hands out: a clone of
/// the value found, and nothing where nothing was found.
pub open spec fn is_copy_of<V: Clone>(held: Option<V>, got: Option<V>) -> bool {
    match held {
        Some(value) => got is Some && cloned(value, got->0),
        None => got is None,
    }
}

/// Values of one type for the environments, with a default for the
/// environments that have none of their own. Built by a `ContextBuilder`
/// and not changed after.
pub struct Context<M: ContextMarker> {
    env_values: TagMap<M::Value>,
    default: Option<M::Value>,
    _marker: PhantomData<M>,
}

impl<M: ContextMarker> View for Context<M> {
    type V = ContextView<M::Value>;

    closed spec fn view(&self) -> ContextView<M::Value> {
        ContextView { entries: self.env_values@, default: self.default }
    }
}

impl<M: ContextMarker> Clone for Context<M> {
    /// A context with a copy of each value, and of the default.
    fn clone(&self) -> (r: Self)
        ensures
            r@.entries.dom() == self@.entries.dom(),
            forall|env: EnvType| #[trigger]
                self@.entries.contains_key(env) ==> cloned(self@.entries[env], r@.entries[env]),
            is_copy_of(self@.default, r@.default),
    {
        Context {
            env_values: self.env_values.clone(),
            default: self.default.clone(),
            _marker: PhantomData,
        }
    }
}

impl<M: ContextMarker> Default for Context<M> {
    /// A context without values.
    fn default() -> (r: Self)
        ensures
            r@ == ContextView::<M::Value>::empty(),
    {
        Context { env_values: TagMap::new(), default: None, _marker: PhantomData }
    }
}

impl<M: ContextMarker> Context<M> {
    /// A copy of the value for `env`: of its own value where it has one,
    /// else of the default; `None` where there is neither.
    pub fn get_for_env(&self, env: &EnvType) -> (r: Option<M::Value>)
        ensures
            is_copy_of(self@.value_for(*env), r),
    {
        match self.env_values.get(env) {
            Some(value) => Some(value.clone()),
            None => match &self.default {
                Some(value) => Some(value.clone()),
                None => None,
            },
        }
    }

    /// As `get_for_env`, with `ContextValueNotFound` in place of `None`.
    pub fn try_get_for_env(&self, env: &EnvType) -> (r: Result<M::Value, EnvError>)
        ensures
            match self@.value_for(*env) {
                Some(value) => r is Ok && cloned(value, r->Ok_0),
                None => r == Err::<M::Value, EnvError>(EnvError::ContextValueNotFound),
            },
    {
        match self.get_for_env(env) {
            Some(value) => Ok(value),
            None => Err(EnvError::ContextValueNotFound),
        }
    }
}

/// Collects the values of a context.
pub struct ContextBuilder<M: ContextMarker> {
    env_values: TagMap<M::Value>,
    default: Option<M::Value>,
    _marker: PhantomData<M>,
}

impl<M: ContextMarker> View for ContextBuilder<M> {
    type V = ContextView<M::Value>;

    closed spec fn view(&self) -> ContextView<M::Value> {
        ContextView { entries: self.env_values@, default: self.default }
    }
}

impl<M: ContextMarker> Default for ContextBuilder<M> {
    /// A builder that holds no value yet.
    fn default() -> (r: Self)
        ensures
            r@ == ContextView::<M::Value>::empty(),
    {
        ContextBuilder { env_values: TagMap::new(), default: None, _marker: PhantomData }
    }
}

impl<M: ContextMarker> ContextBuilder<M> {
    /// Sets the value for `env`; a value set before for `env` is lost.
    pub fn with_value(self, env: EnvType, value: M::Value) -> (r: Self)
        ensures
            r@ == self@.set(env, value),
    {
        let mut builder = self;
        builder.env_values.insert(env, value);
        builder
    }

    /// Sets a copy of `value` for each environment in `envs`. The other
    /// environments and the default keep what they had; with no environment
    /// in `envs` nothing changes.
    pub fn with_values(self, envs: &[EnvType], value: M::Value) -> (r: Self)
        ensures
            r@.default == self@.default,
            r@.entries.dom() == self@.entries.dom().union(envs@.to_set()),
            forall|env: EnvType| envs@.contains(env) ==> cloned(value, #[trigger] r@.entries[env]),
            forall|env: EnvType|
                !envs@.contains(env) && self@.entries.contains_key(env) ==> #[trigger] r@.entries[env]
                    == self@.entries[env],
    {
        let ghost before = self@;
        let mut builder = self;
        let mut i: usize = 0;
        while i < envs.len()
            invariant
                i <= envs@.len(),
                builder@.default == before.default,
                builder@.entries.dom() == before.entries.dom().union(envs@.take(i as int).to_set()),
                forall|env: EnvType|
                    envs@.take(i as int).contains(env) ==> cloned(
                        value,
                        #[trigger] builder@.entries[env],
                    ),
                forall|env: EnvType|
                    !envs@.take(i as int).contains(env) && before.entries.contains_key(env)
                        ==> #[trigger] builder@.entries[env] == before.entries[env],
            decreases envs@.len() - i,
        {
            let env = envs[i];
            builder.env_values.insert(env, value.clone());
            proof {
                let done = envs@.take(i as int);
                let next = envs@.take(i as int + 1);
                assert(next == done.push(env));
                assert forall|e: EnvType| next.contains(e) <==> (done.contains(e) || e == env) by {
                    if done.contains(e) {
                        let j = choose|j: int| 0 <= j < done.len() && done[j] == e;
                        assert(next[j] == e);
                    }
                    if e == env {
                        assert(next[i as int] == e);
                    }
                }
                assert(next.to_set() =~= done.to_set().insert(env));
                assert(builder@.entries.dom() =~= before.entries.dom().union(next.to_set()));
            }
            i += 1;
        }
        proof {
            assert(envs@.take(i as int) == envs@);
        }
        builder
    }

    /// Sets the default; a default set before is lost.
    pub fn with_default(self, value: M::Value) -> (r: Self)
        ensures
            r@ == self@.set_default(value),
    {
        let mut builder = self;
        builder.default = Some(value);
        builder
    }

    /// The context that holds what was set. Never fails.
    pub fn build(self) -> (r: Context<M>)
        ensures
            r@ == self@,
    {
        Context { env_values: self.env_values, default: self.default, _marker: PhantomData }
    }
}

/// A context made of one value for one environment and a default gives that
/// value for that environment and the default for every other.
pub proof fn law_entry_before_default<V>(env: EnvType, other: EnvType, value: V, default: V)
    requires
        other != env,
    ensures
        ContextView::<V>::empty().set(env, value).set_default(default).value_for(env) == Some(
            value,
        ),
        ContextView::<V>::empty().set(env, value).set_default(default).value_for(other) == Some(
            default,
        ),
        ContextView::<V>::empty().set_default(default).set(env, value).value_for(env) == Some(
            value,
        ),
        ContextView::<V>::empty().set_default(default).set(env, value).value_for(other) == Some(
            default,
        ),
{
}

/// A context with no value for an environment and no default has nothing
/// to give for it.
pub proof fn law_nothing_without_entry_or_default<V>(context: ContextView<V>, env: EnvType)
    requires
        !context.entries.contains_key(env),
        context.default is None,
    ensures
        context.value_for(env) is None,
{
}

/// What is set last for an environment is what the context gives for it,
/// and the other environments keep what they had.
pub proof fn law_last_value_stays<V>(
    context: ContextView<V>,
    env: EnvType,
    other: EnvType,
    first: V,
    last: V,
)
    requires
        other != env,
    ensures
        context.set(env, first).set(env, last).value_for(env) == Some(last),
        context.set(env, first).set(env, last) == context.set(env, last),
        context.set(env, last).value_for(other) == context.value_for(other),
{
    assert(context.entries.insert(env, first).insert(env, last) =~= context.entries.insert(
        env,
        last,
    ));
}

} // verus!
