use crate::context::{ContextBuilder, ContextMarker, ContextView};
use crate::environment::{Environment, EnvironmentView};
use crate::types::EnvType;
use vstd::prelude::*;

verus! {

/// The marker of the context that says whether a program runs in debug
/// mode.
pub struct IsDebugContext;

impl ContextMarker for IsDebugContext {
    type Value = bool;
}

/// What `debug_context` sets: debug mode in `Dev`, none elsewhere.
pub open spec fn debug_defaults() -> ContextView<bool> {
    ContextView::<bool>::empty().set(EnvType::Dev, true).set_default(false)
}

/// Whether an environment that holds `env` is in debug mode: what its debug
/// context says for the current environment, and `false` where it has no
/// debug context or that context says nothing.
pub open spec fn debug_in(env: EnvironmentView) -> bool {
    match env.value::<IsDebugContext>(env.current) {
        Some(debug) => debug,
        None => false,
    }
}

/// A builder of the debug context with debug mode on in `Dev` and off in
/// every other environment. Values set on it afterwards replace these.
pub fn debug_context() -> (r: ContextBuilder<IsDebugContext>)
    ensures
        r@ == debug_defaults(),
{
    ContextBuilder::<IsDebugContext>::default().with_value(EnvType::Dev, true).with_default(false)
}

/// Says whether a program runs in debug mode.
pub trait IsDebug {
    fn is_debug(&self) -> bool;
}

impl IsDebug for Environment {
    fn is_debug(&self) -> (r: bool)
        ensures
            r == debug_in(self@),
    {
        match self.current_value::<IsDebugContext>() {
            Some(debug) => debug,
            None => false,
        }
    }
}

/// With the debug context as `debug_context` sets it, an environment is in
/// debug mode exactly when its current environment is `Dev`; without a
/// debug context it never is.
pub proof fn law_debug_only_in_dev(env: EnvironmentView)
    ensures
        env.context::<IsDebugContext>() is None ==> !debug_in(env),
        env.context::<IsDebugContext>() matches Some(context) && context@ == debug_defaults()
            ==> debug_in(env) == (env.current == EnvType::Dev),
{
}

} // verus!
