use crate::types::EnvType;
use vstd::prelude::*;

verus! {

/// A map from environments to values: one place for each environment, filled
/// or not, so that no environment is held twice and the order of insertion
/// leaves no trace.
pub struct TagMap<V> {
    dev: Option<V>,
    test: Option<V>,
    stg: Option<V>,
    prod: Option<V>,
}

impl<V> TagMap<V> {
    /// What the place of `env` holds.
    pub closed spec fn place(self, env: EnvType) -> Option<V> {
        match env {
            EnvType::Dev => self.dev,
            EnvType::Test => self.test,
            EnvType::Stg => self.stg,
            EnvType::Prod => self.prod,
        }
    }

    /// A map that holds nothing.
    pub fn new() -> (m: Self)
        ensures
            m@ == Map::<EnvType, V>::empty(),
    {
        let m = TagMap { dev: None, test: None, stg: None, prod: None };
        assert(m@ =~= Map::<EnvType, V>::empty());
        m
    }

    /// Puts `value` under `env`, in place of what was there.
    pub fn insert(&mut self, env: EnvType, value: V)
        ensures
            final(self)@ == old(self)@.insert(env, value),
    {
        match env {
            EnvType::Dev => {
                self.dev = Some(value);
            },
            EnvType::Test => {
                self.test = Some(value);
            },
            EnvType::Stg => {
                self.stg = Some(value);
            },
            EnvType::Prod => {
                self.prod = Some(value);
            },
        }
        assert(self@ =~= old(self)@.insert(env, value));
    }

    /// The value under `env`, if there is one.
    pub fn get(&self, env: &EnvType) -> (r: Option<&V>)
        ensures
            r == (if self@.contains_key(*env) {
                Some(&self@[*env])
            } else {
                None
            }),
    {
        match env {
            EnvType::Dev => self.dev.as_ref(),
            EnvType::Test => self.test.as_ref(),
            EnvType::Stg => self.stg.as_ref(),
            EnvType::Prod => self.prod.as_ref(),
        }
    }
}

impl<V: Clone> Clone for TagMap<V> {
    /// A map with a copy of each value, under the same environments.
    fn clone(&self) -> (r: Self)
        ensures
            r@.dom() == self@.dom(),
            forall|env: EnvType| #[trigger]
                self@.contains_key(env) ==> cloned(self@[env], r@[env]),
    {
        let r = TagMap {
            dev: self.dev.clone(),
            test: self.test.clone(),
            stg: self.stg.clone(),
            prod: self.prod.clone(),
        };
        assert(r@.dom() =~= self@.dom());
        r
    }
}

impl<V> View for TagMap<V> {
    type V = Map<EnvType, V>;

    closed spec fn view(&self) -> Map<EnvType, V> {
        Map::new(|env: EnvType| self.place(env) is Some, |env: EnvType| self.place(env)->0)
    }
}

} // verus!
