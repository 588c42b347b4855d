//! The flat mapping from environment variable names to their values.

use vstd::prelude::*;
use vstd::hash_map::StringHashMap;

verus! {

/// Environment variables by name. Its view is the mathematical map from
/// each name to its value.
pub struct EnvVars {
    vars: StringHashMap<String>,
}

impl View for EnvVars {
    type V = Map<Seq<char>, Seq<char>>;

    closed spec fn view(&self) -> Map<Seq<char>, Seq<char>> {
        self.vars@.map_values(|v: String| v@)
    }
}

impl EnvVars {
    /// An environment without variables.
    pub fn new() -> (env: Self)
        ensures
            env@ == Map::<Seq<char>, Seq<char>>::empty(),
    {
        let env = EnvVars { vars: StringHashMap::new() };
        assert(env@ =~= Map::<Seq<char>, Seq<char>>::empty());
        env
    }

    /// Sets `key` to `value`, replacing what `key` was set to before.
    pub fn insert(&mut self, key: String, value: String)
        ensures
            final(self)@ == old(self)@.insert(key@, value@),
    {
        self.vars.insert(key, value);
        assert(self@ =~= old(self)@.insert(key@, value@));
    }

    /// The value of `key`, if it is set.
    pub fn get(&self, key: &str) -> (value: Option<&String>)
        ensures
            match value {
                Some(v) => self@.contains_key(key@) && v@ == self@[key@],
                None => !self@.contains_key(key@),
            },
    {
        self.vars.get(key)
    }

    /// Whether `key` is set.
    pub fn contains_key(&self, key: &str) -> (present: bool)
        ensures
            present == self@.contains_key(key@),
    {
        self.vars.contains_key(key)
    }

    /// The number of variables that are set.
    pub fn len(&self) -> (n: usize)
        ensures
            n == self@.len(),
    {
        assert(self@.dom() =~= self.vars@.dom());
        self.vars.len()
    }

    /// Whether no variable is set.
    pub fn is_empty(&self) -> (empty: bool)
        ensures
            empty == (self@ == Map::<Seq<char>, Seq<char>>::empty()),
    {
        assert(self@.dom() =~= self.vars@.dom());
        let empty = self.vars.is_empty();
        proof {
            if empty {
                assert(self@ =~= Map::<Seq<char>, Seq<char>>::empty());
            }
        }
        empty
    }
}

} // verus!
