//! Loosely-typed argument maps, as the command surface carries them.

use vstd::prelude::*;

verus! {

/// One argument value of a command's argument map.
#[derive(Clone, Debug)]
pub enum ArgValue {
    /// A free-text field: a path, a name, a query.
    Text(String),
    /// A non-negative position or count: a line, a character, a version.
    Nat(u64),
    /// A yes/no switch.
    Flag(bool),
    /// A list of text items: field declarations, derive names, item names.
    List(Vec<String>),
}

/// The type a command's schema expects of one argument.
#[derive(Clone, Copy, Debug, PartialEq, Eq, Structural)]
pub enum ArgType {
    Text,
    Nat,
    Flag,
    List,
}

impl ArgValue {
    /// Whether this value fits the given schema type.
    pub open spec fn has_type(self, t: ArgType) -> bool {
        match self {
            ArgValue::Text(_) => t == ArgType::Text,
            ArgValue::Nat(_) => t == ArgType::Nat,
            ArgValue::Flag(_) => t == ArgType::Flag,
            ArgValue::List(_) => t == ArgType::List,
        }
    }

    /// The schema type this value fits.
    pub fn type_of(&self) -> (t: ArgType)
        ensures
            self.has_type(t),
    {
        match self {
            ArgValue::Text(_) => ArgType::Text,
            ArgValue::Nat(_) => ArgType::Nat,
            ArgValue::Flag(_) => ArgType::Flag,
            ArgValue::List(_) => ArgType::List,
        }
    }
}

/// The value bound to `key` in `pairs`, the earliest binding winning.
pub open spec fn lookup_pair(pairs: Seq<(String, ArgValue)>, key: Seq<char>) -> Option<ArgValue>
    decreases pairs.len(),
{
    if pairs.len() == 0 {
        None
    } else if pairs[0].0@ == key {
        Some(pairs[0].1)
    } else {
        lookup_pair(pairs.skip(1), key)
    }
}

/// A named argument map. Keys are field names; the earliest binding of a
/// key is the one read.
#[derive(Clone, Debug)]
pub struct Args {
    pub pairs: Vec<(String, ArgValue)>,
}

impl Args {
    /// The value this map binds to `key`, if any.
    pub open spec fn spec_get(self, key: Seq<char>) -> Option<ArgValue> {
        lookup_pair(self.pairs@, key)
    }

    /// An empty argument map.
    pub fn new() -> (r: Args)
        ensures
            r.pairs@.len() == 0,
    {
        Args { pairs: Vec::new() }
    }

    /// Appends one binding; earlier bindings of the same key still win.
    pub fn push(&mut self, key: String, value: ArgValue)
        ensures
            final(self).pairs@ == old(self).pairs@.push((key, value)),
    {
        self.pairs.push((key, value));
    }

    /// Looks `key` up, returning the earliest binding.
    pub fn get(&self, key: &str) -> (r: Option<&ArgValue>)
        ensures
            match r {
                Some(v) => self.spec_get(key@) == Some(*v),
                None => self.spec_get(key@) is None,
            },
    {
        let key_s: String = key.to_owned();
        let n: usize = self.pairs.len();
        let mut i: usize = 0;
        proof {
            assert(self.pairs@.skip(0) =~= self.pairs@);
        }
        while i < n
            invariant
                n == self.pairs@.len(),
                i <= n,
                key_s@ == key@,
                lookup_pair(self.pairs@.skip(i as int), key@) == self.spec_get(key@),
            decreases n - i,
        {
            proof {
                assert(self.pairs@.skip(i as int)[0] == self.pairs@[i as int]);
            }
            if <String as PartialEq>::eq(&self.pairs[i].0, &key_s) {
                return Some(&self.pairs[i].1);
            }
            proof {
                assert(self.pairs@.skip(i as int).skip(1) =~= self.pairs@.skip(i as int + 1));
            }
            i = i + 1;
        }
        proof {
            assert(self.pairs@.skip(n as int) =~= Seq::<(String, ArgValue)>::empty());
        }
        None
    }
}

} // verus!
