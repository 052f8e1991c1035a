//! The untyped argument bag a protocol client supplies with a tool call.
//!
//! A value is kept only as precisely as the router reads it: a string, a
//! non-negative integer, or anything else. Absent keys and keys bound to
//! any other shape of data are indistinguishable to the router's
//! validation, exactly as required.

use vstd::prelude::*;

verus! {

/// One argument value, as coarse as the router's validation reads it.
pub enum ArgValue {
    /// A string value.
    Text(String),
    /// A number representable as a non-negative integer.
    UInt(u64),
    /// Any other structured value (null, boolean, fractional or negative
    /// number, array, object).
    Other,
}

/// The key-value structure supplied by the protocol client at call time.
pub struct CallArguments {
    pub entries: Vec<(String, ArgValue)>,
}

/// The value bound to the first entry for `key`, if any.
pub open spec fn spec_lookup(entries: Seq<(String, ArgValue)>, key: Seq<char>) -> Option<
    ArgValue,
>
    decreases entries.len(),
{
    if entries.len() == 0 {
        None
    } else if entries[0].0@ == key {
        Some(entries[0].1)
    } else {
        spec_lookup(entries.drop_first(), key)
    }
}

/// The string bound to `key`, or `None` when `key` is absent or bound to
/// a value of another shape.
pub open spec fn spec_str_arg(args: CallArguments, key: Seq<char>) -> Option<Seq<char>> {
    match spec_lookup(args.entries@, key) {
        Some(ArgValue::Text(s)) => Some(s@),
        _ => None,
    }
}

/// The non-negative integer bound to `key`, or `None` when `key` is
/// absent or bound to a value of another shape.
pub open spec fn spec_uint_arg(args: CallArguments, key: Seq<char>) -> Option<u64> {
    match spec_lookup(args.entries@, key) {
        Some(ArgValue::UInt(v)) => Some(v),
        _ => None,
    }
}

impl CallArguments {
    /// An argument bag with no entries.
    pub fn new() -> (r: CallArguments)
        ensures
            r.entries@.len() == 0,
    {
        CallArguments { entries: Vec::new() }
    }

    /// Appends an entry; a later entry never shadows an earlier one with
    /// the same key.
    pub fn push(&mut self, key: String, value: ArgValue)
        ensures
            final (self).entries@ == old(self).entries@.push((key, value)),
    {
        self.entries.push((key, value));
    }

    fn lookup_from(&self, i: usize, key: &String) -> (r: Option<&ArgValue>)
        requires
            i <= self.entries@.len(),
        ensures
            match r {
                Some(v) => spec_lookup(self.entries@.skip(i as int), key@) == Some(*v),
                None => spec_lookup(self.entries@.skip(i as int), key@) is None,
            },
        decreases self.entries@.len() - i,
    {
        if i == self.entries.len() {
            None
        } else {
            proof {
                assert(self.entries@.skip(i as int)[0] == self.entries@[i as int]);
                assert(self.entries@.skip(i as int).drop_first() =~= self.entries@.skip(
                    i as int + 1,
                ));
            }
            if self.entries[i].0 == *key {
                Some(&self.entries[i].1)
            } else {
                self.lookup_from(i + 1, key)
            }
        }
    }

    /// The value bound to the first entry for `key`, if any.
    pub fn lookup(&self, key: &String) -> (r: Option<&ArgValue>)
        ensures
            match r {
                Some(v) => spec_lookup(self.entries@, key@) == Some(*v),
                None => spec_lookup(self.entries@, key@) is None,
            },
    {
        proof {
            assert(self.entries@.skip(0) =~= self.entries@);
        }
        self.lookup_from(0, key)
    }

    /// The string bound to `key`, or `None` when `key` is absent or not a
    /// string.
    pub fn str_arg(&self, key: &String) -> (r: Option<String>)
        ensures
            match r {
                Some(s) => spec_str_arg(*self, key@) == Some(s@),
                None => spec_str_arg(*self, key@) is None,
            },
    {
        match self.lookup(key) {
            Some(ArgValue::Text(s)) => Some(s.clone()),
            _ => None,
        }
    }

    /// The non-negative integer bound to `key`, or `None` when `key` is
    /// absent or not such a number.
    pub fn uint_arg(&self, key: &String) -> (r: Option<u64>)
        ensures
            r == spec_uint_arg(*self, key@),
    {
        match self.lookup(key) {
            Some(ArgValue::UInt(v)) => Some(*v),
            _ => None,
        }
    }
}

} // verus!
