//! The key-value mapping that a node carries: attributes, event handlers,
//! or the fields of a component.

use vstd::prelude::*;
use crate::value::{Value, ValueView};

verus! {

/// What a sequence of writes leaves in a mapping: each write replaces what
/// stood under its key.
pub open spec fn written(entries: Seq<(String, Value)>) -> Map<Seq<char>, ValueView>
    decreases entries.len(),
{
    if entries.len() == 0 {
        Map::empty()
    } else {
        written(entries.drop_last()).insert(entries.last().0@, entries.last().1@)
    }
}

/// An ordered record of property writes.
#[derive(Clone, Debug, PartialEq, Eq)]
pub struct Props {
    entries: Vec<(String, Value)>,
}

impl View for Props {
    type V = Map<Seq<char>, ValueView>;

    open spec fn view(&self) -> Map<Seq<char>, ValueView> {
        written(self.log())
    }
}

impl Props {
    /// The mapping with no property.
    pub fn new() -> (p: Props)
        ensures
            p@ == Map::<Seq<char>, ValueView>::empty(),
    {
        Props { entries: Vec::new() }
    }

    /// The writes in the order in which they were made.
    pub closed spec fn log(&self) -> Seq<(String, Value)> {
        self.entries@
    }

    /// Writes `value` under `key`, replacing what stood there.
    pub fn set(self, key: String, value: Value) -> (p: Props)
        ensures
            p@ == self@.insert(key@, value@),
            p.log() == self.log().push((key, value)),
    {
        let mut entries = self.entries;
        let ghost before = entries@;
        entries.push((key, value));
        proof {
            assert(entries@.drop_last() =~= before);
        }
        Props { entries }
    }

    /// The value under `key`, if one was written.
    pub fn get(&self, key: &str) -> (v: Option<Value>)
        ensures
            match v {
                Some(x) => self@.contains_key(key@) && self@[key@] == x@,
                None => !self@.contains_key(key@),
            },
    {
        let wanted: String = key.to_owned();
        let mut i: usize = self.entries.len();
        proof {
            assert(self.entries@.take(i as int) =~= self.entries@);
        }
        while i > 0
            invariant
                i <= self.entries.len(),
                wanted@ == key@,
                written(self.entries@).contains_key(key@) == written(
                    self.entries@.take(i as int),
                ).contains_key(key@),
                written(self.entries@).contains_key(key@) ==> written(self.entries@)[key@]
                    == written(self.entries@.take(i as int))[key@],
            decreases i,
        {
            proof {
                let prefix = self.entries@.take(i as int);
                assert(prefix.drop_last() =~= self.entries@.take(i - 1));
                assert(prefix.last() == self.entries@[i - 1]);
                assert(written(prefix) == written(prefix.drop_last()).insert(
                    prefix.last().0@,
                    prefix.last().1@,
                ));
            }
            i = i - 1;
            if self.entries[i].0 == wanted {
                return Some(self.entries[i].1.duplicate());
            }
        }
        proof {
            assert(self.entries@.take(0).len() == 0);
        }
        None
    }

    /// How many writes were made.
    pub fn len(&self) -> (n: usize)
        ensures
            n == self.log().len(),
    {
        self.entries.len()
    }

    /// The key of the write at `index`.
    pub fn key_at(&self, index: usize) -> (k: &String)
        requires
            index < self.log().len(),
        ensures
            *k == self.log()[index as int].0,
    {
        &self.entries[index].0
    }

    /// The value of the write at `index`.
    pub fn value_at(&self, index: usize) -> (v: &Value)
        requires
            index < self.log().len(),
        ensures
            *v == self.log()[index as int].1,
    {
        &self.entries[index].1
    }
}

} // verus!
