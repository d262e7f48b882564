use vstd::prelude::*;

verus! {

/// An absolute instant: whole seconds since the Unix epoch plus a sub-second part.
#[derive(Clone, Copy, Debug, PartialEq, Eq, Structural)]
pub struct Timestamp {
    pub secs: i64,
    pub nanos: u32,
}

impl Timestamp {
    pub open spec fn wf(self) -> bool {
        self.nanos < 1_000_000_000
    }

    /// Strict chronological order.
    pub open spec fn before(self, other: Timestamp) -> bool {
        self.secs < other.secs || (self.secs == other.secs && self.nanos < other.nanos)
    }

    /// `self` comes strictly before `other`.
    pub fn is_before(&self, other: &Timestamp) -> (r: bool)
        ensures
            r == self.before(*other),
    {
        self.secs < other.secs || (self.secs == other.secs && self.nanos < other.nanos)
    }
}

/// An integer of the property list; it is representable as an `i64`, a `u64`, or both.
#[derive(Clone, Copy, Debug, PartialEq, Eq, Structural)]
pub struct IntegerValue {
    pub signed: Option<i64>,
    pub unsigned: Option<u64>,
}

impl IntegerValue {
    /// The mathematical value, whichever representation holds it.
    pub open spec fn value(self) -> int {
        match self.signed {
            Some(v) => v as int,
            None => match self.unsigned {
                Some(u) => u as int,
                None => 0,
            },
        }
    }

    pub fn to_i128(&self) -> (r: i128)
        ensures
            r as int == self.value(),
    {
        match self.signed {
            Some(v) => v as i128,
            None => match self.unsigned {
                Some(u) => u as i128,
                None => 0,
            },
        }
    }
}

/// A decoded property-list value.
#[derive(Debug, PartialEq)]
pub enum PayloadValue {
    String(String),
    Integer(IntegerValue),
    Boolean(bool),
    Date(Timestamp),
    Binary(Vec<u8>),
    Sequence(Vec<PayloadValue>),
    Mapping(Vec<(String, PayloadValue)>),
    /// A floating-point number; its value is not kept.
    Real,
    /// A keyed-archive reference.
    Uid(u64),
    /// A value of a kind that this library does not know.
    Unknown,
}

/// First value stored under `key` in a list of entries.
pub open spec fn lookup(entries: Seq<(String, PayloadValue)>, key: Seq<char>) -> Option<PayloadValue>
    decreases entries.len(),
{
    if entries.len() == 0 {
        None
    } else if entries[0].0@ == key {
        Some(entries[0].1)
    } else {
        lookup(entries.drop_first(), key)
    }
}

/// Looks `key` up among `entries`; the first entry with that key wins.
pub fn find_entry<'a>(entries: &'a Vec<(String, PayloadValue)>, key: &str) -> (r: Option<
    &'a PayloadValue,
>)
    ensures
        r matches Some(v) ==> lookup(entries@, key@) == Some(*v),
        r is None ==> lookup(entries@, key@) is None,
{
    let wanted = key.to_owned();
    let mut i: usize = 0;
    assert(entries@.subrange(0, entries@.len() as int) =~= entries@);
    while i < entries.len()
        invariant
            i <= entries@.len(),
            wanted@ == key@,
            lookup(entries@, key@) == lookup(entries@.subrange(i as int, entries@.len() as int), key@),
        decreases entries@.len() - i,
    {
        let ghost rest = entries@.subrange(i as int, entries@.len() as int);
        assert(rest.drop_first() =~= entries@.subrange(i + 1, entries@.len() as int));
        assert(rest[0] == entries@[i as int]);
        assert(lookup(rest, key@) == if rest[0].0@ == key@ {
            Some(rest[0].1)
        } else {
            lookup(rest.drop_first(), key@)
        });
        if entries[i].0 == wanted {
            return Some(&entries[i].1);
        }
        i += 1;
    }
    None
}

} // verus!
