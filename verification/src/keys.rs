//! Identifiers shared by every stage of the pipeline.

use vstd::prelude::*;

verus! {

/// An epoch number of the cluster.
pub type Epoch = u64;

/// A 32-byte public key: a validator identity or a vote account address.
#[derive(Clone, Copy, Debug, Hash)]
pub struct Pubkey {
    pub bytes: [u8; 32],
}

impl PartialEq for Pubkey {
    fn eq(&self, other: &Pubkey) -> (r: bool) {
        let mut i: usize = 0;
        while i < 32
            invariant
                i <= 32,
                forall|j: int| 0 <= j < i ==> self.bytes[j] == other.bytes[j],
            decreases 32 - i,
        {
            if self.bytes[i] != other.bytes[i] {
                return false;
            }
            i += 1;
        }
        proof {
            assert(self.bytes =~= other.bytes);
        }
        true
    }
}

impl Eq for Pubkey {

}

impl vstd::std_specs::cmp::PartialEqSpecImpl for Pubkey {
    open spec fn obeys_eq_spec() -> bool {
        true
    }

    open spec fn eq_spec(&self, other: &Pubkey) -> bool {
        *self == *other
    }
}

impl DeepView for Pubkey {
    type V = Pubkey;

    open spec fn deep_view(&self) -> Pubkey {
        *self
    }
}

impl Pubkey {
    /// The key made of the given bytes.
    pub fn new(bytes: [u8; 32]) -> (key: Pubkey)
        ensures
            key.bytes == bytes,
    {
        Pubkey { bytes }
    }
}

/// The network a snapshot belongs to.
#[derive(Clone, Copy, Debug, PartialEq, Eq, Hash, Structural)]
pub enum Cluster {
    Testnet,
    MainnetBeta,
}

/// An entry of a table that is searched by public key.
pub trait Keyed {
    /// The key under which the entry is found.
    spec fn key_spec(&self) -> Pubkey;

    fn key(&self) -> (k: Pubkey)
        ensures
            k == self.key_spec(),
    ;
}

/// The index of the last entry of `entries` filed under `key`, if any.
/// Tables are read the way a map built by successive inserts is read: a
/// later entry replaces an earlier one with the same key.
pub open spec fn last_index_of<T: Keyed>(entries: Seq<T>, key: Pubkey) -> Option<int>
    decreases entries.len(),
{
    if entries.len() == 0 {
        None
    } else if entries.last().key_spec() == key {
        Some(entries.len() - 1)
    } else {
        last_index_of(entries.drop_last(), key)
    }
}

/// What `last_index_of` returns is an index of an entry with that key, and
/// no later entry has the key.
pub proof fn lemma_last_index_of<T: Keyed>(entries: Seq<T>, key: Pubkey)
    ensures
        match last_index_of(entries, key) {
            Some(i) => {
                &&& 0 <= i < entries.len()
                &&& entries[i].key_spec() == key
                &&& forall|j: int| i < j < entries.len() ==> entries[j].key_spec() != key
            },
            None => forall|j: int| 0 <= j < entries.len() ==> entries[j].key_spec() != key,
        },
    decreases entries.len(),
{
    if entries.len() > 0 && entries.last().key_spec() != key {
        let front = entries.drop_last();
        lemma_last_index_of(front, key);
        assert(forall|j: int| 0 <= j < front.len() ==> front[j] == entries[j]);
    }
}

/// Finds the last entry filed under `key`.
pub fn find_last<T: Keyed>(entries: &Vec<T>, key: &Pubkey) -> (found: Option<usize>)
    ensures
        match found {
            Some(i) => i < entries.len() && last_index_of(entries@, *key) == Some(i as int),
            None => last_index_of(entries@, *key) is None,
        },
{
    let mut i: usize = entries.len();
    proof {
        assert(entries@.take(i as int) =~= entries@);
    }
    while i > 0
        invariant
            i <= entries.len(),
            last_index_of(entries@, *key) == last_index_of(entries@.take(i as int), *key),
        decreases i,
    {
        let k = entries[i - 1].key();
        if k == *key {
            return Some(i - 1);
        }
        proof {
            assert(entries@.take(i as int).drop_last() =~= entries@.take(i - 1));
        }
        i -= 1;
    }
    None
}

} // verus!
