use vstd::prelude::*;

use crate::bytes::copy_bytes;

verus! {

/// One stored object: its container, its name, and its bytes.
struct StoreEntry {
    bucket: String,
    name: String,
    data: Vec<u8>,
}

/// The key an entry is stored under.
spec fn entry_key(e: StoreEntry) -> (Seq<char>, Seq<char>) {
    (e.bucket@, e.name@)
}

/// The contents that a record of stored objects denotes: a later entry for
/// the same bucket and name silently overwrites an earlier one.
spec fn entries_map(s: Seq<StoreEntry>) -> Map<(Seq<char>, Seq<char>), Seq<u8>>
    decreases s.len(),
{
    if s.len() == 0 {
        Map::empty()
    } else {
        entries_map(s.drop_last()).insert(entry_key(s.last()), s.last().data@)
    }
}

/// If an entry matches a key and no later entry does, the denoted contents
/// hold that entry's bytes under the key.
proof fn lemma_last_match(s: Seq<StoreEntry>, k: (Seq<char>, Seq<char>), j: int)
    requires
        0 <= j < s.len(),
        entry_key(s[j]) == k,
        forall|m: int| j < m < s.len() ==> entry_key(s[m]) != k,
    ensures
        entries_map(s).contains_key(k),
        entries_map(s)[k] == s[j].data@,
    decreases s.len(),
{
    if j == s.len() - 1 {
    } else {
        assert(s.drop_last()[j] == s[j]);
        lemma_last_match(s.drop_last(), k, j);
    }
}

/// If no entry matches a key, the denoted contents hold nothing under it.
proof fn lemma_no_match(s: Seq<StoreEntry>, k: (Seq<char>, Seq<char>))
    requires
        forall|m: int| 0 <= m < s.len() ==> entry_key(s[m]) != k,
    ensures
        !entries_map(s).contains_key(k),
    decreases s.len(),
{
    if s.len() > 0 {
        lemma_no_match(s.drop_last(), k);
    }
}

/// Round-trip identity through the object store: after putting bytes under
/// a bucket and a name, getting that bucket and name returns exactly those
/// bytes, whatever the store held before.
pub proof fn lemma_store_round_trip(
    contents: Map<(Seq<char>, Seq<char>), Seq<u8>>,
    bucket: Seq<char>,
    name: Seq<char>,
    data: Seq<u8>,
)
    ensures
        contents.insert((bucket, name), data).contains_key((bucket, name)),
        contents.insert((bucket, name), data)[(bucket, name)] == data,
{
}

/// An in-memory stand-in for the object-storage service: a map from bucket
/// and object name to the stored bytes. A put overwrites any object of the
/// same name without conflict detection; a get returns the whole object.
pub struct FakeStore {
    entries: Vec<StoreEntry>,
}

impl View for FakeStore {
    type V = Map<(Seq<char>, Seq<char>), Seq<u8>>;

    closed spec fn view(&self) -> Map<(Seq<char>, Seq<char>), Seq<u8>> {
        entries_map(self.entries@)
    }
}

impl FakeStore {
    /// An empty store.
    pub fn new() -> (s: FakeStore)
        ensures
            s@ == Map::<(Seq<char>, Seq<char>), Seq<u8>>::empty(),
    {
        FakeStore { entries: Vec::new() }
    }

    /// Stores bytes under a bucket and an object name, silently replacing
    /// whatever that name held before. Never fails.
    pub fn put(&mut self, bucket: String, name: String, data: Vec<u8>)
        ensures
            final(self)@ == old(self)@.insert((bucket@, name@), data@),
    {
        let entry = StoreEntry { bucket, name, data };
        self.entries.push(entry);
        proof {
            assert(self.entries@.drop_last() =~= old(self).entries@);
        }
    }

    /// Retrieves the object stored under a bucket and a name: exactly the
    /// bytes the latest put under that key stored, or nothing when no put
    /// ever stored that key.
    pub fn get(&self, bucket: &String, name: &String) -> (r: Option<Vec<u8>>)
        ensures
            self@.contains_key((bucket@, name@)) ==> (r matches Some(v) && v@ == self@[(
                bucket@,
                name@,
            )]),
            !self@.contains_key((bucket@, name@)) ==> r is None,
    {
        let mut i: usize = self.entries.len();
        while i > 0
            invariant
                i <= self.entries@.len(),
                forall|m: int|
                    i <= m < self.entries@.len() ==> entry_key(self.entries@[m]) != (
                    bucket@,
                    name@,
                    ),
            decreases i,
        {
            i = i - 1;
            let e = &self.entries[i];
            if e.bucket.eq(bucket) && e.name.eq(name) {
                proof {
                    lemma_last_match(self.entries@, (bucket@, name@), i as int);
                }
                return Some(copy_bytes(&e.data));
            }
        }
        proof {
            lemma_no_match(self.entries@, (bucket@, name@));
        }
        None
    }
}

} // verus!
