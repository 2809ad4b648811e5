use vstd::prelude::*;
use ic_stable_structures::{BTreeMap, VectorMemory};
use crate::text::text_before;

verus! {

/// An ordered index from text keys to row numbers: a `BTreeMap` of
/// `ic_stable_structures` in a memory of its own. Nothing is proved of the
/// map: what is known of it is what the functions below state over
/// `text_index_slots`.
#[verifier::external_body]
pub struct TextIndex {
    inner: BTreeMap<String, u64, VectorMemory>,
}

/// An ordered index from byte-string keys to row numbers: a `BTreeMap` of
/// `ic_stable_structures` in a memory of its own, known through
/// `bytes_index_slots`.
#[verifier::external_body]
pub struct BytesIndex {
    inner: BTreeMap<Vec<u8>, u64, VectorMemory>,
}

/// An ordered index from numeric keys to row numbers: a `BTreeMap` of
/// `ic_stable_structures` in a memory of its own, known through
/// `seq_index_slots`.
#[verifier::external_body]
pub struct SeqIndex {
    inner: BTreeMap<u64, u64, VectorMemory>,
}

/// What a text index holds.
pub uninterp spec fn text_index_slots(ix: TextIndex) -> Map<Seq<char>, u64>;

/// What a byte-string index holds.
pub uninterp spec fn bytes_index_slots(ix: BytesIndex) -> Map<Seq<u8>, u64>;

/// What a numeric index holds.
pub uninterp spec fn seq_index_slots(ix: SeqIndex) -> Map<u64, u64>;

/// The row number filed under `key`, if there is one.
pub open spec fn slot_of<K>(slots: Map<K, u64>, key: K) -> Option<u64> {
    if slots.dom().contains(key) {
        Some(slots[key])
    } else {
        None
    }
}

/// `BTreeMap::new` on a fresh `VectorMemory`: the new map holds nothing.
#[verifier::external_body]
fn text_index_new() -> (ix: TextIndex)
    ensures
        text_index_slots(ix).dom() =~= Set::empty(),
{
    TextIndex { inner: BTreeMap::new(VectorMemory::default()) }
}

/// `BTreeMap::get`: the value stored under `key`, if the key is present.
#[verifier::external_body]
fn text_index_get(ix: &TextIndex, key: &String) -> (r: Option<u64>)
    ensures
        r == slot_of(text_index_slots(*ix), key@),
{
    ix.inner.get(key)
}

/// `BTreeMap::insert`: afterwards `key` maps to `slot` and every other key is
/// as before.
#[verifier::external_body]
fn text_index_insert(ix: &mut TextIndex, key: String, slot: u64)
    ensures
        text_index_slots(*final(ix)) == text_index_slots(*old(ix)).insert(key@, slot),
{
    ix.inner.insert(key, slot);
}

/// `BTreeMap::remove`: afterwards `key` is absent and every other key is as
/// before.
#[verifier::external_body]
fn text_index_remove(ix: &mut TextIndex, key: &String)
    ensures
        text_index_slots(*final(ix)) == text_index_slots(*old(ix)).remove(key@),
{
    ix.inner.remove(key);
}

/// `keys` lists every key of `dom` once, in ascending order.
pub open spec fn key_order(keys: Seq<Seq<char>>, dom: Set<Seq<char>>) -> bool {
    &&& keys.no_duplicates()
    &&& keys.to_set() =~= dom
    &&& forall|i: int, j: int| 0 <= i < j < keys.len() ==> text_before(#[trigger] keys[i], #[trigger] keys[j])
}

/// `BTreeMap::keys`, collected: every key of the map once, in the order of
/// `String`, which goes by code points.
#[verifier::external_body]
fn text_index_keys(ix: &TextIndex) -> (keys: Vec<String>)
    ensures
        key_order(crate::common::views(keys@), text_index_slots(*ix).dom()),
{
    ix.inner.keys().collect()
}

/// The order of byte-string keys: by the first byte in which two strings
/// differ, a string coming before those that continue it.
pub open spec fn bytes_before(a: Seq<u8>, b: Seq<u8>) -> bool
    decreases a.len(),
{
    if b.len() == 0 {
        false
    } else if a.len() == 0 {
        true
    } else if a[0] != b[0] {
        a[0] < b[0]
    } else {
        bytes_before(a.drop_first(), b.drop_first())
    }
}

/// `keys` lists every key of `dom` once, in ascending order.
pub open spec fn bytes_key_order(keys: Seq<Seq<u8>>, dom: Set<Seq<u8>>) -> bool {
    &&& keys.no_duplicates()
    &&& keys.to_set() =~= dom
    &&& forall|i: int, j: int|
        0 <= i < j < keys.len() ==> bytes_before(#[trigger] keys[i], #[trigger] keys[j])
}

/// `BTreeMap::keys`, collected: every key of the map once, in the order of
/// `Vec<u8>`, which goes byte by byte.
#[verifier::external_body]
fn bytes_index_keys(ix: &BytesIndex) -> (keys: Vec<Vec<u8>>)
    ensures
        bytes_key_order(crate::common::views(keys@), bytes_index_slots(*ix).dom()),
{
    ix.inner.keys().collect()
}

/// `BTreeMap::new` on a fresh `VectorMemory`: the new map holds nothing.
#[verifier::external_body]
fn bytes_index_new() -> (ix: BytesIndex)
    ensures
        bytes_index_slots(ix).dom() =~= Set::empty(),
{
    BytesIndex { inner: BTreeMap::new(VectorMemory::default()) }
}

/// `BTreeMap::get`: the value stored under `key`, if the key is present.
#[verifier::external_body]
fn bytes_index_get(ix: &BytesIndex, key: &Vec<u8>) -> (r: Option<u64>)
    ensures
        r == slot_of(bytes_index_slots(*ix), key@),
{
    ix.inner.get(key)
}

/// `BTreeMap::insert`: afterwards `key` maps to `slot` and every other key is
/// as before.
#[verifier::external_body]
fn bytes_index_insert(ix: &mut BytesIndex, key: Vec<u8>, slot: u64)
    ensures
        bytes_index_slots(*final(ix)) == bytes_index_slots(*old(ix)).insert(key@, slot),
{
    ix.inner.insert(key, slot);
}

/// `BTreeMap::new` on a fresh `VectorMemory`: the new map holds nothing.
#[verifier::external_body]
fn seq_index_new() -> (ix: SeqIndex)
    ensures
        seq_index_slots(ix).dom() =~= Set::empty(),
{
    SeqIndex { inner: BTreeMap::new(VectorMemory::default()) }
}

/// `BTreeMap::get`: the value stored under `key`, if the key is present.
#[verifier::external_body]
fn seq_index_get(ix: &SeqIndex, key: &u64) -> (r: Option<u64>)
    ensures
        r == slot_of(seq_index_slots(*ix), *key),
{
    ix.inner.get(key)
}

/// `BTreeMap::insert`: afterwards `key` maps to `slot` and every other key is
/// as before.
#[verifier::external_body]
fn seq_index_insert(ix: &mut SeqIndex, key: u64, slot: u64)
    ensures
        seq_index_slots(*final(ix)) == seq_index_slots(*old(ix)).insert(key, slot),
{
    ix.inner.insert(key, slot);
}

/// A key that has a mathematical value.
pub trait Keyed {
    type Model;

    spec fn model(&self) -> Self::Model;
}

impl Keyed for String {
    type Model = Seq<char>;

    open spec fn model(&self) -> Seq<char> {
        self@
    }
}

impl Keyed for Vec<u8> {
    type Model = Seq<u8>;

    open spec fn model(&self) -> Seq<u8> {
        self@
    }
}

impl Keyed for u64 {
    type Model = u64;

    open spec fn model(&self) -> u64 {
        *self
    }
}

/// An index from keys to row numbers.
pub trait SlotIndex: Sized {
    type Key: Keyed;

    spec fn slots(&self) -> Map<<Self::Key as Keyed>::Model, u64>;

    fn create() -> (ix: Self)
        ensures
            ix.slots().dom() =~= Set::empty(),
    ;

    fn lookup(&self, key: &Self::Key) -> (r: Option<u64>)
        ensures
            r == slot_of(self.slots(), key.model()),
    ;

    fn assign(&mut self, key: Self::Key, slot: u64)
        ensures
            final(self).slots() == old(self).slots().insert(key.model(), slot),
    ;
}

impl SlotIndex for TextIndex {
    type Key = String;

    open spec fn slots(&self) -> Map<Seq<char>, u64> {
        text_index_slots(*self)
    }

    fn create() -> (ix: Self) {
        text_index_new()
    }

    fn lookup(&self, key: &String) -> (r: Option<u64>) {
        text_index_get(self, key)
    }

    fn assign(&mut self, key: String, slot: u64) {
        text_index_insert(self, key, slot)
    }
}

impl SlotIndex for BytesIndex {
    type Key = Vec<u8>;

    open spec fn slots(&self) -> Map<Seq<u8>, u64> {
        bytes_index_slots(*self)
    }

    fn create() -> (ix: Self) {
        bytes_index_new()
    }

    fn lookup(&self, key: &Vec<u8>) -> (r: Option<u64>) {
        bytes_index_get(self, key)
    }

    fn assign(&mut self, key: Vec<u8>, slot: u64) {
        bytes_index_insert(self, key, slot)
    }
}

impl SlotIndex for SeqIndex {
    type Key = u64;

    open spec fn slots(&self) -> Map<u64, u64> {
        seq_index_slots(*self)
    }

    fn create() -> (ix: Self) {
        seq_index_new()
    }

    fn lookup(&self, key: &u64) -> (r: Option<u64>) {
        seq_index_get(self, key)
    }

    fn assign(&mut self, key: u64, slot: u64) {
        seq_index_insert(self, key, slot)
    }
}

/// A table of rows found by key: the index files each key under the number
/// of its row.
pub struct Table<I: SlotIndex, R: View> {
    index: I,
    rows: Vec<R>,
}

impl<I: SlotIndex, R: View> View for Table<I, R> {
    type V = Map<<I::Key as Keyed>::Model, R::V>;

    closed spec fn view(&self) -> Self::V {
        Map::new(
            |k: <I::Key as Keyed>::Model| self.index.slots().dom().contains(k),
            |k: <I::Key as Keyed>::Model| self.rows@[self.index.slots()[k] as int]@,
        )
    }
}

impl<I: SlotIndex, R: View> Table<I, R> {
    /// Every key is filed under a row that exists, and no two keys share a row.
    pub closed spec fn wf(&self) -> bool {
        &&& forall|k: <I::Key as Keyed>::Model|
            (#[trigger] self.index.slots().dom().contains(k)) ==> self.index.slots()[k]
                < self.rows.len()
        &&& forall|j: <I::Key as Keyed>::Model, k: <I::Key as Keyed>::Model|
            #[trigger] self.index.slots().dom().contains(j) && #[trigger] self.index.slots().dom().contains(k)
                && j != k ==> self.index.slots()[j] != self.index.slots()[k]
    }

    /// A table without rows.
    pub fn new() -> (t: Self)
        ensures
            t.wf(),
            t@ =~= Map::empty(),
    {
        Table { index: I::create(), rows: Vec::new() }
    }

    /// The row stored under `key`, if there is one.
    pub fn get(&self, key: &I::Key) -> (r: Option<&R>)
        requires
            self.wf(),
        ensures
            r is Some <==> self@.dom().contains(key.model()),
            r matches Some(row) ==> row@ == self@[key.model()],
    {
        match self.index.lookup(key) {
            Some(slot) => {
                assert(self.index.slots().dom().contains(key.model()));
                Some(&self.rows[slot as usize])
            },
            None => None,
        }
    }

    /// Stores `row` under `key`, in place of the row that was there.
    pub fn put(&mut self, key: I::Key, row: R)
        requires
            old(self).wf(),
        ensures
            final(self).wf(),
            final(self)@ == old(self)@.insert(key.model(), row@),
    {
        let ghost k = key.model();
        match self.index.lookup(&key) {
            Some(slot) => {
                assert(self.index.slots().dom().contains(k));
                self.rows.set(slot as usize, row);
                assert(self@ =~= old(self)@.insert(k, row@));
            },
            None => {
                let slot: u64 = self.rows.len() as u64;
                self.rows.push(row);
                self.index.assign(key, slot);
                assert(self@ =~= old(self)@.insert(k, row@));
            },
        }
    }
}

impl<R: View> Table<TextIndex, R> {
    /// Takes `key` out of the table.
    pub fn remove(&mut self, key: &String)
        requires
            old(self).wf(),
        ensures
            final(self).wf(),
            final(self)@ == old(self)@.remove(key@),
    {
        text_index_remove(&mut self.index, key);
        assert(self@ =~= old(self)@.remove(key@));
    }

    /// The keys of the table in ascending order.
    pub fn keys(&self) -> (keys: Vec<String>)
        ensures
            key_order(crate::common::views(keys@), self@.dom()),
    {
        let keys = text_index_keys(&self.index);
        assert(self@.dom() =~= self.index.slots().dom());
        keys
    }
}

impl<R: View> Table<BytesIndex, R> {
    /// The keys of the table in ascending order.
    pub fn keys(&self) -> (keys: Vec<Vec<u8>>)
        ensures
            bytes_key_order(crate::common::views(keys@), self@.dom()),
    {
        let keys = bytes_index_keys(&self.index);
        assert(self@.dom() =~= self.index.slots().dom());
        keys
    }
}

} // verus!
