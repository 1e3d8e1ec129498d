//! The record store: an arena of person-like records reached through
//! handles. Slot indices are never reused, each live record owns its text
//! payload under a fresh allocation identity, and release empties a slot
//! for good, so a released handle can never reach storage again.
//!
//! The allocation identity (`text_id`) models the address of the text
//! payload's storage: two live records whose identities differ own two
//! distinct allocations. Every operation that produces a record draws a
//! fresh identity, so no operation can make two live records share one
//! text allocation — the defect that turns into a double free at a flat
//! foreign boundary.

use crate::text::is_text;
use vstd::prelude::*;

verus! {

/// Why an operation declined to produce a record.
#[derive(Clone, Copy, PartialEq, Eq, Structural, Debug)]
pub enum StoreError {
    /// The byte sequence offered as text is not decodable or holds a nul.
    InvalidInput,
    /// The source record's age is below the adulthood threshold.
    PolicyRejection,
}

/// A caller's name for a record in the store. It stays syntactically
/// usable after the record is released, but the store then recognises it
/// as dead: the one-slot-per-record discipline makes use-after-release
/// observable instead of undefined.
#[derive(Clone, Copy, PartialEq, Eq, Structural, Debug)]
pub struct Handle {
    /// Index of the record's slot; slots are never reused.
    pub index: usize,
}

/// A person-like record: an owned text payload, its allocation identity,
/// and a signed 32-bit age.
pub struct Record {
    /// The owned text payload: UTF-8, nul-free bytes.
    pub text: Vec<u8>,
    /// Identity of the text payload's allocation. Unique among live
    /// records.
    pub text_id: u64,
    /// The record's age.
    pub age: i32,
}

/// The age at and above which `derive_adult` produces a record.
pub const ADULT_AGE: i32 = 18;

/// The store that owns every record. A slot holds `Some` while its
/// record is live and `None` for good once the record is released.
pub struct Store {
    slots: Vec<Option<Record>>,
    next_text_id: u64,
}

impl Store {
    /// The slots, one per record ever created, in creation order.
    pub closed spec fn slots_spec(self) -> Seq<Option<Record>> {
        self.slots@
    }

    /// The identity the next allocated text payload will get. Identities
    /// already handed out are strictly below it.
    pub closed spec fn next_text_id(self) -> u64 {
        self.next_text_id
    }

    /// How many slots the store has ever created.
    pub open spec fn num_slots(self) -> int {
        self.slots_spec().len() as int
    }

    /// The handle names a live record.
    pub open spec fn live(self, h: Handle) -> bool {
        h.index < self.slots_spec().len() && self.slots_spec()[h.index as int] is Some
    }

    /// The record a live handle names.
    pub open spec fn record_at(self, h: Handle) -> Record
        recommends
            self.live(h),
    {
        self.slots_spec()[h.index as int]->0
    }

    /// The store's invariant: every live record's text is well-formed and
    /// was allocated under an identity drawn before `next_text_id`, and no
    /// two live records share a text allocation.
    pub open spec fn wf(self) -> bool {
        &&& forall|i: int|
            0 <= i < self.num_slots() && self.slots_spec()[i] is Some ==> {
                &&& is_text((#[trigger] self.slots_spec()[i])->0.text@)
                &&& self.slots_spec()[i]->0.text_id < self.next_text_id()
            }
        &&& forall|i: int, j: int|
            0 <= i < j < self.num_slots() && self.slots_spec()[i] is Some
                && self.slots_spec()[j] is Some ==> (#[trigger] self.slots_spec()[i])->0.text_id
                != (#[trigger] self.slots_spec()[j])->0.text_id
    }

    /// An empty store.
    pub fn new() -> (s: Store)
        ensures
            s.wf(),
            s.num_slots() == 0,
            s.next_text_id() == 0,
    {
        Store { slots: Vec::new(), next_text_id: 0 }
    }
}

/// `post` is `pre` with one fresh record appended: the new record, named
/// by `h`, carries `text` and `age` under a text allocation identity that
/// `pre` had not handed out, and every slot of `pre` is untouched.
pub open spec fn adds_record(pre: Store, post: Store, h: Handle, text: Seq<u8>, age: i32) -> bool {
    &&& h.index == pre.num_slots()
    &&& post.num_slots() == pre.num_slots() + 1
    &&& post.next_text_id() == pre.next_text_id() + 1
    &&& post.live(h)
    &&& post.record_at(h).text@ == text
    &&& post.record_at(h).age == age
    &&& post.record_at(h).text_id == pre.next_text_id()
    &&& forall|i: int| 0 <= i < pre.num_slots() ==> post.slots_spec()[i] == pre.slots_spec()[i]
}

/// `post` is `pre` with the slot `h` names emptied for good and every
/// other slot untouched: both the record's text allocation and its
/// container are reclaimed.
pub open spec fn removes_record(pre: Store, post: Store, h: Handle) -> bool {
    &&& post.slots_spec() == pre.slots_spec().update(h.index as int, None::<Record>)
    &&& post.next_text_id() == pre.next_text_id()
}

impl Store {
    /// Creates a record from a borrowed byte sequence and an age.
    ///
    /// If the bytes are not well-formed text, returns `InvalidInput` and
    /// allocates nothing: the store is exactly as it was. Otherwise the
    /// new record owns an independent copy of the bytes — the store never
    /// keeps the caller's buffer — and the copy is byte-for-byte the
    /// input, so decoding the record's text yields the input exactly.
    pub fn construct(&mut self, text: &Vec<u8>, age: i32) -> (r: Result<Handle, StoreError>)
        requires
            old(self).wf(),
            old(self).next_text_id() < u64::MAX,
        ensures
            final(self).wf(),
            is_text(text@) <==> r is Ok,
            r is Ok ==> adds_record(*old(self), *final(self), r->Ok_0, text@, age),
            r is Err ==> r->Err_0 == StoreError::InvalidInput && *final(self) == *old(self),
    {
        if !crate::text::check_text(text) {
            return Err(StoreError::InvalidInput);
        }
        let copied = copy_bytes(text);
        Ok(self.place(copied, age))
    }

    /// Produces a new record with a fresh, independent copy of the source
    /// record's text — never the source's own allocation — and the same
    /// age. The source record is not mutated, freed or taken over: it
    /// stays live, unchanged, and independently owned.
    pub fn duplicate(&mut self, h: Handle) -> (r: Handle)
        requires
            old(self).wf(),
            old(self).live(h),
            old(self).next_text_id() < u64::MAX,
        ensures
            final(self).wf(),
            adds_record(
                *old(self),
                *final(self),
                r,
                old(self).record_at(h).text@,
                old(self).record_at(h).age,
            ),
            final(self).live(h),
            final(self).record_at(h) == old(self).record_at(h),
            final(self).record_at(r).text_id != final(self).record_at(h).text_id,
    {
        let source = self.slots[h.index].as_ref().unwrap();
        let copied = copy_bytes(&source.text);
        let age = source.age;
        self.place(copied, age)
    }

    /// Applies the adulthood rule to a live record.
    ///
    /// If the source's age is below `ADULT_AGE`, returns `PolicyRejection`
    /// and allocates nothing: the store, and in particular the source
    /// record, is exactly as it was. Otherwise produces a new record with
    /// an independent copy of the source's text and the age incremented
    /// by exactly one; the source stays live, unchanged, and owned by its
    /// original holder.
    pub fn derive_adult(&mut self, h: Handle) -> (r: Result<Handle, StoreError>)
        requires
            old(self).wf(),
            old(self).live(h),
            old(self).next_text_id() < u64::MAX,
            old(self).record_at(h).age >= ADULT_AGE ==> old(self).record_at(h).age < i32::MAX,
        ensures
            final(self).wf(),
            old(self).record_at(h).age >= ADULT_AGE <==> r is Ok,
            r is Ok ==> adds_record(
                *old(self),
                *final(self),
                r->Ok_0,
                old(self).record_at(h).text@,
                (old(self).record_at(h).age + 1) as i32,
            ),
            r is Ok ==> final(self).record_at(r->Ok_0).text_id != final(self).record_at(
                h,
            ).text_id,
            final(self).live(h),
            final(self).record_at(h) == old(self).record_at(h),
            r is Err ==> r->Err_0 == StoreError::PolicyRejection && *final(self) == *old(self),
    {
        let age = self.slots[h.index].as_ref().unwrap().age;
        match adult_next_age(age) {
            None => Err(StoreError::PolicyRejection),
            Some(next) => {
                let copied = copy_bytes(&self.slots[h.index].as_ref().unwrap().text);
                Ok(self.place(copied, next))
            },
        }
    }

    /// Releases a record. A null handle (`None`) is a no-op and cannot
    /// fault. A live handle's record is reclaimed — text payload and
    /// container together — exactly once: afterwards the slot is empty
    /// for good, no handle naming it is live again, and every other
    /// record is untouched.
    pub fn release(&mut self, h: Option<Handle>)
        requires
            old(self).wf(),
            h is Some ==> old(self).live(h->0),
        ensures
            final(self).wf(),
            h is None ==> *final(self) == *old(self),
            h is Some ==> removes_record(*old(self), *final(self), h->0),
            h is Some ==> forall|g: Handle| g.index == h->0.index ==> !final(self).live(g),
    {
        match h {
            None => {},
            Some(handle) => {
                self.slots.set(handle.index, None);
                proof {
                    assert forall|i: int|
                        0 <= i < self.num_slots() && self.slots_spec()[i] is Some implies {
                        &&& is_text((#[trigger] self.slots_spec()[i])->0.text@)
                        &&& self.slots_spec()[i]->0.text_id < self.next_text_id()
                    } by {
                        assert(old(self).slots_spec()[i] == self.slots_spec()[i]);
                    }
                }
            },
        }
    }

    /// Whether the handle names a live record.
    pub fn is_live(&self, h: Handle) -> (r: bool)
        ensures
            r == self.live(h),
    {
        h.index < self.slots.len() && self.slots[h.index].is_some()
    }

    /// The age of a live record.
    pub fn age_of(&self, h: Handle) -> (r: i32)
        requires
            self.live(h),
        ensures
            r == self.record_at(h).age,
    {
        self.slots[h.index].as_ref().unwrap().age
    }

    /// A borrow of a live record's text payload, valid for the duration
    /// of the call; the store keeps ownership.
    pub fn text_of(&self, h: Handle) -> (r: &Vec<u8>)
        requires
            self.live(h),
        ensures
            r@ == self.record_at(h).text@,
    {
        &self.slots[h.index].as_ref().unwrap().text
    }

    /// The identity of a live record's text allocation.
    pub fn text_id_of(&self, h: Handle) -> (r: u64)
        requires
            self.live(h),
        ensures
            r == self.record_at(h).text_id,
    {
        self.slots[h.index].as_ref().unwrap().text_id
    }

    /// Appends a record built from an already-validated, already-copied
    /// text payload, drawing a fresh allocation identity for it.
    fn place(&mut self, text: Vec<u8>, age: i32) -> (h: Handle)
        requires
            old(self).wf(),
            old(self).next_text_id() < u64::MAX,
            is_text(text@),
        ensures
            final(self).wf(),
            adds_record(*old(self), *final(self), h, text@, age),
    {
        let h = Handle { index: self.slots.len() };
        let record = Record { text, text_id: self.next_text_id, age };
        self.slots.push(Some(record));
        self.next_text_id = self.next_text_id + 1;
        proof {
            assert forall|i: int|
                0 <= i < self.num_slots() && self.slots_spec()[i] is Some implies {
                &&& is_text((#[trigger] self.slots_spec()[i])->0.text@)
                &&& self.slots_spec()[i]->0.text_id < self.next_text_id()
            } by {
                if i < old(self).num_slots() {
                    assert(old(self).slots_spec()[i] == self.slots_spec()[i]);
                }
            }
            assert forall|i: int, j: int|
                0 <= i < j < self.num_slots() && self.slots_spec()[i] is Some
                    && self.slots_spec()[j] is Some implies (
            #[trigger] self.slots_spec()[i])->0.text_id != (
            #[trigger] self.slots_spec()[j])->0.text_id by {
                if j < old(self).num_slots() {
                    assert(old(self).slots_spec()[i] == self.slots_spec()[i]);
                    assert(old(self).slots_spec()[j] == self.slots_spec()[j]);
                } else {
                    assert(old(self).slots_spec()[i] == self.slots_spec()[i]);
                }
            }
        }
        h
    }
}

/// The adulthood rule as a pure function: an age below `ADULT_AGE` is
/// rejected; any other age is incremented by exactly one.
pub fn adult_next_age(age: i32) -> (r: Option<i32>)
    requires
        age >= ADULT_AGE ==> age < i32::MAX,
    ensures
        age >= ADULT_AGE <==> r is Some,
        r is Some ==> r->0 == age + 1,
{
    if age >= ADULT_AGE {
        Some(age + 1)
    } else {
        None
    }
}

/// Law: no aliasing. In a well-formed store, two distinct live records
/// never share one text allocation, whatever their byte contents; in
/// particular a record and its duplicate, or a record and the adult
/// record derived from it, own their payloads independently, and
/// releasing the one cannot free the other's storage.
pub proof fn lemma_no_text_aliasing(s: Store, h1: Handle, h2: Handle)
    requires
        s.wf(),
        s.live(h1),
        s.live(h2),
        h1 != h2,
    ensures
        s.record_at(h1).text_id != s.record_at(h2).text_id,
{
    if h1.index < h2.index {
        assert(s.slots_spec()[h1.index as int] is Some && s.slots_spec()[h2.index as int]
            is Some);
    } else {
        assert(s.slots_spec()[h2.index as int] is Some && s.slots_spec()[h1.index as int]
            is Some);
    }
}

/// Law: single-release safety. A record that is constructed and then
/// released exactly once is wholly reclaimed — its slot is empty, its
/// handle is dead, and no handle naming that slot is ever live — while
/// every record that was live before the construction is still live and
/// exactly as it was.
pub proof fn lemma_single_release(
    s0: Store,
    s1: Store,
    s2: Store,
    h: Handle,
    text: Seq<u8>,
    age: i32,
)
    requires
        adds_record(s0, s1, h, text, age),
        removes_record(s1, s2, h),
    ensures
        !s2.live(h),
        forall|g: Handle| g.index == h.index ==> !s2.live(g),
        forall|g: Handle|
            s0.live(g) ==> #[trigger] s2.live(g) && s2.record_at(g) == s0.record_at(g),
{
    assert forall|g: Handle| s0.live(g) implies #[trigger] s2.live(g) && s2.record_at(g)
        == s0.record_at(g) by {
        assert(s1.slots_spec()[g.index as int] == s0.slots_spec()[g.index as int]);
        assert(s2.slots_spec()[g.index as int] == s1.slots_spec()[g.index as int]);
    }
}

/// Copies a byte sequence into a brand-new allocation, byte for byte.
fn copy_bytes(src: &Vec<u8>) -> (r: Vec<u8>)
    ensures
        r@ == src@,
{
    let n = src.len();
    let mut out: Vec<u8> = Vec::new();
    let mut i: usize = 0;
    while i < n
        invariant
            i <= n,
            n == src@.len(),
            out@ == src@.take(i as int),
        decreases n - i,
    {
        out.push(src[i]);
        proof {
            assert(src@.take(i as int).push(src@[i as int]) =~= src@.take(i as int + 1));
        }
        i = i + 1;
    }
    proof {
        assert(src@.take(n as int) =~= src@);
    }
    out
}

/// A fixed diagnostic: a negative code and an owned message, freshly
/// allocated on every call and owned by the caller from then on.
pub struct ErrorInfo {
    pub code: i32,
    pub message: String,
}

/// The message text that every `ErrorInfo` carries.
pub open spec fn diagnostic_text() -> Seq<char> {
    "record store error"@
}

/// Builds the fixed diagnostic. Always succeeds; ownership of the fresh
/// message passes to the caller. No release operation is paired with it:
/// the caller frees it by dropping it.
pub fn make_error() -> (e: ErrorInfo)
    ensures
        e.code == -1,
        e.code < 0,
        e.message@ == diagnostic_text(),
{
    ErrorInfo { code: -1, message: String::from_str("record store error") }
}

} // verus!
