//! Tag correlation table.
//!
//! An extension's frame payload is produced in one callback and consumed in
//! later, disjoint ones (encode, log, terminal notification). The table
//! bridges them: `allocate` issues an opaque integer handle, `store` attaches
//! the payload, `fetch` retrieves it, and `release` ends the tag's life at
//! the terminal transition. Tags are issued monotonically, so a live tag is
//! never reused; `release` of a tag makes it absent, so a cycle returns the
//! table to its baseline contents.

use std::collections::HashMap;
use vstd::prelude::*;

verus! {

broadcast use vstd::std_specs::hash::group_hash_axioms;

/// Per-extension correlation table from tag to extension-owned payload.
pub struct TagTable<V> {
    next: u64,
    entries: HashMap<u64, V>,
}

impl<V> TagTable<V> {
    /// The live tags and their payloads.
    pub closed spec fn view(&self) -> Map<u64, V> {
        self.entries@
    }

    /// The handle the next `allocate` will issue.
    pub closed spec fn next_tag(&self) -> u64 {
        self.next
    }

    /// Every live tag was issued earlier than the next handle.
    pub closed spec fn wf(&self) -> bool {
        forall|t: u64| #[trigger] self.entries@.dom().contains(t) ==> t < self.next
    }

    /// An empty table; no tag has ever been issued.
    pub fn new() -> (r: Self)
        ensures
            r.wf(),
            r@ == Map::<u64, V>::empty(),
            r.next_tag() == 0,
    {
        TagTable { next: 0, entries: HashMap::new() }
    }

    /// Issue a fresh tag. The tag is not live until `store` attaches a
    /// payload to it, and it is distinct from every tag that is live or was
    /// ever released.
    pub fn allocate(&mut self) -> (t: u64)
        requires
            old(self).wf(),
            old(self).next_tag() < u64::MAX,
        ensures
            final(self).wf(),
            t == old(self).next_tag(),
            final(self).next_tag() == t + 1,
            final(self)@ == old(self)@,
            !final(self)@.dom().contains(t),
    {
        let t = self.next;
        self.next = self.next + 1;
        t
    }

    /// Attach `payload` to an issued tag.
    pub fn store(&mut self, tag: u64, payload: V)
        requires
            old(self).wf(),
            tag < old(self).next_tag(),
        ensures
            final(self).wf(),
            final(self)@ == old(self)@.insert(tag, payload),
            final(self).next_tag() == old(self).next_tag(),
    {
        self.entries.insert(tag, payload);
    }

    /// Look the payload of a tag up; `None` exactly when the tag is not live.
    pub fn fetch(&self, tag: u64) -> (r: Option<&V>)
        ensures
            match r {
                Some(v) => self@.dom().contains(tag) && *v == self@[tag],
                None => !self@.dom().contains(tag),
            },
    {
        self.entries.get(&tag)
    }

    /// End a tag's life at the terminal transition. The tag is absent
    /// afterwards, so a second release of the same tag changes nothing:
    /// the terminal release is effectively unique.
    pub fn release(&mut self, tag: u64)
        requires
            old(self).wf(),
        ensures
            final(self).wf(),
            final(self)@ == old(self)@.remove(tag),
            final(self).next_tag() == old(self).next_tag(),
    {
        self.entries.remove(&tag);
    }

    /// Number of live tags.
    pub fn len(&self) -> (r: usize)
        ensures
            r == self@.dom().len(),
    {
        self.entries.len()
    }
}

/// The terminal release of a tag is unique in effect: after it the tag is
/// absent, and any further release of the same tag changes nothing — so for
/// every allocated tag at most one release does anything, and the contracts
/// of the callers show that exactly one happens, at the terminal transition.
pub proof fn lemma_release_is_terminal<V>(m: Map<u64, V>, tag: u64)
    ensures
        !m.remove(tag).dom().contains(tag),
        m.remove(tag).remove(tag) == m.remove(tag),
{
    assert(m.remove(tag).remove(tag) =~= m.remove(tag));
}

/// A complete send or receive cycle returns the table to its baseline: a
/// tag issued by `allocate` is fresh, and after `store` and the terminal
/// `release` the table holds exactly what it held before. So over any run,
/// each allocated tag that is terminally released leaves no residue, and
/// after N complete cycles the table's contents are its baseline contents.
pub proof fn lemma_cycle_restores_baseline<V>(m: Map<u64, V>, tag: u64, payload: V)
    requires
        !m.dom().contains(tag),
    ensures
        m.insert(tag, payload).remove(tag) == m,
{
    assert(m.insert(tag, payload).remove(tag) =~= m);
}

} // verus!
