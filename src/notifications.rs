//! Transient messages for the user, kept in insertion order under keys that
//! are handed out in increasing order and never reused.

use vstd::prelude::*;
use linked_hash_map::LinkedHashMap;

verus! {

/// How a notification is shown.
#[derive(PartialEq, Eq, Structural, Debug, Copy, Clone)]
pub enum NotificationLevel {
    Info,
    Success,
    Warning,
    Danger,
}

/// A message for the user.
#[derive(PartialEq, Eq, Debug, Clone)]
pub struct Notification {
    pub message: String,
    pub level: NotificationLevel,
}

pub type NotificationId = u32;

#[verifier::external_type_specification]
#[verifier::external_body]
#[verifier::reject_recursive_types(K)]
#[verifier::reject_recursive_types(V)]
#[verifier::reject_recursive_types(S)]
pub struct ExLinkedHashMap<K, V, S>(LinkedHashMap<K, V, S>);

/// The entries of a linked hash map, in its iteration order.
pub uninterp spec fn notification_entries(
    m: LinkedHashMap<NotificationId, Notification>,
) -> Seq<(NotificationId, Notification)>;

/// Relies on `LinkedHashMap::new`: the map starts empty.
#[verifier::external_body]
fn entries_new() -> (r: LinkedHashMap<NotificationId, Notification>)
    ensures
        notification_entries(r) == Seq::<(NotificationId, Notification)>::empty(),
{
    LinkedHashMap::new()
}

/// Relies on `LinkedHashMap::insert`: a key that is not in the map yet is
/// attached at the back of the iteration order.
#[verifier::external_body]
fn entries_insert(
    m: &mut LinkedHashMap<NotificationId, Notification>,
    k: NotificationId,
    v: Notification,
)
    requires
        forall|i: int|
            0 <= i < notification_entries(*old(m)).len() ==> (#[trigger] notification_entries(
                *old(m),
            )[i]).0 != k,
    ensures
        notification_entries(*final(m)) == notification_entries(*old(m)).push((k, v)),
{
    m.insert(k, v);
}

/// Relies on `LinkedHashMap::remove`: the entry with the key, if any, is
/// detached; the others keep their order.
#[verifier::external_body]
fn entries_remove(m: &mut LinkedHashMap<NotificationId, Notification>, k: NotificationId)
    ensures
        notification_entries(*final(m)) == notification_entries(*old(m)).filter(other_key(k)),
{
    m.remove(&k);
}

/// Relies on `LinkedHashMap::clear`: no entry is left.
#[verifier::external_body]
fn entries_clear(m: &mut LinkedHashMap<NotificationId, Notification>)
    ensures
        notification_entries(*final(m)) == Seq::<(NotificationId, Notification)>::empty(),
{
    m.clear();
}

/// Relies on `LinkedHashMap::iter`: the entries in insertion order.
#[verifier::external_body]
fn entries_list(m: &LinkedHashMap<NotificationId, Notification>) -> (r: Vec<
    (NotificationId, Notification),
>)
    ensures
        r@ == notification_entries(*m),
{
    m.iter().map(|(k, v)| (*k, v.clone())).collect()
}

/// What a queue holds: its entries in insertion order, and the next key.
pub struct QueueView {
    pub entries: Seq<(NotificationId, Notification)>,
    pub next_id: NotificationId,
}

impl QueueView {
    /// Every key in the queue was handed out before the next one.
    pub open spec fn wf(self) -> bool {
        forall|i: int| 0 <= i < self.entries.len() ==> (#[trigger] self.entries[i]).0 < self.next_id
    }

    /// The queue without the entry under `id`.
    pub open spec fn without(self, id: NotificationId) -> Seq<(NotificationId, Notification)> {
        self.entries.filter(other_key(id))
    }
}

/// Whether an entry is under another key than `k`.
pub open spec fn other_key(k: NotificationId) -> spec_fn((NotificationId, Notification)) -> bool {
    |e: (NotificationId, Notification)| e.0 != k
}

/// Each element of a filtered sequence comes from the sequence.
proof fn lemma_filter_subset<A>(s: Seq<A>, pred: spec_fn(A) -> bool)
    ensures
        forall|i: int|
            0 <= i < s.filter(pred).len() ==> s.contains(#[trigger] s.filter(pred)[i]),
    decreases s.len(),
{
    reveal(Seq::filter);
    if s.len() > 0 {
        let rest = s.drop_last();
        lemma_filter_subset(rest, pred);
        let out = s.filter(pred);
        assert forall|i: int| 0 <= i < out.len() implies s.contains(#[trigger] out[i]) by {
            if pred(s.last()) && i == out.len() - 1 {
                assert(s[s.len() - 1] == out[i]);
            } else {
                assert(out[i] == rest.filter(pred)[i]);
                let j = choose|j: int| 0 <= j < rest.len() && rest[j] == rest.filter(pred)[i];
                assert(s[j] == rest[j]);
            }
        }
    }
}

/// Notifications in insertion order.
pub struct NotificationQueue {
    entries: LinkedHashMap<NotificationId, Notification>,
    next_id: NotificationId,
}

impl View for NotificationQueue {
    type V = QueueView;

    closed spec fn view(&self) -> QueueView {
        QueueView { entries: notification_entries(self.entries), next_id: self.next_id }
    }
}

impl NotificationQueue {
    /// An empty queue whose first key is 0.
    pub fn new() -> (r: NotificationQueue)
        ensures
            r@.wf(),
            r@.entries == Seq::<(NotificationId, Notification)>::empty(),
            r@.next_id == 0,
    {
        NotificationQueue { entries: entries_new(), next_id: 0 }
    }

    /// Appends a notification under a fresh key and returns the key; `None`,
    /// with nothing added, once every key has been handed out.
    pub fn push(&mut self, notification: Notification) -> (r: Option<NotificationId>)
        requires
            old(self)@.wf(),
        ensures
            final(self)@.wf(),
            old(self)@.next_id < NotificationId::MAX ==> {
                &&& r == Some(old(self)@.next_id)
                &&& final(self)@.entries == old(self)@.entries.push((old(self)@.next_id, notification))
                &&& final(self)@.next_id == old(self)@.next_id + 1
            },
            old(self)@.next_id == NotificationId::MAX ==> r is None && final(self)@ == old(self)@,
    {
        if self.next_id == NotificationId::MAX {
            return None;
        }
        let id = self.next_id;
        assert forall|i: int| 0 <= i < notification_entries(self.entries).len() implies (
        #[trigger] notification_entries(self.entries)[i]).0 != id by {
            assert(self@.entries[i].0 < self@.next_id);
        }
        entries_insert(&mut self.entries, id, notification);
        self.next_id = id + 1;
        assert forall|i: int| 0 <= i < self@.entries.len() implies (#[trigger] self@.entries[i]).0
            < self@.next_id by {
            if i < old(self)@.entries.len() {
                assert(self@.entries[i] == old(self)@.entries[i]);
            }
        }
        Some(id)
    }

    /// Removes the notification under `id`, if there is one.
    pub fn remove(&mut self, id: NotificationId)
        requires
            old(self)@.wf(),
        ensures
            final(self)@.wf(),
            final(self)@.entries == old(self)@.without(id),
            final(self)@.next_id == old(self)@.next_id,
    {
        let ghost before = self@.entries;
        entries_remove(&mut self.entries, id);
        proof {
            lemma_filter_subset(before, other_key(id));
            assert forall|i: int| 0 <= i < self@.entries.len() implies (#[trigger] self@.entries[i]).0
                < self@.next_id by {
                assert(before.contains(self@.entries[i]));
            }
        }
    }

    /// Removes every notification; keys are still not reused.
    pub fn clear(&mut self)
        requires
            old(self)@.wf(),
        ensures
            final(self)@.wf(),
            final(self)@.entries == Seq::<(NotificationId, Notification)>::empty(),
            final(self)@.next_id == old(self)@.next_id,
    {
        entries_clear(&mut self.entries);
    }

    /// The notifications with their keys, in insertion order.
    pub fn iter(&self) -> (r: Vec<(NotificationId, Notification)>)
        ensures
            r@ == self@.entries,
    {
        entries_list(&self.entries)
    }
}

} // verus!
