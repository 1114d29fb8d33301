//! Subscribers and the in-memory subscriber store.
use vstd::prelude::*;

verus! {

/// Opaque subscriber identifier (the 128 bits of a UUID).
pub type SubscriberId = u128;

/// Lifecycle of a subscriber. `Confirmed` is absorbing.
#[derive(Clone, Copy, Debug, PartialEq, Eq, Structural)]
pub enum SubscriptionStatus {
    PendingConfirmation,
    Confirmed,
}

/// Mathematical model of one subscriber record.
pub struct SubscriberView {
    pub id: SubscriberId,
    pub email: Seq<char>,
    pub name: Seq<char>,
    pub status: SubscriptionStatus,
}

#[derive(Debug)]
pub struct Subscriber {
    pub id: SubscriberId,
    pub email: String,
    pub name: String,
    pub status: SubscriptionStatus,
}

impl View for Subscriber {
    type V = SubscriberView;

    open spec fn view(&self) -> SubscriberView {
        SubscriberView { id: self.id, email: self.email@, name: self.name@, status: self.status }
    }
}

/// Does any record of `subs` carry the identifier `id`?
pub open spec fn has_id(subs: Seq<SubscriberView>, id: SubscriberId) -> bool {
    exists|i: int| 0 <= i < subs.len() && #[trigger] subs[i].id == id
}

/// No two records share an identifier.
pub open spec fn ids_unique(subs: Seq<SubscriberView>) -> bool {
    forall|i: int, j: int|
        0 <= i < j < subs.len() ==> #[trigger] subs[i].id != #[trigger] subs[j].id
}

/// `subs` with every record whose identifier is `id` set to `status`.
pub open spec fn with_status(
    subs: Seq<SubscriberView>,
    id: SubscriberId,
    status: SubscriptionStatus,
) -> Seq<SubscriberView> {
    Seq::new(
        subs.len(),
        |i: int|
            if subs[i].id == id {
                SubscriberView { status, ..subs[i] }
            } else {
                subs[i]
            },
    )
}

pub open spec fn is_confirmed(s: SubscriberView) -> bool {
    s.status == SubscriptionStatus::Confirmed
}

/// `is_confirmed` as a predicate value, for filtering.
pub open spec fn confirmed_pred() -> spec_fn(SubscriberView) -> bool {
    |s: SubscriberView| is_confirmed(s)
}

/// The e-mail addresses of the confirmed records of `subs`, in store order.
pub open spec fn confirmed_emails(subs: Seq<SubscriberView>) -> Seq<Seq<char>> {
    subs.filter(confirmed_pred()).map_values(|s: SubscriberView| s.email)
}

/// The subscriber store: records in insertion order, identifiers unique.
pub struct SubscriberStore {
    subscribers: Vec<Subscriber>,
}

impl View for SubscriberStore {
    type V = Seq<SubscriberView>;

    closed spec fn view(&self) -> Seq<SubscriberView> {
        self.subscribers@.map_values(|s: Subscriber| s@)
    }
}

impl SubscriberStore {
    pub open spec fn wf(&self) -> bool {
        ids_unique(self@)
    }

    pub fn new() -> (r: SubscriberStore)
        ensures
            r.wf(),
            r@ == Seq::<SubscriberView>::empty(),
    {
        SubscriberStore { subscribers: Vec::new() }
    }

    /// Adds `s` unless a record with its identifier exists already; returns
    /// whether it was added.
    pub fn insert(&mut self, s: Subscriber) -> (r: bool)
        requires
            old(self).wf(),
        ensures
            final(self).wf(),
            r == !has_id(old(self)@, s.id),
            r ==> final(self)@ == old(self)@.push(s@),
            !r ==> final(self)@ == old(self)@,
    {
        let mut i: usize = 0;
        while i < self.subscribers.len()
            invariant
                0 <= i <= self.subscribers.len(),
                *self == *old(self),
                self.wf(),
                forall|k: int| 0 <= k < i ==> #[trigger] self@[k].id != s.id,
            decreases self.subscribers.len() - i,
        {
            if self.subscribers[i].id == s.id {
                assert(self@[i as int].id == s.id);
                return false;
            }
            i += 1;
        }
        let ghost sv = s@;
        self.subscribers.push(s);
        assert(self@ =~= old(self)@.push(sv));
        true
    }

    /// Sets the status of every record whose identifier is `id`; records
    /// with another identifier, and the order, stay as they were.
    pub fn set_status(&mut self, id: SubscriberId, status: SubscriptionStatus)
        requires
            old(self).wf(),
        ensures
            final(self).wf(),
            final(self)@ == with_status(old(self)@, id, status),
    {
        let mut i: usize = 0;
        while i < self.subscribers.len()
            invariant
                0 <= i <= self.subscribers.len(),
                self.subscribers@.len() == old(self).subscribers@.len(),
                self@.len() == old(self)@.len(),
                forall|k: int|
                    0 <= k < i ==> #[trigger] self@[k] == with_status(old(self)@, id, status)[k],
                forall|k: int| i <= k < self@.len() ==> #[trigger] self@[k] == old(self)@[k],
            decreases self.subscribers.len() - i,
        {
            let ghost prev = self@;
            if self.subscribers[i].id == id {
                self.subscribers[i].status = status;
                assert(self@ =~= prev.update(i as int, SubscriberView { status, ..prev[i as int] }));
            } else {
                assert(self@ =~= prev);
            }
            i += 1;
        }
        assert(self@ =~= with_status(old(self)@, id, status));
    }

    /// The e-mail addresses of all confirmed subscribers, in store order.
    /// Pending subscribers never appear.
    pub fn find_confirmed(&self) -> (r: Vec<String>)
        ensures
            r@.map_values(|e: String| e@) == confirmed_emails(self@),
    {
        let mut out: Vec<String> = Vec::new();
        let mut i: usize = 0;
        while i < self.subscribers.len()
            invariant
                0 <= i <= self.subscribers.len(),
                out@.map_values(|e: String| e@) == confirmed_emails(self@.subrange(0, i as int)),
            decreases self.subscribers.len() - i,
        {
            let ghost before = out@;
            let ghost pre = self@.subrange(0, i as int);
            let ghost next = self@.subrange(0, i + 1);
            assert(next.drop_last() =~= pre);
            reveal(Seq::filter);
            assert(next.last() == self@[i as int]);
            if self.subscribers[i].status == SubscriptionStatus::Confirmed {
                out.push(self.subscribers[i].email.clone());
                assert(out@.map_values(|e: String| e@) =~= before.map_values(|e: String| e@).push(
                    self@[i as int].email,
                ));
                assert(next.filter(confirmed_pred()) == pre.filter(confirmed_pred()).push(
                    self@[i as int],
                ));
                assert(confirmed_emails(next) =~= confirmed_emails(pre).push(self@[i as int].email));
            } else {
                assert(next.filter(confirmed_pred()) == pre.filter(confirmed_pred()));
            }
            i += 1;
        }
        assert(self@.subrange(0, self@.len() as int) =~= self@);
        out
    }

    /// The status of the subscriber with identifier `id`, if there is one.
    pub fn status_of(&self, id: SubscriberId) -> (r: Option<SubscriptionStatus>)
        requires
            self.wf(),
        ensures
            r is None <==> !has_id(self@, id),
            forall|i: int|
                0 <= i < self@.len() && self@[i].id == id ==> r == Some(#[trigger] self@[i].status),
    {
        let mut i: usize = 0;
        while i < self.subscribers.len()
            invariant
                0 <= i <= self.subscribers.len(),
                self.wf(),
                forall|k: int| 0 <= k < i ==> #[trigger] self@[k].id != id,
            decreases self.subscribers.len() - i,
        {
            if self.subscribers[i].id == id {
                assert(self@[i as int].id == id);
                return Some(self.subscribers[i].status);
            }
            i += 1;
        }
        None
    }
}

} // verus!
