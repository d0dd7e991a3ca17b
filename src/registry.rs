use crate::error::Error;
use crate::message::{get_identifier, identifier_of, Message};
use crate::subscription::{
    control_frame, lemma_account_topic, subscribe_frame, topic, topic_of, unsubscribe_frame,
    Subscription,
};
use vstd::prelude::*;
use vstd::string::StringExecFns;

verus! {

/// One live local subscriber: its id, the topic it listens on, and the
/// descriptor it was added with.
#[derive(Debug)]
pub struct Registration {
    pub id: u32,
    pub topic: String,
    pub subscription: Subscription,
}

/// The ids registered under topic `t`, in the order they were added.
pub open spec fn ids_under(regs: Seq<Registration>, t: Seq<char>) -> Seq<u32>
    decreases regs.len(),
{
    if regs.len() == 0 {
        Seq::empty()
    } else {
        let rest = ids_under(regs.drop_last(), t);
        if regs.last().topic@ == t {
            rest.push(regs.last().id)
        } else {
            rest
        }
    }
}

/// A topic has subscribers exactly when some registration carries it.
pub proof fn lemma_ids_under_nonempty(regs: Seq<Registration>, t: Seq<char>)
    ensures
        ids_under(regs, t).len() > 0 <==> exists|i: int|
            0 <= i < regs.len() && (#[trigger] regs[i]).topic@ == t,
    decreases regs.len(),
{
    if regs.len() > 0 {
        let front = regs.drop_last();
        lemma_ids_under_nonempty(front, t);
        if exists|i: int| 0 <= i < front.len() && (#[trigger] front[i]).topic@ == t {
            let i = choose|i: int| 0 <= i < front.len() && (#[trigger] front[i]).topic@ == t;
            assert(regs[i] == front[i]);
        }
        if exists|i: int| 0 <= i < regs.len() && (#[trigger] regs[i]).topic@ == t {
            let i = choose|i: int| 0 <= i < regs.len() && (#[trigger] regs[i]).topic@ == t;
            if i < front.len() {
                assert(front[i] == regs[i]);
            }
        }
    }
}

/// An id is among a topic's subscribers exactly when a registration pairs
/// that id with that topic.
pub proof fn lemma_ids_under_contains(regs: Seq<Registration>, t: Seq<char>, id: u32)
    ensures
        ids_under(regs, t).contains(id) <==> exists|i: int|
            0 <= i < regs.len() && (#[trigger] regs[i]).id == id && regs[i].topic@ == t,
    decreases regs.len(),
{
    if regs.len() > 0 {
        let front = regs.drop_last();
        let rest = ids_under(front, t);
        lemma_ids_under_contains(front, t, id);
        if rest.contains(id) {
            let i = choose|i: int| 0 <= i < front.len() && (#[trigger] front[i]).id == id
                && front[i].topic@ == t;
            assert(regs[i] == front[i]);
            if regs.last().topic@ == t {
                let k = choose|k: int| 0 <= k < rest.len() && rest[k] == id;
                assert(rest.push(regs.last().id)[k] == id);
            }
        }
        if regs.last().topic@ == t && regs.last().id == id {
            assert(rest.push(regs.last().id)[rest.len() as int] == id);
            assert(regs[regs.len() - 1] == regs.last());
        }
        if exists|i: int| 0 <= i < regs.len() && (#[trigger] regs[i]).id == id && regs[i].topic@
            == t {
            let i = choose|i: int| 0 <= i < regs.len() && (#[trigger] regs[i]).id == id
                && regs[i].topic@ == t;
            if i < front.len() {
                assert(front[i] == regs[i]);
                if regs.last().topic@ == t {
                    let k = choose|k: int| 0 <= k < rest.len() && rest[k] == id;
                    assert(rest.push(regs.last().id)[k] == id);
                }
            } else {
                assert(rest.push(regs.last().id)[rest.len() as int] == id);
            }
        }
        if ids_under(regs, t).contains(id) && regs.last().topic@ == t && regs.last().id != id {
            let k = choose|k: int|
                0 <= k < ids_under(regs, t).len() && ids_under(regs, t)[k] == id;
            assert(k < rest.len());
            assert(rest[k] == id);
        }
    }
}

/// Where ids ascend in registration order, so do the ids under any one topic;
/// in particular none is listed twice.
pub proof fn lemma_ids_under_ascending(regs: Seq<Registration>, t: Seq<char>)
    requires
        forall|i: int, j: int| 0 <= i < j < regs.len() ==> (#[trigger] regs[i]).id < (
        #[trigger] regs[j]).id,
    ensures
        forall|a: int, b: int|
            0 <= a < b < ids_under(regs, t).len() ==> (#[trigger] ids_under(regs, t)[a]) < (
            #[trigger] ids_under(regs, t)[b]),
    decreases regs.len(),
{
    if regs.len() > 0 {
        let front = regs.drop_last();
        let rest = ids_under(front, t);
        assert forall|i: int, j: int| 0 <= i < j < front.len() implies (#[trigger] front[i]).id < (
        #[trigger] front[j]).id by {
            assert(front[i] == regs[i] && front[j] == regs[j]);
        }
        lemma_ids_under_ascending(front, t);
        if regs.last().topic@ == t {
            assert forall|a: int| 0 <= a < rest.len() implies #[trigger] rest[a]
                < regs.last().id by {
                lemma_ids_under_contains(front, t, rest[a]);
                assert(rest.contains(rest[a]));
                let i = choose|i: int| 0 <= i < front.len() && (#[trigger] front[i]).id == rest[a]
                    && front[i].topic@ == t;
                assert(front[i] == regs[i]);
                assert(regs[regs.len() - 1] == regs.last());
            }
        }
    }
}

/// Every live id is below the next id to be issued, so the next id is held by
/// no live subscriber: together with `add_subscription` issuing exactly
/// `next_id` and advancing it by one, and `remove_subscription` leaving it
/// alone, ids are issued in strictly increasing order and never reused.
pub proof fn lemma_issued_ids_below(reg: &Registry, id: u32)
    requires
        reg.wf(),
        reg.is_registered(id),
    ensures
        id < reg.next_id(),
{
}

/// An inbound event whose topic is `t` reaches subscriber `id` exactly when
/// `id` is registered under `t`: every subscriber of `t`, and nobody else.
/// Each of them is listed once, in ascending id order.
pub proof fn lemma_delivery_exact(reg: &Registry, message: Message, id: u32)
    requires
        reg.wf(),
        identifier_of(message).len() > 0,
    ensures
        reg.subscribers(identifier_of(message)).contains(id) <==> exists|i: int|
            0 <= i < reg.registrations().len() && (#[trigger] reg.registrations()[i]).id == id
                && reg.registrations()[i].topic@ == identifier_of(message),
        forall|a: int, b: int|
            0 <= a < b < reg.subscribers(identifier_of(message)).len() ==> (
            #[trigger] reg.subscribers(identifier_of(message))[a]) < (
            #[trigger] reg.subscribers(identifier_of(message))[b]),
{
    lemma_ids_under_contains(reg.registrations(), identifier_of(message), id);
    lemma_ids_under_ascending(reg.registrations(), identifier_of(message));
}

/// The subscribers of one connection: who listens on which topic, and the
/// next subscription id to issue.
pub struct Registry {
    regs: Vec<Registration>,
    next_id: u32,
}

impl Registry {
    /// The live registrations, oldest first.
    pub closed spec fn registrations(&self) -> Seq<Registration> {
        self.regs@
    }

    /// The id the next successful add will issue.
    pub closed spec fn next_id(&self) -> nat {
        self.next_id as nat
    }

    /// The ids subscribed to topic `t`, in the order they were added.
    pub open spec fn subscribers(&self, t: Seq<char>) -> Seq<u32> {
        ids_under(self.registrations(), t)
    }

    pub open spec fn is_registered(&self, id: u32) -> bool {
        exists|i: int|
            0 <= i < self.registrations().len() && (#[trigger] self.registrations()[i]).id == id
    }

    /// Ids ascend in order of registration and stay below the next id; each
    /// registration's topic is its descriptor's; the account event topic has
    /// at most one subscriber.
    pub open spec fn wf(&self) -> bool {
        let regs = self.registrations();
        &&& self.next_id() <= u32::MAX
        &&& forall|i: int| 0 <= i < regs.len() ==> (#[trigger] regs[i]).id < self.next_id()
        &&& forall|i: int, j: int| 0 <= i < j < regs.len() ==> (#[trigger] regs[i]).id < (
        #[trigger] regs[j]).id
        &&& forall|i: int| 0 <= i < regs.len() ==> (#[trigger] regs[i]).topic@ == topic_of(
            regs[i].subscription,
        )
        &&& forall|i: int, j: int|
            0 <= i < regs.len() && 0 <= j < regs.len() && (#[trigger] regs[i]).topic@
                == "userEvents"@ && (#[trigger] regs[j]).topic@ == "userEvents"@ ==> i == j
    }

    /// An empty registry; the first id it issues is 0.
    pub fn new() -> (r: Registry)
        ensures
            r.wf(),
            r.registrations().len() == 0,
            r.next_id() == 0,
    {
        Registry { regs: Vec::new(), next_id: 0 }
    }

    /// Whether topic `t` has at least one subscriber.
    pub fn has_subscribers(&self, t: &String) -> (r: bool)
        ensures
            r == (self.subscribers(t@).len() > 0),
    {
        proof {
            lemma_ids_under_nonempty(self.regs@, t@);
        }
        let n = self.regs.len();
        let mut i: usize = 0;
        while i < n
            invariant
                n == self.regs@.len(),
                i <= n,
                forall|k: int| 0 <= k < i ==> (#[trigger] self.regs@[k]).topic@ != t@,
            decreases n - i,
        {
            if self.regs[i].topic == *t {
                proof {
                    lemma_ids_under_nonempty(self.regs@, t@);
                    assert(self.regs@[i as int].topic@ == t@);
                }
                return true;
            }
            i += 1;
        }
        false
    }

    /// The ids subscribed to topic `t`, in the order they were added.
    pub fn subscribers_of(&self, t: &String) -> (r: Vec<u32>)
        ensures
            r@ == self.subscribers(t@),
    {
        let n = self.regs.len();
        let mut r: Vec<u32> = Vec::new();
        let mut i: usize = 0;
        while i < n
            invariant
                n == self.regs@.len(),
                i <= n,
                r@ == ids_under(self.regs@.take(i as int), t@),
            decreases n - i,
        {
            assert(self.regs@.take(i + 1).drop_last() =~= self.regs@.take(i as int));
            assert(self.regs@.take(i + 1).last() == self.regs@[i as int]);
            if self.regs[i].topic == *t {
                r.push(self.regs[i].id);
            }
            i += 1;
        }
        assert(self.regs@.take(n as int) =~= self.regs@);
        r
    }

    /// The id of every live subscriber, oldest first, whatever its topic.
    pub fn all_subscribers(&self) -> (r: Vec<u32>)
        ensures
            r@.len() == self.registrations().len(),
            forall|k: int| 0 <= k < r@.len() ==> r@[k] == (#[trigger] self.registrations()[k]).id,
    {
        let n = self.regs.len();
        let mut r: Vec<u32> = Vec::new();
        let mut i: usize = 0;
        while i < n
            invariant
                n == self.regs@.len(),
                i <= n,
                r@.len() == i,
                forall|k: int| 0 <= k < i ==> r@[k] == (#[trigger] self.regs@[k]).id,
            decreases n - i,
        {
            r.push(self.regs[i].id);
            i += 1;
        }
        r
    }

    /// The upstream subscribe frame that adding `d` calls for: `Some` when its
    /// topic has no subscriber yet, `None` when the topic is already subscribed
    /// upstream. A second subscriber to the account event topic is refused.
    pub fn subscribe_request(&self, d: &Subscription) -> (r: Result<Option<String>, Error>)
        requires
            self.wf(),
        ensures
            (r is Err && r->Err_0 is UserEvents) <==> (topic_of(*d) == "userEvents"@
                && self.subscribers("userEvents"@).len() > 0),
            r is Err ==> r->Err_0 is UserEvents,
            r is Ok ==> (r->Ok_0 is Some <==> self.subscribers(topic_of(*d)).len() == 0),
            r is Ok && r->Ok_0 is Some ==> r->Ok_0->Some_0@ == control_frame("subscribe"@, *d),
    {
        proof {
            lemma_account_topic(*d);
        }
        let t = topic(d);
        let present = self.has_subscribers(&t);
        if present && t == String::from_str("userEvents") {
            return Err(Error::UserEvents);
        }
        if present {
            Ok(None)
        } else {
            Ok(Some(subscribe_frame(d)))
        }
    }

    /// Registers a subscriber for `subscription` under its topic and returns
    /// the id it is known by. Ids are issued in increasing order, never twice.
    pub fn add_subscription(&mut self, subscription: Subscription) -> (r: Result<u32, Error>)
        requires
            old(self).wf(),
        ensures
            final(self).wf(),
            r is Err ==> *final(self) == *old(self),
            (r is Err && r->Err_0 is UserEvents) <==> (topic_of(subscription) == "userEvents"@
                && old(self).subscribers("userEvents"@).len() > 0),
            r is Err && r->Err_0 is SubscriptionIdsExhausted ==> old(self).next_id() == u32::MAX,
            r is Err ==> r->Err_0 is UserEvents || r->Err_0 is SubscriptionIdsExhausted,
            old(self).next_id() < u32::MAX && !(topic_of(subscription) == "userEvents"@
                && old(self).subscribers("userEvents"@).len() > 0) ==> r is Ok,
            r is Ok ==> {
                &&& r->Ok_0 == old(self).next_id()
                &&& final(self).next_id() == old(self).next_id() + 1
                &&& final(self).registrations().drop_last() == old(self).registrations()
                &&& final(self).registrations().len() == old(self).registrations().len() + 1
                &&& final(self).registrations().last().id == r->Ok_0
                &&& final(self).registrations().last().topic@ == topic_of(subscription)
                &&& final(self).registrations().last().subscription == subscription
                &&& forall|t: Seq<char>| #[trigger]
                    final(self).subscribers(t) == if t == topic_of(subscription) {
                        old(self).subscribers(t).push(r->Ok_0)
                    } else {
                        old(self).subscribers(t)
                    }
            },
    {
        proof {
            lemma_account_topic(subscription);
        }
        let t = topic(&subscription);
        let present = self.has_subscribers(&t);
        if present && t == String::from_str("userEvents") {
            return Err(Error::UserEvents);
        }
        if self.next_id == u32::MAX {
            return Err(Error::SubscriptionIdsExhausted);
        }
        proof {
            lemma_ids_under_nonempty(self.regs@, "userEvents"@);
        }
        let id = self.next_id;
        self.regs.push(Registration { id, topic: t, subscription });
        self.next_id = id + 1;
        assert(self.regs@.drop_last() =~= old(self).regs@);
        Ok(id)
    }

    /// The position of the registration with `id`, if one is live.
    fn position_of(&self, id: u32) -> (r: Option<usize>)
        ensures
            r is Some ==> r->Some_0 < self.regs@.len() && self.regs@[r->Some_0 as int].id == id,
            r is None ==> !self.is_registered(id),
    {
        let n = self.regs.len();
        let mut i: usize = 0;
        while i < n
            invariant
                n == self.regs@.len(),
                i <= n,
                forall|k: int| 0 <= k < i ==> (#[trigger] self.regs@[k]).id != id,
            decreases n - i,
        {
            if self.regs[i].id == id {
                return Some(i);
            }
            i += 1;
        }
        None
    }

    /// Removes the subscriber with `subscription_id`. Where it was the last
    /// subscriber of its topic, returns the upstream unsubscribe frame to send;
    /// otherwise `None`. An id that is not live is refused and changes nothing.
    pub fn remove_subscription(&mut self, subscription_id: u32) -> (r: Result<
        Option<String>,
        Error,
    >)
        requires
            old(self).wf(),
        ensures
            final(self).wf(),
            final(self).next_id() == old(self).next_id(),
            r is Err <==> !old(self).is_registered(subscription_id),
            r is Err ==> r->Err_0 is SubscriptionNotFound,
            !old(self).is_registered(subscription_id) ==> *final(self) == *old(self),
            !final(self).is_registered(subscription_id),
            old(self).is_registered(subscription_id) ==> exists|i: int|
                0 <= i < old(self).registrations().len() && (#[trigger] old(
                    self,
                ).registrations()[i]).id == subscription_id && final(self).registrations()
                    == old(self).registrations().remove(i) && {
                    let reg = old(self).registrations()[i];
                    &&& r->Ok_0 is Some <==> final(self).subscribers(reg.topic@).len() == 0
                    &&& r->Ok_0 is Some ==> r->Ok_0->Some_0@ == control_frame(
                        "unsubscribe"@,
                        reg.subscription,
                    )
                },
    {
        let p = match self.position_of(subscription_id) {
            Some(p) => p,
            None => {
                return Err(Error::SubscriptionNotFound);
            },
        };
        let ghost before = self.regs@;
        let reg = self.regs.remove(p);
        assert(self.regs@ == before.remove(p as int));
        assert forall|i: int, j: int| 0 <= i < j < self.regs@.len() implies (
        #[trigger] self.regs@[i]).id < (#[trigger] self.regs@[j]).id by {
            let a = if i < p { i } else { i + 1 };
            let b = if j < p { j } else { j + 1 };
            assert(self.regs@[i] == before[a]);
            assert(self.regs@[j] == before[b]);
        }
        assert forall|i: int| 0 <= i < self.regs@.len() implies (
        #[trigger] self.regs@[i]).topic@ == topic_of(self.regs@[i].subscription)
            && self.regs@[i].id < self.next_id && self.regs@[i].id != subscription_id by {
            let a = if i < p { i } else { i + 1 };
            assert(self.regs@[i] == before[a]);
        }
        assert forall|i: int, j: int|
            0 <= i < self.regs@.len() && 0 <= j < self.regs@.len() && (
            #[trigger] self.regs@[i]).topic@ == "userEvents"@ && (#[trigger] self.regs@[j]).topic@
                == "userEvents"@ implies i == j by {
            let a = if i < p { i } else { i + 1 };
            let b = if j < p { j } else { j + 1 };
            assert(self.regs@[i] == before[a]);
            assert(self.regs@[j] == before[b]);
        }
        let remaining = self.has_subscribers(&reg.topic);
        if remaining {
            Ok(None)
        } else {
            Ok(Some(unsubscribe_frame(&reg.subscription)))
        }
    }

    /// The ids that receive inbound event `message`: every subscriber of its
    /// topic, in the order they were added, and nobody when the event has no
    /// topic.
    pub fn route(&self, message: &Message) -> (r: Vec<u32>)
        ensures
            r@ == if identifier_of(*message).len() == 0 {
                Seq::<u32>::empty()
            } else {
                self.subscribers(identifier_of(*message))
            },
    {
        let t = get_identifier(message);
        if t.as_str().is_empty() {
            Vec::new()
        } else {
            self.subscribers_of(&t)
        }
    }
}

} // verus!
