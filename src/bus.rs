use vstd::prelude::*;

verus! {

/// The frames waiting for one subscriber, or `None` once it has unsubscribed.
pub type InboxV = Option<Seq<Seq<char>>>;

/// An in-process relay: every frame published reaches every subscriber active at that
/// moment, in publishing order.
pub struct EventBus {
    active: Vec<bool>,
    queues: Vec<Vec<String>>,
}

pub open spec fn frames_view(q: Seq<String>) -> Seq<Seq<char>> {
    q.map_values(|f: String| f@)
}

/// The inboxes after `frame` is published: appended to each active one.
pub open spec fn published(inboxes: Seq<InboxV>, frame: Seq<char>) -> Seq<InboxV> {
    inboxes.map_values(
        |b: InboxV|
            match b {
                Some(q) => Some(q.push(frame)),
                None => None,
            },
    )
}

impl View for EventBus {
    type V = Seq<InboxV>;

    closed spec fn view(&self) -> Seq<InboxV> {
        Seq::new(
            self.active@.len(),
            |i: int|
                if self.active@[i] {
                    Some(frames_view(self.queues@[i]@))
                } else {
                    None
                },
        )
    }
}

impl EventBus {
    pub closed spec fn wf(&self) -> bool {
        self.active@.len() == self.queues@.len()
    }

    /// A bus with no subscriber yet.
    pub fn new() -> (r: EventBus)
        ensures
            r.wf(),
            r@ == Seq::<InboxV>::empty(),
    {
        let r = EventBus { active: Vec::new(), queues: Vec::new() };
        assert(r@ =~= Seq::<InboxV>::empty());
        r
    }

    /// Registers a subscriber, which receives the frames published from now on. Returns
    /// its handle.
    pub fn subscribe(&mut self) -> (id: usize)
        requires
            old(self).wf(),
            old(self)@.len() < usize::MAX,
        ensures
            final(self).wf(),
            id == old(self)@.len(),
            final(self)@ == old(self)@.push(Some(Seq::<Seq<char>>::empty())),
    {
        self.active.push(true);
        self.queues.push(Vec::new());
        let id = self.active.len() - 1;
        assert(frames_view(self.queues@[id as int]@) =~= Seq::<Seq<char>>::empty());
        assert(self@ =~= old(self)@.push(Some(Seq::<Seq<char>>::empty())));
        id
    }

    /// Ends a subscription: its pending frames are dropped and nothing more reaches it.
    /// A handle that was never given out changes nothing.
    pub fn unsubscribe(&mut self, id: usize)
        requires
            old(self).wf(),
        ensures
            final(self).wf(),
            final(self)@ == if id < old(self)@.len() {
                old(self)@.update(id as int, None)
            } else {
                old(self)@
            },
    {
        if id < self.active.len() {
            self.active.set(id, false);
            self.queues.set(id, Vec::new());
            assert(self@ =~= old(self)@.update(id as int, None));
        }
    }

    /// Delivers a frame to every active subscriber.
    pub fn publish(&mut self, frame: &String)
        requires
            old(self).wf(),
        ensures
            final(self).wf(),
            final(self)@ == published(old(self)@, frame@),
    {
        let mut i: usize = 0;
        while i < self.active.len()
            invariant
                self.wf(),
                0 <= i <= self.active@.len(),
                self.active@ == old(self).active@,
                self.queues@.len() == old(self).queues@.len(),
                old(self).wf(),
                forall|j: int|
                    0 <= j < i ==> #[trigger] self.queues@[j]@ == if self.active@[j] {
                        old(self).queues@[j]@.push(*frame)
                    } else {
                        old(self).queues@[j]@
                    },
                forall|j: int| i <= j < self.queues@.len() ==> #[trigger] self.queues@[j] == old(self).queues@[j],
            decreases self.active@.len() - i,
        {
            if self.active[i] {
                self.queues[i].push(frame.clone());
            }
            i = i + 1;
        }
        assert forall|j: int| 0 <= j < self@.len() implies #[trigger] self@[j] == published(old(self)@, frame@)[j] by {
            if self.active@[j] {
                assert(frames_view(self.queues@[j]@) =~= frames_view(old(self).queues@[j]@).push(frame@));
            }
        }
        assert(self@ =~= published(old(self)@, frame@));
    }

    /// Hands over the frames waiting for a subscriber, oldest first, and empties its inbox.
    pub fn take(&mut self, id: usize) -> (r: Vec<String>)
        requires
            old(self).wf(),
        ensures
            final(self).wf(),
            if id < old(self)@.len() && old(self)@[id as int] is Some {
                frames_view(r@) == old(self)@[id as int]->Some_0 && final(self)@ == old(self)@.update(
                    id as int,
                    Some(Seq::<Seq<char>>::empty()),
                )
            } else {
                r@.len() == 0 && final(self)@ == old(self)@
            },
    {
        let mut out: Vec<String> = Vec::new();
        if id < self.active.len() && self.active[id] {
            std::mem::swap(&mut out, &mut self.queues[id]);
            assert(frames_view(self.queues@[id as int]@) =~= Seq::<Seq<char>>::empty());
            assert(self@ =~= old(self)@.update(id as int, Some(Seq::<Seq<char>>::empty())));
        }
        out
    }
}

/// Frames reach a subscriber in the order they were published.
pub proof fn lemma_publish_order(inboxes: Seq<InboxV>, a: Seq<char>, b: Seq<char>, id: int)
    requires
        0 <= id < inboxes.len(),
        inboxes[id] is Some,
    ensures
        published(published(inboxes, a), b)[id] == Some(inboxes[id]->Some_0.push(a).push(b)),
{
}

} // verus!
