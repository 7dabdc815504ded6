//! Fan-out of player events and decoded video frames to registered listeners.
//!
//! Each listener owns a mailbox: delivering to a listener appends to its
//! mailbox, and the listener's owner takes the pending items out in order.
use vstd::prelude::*;

use crate::events::{PlayerEvent, PlayerEventView};
use crate::frame::VideoFrame;

verus! {

pub open spec fn events_view(s: Seq<PlayerEvent>) -> Seq<PlayerEventView> {
    s.map_values(|e: PlayerEvent| e@)
}

/// The mailboxes `obs` after one copy of `e` went to each.
pub open spec fn notified(obs: Seq<Seq<PlayerEventView>>, e: PlayerEventView) -> Seq<
    Seq<PlayerEventView>,
> {
    Seq::new(obs.len(), |i: int| obs[i].push(e))
}

/// The listeners of one session's lifecycle events.
#[derive(Debug)]
pub struct PlayerEventObserverList {
    observers: Vec<Vec<PlayerEvent>>,
}

impl View for PlayerEventObserverList {
    type V = Seq<Seq<PlayerEventView>>;

    /// For each listener in registration order, the events delivered to it and
    /// not yet taken.
    closed spec fn view(&self) -> Seq<Seq<PlayerEventView>> {
        Seq::new(self.observers@.len(), |i: int| events_view(self.observers@[i]@))
    }
}

impl PlayerEventObserverList {
    /// An empty list.
    pub fn new() -> (r: Self)
        ensures
            r@ == Seq::<Seq<PlayerEventView>>::empty(),
    {
        let r = PlayerEventObserverList { observers: Vec::new() };
        proof {
            assert(r@ =~= Seq::<Seq<PlayerEventView>>::empty());
        }
        r
    }

    /// Number of registered listeners.
    pub fn len(&self) -> (r: usize)
        ensures
            r == self@.len(),
    {
        self.observers.len()
    }

    /// Appends a listener with an empty mailbox and returns its index.
    pub fn register(&mut self) -> (id: usize)
        ensures
            id == old(self)@.len(),
            final(self)@ == old(self)@.push(Seq::empty()),
    {
        let id = self.observers.len();
        self.observers.push(Vec::new());
        proof {
            assert(events_view(Seq::<PlayerEvent>::empty()) =~= Seq::empty());
            assert(self@ =~= old(self)@.push(Seq::empty()));
        }
        id
    }

    /// Delivers one copy of `event` to every listener, in registration order.
    pub fn notify(&mut self, event: PlayerEvent)
        ensures
            final(self)@ == notified(old(self)@, event@),
            final(self)@.len() == old(self)@.len(),
            forall|i: int|
                0 <= i < old(self)@.len() ==> #[trigger] final(self)@[i] == old(self)@[i].push(
                    event@,
                ),
    {
        let n = self.observers.len();
        let mut i: usize = 0;
        while i < n
            invariant
                n == old(self)@.len(),
                i <= n,
                self@.len() == n,
                self.observers@.len() == n,
                forall|j: int|
                    0 <= j < i ==> #[trigger] events_view(self.observers@[j]@) == events_view(
                        old(self).observers@[j]@,
                    ).push(event@),
                forall|j: int| i <= j < n ==> #[trigger] self.observers@[j] == old(self).observers@[j],
            decreases n - i,
        {
            let ghost prev = self.observers@;
            let mut mailbox = self.observers.remove(i);
            let ghost before = mailbox@;
            mailbox.push(event.clone());
            proof {
                assert(events_view(mailbox@) =~= events_view(before).push(event@));
            }
            self.observers.insert(i, mailbox);
            proof {
                assert(self.observers@ =~= prev.update(i as int, mailbox));
            }
            i = i + 1;
        }
        proof {
            assert(self@ =~= notified(old(self)@, event@));
        }
    }

    /// Takes out the events pending for listener `id`, oldest first.
    pub fn take_events(&mut self, id: usize) -> (r: Vec<PlayerEvent>)
        requires
            id < old(self)@.len(),
        ensures
            events_view(r@) == old(self)@[id as int],
            final(self)@ == old(self)@.update(id as int, Seq::empty()),
    {
        let ghost prev = self.observers@;
        let r = self.observers.remove(id);
        let empty: Vec<PlayerEvent> = Vec::new();
        self.observers.insert(id, empty);
        proof {
            assert(self.observers@ =~= prev.update(id as int, empty));
        }
        proof {
            assert(events_view(empty@) =~= Seq::empty());
            assert(self@ =~= old(self)@.update(id as int, Seq::empty()));
        }
        r
    }

    /// Drops every listener.
    pub fn clear(&mut self)
        ensures
            final(self)@ == Seq::<Seq<PlayerEventView>>::empty(),
    {
        self.observers.clear();
        proof {
            assert(self@ =~= Seq::<Seq<PlayerEventView>>::empty());
        }
    }
}

/// The renderers of one session's decoded video frames.
#[derive(Debug)]
pub struct FrameRendererList {
    renderers: Vec<Vec<VideoFrame>>,
}

impl View for FrameRendererList {
    type V = Seq<Seq<VideoFrame>>;

    /// For each renderer in registration order, the frames delivered to it and
    /// not yet taken.
    closed spec fn view(&self) -> Seq<Seq<VideoFrame>> {
        Seq::new(self.renderers@.len(), |i: int| self.renderers@[i]@)
    }
}

impl FrameRendererList {
    /// An empty list.
    pub fn new() -> (r: Self)
        ensures
            r@ == Seq::<Seq<VideoFrame>>::empty(),
    {
        let r = FrameRendererList { renderers: Vec::new() };
        proof {
            assert(r@ =~= Seq::<Seq<VideoFrame>>::empty());
        }
        r
    }

    /// Number of registered renderers.
    pub fn len(&self) -> (r: usize)
        ensures
            r == self@.len(),
    {
        self.renderers.len()
    }

    /// Appends a renderer with an empty mailbox and returns its index.
    pub fn register(&mut self) -> (id: usize)
        ensures
            id == old(self)@.len(),
            final(self)@ == old(self)@.push(Seq::empty()),
    {
        let id = self.renderers.len();
        self.renderers.push(Vec::new());
        proof {
            assert(self@ =~= old(self)@.push(Seq::empty()));
        }
        id
    }

    /// Hands a copy of `frame` to every renderer, in registration order.
    pub fn render(&mut self, frame: &VideoFrame)
        ensures
            final(self)@.len() == old(self)@.len(),
            forall|i: int|
                0 <= i < old(self)@.len() ==> #[trigger] final(self)@[i] == old(self)@[i].push(
                    *frame,
                ),
    {
        let n = self.renderers.len();
        let mut i: usize = 0;
        while i < n
            invariant
                n == old(self)@.len(),
                i <= n,
                self@.len() == n,
                self.renderers@.len() == n,
                forall|j: int|
                    0 <= j < i ==> #[trigger] self.renderers@[j]@ == old(self).renderers@[j]@.push(
                        *frame,
                    ),
                forall|j: int| i <= j < n ==> #[trigger] self.renderers@[j] == old(self).renderers@[j],
            decreases n - i,
        {
            let ghost prev = self.renderers@;
            let mut mailbox = self.renderers.remove(i);
            mailbox.push(frame.clone());
            self.renderers.insert(i, mailbox);
            proof {
                assert(self.renderers@ =~= prev.update(i as int, mailbox));
            }
            i = i + 1;
        }
    }

    /// Takes out the frames pending for renderer `id`, oldest first.
    pub fn take_frames(&mut self, id: usize) -> (r: Vec<VideoFrame>)
        requires
            id < old(self)@.len(),
        ensures
            r@ == old(self)@[id as int],
            final(self)@ == old(self)@.update(id as int, Seq::empty()),
    {
        let ghost prev = self.renderers@;
        let r = self.renderers.remove(id);
        let empty: Vec<VideoFrame> = Vec::new();
        self.renderers.insert(id, empty);
        proof {
            assert(self.renderers@ =~= prev.update(id as int, empty));
        }
        proof {
            assert(self@ =~= old(self)@.update(id as int, Seq::empty()));
        }
        r
    }

    /// Drops every renderer.
    pub fn clear(&mut self)
        ensures
            final(self)@ == Seq::<Seq<VideoFrame>>::empty(),
    {
        self.renderers.clear();
        proof {
            assert(self@ =~= Seq::<Seq<VideoFrame>>::empty());
        }
    }
}

} // verus!
