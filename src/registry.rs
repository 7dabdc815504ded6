//! The stream registry: process-wide lookup of media streams by identifier.
use vstd::prelude::*;

use std::collections::HashMap;

use crate::media_stream::{GStreamerMediaStream, StreamView};

verus! {

/// Identifier of a registered stream.
#[derive(Clone, Copy, Debug, PartialEq, Eq, Hash, Structural)]
pub struct MediaStreamId(pub u64);

/// The value of a [`StreamRegistry`]: the live streams by identifier, and the
/// next number to hand out.
pub struct RegistryView {
    pub streams: Map<u64, StreamView>,
    pub next: u64,
}

/// The registry `v` after registering `s`: it is stored, knowing its
/// identifier, under the next number.
pub open spec fn registered(v: RegistryView, s: StreamView) -> RegistryView {
    RegistryView {
        streams: v.streams.insert(v.next, StreamView { id: Some(MediaStreamId(v.next)), ..s }),
        next: (v.next + 1) as u64,
    }
}

/// The registry `v` after unregistering `id`.
pub open spec fn unregistered(v: RegistryView, id: u64) -> RegistryView {
    RegistryView { streams: v.streams.remove(id), next: v.next }
}

/// Live media streams by identifier. Identifiers are numbers handed out in
/// increasing order, so none is ever reused.
pub struct StreamRegistry {
    streams: HashMap<u64, GStreamerMediaStream>,
    next: u64,
}

impl View for StreamRegistry {
    type V = RegistryView;

    closed spec fn view(&self) -> RegistryView {
        RegistryView {
            streams: self.streams@.map_values(|s: GStreamerMediaStream| s@),
            next: self.next,
        }
    }
}

impl StreamRegistry {
    /// Every stored stream is well formed, knows its own identifier, and that
    /// identifier is below the next number.
    pub closed spec fn wf(&self) -> bool {
        forall|k: u64|
            #[trigger] self.streams@.contains_key(k) ==> {
                &&& k < self.next
                &&& self.streams@[k].wf()
                &&& self.streams@[k]@.id == Some(MediaStreamId(k))
            }
    }

    /// In a well-formed registry every stored identifier is below the next
    /// number, so the numbers handed out from now on are all fresh.
    pub proof fn lemma_keys_below_next(&self)
        requires
            self.wf(),
        ensures
            forall|k: u64| #[trigger] self@.streams.contains_key(k) ==> k < self@.next,
    {
    }

    /// An empty registry.
    pub fn new() -> (r: Self)
        ensures
            r.wf(),
            r@.streams == Map::<u64, StreamView>::empty(),
            r@.next == 0,
    {
        let r = StreamRegistry { streams: HashMap::new(), next: 0 };
        proof {
            assert(r@.streams =~= Map::<u64, StreamView>::empty());
        }
        r
    }

    /// Hands out a number that no stream or proxy pair has had.
    pub fn fresh_number(&mut self) -> (r: u64)
        requires
            old(self).wf(),
            old(self)@.next < u64::MAX,
        ensures
            final(self).wf(),
            r == old(self)@.next,
            final(self)@.next == old(self)@.next + 1,
            final(self)@.streams == old(self)@.streams,
    {
        let r = self.next;
        self.next = self.next + 1;
        r
    }

    /// Stores `stream` under a fresh identifier, which it records, and returns
    /// that identifier.
    pub fn register(&mut self, stream: GStreamerMediaStream) -> (id: MediaStreamId)
        requires
            old(self).wf(),
            stream.wf(),
            old(self)@.next < u64::MAX,
        ensures
            final(self).wf(),
            final(self)@ == registered(old(self)@, stream@),
            id.0 == old(self)@.next,
            !old(self)@.streams.contains_key(id.0),
            final(self)@.next == old(self)@.next + 1,
            final(self)@.streams == old(self)@.streams.insert(
                id.0,
                StreamView { id: Some(id), ..stream@ },
            ),
    {
        let ghost given = stream@;
        let id = MediaStreamId(self.fresh_number());
        let mut stream = stream;
        stream.assign_id(id);
        self.streams.insert(id.0, stream);
        proof {
            assert(self@.streams =~= old(self)@.streams.insert(
                id.0,
                StreamView { id: Some(id), ..given },
            ));
        }
        id
    }

    /// The next number to hand out.
    pub fn next_number(&self) -> (r: u64)
        ensures
            r == self@.next,
    {
        self.next
    }

    /// Whether a stream is registered under `id`.
    pub fn contains(&self, id: MediaStreamId) -> (r: bool)
        ensures
            r == self@.streams.contains_key(id.0),
    {
        self.streams.contains_key(&id.0)
    }

    /// The stream registered under `id`, if any.
    pub fn get(&self, id: MediaStreamId) -> (r: Option<&GStreamerMediaStream>)
        requires
            self.wf(),
        ensures
            match r {
                Some(s) => {
                    &&& self@.streams.contains_key(id.0)
                    &&& s@ == self@.streams[id.0]
                    &&& s.wf()
                },
                None => !self@.streams.contains_key(id.0),
            },
    {
        self.streams.get(&id.0)
    }

    /// Removes the stream registered under `id`; nothing happens if there is none.
    pub fn unregister(&mut self, id: MediaStreamId)
        requires
            old(self).wf(),
        ensures
            final(self).wf(),
            final(self)@ == unregistered(old(self)@, id.0),
            final(self)@.next == old(self)@.next,
            final(self)@.streams == old(self)@.streams.remove(id.0),
    {
        self.streams.remove(&id.0);
        proof {
            assert(self@.streams =~= old(self)@.streams.remove(id.0));
        }
    }

    /// Takes the stream registered under `id` out, to be changed and put back.
    pub(crate) fn take(&mut self, id: MediaStreamId) -> (r: Option<GStreamerMediaStream>)
        requires
            old(self).wf(),
        ensures
            final(self).wf(),
            final(self)@.next == old(self)@.next,
            final(self)@.streams == old(self)@.streams.remove(id.0),
            match r {
                Some(s) => {
                    &&& old(self)@.streams.contains_key(id.0)
                    &&& s@ == old(self)@.streams[id.0]
                    &&& s@.id == Some(id)
                    &&& id.0 < old(self)@.next
                    &&& s.wf()
                },
                None => !old(self)@.streams.contains_key(id.0),
            },
    {
        let r = self.streams.remove(&id.0);
        proof {
            assert(self@.streams =~= old(self)@.streams.remove(id.0));
        }
        r
    }

    /// Puts a stream taken out under `id` back.
    pub(crate) fn put_back(&mut self, id: MediaStreamId, stream: GStreamerMediaStream)
        requires
            old(self).wf(),
            stream.wf(),
            stream@.id == Some(id),
            id.0 < old(self)@.next,
        ensures
            final(self).wf(),
            final(self)@.next == old(self)@.next,
            final(self)@.streams == old(self)@.streams.insert(id.0, stream@),
    {
        self.streams.insert(id.0, stream);
        proof {
            assert(self@.streams =~= old(self)@.streams.insert(id.0, stream@));
        }
    }
}

} // verus!
