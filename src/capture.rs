//! Capture sources fed by the client: registry and stream creation.
use vstd::prelude::*;

use std::collections::HashMap;

use crate::media_stream::{video_stream, Element, GStreamerMediaStream, StreamView};
use crate::registry::{MediaStreamId, StreamRegistry};

verus! {

/// A client-facing element into which raw media samples are pushed, and the
/// stream it produces.
#[derive(Clone, Copy, Debug, PartialEq, Eq, Structural)]
pub struct ClientCaptureSource {
    pub source: Element,
    pub id: Option<MediaStreamId>,
}

impl ClientCaptureSource {
    /// A capture source over the client-fed element `handle`, with no stream yet.
    pub fn new(handle: u64) -> (r: ClientCaptureSource)
        ensures
            r.source == Element::AppSrc(handle),
            r.id.is_none(),
    {
        ClientCaptureSource { source: Element::AppSrc(handle), id: None }
    }
}

/// Failure to make the client-fed element type known to the engine.
#[derive(Clone, Debug, PartialEq, Eq)]
pub struct RegistrationError {
    pub message: String,
}

/// Capture sources by the identifier of the stream they produce; at most one
/// per stream.
pub struct CaptureRegistry {
    sources: HashMap<u64, ClientCaptureSource>,
    bound: u64,
}

impl View for CaptureRegistry {
    type V = Map<u64, ClientCaptureSource>;

    closed spec fn view(&self) -> Map<u64, ClientCaptureSource> {
        self.sources@
    }
}

impl CaptureRegistry {
    /// Every stored source knows the identifier it is stored under, and every
    /// identifier is below the key bound.
    pub closed spec fn wf(&self) -> bool {
        forall|k: u64|
            #[trigger] self.sources@.contains_key(k) ==> {
                &&& k < self.bound
                &&& self.sources@[k].id == Some(MediaStreamId(k))
            }
    }

    /// A number above every identifier that ever had a source here.
    pub closed spec fn key_bound(&self) -> u64 {
        self.bound
    }

    /// In a well-formed registry each stored source knows its identifier, and
    /// no identifier reaches the key bound.
    pub proof fn lemma_sources_know_their_ids(&self)
        requires
            self.wf(),
        ensures
            forall|k: u64|
                #[trigger] self@.contains_key(k) ==> k < self.key_bound() && self@[k].id == Some(
                    MediaStreamId(k),
                ),
    {
    }

    /// An empty registry.
    pub fn new() -> (r: Self)
        ensures
            r.wf(),
            r@ == Map::<u64, ClientCaptureSource>::empty(),
            r.key_bound() == 0,
    {
        CaptureRegistry { sources: HashMap::new(), bound: 0 }
    }

    /// The key bound.
    pub fn next_free(&self) -> (r: u64)
        ensures
            r == self.key_bound(),
    {
        self.bound
    }

    /// Stores `source` under the identifier of its stream, replacing any
    /// source stored there.
    pub fn register_capture_source(&mut self, source: ClientCaptureSource)
        requires
            old(self).wf(),
            source.id.is_some(),
            source.id.unwrap().0 < u64::MAX,
        ensures
            final(self).wf(),
            final(self)@ == old(self)@.insert(source.id.unwrap().0, source),
            final(self).key_bound() == if source.id.unwrap().0 < old(self).key_bound() {
                old(self).key_bound()
            } else {
                (source.id.unwrap().0 + 1) as u64
            },
    {
        match source.id {
            Some(id) => {
                self.sources.insert(id.0, source);
                if id.0 >= self.bound {
                    self.bound = id.0 + 1;
                }
            },
            None => {},
        }
    }

    /// Removes the source of stream `id`; nothing happens if there is none.
    pub fn unregister_capture_source(&mut self, id: MediaStreamId)
        requires
            old(self).wf(),
        ensures
            final(self).wf(),
            final(self)@ == old(self)@.remove(id.0),
            final(self).key_bound() == old(self).key_bound(),
    {
        self.sources.remove(&id.0);
        proof {
            assert(self@ =~= old(self)@.remove(id.0));
        }
    }

    /// A copy of the source of stream `id`, if any; it knows that identifier.
    pub fn get_capture_source(&self, id: MediaStreamId) -> (r: Option<ClientCaptureSource>)
        requires
            self.wf(),
        ensures
            r == if self@.contains_key(id.0) {
                Some(self@[id.0])
            } else {
                None
            },
            r is Some ==> r->Some_0.id == Some(id),
    {
        match self.sources.get(&id.0) {
            Some(s) => Some(*s),
            None => None,
        }
    }
}

/// Creates a video stream fed by a new client capture source over the
/// client-fed element `handle`, and registers the source under the stream's
/// identifier. `registration` is the outcome of making the client-fed element
/// type known to the engine: on failure neither registry changes.
pub fn create_client_capture_stream(
    streams: &mut StreamRegistry,
    captures: &mut CaptureRegistry,
    registration: Result<(), RegistrationError>,
    handle: u64,
) -> (r: Result<MediaStreamId, RegistrationError>)
    requires
        old(streams).wf(),
        old(streams)@.next + 2 <= u64::MAX,
        old(captures).wf(),
        old(captures).key_bound() <= old(streams)@.next,
    ensures
        final(streams).wf(),
        final(captures).wf(),
        final(captures).key_bound() <= final(streams)@.next,
        match registration {
            Err(e) => {
                &&& r == Err::<MediaStreamId, RegistrationError>(e)
                &&& final(streams)@ == old(streams)@
                &&& final(captures)@ == old(captures)@
            },
            Ok(()) => {
                let source = Element::AppSrc(handle);
                let link = old(streams)@.next;
                &&& r is Ok
                &&& !old(streams)@.streams.contains_key(r->Ok_0.0)
                &&& !old(captures)@.contains_key(r->Ok_0.0)
                &&& r->Ok_0.0 == link + 1
                &&& final(streams)@.next == link + 2
                &&& final(streams)@.streams == old(streams)@.streams.insert(
                    r->Ok_0.0,
                    StreamView { id: Some(r->Ok_0), ..video_stream(source, None, link) },
                )
                &&& final(captures)@ == old(captures)@.insert(
                    r->Ok_0.0,
                    ClientCaptureSource { source, id: Some(r->Ok_0) },
                )
            },
        },
{
    match registration {
        Err(e) => Err(e),
        Ok(()) => {
            let mut client_capture = ClientCaptureSource::new(handle);
            let stream_id = GStreamerMediaStream::create_video_from(
                streams,
                client_capture.source,
                None,
            );
            client_capture.id = Some(stream_id);
            captures.register_capture_source(client_capture);
            Ok(stream_id)
        },
    }
}

} // verus!
