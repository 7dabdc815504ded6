//! Properties that hold across operations, proved from the operations' contracts.
use vstd::prelude::*;

use crate::events::{MediaDuration, MetadataView, PlayerError, PlayerEventView, StreamType};
use crate::media_stream::{encoded_chain, video_stream, Element, MediaStreamType, StreamView};
use crate::observers::notified;
use crate::player::{
    after_duration, after_media_info, answered, delivered, media_info_commands, metadata_changes,
    push_result, seek_result, set_rate_result, EngineCommand, Handshake, InnerView, PlayerSource,
};
use crate::registry::{registered, unregistered, MediaStreamId, RegistryView};

verus! {

/// One change of the stream registry.
pub enum RegistryOp {
    Register(StreamView),
    Unregister(u64),
}

/// The registry `v` after the changes `ops`, in order.
pub open spec fn replay(v: RegistryView, ops: Seq<RegistryOp>) -> RegistryView
    decreases ops.len(),
{
    if ops.len() == 0 {
        v
    } else {
        let before = replay(v, ops.drop_last());
        match ops.last() {
            RegistryOp::Register(s) => registered(before, s),
            RegistryOp::Unregister(id) => unregistered(before, id),
        }
    }
}

proof fn lemma_replay_entry(v: RegistryView, ops: Seq<RegistryOp>, id: u64)
    requires
        id < v.next,
        v.next + ops.len() <= u64::MAX,
    ensures
        v.next <= replay(v, ops).next <= v.next + ops.len(),
        replay(v, ops).streams.contains_key(id) <==> v.streams.contains_key(id) && forall|i: int|
            0 <= i < ops.len() ==> #[trigger] ops[i] != RegistryOp::Unregister(id),
        replay(v, ops).streams.contains_key(id) ==> replay(v, ops).streams[id] == v.streams[id],
    decreases ops.len(),
{
    if ops.len() > 0 {
        let prefix = ops.drop_last();
        lemma_replay_entry(v, prefix, id);
        assert forall|i: int| 0 <= i < prefix.len() implies prefix[i] == ops[i] by {}
        assert(ops[ops.len() - 1] == ops.last());
        if replay(v, ops).streams.contains_key(id) {
            assert forall|i: int| 0 <= i < ops.len() implies #[trigger] ops[i]
                != RegistryOp::Unregister(id) by {
                if i < prefix.len() {
                    assert(prefix[i] == ops[i]);
                }
            }
        }
    }
}

/// A registered stream stays retrievable, unchanged, through any later
/// registrations and unregistrations, and is gone exactly when its own
/// identifier has been unregistered: identifiers are never reused.
pub proof fn lemma_registry_lifetime(
    v: RegistryView,
    s: StreamView,
    ops: Seq<RegistryOp>,
)
    requires
        v.next + 1 + ops.len() <= u64::MAX,
    ensures
        ({
            let id = v.next;
            let after = replay(registered(v, s), ops);
            &&& after.streams.contains_key(id) <==> forall|i: int|
                0 <= i < ops.len() ==> #[trigger] ops[i] != RegistryOp::Unregister(id)
            &&& after.streams.contains_key(id) ==> after.streams[id] == (
            StreamView { id: Some(MediaStreamId(id)), ..s })
        }),
{
    lemma_replay_entry(registered(v, s), ops, v.next);
}

/// The handshake after the answers `answers` arrive in order.
pub open spec fn replay_answers(h: Handshake, answers: Seq<Result<(), PlayerError>>) -> Handshake
    decreases answers.len(),
{
    if answers.len() == 0 {
        h
    } else {
        answered(replay_answers(h, answers.drop_last()), answers.last())
    }
}

/// The setup handshake is one-shot: whatever answers the engine's source-setup
/// and error signals give, in whatever order, the waiting caller is handed the
/// first one, exactly once, and the handshake keeps it.
pub proof fn lemma_handshake_keeps_first_answer(answers: Seq<Result<(), PlayerError>>)
    requires
        answers.len() > 0,
    ensures
        delivered(Handshake::Waiting, answers[0]) == Some(answers[0]),
        forall|i: int|
            1 <= i < answers.len() ==> #[trigger] delivered(
                replay_answers(Handshake::Waiting, answers.take(i)),
                answers[i],
            ).is_none(),
        replay_answers(Handshake::Waiting, answers) == Handshake::Resolved(answers[0]),
    decreases answers.len(),
{
    if answers.len() > 1 {
        let prefix = answers.drop_last();
        lemma_handshake_keeps_first_answer(prefix);
        assert(prefix[0] == answers[0]);
        assert forall|i: int|
            1 <= i < answers.len() implies #[trigger] delivered(
                replay_answers(Handshake::Waiting, answers.take(i)),
                answers[i],
            ).is_none() by {
            if i < prefix.len() {
                assert(answers.take(i) =~= prefix.take(i));
                assert(prefix[i] == answers[i]);
            } else {
                assert(answers.take(i) =~= prefix);
            }
        }
    } else {
        assert(answers.drop_last() =~= Seq::<Result<(), PlayerError>>::empty());
        assert(replay_answers(Handshake::Waiting, answers.drop_last()) == Handshake::Waiting);
        assert(answers.last() == answers[0]);
    }
}

/// A rate set before any metadata is only cached. The first snapshot that
/// reports a seekable medium applies the cached rate, once: the same snapshot
/// again applies nothing, and each later different seekable snapshot applies
/// it once more.
pub proof fn lemma_rate_applied_once(v: InnerView, rate: u64, m: MetadataView, m2: MetadataView)
    requires
        v.last_metadata.is_none(),
        m.is_seekable,
        m2.is_seekable,
        m2 != m,
    ensures
        set_rate_result(v, rate) == Ok::<Seq<EngineCommand>, PlayerError>(Seq::empty()),
        ({
            let cached = InnerView { rate, ..v };
            let first = after_media_info(cached, m);
            &&& media_info_commands(cached, m) == seq![EngineCommand::SetRate(rate)]
            &&& media_info_commands(first, m) == Seq::<EngineCommand>::empty()
            &&& after_media_info(first, m) == first
            &&& media_info_commands(first, m2) == seq![EngineCommand::SetRate(rate)]
        }),
{
}

/// A stream-mode session refuses every seek as non-seekable, whatever
/// metadata it holds.
pub proof fn lemma_stream_mode_never_seeks(v: InnerView, time_ns: u64)
    requires
        v.stream_type == StreamType::Stream,
    ensures
        seek_result(v, time_ns) == Err::<Seq<EngineCommand>, PlayerError>(
            PlayerError::NonSeekableStream,
        ),
{
}

/// With a seekable source bound, pushing after an enough-data signal fails with
/// backpressure, and pushing after a need-data signal goes to the engine.
pub proof fn lemma_backpressure(v: InnerView, data: Vec<u8>)
    requires
        v.source == Some(PlayerSource::Seekable),
    ensures
        push_result(InnerView { enough_data: true, ..v }, data) == Err::<
            Seq<EngineCommand>,
            PlayerError,
        >(PlayerError::EnoughData),
        push_result(InnerView { enough_data: false, ..v }, data) == Ok::<
            Seq<EngineCommand>,
            PlayerError,
        >(seq![EngineCommand::PushBuffer(data)]),
{
}

/// A duration change with no snapshot cached changes nothing (and announces
/// nothing); a media-info update equal to the cached snapshot changes nothing,
/// applies nothing and announces nothing.
pub proof fn lemma_metadata_notification_suppressed(
    v: InnerView,
    d: Option<MediaDuration>,
    m: MetadataView,
)
    ensures
        v.last_metadata.is_none() ==> after_duration(v, d) == v,
        v.last_metadata == Some(m) ==> {
            &&& !metadata_changes(v, m)
            &&& after_media_info(v, m) == v
            &&& media_info_commands(v, m) == Seq::<EngineCommand>::empty()
        },
{
}

/// Notifying `n` freshly registered listeners of the end of the stream leaves
/// exactly one copy of that event with each.
pub proof fn lemma_fan_out(n: nat)
    ensures
        notified(
            Seq::new(n, |i: int| Seq::<PlayerEventView>::empty()),
            PlayerEventView::EndOfStream,
        ) == Seq::new(n, |i: int| seq![PlayerEventView::EndOfStream]),
{
    let obs = Seq::new(n, |i: int| Seq::<PlayerEventView>::empty());
    let r = notified(obs, PlayerEventView::EndOfStream);
    assert forall|i: int| 0 <= i < n implies r[i] =~= seq![PlayerEventView::EndOfStream] by {}
    assert(r =~= Seq::new(n, |i: int| seq![PlayerEventView::EndOfStream]));
}

/// Two elements are the same kind of stage, whatever numbers they carry.
pub open spec fn same_kind(a: Element, b: Element) -> bool {
    match (a, b) {
        (Element::ProxySrc(_), Element::ProxySrc(_)) => true,
        (Element::ProxySink(_), Element::ProxySink(_)) => true,
        (Element::AppSrc(_), Element::AppSrc(_)) => true,
        (Element::External(_), Element::External(_)) => true,
        _ => a == b,
    }
}

/// Two chains have the same shape: the same kinds of stages in the same order.
pub open spec fn same_shape(a: Seq<Element>, b: Seq<Element>) -> bool {
    a.len() == b.len() && forall|i: int| 0 <= i < a.len() ==> #[trigger] same_kind(a[i], b[i])
}

/// A video stream made by `create_proxy` and one made by `create_video_from`
/// over any source, both without a size, have chains of the same shape, and
/// `encoded` gives both branches of the same shape.
pub proof fn lemma_proxy_video_like_direct(link: u64, source: Element, other_link: u64)
    ensures
        ({
            let proxied = video_stream(Element::ProxySrc(link), None, (link + 1) as u64);
            let direct = video_stream(source, None, other_link);
            &&& same_shape(proxied.elements, direct.elements)
            &&& same_shape(
                encoded_chain(MediaStreamType::Video, proxied.elements[0]),
                encoded_chain(MediaStreamType::Video, direct.elements[0]),
            )
        }),
{
}

} // verus!
