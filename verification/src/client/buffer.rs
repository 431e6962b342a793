//! The buffer of messages that arrived and were not yet received: what a
//! request takes from it, and the laws of the order in which messages leave
//! it.

use std::collections::VecDeque;
use vstd::prelude::*;

use crate::protocol::{ServerMessage, ServerMessageKind};

verus! {

/// How far a request to the session has come.
#[derive(Debug)]
pub enum Progress<T> {
    /// The request is answered.
    Done(T),
    /// The session holds no answer: the caller reads the transport, hands
    /// what it read to `deliver`, and asks again.
    Waiting,
}

/// The oldest message of a buffer, and the buffer without it.
pub open spec fn next_message<S>(buffer: Seq<ServerMessage<S>>) -> (
    Option<ServerMessage<S>>,
    Seq<ServerMessage<S>>,
) {
    if buffer.len() > 0 {
        (Some(buffer[0]), buffer.skip(1))
    } else {
        (None, buffer)
    }
}

/// The place of the oldest message of kind `kind` in a buffer, or the
/// length of the buffer where it holds none.
pub open spec fn position_of<S>(buffer: Seq<ServerMessage<S>>, kind: ServerMessageKind) -> int
    decreases buffer.len(),
{
    if buffer.len() == 0 {
        0
    } else if buffer[0].spec_kind() == kind {
        0
    } else {
        1 + position_of(buffer.drop_first(), kind)
    }
}

/// The oldest message of kind `kind` of a buffer, and the buffer without
/// it: the messages before and after it stay, in their order.
pub open spec fn select<S>(buffer: Seq<ServerMessage<S>>, kind: ServerMessageKind) -> (
    Option<ServerMessage<S>>,
    Seq<ServerMessage<S>>,
) {
    let at = position_of(buffer, kind);
    if at < buffer.len() {
        (Some(buffer[at]), buffer.remove(at))
    } else {
        (None, buffer)
    }
}

/// The frames of a sequence one after the other.
pub open spec fn concat_frames<S>(frames: Seq<Seq<ServerMessage<S>>>) -> Seq<ServerMessage<S>>
    decreases frames.len(),
{
    if frames.len() == 0 {
        Seq::empty()
    } else {
        frames[0] + concat_frames(frames.drop_first())
    }
}

/// The messages that a caller receives who asks for the next message again
/// and again, while the transport delivers `frames` and then ends: each
/// request is answered from the buffer while it holds a message, and the
/// next frame is delivered when it holds none.
pub open spec fn received<S>(
    buffer: Seq<ServerMessage<S>>,
    frames: Seq<Seq<ServerMessage<S>>>,
) -> Seq<ServerMessage<S>>
    decreases frames.len(), buffer.len(),
{
    match next_message(buffer).0 {
        Some(message) => seq![message] + received(next_message(buffer).1, frames),
        None => if frames.len() > 0 {
            received(buffer + frames[0], frames.drop_first())
        } else {
            Seq::empty()
        },
    }
}

/// The answer to a selective wait for a message of kind `kind`, while the
/// transport delivers `frames` and then ends: the message, with the buffer
/// that is left, or nothing where the transport ends before such a message
/// came. A frame is delivered only while the buffer holds no such message.
pub open spec fn awaited<S>(
    buffer: Seq<ServerMessage<S>>,
    frames: Seq<Seq<ServerMessage<S>>>,
    kind: ServerMessageKind,
) -> Option<(ServerMessage<S>, Seq<ServerMessage<S>>)>
    decreases frames.len(),
{
    match select(buffer, kind).0 {
        Some(message) => Some((message, select(buffer, kind).1)),
        None => if frames.len() > 0 {
            awaited(buffer + frames[0], frames.drop_first(), kind)
        } else {
            None
        },
    }
}

/// Where the oldest message of a kind stands: no message before that place
/// is of the kind, and the message at that place is.
pub proof fn lemma_position_of<S>(buffer: Seq<ServerMessage<S>>, kind: ServerMessageKind)
    ensures
        0 <= position_of(buffer, kind) <= buffer.len(),
        forall|i: int|
            0 <= i < position_of(buffer, kind) ==> (#[trigger] buffer[i]).spec_kind() != kind,
        position_of(buffer, kind) < buffer.len() ==> buffer[position_of(buffer, kind)].spec_kind()
            == kind,
    decreases buffer.len(),
{
    if buffer.len() > 0 && buffer[0].spec_kind() != kind {
        let rest = buffer.drop_first();
        lemma_position_of(rest, kind);
        assert forall|i: int| 0 <= i < position_of(buffer, kind) implies (
        #[trigger] buffer[i]).spec_kind() != kind by {
            if i > 0 {
                assert(buffer[i] == rest[i - 1]);
            }
        }
    }
}

/// A place before which no message is of the kind, and which is the end of
/// the buffer or holds a message of the kind, is the place of the oldest
/// message of the kind.
pub proof fn lemma_position_is<S>(buffer: Seq<ServerMessage<S>>, kind: ServerMessageKind, at: int)
    requires
        0 <= at <= buffer.len(),
        forall|i: int| 0 <= i < at ==> (#[trigger] buffer[i]).spec_kind() != kind,
        at < buffer.len() ==> buffer[at].spec_kind() == kind,
    ensures
        position_of(buffer, kind) == at,
{
    lemma_position_of(buffer, kind);
    let found = position_of(buffer, kind);
    if found < at {
        assert(buffer[found].spec_kind() != kind);
    }
}

/// Whatever the boundaries of the frames, the messages are received in the
/// order in which they came: first what the buffer held, then the messages
/// of the frames, frame after frame.
pub proof fn lemma_received_in_order<S>(
    buffer: Seq<ServerMessage<S>>,
    frames: Seq<Seq<ServerMessage<S>>>,
)
    ensures
        received(buffer, frames) == buffer + concat_frames(frames),
    decreases frames.len(), buffer.len(),
{
    if buffer.len() > 0 {
        lemma_received_in_order(buffer.skip(1), frames);
        assert(seq![buffer[0]] + (buffer.skip(1) + concat_frames(frames)) =~= buffer
            + concat_frames(frames));
    } else if frames.len() > 0 {
        lemma_received_in_order(buffer + frames[0], frames.drop_first());
        assert((buffer + frames[0]) + concat_frames(frames.drop_first()) =~= buffer
            + concat_frames(frames));
    } else {
        assert(buffer + concat_frames(frames) =~= Seq::<ServerMessage<S>>::empty());
    }
}

/// Two ways to cut one stream of messages into frames give the same
/// messages in the same order.
pub proof fn lemma_frame_boundaries<S>(
    first: Seq<Seq<ServerMessage<S>>>,
    second: Seq<Seq<ServerMessage<S>>>,
)
    requires
        concat_frames(first) == concat_frames(second),
    ensures
        received(Seq::empty(), first) == received(Seq::empty(), second),
        received(Seq::empty(), first) == concat_frames(first),
{
    lemma_received_in_order(Seq::<ServerMessage<S>>::empty(), first);
    lemma_received_in_order(Seq::<ServerMessage<S>>::empty(), second);
    assert(Seq::<ServerMessage<S>>::empty() + concat_frames(first) =~= concat_frames(first));
    assert(Seq::<ServerMessage<S>>::empty() + concat_frames(second) =~= concat_frames(second));
}

/// A selective wait passes over the messages of other kinds: from a buffer
/// that holds messages of other kinds and then a message of the kind, it
/// takes that message and leaves the others, and what came after, in their
/// order.
pub proof fn lemma_select_passes_over<S>(
    unrelated: Seq<ServerMessage<S>>,
    reply: ServerMessage<S>,
    rest: Seq<ServerMessage<S>>,
    kind: ServerMessageKind,
)
    requires
        forall|i: int| 0 <= i < unrelated.len() ==> (#[trigger] unrelated[i]).spec_kind() != kind,
        reply.spec_kind() == kind,
    ensures
        select(unrelated + seq![reply] + rest, kind) == (Some(reply), unrelated + rest),
{
    let buffer = unrelated + seq![reply] + rest;
    let at = unrelated.len() as int;
    assert(buffer[at] == reply);
    assert forall|i: int| 0 <= i < at implies (#[trigger] buffer[i]).spec_kind() != kind by {
        assert(buffer[i] == unrelated[i]);
    }
    lemma_position_is(buffer, kind, at);
    assert(buffer.remove(at) =~= unrelated + rest);
}

/// A buffer of messages of other kinds holds no message of the kind.
pub proof fn lemma_select_finds_none<S>(buffer: Seq<ServerMessage<S>>, kind: ServerMessageKind)
    requires
        forall|i: int| 0 <= i < buffer.len() ==> (#[trigger] buffer[i]).spec_kind() != kind,
    ensures
        select(buffer, kind) == (None::<ServerMessage<S>>, buffer),
{
    lemma_position_is(buffer, kind, buffer.len() as int);
}

/// Where the stream holds messages of other kinds and then the reply, a
/// selective wait returns the reply, however the stream is cut into frames,
/// and leaves the other messages in the buffer in their order, so that they
/// are then received in that order.
pub proof fn lemma_awaited_reply<S>(
    buffer: Seq<ServerMessage<S>>,
    frames: Seq<Seq<ServerMessage<S>>>,
    unrelated: Seq<ServerMessage<S>>,
    reply: ServerMessage<S>,
    kind: ServerMessageKind,
)
    requires
        forall|i: int| 0 <= i < unrelated.len() ==> (#[trigger] unrelated[i]).spec_kind() != kind,
        reply.spec_kind() == kind,
        buffer + concat_frames(frames) == unrelated + seq![reply],
    ensures
        awaited(buffer, frames, kind) == Some((reply, unrelated)),
        received(unrelated, Seq::empty()) == unrelated,
    decreases frames.len(),
{
    let stream = unrelated + seq![reply];
    lemma_received_in_order(unrelated, Seq::<Seq<ServerMessage<S>>>::empty());
    assert(unrelated + concat_frames(Seq::<Seq<ServerMessage<S>>>::empty()) =~= unrelated);
    assert(buffer.len() <= stream.len()) by {
        assert((buffer + concat_frames(frames)).len() == stream.len());
    }
    if buffer.len() == stream.len() {
        assert(buffer =~= stream) by {
            assert forall|i: int| 0 <= i < buffer.len() implies buffer[i] == stream[i] by {
                assert((buffer + concat_frames(frames))[i] == buffer[i]);
            }
        }
        lemma_select_passes_over(unrelated, reply, Seq::<ServerMessage<S>>::empty(), kind);
        assert(unrelated + seq![reply] + Seq::<ServerMessage<S>>::empty() =~= stream);
        assert(unrelated + Seq::<ServerMessage<S>>::empty() =~= unrelated);
    } else {
        assert forall|i: int| 0 <= i < buffer.len() implies (#[trigger] buffer[i]).spec_kind()
            != kind by {
            assert((buffer + concat_frames(frames))[i] == buffer[i]);
            assert(stream[i] == unrelated[i]);
        }
        lemma_select_finds_none(buffer, kind);
        if frames.len() == 0 {
            assert(buffer + concat_frames(frames) =~= buffer);
        } else {
            assert((buffer + frames[0]) + concat_frames(frames.drop_first()) =~= buffer
                + concat_frames(frames));
            lemma_awaited_reply(buffer + frames[0], frames.drop_first(), unrelated, reply, kind);
        }
    }
}

/// Puts the messages of a batch behind those of a buffer, in their order.
pub(crate) fn append_batch<S>(buffer: &mut VecDeque<ServerMessage<S>>, batch: Vec<ServerMessage<S>>)
    ensures
        final(buffer)@ == old(buffer)@ + batch@,
{
    let mut batch = batch;
    let ghost all = batch@;
    let mut tail: VecDeque<ServerMessage<S>> = VecDeque::new();
    while batch.len() > 0
        invariant
            batch@ + tail@ == all,
        decreases batch@.len(),
    {
        let ghost before = batch@;
        let ghost tail_before = tail@;
        match batch.pop() {
            Some(message) => {
                tail.push_front(message);
                assert(batch@ + tail@ =~= before + tail_before);
            },
            None => {},
        }
    }
    assert(tail@ =~= all);
    buffer.append(&mut tail);
}

/// Takes the oldest message of kind `kind` out of a buffer.
pub(crate) fn take_kind<S>(
    buffer: &mut VecDeque<ServerMessage<S>>,
    kind: ServerMessageKind,
) -> (taken: Option<ServerMessage<S>>)
    ensures
        (taken, final(buffer)@) == select(old(buffer)@, kind),
{
    let mut i: usize = 0;
    while i < buffer.len()
        invariant
            i <= buffer@.len(),
            buffer@ == old(buffer)@,
            forall|j: int| 0 <= j < i ==> (#[trigger] buffer@[j]).spec_kind() != kind,
        decreases buffer@.len() - i,
    {
        if buffer[i].kind() == kind {
            proof {
                lemma_position_is(buffer@, kind, i as int);
            }
            return buffer.remove(i);
        }
        i += 1;
    }
    proof {
        lemma_position_is(buffer@, kind, i as int);
    }
    None
}

/// What a request for the next message gives, and the buffer that it
/// leaves: the oldest message where the buffer holds one; nothing, for good,
/// where the buffer is empty and the transport has ended; and otherwise the
/// word to wait.
pub open spec fn recv_step<S>(buffer: Seq<ServerMessage<S>>, closed: bool) -> (
    Progress<Option<ServerMessage<S>>>,
    Seq<ServerMessage<S>>,
) {
    match next_message(buffer).0 {
        Some(message) => (Progress::Done(Some(message)), next_message(buffer).1),
        None => if closed {
            (Progress::Done(None), buffer)
        } else {
            (Progress::Waiting, buffer)
        },
    }
}

/// Answers a request for the next message from a buffer.
pub(crate) fn recv_from<S>(
    buffer: &mut VecDeque<ServerMessage<S>>,
    closed: bool,
) -> (progress: Progress<Option<ServerMessage<S>>>)
    ensures
        (progress, final(buffer)@) == recv_step(old(buffer)@, closed),
{
    match buffer.pop_front() {
        Some(message) => Progress::Done(Some(message)),
        None => if closed {
            Progress::Done(None)
        } else {
            Progress::Waiting
        },
    }
}

} // verus!
