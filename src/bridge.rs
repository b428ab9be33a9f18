//! The shared state of one session with the peer: the outgoing queue, drained
//! by the single writer, and the correlator, fed by the single reader.
//!
//! Producers submit commands (fire-and-forget, or call-and-wait with a slot
//! registered before the command is queued); the writer takes the next frame
//! to send; the reader routes each decoded reply to its waiting slot.
use crate::correlator::{resolve_model, Correlator, CorrelatorError};
use crate::envelope::{envelope_text, DecodeError, EncodeError, RequestType};
use crate::frame::{encode_frame, frame_of, ByteOrder, FrameError, MAX_PAYLOAD_LEN};
use crate::json::ExtensionResponse;
use crate::queue::OutgoingQueue;
use vstd::prelude::*;
use vstd::utf8::encode_utf8;

verus! {

/// Relies on `uuid::Uuid::new_v4` and the hyphenated text that `Uuid`'s
/// `Display` writes: a fresh random identity of 36 characters.
#[verifier::external_body]
fn fresh_identity() -> (r: String)
    ensures
        r@.len() == 36,
{
    uuid::Uuid::new_v4().to_string()
}

/// Why the next queued command could not be turned into a frame. The command
/// has left the queue either way.
#[derive(Clone, Copy, Debug, PartialEq, Eq, Structural)]
pub enum OutboundError {
    Encode(EncodeError),
    Frame(FrameError),
}

/// The frame that carries command `c` under identity `id`.
pub open spec fn command_frame(c: RequestType, id: Seq<char>, order: ByteOrder) -> Seq<u8> {
    frame_of(encode_utf8(envelope_text(c, id)), order)
}

/// Outgoing queue and pending reply slots of one session.
pub struct Bridge<S> {
    outgoing: OutgoingQueue<(String, RequestType)>,
    pending: Correlator<S>,
}

impl<S> Bridge<S> {
    pub closed spec fn wf(&self) -> bool {
        self.pending.wf()
    }

    /// Commands waiting to be written, oldest first, each with its identity.
    pub closed spec fn queued(&self) -> Seq<(String, RequestType)> {
        self.outgoing@
    }

    /// Identities awaiting a reply, each with its slot.
    pub closed spec fn pending(&self) -> Map<Seq<char>, S> {
        self.pending@
    }

    /// A session with nothing queued and nothing pending.
    pub fn new() -> (r: Self)
        ensures
            r.wf(),
            r.queued() == Seq::<(String, RequestType)>::empty(),
            r.pending() == Map::<Seq<char>, S>::empty(),
    {
        Bridge { outgoing: OutgoingQueue::new(), pending: Correlator::new() }
    }

    /// How many commands wait to be written.
    pub fn queued_len(&self) -> (r: usize)
        ensures
            r == self.queued().len(),
    {
        self.outgoing.len()
    }

    /// How many identities await a reply.
    pub fn pending_len(&self) -> (r: usize)
        requires
            self.wf(),
        ensures
            r == self.pending().len(),
    {
        self.pending.len()
    }

    /// Whether a reply is awaited under `id`.
    pub fn is_pending(&self, id: &String) -> (r: bool)
        requires
            self.wf(),
        ensures
            r == self.pending().contains_key(id@),
    {
        self.pending.contains(id)
    }

    /// Queues `cmd` under identity `id`, expecting no reply.
    pub fn enqueue(&mut self, id: String, cmd: RequestType)
        requires
            old(self).wf(),
        ensures
            final(self).wf(),
            final(self).queued() == old(self).queued().push((id, cmd)),
            final(self).pending() == old(self).pending(),
    {
        self.outgoing.push((id, cmd));
    }

    /// Registers `slot` under `id`, then queues `cmd` under that identity. When
    /// a reply is already awaited under `id`, fails and changes nothing.
    pub fn enqueue_and_register(&mut self, id: String, cmd: RequestType, slot: S) -> (r: Result<
        (),
        CorrelatorError,
    >)
        requires
            old(self).wf(),
        ensures
            final(self).wf(),
            old(self).pending().contains_key(id@) ==> r == Err::<(), CorrelatorError>(
                CorrelatorError::DuplicateIdentity,
            ) && final(self).queued() == old(self).queued() && final(self).pending() == old(
                self,
            ).pending(),
            !old(self).pending().contains_key(id@) ==> r is Ok && final(self).queued() == old(
                self,
            ).queued().push((id, cmd)) && final(self).pending() == old(self).pending().insert(
                id@,
                slot,
            ),
    {
        let key = id.clone();
        match self.pending.register(key, slot) {
            Err(e) => Err(e),
            Ok(()) => {
                self.outgoing.push((id, cmd));
                Ok(())
            },
        }
    }

    /// Fire-and-forget: queues `cmd` under a fresh identity and returns it.
    pub fn submit(&mut self, cmd: RequestType) -> (r: String)
        requires
            old(self).wf(),
        ensures
            final(self).wf(),
            r@.len() == 36,
            final(self).queued() == old(self).queued().push((r, cmd)),
            final(self).pending() == old(self).pending(),
    {
        let id = fresh_identity();
        let out = id.clone();
        self.enqueue(id, cmd);
        out
    }

    /// Call-and-wait: registers `slot` under a fresh identity, queues `cmd`
    /// under it and returns it. Fails, changing nothing, only if the fresh
    /// identity is already awaited, so never while nothing is pending.
    pub fn submit_and_register(&mut self, cmd: RequestType, slot: S) -> (r: Result<
        String,
        CorrelatorError,
    >)
        requires
            old(self).wf(),
        ensures
            final(self).wf(),
            match r {
                Ok(id) => {
                    &&& id@.len() == 36
                    &&& !old(self).pending().contains_key(id@)
                    &&& final(self).queued() == old(self).queued().push((id, cmd))
                    &&& final(self).pending() == old(self).pending().insert(id@, slot)
                },
                Err(e) => {
                    &&& e == CorrelatorError::DuplicateIdentity
                    &&& exists|k: Seq<char>|
                        k.len() == 36 && #[trigger] old(self).pending().contains_key(k)
                    &&& final(self).queued() == old(self).queued()
                    &&& final(self).pending() == old(self).pending()
                },
            },
    {
        let id = fresh_identity();
        let out = id.clone();
        let ghost k = id@;
        match self.enqueue_and_register(id, cmd, slot) {
            Ok(()) => Ok(out),
            Err(e) => {
                assert(k.len() == 36 && old(self).pending().contains_key(k));
                Err(e)
            },
        }
    }

    /// Takes the oldest queued command and returns its frame, or `None` when
    /// nothing is queued. Every command encodes; the one failure is a frame
    /// over `MAX_PAYLOAD_LEN`, and then the slot awaiting that command's reply,
    /// if any, is dropped, so its caller learns that no reply will come.
    pub fn next_frame(&mut self, order: ByteOrder) -> (r: Option<Result<Vec<u8>, OutboundError>>)
        requires
            old(self).wf(),
        ensures
            final(self).wf(),
            old(self).queued().len() == 0 ==> r is None && final(self).queued() == old(
                self,
            ).queued() && final(self).pending() == old(self).pending(),
            old(self).queued().len() > 0 ==> final(self).queued() == old(self).queued().drop_first()
                && ({
                let (id, cmd) = old(self).queued()[0];
                let payload = encode_utf8(envelope_text(cmd, id@));
                if payload.len() <= MAX_PAYLOAD_LEN {
                    &&& r matches Some(Ok(f))
                    &&& f@ == command_frame(cmd, id@, order)
                    &&& final(self).pending() == old(self).pending()
                } else {
                    &&& r == Some(Err::<Vec<u8>, OutboundError>(OutboundError::Frame(FrameError::Oversized)))
                    &&& final(self).pending() == resolve_model(old(self).pending(), id@).0
                }
            }),
    {
        match self.outgoing.pop_front() {
            None => None,
            Some((id, cmd)) => {
                let key = id.clone();
                match cmd.serialize(id) {
                    Err(e) => Some(Err(OutboundError::Encode(e))),
                    Ok(payload) => match encode_frame(payload.as_slice(), order) {
                        Err(e) => {
                            let _ = self.pending.resolve(&key);
                            Some(Err(OutboundError::Frame(e)))
                        },
                        Ok(f) => Some(Ok(f)),
                    },
                }
            },
        }
    }

    /// Gives up waiting under `id` (the caller went away, or its deadline
    /// passed): the slot is removed and handed back, so a late reply finds
    /// nothing. Queued commands are not touched.
    pub fn abandon(&mut self, id: &String) -> (r: Option<S>)
        requires
            old(self).wf(),
        ensures
            final(self).wf(),
            final(self).queued() == old(self).queued(),
            (final(self).pending(), r) == resolve_model(old(self).pending(), id@),
    {
        self.pending.resolve(id)
    }

    /// Routes one decoded inbound message. A reply whose identity is awaited
    /// takes that slot out and is handed back with it, for delivery; any other
    /// reply, and any message that did not decode, is dropped and changes
    /// nothing.
    pub fn route_reply(&mut self, decoded: Result<ExtensionResponse, DecodeError>) -> (r: Option<
        (S, ExtensionResponse),
    >)
        requires
            old(self).wf(),
        ensures
            final(self).wf(),
            final(self).queued() == old(self).queued(),
            match decoded {
                Err(_) => r is None && final(self).pending() == old(self).pending(),
                Ok(reply) => final(self).pending() == resolve_model(
                    old(self).pending(),
                    reply.uuid@,
                ).0 && match r {
                    Some((slot, delivered)) => resolve_model(old(self).pending(), reply.uuid@).1
                        == Some(slot) && delivered == reply,
                    None => resolve_model(old(self).pending(), reply.uuid@).1 is None,
                },
            },
    {
        match decoded {
            Err(_) => None,
            Ok(reply) => match self.pending.resolve(&reply.uuid) {
                Some(slot) => Some((slot, reply)),
                None => None,
            },
        }
    }
}

} // verus!
