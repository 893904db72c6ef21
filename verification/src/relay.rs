use vstd::prelude::*;
use crate::frame::{CommandFrame, FRAME_LEN};

verus! {

/// Error returned when a frame is submitted to a torn-down channel. The
/// producer is told and carries on; a broken relay never crashes a caller.
#[derive(Clone, Copy, Debug, PartialEq, Eq)]
pub enum SubmitError {
    ChannelClosed,
}

/// The Relay Channel: one FIFO queue of pending frames in front of exactly
/// one writer. Arbitrarily many producers submit frames; the single worker
/// takes them out in submission order and writes each fully to the outbound
/// connection, so the connection never sees interleaved or reordered frames.
///
/// The ghost logs record every frame ever accepted and every frame handed to
/// the writer, in order; well-formedness ties them to the pending queue.
pub struct RelayChannel {
    pending: Vec<CommandFrame>,
    open: bool,
    submitted: Ghost<Seq<Seq<u8>>>,
    transmitted: Ghost<Seq<Seq<u8>>>,
}

impl RelayChannel {
    /// Every frame ever accepted by `submit`, in submission order.
    pub closed spec fn submitted_log(self) -> Seq<Seq<u8>> {
        self.submitted@
    }

    /// Every frame handed to the writer by `take_next`, in wire order.
    pub closed spec fn transmitted_log(self) -> Seq<Seq<u8>> {
        self.transmitted@
    }

    /// Whether the channel still accepts submissions.
    pub closed spec fn is_open(self) -> bool {
        self.open
    }

    /// The frames accepted but not yet handed to the writer, oldest first.
    pub closed spec fn pending_frames(self) -> Seq<Seq<u8>> {
        Seq::new(self.pending@.len(), |i: int| self.pending@[i]@)
    }

    /// The transmitted prefix followed by the pending queue is exactly the
    /// submission log, and every logged frame has the fixed wire length.
    pub open spec fn wf(self) -> bool {
        &&& self.transmitted_log() + self.pending_frames() == self.submitted_log()
        &&& forall|i: int|
            0 <= i < self.submitted_log().len()
                ==> (#[trigger] self.submitted_log()[i]).len() == FRAME_LEN
    }

    /// A freshly opened channel: nothing submitted, nothing transmitted.
    pub fn new() -> (r: RelayChannel)
        ensures
            r.wf(),
            r.is_open(),
            r.submitted_log() == Seq::<Seq<u8>>::empty(),
            r.transmitted_log() == Seq::<Seq<u8>>::empty(),
    {
        let r = RelayChannel {
            pending: Vec::new(),
            open: true,
            submitted: Ghost(Seq::empty()),
            transmitted: Ghost(Seq::empty()),
        };
        proof {
            assert(r.transmitted_log() + r.pending_frames() =~= r.submitted_log());
        }
        r
    }

    /// Enqueues one frame for transmission. The producer never blocks on the
    /// connection; submission order is the order frames will reach the wire.
    /// Once the channel is torn down this fails and changes nothing.
    pub fn submit(&mut self, f: CommandFrame) -> (r: Result<(), SubmitError>)
        requires
            old(self).wf(),
            f.wf(),
        ensures
            final(self).wf(),
            final(self).is_open() == old(self).is_open(),
            final(self).transmitted_log() == old(self).transmitted_log(),
            old(self).is_open() ==> r is Ok && final(self).submitted_log()
                == old(self).submitted_log().push(f@),
            !old(self).is_open() ==> r is Err && *final(self) == *old(self),
    {
        if !self.open {
            return Err(SubmitError::ChannelClosed);
        }
        let ghost fv = f@;
        self.pending.push(f);
        self.submitted = Ghost(self.submitted@.push(fv));
        proof {
            assert(self.transmitted_log() + self.pending_frames() =~= self.submitted_log());
        }
        Ok(())
    }

    /// The single writer's dequeue: hands out the oldest pending frame, which
    /// the worker must now write fully to the connection, and records it as
    /// transmitted. Returns `None`, changing nothing, when the queue is empty.
    pub fn take_next(&mut self) -> (r: Option<CommandFrame>)
        requires
            old(self).wf(),
        ensures
            final(self).wf(),
            final(self).is_open() == old(self).is_open(),
            final(self).submitted_log() == old(self).submitted_log(),
            old(self).pending_frames().len() == 0 ==> r is None && *final(self) == *old(self),
            old(self).pending_frames().len() > 0 ==> (r matches Some(f)
                && f@ == old(self).pending_frames()[0]
                && f@ == old(self).submitted_log()[old(self).transmitted_log().len() as int]
                && f.wf()
                && final(self).transmitted_log() == old(self).transmitted_log().push(f@)),
    {
        if self.pending.len() == 0 {
            return None;
        }
        let f = self.pending.remove(0);
        let ghost fv = f@;
        self.transmitted = Ghost(self.transmitted@.push(fv));
        proof {
            assert(self.transmitted_log() + self.pending_frames() =~= self.submitted_log());
            assert(old(self).submitted_log()[old(self).transmitted_log().len() as int].len()
                == FRAME_LEN);
        }
        Some(f)
    }

    /// Tears the channel down after a fatal connection failure: no further
    /// submissions are accepted; the logs and the queue are untouched.
    pub fn close(&mut self)
        requires
            old(self).wf(),
        ensures
            final(self).wf(),
            !final(self).is_open(),
            final(self).submitted_log() == old(self).submitted_log(),
            final(self).transmitted_log() == old(self).transmitted_log(),
            final(self).pending_frames() == old(self).pending_frames(),
    {
        self.open = false;
    }

    /// Whether the channel still accepts submissions.
    pub fn accepting(&self) -> (b: bool)
        ensures
            b == self.is_open(),
    {
        self.open
    }

    /// How many frames are queued and not yet handed to the writer.
    pub fn pending_len(&self) -> (n: usize)
        ensures
            n == self.pending_frames().len(),
    {
        self.pending.len()
    }
}

/// Frame ordering: the wire sees frames exactly in submission order. The
/// transmitted log is always a prefix of the submitted log, so of two frames
/// submitted one after the other, the earlier one is never written later.
pub proof fn lemma_fifo_order(ch: RelayChannel)
    requires
        ch.wf(),
    ensures
        ch.transmitted_log().len() <= ch.submitted_log().len(),
        forall|i: int|
            0 <= i < ch.transmitted_log().len() ==> #[trigger] ch.transmitted_log()[i]
                == ch.submitted_log()[i],
{
    assert forall|i: int|
        0 <= i < ch.transmitted_log().len() implies #[trigger] ch.transmitted_log()[i]
        == ch.submitted_log()[i] by {
        assert(ch.submitted_log()[i] == (ch.transmitted_log() + ch.pending_frames())[i]);
    }
}

} // verus!
