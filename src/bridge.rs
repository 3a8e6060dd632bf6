use vstd::prelude::*;

verus! {

/// What the producer does with a frame that has just arrived.
#[derive(Clone, Copy, Debug, PartialEq, Eq, Structural)]
pub enum ArrivalAction {
    /// The frame now waits in the slot for the consumer.
    Enqueued,
    /// The slot is full: the producer waits until the consumer drains it, then
    /// offers the frame again.
    Wait,
    /// The session is closed: the producer releases the frame itself.
    Discard,
}

/// A request the bridge refuses.
#[derive(Clone, Copy, Debug, PartialEq, Eq, Structural)]
pub enum BridgeError {
    /// A new frame was requested while the previous one is still held.
    FrameStillHeld,
    /// The frame released is not the one held.
    NotHeld,
    /// The session has been closed.
    Closed,
}

/// A platform object to close when a session is torn down, in order.
#[derive(Clone, Copy, Debug, PartialEq, Eq, Structural)]
pub enum TeardownStep {
    CloseSession,
    ClosePool,
}

/// The state of a capture session bridge. Frames are named by numbers that
/// the producer gives them.
pub struct BridgeView {
    /// The frame buffered for the consumer, if any.
    pub slot: Option<u64>,
    /// The frame that the consumer holds and has not released, if any.
    pub held: Option<u64>,
    /// The session and its frame pool are still open.
    pub open: bool,
    /// Every frame that entered the slot, in order of arrival.
    pub accepted: Seq<u64>,
    /// Every frame handed to the consumer, in order of delivery.
    pub delivered: Seq<u64>,
}

impl BridgeView {
    /// Frames leave in the order they entered, none is lost, at most one waits.
    pub open spec fn wf(self) -> bool {
        &&& self.delivered.is_prefix_of(self.accepted)
        &&& self.accepted.len() == self.delivered.len() + if self.slot is Some {
            1int
        } else {
            0int
        }
        &&& self.slot matches Some(f) ==> self.accepted.last() == f
    }

    pub open spec fn after_arrival(self, frame: u64) -> BridgeView {
        if self.open && self.slot is None {
            BridgeView { slot: Some(frame), accepted: self.accepted.push(frame), ..self }
        } else {
            self
        }
    }

    pub open spec fn arrival_action(self) -> ArrivalAction {
        if !self.open {
            ArrivalAction::Discard
        } else if self.slot is Some {
            ArrivalAction::Wait
        } else {
            ArrivalAction::Enqueued
        }
    }

    /// A new frame may be requested: the session is open and no frame is held.
    pub open spec fn may_request(self) -> bool {
        self.open && self.held is None
    }

    pub open spec fn after_request(self) -> BridgeView {
        if self.may_request() && self.slot is Some {
            BridgeView {
                slot: None,
                held: self.slot,
                delivered: self.delivered.push(self.slot->0),
                ..self
            }
        } else {
            self
        }
    }

    pub open spec fn may_release(self, frame: u64) -> bool {
        self.held == Some(frame)
    }

    pub open spec fn after_release(self, frame: u64) -> BridgeView {
        if self.may_release(frame) {
            BridgeView { held: None, ..self }
        } else {
            self
        }
    }

    pub open spec fn after_close(self) -> BridgeView {
        BridgeView { open: false, ..self }
    }
}

/// Hands frames from a capture callback to one consumer, one at a time, through
/// a single slot, and keeps the session's lifecycle.
pub struct CaptureBridge {
    slot: Option<u64>,
    held: Option<u64>,
    open: bool,
    accepted: Ghost<Seq<u64>>,
    delivered: Ghost<Seq<u64>>,
}

impl View for CaptureBridge {
    type V = BridgeView;

    closed spec fn view(&self) -> BridgeView {
        BridgeView {
            slot: self.slot,
            held: self.held,
            open: self.open,
            accepted: self.accepted@,
            delivered: self.delivered@,
        }
    }
}

impl CaptureBridge {
    #[verifier::type_invariant]
    spec fn inv(self) -> bool {
        self@.wf()
    }

    /// A bridge for a session that has just started capturing.
    pub fn new() -> (r: CaptureBridge)
        ensures
            r@.open,
            r@.slot is None,
            r@.held is None,
            r@.accepted.len() == 0,
            r@.delivered.len() == 0,
    {
        CaptureBridge {
            slot: None,
            held: None,
            open: true,
            accepted: Ghost(Seq::empty()),
            delivered: Ghost(Seq::empty()),
        }
    }

    /// The session is still open.
    pub fn is_open(&self) -> (r: bool)
        ensures
            r == self@.open,
    {
        self.open
    }

    /// The frame the consumer holds, if any.
    pub fn held(&self) -> (r: Option<u64>)
        ensures
            r == self@.held,
    {
        self.held
    }

    /// A frame arrived from the capture service: it enters the slot if the slot
    /// is empty; the producer waits while the slot is full, so no frame is dropped.
    pub fn frame_arrived(&mut self, frame: u64) -> (r: ArrivalAction)
        ensures
            r == old(self)@.arrival_action(),
            final(self)@ == old(self)@.after_arrival(frame),
    {
        proof {
            use_type_invariant(&*self);
        }
        if !self.open {
            ArrivalAction::Discard
        } else if self.slot.is_some() {
            ArrivalAction::Wait
        } else {
            let ghost accepted = self.accepted@.push(frame);
            assert(self.delivered@.is_prefix_of(accepted));
            *self = CaptureBridge {
                slot: Some(frame),
                held: self.held,
                open: true,
                accepted: Ghost(accepted),
                delivered: self.delivered,
            };
            ArrivalAction::Enqueued
        }
    }

    /// The consumer asks for the next frame. While it holds one, or after the
    /// session closed, the request is refused. Otherwise it gets the oldest
    /// frame not yet delivered, or none if it must wait for one.
    pub fn next_frame(&mut self) -> (r: Result<Option<u64>, BridgeError>)
        ensures
            !old(self)@.open ==> r == Err::<Option<u64>, BridgeError>(BridgeError::Closed),
            old(self)@.open && old(self)@.held is Some ==> r == Err::<Option<u64>, BridgeError>(
                BridgeError::FrameStillHeld,
            ),
            old(self)@.may_request() ==> r == Ok::<Option<u64>, BridgeError>(old(self)@.slot),
            r matches Ok(Some(f)) ==> f == old(self)@.accepted[old(self)@.delivered.len() as int],
            final(self)@ == old(self)@.after_request(),
    {
        proof {
            use_type_invariant(&*self);
        }
        if !self.open {
            return Err(BridgeError::Closed);
        }
        if self.held.is_some() {
            return Err(BridgeError::FrameStillHeld);
        }
        match self.slot {
            None => Ok(None),
            Some(f) => {
                let ghost delivered = self.delivered@.push(f);
                assert(delivered =~= self.accepted@);
                *self = CaptureBridge {
                    slot: None,
                    held: Some(f),
                    open: true,
                    accepted: self.accepted,
                    delivered: Ghost(delivered),
                };
                Ok(Some(f))
            },
        }
    }

    /// The consumer releases the frame it holds. Releasing any other frame, or
    /// the same one twice, is refused.
    pub fn release_frame(&mut self, frame: u64) -> (r: Result<(), BridgeError>)
        ensures
            r is Ok <==> old(self)@.may_release(frame),
            r is Err ==> r == Err::<(), BridgeError>(BridgeError::NotHeld),
            final(self)@ == old(self)@.after_release(frame),
    {
        proof {
            use_type_invariant(&*self);
        }
        if self.held == Some(frame) {
            self.held = None;
            Ok(())
        } else {
            Err(BridgeError::NotHeld)
        }
    }

    /// Closes the session: the platform session first, then its frame pool.
    /// Succeeds once; closing again is refused.
    pub fn close(&mut self) -> (r: Result<Vec<TeardownStep>, BridgeError>)
        ensures
            r is Ok <==> old(self)@.open,
            r matches Ok(steps) ==> steps@ == seq![TeardownStep::CloseSession, TeardownStep::ClosePool],
            r is Err ==> r == Err::<Vec<TeardownStep>, BridgeError>(BridgeError::Closed),
            final(self)@ == old(self)@.after_close(),
    {
        proof {
            use_type_invariant(&*self);
        }
        if !self.open {
            return Err(BridgeError::Closed);
        }
        self.open = false;
        Ok(vec![TeardownStep::CloseSession, TeardownStep::ClosePool])
    }
}

/// One frame in flight: once a frame has been handed out, every request is
/// refused until that frame is released, and after its release requests are
/// served again.
pub proof fn lemma_single_frame_in_flight(v: BridgeView)
    requires
        v.wf(),
        v.may_request(),
        v.slot is Some,
    ensures
        v.after_request().held == v.slot,
        !v.after_request().may_request(),
        v.after_request().after_release(v.slot->0).may_request(),
{
}

/// Closing succeeds once: a session closed once refuses a second close, and a
/// frame released once refuses a second release.
pub proof fn lemma_close_once(v: BridgeView, frame: u64)
    ensures
        !v.after_close().open,
        v.may_release(frame) ==> !v.after_release(frame).may_release(frame),
{
}

/// Frames reach the consumer in the order in which they arrived, and none is
/// lost: every frame delivered is the next one that arrived.
pub proof fn lemma_delivery_in_arrival_order(v: BridgeView)
    requires
        v.wf(),
        v.may_request(),
        v.slot is Some,
    ensures
        v.after_request().wf(),
        v.after_request().delivered == v.accepted,
{
    assert(v.delivered.push(v.slot->0) =~= v.accepted);
}

} // verus!
