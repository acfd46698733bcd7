//! The progress of a transition from one room to the next
use vstd::prelude::*;

verus! {

/// A key to identify a room
pub type RoomKey = String;

/// How long a room transition lasts, in milliseconds
pub const ROOM_TRANSITION_TIME_MS: u64 = 800;

/// Define the state of a room transition; `T` is how far the transition has progressed and `D`
/// the data the transition interpolates
pub enum RoomTransitionState<T, D> {
    Idle,
    Queued(RoomKey),
    Progress(T, D),
    Complete(RoomKey),
}

/// The state of a room transition as plain values: the room it goes to, the data it was
/// started with, and whether its timer runs
pub struct TransitionModel<D> {
    pub next: Option<Seq<char>>,
    pub data: Option<D>,
    pub running: bool,
}

/// What a transition reports when it is integrated, as plain values
pub enum TransitionOutcome<D> {
    Idle,
    Queued(Seq<char>),
    Progress(D),
    Complete(Seq<char>),
}

/// The model after queueing a transition to `name`, and whether that was accepted: only when no
/// transition is queued or in progress
pub open spec fn queue_model<D>(model: TransitionModel<D>, name: Seq<char>) -> (TransitionModel<D>, bool) {
    if model.next is Some {
        (model, false)
    } else {
        (TransitionModel { next: Some(name), ..model }, true)
    }
}

/// The model after starting the queued transition with `data`, and whether that was accepted:
/// only when a transition is queued
pub open spec fn start_model<D>(model: TransitionModel<D>, data: D) -> (TransitionModel<D>, bool) {
    if model.next is None {
        (model, false)
    } else {
        (TransitionModel { data: Some(data), running: true, ..model }, true)
    }
}

/// The model after integrating, with `done` telling whether the timer has run out, and what the
/// transition reports
pub open spec fn integrate_model<D>(model: TransitionModel<D>, done: bool) -> (TransitionModel<D>, TransitionOutcome<D>) {
    match model.next {
        None => (model, TransitionOutcome::Idle),
        Some(next) => if !model.running {
            (model, TransitionOutcome::Queued(next))
        } else if done {
            (TransitionModel { next: None, running: false, ..model }, TransitionOutcome::Complete(next))
        } else {
            (model, TransitionOutcome::Progress(model.data.unwrap()))
        },
    }
}

/// Manage room transitions
pub struct RoomTransition<D> {
    next: Option<RoomKey>,
    data: Option<D>,
    running: bool,
}

impl<D> View for RoomTransition<D> {
    type V = TransitionModel<D>;

    closed spec fn view(&self) -> TransitionModel<D> {
        TransitionModel {
            next: match self.next {
                Some(name) => Some(name@),
                None => None,
            },
            data: self.data,
            running: self.running,
        }
    }
}

/// What an executable report stands for
pub open spec fn outcome_of<T, D>(state: RoomTransitionState<T, D>) -> TransitionOutcome<D> {
    match state {
        RoomTransitionState::Idle => TransitionOutcome::Idle,
        RoomTransitionState::Queued(name) => TransitionOutcome::Queued(name@),
        RoomTransitionState::Progress(_, data) => TransitionOutcome::Progress(data),
        RoomTransitionState::Complete(name) => TransitionOutcome::Complete(name@),
    }
}

impl<D> RoomTransition<D> {
    /// A running transition has somewhere to go and data to interpolate
    #[verifier::type_invariant]
    closed spec fn well_formed(self) -> bool {
        self.running ==> self.next is Some && self.data is Some
    }
}

impl<D> Default for RoomTransition<D> {
    /// A transition with nothing queued
    fn default() -> (transition: Self)
        ensures
            transition@ == (TransitionModel::<D> { next: None, data: None, running: false }),
    {
        RoomTransition { next: None, data: None, running: false }
    }
}

impl<D: Copy> RoomTransition<D> {
    /// Queue a transition to a room
    pub fn queue(&mut self, name: RoomKey) -> (queued: Result<(), String>)
        ensures
            final(self)@ == queue_model(old(self)@, name@).0,
            queued is Ok <==> queue_model(old(self)@, name@).1,
            queued matches Err(message) ==> message@ == "Transition already queued or in progress"@,
    {
        if self.next.is_some() {
            return Err(String::from_str("Transition already queued or in progress"));
        }
        proof {
            use_type_invariant(&*self);
        }
        self.next = Some(name);
        Ok(())
    }

    /// Start the queued transition
    pub fn start(&mut self, transition_data: D) -> (started: Result<(), String>)
        ensures
            final(self)@ == start_model(old(self)@, transition_data).0,
            started is Ok <==> start_model(old(self)@, transition_data).1,
            started matches Err(message) ==> message@ == "Transition not queued or already in progress"@,
    {
        if self.next.is_none() {
            return Err(String::from_str("Transition not queued or already in progress"));
        }
        self.data = Some(transition_data);
        self.running = true;
        Ok(())
    }

    /// Report the progress of the transition; `done` tells whether its timer has run out and
    /// `fraction` is how far the timer has run
    pub fn integrate<T>(&mut self, done: bool, fraction: T) -> (state: RoomTransitionState<T, D>)
        ensures
            final(self)@ == integrate_model(old(self)@, done).0,
            outcome_of(state) == integrate_model(old(self)@, done).1,
            state matches RoomTransitionState::Progress(f, _) ==> f == fraction,
    {
        proof {
            use_type_invariant(&*self);
        }
        match &self.next {
            None => RoomTransitionState::Idle,
            Some(next) => {
                if !self.running {
                    RoomTransitionState::Queued(next.clone())
                } else if done {
                    let state = RoomTransitionState::Complete(next.clone());
                    self.running = false;
                    self.next = None;
                    state
                } else {
                    match self.data {
                        Some(data) => RoomTransitionState::Progress(fraction, data),
                        None => RoomTransitionState::Idle,
                    }
                }
            },
        }
    }
}

/// A second transition cannot be queued while one is queued or in progress, and the refusal
/// changes nothing
pub proof fn lemma_queue_refused_while_pending<D>(model: TransitionModel<D>, first: Seq<char>, second: Seq<char>)
    ensures
        queue_model(model, first).1 ==> {
            let queued = queue_model(model, first).0;
            &&& !queue_model(queued, second).1
            &&& queue_model(queued, second).0 == queued
        },
{
}

/// A transition that is queued reports itself queued until it is started; once started it
/// progresses with its data while its timer runs, completes at the room it was queued for when
/// the timer runs out, and then rests idle
pub proof fn lemma_transition_cycle<D>(name: Seq<char>, data: D)
    ensures
        ({
            let idle = TransitionModel::<D> { next: None, data: None, running: false };
            let (queued, accepted) = queue_model(idle, name);
            let (waiting, waiting_outcome) = integrate_model(queued, true);
            let (started, begun) = start_model(queued, data);
            let (moving, moving_outcome) = integrate_model(started, false);
            let (arrived, arrived_outcome) = integrate_model(moving, true);
            let (after, after_outcome) = integrate_model(arrived, false);
            &&& integrate_model(idle, true).1 == TransitionOutcome::<D>::Idle
            &&& accepted && begun
            &&& waiting == queued && waiting_outcome == TransitionOutcome::<D>::Queued(name)
            &&& moving == started && moving_outcome == TransitionOutcome::Progress(data)
            &&& arrived_outcome == TransitionOutcome::<D>::Complete(name)
            &&& after_outcome == TransitionOutcome::<D>::Idle
            &&& queue_model(arrived, name).1
        }),
{
}

} // verus!
