//! Two outputs that drive the track in opposition, toggled as one.

use vstd::prelude::*;
use crate::dcc::Error;
use crate::host::{Op, Outcome, Pin, Turn, outcome, outcome_at};

verus! {

/// The pair of outputs.  In the state `true` the first output is high and
/// the second is low; in the state `false` it is the other way round.
pub struct TogglePins {
    state: bool,
}

impl View for TogglePins {
    type V = bool;

    closed spec fn view(&self) -> bool {
        self.state
    }
}

/// The two operations that bring the outputs to the state `state`, the first
/// output first: what `io` has to hold for them, the operation that is
/// needed next, or the failure of one of them.
pub open spec fn drive_pair(state: bool, io: Seq<Outcome>) -> Turn<(), Error> {
    match outcome_at(io, 0) {
        None => Turn::Need(Op::Drive(Pin::TrackA, state)),
        Some(o) => if !o.is_done() {
            Turn::Failed(Error::IOError)
        } else {
            match outcome_at(io, 1) {
                None => Turn::Need(Op::Drive(Pin::TrackB, !state)),
                Some(o) => if !o.is_done() {
                    Turn::Failed(Error::IOError)
                } else {
                    Turn::Done(())
                },
            }
        },
    }
}

fn drive(state: bool, io: &[Outcome]) -> (turn: Turn<(), Error>)
    ensures
        turn == drive_pair(state, io@),
{
    match outcome(io, 0) {
        None => Turn::Need(Op::Drive(Pin::TrackA, state)),
        Some(o) => if !o.is_done() {
            Turn::Failed(Error::IOError)
        } else {
            match outcome(io, 1) {
                None => Turn::Need(Op::Drive(Pin::TrackB, !state)),
                Some(o) => if !o.is_done() {
                    Turn::Failed(Error::IOError)
                } else {
                    Turn::Done(())
                },
            }
        },
    }
}

impl TogglePins {
    /// Brings the first output high and the second low.
    pub fn new(io: &[Outcome]) -> (turn: Turn<TogglePins, Error>)
        ensures
            match drive_pair(true, io@) {
                Turn::Need(op) => turn == Turn::<TogglePins, Error>::Need(op),
                Turn::Failed(e) => turn == Turn::<TogglePins, Error>::Failed(e),
                _ => turn is Done && turn->Done_0@ == true,
            },
    {
        match drive(true, io) {
            Turn::Need(op) => Turn::Need(op),
            Turn::Failed(e) => Turn::Failed(e),
            _ => Turn::Done(TogglePins { state: true }),
        }
    }

    /// Exchanges the levels of the two outputs.  The state changes only
    /// when both outputs have been driven.
    pub fn toggle(&mut self, io: &[Outcome]) -> (turn: Turn<(), Error>)
        ensures
            turn == drive_pair(!old(self)@, io@),
            final(self)@ == if turn is Done {
                !old(self)@
            } else {
                old(self)@
            },
    {
        let turn = drive(!self.state, io);
        match turn {
            Turn::Done(()) => {
                self.state = !self.state;
            },
            _ => {},
        }
        turn
    }
}

} // verus!
