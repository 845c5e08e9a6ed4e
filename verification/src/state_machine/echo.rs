use vstd::prelude::*;

use super::StateMachine;

verus! {

/// A position report as carried by the echo service.
///
/// The geometric fields carry IEEE-754 double-precision bit patterns, so the
/// state-machine logic that stores and forwards them stays free of
/// floating-point arithmetic; producers and consumers convert at the edge.
#[derive(Debug)]
pub struct Position {
    pub drone_id: String,
    /// Latitude in degrees, as an IEEE-754 bit pattern.
    pub latitude: u64,
    /// Longitude in degrees, as an IEEE-754 bit pattern.
    pub longitude: u64,
    /// Altitude in meters, as an IEEE-754 bit pattern.
    pub altitude_m: u64,
    /// Heading in degrees, as an IEEE-754 bit pattern.
    pub heading_deg: u64,
    /// Speed in meters per second, as an IEEE-754 bit pattern.
    pub speed_mps: u64,
    pub timestamp: u64,
}

/// The mathematical value of a [`Position`].
pub struct PositionView {
    pub drone_id: Seq<char>,
    pub latitude: u64,
    pub longitude: u64,
    pub altitude_m: u64,
    pub heading_deg: u64,
    pub speed_mps: u64,
    pub timestamp: u64,
}

impl View for Position {
    type V = PositionView;

    open spec fn view(&self) -> PositionView {
        PositionView {
            drone_id: self.drone_id@,
            latitude: self.latitude,
            longitude: self.longitude,
            altitude_m: self.altitude_m,
            heading_deg: self.heading_deg,
            speed_mps: self.speed_mps,
            timestamp: self.timestamp,
        }
    }
}

impl Clone for Position {
    fn clone(&self) -> (r: Self)
        ensures
            r == *self,
    {
        Position {
            drone_id: self.drone_id.clone(),
            latitude: self.latitude,
            longitude: self.longitude,
            altitude_m: self.altitude_m,
            heading_deg: self.heading_deg,
            speed_mps: self.speed_mps,
            timestamp: self.timestamp,
        }
    }
}

impl PartialEq for Position {
    fn eq(&self, other: &Self) -> (r: bool) {
        self.drone_id == other.drone_id && self.latitude == other.latitude && self.longitude
            == other.longitude && self.altitude_m == other.altitude_m && self.heading_deg
            == other.heading_deg && self.speed_mps == other.speed_mps && self.timestamp
            == other.timestamp
    }
}

impl vstd::std_specs::cmp::PartialEqSpecImpl for Position {
    open spec fn obeys_eq_spec() -> bool {
        true
    }

    open spec fn eq_spec(&self, other: &Self) -> bool {
        self@ == other@
    }
}

/// A state machine that echoes the most recently received position back, at
/// most once per change: a "pending" flag is set by every received position
/// and cleared by the first successful poll after it.
#[derive(Debug)]
pub struct EchoMachine {
    latest_position: Option<Position>,
    pending: bool,
}

impl EchoMachine {
    /// The most recently received position, if any.
    pub closed spec fn latest(self) -> Option<PositionView> {
        match self.latest_position {
            Some(p) => Some(p@),
            None => None,
        }
    }

    /// Whether the stored position has changed since the last poll.
    pub closed spec fn is_pending(self) -> bool {
        self.pending
    }

    pub fn new() -> (r: Self)
        ensures
            r.latest() is None,
            !r.is_pending(),
    {
        EchoMachine { latest_position: None, pending: false }
    }

    fn update_position(&mut self, pos: Position)
        ensures
            final(self).latest() == Some(pos@),
            final(self).is_pending(),
    {
        self.latest_position = Some(pos);
        self.pending = true;
    }

    fn poll_position(&mut self) -> (r: Option<Position>)
        ensures
            final(self).latest() == old(self).latest(),
            !final(self).is_pending(),
            r is Some <==> (old(self).is_pending() && old(self).latest() is Some),
            r matches Some(p) ==> old(self).latest() == Some(p@),
    {
        if self.pending {
            self.pending = false;
            match self.latest_position.as_ref() {
                Some(p) => Some(p.clone()),
                None => None,
            }
        } else {
            None
        }
    }
}

impl Default for EchoMachine {
    fn default() -> (r: Self)
        ensures
            r.latest() is None,
            !r.is_pending(),
    {
        EchoMachine::new()
    }
}

pub enum EchoInput {
    Position(Position),
}

pub enum EchoOutput {
    Position(Position),
}

impl StateMachine for EchoMachine {
    type Input = EchoInput;

    type Output = EchoOutput;

    /// A position input overwrites the stored position and marks it pending.
    fn process_input(&mut self, input: EchoInput)
        ensures
            match input {
                EchoInput::Position(pos) => final(self).latest() == Some(pos@)
                    && final(self).is_pending(),
            },
    {
        match input {
            EchoInput::Position(pos) => self.update_position(pos),
        }
    }

    /// Polling echoes the latest position exactly once after a change; a poll
    /// with no intervening input yields nothing.
    fn poll_output(&mut self) -> (r: Option<EchoOutput>)
        ensures
            final(self).latest() == old(self).latest(),
            !final(self).is_pending(),
            r is Some <==> (old(self).is_pending() && old(self).latest() is Some),
            r matches Some(out) ==> match out {
                EchoOutput::Position(p) => old(self).latest() == Some(p@),
            },
    {
        match self.poll_position() {
            Some(pos) => Some(EchoOutput::Position(pos)),
            None => None,
        }
    }
}

} // verus!
