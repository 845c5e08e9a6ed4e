use vstd::prelude::*;

use super::StateMachine;

verus! {

/// A position report from a drone.
///
/// The geometric fields carry IEEE-754 double-precision bit patterns, so the
/// state-machine logic that stores and forwards them stays free of
/// floating-point arithmetic; producers and consumers convert at the edge.
#[derive(Debug)]
pub struct Position {
    pub drone_id: String,
    /// Latitude in degrees, as an IEEE-754 bit pattern.
    pub latitude: u64,
    /// Longitude in degrees, as an IEEE-754 bit pattern.
    pub longitude: u64,
    /// Altitude in meters, as an IEEE-754 bit pattern.
    pub altitude_m: u64,
    /// Heading in degrees, as an IEEE-754 bit pattern.
    pub heading_deg: u64,
    /// Speed in meters per second, as an IEEE-754 bit pattern.
    pub speed_mps: u64,
    pub timestamp: u64,
}

/// The mathematical value of a [`Position`].
pub struct PositionView {
    pub drone_id: Seq<char>,
    pub latitude: u64,
    pub longitude: u64,
    pub altitude_m: u64,
    pub heading_deg: u64,
    pub speed_mps: u64,
    pub timestamp: u64,
}

impl View for Position {
    type V = PositionView;

    open spec fn view(&self) -> PositionView {
        PositionView {
            drone_id: self.drone_id@,
            latitude: self.latitude,
            longitude: self.longitude,
            altitude_m: self.altitude_m,
            heading_deg: self.heading_deg,
            speed_mps: self.speed_mps,
            timestamp: self.timestamp,
        }
    }
}

impl Clone for Position {
    fn clone(&self) -> (r: Self)
        ensures
            r == *self,
    {
        Position {
            drone_id: self.drone_id.clone(),
            latitude: self.latitude,
            longitude: self.longitude,
            altitude_m: self.altitude_m,
            heading_deg: self.heading_deg,
            speed_mps: self.speed_mps,
            timestamp: self.timestamp,
        }
    }
}

impl PartialEq for Position {
    fn eq(&self, other: &Self) -> (r: bool) {
        self.drone_id == other.drone_id && self.latitude == other.latitude && self.longitude
            == other.longitude && self.altitude_m == other.altitude_m && self.heading_deg
            == other.heading_deg && self.speed_mps == other.speed_mps && self.timestamp
            == other.timestamp
    }
}

impl vstd::std_specs::cmp::PartialEqSpecImpl for Position {
    open spec fn obeys_eq_spec() -> bool {
        true
    }

    open spec fn eq_spec(&self, other: &Self) -> bool {
        self@ == other@
    }
}

/// A state machine that keeps the most recently reported position and hands
/// it out at most once per change: a "pending" flag is set by every update
/// and cleared by the first successful poll after it.
pub struct TelemetryMachine {
    latest_position: Option<Position>,
    pending: bool,
}

impl TelemetryMachine {
    /// The most recently stored position, if any.
    pub closed spec fn latest(self) -> Option<PositionView> {
        match self.latest_position {
            Some(p) => Some(p@),
            None => None,
        }
    }

    /// Whether the stored position has changed since the last poll.
    pub closed spec fn is_pending(self) -> bool {
        self.pending
    }

    pub fn new() -> (r: Self)
        ensures
            r.latest() is None,
            !r.is_pending(),
    {
        TelemetryMachine { latest_position: None, pending: false }
    }

    /// The current position, regardless of whether it has been polled.
    pub fn current_position(&self) -> (r: Option<&Position>)
        ensures
            r is Some <==> self.latest() is Some,
            r matches Some(p) ==> self.latest() == Some(p@),
    {
        self.latest_position.as_ref()
    }

    /// Whether a poll would currently yield an update.
    pub fn has_pending(&self) -> (r: bool)
        ensures
            r == self.is_pending(),
    {
        self.pending
    }

    fn update_position(&mut self, pos: Position)
        ensures
            final(self).latest() == Some(pos@),
            final(self).is_pending(),
    {
        self.latest_position = Some(pos);
        self.pending = true;
    }

    fn poll_position(&mut self) -> (r: Option<Position>)
        ensures
            final(self).latest() == old(self).latest(),
            !final(self).is_pending(),
            r is Some <==> (old(self).is_pending() && old(self).latest() is Some),
            r matches Some(p) ==> old(self).latest() == Some(p@),
    {
        if self.pending {
            self.pending = false;
            match self.latest_position.as_ref() {
                Some(p) => Some(p.clone()),
                None => None,
            }
        } else {
            None
        }
    }
}

impl Default for TelemetryMachine {
    fn default() -> (r: Self)
        ensures
            r.latest() is None,
            !r.is_pending(),
    {
        TelemetryMachine::new()
    }
}

pub enum TelemetryInput {
    Position(Position),
}

pub enum TelemetryOutput {
    PositionUpdate(Position),
}

impl StateMachine for TelemetryMachine {
    type Input = TelemetryInput;

    type Output = TelemetryOutput;

    /// A position input overwrites the stored position and marks it pending.
    fn process_input(&mut self, input: TelemetryInput)
        ensures
            match input {
                TelemetryInput::Position(pos) => final(self).latest() == Some(pos@)
                    && final(self).is_pending(),
            },
    {
        match input {
            TelemetryInput::Position(pos) => self.update_position(pos),
        }
    }

    /// Polling yields the latest position exactly once after a change; a poll
    /// with no intervening update yields nothing. The stored position itself
    /// remains queryable afterwards.
    fn poll_output(&mut self) -> (r: Option<TelemetryOutput>)
        ensures
            final(self).latest() == old(self).latest(),
            !final(self).is_pending(),
            r is Some <==> (old(self).is_pending() && old(self).latest() is Some),
            r matches Some(out) ==> match out {
                TelemetryOutput::PositionUpdate(p) => old(self).latest() == Some(p@),
            },
    {
        match self.poll_position() {
            Some(pos) => Some(TelemetryOutput::PositionUpdate(pos)),
            None => None,
        }
    }
}

} // verus!
