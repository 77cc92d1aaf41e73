//! A zone that sends whatever falls into it back to the spawn point.
//!
//! A body that enters is held, with its collision shape switched off, until
//! the zone's timer runs out; then it appears at the spawn point of the
//! session's scene with its shape switched on again.  While a body is held
//! the zone does not listen for others; it listens again when the timer
//! runs out with no body held.

use crate::errors::RustLibError;
use crate::vector::Vector2;
use vstd::prelude::*;

verus! {

/// What the zone found out about the spawn point when the timer ran out.
#[derive(Debug)]
pub enum SpawnLookup {
    /// The session could not be had.
    NoSession,
    /// The session answered.
    Answered(Result<Option<Vector2>, RustLibError>),
}

/// What the zone asks of the engine.
#[derive(Clone, Copy, Debug, PartialEq, Eq, Structural)]
pub enum KillZoneStep {
    /// Stop listening for bodies, switch the body's shape off, and start
    /// the timer.
    Hold,
    /// Listen for bodies again.
    Listen,
    /// Switch the held body's shape on and leave it be; the timer does not
    /// run.
    Release,
    /// Switch the held body's shape on, put it at the position if there is
    /// one, and start the timer.
    Respawn(Option<Vector2>),
}

/// The state of a kill zone.
#[derive(Clone, Copy, Debug, PartialEq, Eq, Structural)]
pub struct KillZoneArea {
    /// Whether a body is held.
    pub holds_body: bool,
}

/// Where a held body is put, by what the session answered.
pub open spec fn respawn_position(answer: Result<Option<Vector2>, RustLibError>) -> Option<Vector2> {
    match answer {
        Ok(spawn_point) => spawn_point,
        Err(_) => None,
    }
}

impl KillZoneArea {
    pub fn new() -> (zone: KillZoneArea)
        ensures
            !zone.holds_body,
    {
        KillZoneArea { holds_body: false }
    }

    /// A body has entered: it is held.
    pub fn on_body_entered(&mut self) -> (step: KillZoneStep)
        ensures
            step == KillZoneStep::Hold,
            final(self).holds_body,
    {
        self.holds_body = true;
        KillZoneStep::Hold
    }

    /// The timer has run out.  With no body held the zone listens again.  A
    /// held body is let go at the spawn point, or where it is if the
    /// session does not know one; without a session it is kept.
    pub fn on_timer_timeout(&mut self, lookup: &SpawnLookup) -> (step: KillZoneStep)
        ensures
            step == if !old(self).holds_body {
                KillZoneStep::Listen
            } else {
                match lookup {
                    SpawnLookup::NoSession => KillZoneStep::Release,
                    SpawnLookup::Answered(answer) => KillZoneStep::Respawn(
                        respawn_position(*answer),
                    ),
                }
            },
            final(self).holds_body == (old(self).holds_body && lookup is NoSession),
    {
        if !self.holds_body {
            return KillZoneStep::Listen;
        }
        match lookup {
            SpawnLookup::NoSession => KillZoneStep::Release,
            SpawnLookup::Answered(answer) => {
                self.holds_body = false;
                match answer {
                    Ok(spawn_point) => KillZoneStep::Respawn(*spawn_point),
                    Err(_) => KillZoneStep::Respawn(None),
                }
            },
        }
    }
}

impl Default for KillZoneArea {
    fn default() -> (zone: KillZoneArea)
        ensures
            !zone.holds_body,
    {
        KillZoneArea::new()
    }
}

} // verus!
