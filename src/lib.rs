//! Point-to-point impulse signalling: an emitter (`Sensor`) maps symbols to
//! 16-bit impulse identifiers and frames them as datagrams; a receiver
//! (`Motor`) decodes such datagrams and dispatches them to registered
//! behaviours. The socket work itself is done by the caller, which hands the
//! library the outcome of each transport operation.
use vstd::prelude::*;
use std::hash::Hash;

use crate::codec::lemma_round_trip;
use crate::motor::{dispatched_behavior, Motor};
use crate::sensor::{symbol_frame, Sensor};

pub mod address;
pub mod codec;
pub mod error;
pub mod motor;
pub mod sensor;

verus! {

/// For every symbol registered with an emitter, the datagram it sends for
/// that symbol makes a receiver whose table holds the symbol's identifier
/// select exactly the behaviour registered for that identifier.
pub proof fn lemma_transmit_dispatches<Q: Hash + Eq, B: Fn(A) -> R, A, R>(
    sensor: Sensor<Q>,
    motor: Motor<B, A, R>,
    quantum: Q,
)
    requires
        sensor.spectrum@.contains_key(quantum),
        motor.fibers@.contains_key(sensor.spectrum@[quantum]),
    ensures
        symbol_frame(sensor.spectrum@, quantum) matches Some(datagram) && dispatched_behavior(
            motor.fibers@,
            datagram,
        ) == Some(motor.fibers@[sensor.spectrum@[quantum]]),
{
    lemma_round_trip(sensor.spectrum@[quantum]);
}

} // verus!
