use std::collections::HashMap;
use vstd::prelude::*;

use crate::address::SocketAddress;
use crate::codec::{decode, decoded_impulse, impulse_frame, lemma_round_trip};
use crate::error::{BuildError, CommunicationError};

verus! {

/// The behaviour that a dispatch table selects for a received datagram: the
/// one registered under the identifier the datagram decodes to, if any.
pub open spec fn dispatched_behavior<B>(fibers: Map<u16, B>, datagram: Seq<u8>) -> Option<B> {
    match decoded_impulse(datagram) {
        Some(id) => if fibers.contains_key(id) {
            Some(fibers[id])
        } else {
            None
        },
        None => None,
    }
}

/// Registering an impulse twice leaves only the second behaviour: the table
/// is the one that the second registration alone would give, and the
/// impulse's frame then selects the second behaviour.
pub proof fn lemma_latest_fiber_wins<B: Fn(A) -> R, A, R>(
    motor: Motor<B, A, R>,
    impulse: u16,
    first: B,
    second: B,
)
    ensures
        ({
            let after = motor.fibers@.insert(impulse, first).insert(impulse, second);
            &&& after == motor.fibers@.insert(impulse, second)
            &&& dispatched_behavior(after, impulse_frame(impulse)) == Some(second)
        }),
{
    lemma_round_trip(impulse);
    assert(motor.fibers@.insert(impulse, first).insert(impulse, second)
        =~= motor.fibers@.insert(impulse, second));
}

/// Receiving end of a tract: maps each impulse identifier (fiber ID) to a
/// behaviour and runs it when a datagram carrying that identifier arrives.
/// `B` is the behaviour, `A` its argument and `R` its result, the same for
/// every behaviour of one receiver.
#[verifier::reject_recursive_types(B)]
#[verifier::reject_recursive_types(A)]
#[verifier::reject_recursive_types(R)]
pub struct Motor<B: Fn(A) -> R, A, R> {
    /// Name of the tract; the matching emitter shares it.
    pub tract_name: String,
    /// The address the socket is actually bound to.
    pub address: SocketAddress,
    /// Maps each fiber ID to the behaviour run whenever it is received.
    pub fibers: HashMap<u16, B>,
    /// Ties the argument and result types to the receiver.
    pub phantom_data: std::marker::PhantomData<(A, R)>,
}

impl<B: Fn(A) -> R, A, R> Motor<B, A, R> {
    /// Creates a receiver from the outcome of binding its socket: `bound` is
    /// the address the socket actually got (with the system-assigned port
    /// when port 0 was asked for), or the error that binding gave.
    pub fn new(tract_name: &str, bound: Result<SocketAddress, std::io::Error>) -> (r: Result<
        Self,
        BuildError,
    >)
        ensures
            bound is Ok <==> r is Ok,
            r matches Ok(m) ==> {
                &&& m.tract_name@ == tract_name@
                &&& bound == Ok::<SocketAddress, std::io::Error>(m.address)
                &&& m.fibers@ == Map::<u16, B>::empty()
            },
            bound matches Err(e) ==> r == Err::<Self, BuildError>(BuildError::SocketFailed(e)),
    {
        match bound {
            Ok(address) => Ok(Motor {
                tract_name: tract_name.to_string(),
                address,
                fibers: HashMap::new(),
                phantom_data: std::marker::PhantomData,
            }),
            Err(e) => Err(BuildError::SocketFailed(e)),
        }
    }

    /// Maps an impulse to a behaviour. An existing entry for the same impulse
    /// is replaced without notice.
    pub fn add_fiber(&mut self, impulse: u16, behavior: B)
        ensures
            final(self).fibers@ == old(self).fibers@.insert(impulse, behavior),
            final(self).tract_name == old(self).tract_name,
            final(self).address == old(self).address,
    {
        self.fibers.insert(impulse, behavior);
    }

    /// Handles one receive on the socket. `received` is the outcome of that
    /// receive, the number of bytes it wrote to the front of `buffer`; only
    /// those bytes are read. The datagram is decoded as an impulse and the
    /// behaviour registered for it is run on `args`.
    pub fn recv_impulse(&self, buffer: &[u8], received: Result<usize, std::io::Error>, args: A) -> (r:
        Result<R, CommunicationError>)
        requires
            received matches Ok(n) ==> n <= buffer@.len(),
            forall|id: u16| #[trigger]
                self.fibers@.contains_key(id) ==> call_requires(self.fibers@[id], (args,)),
        ensures
            received matches Err(e) ==> r == Err::<R, CommunicationError>(
                CommunicationError::SocketFailed(e),
            ),
            received matches Ok(n) ==> {
                let datagram = buffer@.take(n as int);
                match decoded_impulse(datagram) {
                    None => r matches Err(CommunicationError::SerdeFailed(_)),
                    Some(id) => match dispatched_behavior(self.fibers@, datagram) {
                        Some(b) => r matches Ok(v) && call_ensures(b, (args,), v),
                        None => r == Err::<R, CommunicationError>(
                            CommunicationError::UnrecognizedImpulse(id),
                        ),
                    },
                }
            },
    {
        let n_bytes = match received {
            Ok(n) => n,
            Err(e) => return Err(CommunicationError::SocketFailed(e)),
        };
        let buff = vstd::slice::slice_subrange(buffer, 0, n_bytes);
        let impulse = match decode(buff) {
            Ok(id) => id,
            Err(e) => return Err(CommunicationError::SerdeFailed(e)),
        };
        match self.fibers.get(&impulse) {
            Some(behavior) => Ok(behavior(args)),
            None => Err(CommunicationError::UnrecognizedImpulse(impulse)),
        }
    }

    /// The tract's name.
    pub fn tract_name(&self) -> (r: &str)
        ensures
            r@ == self.tract_name@,
    {
        self.tract_name.as_str()
    }

    /// How many impulses have a registered behaviour.
    pub fn num_fibers(&self) -> (r: usize)
        ensures
            r == self.fibers@.len(),
    {
        self.fibers.len()
    }

    /// The address the receiver is bound to.
    pub fn tract_address(&self) -> (r: SocketAddress)
        ensures
            r == self.address,
    {
        self.address
    }
}

} // verus!
