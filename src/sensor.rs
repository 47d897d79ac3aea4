use std::collections::HashMap;
use std::hash::Hash;
use vstd::prelude::*;
use vstd::std_specs::hash::obeys_key_model;

use crate::address::SocketAddress;
use crate::codec::{encode, impulse_frame};
use crate::error::{BuildError, CommunicationError};

verus! {

/// The datagram that a symbol table sends for a symbol: the frame of the
/// identifier registered for it, or nothing when the symbol is unregistered.
pub open spec fn symbol_frame<Q>(spectrum: Map<Q, u16>, quantum: Q) -> Option<Seq<u8>> {
    if spectrum.contains_key(quantum) {
        Some(impulse_frame(spectrum[quantum]))
    } else {
        None
    }
}

/// Registering a symbol twice leaves only the second identifier: the table
/// is the one that the second registration alone would give, and the symbol
/// is then sent as the second identifier's frame.
pub proof fn lemma_latest_receptor_wins<Q: Hash + Eq>(
    sensor: Sensor<Q>,
    quantum: Q,
    first: u16,
    second: u16,
)
    ensures
        ({
            let after = sensor.spectrum@.insert(quantum, first).insert(quantum, second);
            &&& after == sensor.spectrum@.insert(quantum, second)
            &&& symbol_frame(after, quantum) == Some(impulse_frame(second))
        }),
{
    assert(sensor.spectrum@.insert(quantum, first).insert(quantum, second)
        =~= sensor.spectrum@.insert(quantum, second));
}

/// Sending end of a tract: maps each symbol (`Q`, a quantised datum or any
/// key that should trigger an impulse) to the impulse identifier sent for it.
pub struct Sensor<Q: Hash + Eq> {
    /// Name of the tract; the matching receiver shares it.
    pub tract_name: String,
    /// The address the socket is bound to, or the peer once connected.
    pub address: SocketAddress,
    /// Maps each symbol to the fiber ID sent for it.
    pub spectrum: HashMap<Q, u16>,
}

impl<Q: Hash + Eq> Sensor<Q> {
    /// Creates an emitter from the outcome of binding its socket: `bound` is
    /// the address the socket actually got (with the system-assigned port
    /// when port 0 was asked for), or the error that binding gave.
    pub fn new(tract_name: &str, bound: Result<SocketAddress, std::io::Error>) -> (r: Result<
        Self,
        BuildError,
    >)
        ensures
            bound is Ok <==> r is Ok,
            r matches Ok(s) ==> {
                &&& s.tract_name@ == tract_name@
                &&& bound == Ok::<SocketAddress, std::io::Error>(s.address)
                &&& s.spectrum@ == Map::<Q, u16>::empty()
            },
            bound matches Err(e) ==> r == Err::<Self, BuildError>(BuildError::SocketFailed(e)),
    {
        match bound {
            Ok(address) => Ok(Sensor {
                tract_name: tract_name.to_string(),
                address,
                spectrum: HashMap::new(),
            }),
            Err(e) => Err(BuildError::SocketFailed(e)),
        }
    }

    /// Maps a symbol to an impulse identifier. An existing entry for the same
    /// symbol is replaced without notice.
    pub fn add_receptor(&mut self, quantum: Q, fid: u16)
        requires
            obeys_key_model::<Q>(),
        ensures
            final(self).spectrum@ == old(self).spectrum@.insert(quantum, fid),
            final(self).tract_name == old(self).tract_name,
            final(self).address == old(self).address,
    {
        self.spectrum.insert(quantum, fid);
    }

    /// Records the outcome of connecting the socket to `remote`: on success
    /// the peer becomes the recorded address; on failure nothing changes.
    pub fn connect(&mut self, remote: &SocketAddress, connected: Result<(), std::io::Error>) -> (r:
        Result<(), BuildError>)
        ensures
            connected is Ok <==> r is Ok,
            connected matches Err(e) ==> r == Err::<(), BuildError>(BuildError::SocketFailed(e)),
            final(self).address == (if connected is Ok {
                *remote
            } else {
                old(self).address
            }),
            final(self).tract_name == old(self).tract_name,
            final(self).spectrum@ == old(self).spectrum@,
    {
        match connected {
            Ok(()) => {
                self.address = *remote;
                Ok(())
            },
            Err(e) => Err(BuildError::SocketFailed(e)),
        }
    }

    /// Resolves a symbol to the one datagram that carries its impulse. An
    /// unregistered symbol gives `UnrecognizedTrigger` with the tract's name,
    /// and no datagram.
    pub fn send_impulse(&self, quantum: &Q) -> (r: Result<Vec<u8>, CommunicationError>)
        requires
            obeys_key_model::<Q>(),
        ensures
            r is Ok <==> self.spectrum@.contains_key(*quantum),
            r matches Ok(datagram) ==> symbol_frame(self.spectrum@, *quantum) == Some(datagram@),
            r matches Err(e) ==> e matches CommunicationError::UnrecognizedTrigger(name)
                && name@ == self.tract_name@,
    {
        match self.spectrum.get(quantum) {
            Some(nid) => match encode(*nid) {
                Ok(datagram) => Ok(datagram),
                Err(e) => Err(CommunicationError::SerdeFailed(e)),
            },
            None => {
                let name = self.tract_name.clone();
                Err(CommunicationError::UnrecognizedTrigger(name))
            },
        }
    }

    /// Records the outcome of retargeting the socket at `target_address`: on
    /// success the target becomes the recorded address; on failure nothing
    /// changes and the error is handed back.
    pub fn set_target_address(
        &mut self,
        target_address: SocketAddress,
        connected: Result<(), std::io::Error>,
    ) -> (r: Result<(), std::io::Error>)
        ensures
            r == connected,
            final(self).address == (if connected is Ok {
                target_address
            } else {
                old(self).address
            }),
            final(self).tract_name == old(self).tract_name,
            final(self).spectrum@ == old(self).spectrum@,
    {
        if connected.is_ok() {
            self.address = target_address;
        }
        connected
    }

    /// The tract's name.
    pub fn tract_name(&self) -> (r: &str)
        ensures
            r@ == self.tract_name@,
    {
        self.tract_name.as_str()
    }

    /// How many symbols have a registered impulse.
    pub fn num_fibers(&self) -> (r: usize)
        requires
            obeys_key_model::<Q>(),
        ensures
            r == self.spectrum@.len(),
    {
        self.spectrum.len()
    }

    /// The address currently recorded: the bound address, or the peer once
    /// connected.
    pub fn tract_address(&self) -> (r: SocketAddress)
        ensures
            r == self.address,
    {
        self.address
    }
}

} // verus!
