//! What the core knows about a peer device.
use std::sync::Arc;
use vstd::prelude::*;

verus! {

/// The identifier a device announces; devices are told apart by its text.
#[derive(Debug)]
pub struct DeviceId(pub String);

impl View for DeviceId {
    type V = Seq<char>;

    open spec fn view(&self) -> Seq<char> {
        self.0@
    }
}

impl DeviceId {
    /// Another copy of the identifier.
    pub fn duplicate(&self) -> (copy: DeviceId)
        ensures
            copy == *self,
    {
        DeviceId(self.0.clone())
    }
}

/// How far pairing with a device has come.
#[derive(Clone, Copy, Debug, PartialEq, Eq, Structural)]
pub enum PairState {
    /// Neither side trusts the other.
    NotPaired,
    /// This side has asked and waits for the peer.
    Requesting,
    /// The peer has asked and waits for this side.
    Requested,
    /// Both sides have agreed.
    Paired,
}

/// The certificate a peer presented, in DER form. A peer without one has no `Certificate` at all:
/// the bytes are never empty.
#[derive(Debug)]
pub struct Certificate {
    der: Arc<Vec<u8>>,
}

impl View for Certificate {
    type V = Seq<u8>;

    closed spec fn view(&self) -> Seq<u8> {
        self.der@
    }
}

impl Certificate {
    #[verifier::type_invariant]
    spec fn nonempty(self) -> bool {
        self.der@.len() > 0
    }

    /// The certificate with these bytes, or nothing where there are no bytes.
    pub fn from_der(der: Vec<u8>) -> (certificate: Option<Certificate>)
        ensures
            certificate is Some <==> der@.len() > 0,
            certificate matches Some(c) ==> c@ == der@,
    {
        if der.len() == 0 {
            None
        } else {
            Some(Certificate { der: Arc::new(der) })
        }
    }

    /// The bytes of the certificate.
    pub fn der(&self) -> (der: &Vec<u8>)
        ensures
            der@ == self@,
            der@.len() > 0,
    {
        proof {
            use_type_invariant(self);
        }
        &self.der
    }

    /// Another handle on the same certificate.
    pub fn duplicate(&self) -> (copy: Certificate)
        ensures
            copy == *self,
    {
        proof {
            use_type_invariant(self);
        }
        Certificate { der: Arc::clone(&self.der) }
    }

    /// Whether two certificates have the same bytes.
    pub fn same_bytes(&self, other: &Certificate) -> (same: bool)
        ensures
            same == (self@ == other@),
    {
        if self.der.len() != other.der.len() {
            return false;
        }
        let mut i: usize = 0;
        while i < self.der.len()
            invariant
                i <= self.der@.len(),
                self.der@.len() == other.der@.len(),
                forall|j: int| 0 <= j < i ==> self.der@[j] == other.der@[j],
            decreases self.der@.len() - i,
        {
            if self.der[i] != other.der[i] {
                return false;
            }
            i = i + 1;
        }
        assert(self.der@ =~= other.der@);
        true
    }
}

/// A copy of a certificate that may be absent.
pub fn duplicate_certificate(certificate: &Option<Certificate>) -> (copy: Option<Certificate>)
    ensures
        copy == *certificate,
{
    match certificate {
        Some(c) => Some(c.duplicate()),
        None => None,
    }
}

/// Everything that is recorded about one device.
#[derive(Debug)]
pub struct Device {
    pub device_id: DeviceId,
    pub name: String,
    pub device_type: String,
    pub address: String,
    pub incoming_capabilities: Arc<Vec<String>>,
    pub outgoing_capabilities: Arc<Vec<String>>,
    pub pair_state: PairState,
    /// The protocol version the device was last seen with.
    pub protocol_version: u32,
    /// The time stated with the latest pairing request, in seconds since the Unix epoch; zero if
    /// none was.
    pub pairing_timestamp: u64,
    /// The certificate that the device is expected to present again.
    pub remote_certificate: Option<Certificate>,
}

impl Device {
    /// Another copy of the record.
    pub fn duplicate(&self) -> (copy: Device)
        ensures
            copy == *self,
    {
        Device {
            device_id: self.device_id.duplicate(),
            name: self.name.clone(),
            device_type: self.device_type.clone(),
            address: self.address.clone(),
            incoming_capabilities: Arc::clone(&self.incoming_capabilities),
            outgoing_capabilities: Arc::clone(&self.outgoing_capabilities),
            pair_state: self.pair_state,
            protocol_version: self.protocol_version,
            pairing_timestamp: self.pairing_timestamp,
            remote_certificate: duplicate_certificate(&self.remote_certificate),
        }
    }
}

/// The pair state of a device, if it is known at all.
pub open spec fn pair_state_of(device: Option<Device>) -> Option<PairState> {
    match device {
        Some(d) => Some(d.pair_state),
        None => None,
    }
}

/// Reads the pair state out of a lookup's answer.
pub fn known_pair_state(device: &Option<Device>) -> (state: Option<PairState>)
    ensures
        state == pair_state_of(*device),
{
    match device {
        Some(d) => Some(d.pair_state),
        None => None,
    }
}

} // verus!
