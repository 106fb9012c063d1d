//! The byte-level transport boundary, and the endpoint selection rule of
//! the USB setup.
//!
//! The library never performs I/O itself: callers hand it a [`Transport`]
//! implementation (a USB bulk pipe in production, a scripted device in
//! tests) and the library drives the protocol over it.

use vstd::prelude::*;

use crate::errors::TransportError;

verus! {

/// Raw byte I/O toward the device, with a per-call timeout in
/// milliseconds; `None` asks for the implementation's default. Nothing is
/// assumed of what a read returns: every caller of this trait states what
/// holds of any answer.
pub trait Transport {
    /// Receives one buffer from the device.
    fn read(&mut self, timeout_ms: Option<u64>) -> Result<Vec<u8>, TransportError>;

    /// Sends one buffer to the device.
    fn write(&mut self, data: &[u8], timeout_ms: Option<u64>) -> Result<(), TransportError>;
}

/// Direction of a USB endpoint, seen from the host.
#[derive(Debug, Clone, Copy, PartialEq, Eq)]
pub enum EndpointDirection {
    In,
    Out,
}

/// Transfer type of a USB endpoint; only bulk endpoints carry this
/// protocol.
#[derive(Debug, Clone, Copy, PartialEq, Eq)]
pub enum EndpointTransfer {
    Bulk,
    Other,
}

/// What the endpoint selection reads from a USB endpoint descriptor.
#[derive(Debug, Clone, Copy, PartialEq, Eq)]
pub struct EndpointInfo {
    pub address: u8,
    pub direction: EndpointDirection,
    pub transfer: EndpointTransfer,
}

pub open spec fn is_bulk_in(e: EndpointInfo) -> bool {
    e.transfer is Bulk && e.direction is In
}

pub open spec fn is_bulk_out(e: EndpointInfo) -> bool {
    e.transfer is Bulk && e.direction is Out
}

/// Address of the first bulk-in endpoint of a descriptor list, if any.
pub open spec fn first_bulk_in(s: Seq<EndpointInfo>) -> Option<u8>
    decreases s.len(),
{
    if s.len() == 0 {
        None
    } else if is_bulk_in(s[0]) {
        Some(s[0].address)
    } else {
        first_bulk_in(s.skip(1))
    }
}

/// Address of the first bulk-out endpoint of a descriptor list, if any.
pub open spec fn first_bulk_out(s: Seq<EndpointInfo>) -> Option<u8>
    decreases s.len(),
{
    if s.len() == 0 {
        None
    } else if is_bulk_out(s[0]) {
        Some(s[0].address)
    } else {
        first_bulk_out(s.skip(1))
    }
}

/// Picks the read and write endpoints of the device: the first bulk-in
/// and the first bulk-out endpoint of its interface. Both must exist, or
/// the device is unusable and the setup fails with `NoEndpoints`.
pub fn select_bulk_endpoints(endpoints: &Vec<EndpointInfo>) -> (r: Result<(u8, u8), TransportError>)
    ensures
        match r {
            Ok(p) => first_bulk_in(endpoints@) == Some(p.0)
                && first_bulk_out(endpoints@) == Some(p.1),
            Err(e) => e == TransportError::NoEndpoints
                && (first_bulk_in(endpoints@) is None || first_bulk_out(endpoints@) is None),
        },
{
    let s = endpoints;
    let mut in_addr: Option<u8> = None;
    let mut out_addr: Option<u8> = None;
    let mut i: usize = 0;
    proof {
        assert(s@.skip(0) =~= s@);
    }
    while i < s.len()
        invariant
            i <= s@.len(),
            match in_addr {
                Some(a) => first_bulk_in(s@) == Some(a),
                None => first_bulk_in(s@) == first_bulk_in(s@.skip(i as int)),
            },
            match out_addr {
                Some(a) => first_bulk_out(s@) == Some(a),
                None => first_bulk_out(s@) == first_bulk_out(s@.skip(i as int)),
            },
        decreases s@.len() - i,
    {
        proof {
            assert(s@.skip(i as int).skip(1) =~= s@.skip(i + 1));
            assert(s@.skip(i as int)[0] == s@[i as int]);
        }
        let e = s[i];
        let is_bulk = matches!(e.transfer, EndpointTransfer::Bulk);
        if is_bulk && matches!(e.direction, EndpointDirection::In) && in_addr.is_none() {
            in_addr = Some(e.address);
        } else if is_bulk && matches!(e.direction, EndpointDirection::Out) && out_addr.is_none() {
            out_addr = Some(e.address);
        }
        i = i + 1;
    }
    proof {
        assert(s@.skip(s@.len() as int) =~= Seq::<EndpointInfo>::empty());
    }
    match (in_addr, out_addr) {
        (Some(a), Some(b)) => Ok((a, b)),
        _ => Err(TransportError::NoEndpoints),
    }
}

} // verus!
