//! Parameter store: the structured reference string specialized to one ring
//! size.
//!
//! A `RingParams` value is built once from the serialized SRS and the ring
//! size of the deployment, and is immutable afterwards; every proving and
//! verification operation takes it as an explicit handle.

use vstd::prelude::*;
use crate::Error;
use crate::backend;

verus! {

/// Ring-size-specific proving and verification parameters, derived from a
/// trusted-setup SRS.
pub struct RingParams {
    /// The opaque parameters of the proof system.
    params: backend::ParamsHandle,
    /// The ring size every commitment and proof is bound to.
    count: usize,
    /// The largest ring the parameters can handle; at least `count`.
    max: usize,
    /// The SRS bytes the parameters were derived from. The pairing of these
    /// bytes with the opaque handle is established by `new` and, the fields
    /// being private, cannot be made otherwise.
    srs_bytes: Ghost<Seq<u8>>,
}

impl RingParams {
    /// The SRS bytes these parameters were derived from.
    pub closed spec fn srs(self) -> Seq<u8> {
        self.srs_bytes@
    }

    /// The ring size these parameters are specialized to.
    pub closed spec fn size(self) -> nat {
        self.count as nat
    }

    /// The capacity bound of the underlying proof system.
    pub closed spec fn max_ring(self) -> nat {
        self.max as nat
    }

    /// The parameters can handle rings of their own size.
    pub closed spec fn wf(self) -> bool {
        self.count <= self.max
    }

    /// The opaque handle, for the trusted boundary.
    pub(crate) fn handle(&self) -> &backend::ParamsHandle {
        &self.params
    }

    /// Derives parameters for the given ring size from serialized SRS bytes.
    /// Failure is a fatal configuration error: no proof can be produced or
    /// checked without parameters, so callers are expected to abort on it.
    pub fn new(srs: &[u8], ring_size: usize) -> (r: Result<RingParams, Error>)
        ensures
            r.is_ok() <==> ring_size <= crate::MAX_RING_SIZE && backend::srs_accepts(
                srs@,
                ring_size as nat,
            ),
            r matches Ok(p) ==> p.wf() && p.srs() == srs@ && p.size() == ring_size as nat,
            r matches Err(e) ==> e == (if ring_size > crate::MAX_RING_SIZE {
                Error::InvalidInput
            } else {
                Error::DecodeFailure
            }),
    {
        if ring_size > crate::MAX_RING_SIZE {
            return Err(Error::InvalidInput);
        }
        match backend::mk_params(srs, ring_size) {
            Some((params, max)) => Ok(RingParams {
                params,
                count: ring_size,
                max,
                srs_bytes: Ghost(srs@),
            }),
            None => Err(Error::DecodeFailure),
        }
    }

    /// The ring size these parameters are specialized to.
    pub fn ring_size(&self) -> (n: usize)
        ensures
            n as nat == self.size(),
    {
        self.count
    }

    /// The largest ring the parameters can handle.
    pub fn max_ring_size(&self) -> (n: usize)
        ensures
            n as nat == self.max_ring(),
    {
        self.max
    }

    /// Well-formed parameters can handle rings of their own size.
    pub proof fn wf_bound(self)
        requires
            self.wf(),
        ensures
            self.size() <= self.max_ring(),
    {
    }
}

} // verus!
