//! The owned reader handle: one native resource reference, held by exactly
//! one value from construction to release.
//!
//! The handle does not reach into the native library itself. For each
//! operation the caller invokes the native entry point with the reference
//! from [`NTupleReader::as_raw`] and hands the status-tagged reply to the
//! method of that operation, which translates it.

use crate::status::{BoolResult, CharResult, DoubleResult, IntResult, ShortResult, VoidResult};
use vstd::prelude::*;

verus! {

/// Owning handle over one native reader.
///
/// The native reference is kept as its address. It is never null, and the
/// handle can be neither copied nor cloned, so the reference has one owner
/// from construction until [`NTupleReader::release`] consumes the handle.
#[derive(Debug)]
pub struct NTupleReader {
    native: usize,
}

impl NTupleReader {
    #[verifier::type_invariant]
    spec fn non_null(self) -> bool {
        self.native != 0
    }

    /// The address of the native reader that this handle owns.
    pub closed spec fn native_ref(self) -> usize {
        self.native
    }

    /// Takes ownership of a reader that the native "create" entry point has
    /// just returned.
    pub fn new(native: usize) -> (r: Self)
        requires
            native != 0,
        ensures
            r.native_ref() == native,
            r.native_ref() != 0,
    {
        NTupleReader { native }
    }

    /// Takes ownership of a reader that the native "create-from-tree" entry
    /// point has just returned for a named data tree.
    pub fn from_tree(native: usize) -> (r: Self)
        requires
            native != 0,
        ensures
            r.native_ref() == native,
            r.native_ref() != 0,
    {
        NTupleReader { native }
    }

    /// The native reference to hand to an entry point. Taking the handle by
    /// mutable reference keeps at most one native call in flight per reader.
    pub fn as_raw(&mut self) -> (raw: usize)
        ensures
            raw == old(self).native_ref(),
            raw != 0,
            *final(self) == *old(self),
    {
        proof {
            use_type_invariant(&*self);
        }
        self.native
    }

    /// Completes "advance to the next entry" with the native reply: yields
    /// whether another entry was available, exactly as reported.
    pub fn next_entry(&mut self, reply: BoolResult) -> (more: bool)
        requires
            reply.status.spec_is_ok(),
        ensures
            more == reply.res,
            *final(self) == *old(self),
    {
        reply.into_value()
    }

    /// Completes "set the PDF set by name" with the native reply. The operation
    /// has no payload; the handle keeps its native reference.
    pub fn set_pdf(&mut self, reply: VoidResult)
        requires
            reply.status.spec_is_ok(),
        ensures
            *final(self) == *old(self),
    {
        reply.into_value()
    }

    /// Completes "set the PDF member index" with the native reply. The
    /// operation has no payload; the handle keeps its native reference.
    pub fn set_pdf_member(&mut self, reply: VoidResult)
        requires
            reply.status.spec_is_ok(),
        ensures
            *final(self) == *old(self),
    {
        reply.into_value()
    }

    /// Completes "get the event id" with the native reply: yields the
    /// identifier of the current event, exactly as reported.
    pub fn get_id(&mut self, reply: IntResult) -> (id: i32)
        requires
            reply.status.spec_is_ok(),
        ensures
            id == reply.res,
            *final(self) == *old(self),
    {
        reply.into_value()
    }

    /// Completes "get the particle count" with the native reply: yields the
    /// number of particles in the current event, exactly as reported.
    pub fn get_particle_number(&mut self, reply: IntResult) -> (count: i32)
        requires
            reply.status.spec_is_ok(),
        ensures
            count == reply.res,
            *final(self) == *old(self),
    {
        reply.into_value()
    }

    /// Completes "get the energy of a particle" with the native reply: yields
    /// the energy of the particle that was asked for as the bits of a 64-bit
    /// float, exactly as reported.
    pub fn get_energy(&mut self, reply: DoubleResult) -> (bits: u64)
        requires
            reply.status.spec_is_ok(),
        ensures
            bits == reply.res,
            *final(self) == *old(self),
    {
        reply.into_value()
    }

    /// Completes "get the x momentum of a particle" with the native reply:
    /// yields the x momentum of the particle that was asked for as the bits of
    /// a 64-bit float, exactly as reported.
    pub fn get_x(&mut self, reply: DoubleResult) -> (bits: u64)
        requires
            reply.status.spec_is_ok(),
        ensures
            bits == reply.res,
            *final(self) == *old(self),
    {
        reply.into_value()
    }

    /// Completes "get the y momentum of a particle" with the native reply:
    /// yields the y momentum of the particle that was asked for as the bits of
    /// a 64-bit float, exactly as reported.
    pub fn get_y(&mut self, reply: DoubleResult) -> (bits: u64)
        requires
            reply.status.spec_is_ok(),
        ensures
            bits == reply.res,
            *final(self) == *old(self),
    {
        reply.into_value()
    }

    /// Completes "get the z momentum of a particle" with the native reply:
    /// yields the z momentum of the particle that was asked for as the bits of
    /// a 64-bit float, exactly as reported.
    pub fn get_z(&mut self, reply: DoubleResult) -> (bits: u64)
        requires
            reply.status.spec_is_ok(),
        ensures
            bits == reply.res,
            *final(self) == *old(self),
    {
        reply.into_value()
    }

    /// Completes "get the PDG code of a particle" with the native reply: yields
    /// the PDG code of the particle that was asked for, exactly as reported.
    pub fn get_pdg_code(&mut self, reply: IntResult) -> (code: i32)
        requires
            reply.status.spec_is_ok(),
        ensures
            code == reply.res,
            *final(self) == *old(self),
    {
        reply.into_value()
    }

    /// Completes "get the Bjorken x of the first incoming parton" with the
    /// native reply: yields the momentum fraction of the first incoming parton
    /// as the bits of a 64-bit float, exactly as reported.
    pub fn get_x1(&mut self, reply: DoubleResult) -> (bits: u64)
        requires
            reply.status.spec_is_ok(),
        ensures
            bits == reply.res,
            *final(self) == *old(self),
    {
        reply.into_value()
    }

    /// Completes "get the Bjorken x of the second incoming parton" with the
    /// native reply: yields the momentum fraction of the second incoming parton
    /// as the bits of a 64-bit float, exactly as reported.
    pub fn get_x2(&mut self, reply: DoubleResult) -> (bits: u64)
        requires
            reply.status.spec_is_ok(),
        ensures
            bits == reply.res,
            *final(self) == *old(self),
    {
        reply.into_value()
    }

    /// Completes "get the id of the first incoming parton" with the native
    /// reply: yields the parton id of the first incoming parton as the bits of
    /// a 64-bit float, exactly as reported.
    pub fn get_id1(&mut self, reply: DoubleResult) -> (bits: u64)
        requires
            reply.status.spec_is_ok(),
        ensures
            bits == reply.res,
            *final(self) == *old(self),
    {
        reply.into_value()
    }

    /// Completes "get the id of the second incoming parton" with the native
    /// reply: yields the parton id of the second incoming parton as the bits of
    /// a 64-bit float, exactly as reported.
    pub fn get_id2(&mut self, reply: DoubleResult) -> (bits: u64)
        requires
            reply.status.spec_is_ok(),
        ensures
            bits == reply.res,
            *final(self) == *old(self),
    {
        reply.into_value()
    }

    /// Completes "get the power of the strong coupling" with the native reply:
    /// yields the power of the strong coupling in the current event, exactly as
    /// reported.
    pub fn get_alphas_power(&mut self, reply: ShortResult) -> (power: i16)
        requires
            reply.status.spec_is_ok(),
        ensures
            power == reply.res,
            *final(self) == *old(self),
    {
        reply.into_value()
    }

    /// Completes "get the renormalization scale" with the native reply: yields
    /// the renormalization scale of the current event as the bits of a 64-bit
    /// float, exactly as reported.
    pub fn get_renormalization_scale(&mut self, reply: DoubleResult) -> (bits: u64)
        requires
            reply.status.spec_is_ok(),
        ensures
            bits == reply.res,
            *final(self) == *old(self),
    {
        reply.into_value()
    }

    /// Completes "get the factorization scale" with the native reply: yields
    /// the factorization scale of the current event as the bits of a 64-bit
    /// float, exactly as reported.
    pub fn get_factorization_scale(&mut self, reply: DoubleResult) -> (bits: u64)
        requires
            reply.status.spec_is_ok(),
        ensures
            bits == reply.res,
            *final(self) == *old(self),
    {
        reply.into_value()
    }

    /// Completes "get the event weight" with the native reply: yields the
    /// weight of the current event as the bits of a 64-bit float, exactly as
    /// reported.
    pub fn get_weight(&mut self, reply: DoubleResult) -> (bits: u64)
        requires
            reply.status.spec_is_ok(),
        ensures
            bits == reply.res,
            *final(self) == *old(self),
    {
        reply.into_value()
    }

    /// Completes "get the event weight in the second basis" with the native
    /// reply: yields the weight of the current event in the second basis as the
    /// bits of a 64-bit float, exactly as reported.
    pub fn get_weight2(&mut self, reply: DoubleResult) -> (bits: u64)
        requires
            reply.status.spec_is_ok(),
        ensures
            bits == reply.res,
            *final(self) == *old(self),
    {
        reply.into_value()
    }

    /// Completes "get the matrix-element weight" with the native reply: yields
    /// the matrix-element weight of the current event as the bits of a 64-bit
    /// float, exactly as reported.
    pub fn get_me_weight(&mut self, reply: DoubleResult) -> (bits: u64)
        requires
            reply.status.spec_is_ok(),
        ensures
            bits == reply.res,
            *final(self) == *old(self),
    {
        reply.into_value()
    }

    /// Completes "get the matrix-element weight in the second basis" with the
    /// native reply: yields the matrix-element weight of the current event in
    /// the second basis as the bits of a 64-bit float, exactly as reported.
    pub fn get_me_weight2(&mut self, reply: DoubleResult) -> (bits: u64)
        requires
            reply.status.spec_is_ok(),
        ensures
            bits == reply.res,
            *final(self) == *old(self),
    {
        reply.into_value()
    }

    /// Completes "get the process type" with the native reply: yields the
    /// process type of the current event, exactly as reported.
    pub fn get_type(&mut self, reply: CharResult) -> (kind: i8)
        requires
            reply.status.spec_is_ok(),
        ensures
            kind == reply.res,
            *final(self) == *old(self),
    {
        reply.into_value()
    }

    /// Completes "recompute the weight at new scales" with the native reply:
    /// yields the weight of the current event at the new scales as the bits of
    /// a 64-bit float, exactly as reported.
    pub fn compute_weight(&mut self, reply: DoubleResult) -> (bits: u64)
        requires
            reply.status.spec_is_ok(),
        ensures
            bits == reply.res,
            *final(self) == *old(self),
    {
        reply.into_value()
    }

    /// Completes "recompute the weight at new scales in the second basis" with
    /// the native reply: yields the weight of the current event at the new
    /// scales, in the second basis as the bits of a 64-bit float, exactly as
    /// reported.
    pub fn compute_weight2(&mut self, reply: DoubleResult) -> (bits: u64)
        requires
            reply.status.spec_is_ok(),
        ensures
            bits == reply.res,
            *final(self) == *old(self),
    {
        reply.into_value()
    }

    /// Completes "set the beams to proton-proton" with the native reply. The
    /// operation has no payload; the handle keeps its native reference.
    pub fn set_pp(&mut self, reply: VoidResult)
        requires
            reply.status.spec_is_ok(),
        ensures
            *final(self) == *old(self),
    {
        reply.into_value()
    }

    /// Completes "set the beams to proton-antiproton" with the native reply.
    /// The operation has no payload; the handle keeps its native reference.
    pub fn set_ppbar(&mut self, reply: VoidResult)
        requires
            reply.status.spec_is_ok(),
        ensures
            *final(self) == *old(self),
    {
        reply.into_value()
    }

    /// Completes "add an input file by path" with the native reply. The
    /// operation has no payload; the handle keeps its native reference.
    pub fn add_file(&mut self, reply: VoidResult)
        requires
            reply.status.spec_is_ok(),
        ensures
            *final(self) == *old(self),
    {
        reply.into_value()
    }

    /// Completes "reset the accumulated cross section" with the native reply.
    /// The operation has no payload; the handle keeps its native reference.
    pub fn reset_cross_section(&mut self, reply: VoidResult)
        requires
            reply.status.spec_is_ok(),
        ensures
            *final(self) == *old(self),
    {
        reply.into_value()
    }

    /// Completes "get the accumulated cross section" with the native reply:
    /// yields the accumulated cross section as the bits of a 64-bit float,
    /// exactly as reported.
    pub fn get_cross_section(&mut self, reply: DoubleResult) -> (bits: u64)
        requires
            reply.status.spec_is_ok(),
        ensures
            bits == reply.res,
            *final(self) == *old(self),
    {
        reply.into_value()
    }

    /// Completes "get the error of the accumulated cross section" with the
    /// native reply: yields the error of the accumulated cross section as the
    /// bits of a 64-bit float, exactly as reported.
    pub fn get_cross_section_error(&mut self, reply: DoubleResult) -> (bits: u64)
        requires
            reply.status.spec_is_ok(),
        ensures
            bits == reply.res,
            *final(self) == *old(self),
    {
        reply.into_value()
    }

    /// Ends the handle's life and gives up the native reference, which the
    /// caller hands to the native "destroy" entry point. The handle is
    /// consumed: no second release and no later call can name it.
    pub fn release(self) -> (raw: usize)
        ensures
            raw == self.native_ref(),
            raw != 0,
    {
        proof {
            use_type_invariant(&self);
        }
        self.native
    }
}

} // verus!
