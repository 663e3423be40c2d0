//! Content-addressed module identity.
//!
//! A checksum is the fixed-length content hash that identifies a compiled
//! module version.  It is only ever built from bytes of exactly the expected
//! length; anything else is rejected as `InvalidChecksum`.

use vstd::prelude::*;
use crate::errors::LinkError;

verus! {

/// Byte length of a module checksum.
pub const CHECKSUM_LENGTH: usize = 32;

/// Content hash identifying a compiled module version.
#[derive(Debug)]
pub struct Checksum {
    bytes: Vec<u8>,
}

impl View for Checksum {
    type V = Seq<u8>;

    closed spec fn view(&self) -> Seq<u8> {
        self.bytes@
    }
}

impl Checksum {
    /// A checksum always carries exactly `CHECKSUM_LENGTH` bytes.
    pub open spec fn wf(&self) -> bool {
        self@.len() == CHECKSUM_LENGTH
    }

    /// Builds a checksum from raw bytes; rejects any length other than
    /// `CHECKSUM_LENGTH`.
    pub fn from_bytes(b: &Vec<u8>) -> (r: Result<Checksum, LinkError>)
        ensures
            b@.len() == CHECKSUM_LENGTH ==> (r matches Ok(c) && c@ == b@ && c.wf()),
            b@.len() != CHECKSUM_LENGTH ==> (r matches Err(e) && e is InvalidChecksum),
    {
        if b.len() != CHECKSUM_LENGTH {
            return Err(LinkError::InvalidChecksum);
        }
        let mut bytes: Vec<u8> = Vec::new();
        let mut i: usize = 0;
        while i < b.len()
            invariant
                i <= b@.len(),
                bytes@ == b@.subrange(0, i as int),
            decreases b@.len() - i,
        {
            bytes.push(b[i]);
            proof {
                assert(b@.subrange(0, i + 1) =~= b@.subrange(0, i as int).push(b@[i as int]));
            }
            i = i + 1;
        }
        proof {
            assert(b@.subrange(0, b@.len() as int) =~= b@);
        }
        Ok(Checksum { bytes })
    }

    /// The raw hash bytes.
    pub fn as_bytes(&self) -> (r: &Vec<u8>)
        ensures
            r@ == self@,
    {
        &self.bytes
    }
}

} // verus!
