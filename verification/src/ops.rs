//! The typed operation interface of a flash algorithm, together with the raw
//! status-code conventions of the binary boundary: an operation reports
//! success as the raw value 0, and any failure as a non-zero numeric code
//! that this layer never interprets.

use vstd::prelude::*;

verus! {

/// Raw operation code by which the host tool requests an erase session.
pub const ERASE: u32 = 1;

/// Raw operation code by which the host tool requests a program session.
pub const PROGRAM: u32 = 2;

/// Raw operation code by which the host tool requests a verify session.
pub const VERIFY: u32 = 3;

/// Which high-level operation the host tool intends to perform during a
/// session. It is passed to a driver's constructor so the driver can
/// configure itself; the shim never consults it again afterwards.
#[derive(Clone, Copy, Debug, Eq, Hash, PartialEq, Structural)]
pub enum Operation {
    Erase,
    Program,
    Verify,
}

impl Operation {
    /// The raw code of this operation on the binary boundary.
    pub open spec fn spec_code(self) -> u32 {
        match self {
            Operation::Erase => ERASE,
            Operation::Program => PROGRAM,
            Operation::Verify => VERIFY,
        }
    }

    /// The raw code of this operation on the binary boundary.
    pub fn code(self) -> (r: u32)
        ensures
            r == self.spec_code(),
    {
        match self {
            Operation::Erase => ERASE,
            Operation::Program => PROGRAM,
            Operation::Verify => VERIFY,
        }
    }

    /// What a raw operation code decodes to: exactly the codes 1, 2 and 3 are
    /// recognized; every other value has no decoding, and the raw boundary
    /// treats meeting one as fatal, since its return channel has no slot for
    /// reporting it.
    pub open spec fn spec_decode(op: u32) -> Option<Operation> {
        if op == ERASE {
            Some(Operation::Erase)
        } else if op == PROGRAM {
            Some(Operation::Program)
        } else if op == VERIFY {
            Some(Operation::Verify)
        } else {
            None
        }
    }

    /// Decode a raw operation code, recognizing exactly the codes 1, 2 and 3.
    pub fn decode(op: u32) -> (r: Option<Operation>)
        ensures
            r == Operation::spec_decode(op),
    {
        if op == ERASE {
            Some(Operation::Erase)
        } else if op == PROGRAM {
            Some(Operation::Program)
        } else if op == VERIFY {
            Some(Operation::Verify)
        } else {
            None
        }
    }

    /// Decoding a code and reading an operation's code are inverse to each
    /// other: every operation decodes from its own raw code, and a code that
    /// decodes at all decodes to the one operation carrying that code.
    pub proof fn lemma_code_decode_round_trip(self, op: u32)
        ensures
            Operation::spec_decode(self.spec_code()) == Some(self),
            Operation::spec_decode(op) matches Some(operation) ==> operation.spec_code() == op,
    {
    }
}

/// A numeric failure code produced by a concrete flash driver. It is opaque
/// to the shim, which only relies on it never being zero: the raw boundary
/// reserves 0 as its success marker.
#[derive(Clone, Copy, Debug, Eq, PartialEq, Structural)]
pub struct ErrorCode {
    code: u32,
}

impl ErrorCode {
    #[verifier::type_invariant]
    spec fn inv(self) -> bool {
        self.code != 0
    }

    /// The raw value of this error code.
    pub closed spec fn spec_get(self) -> u32 {
        self.code
    }

    /// Wrap a raw failure value, which must not collide with the success
    /// marker 0.
    pub fn new(code: u32) -> (r: ErrorCode)
        requires
            code != 0,
        ensures
            r.spec_get() == code,
    {
        ErrorCode { code }
    }

    /// The raw value of this error code, always non-zero.
    pub fn get(self) -> (r: u32)
        ensures
            r == self.spec_get(),
            r != 0,
    {
        proof {
            use_type_invariant(self);
        }
        self.code
    }

}

/// The mandatory operation interface a concrete flash driver implements.
/// Error codes are chosen by the driver and flow through the shim verbatim;
/// the shim never gives them a meaning of its own.
pub trait FlashOps: Sized {
    /// Construct a fresh driver for the device at `address`, running at
    /// `clock`, configured for the operation the host tool intends.
    fn create(address: u32, clock: u32, operation: Operation) -> Result<Self, ErrorCode>;

    /// Erase the sector containing `address`. Safe to call on a sector that
    /// is already erased: host tools may retry.
    fn erase_sector(&mut self, address: u32) -> Result<(), ErrorCode>;

    /// Write `data` starting at `address`. The caller guarantees that the
    /// buffer does not exceed the device's page size and that the target
    /// region is programmable.
    fn program_page(&mut self, address: u32, data: &[u8]) -> Result<(), ErrorCode>;
}

/// Optional capability: erasing the entire device in one operation. The shim
/// offers an erase-chip entry point only for drivers carrying this
/// capability.
pub trait EraseChip: FlashOps {
    /// Erase the whole device.
    fn erase_chip(&mut self) -> Result<(), ErrorCode>;
}

/// Optional capability: reading back and comparing device contents. The shim
/// offers a verify entry point only for drivers carrying this capability.
pub trait Verify: FlashOps {
    /// Compare `size` bytes at `address` against `data`, or, when `data` is
    /// absent, against the device's known empty value. A mismatch is
    /// reported as an error code of the driver's choosing.
    fn verify(&mut self, address: u32, size: u32, data: Option<&[u8]>) -> Result<(), ErrorCode>;
}

/// How a typed operation result collapses to a raw status code: success
/// becomes 0, and a failure becomes its own non-zero code, verbatim.
pub open spec fn spec_status(res: Result<(), ErrorCode>) -> u32 {
    match res {
        Ok(_) => 0,
        Err(e) => e.spec_get(),
    }
}

/// Collapse a typed operation result into the raw status code that crosses
/// the binary boundary: 0 exactly on success, the driver's own non-zero code
/// on failure.
pub fn status_code(res: Result<(), ErrorCode>) -> (r: u32)
    ensures
        r == spec_status(res),
        res is Ok <==> r == 0,
{
    match res {
        Ok(_) => 0,
        Err(e) => e.get(),
    }
}

} // verus!
