//! The guarded single-instance lifecycle standing between the raw entry
//! points and the typed operation interface.
//!
//! A [`FlashAlgorithm`] holds at most one live driver instance. Every entry
//! point other than initialization first checks that an instance is live and
//! rejects the call with the fixed status 1 otherwise; the host tool is an
//! external, possibly misbehaving caller, so each entry point re-checks
//! independently instead of trusting call order. Initialization while an
//! instance is already live implicitly tears the old instance down first, so
//! its outcome never depends on the state before the call.

use vstd::prelude::*;

use crate::ops::ErrorCode;
use crate::ops::EraseChip;
use crate::ops::FlashOps;
use crate::ops::Operation;
use crate::ops::Verify;
use crate::ops::status_code;

verus! {

/// The raw status every guarded entry point returns when called while no
/// driver instance is live.
pub const NOT_INITIALIZED: u32 = 1;

/// The single-instance slot and its guard. Holding the instance as an
/// optional value makes the pairing of the initialization flag with the
/// instance structural: the slot is readable exactly when it is full.
pub struct FlashAlgorithm<T> {
    instance: Option<T>,
}

impl<T: FlashOps> FlashAlgorithm<T> {
    /// The driver instance this shim currently holds, if any. This is the
    /// shim's entire observable state.
    pub closed spec fn held(self) -> Option<T> {
        self.instance
    }

    /// Whether a driver instance is live, so that guarded entry points
    /// dispatch instead of rejecting the call.
    pub open spec fn initialized(self) -> bool {
        self.held() is Some
    }

    /// The state and status `initialize` produces once `create` has returned
    /// `outcome`: the old state is gone entirely, the slot holds the fresh
    /// instance exactly when construction succeeded, and the status is the
    /// collapse of the construction result.
    pub open spec fn spec_initialize(pre: Option<T>, outcome: Result<T, ErrorCode>) -> (
        Option<T>,
        u32,
    ) {
        match outcome {
            Ok(instance) => (Some(instance), 0),
            Err(e) => (None, e.spec_get()),
        }
    }

    /// The state and status `deinitialize` produces: the slot is left empty
    /// either way; the status is 0 when an instance was live and the
    /// not-initialized code 1 when none was.
    pub open spec fn spec_deinitialize(pre: Option<T>) -> (Option<T>, u32) {
        (None, if pre is Some { 0u32 } else { NOT_INITIALIZED })
    }

    /// A shim with no live instance, the state every lifecycle starts in.
    pub fn new() -> (r: Self)
        ensures
            r.held() is None,
    {
        FlashAlgorithm { instance: None }
    }

    /// Install the outcome of a driver construction: on success the fresh
    /// instance becomes the live one and the status is 0; on failure the
    /// slot stays empty and the construction's own non-zero code is the
    /// status. The state before the call does not matter.
    pub fn apply_create_outcome(&mut self, outcome: Result<T, ErrorCode>) -> (r: u32)
        ensures
            (final(self).held(), r) == Self::spec_initialize(old(self).held(), outcome),
            r == 0 <==> final(self).initialized(),
    {
        match outcome {
            Ok(instance) => {
                self.instance = Some(instance);
                0
            },
            Err(e) => {
                self.instance = None;
                e.get()
            },
        }
    }

    /// Start a session: tear down any live instance, construct a fresh
    /// driver for the decoded operation, and report the construction's
    /// status. On failure no instance is left live.
    pub fn initialize_op(&mut self, address: u32, clock: u32, operation: Operation) -> (r: u32)
        ensures
            exists|outcome: Result<T, ErrorCode>|
                (final(self).held(), r) == Self::spec_initialize(old(self).held(), outcome),
            r == 0 <==> final(self).initialized(),
    {
        if self.instance.is_some() {
            self.instance = None;
        }
        let outcome = T::create(address, clock, operation);
        let r = self.apply_create_outcome(outcome);
        proof {
            assert((self.held(), r) == Self::spec_initialize(old(self).held(), outcome));
        }
        r
    }

    /// Start a session from the raw operation code the host tool passed.
    /// The code must be a recognized one; the raw boundary treats an
    /// unrecognized code as fatal before this point, since its return
    /// channel has no slot for reporting it.
    pub fn initialize(&mut self, address: u32, clock: u32, op: u32) -> (r: u32)
        requires
            Operation::spec_decode(op) is Some,
        ensures
            exists|outcome: Result<T, ErrorCode>|
                (final(self).held(), r) == Self::spec_initialize(old(self).held(), outcome),
            r == 0 <==> final(self).initialized(),
    {
        match Operation::decode(op) {
            Some(operation) => self.initialize_op(address, clock, operation),
            None => vstd::pervasive::unreached(),
        }
    }

    /// End a session: report the not-initialized code 1 if none is live,
    /// else destroy the instance totally and report 0. Either way no
    /// instance remains.
    pub fn deinitialize(&mut self) -> (r: u32)
        ensures
            (final(self).held(), r) == Self::spec_deinitialize(old(self).held()),
            !old(self).initialized() ==> r == NOT_INITIALIZED && final(self).held() == old(self).held(),
            old(self).initialized() ==> r == 0,
            !final(self).initialized(),
    {
        if self.instance.is_some() {
            self.instance = None;
            0
        } else {
            NOT_INITIALIZED
        }
    }

    /// Erase the sector containing `address`: rejected with status 1 and no
    /// state change while uninitialized, else dispatched to the live driver,
    /// whose result collapses to the raw status. The shim stays initialized.
    pub fn erase_sector(&mut self, address: u32) -> (r: u32)
        ensures
            !old(self).initialized() ==> r == NOT_INITIALIZED && final(self).held() == old(self).held(),
            old(self).initialized() ==> final(self).initialized(),
    {
        match &mut self.instance {
            None => NOT_INITIALIZED,
            Some(instance) => {
                let res = instance.erase_sector(address);
                status_code(res)
            },
        }
    }

    /// Program `data` starting at `address`: rejected with status 1 and no
    /// state change while uninitialized, else the buffer is handed to the
    /// live driver exactly as given — the shim adds no handling of its own,
    /// not even for an empty buffer. The shim stays initialized.
    pub fn program_page(&mut self, address: u32, data: &[u8]) -> (r: u32)
        ensures
            !old(self).initialized() ==> r == NOT_INITIALIZED && final(self).held() == old(self).held(),
            old(self).initialized() ==> final(self).initialized(),
    {
        match &mut self.instance {
            None => NOT_INITIALIZED,
            Some(instance) => {
                let res = instance.program_page(address, data);
                status_code(res)
            },
        }
    }

    /// A live driver instance, for callers that inspect the session's state
    /// from outside the raw boundary; absent exactly while uninitialized.
    pub fn instance(&self) -> (r: Option<&T>)
        ensures
            r is Some <==> self.initialized(),
            r matches Some(instance) ==> self.held() == Some(*instance),
    {
        match &self.instance {
            Some(instance) => Some(instance),
            None => None,
        }
    }

    /// Whether a driver instance is live.
    pub fn is_initialized(&self) -> (r: bool)
        ensures
            r == self.initialized(),
    {
        self.instance.is_some()
    }

    /// Initializing while already initialized is the same as deinitializing
    /// first and then initializing with the new arguments: once `create`'s
    /// outcome is fixed, both paths produce the same state and the same
    /// status, because initialization discards whatever state preceded it.
    pub proof fn lemma_reinitialize_is_deinit_then_initialize(
        pre: Option<T>,
        outcome: Result<T, ErrorCode>,
    )
        ensures
            Self::spec_initialize(pre, outcome) == Self::spec_initialize(
                Self::spec_deinitialize(pre).0,
                outcome,
            ),
    {
    }

    /// After a successful initialization — a state with a live instance —
    /// `deinitialize` reports 0 and leaves the shim uninitialized; from that
    /// state every guarded entry point rejects its call with the fixed
    /// status 1 and no state change, as each guarded entry point's own
    /// contract states of an uninitialized shim, until another
    /// initialization succeeds.
    pub proof fn lemma_teardown_after_success(pre: Option<T>)
        requires
            pre is Some,
        ensures
            Self::spec_deinitialize(pre).1 == 0,
            Self::spec_deinitialize(pre).0 is None,
            Self::spec_deinitialize(Self::spec_deinitialize(pre).0) == (
                Self::spec_deinitialize(pre).0,
                NOT_INITIALIZED,
            ),
    {
    }
}

impl<T: EraseChip> FlashAlgorithm<T> {
    /// Erase the whole device: rejected with status 1 and no state change
    /// while uninitialized, else dispatched to the live driver. Offered only
    /// for drivers carrying the erase-chip capability, so the entry point
    /// exists exactly when the capability does. The shim stays initialized.
    pub fn erase_chip(&mut self) -> (r: u32)
        ensures
            !old(self).initialized() ==> r == NOT_INITIALIZED && final(self).held() == old(self).held(),
            old(self).initialized() ==> final(self).initialized(),
    {
        match &mut self.instance {
            None => NOT_INITIALIZED,
            Some(instance) => {
                let res = instance.erase_chip();
                status_code(res)
            },
        }
    }
}

impl<T: Verify> FlashAlgorithm<T> {
    /// Verify `size` bytes at `address` against `data`, or against the
    /// device's empty value when `data` is absent: rejected with status 1
    /// and no state change while uninitialized, else the arguments are
    /// handed to the live driver exactly as given — in particular, an
    /// absent buffer reaches the driver as the same absent case however the
    /// caller arrived at it. The shim stays initialized.
    pub fn verify(&mut self, address: u32, size: u32, data: Option<&[u8]>) -> (r: u32)
        ensures
            !old(self).initialized() ==> r == NOT_INITIALIZED && final(self).held() == old(self).held(),
            old(self).initialized() ==> final(self).initialized(),
    {
        match &mut self.instance {
            None => NOT_INITIALIZED,
            Some(instance) => {
                let res = instance.verify(address, size, data);
                status_code(res)
            },
        }
    }
}

} // verus!
