//! The verification status of an enclave: a set of flags, not one of several
//! exclusive states.

use vstd::prelude::*;

verus! {

/// One flag of a verification status.
#[derive(Copy, Clone, Debug, PartialEq, Eq)]
pub enum VerificationStatus {
    Unset,
    VerificationPending,
    VerificationFailure,
    VerificationSuccess,
    VerificationOverride,
}

impl VerificationStatus {
    /// The bit that stands for the flag in a stored status byte; `Unset` has no bit.
    pub open spec fn spec_bit(self) -> u8 {
        match self {
            VerificationStatus::Unset => 0,
            VerificationStatus::VerificationPending => 1,
            VerificationStatus::VerificationFailure => 2,
            VerificationStatus::VerificationSuccess => 4,
            VerificationStatus::VerificationOverride => 8,
        }
    }

    /// The bit that stands for the flag in a stored status byte.
    pub fn bit(self) -> (r: u8)
        ensures
            r == self.spec_bit(),
    {
        match self {
            VerificationStatus::Unset => 0,
            VerificationStatus::VerificationPending => 1,
            VerificationStatus::VerificationFailure => 2,
            VerificationStatus::VerificationSuccess => 4,
            VerificationStatus::VerificationOverride => 8,
        }
    }
}

/// A verification status as a set of flags.
#[derive(Copy, Clone, Debug, PartialEq, Eq)]
pub struct StatusFlags {
    pub pending: bool,
    pub failure: bool,
    pub success: bool,
    pub overridden: bool,
}

/// 1 for a flag that is set, 0 for one that is not.
pub open spec fn flag_weight(set: bool, weight: int) -> int {
    if set {
        weight
    } else {
        0
    }
}

impl StatusFlags {
    /// The stored byte of the set: the sum of the bits of its flags.
    pub open spec fn spec_bits(self) -> int {
        flag_weight(self.pending, 1) + flag_weight(self.failure, 2) + flag_weight(self.success, 4)
            + flag_weight(self.overridden, 8)
    }

    /// The set that a stored byte denotes; a byte with a bit that stands for
    /// no flag denotes none.
    pub open spec fn spec_from_bits(bits: u8) -> Option<StatusFlags> {
        if bits >= 16 {
            None
        } else {
            Some(
                StatusFlags {
                    pending: bits % 2 == 1,
                    failure: (bits / 2) % 2 == 1,
                    success: (bits / 4) % 2 == 1,
                    overridden: (bits / 8) % 2 == 1,
                },
            )
        }
    }

    /// Whether the set holds the flag. Every set holds `Unset`.
    pub open spec fn spec_contains(self, flag: VerificationStatus) -> bool {
        match flag {
            VerificationStatus::Unset => true,
            VerificationStatus::VerificationPending => self.pending,
            VerificationStatus::VerificationFailure => self.failure,
            VerificationStatus::VerificationSuccess => self.success,
            VerificationStatus::VerificationOverride => self.overridden,
        }
    }

    /// The combinations that this library writes: at most one of pending,
    /// failure and success, with or without the override.
    pub open spec fn consistent(self) -> bool {
        &&& !(self.pending && self.failure)
        &&& !(self.pending && self.success)
        &&& !(self.failure && self.success)
    }

    /// Whether the subject is trusted. The override decides alone where it is
    /// set; without it the subject is trusted where success is the one flag
    /// of the three that is set.
    pub open spec fn spec_is_trusted(self) -> bool {
        self.overridden || (self.success && !self.failure && !self.pending)
    }

    /// The set after a check has succeeded.
    pub open spec fn with_success_spec(self) -> StatusFlags {
        StatusFlags { pending: false, failure: false, success: true, overridden: self.overridden }
    }

    /// The set after a check has failed.
    pub open spec fn with_failure_spec(self) -> StatusFlags {
        StatusFlags { pending: false, failure: true, success: false, overridden: self.overridden }
    }

    /// The set with no flag.
    pub fn empty() -> (r: Self)
        ensures
            r == (StatusFlags { pending: false, failure: false, success: false, overridden: false }),
            r.spec_bits() == 0,
    {
        StatusFlags { pending: false, failure: false, success: false, overridden: false }
    }

    /// The set that a stored byte denotes.
    pub fn from_bits(bits: u8) -> (r: Option<Self>)
        ensures
            r == Self::spec_from_bits(bits),
            r matches Some(s) ==> s.spec_bits() == bits,
    {
        if bits >= 16 {
            None
        } else {
            Some(
                StatusFlags {
                    pending: bits % 2 == 1,
                    failure: (bits / 2) % 2 == 1,
                    success: (bits / 4) % 2 == 1,
                    overridden: (bits / 8) % 2 == 1,
                },
            )
        }
    }

    /// The stored byte of the set.
    pub fn bits(&self) -> (r: u8)
        ensures
            r as int == self.spec_bits(),
            r < 16,
            Self::spec_from_bits(r) == Some(*self),
    {
        let mut r: u8 = 0;
        if self.pending {
            r = r + 1;
        }
        if self.failure {
            r = r + 2;
        }
        if self.success {
            r = r + 4;
        }
        if self.overridden {
            r = r + 8;
        }
        r
    }

    /// Whether the set holds the flag.
    pub fn contains(&self, flag: VerificationStatus) -> (r: bool)
        ensures
            r == self.spec_contains(flag),
    {
        match flag {
            VerificationStatus::Unset => true,
            VerificationStatus::VerificationPending => self.pending,
            VerificationStatus::VerificationFailure => self.failure,
            VerificationStatus::VerificationSuccess => self.success,
            VerificationStatus::VerificationOverride => self.overridden,
        }
    }

    /// Whether the subject is trusted; the override takes precedence.
    pub fn is_trusted(&self) -> (r: bool)
        ensures
            r == self.spec_is_trusted(),
    {
        self.overridden || (self.success && !self.failure && !self.pending)
    }

    /// The set after a check has begun: pending alone of the three, the
    /// override as it was.
    pub fn with_pending(&self) -> (r: Self)
        ensures
            r == (StatusFlags {
                pending: true,
                failure: false,
                success: false,
                overridden: self.overridden,
            }),
            r.consistent(),
    {
        StatusFlags { pending: true, failure: false, success: false, overridden: self.overridden }
    }

    /// The set after a check has succeeded: success set, failure and pending
    /// cleared, the override as it was.
    pub fn with_success(&self) -> (r: Self)
        ensures
            r == self.with_success_spec(),
            r.consistent(),
            r.spec_is_trusted(),
    {
        StatusFlags { pending: false, failure: false, success: true, overridden: self.overridden }
    }

    /// The set after a check has failed: failure set, success and pending
    /// cleared, the override as it was.
    pub fn with_failure(&self) -> (r: Self)
        ensures
            r == self.with_failure_spec(),
            r.consistent(),
            r.spec_is_trusted() == self.overridden,
    {
        StatusFlags { pending: false, failure: true, success: false, overridden: self.overridden }
    }
}

/// A set that has the override is trusted whatever else it holds.
pub proof fn lemma_override_dominates(s: StatusFlags)
    requires
        s.overridden,
    ensures
        s.spec_is_trusted(),
{
}

/// Every set is denoted by its own stored byte, and by no other.
pub proof fn lemma_status_bits_round_trip(s: StatusFlags, t: StatusFlags)
    ensures
        0 <= s.spec_bits() < 16,
        StatusFlags::spec_from_bits(s.spec_bits() as u8) == Some(s),
        s.spec_bits() == t.spec_bits() ==> s == t,
{
}

} // verus!
