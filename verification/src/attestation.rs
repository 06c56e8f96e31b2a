//! Outcomes of a request for the attestation of a virtual machine.

use vstd::prelude::*;

verus! {

/// Status that a request for attestation ends with.
#[derive(Clone, Copy, Debug, PartialEq, Eq, Structural)]
pub enum AttestationStatus {
    /// The attestation succeeded.
    Attested,
    /// The challenge size was not between 0 and 64 bytes.
    InvalidChallenge,
    /// The attempt to attest the virtual machine failed.
    AttestationFailed,
    /// Attestation is not supported in the current environment.
    Unsupported,
}

/// Error that an unsuccessful request for attestation ends with.
#[derive(Clone, Copy, Debug, Hash, PartialEq, Eq, Structural)]
pub enum AttestationError {
    /// The challenge size was not between 0 and 64 bytes (inclusive).
    InvalidChallenge,
    /// The attempt to attest the VM failed. A subsequent request may succeed.
    AttestationFailed,
    /// VM attestation is not supported in the current environment.
    AttestationUnsupported,
}

/// Longest challenge, in bytes, that a request for attestation accepts.
pub const MAX_CHALLENGE_LEN: usize = 64;

impl AttestationError {
    /// The error that a status stands for, if it stands for one.
    pub open spec fn spec_from_status(status: AttestationStatus) -> Option<AttestationError> {
        match status {
            AttestationStatus::Attested => None,
            AttestationStatus::InvalidChallenge => Some(AttestationError::InvalidChallenge),
            AttestationStatus::AttestationFailed => Some(AttestationError::AttestationFailed),
            AttestationStatus::Unsupported => Some(AttestationError::AttestationUnsupported),
        }
    }

    /// The error that a status stands for, if it stands for one.
    #[verifier::when_used_as_spec(spec_from_status)]
    pub fn from_status(status: AttestationStatus) -> (error: Option<AttestationError>)
        ensures
            error == Self::spec_from_status(status),
    {
        match status {
            AttestationStatus::Attested => None,
            AttestationStatus::InvalidChallenge => Some(AttestationError::InvalidChallenge),
            AttestationStatus::AttestationFailed => Some(AttestationError::AttestationFailed),
            AttestationStatus::Unsupported => Some(AttestationError::AttestationUnsupported),
        }
    }

    /// The status that this error was made from.
    pub open spec fn spec_status(self) -> AttestationStatus {
        match self {
            AttestationError::InvalidChallenge => AttestationStatus::InvalidChallenge,
            AttestationError::AttestationFailed => AttestationStatus::AttestationFailed,
            AttestationError::AttestationUnsupported => AttestationStatus::Unsupported,
        }
    }

    /// The status that this error was made from.
    #[verifier::when_used_as_spec(spec_status)]
    pub fn status(self) -> (status: AttestationStatus)
        ensures
            status == self.spec_status(),
            Self::spec_from_status(status) == Some(self),
    {
        match self {
            AttestationError::InvalidChallenge => AttestationStatus::InvalidChallenge,
            AttestationError::AttestationFailed => AttestationStatus::AttestationFailed,
            AttestationError::AttestationUnsupported => AttestationStatus::Unsupported,
        }
    }
}

/// A walk over the certificates of an attestation result, from the leaf
/// certificate to the root, by their positions.
pub struct CertIterator {
    count: usize,
    current: usize,
}

impl CertIterator {
    #[verifier::type_invariant]
    spec fn inv(self) -> bool {
        self.current <= self.count
    }

    /// Number of certificates in the chain.
    pub closed spec fn count(self) -> nat {
        self.count as nat
    }

    /// Position of the certificate that comes next; `count()` at the end.
    pub closed spec fn current(self) -> nat {
        self.current as nat
    }

    /// A walk over a chain of `count` certificates, which starts at the leaf.
    pub fn new(count: usize) -> (walk: Self)
        ensures
            walk.count() == count,
            walk.current() == 0,
    {
        CertIterator { count, current: 0 }
    }

    /// The position of the next certificate, if one is left, and a step past
    /// it. At the end of the chain nothing changes.
    pub fn next_index(&mut self) -> (index: Option<usize>)
        ensures
            final(self).count() == old(self).count(),
            old(self).current() <= old(self).count(),
            old(self).current() < old(self).count() ==> index == Some(old(self).current() as usize)
                && final(self).current() == old(self).current() + 1,
            old(self).current() >= old(self).count() ==> index is None && final(self).current()
                == old(self).current(),
    {
        proof {
            use_type_invariant(&*self);
        }
        if self.current < self.count {
            let index = self.current;
            self.current = index + 1;
            Some(index)
        } else {
            None
        }
    }

    /// Number of certificates that are left, as a lower and an upper bound.
    pub fn size_hint(&self) -> (bounds: (usize, Option<usize>))
        ensures
            self.current() <= self.count(),
            bounds.0 == self.count() - self.current(),
            bounds.1 == Some(bounds.0),
    {
        proof {
            use_type_invariant(self);
        }
        let size = self.count - self.current;
        (size, Some(size))
    }
}

} // verus!
