//! Errors of the filters, in words.

use super::bloom::{BloomAttachError, BloomParamError, LayoutError};
use super::lifecycle::{LifecycleError, LifecycleSnapshot, RuntimeFilterState};
use super::pool::RuntimeFilterPoolAttachError;
use crate::text::{append_decimal, append_hex, decimal, hex, owned};
use vstd::prelude::*;
use vstd::string::StringExecFns;

verus! {

/// A life-cycle word by its parts.
pub open spec fn snapshot_text(snapshot: LifecycleSnapshot) -> Seq<char> {
    "LifecycleSnapshot { generation: "@ + decimal(snapshot.generation as nat) + ", state: "@
        + snapshot.state.name() + " }"@
}

fn append_snapshot(out: &mut String, snapshot: LifecycleSnapshot)
    ensures
        final(out)@ == old(out)@ + snapshot_text(snapshot),
{
    out.append("LifecycleSnapshot { generation: ");
    append_decimal(out, snapshot.generation);
    out.append(", state: ");
    out.append(snapshot.state.as_name());
    out.append(" }");
    assert(out@ =~= old(out)@ + snapshot_text(snapshot));
}

impl RuntimeFilterState {
    /// The name of the state.
    pub open spec fn name(self) -> Seq<char> {
        match self {
            RuntimeFilterState::Free => "Free"@,
            RuntimeFilterState::Building => "Building"@,
            RuntimeFilterState::Ready => "Ready"@,
            RuntimeFilterState::Disabled => "Disabled"@,
        }
    }

    /// The name of the state.
    pub fn as_name(self) -> (r: &'static str)
        ensures
            r@ == self.name(),
    {
        match self {
            RuntimeFilterState::Free => "Free",
            RuntimeFilterState::Building => "Building",
            RuntimeFilterState::Ready => "Ready",
            RuntimeFilterState::Disabled => "Disabled",
        }
    }
}

impl LayoutError {
    /// The error in words.
    pub open spec fn text(self) -> Seq<char> {
        "invalid parameters to Layout::from_size_align"@
    }

    /// The error in words.
    pub fn message(&self) -> (r: String)
        ensures
            r@ == self.text(),
    {
        owned("invalid parameters to Layout::from_size_align")
    }
}

impl BloomParamError {
    /// The error in words; `rate` is the rate written out.
    pub open spec fn text(self, rate: Seq<char>) -> Seq<char> {
        match self {
            BloomParamError::ZeroBitCount => "bloom filter bit count must be greater than zero"@,
            BloomParamError::ZeroHashCount => "bloom filter hash count must be greater than zero"@,
            BloomParamError::ZeroExpectedItems => "expected item count must be greater than zero"@,
            BloomParamError::InvalidFalsePositiveRate(_) => {
                "false positive rate must be finite and in (0, 1), got "@ + rate
            },
            BloomParamError::TooManyBits => "bloom filter bit count exceeds addressable memory"@,
        }
    }

    /// The error in words; `rate` is the rate written out.
    pub fn message(&self, rate: &str) -> (r: String)
        ensures
            r@ == self.text(rate@),
    {
        match self {
            BloomParamError::ZeroBitCount => {
                owned("bloom filter bit count must be greater than zero")
            },
            BloomParamError::ZeroHashCount => {
                owned("bloom filter hash count must be greater than zero")
            },
            BloomParamError::ZeroExpectedItems => {
                owned("expected item count must be greater than zero")
            },
            BloomParamError::InvalidFalsePositiveRate(_) => {
                let mut r: String = owned(
                    "false positive rate must be finite and in (0, 1), got ",
                );
                r.append(rate);
                r
            },
            BloomParamError::TooManyBits => {
                owned("bloom filter bit count exceeds addressable memory")
            },
        }
    }
}

impl BloomAttachError {
    /// The error in words.
    pub open spec fn text(self) -> Seq<char> {
        match self {
            BloomAttachError::NullBits => "bloom filter bit pointer is null"@,
            BloomAttachError::InsufficientWords { required, actual } => {
                "bloom filter storage has "@ + decimal(actual as nat) + " words, but "@
                    + decimal(required as nat) + " are required"@
            },
        }
    }

    /// The error in words.
    pub fn message(&self) -> (r: String)
        ensures
            r@ == self.text(),
    {
        match self {
            BloomAttachError::NullBits => owned("bloom filter bit pointer is null"),
            BloomAttachError::InsufficientWords { required, actual } => {
                let mut r: String = owned("bloom filter storage has ");
                append_decimal(&mut r, *actual as u64);
                r.append(" words, but ");
                append_decimal(&mut r, *required as u64);
                r.append(" are required");
                r
            },
        }
    }
}

impl LifecycleError {
    /// The error in words.
    pub open spec fn text(self) -> Seq<char> {
        match self {
            LifecycleError::GenerationExhausted { generation } => {
                "runtime filter generation "@ + decimal(generation as nat)
                    + " cannot advance without overflowing"@
            },
            LifecycleError::Busy { snapshot } => {
                "runtime filter slot is busy: "@ + snapshot_text(snapshot)
            },
            LifecycleError::InvalidTransition { expected, actual } => {
                "invalid runtime filter transition: expected "@ + snapshot_text(expected)
                    + ", observed "@ + snapshot_text(actual)
            },
        }
    }

    /// The error in words.
    pub fn message(&self) -> (r: String)
        ensures
            r@ == self.text(),
    {
        match self {
            LifecycleError::GenerationExhausted { generation } => {
                let mut r: String = owned("runtime filter generation ");
                append_decimal(&mut r, *generation);
                r.append(" cannot advance without overflowing");
                r
            },
            LifecycleError::Busy { snapshot } => {
                let mut r: String = owned("runtime filter slot is busy: ");
                append_snapshot(&mut r, *snapshot);
                r
            },
            LifecycleError::InvalidTransition { expected, actual } => {
                let mut r: String = owned("invalid runtime filter transition: expected ");
                append_snapshot(&mut r, *expected);
                r.append(", observed ");
                append_snapshot(&mut r, *actual);
                r
            },
        }
    }
}

impl RuntimeFilterPoolAttachError {
    /// The error in words.
    pub open spec fn text(self) -> Seq<char> {
        match self {
            RuntimeFilterPoolAttachError::NullBase => "runtime filter pool base pointer is null"@,
            RuntimeFilterPoolAttachError::Layout(e) => {
                "runtime filter pool layout error: "@ + e.text()
            },
            RuntimeFilterPoolAttachError::LayoutOverflow => {
                "runtime filter pool layout size overflow"@
            },
            RuntimeFilterPoolAttachError::Misaligned { required, actual } => {
                "runtime filter pool base alignment "@ + decimal(actual as nat)
                    + " does not satisfy "@ + decimal(required as nat)
            },
            RuntimeFilterPoolAttachError::TooSmall { required, actual } => {
                "runtime filter pool region has "@ + decimal(actual as nat) + " bytes, but "@
                    + decimal(required as nat) + " are required"@
            },
            RuntimeFilterPoolAttachError::InvalidMagic { actual } => {
                "runtime filter pool has invalid magic 0x"@ + hex(actual as nat)
            },
            RuntimeFilterPoolAttachError::InvalidVersion { expected, actual } => {
                "runtime filter pool version mismatch: expected "@ + decimal(expected as nat)
                    + ", got "@ + decimal(actual as nat)
            },
            RuntimeFilterPoolAttachError::ConfigMismatch => "runtime filter pool config mismatch"@,
            RuntimeFilterPoolAttachError::Bloom(e) => {
                "runtime filter pool bloom attach error: "@ + e.text()
            },
            RuntimeFilterPoolAttachError::Lifecycle(e) => {
                "runtime filter pool lifecycle error: "@ + e.text()
            },
        }
    }

    /// The error in words.
    pub fn message(&self) -> (r: String)
        ensures
            r@ == self.text(),
    {
        match self {
            RuntimeFilterPoolAttachError::NullBase => {
                owned("runtime filter pool base pointer is null")
            },
            RuntimeFilterPoolAttachError::Layout(e) => {
                let mut r: String = owned("runtime filter pool layout error: ");
                r.append(e.message().as_str());
                r
            },
            RuntimeFilterPoolAttachError::LayoutOverflow => {
                owned("runtime filter pool layout size overflow")
            },
            RuntimeFilterPoolAttachError::Misaligned { required, actual } => {
                let mut r: String = owned("runtime filter pool base alignment ");
                append_decimal(&mut r, *actual as u64);
                r.append(" does not satisfy ");
                append_decimal(&mut r, *required as u64);
                r
            },
            RuntimeFilterPoolAttachError::TooSmall { required, actual } => {
                let mut r: String = owned("runtime filter pool region has ");
                append_decimal(&mut r, *actual as u64);
                r.append(" bytes, but ");
                append_decimal(&mut r, *required as u64);
                r.append(" are required");
                r
            },
            RuntimeFilterPoolAttachError::InvalidMagic { actual } => {
                let mut r: String = owned("runtime filter pool has invalid magic 0x");
                append_hex(&mut r, *actual);
                r
            },
            RuntimeFilterPoolAttachError::InvalidVersion { expected, actual } => {
                let mut r: String = owned("runtime filter pool version mismatch: expected ");
                append_decimal(&mut r, *expected as u64);
                r.append(", got ");
                append_decimal(&mut r, *actual as u64);
                r
            },
            RuntimeFilterPoolAttachError::ConfigMismatch => {
                owned("runtime filter pool config mismatch")
            },
            RuntimeFilterPoolAttachError::Bloom(e) => {
                let mut r: String = owned("runtime filter pool bloom attach error: ");
                r.append(e.message().as_str());
                r
            },
            RuntimeFilterPoolAttachError::Lifecycle(e) => {
                let mut r: String = owned("runtime filter pool lifecycle error: ");
                r.append(e.message().as_str());
                r
            },
        }
    }
}

} // verus!
