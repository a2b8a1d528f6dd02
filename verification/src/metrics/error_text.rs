//! Errors of the metrics, in words.

use super::region::MetricsError;
use crate::text::{append_decimal, append_hex, decimal, hex, owned};
use vstd::prelude::*;
use vstd::string::StringExecFns;

verus! {

impl MetricsError {
    /// The error in words.
    pub open spec fn text(self) -> Seq<char> {
        match self {
            MetricsError::ZeroPageCount => "runtime metrics page count must be positive"@,
            MetricsError::LayoutOverflow => "runtime metrics layout overflow"@,
            MetricsError::RegionTooSmall { expected, actual } => {
                "runtime metrics region too small: expected "@ + decimal(expected as nat)
                    + ", got "@ + decimal(actual as nat)
            },
            MetricsError::BadAlignment { expected, actual } => {
                "runtime metrics region has bad alignment: expected "@ + decimal(expected as nat)
                    + ", got "@ + decimal(actual as nat)
            },
            MetricsError::BadMagic { expected, actual } => {
                "runtime metrics bad magic: expected 0x"@ + hex(expected as nat) + ", got 0x"@
                    + hex(actual as nat)
            },
            MetricsError::UnsupportedVersion { expected, actual } => {
                "runtime metrics unsupported version: expected "@ + decimal(expected as nat)
                    + ", got "@ + decimal(actual as nat)
            },
            MetricsError::MetricCountMismatch { expected, actual } => {
                "runtime metrics metric count mismatch: expected "@ + decimal(expected as nat)
                    + ", got "@ + decimal(actual as nat)
            },
            MetricsError::LayoutMismatch { expected, actual } => {
                "runtime metrics layout mismatch: expected "@ + decimal(expected as nat) + ", got "@
                    + decimal(actual as nat)
            },
        }
    }

    /// The error in words.
    pub fn message(&self) -> (r: String)
        ensures
            r@ == self.text(),
    {
        match self {
            MetricsError::ZeroPageCount => owned("runtime metrics page count must be positive"),
            MetricsError::LayoutOverflow => owned("runtime metrics layout overflow"),
            MetricsError::RegionTooSmall { expected, actual } => {
                let mut r: String = owned("runtime metrics region too small: expected ");
                append_decimal(&mut r, *expected as u64);
                r.append(", got ");
                append_decimal(&mut r, *actual as u64);
                r
            },
            MetricsError::BadAlignment { expected, actual } => {
                let mut r: String = owned("runtime metrics region has bad alignment: expected ");
                append_decimal(&mut r, *expected as u64);
                r.append(", got ");
                append_decimal(&mut r, *actual as u64);
                r
            },
            MetricsError::BadMagic { expected, actual } => {
                let mut r: String = owned("runtime metrics bad magic: expected 0x");
                append_hex(&mut r, *expected);
                r.append(", got 0x");
                append_hex(&mut r, *actual);
                r
            },
            MetricsError::UnsupportedVersion { expected, actual } => {
                let mut r: String = owned("runtime metrics unsupported version: expected ");
                append_decimal(&mut r, *expected as u64);
                r.append(", got ");
                append_decimal(&mut r, *actual as u64);
                r
            },
            MetricsError::MetricCountMismatch { expected, actual } => {
                let mut r: String = owned("runtime metrics metric count mismatch: expected ");
                append_decimal(&mut r, *expected as u64);
                r.append(", got ");
                append_decimal(&mut r, *actual as u64);
                r
            },
            MetricsError::LayoutMismatch { expected, actual } => {
                let mut r: String = owned("runtime metrics layout mismatch: expected ");
                append_decimal(&mut r, *expected as u64);
                r.append(", got ");
                append_decimal(&mut r, *actual as u64);
                r
            },
        }
    }
}

} // verus!
