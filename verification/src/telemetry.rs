//! The public severity classification attached to telemetry items, and its
//! mapping onto the wire-level severity of the rendered payload.

use vstd::prelude::*;

use crate::contracts;

verus! {

/// Defines the level of severity for the event.
#[derive(Debug, Clone, Copy, PartialEq, Eq, Structural)]
pub enum SeverityLevel {
    /// Verbose severity level.
    Verbose,
    /// Information severity level.
    Information,
    /// Warning severity level.
    Warning,
    /// Error severity level.
    Error,
    /// Critical severity level.
    Critical,
}

/// The wire-level severity that each public severity maps onto.
pub open spec fn spec_severity_contract(severity: SeverityLevel) -> contracts::SeverityLevel {
    match severity {
        SeverityLevel::Verbose => contracts::SeverityLevel::Verbose,
        SeverityLevel::Information => contracts::SeverityLevel::Information,
        SeverityLevel::Warning => contracts::SeverityLevel::Warning,
        SeverityLevel::Error => contracts::SeverityLevel::Error,
        SeverityLevel::Critical => contracts::SeverityLevel::Critical,
    }
}

impl From<SeverityLevel> for contracts::SeverityLevel {
    fn from(severity: SeverityLevel) -> (r: Self)
        ensures
            r == spec_severity_contract(severity),
    {
        match severity {
            SeverityLevel::Verbose => contracts::SeverityLevel::Verbose,
            SeverityLevel::Information => contracts::SeverityLevel::Information,
            SeverityLevel::Warning => contracts::SeverityLevel::Warning,
            SeverityLevel::Error => contracts::SeverityLevel::Error,
            SeverityLevel::Critical => contracts::SeverityLevel::Critical,
        }
    }
}

impl vstd::std_specs::convert::FromSpecImpl<SeverityLevel> for contracts::SeverityLevel {
    open spec fn obeys_from_spec() -> bool {
        true
    }

    open spec fn from_spec(severity: SeverityLevel) -> Self {
        spec_severity_contract(severity)
    }
}

} // verus!
