//! The log capability: its severity scale as carried on the wire, and its
//! stable identifier for extension negotiation.

use crate::extensions::ExtensionDescriptor;
use vstd::prelude::*;

verus! {

/// How significant a log message is, with `Debug` being the least important
/// and `Fatal` the most important; the two misbehaving grades let one side
/// call out a protocol violation by the other.
#[derive(Copy, Clone, Debug, PartialEq, Eq, Structural)]
pub enum LogSeverity {
    Debug,
    Info,
    Warning,
    Error,
    Fatal,
    HostMisbehaving,
    PluginMisbehaving,
}

/// The wire value each severity travels as.
pub open spec fn severity_to_raw(severity: LogSeverity) -> i32 {
    match severity {
        LogSeverity::Debug => 0,
        LogSeverity::Info => 1,
        LogSeverity::Warning => 2,
        LogSeverity::Error => 3,
        LogSeverity::Fatal => 4,
        LogSeverity::HostMisbehaving => 5,
        LogSeverity::PluginMisbehaving => 6,
    }
}

/// The severity a wire value decodes to: absent outside the known scale.
pub open spec fn severity_from_raw(raw: i32) -> Option<LogSeverity> {
    if raw == 0 {
        Some(LogSeverity::Debug)
    } else if raw == 1 {
        Some(LogSeverity::Info)
    } else if raw == 2 {
        Some(LogSeverity::Warning)
    } else if raw == 3 {
        Some(LogSeverity::Error)
    } else if raw == 4 {
        Some(LogSeverity::Fatal)
    } else if raw == 5 {
        Some(LogSeverity::HostMisbehaving)
    } else if raw == 6 {
        Some(LogSeverity::PluginMisbehaving)
    } else {
        None
    }
}

impl LogSeverity {
    /// Decodes a wire severity, or nothing for a value outside the scale.
    pub fn from_raw(raw: i32) -> (r: Option<LogSeverity>)
        ensures
            r == severity_from_raw(raw),
    {
        if raw == 0 {
            Some(LogSeverity::Debug)
        } else if raw == 1 {
            Some(LogSeverity::Info)
        } else if raw == 2 {
            Some(LogSeverity::Warning)
        } else if raw == 3 {
            Some(LogSeverity::Error)
        } else if raw == 4 {
            Some(LogSeverity::Fatal)
        } else if raw == 5 {
            Some(LogSeverity::HostMisbehaving)
        } else if raw == 6 {
            Some(LogSeverity::PluginMisbehaving)
        } else {
            None
        }
    }

    /// Encodes this severity as its wire value.
    pub fn to_raw(self) -> (r: i32)
        ensures
            r == severity_to_raw(self),
    {
        match self {
            LogSeverity::Debug => 0,
            LogSeverity::Info => 1,
            LogSeverity::Warning => 2,
            LogSeverity::Error => 3,
            LogSeverity::Fatal => 4,
            LogSeverity::HostMisbehaving => 5,
            LogSeverity::PluginMisbehaving => 6,
        }
    }
}

/// The log capability's stable identifier on the wire: the bytes of
/// `clap.log`, terminating NUL included.
pub open spec fn log_identifier() -> Seq<u8> {
    seq![99u8, 108u8, 97u8, 112u8, 46u8, 108u8, 111u8, 103u8, 0u8]
}

/// The host's log capability as seen by the negotiation layer: the address of
/// its fixed function table. Invoking the table's entries crosses the binary
/// boundary and lives outside this layer.
pub struct Log {
    pub table: usize,
}

impl Log {
    /// The identifier under which the log capability is advertised.
    pub fn identifier() -> (r: Vec<u8>)
        ensures
            r@ == log_identifier(),
    {
        let r: Vec<u8> = vec![99u8, 108u8, 97u8, 112u8, 46u8, 108u8, 111u8, 103u8, 0u8];
        proof {
            assert(r@ =~= log_identifier());
        }
        r
    }

    /// This capability as a descriptor ready to probe against a registry.
    pub fn descriptor(&self) -> (r: ExtensionDescriptor)
        ensures
            r.identifier@ == log_identifier(),
            r.table == self.table,
    {
        ExtensionDescriptor { identifier: Log::identifier(), table: self.table }
    }
}

/// Round trip: every severity decodes back from its own wire value.
pub proof fn lemma_severity_round_trip(severity: LogSeverity)
    ensures
        severity_from_raw(severity_to_raw(severity)) == Some(severity),
{
}

/// Exactness: whenever a wire value decodes to a severity, encoding that
/// severity gives the same wire value back.
pub proof fn lemma_severity_raw_round_trip(raw: i32)
    requires
        severity_from_raw(raw) is Some,
    ensures
        severity_to_raw(severity_from_raw(raw).unwrap()) == raw,
{
}

} // verus!
