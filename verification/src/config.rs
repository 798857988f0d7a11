//! The configuration of one run, and how it is resolved from option values.

use vstd::prelude::*;
use crate::decimal::parse_unsigned;
use crate::decimal::parse_unsigned_spec;

verus! {

/// Message length in bytes when none is given.
pub const DEFAULT_LENGTH: usize = 512;

/// Run duration in seconds when none is given.
pub const DEFAULT_DURATION: u64 = 60;

/// Number of connections when none is given.
pub const DEFAULT_CONNECTIONS: u32 = 50;

/// The address that is used when none is given.
///
/// The usage text names port 12345 as the default; the address in force is
/// this one.
pub open spec fn default_address() -> Seq<char> {
    "127.0.0.1:8901"@
}

/// What a benchmark run is given: where to connect, how long each message
/// is, how long the run lasts and how many connections it drives.
#[derive(Debug)]
pub struct BenchConfig {
    /// Host and port of the echo server.
    pub address: String,
    /// Bytes in each request and each reply.
    pub payload_length: usize,
    /// Seconds between the start of the run and the stop signal.
    pub duration_seconds: u64,
    /// Number of workers, each with one connection.
    pub connection_count: u32,
}

/// Why a configuration cannot be run.
#[derive(Clone, Copy, Debug, PartialEq, Eq, Structural)]
pub enum ConfigError {
    /// The message length is 0: the last byte of a message is its
    /// terminator, so a message has at least one byte.
    EmptyPayload,
    /// There is no connection to drive.
    NoConnections,
    /// The run lasts 0 seconds: there is no rate over no time.
    NoDuration,
}

impl ConfigError {
    /// What `message` writes.
    pub open spec fn message_text(self) -> Seq<char> {
        match self {
            ConfigError::EmptyPayload => "the message length must be at least 1"@,
            ConfigError::NoConnections => "the number of connections must be at least 1"@,
            ConfigError::NoDuration => "the duration must be at least 1 second"@,
        }
    }

    /// The diagnostic for the error, which names what has to be at least 1.
    pub fn message(&self) -> (text: String)
        ensures
            text@ == self.message_text(),
    {
        match self {
            ConfigError::EmptyPayload => String::from_str("the message length must be at least 1"),
            ConfigError::NoConnections => String::from_str(
                "the number of connections must be at least 1",
            ),
            ConfigError::NoDuration => String::from_str("the duration must be at least 1 second"),
        }
    }
}

/// The text of an optional string.
pub open spec fn text_of(value: Option<String>) -> Option<Seq<char>> {
    match value {
        Some(text) => Some(text@),
        None => None,
    }
}

/// The number that an option value stands for: the number it writes if it
/// writes one that is at most `max`, else `default`. An option that was not
/// given is read as the empty text, which writes no number; so it gives the
/// default, as does every value that is no number or too large a one.
pub open spec fn number_or(value: Option<Seq<char>>, max: nat, default: nat) -> nat {
    let text = match value {
        Some(text) => text,
        None => Seq::empty(),
    };
    match parse_unsigned_spec(text, max) {
        Some(n) => n,
        None => default,
    }
}

/// Reads an option value as a number, with a default.
pub fn resolve_number(value: &Option<String>, max: u64, default: u64) -> (n: u64)
    ensures
        n == number_or(text_of(*value), max as nat, default as nat),
{
    let parsed = match value {
        Some(text) => parse_unsigned(text.as_str(), max),
        None => None,
    };
    match parsed {
        Some(n) => n,
        None => default,
    }
}

impl BenchConfig {
    /// Whether the configuration can be run: a message has at least one
    /// byte, there is at least one connection, and the run lasts at least
    /// one second.
    pub open spec fn is_valid(&self) -> bool {
        self.payload_length >= 1 && self.connection_count >= 1 && self.duration_seconds >= 1
    }

    /// What `validate` answers: the first of the three conditions that
    /// fails, in the order length, connections, duration.
    pub open spec fn validate_spec(&self) -> Result<(), ConfigError> {
        if self.payload_length == 0 {
            Err(ConfigError::EmptyPayload)
        } else if self.connection_count == 0 {
            Err(ConfigError::NoConnections)
        } else if self.duration_seconds == 0 {
            Err(ConfigError::NoDuration)
        } else {
            Ok(())
        }
    }

    /// Whether this is the configuration that the option values stand for:
    /// each number is the one its option writes, or the default of that
    /// option; the address is the one given, or `default_address()`.
    pub open spec fn resolved_from(
        &self,
        address: Option<Seq<char>>,
        length: Option<Seq<char>>,
        duration: Option<Seq<char>>,
        connections: Option<Seq<char>>,
    ) -> bool {
        &&& self.address@ == match address {
            Some(text) => text,
            None => default_address(),
        }
        &&& self.payload_length == number_or(length, usize::MAX as nat, DEFAULT_LENGTH as nat)
        &&& self.duration_seconds == number_or(duration, u64::MAX as nat, DEFAULT_DURATION as nat)
        &&& self.connection_count == number_or(
            connections,
            u32::MAX as nat,
            DEFAULT_CONNECTIONS as nat,
        )
    }

    /// The configuration that the option values stand for.
    ///
    /// Each number falls back to its default where the option was not given
    /// or does not write a number of its type; the address falls back to
    /// `default_address()` where it was not given. Nothing is rejected here,
    /// a 0 is a number like any other: `validate` tells whether the result
    /// can be run.
    pub fn resolve(
        address: Option<String>,
        length: Option<String>,
        duration: Option<String>,
        connections: Option<String>,
    ) -> (config: BenchConfig)
        ensures
            config.resolved_from(
                text_of(address),
                text_of(length),
                text_of(duration),
                text_of(connections),
            ),
    {
        let payload_length = resolve_number(&length, usize::MAX as u64, DEFAULT_LENGTH as u64);
        let duration_seconds = resolve_number(&duration, u64::MAX, DEFAULT_DURATION);
        let connection_count = resolve_number(
            &connections,
            u32::MAX as u64,
            DEFAULT_CONNECTIONS as u64,
        );
        let address = match address {
            Some(text) => text,
            None => String::from_str("127.0.0.1:8901"),
        };
        BenchConfig {
            address,
            payload_length: payload_length as usize,
            duration_seconds,
            connection_count: connection_count as u32,
        }
    }

    /// Tells whether the configuration can be run, and if not, why.
    pub fn validate(&self) -> (checked: Result<(), ConfigError>)
        ensures
            checked == self.validate_spec(),
            checked is Ok <==> self.is_valid(),
    {
        if self.payload_length == 0 {
            Err(ConfigError::EmptyPayload)
        } else if self.connection_count == 0 {
            Err(ConfigError::NoConnections)
        } else if self.duration_seconds == 0 {
            Err(ConfigError::NoDuration)
        } else {
            Ok(())
        }
    }
}

} // verus!
