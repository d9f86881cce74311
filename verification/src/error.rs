//! The failure taxonomy of configuration resolution.

use vstd::prelude::*;

verus! {

/// Every way the resolve operation can fail.  Each failure is terminal for
/// the call: nothing is recovered internally, the caller reports the message
/// and gives up.
#[derive(Clone, Copy, Debug, PartialEq, Eq, Structural)]
pub enum ConfigError {
    /// The home directory could not be determined.
    EnvironmentError,
    /// The configuration directory or file could not be created or opened.
    IOError,
    /// The user-supplied music database path was empty after trimming.
    ValidationError,
    /// The default configuration could not be encoded.  Defensive: the
    /// library frames the file text itself, so no transition produces it.
    SerializationError,
    /// An existing configuration file did not have the expected shape.
    ParseError,
}

/// The message that `ConfigError::message` returns for each failure.
pub open spec fn message_of(e: ConfigError) -> Seq<char> {
    match e {
        ConfigError::EnvironmentError => "Home directory not found"@,
        ConfigError::IOError => "Failed to create or open the config file"@,
        ConfigError::ValidationError => "Music database path cannot be empty"@,
        ConfigError::SerializationError => "Failed to write default config"@,
        ConfigError::ParseError => "Failed to parse config file"@,
    }
}

impl ConfigError {
    /// The short human-readable report for this failure.
    pub fn message(&self) -> (r: String)
        ensures
            r@ == message_of(*self),
    {
        match self {
            ConfigError::EnvironmentError => String::from_str("Home directory not found"),
            ConfigError::IOError => String::from_str("Failed to create or open the config file"),
            ConfigError::ValidationError => String::from_str("Music database path cannot be empty"),
            ConfigError::SerializationError => String::from_str("Failed to write default config"),
            ConfigError::ParseError => String::from_str("Failed to parse config file"),
        }
    }
}

} // verus!
