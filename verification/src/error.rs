//! Why a block could not be built or refreshed.

use vstd::prelude::*;

verus! {

/// An environment variable that the address lookup reads.
#[derive(Clone, Copy, Debug, PartialEq, Eq, Structural)]
pub enum EnvVar {
    /// The configuration root, `XDG_CONFIG_HOME`.
    ConfigRoot,
    /// The display selector, `DISPLAY`.
    Display,
}

/// A file that the address lookup reads.
#[derive(Clone, Copy, Debug, PartialEq, Eq, Structural)]
pub enum SourceFile {
    /// The machine identity file.
    MachineId,
    /// The file in which the daemon publishes its address.
    Discovery,
    /// The sysfs file that holds a brightness level.
    Brightness,
}

/// The point at which the reply to the engine query stopped making sense.
#[derive(Clone, Copy, Debug, PartialEq, Eq, Structural)]
pub enum QueryFault {
    /// The bus answered with an error, or not at all.
    NoReply,
    /// The reply is a single value, not a structure with positions.
    NotAStructure,
    /// The structure has fewer than three positions.
    TooShort,
}

/// Every failure that the blocks report.
#[derive(Clone, Copy, Debug, PartialEq, Eq, Structural)]
pub enum BlockError {
    /// A needed environment variable is not set.
    MissingEnv(EnvVar),
    /// A file could not be opened or read.
    IoError(SourceFile),
    /// Text was read but does not have the expected shape.
    MalformedInput(SourceText),
    /// The bus could not be reached.
    ConnectionError,
    /// The bus was reached but the engine could not be learned from it.
    QueryError(QueryFault),
    /// The shared engine slot could not be read.
    LockError,
}

/// A piece of text whose shape is checked.
#[derive(Clone, Copy, Debug, PartialEq, Eq, Structural)]
pub enum SourceText {
    /// The value of the display selector.
    Display,
    /// The contents of the discovery file.
    Discovery,
    /// The contents of the brightness file.
    Brightness,
}

impl BlockError {
    /// A short description for a log line or an error widget.
    pub fn message(&self) -> (text: &'static str)
        ensures
            text@ == self.spec_message(),
    {
        match self {
            BlockError::MissingEnv(EnvVar::ConfigRoot) => "$XDG_CONFIG_HOME not set",
            BlockError::MissingEnv(EnvVar::Display) => "$DISPLAY not set. Try restarting bar if on sway",
            BlockError::IoError(SourceFile::MachineId) => "Could not read /etc/machine-id",
            BlockError::IoError(SourceFile::Discovery) => "Could not read the IBus address file",
            BlockError::IoError(SourceFile::Brightness) => "Failed to read brightness file",
            BlockError::MalformedInput(SourceText::Display) => "Failed to extract display number from $DISPLAY",
            BlockError::MalformedInput(SourceText::Discovery) => "Failed to extract address out of the IBus address file",
            BlockError::MalformedInput(SourceText::Brightness) => "Failed to read value from brightness file",
            BlockError::ConnectionError => "Failed to establish D-Bus connection",
            BlockError::QueryError(QueryFault::NoReply) => "Failed to query IBus",
            BlockError::QueryError(QueryFault::NotAStructure) => "Failed to parse D-Bus message (step 1)",
            BlockError::QueryError(QueryFault::TooShort) => "Failed to parse D-Bus message (step 2)",
            BlockError::LockError => "failed to acquire lock",
        }
    }

    /// The text that [`BlockError::message`] returns.
    pub open spec fn spec_message(&self) -> Seq<char> {
        match *self {
            BlockError::MissingEnv(EnvVar::ConfigRoot) => "$XDG_CONFIG_HOME not set"@,
            BlockError::MissingEnv(EnvVar::Display) => "$DISPLAY not set. Try restarting bar if on sway"@,
            BlockError::IoError(SourceFile::MachineId) => "Could not read /etc/machine-id"@,
            BlockError::IoError(SourceFile::Discovery) => "Could not read the IBus address file"@,
            BlockError::IoError(SourceFile::Brightness) => "Failed to read brightness file"@,
            BlockError::MalformedInput(SourceText::Display) => "Failed to extract display number from $DISPLAY"@,
            BlockError::MalformedInput(SourceText::Discovery) => "Failed to extract address out of the IBus address file"@,
            BlockError::MalformedInput(SourceText::Brightness) => "Failed to read value from brightness file"@,
            BlockError::ConnectionError => "Failed to establish D-Bus connection"@,
            BlockError::QueryError(QueryFault::NoReply) => "Failed to query IBus"@,
            BlockError::QueryError(QueryFault::NotAStructure) => "Failed to parse D-Bus message (step 1)"@,
            BlockError::QueryError(QueryFault::TooShort) => "Failed to parse D-Bus message (step 2)"@,
            BlockError::LockError => "failed to acquire lock"@,
        }
    }
}

} // verus!
