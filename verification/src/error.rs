//! The failures of the bridge and the status under which each is reported.

use vstd::prelude::*;

verus! {

/// A field that a request must carry and does not.
#[derive(Clone, Copy, Debug, PartialEq, Eq, Structural)]
pub enum MissingField {
    Address,
    Position,
    BlockNumber,
}

impl MissingField {
    /// The text that reports the absent field.
    pub open spec fn message_spec(self) -> Seq<char> {
        match self {
            MissingField::Address => "Address is none"@,
            MissingField::Position => "Position is none"@,
            MissingField::BlockNumber => "Block number is none"@,
        }
    }

    /// Returns the text that reports the absent field.
    pub fn message(self) -> (text: &'static str)
        ensures
            text@ == self.message_spec(),
    {
        match self {
            MissingField::Address => "Address is none",
            MissingField::Position => "Position is none",
            MissingField::BlockNumber => "Block number is none",
        }
    }
}

/// Why an invocation of the plugin gave no output bytes.
#[derive(Clone, Copy, Debug, PartialEq, Eq, Structural)]
pub enum InvocationError {
    /// The plugin exports no function of the requested name.
    UnknownMethod,
    /// The plugin ran and signalled failure, trapped or aborted.
    PluginExecutionFailure,
    /// The plugin could not be reached: the engine refused to enter it.
    PluginUnavailable,
    /// The plugin ran and the engine could not read any output from it.
    NoOutput,
}

impl InvocationError {
    /// The text that reports the failure.
    pub open spec fn message_spec(self) -> Seq<char> {
        match self {
            InvocationError::UnknownMethod => "Plugin does not export the method"@,
            InvocationError::PluginExecutionFailure => "Plugin execution failed"@,
            InvocationError::PluginUnavailable => "Plugin is unavailable"@,
            InvocationError::NoOutput => "Plugin produced no output"@,
        }
    }

    /// Returns the text that reports the failure.
    pub fn message(self) -> (text: &'static str)
        ensures
            text@ == self.message_spec(),
    {
        match self {
            InvocationError::UnknownMethod => "Plugin does not export the method",
            InvocationError::PluginExecutionFailure => "Plugin execution failed",
            InvocationError::PluginUnavailable => "Plugin is unavailable",
            InvocationError::NoOutput => "Plugin produced no output",
        }
    }
}

/// The status category under which a failure is reported to the caller.
#[derive(Clone, Copy, Debug, PartialEq, Eq, Structural)]
pub enum StatusKind {
    InvalidArgument,
    Internal,
    Unavailable,
}

/// A failed call of the service.
#[derive(Clone, Copy, Debug, PartialEq, Eq, Structural)]
pub enum ServiceError {
    /// The request lacks a required field. Found before the plugin is involved.
    InvalidArgument(MissingField),
    /// The invocation of the plugin failed.
    Invocation(InvocationError),
    /// The plugin's output is not an encoding of the expected response.
    MalformedResponse,
}

impl ServiceError {
    /// The status category of the failure: a missing field is the caller's
    /// fault, an unreachable plugin is reported as unavailable, and everything
    /// else is internal.
    pub open spec fn kind_spec(self) -> StatusKind {
        match self {
            ServiceError::InvalidArgument(_) => StatusKind::InvalidArgument,
            ServiceError::Invocation(InvocationError::PluginUnavailable) => StatusKind::Unavailable,
            ServiceError::Invocation(_) => StatusKind::Internal,
            ServiceError::MalformedResponse => StatusKind::Internal,
        }
    }

    /// The text that accompanies the status.
    pub open spec fn message_spec(self) -> Seq<char> {
        match self {
            ServiceError::InvalidArgument(field) => field.message_spec(),
            ServiceError::Invocation(error) => error.message_spec(),
            ServiceError::MalformedResponse => "Plugin response is malformed"@,
        }
    }

    /// Returns the status category of the failure.
    pub fn kind(self) -> (kind: StatusKind)
        ensures
            kind == self.kind_spec(),
    {
        match self {
            ServiceError::InvalidArgument(_) => StatusKind::InvalidArgument,
            ServiceError::Invocation(InvocationError::PluginUnavailable) => StatusKind::Unavailable,
            ServiceError::Invocation(_) => StatusKind::Internal,
            ServiceError::MalformedResponse => StatusKind::Internal,
        }
    }

    /// Returns the text that accompanies the status.
    pub fn message(self) -> (text: &'static str)
        ensures
            text@ == self.message_spec(),
    {
        match self {
            ServiceError::InvalidArgument(field) => field.message(),
            ServiceError::Invocation(error) => error.message(),
            ServiceError::MalformedResponse => "Plugin response is malformed",
        }
    }
}

} // verus!
