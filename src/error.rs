use vstd::prelude::*;

verus! {

/// Why a submission did not succeed.
#[derive(Debug)]
pub enum Error {
    /// A required key is absent from the project's properties.
    MissingProperty(String),
    /// The project asks for an authentication scheme other than `ldap`.
    UnsupportedAuthType(String),
    /// The one-time-password exchange could not be made.
    NegotiationFailed(String),
    /// The negotiated credentials could not be saved.
    CachePersistFailed(String),
    /// The project's property file is malformed.
    InvalidProject(String),
    /// The negotiated credentials are not a valid property file.
    InvalidCredentials(String),
    /// The server answered with an error status, and with this text, trailing
    /// whitespace removed, when it was readable.
    ServerStatus { code: u16, body: Option<String> },
    /// The submission could not be sent.
    Transport(String),
    /// A hook exited unsuccessfully.
    HookFailed { name: String, status: String },
    /// The course calendar is malformed.
    CalendarParse(String),
    /// The course calendar holds no entry for the project.
    CourseInfoNotFound,
    /// The course calendar holds no address for the project.
    CourseUrlNotFound,
    /// A hook could not be started.
    HookNotRun { name: String, cause: String },
}

} // verus!
