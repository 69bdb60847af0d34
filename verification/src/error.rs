//! The error taxonomy of the service and its structured report form.
//!
//! Every failure surfaced to the request boundary falls in one of a few
//! classes; the boundary maps each class to a transport-level status and a
//! structured body carrying an error-kind tag and a description.

use vstd::prelude::*;

verus! {

/// A failure of the service, one variant per failure class, each carrying a
/// human-readable description.
#[derive(Clone, Debug)]
pub enum MainError {
    /// A failure communicating with or executing a command against the
    /// key-value backend.
    RedisError(String),
    /// A lookup of a token value absent from the store.
    NotFound(String),
    /// A request payload that fails to parse into the expected shape.
    JsonPayloadError(String),
    /// A process-environment lookup failure during configuration.
    VarError(String),
    /// An unparsable numeric configuration parameter.
    ParseIntError(String),
}

/// The transport-level outcome class an error maps to.
#[derive(Clone, Copy, Debug, PartialEq, Eq, Structural)]
pub enum StatusClass {
    /// A server-side failure.
    InternalServerError,
    /// A missing resource.
    NotFound,
    /// A malformed request.
    BadRequest,
}

/// The structured error report returned to clients: an error-kind tag and a
/// human-readable description.
#[derive(Clone, Debug)]
pub struct MainErrorBody {
    pub error_type: String,
    pub description: String,
}

impl MainErrorBody {
    /// Builds the structured report for an error: the tag names the error's
    /// class and the description is carried over unchanged.
    pub fn from_error(error: &MainError) -> (r: MainErrorBody)
        ensures
            error matches MainError::RedisError(d) ==> r.error_type@ == "RedisError"@ && r.description@ == d@,
            error matches MainError::NotFound(d) ==> r.error_type@ == "NotFound"@ && r.description@ == d@,
            error matches MainError::JsonPayloadError(d) ==> r.error_type@ == "JsonPayloadError"@
                && r.description@ == d@,
            error matches MainError::VarError(d) ==> r.error_type@ == "VarError"@ && r.description@ == d@,
            error matches MainError::ParseIntError(d) ==> r.error_type@ == "ParseIntError"@
                && r.description@ == d@,
    {
        match error {
            MainError::RedisError(d) => MainErrorBody {
                error_type: String::from_str("RedisError"),
                description: d.clone(),
            },
            MainError::NotFound(d) => MainErrorBody {
                error_type: String::from_str("NotFound"),
                description: d.clone(),
            },
            MainError::JsonPayloadError(d) => MainErrorBody {
                error_type: String::from_str("JsonPayloadError"),
                description: d.clone(),
            },
            MainError::VarError(d) => MainErrorBody {
                error_type: String::from_str("VarError"),
                description: d.clone(),
            },
            MainError::ParseIntError(d) => MainErrorBody {
                error_type: String::from_str("ParseIntError"),
                description: d.clone(),
            },
        }
    }
}

impl MainError {
    /// The transport-level class of this error: backend and configuration
    /// failures are server-side, a miss is a missing resource, a payload
    /// failure is a bad request.
    pub fn status_class(&self) -> (r: StatusClass)
        ensures
            r == StatusClass::InternalServerError <==> (self matches MainError::RedisError(_)
                || self matches MainError::VarError(_) || self matches MainError::ParseIntError(_)),
            r == StatusClass::NotFound <==> self matches MainError::NotFound(_),
            r == StatusClass::BadRequest <==> self matches MainError::JsonPayloadError(_),
    {
        match self {
            MainError::RedisError(_) | MainError::VarError(_) | MainError::ParseIntError(_) => {
                StatusClass::InternalServerError
            },
            MainError::NotFound(_) => StatusClass::NotFound,
            MainError::JsonPayloadError(_) => StatusClass::BadRequest,
        }
    }

    /// The full response mapping for this error: its transport-level class
    /// together with its structured report body.
    pub fn error_response(&self) -> (r: (StatusClass, MainErrorBody))
        ensures
            r.0 == self.status_class_spec(),
            self matches MainError::RedisError(d) ==> r.1.error_type@ == "RedisError"@
                && r.1.description@ == d@,
            self matches MainError::NotFound(d) ==> r.1.error_type@ == "NotFound"@
                && r.1.description@ == d@,
            self matches MainError::JsonPayloadError(d) ==> r.1.error_type@ == "JsonPayloadError"@
                && r.1.description@ == d@,
            self matches MainError::VarError(d) ==> r.1.error_type@ == "VarError"@
                && r.1.description@ == d@,
            self matches MainError::ParseIntError(d) ==> r.1.error_type@ == "ParseIntError"@
                && r.1.description@ == d@,
    {
        (self.status_class(), MainErrorBody::from_error(self))
    }

    /// The human-readable description this error carries, whatever its
    /// class.
    pub fn description(&self) -> (r: &String)
        ensures
            match self {
                MainError::RedisError(d) => r@ == d@,
                MainError::NotFound(d) => r@ == d@,
                MainError::JsonPayloadError(d) => r@ == d@,
                MainError::VarError(d) => r@ == d@,
                MainError::ParseIntError(d) => r@ == d@,
            },
    {
        match self {
            MainError::RedisError(d) => d,
            MainError::NotFound(d) => d,
            MainError::JsonPayloadError(d) => d,
            MainError::VarError(d) => d,
            MainError::ParseIntError(d) => d,
        }
    }

    /// The transport-level class of an error, as a specification.
    pub open spec fn status_class_spec(&self) -> StatusClass {
        match self {
            MainError::RedisError(_) | MainError::VarError(_) | MainError::ParseIntError(_) => {
                StatusClass::InternalServerError
            },
            MainError::NotFound(_) => StatusClass::NotFound,
            MainError::JsonPayloadError(_) => StatusClass::BadRequest,
        }
    }
}

} // verus!
