//! The error kinds of the system, each with a human message.
use vstd::prelude::*;
use crate::text::{int_text, decimal_text, owned};

verus! {

/// Error taxonomy shared by the components.
#[derive(Debug, Clone)]
pub enum PullpiriError {
    Configuration { message: String },
    Grpc { message: String },
    Etcd { message: String },
    Io { message: String },
    Parse { message: String },
    Runtime { message: String },
    Timeout { timeout_ms: u64 },
    Internal { message: String },
}

/// The text an error reads as.
pub open spec fn error_text(e: PullpiriError) -> Seq<char> {
    match e {
        PullpiriError::Configuration { message } => "Configuration error: "@ + message@,
        PullpiriError::Grpc { message } => "gRPC error: "@ + message@,
        PullpiriError::Etcd { message } => "ETCD error: "@ + message@,
        PullpiriError::Io { message } => "I/O error: "@ + message@,
        PullpiriError::Parse { message } => "Parsing error: "@ + message@,
        PullpiriError::Runtime { message } => "Runtime error: "@ + message@,
        PullpiriError::Timeout { timeout_ms } =>
            "Timeout error: operation timed out after "@ + decimal_text(timeout_ms as int) + "ms"@,
        PullpiriError::Internal { message } => "Internal error: "@ + message@,
    }
}

impl PullpiriError {
    /// A configuration error.
    pub fn config(message: String) -> (r: PullpiriError)
        ensures
            r == (PullpiriError::Configuration { message }),
    {
        PullpiriError::Configuration { message }
    }

    /// A transport error.
    pub fn grpc(message: String) -> (r: PullpiriError)
        ensures
            r == (PullpiriError::Grpc { message }),
    {
        PullpiriError::Grpc { message }
    }

    /// A KV store error.
    pub fn etcd(message: String) -> (r: PullpiriError)
        ensures
            r == (PullpiriError::Etcd { message }),
    {
        PullpiriError::Etcd { message }
    }

    /// A file or stream error.
    pub fn io(message: String) -> (r: PullpiriError)
        ensures
            r == (PullpiriError::Io { message }),
    {
        PullpiriError::Io { message }
    }

    /// A parsing or serialization error.
    pub fn parse(message: String) -> (r: PullpiriError)
        ensures
            r == (PullpiriError::Parse { message }),
    {
        PullpiriError::Parse { message }
    }

    /// A runtime error.
    pub fn runtime(message: String) -> (r: PullpiriError)
        ensures
            r == (PullpiriError::Runtime { message }),
    {
        PullpiriError::Runtime { message }
    }

    /// A timeout after `timeout_ms` milliseconds.
    pub fn timeout(timeout_ms: u64) -> (r: PullpiriError)
        ensures
            r == (PullpiriError::Timeout { timeout_ms }),
    {
        PullpiriError::Timeout { timeout_ms }
    }

    /// An internal error.
    pub fn internal(message: String) -> (r: PullpiriError)
        ensures
            r == (PullpiriError::Internal { message }),
    {
        PullpiriError::Internal { message }
    }

    /// The text of the error.
    pub fn to_string(&self) -> (r: String)
        ensures
            r@ == error_text(*self),
    {
        let (head, body): (&str, &String) = match self {
            PullpiriError::Configuration { message } => ("Configuration error: ", message),
            PullpiriError::Grpc { message } => ("gRPC error: ", message),
            PullpiriError::Etcd { message } => ("ETCD error: ", message),
            PullpiriError::Io { message } => ("I/O error: ", message),
            PullpiriError::Parse { message } => ("Parsing error: ", message),
            PullpiriError::Runtime { message } => ("Runtime error: ", message),
            PullpiriError::Timeout { timeout_ms } => {
                let mut r = owned("Timeout error: operation timed out after ");
                let n = int_text(*timeout_ms as i128);
                r.append(n.as_str());
                r.append("ms");
                return r;
            },
            PullpiriError::Internal { message } => ("Internal error: ", message),
        };
        let mut r = owned(head);
        r.append(body.as_str());
        r
    }
}

} // verus!
