//! Errors reported by the Blaze client.

use vstd::prelude::*;

use crate::text::{decimal, u64_text};

verus! {

/// Every failure the client reports. Failures of the transport, of local
/// files and of decoders carry their message text.
#[derive(Clone, Debug, PartialEq)]
pub enum BlazeError {
    /// The HTTP request could not be made.
    Http(String),
    /// The API answered with a non-success status.
    Api { status: u16, message: String },
    /// The API refused the credentials (status 401).
    Auth(String),
    /// A local configuration file could not be read.
    Config(String),
    /// A local I/O operation failed.
    Io(String),
    /// A JSON body could not be encoded or decoded.
    Json(String),
    /// A TOML configuration file could not be parsed.
    Toml(String),
    /// No card id starts with the given prefix.
    NotFound(String),
    /// Several card ids start with the given prefix.
    Ambiguous { prefix: String, count: usize },
    /// The user's input was malformed.
    InvalidInput(String),
    /// Any other failure.
    Other(String),
}

impl BlazeError {
    /// The text shown to the user for this error.
    pub open spec fn spec_message(&self) -> Seq<char> {
        match self {
            BlazeError::Http(m) => "HTTP request failed: "@ + m@,
            BlazeError::Api { status, message } => "API error ("@ + decimal(*status as nat) + "): "@
                + message@,
            BlazeError::Auth(m) => "Authentication failed: "@ + m@,
            BlazeError::Config(m) => "Config error: "@ + m@,
            BlazeError::Io(m) => "IO error: "@ + m@,
            BlazeError::Json(m) => "JSON error: "@ + m@,
            BlazeError::Toml(m) => "TOML parse error: "@ + m@,
            BlazeError::NotFound(m) => "Card not found: "@ + m@,
            BlazeError::Ambiguous { prefix, count } => "Ambiguous card id '"@ + prefix@ + "': "@
                + decimal(*count as nat) + " cards match; use a longer prefix"@,
            BlazeError::InvalidInput(m) => "Invalid input: "@ + m@,
            BlazeError::Other(m) => m@,
        }
    }

    /// The text shown to the user for this error.
    pub fn message(&self) -> (r: String)
        ensures
            r@ == self.spec_message(),
    {
        let (head, tail): (&str, &String) = match self {
            BlazeError::Http(m) => ("HTTP request failed: ", m),
            BlazeError::Api { status, message } => {
                let mut r = String::from_str("API error (");
                let digits = u64_text(*status as u64);
                r.append(digits.as_str());
                r.append("): ");
                r.append(message.as_str());
                return r;
            },
            BlazeError::Auth(m) => ("Authentication failed: ", m),
            BlazeError::Config(m) => ("Config error: ", m),
            BlazeError::Io(m) => ("IO error: ", m),
            BlazeError::Json(m) => ("JSON error: ", m),
            BlazeError::Toml(m) => ("TOML parse error: ", m),
            BlazeError::NotFound(m) => ("Card not found: ", m),
            BlazeError::Ambiguous { prefix, count } => {
                let mut r = String::from_str("Ambiguous card id '");
                r.append(prefix.as_str());
                r.append("': ");
                let digits = u64_text(*count as u64);
                r.append(digits.as_str());
                r.append(" cards match; use a longer prefix");
                return r;
            },
            BlazeError::InvalidInput(m) => ("Invalid input: ", m),
            BlazeError::Other(m) => ("", m),
        };
        let mut r = String::from_str(head);
        r.append(tail.as_str());
        proof {
            reveal_strlit("");
        }
        r
    }
}

} // verus!
