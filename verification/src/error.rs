//! Error values surfaced by the configuration and transport layers.

use vstd::prelude::*;

verus! {

/// Mathematical model of an [`Error`] value.
pub enum ErrorModel {
    /// A configuration key string that is not one of the recognized keys.
    UnknownConfigurationKey { key: Seq<char> },
    /// A deferred configuration value that could not be parsed when it was
    /// resolved. Carries the key it was stored under, the raw string, and
    /// the name of the type the string was parsed as.
    InvalidConfigValue { key: Seq<char>, raw: Seq<char>, target: Seq<char> },
    /// Any failure while materializing a client from valid configuration,
    /// wrapping a description of the underlying cause.
    Generic { message: Seq<char> },
}

/// Errors produced by this crate.
///
/// Three kinds are distinguished: configuration errors (an unrecognized key,
/// a malformed deferred value), and transport-construction errors wrapped
/// into the generic variant together with their underlying cause.
#[derive(Debug)]
pub enum ClientError {
    /// The given string does not name a recognized configuration key.
    UnknownConfigurationKey { key: String },
    /// A deferred configuration value failed to parse when resolved.
    InvalidConfigValue { key: String, raw: String, target: String },
    /// A transport-construction failure, wrapping the underlying cause.
    Generic { message: String },
}

impl View for ClientError {
    type V = ErrorModel;

    open spec fn view(&self) -> ErrorModel {
        match self {
            ClientError::UnknownConfigurationKey { key } => ErrorModel::UnknownConfigurationKey {
                key: key@,
            },
            ClientError::InvalidConfigValue { key, raw, target } => ErrorModel::InvalidConfigValue {
                key: key@,
                raw: raw@,
                target: target@,
            },
            ClientError::Generic { message } => ErrorModel::Generic { message: message@ },
        }
    }
}

impl ClientError {
    /// A human-readable description of the error.
    pub fn message(&self) -> (r: String)
        ensures
            self@ matches ErrorModel::Generic { message } ==> r@ == message,
            self@ matches ErrorModel::UnknownConfigurationKey { key } ==> r@
                == "unknown configuration key: "@ + key,
            self@ matches ErrorModel::InvalidConfigValue { key, raw, target } ==> r@
                == "unable to parse value of configuration key "@ + key + " as "@ + target + ": "@
                + raw,
    {
        match self {
            ClientError::UnknownConfigurationKey { key } => {
                let mut m = String::new();
                m.append("unknown configuration key: ");
                m.append(key.as_str());
                proof {
                    assert(m@ =~= "unknown configuration key: "@ + key@);
                }
                m
            },
            ClientError::InvalidConfigValue { key, raw, target } => {
                let mut m = String::new();
                m.append("unable to parse value of configuration key ");
                m.append(key.as_str());
                m.append(" as ");
                m.append(target.as_str());
                m.append(": ");
                m.append(raw.as_str());
                proof {
                    assert(m@ =~= "unable to parse value of configuration key "@ + key@ + " as "@
                        + target@ + ": "@ + raw@);
                }
                m
            },
            ClientError::Generic { message } => {
                let mut m = String::new();
                m.append(message.as_str());
                proof {
                    assert(m@ =~= message@);
                }
                m
            },
        }
    }
}

} // verus!
