//! Configuration values of the platform.
use vstd::prelude::*;

verus! {

/// A call of the configuration.
#[derive(Debug)]
pub enum ConfigRequest {
    Read { key: String },
    Write { key: String, value: String },
}

/// A call of the configuration, by what it is asked.
pub ghost enum ConfigCall {
    Read { key: Seq<char> },
    Write { key: Seq<char>, value: Seq<char> },
}

impl View for ConfigRequest {
    type V = ConfigCall;

    open spec fn view(&self) -> ConfigCall {
        match *self {
            ConfigRequest::Read { key } => ConfigCall::Read { key: key@ },
            ConfigRequest::Write { key, value } => ConfigCall::Write { key: key@, value: value@ },
        }
    }
}

/// The configuration that a platform provides.
pub trait ConfigService: Send + Sync {
    /// Whether reading the key can give the value.
    open spec fn may_hold(&self, key: Seq<char>, value: Option<Seq<char>>) -> bool {
        true
    }

    /// Whether the key was given the value.
    open spec fn was_told(&self, key: Seq<char>, value: Seq<char>) -> bool {
        true
    }

    /// The value of a key.
    fn get(&self, key: &str) -> (r: Option<String>)
        ensures
            self.may_hold(
                key@,
                match r {
                    Some(value) => Some(value@),
                    None => None,
                },
            ),
    ;

    /// Gives a key a value.
    fn set(&self, key: &str, value: &str)
        ensures
            self.was_told(key@, value@),
    ;
}

} // verus!
