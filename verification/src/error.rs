//! The error that is handed to the editor's scripts.

use vstd::prelude::*;

verus! {

/// A failure as a script sees it: a message.
#[derive(Debug)]
pub struct LuaError {
    pub error: String,
}

impl LuaError {
    /// The error whose message is `Err: ` and then `value`.
    pub fn new(value: String) -> (r: LuaError)
        ensures
            r.error@ == "Err: "@ + value@,
    {
        let mut error: String = "Err: ".to_owned();
        error.append(value.as_str());
        LuaError { error }
    }
}

impl From<String> for LuaError {
    /// The error whose message is `Err: ` and then `value`.
    fn from(value: String) -> (r: LuaError)
        ensures
            r.error@ == "Err: "@ + value@,
    {
        LuaError::new(value)
    }
}

impl vstd::std_specs::convert::FromSpecImpl<String> for LuaError {
    open spec fn obeys_from_spec() -> bool {
        false
    }

    open spec fn from_spec(v: String) -> LuaError {
        arbitrary()
    }
}

} // verus!
