//! The address of the game editor's command server.

use crate::text::{decimal, decimal_string};
use vstd::prelude::*;

verus! {

/// The address of `command` on the editor that listens on `port`; the address of the
/// list of commands where no command is named.
pub open spec fn command_url_text(port: u16, command: Option<String>) -> Seq<char> {
    "http://127.0.0.1:"@ + decimal(port as nat) + "/command/"@ + match command {
        Some(c) => c@,
        None => Seq::empty(),
    }
}

/// The address of `command` on the editor that listens on `port`.
pub fn command_url(port: u16, command: Option<String>) -> (r: String)
    ensures
        r@ == command_url_text(port, command),
{
    let mut url: String = "http://127.0.0.1:".to_owned();
    url.append(decimal_string(port as u64).as_str());
    url.append("/command/");
    match &command {
        Some(c) => {
            url.append(c.as_str());
        },
        None => {
            assert(url@ == url@ + Seq::<char>::empty());
        },
    }
    url
}

} // verus!
