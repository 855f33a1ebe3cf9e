//! The name under which the bridge program is installed.

use crate::focus::Platform;
use vstd::prelude::*;

verus! {

/// The file name of the bridge program on `platform`.
pub open spec fn exe_name_text(platform: Platform) -> Seq<char> {
    if platform == Platform::Windows {
        "defold-nvim-bridge.exe"@
    } else {
        "defold-nvim-bridge"@
    }
}

/// The file name of the bridge program on `platform`.
pub fn exe_name(platform: Platform) -> (r: String)
    ensures
        r@ == exe_name_text(platform),
{
    match platform {
        Platform::Windows => "defold-nvim-bridge.exe".to_owned(),
        _ => "defold-nvim-bridge".to_owned(),
    }
}

} // verus!
