//! Configuration support: the pure part. Reading and deserializing the
//! configuration file stays with the caller.

use vstd::prelude::*;

use vstd::string::StringExecFns;

verus! {

/// Return default config file path on this system.
pub fn default_config_file_path() -> (r: String)
    ensures
        r@ == "mpkdb.toml"@,
{
    String::from_str("mpkdb.toml")
}

} // verus!
