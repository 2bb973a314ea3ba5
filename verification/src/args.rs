//! What the program is told when it is started.

use vstd::prelude::*;

verus! {

/// `std::path::PathBuf`: a path, carried as it is.
#[verifier::external_type_specification]
#[verifier::external_body]
pub struct ExPathBuf(std::path::PathBuf);

/// The settings of the program.
#[derive(Clone, Debug)]
pub struct Args {
    /// The port to listen on.
    pub port: u16,
    /// The port of the native driver or plugin.
    pub native_port: u16,
    /// The host of the native driver or plugin.
    pub native_host: String,
    /// The path of the native driver, where one is given.
    pub native_driver: Option<std::path::PathBuf>,
}

impl Default for Args {
    /// The settings where nothing is said.
    fn default() -> (args: Args)
        ensures
            args.port == 4444,
            args.native_port == 4445,
            args.native_host@ == "127.0.0.1"@,
            args.native_driver is None,
    {
        Args {
            port: 4444,
            native_port: 4445,
            native_host: "127.0.0.1".to_owned(),
            native_driver: None,
        }
    }
}

} // verus!
