use vstd::prelude::*;

verus! {

/// The command line of the server.
#[derive(Clone, Debug, PartialEq, Eq)]
pub struct Cli {
    /// How many times `-v` was given.
    pub verbose: u8,
    /// The directory of the packet maps, registries and other game data.
    pub data_directory: String,
    /// The path of the TOML configuration file.
    pub config_path: String,
}

/// How much the server logs.
#[derive(Clone, Copy, Debug, PartialEq, Eq, Structural)]
pub enum LogLevel {
    Info,
    Debug,
    Trace,
}

impl Cli {
    /// The command line with every option at its default: no `-v`, the
    /// data in `./assets`, the configuration in `server.toml`.
    pub fn with_defaults() -> (c: Cli)
        ensures
            c.verbose == 0,
            c.data_directory@ == "./assets"@,
            c.config_path@ == "server.toml"@,
    {
        Cli { verbose: 0, data_directory: "./assets".to_owned(), config_path: "server.toml".to_owned() }
    }

    /// The log level the verbosity asks for: info without `-v`, debug with
    /// one, trace with more.
    pub fn log_level(&self) -> (l: LogLevel)
        ensures
            self.verbose == 0 ==> l == LogLevel::Info,
            self.verbose == 1 ==> l == LogLevel::Debug,
            self.verbose >= 2 ==> l == LogLevel::Trace,
    {
        if self.verbose == 0 {
            LogLevel::Info
        } else if self.verbose == 1 {
            LogLevel::Debug
        } else {
            LogLevel::Trace
        }
    }
}

} // verus!
