//! The service's configuration: the administrator password and the port,
//! with the defaults it starts from and the decisions taken when loading it.

use vstd::prelude::*;

use crate::text::{parse_u16, parse_u16_spec};

verus! {

/// The settings kept in the configuration file.
#[derive(Debug, Clone, PartialEq, Eq)]
pub struct Config {
    pub admin_password: String,
    pub port: u16,
}

/// A configuration as a mathematical value.
pub struct ConfigView {
    pub admin_password: Seq<char>,
    pub port: u16,
}

impl View for Config {
    type V = ConfigView;

    open spec fn view(&self) -> ConfigView {
        ConfigView { admin_password: self.admin_password@, port: self.port }
    }
}

/// The password that a fresh configuration holds.
pub open spec fn default_password() -> Seq<char> {
    seq!['a', 'd', 'm', 'i', 'n', '1', '2', '3']
}

/// The port that a fresh configuration holds.
pub open spec fn default_port() -> u16 {
    10119
}

/// The configuration file used where none is named.
pub open spec fn default_config_path() -> Seq<char> {
    seq!['c', 'o', 'n', 'f', 'i', 'g', '.', 't', 'o', 'm', 'l']
}

impl Default for Config {
    fn default() -> (c: Self)
        ensures
            c@.admin_password == default_password(),
            c@.port == default_port(),
    {
        let admin_password = String::from_str("admin123");
        proof {
            reveal_strlit("admin123");
        }
        assert(admin_password@ =~= default_password());
        Config { admin_password, port: 10119 }
    }
}

/// What was found at the configuration path.
pub enum ConfigFile {
    /// No file is there.
    Missing,
    /// A file is there, but it could not be read as a configuration.
    Invalid,
    /// The configuration that the file holds.
    Valid(Config),
}

/// What loading the configuration decided.
pub struct ConfigLoad {
    /// The configuration to run with.
    pub config: Config,
    /// Whether that configuration is to be written to the path.
    pub write_back: bool,
    /// Whether to warn that the file was unusable.
    pub warn: bool,
}

/// Where the configuration file is: the path that the environment names,
/// else `config.toml`.
pub fn config_path(from_env: Option<String>) -> (res: String)
    ensures
        res@ == match from_env {
            Some(p) => p@,
            None => default_config_path(),
        },
{
    match from_env {
        Some(p) => p,
        None => {
            let p = String::from_str("config.toml");
            proof {
                reveal_strlit("config.toml");
            }
            assert(p@ =~= default_config_path());
            p
        },
    }
}

impl Config {
    /// The configuration to run with, given what the file holds: a missing
    /// file is replaced by the defaults, which are then written there; an
    /// unusable one gives the defaults and a warning.
    pub fn resolve(found: ConfigFile) -> (res: ConfigLoad)
        ensures
            match found {
                ConfigFile::Missing => {
                    &&& res.config@.admin_password == default_password()
                    &&& res.config@.port == default_port()
                    &&& res.write_back
                    &&& !res.warn
                },
                ConfigFile::Invalid => {
                    &&& res.config@.admin_password == default_password()
                    &&& res.config@.port == default_port()
                    &&& !res.write_back
                    &&& res.warn
                },
                ConfigFile::Valid(c) => {
                    &&& res.config@ == c@
                    &&& !res.write_back
                    &&& !res.warn
                },
            },
    {
        match found {
            ConfigFile::Missing => ConfigLoad { config: Config::default(), write_back: true, warn: false },
            ConfigFile::Invalid => ConfigLoad { config: Config::default(), write_back: false, warn: true },
            ConfigFile::Valid(c) => ConfigLoad { config: c, write_back: false, warn: false },
        }
    }

    /// The configuration that a file gives: its password, and its port where
    /// the file names one, else the default port.
    pub fn from_stored(admin_password: String, port: Option<u16>) -> (res: Config)
        ensures
            res@.admin_password == admin_password@,
            res@.port == match port {
                Some(p) => p,
                None => default_port(),
            },
    {
        let port = match port {
            Some(p) => p,
            None => 10119,
        };
        Config { admin_password, port }
    }

    /// Replaces the administrator password; the port stays.
    pub fn set_password(&mut self, password: &str)
        ensures
            final(self)@.admin_password == password@,
            final(self)@.port == old(self)@.port,
    {
        self.admin_password = String::from_str(password);
    }

    /// Whether `input` is the administrator password.
    pub fn password_matches(&self, input: &str) -> (res: bool)
        ensures
            res == accepts(self@, input@),
    {
        let given = String::from_str(input);
        given == self.admin_password
    }

    /// The port to listen on: the one that the environment gives, where it
    /// is a valid port number, else the configured one.
    pub fn listen_port(&self, from_env: Option<String>) -> (res: u16)
        ensures
            res == match from_env {
                Some(v) => match parse_u16_spec(v@) {
                    Some(p) => p,
                    None => self.port,
                },
                None => self.port,
            },
    {
        match from_env {
            Some(v) => match parse_u16(v.as_str()) {
                Some(p) => p,
                None => self.port,
            },
            None => self.port,
        }
    }
}

/// Whether a configuration accepts `input` as its administrator password.
pub open spec fn accepts(c: ConfigView, input: Seq<char>) -> bool {
    c.admin_password == input
}

/// After the password is set to `p`, exactly `p` is accepted, whatever the
/// configuration held before.
pub proof fn law_set_password_then_verify(before: ConfigView, p: Seq<char>, q: Seq<char>)
    ensures
        accepts(ConfigView { admin_password: p, port: before.port }, q) <==> q == p,
{
}

} // verus!
