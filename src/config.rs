//! The client's configuration, and how older files are read.

use vstd::prelude::*;

use crate::text::str_eq;

verus! {

/// Where the API and console are, and the token to present.
pub struct Config {
    pub version: String,
    pub api: String,
    pub console: String,
    pub token: Option<String>,
}

/// A configuration file of the second version.
pub struct ConfigV2 {
    pub version: String,
    pub api: String,
    pub console: String,
    pub token: Option<String>,
}

/// A configuration file of the first version, which had no console.
pub struct ConfigV1 {
    pub version: String,
    pub api: String,
    pub token: Option<String>,
}

impl Config {
    /// The name of the configuration file in the client's home directory.
    pub const CONFIG_FILE: &'static str = "config.toml";

    /// The version that this client writes.
    pub const VERSION: &'static str = "2";

    pub const DEFAULT_API: &'static str = "https://api.statehub.io";

    pub const DEFAULT_CONSOLE: &'static str = "https://console.statehub.io";

    pub fn api(&self) -> (r: &str)
        ensures
            r@ == self.api@,
    {
        self.api.as_str()
    }

    pub fn console(&self) -> (r: &str)
        ensures
            r@ == self.console@,
    {
        self.console.as_str()
    }

    /// The API address given on the command line wins over the file's.
    pub fn optionally_management_api(self, api: Option<String>) -> (r: Config)
        ensures
            r.api == (match api {
                Some(a) => a,
                None => self.api,
            }),
            r.console == self.console,
            r.token == self.token,
            r.version == self.version,
    {
        match api {
            Some(api) => Config { api, ..self },
            None => self,
        }
    }

    /// The console address given on the command line wins over the file's.
    pub fn optionally_management_console(self, console: Option<String>) -> (r: Config)
        ensures
            r.console == (match console {
                Some(c) => c,
                None => self.console,
            }),
            r.api == self.api,
            r.token == self.token,
            r.version == self.version,
    {
        match console {
            Some(console) => Config { console, ..self },
            None => self,
        }
    }

    /// The token given wins; without one, the file's stays.
    pub fn set_token(self, token: Option<String>) -> (r: Config)
        ensures
            r.token == (match token {
                Some(t) => Some(t),
                None => self.token,
            }),
            r.api == self.api,
            r.console == self.console,
            r.version == self.version,
    {
        let token = match token {
            Some(t) => Some(t),
            None => self.token,
        };
        Config { token, ..self }
    }

    pub fn token(&self) -> (r: Option<&str>)
        ensures
            match r {
                Some(t) => self.token matches Some(s) && s@ == t@,
                None => self.token is None,
            },
    {
        match &self.token {
            Some(t) => Some(t.as_str()),
            None => None,
        }
    }

    pub fn from_v2(v2: ConfigV2) -> (r: Config)
        ensures
            r.version == v2.version,
            r.api == v2.api,
            r.console == v2.console,
            r.token == v2.token,
    {
        Config { version: v2.version, api: v2.api, console: v2.console, token: v2.token }
    }

    /// A first-version file, brought to the current version with the
    /// default console.
    pub fn from_v1(v1: ConfigV1) -> (r: Config)
        ensures
            r.version@ == Config::VERSION@,
            r.api == v1.api,
            r.console@ == Config::DEFAULT_CONSOLE@,
            r.token == v1.token,
    {
        Config {
            version: String::from_str(Config::VERSION),
            api: v1.api,
            console: String::from_str(Config::DEFAULT_CONSOLE),
            token: v1.token,
        }
    }

    /// Reads whichever version a file holds: the first version if it is
    /// one, else the second, else the defaults.
    pub fn rolling_load(v1: Option<ConfigV1>, v2: Option<ConfigV2>) -> (r: Config)
        ensures
            match (v1, v2) {
                (Some(c), _) => r.version@ == Config::VERSION@ && r.api == c.api && r.token == c.token
                    && r.console@ == Config::DEFAULT_CONSOLE@,
                (None, Some(c)) => r.version == c.version && r.api == c.api && r.token == c.token
                    && r.console == c.console,
                (None, None) => r.version@ == Config::VERSION@ && r.api@ == Config::DEFAULT_API@
                    && r.console@ == Config::DEFAULT_CONSOLE@ && r.token is None,
            },
    {
        match v1 {
            Some(v1) => Config::from_v1(v1),
            None => match v2 {
                Some(v2) => Config::from_v2(v2),
                None => Config::default(),
            },
        }
    }
}

impl Default for Config {
    fn default() -> (r: Config)
        ensures
            r.version@ == Config::VERSION@,
            r.api@ == Config::DEFAULT_API@,
            r.console@ == Config::DEFAULT_CONSOLE@,
            r.token is None,
    {
        Config {
            version: String::from_str(Config::VERSION),
            api: String::from_str(Config::DEFAULT_API),
            console: String::from_str(Config::DEFAULT_CONSOLE),
            token: None,
        }
    }
}

impl ConfigV2 {
    pub const VERSION: &'static str = "2";

    /// Accepts a file read as the second version only when its `version`
    /// field says so.
    pub fn validate_config(version: Option<&str>, config: Option<ConfigV2>) -> (r: Option<ConfigV2>)
        ensures
            r == (if version matches Some(v) && v@ == ConfigV2::VERSION@ {
                config
            } else {
                None
            }),
    {
        match version {
            Some(v) => if str_eq(v, ConfigV2::VERSION) {
                config
            } else {
                None
            },
            None => None,
        }
    }
}

impl ConfigV1 {
    pub const VERSION: &'static str = "1";

    /// Accepts a file read as the first version only when its `version`
    /// field says so.
    pub fn validate_config(version: Option<&str>, config: Option<ConfigV1>) -> (r: Option<ConfigV1>)
        ensures
            r == (if version matches Some(v) && v@ == ConfigV1::VERSION@ {
                config
            } else {
                None
            }),
    {
        match version {
            Some(v) => if str_eq(v, ConfigV1::VERSION) {
                config
            } else {
                None
            },
            None => None,
        }
    }
}

} // verus!
