//! The configuration: three durations and the notifier's credentials.

use vstd::prelude::*;
use vstd::string::*;
use crate::decimal::{parse_secs, parsed_secs};

verus! {

/// Seconds without a heartbeat that are tolerated when nothing else is set.
pub const DEFAULT_TIMEOUT_SECS: u64 = 90;

/// Seconds between two checks when nothing else is set.
pub const DEFAULT_CHECK_INTERVAL_SECS: u64 = 10;

/// Seconds of quiet after a delivered alert when nothing else is set.
pub const DEFAULT_DEBOUNCE_SECS: u64 = 300;

/// The three durations that drive the monitor, in whole seconds.
#[derive(Clone, Copy, Debug, PartialEq, Eq, Structural)]
pub struct Timing {
    /// The agent is stale once more than this many seconds have passed since
    /// its last heartbeat.
    pub timeout_secs: u64,
    /// The sleep before a check in the normal state.
    pub check_interval_secs: u64,
    /// The sleep before the first check after a delivered alert.
    pub debounce_secs: u64,
}

impl Default for Timing {
    fn default() -> (t: Timing)
        ensures
            t == (Timing {
                timeout_secs: DEFAULT_TIMEOUT_SECS,
                check_interval_secs: DEFAULT_CHECK_INTERVAL_SECS,
                debounce_secs: DEFAULT_DEBOUNCE_SECS,
            }),
    {
        Timing {
            timeout_secs: DEFAULT_TIMEOUT_SECS,
            check_interval_secs: DEFAULT_CHECK_INTERVAL_SECS,
            debounce_secs: DEFAULT_DEBOUNCE_SECS,
        }
    }
}

/// The settings that the configuration is read from.
#[derive(Clone, Copy, Debug, PartialEq, Eq, Structural)]
pub enum Setting {
    /// The notifier's API credential. Required.
    PushoverToken,
    /// The identity of the alert's recipient. Required.
    PushoverUser,
    /// The staleness threshold in seconds.
    HeartbeatTimeoutSecs,
    /// The normal poll cadence in seconds.
    CheckIntervalSecs,
    /// The cool-down after a delivered alert in seconds.
    DebounceSecs,
}

impl Setting {
    /// The name under which the setting is looked up.
    pub open spec fn name_of(self) -> Seq<char> {
        match self {
            Setting::PushoverToken => "PUSHOVER_TOKEN"@,
            Setting::PushoverUser => "PUSHOVER_USER"@,
            Setting::HeartbeatTimeoutSecs => "HEARTBEAT_TIMEOUT_SECS"@,
            Setting::CheckIntervalSecs => "CHECK_INTERVAL_SECS"@,
            Setting::DebounceSecs => "DEBOUNCE_SECS"@,
        }
    }

    /// The value that stands in for a setting that is not given; a required
    /// setting has none.
    pub open spec fn default_of(self) -> Option<u64> {
        match self {
            Setting::PushoverToken => None,
            Setting::PushoverUser => None,
            Setting::HeartbeatTimeoutSecs => Some(DEFAULT_TIMEOUT_SECS),
            Setting::CheckIntervalSecs => Some(DEFAULT_CHECK_INTERVAL_SECS),
            Setting::DebounceSecs => Some(DEFAULT_DEBOUNCE_SECS),
        }
    }

    /// The name under which the setting is looked up.
    pub fn name(self) -> (name: &'static str)
        ensures
            name@ == self.name_of(),
    {
        match self {
            Setting::PushoverToken => "PUSHOVER_TOKEN",
            Setting::PushoverUser => "PUSHOVER_USER",
            Setting::HeartbeatTimeoutSecs => "HEARTBEAT_TIMEOUT_SECS",
            Setting::CheckIntervalSecs => "CHECK_INTERVAL_SECS",
            Setting::DebounceSecs => "DEBOUNCE_SECS",
        }
    }

    /// The value that stands in for a setting that is not given.
    pub fn default_secs(self) -> (secs: Option<u64>)
        ensures
            secs == self.default_of(),
    {
        match self {
            Setting::PushoverToken => None,
            Setting::PushoverUser => None,
            Setting::HeartbeatTimeoutSecs => Some(DEFAULT_TIMEOUT_SECS),
            Setting::CheckIntervalSecs => Some(DEFAULT_CHECK_INTERVAL_SECS),
            Setting::DebounceSecs => Some(DEFAULT_DEBOUNCE_SECS),
        }
    }
}

/// Why no configuration could be made.
#[derive(Clone, Copy, Debug, PartialEq, Eq, Structural)]
pub enum ConfigError {
    /// A required setting is not given.
    Missing { setting: Setting },
    /// A duration is given, but its text is not a number of seconds.
    NotANumber { setting: Setting },
}

impl ConfigError {
    /// The diagnostic that goes with the error.
    pub open spec fn message_of(self) -> Seq<char> {
        match self {
            ConfigError::Missing { setting } => setting.name_of() + " must be set in .env"@,
            ConfigError::NotANumber { setting } => setting.name_of() + " must be a number"@,
        }
    }

    /// The diagnostic that goes with the error.
    pub fn message(&self) -> (text: String)
        ensures
            text@ == self.message_of(),
    {
        match self {
            ConfigError::Missing { setting } => String::from_str(setting.name()).concat(
                " must be set in .env",
            ),
            ConfigError::NotANumber { setting } => String::from_str(setting.name()).concat(
                " must be a number",
            ),
        }
    }
}

/// What the notifier needs to know the sender and the recipient by.
#[derive(Debug)]
pub struct Credentials {
    /// The notifier's API credential.
    pub token: String,
    /// The identity of the alert's recipient.
    pub user: String,
}

/// The configuration of one process, fixed once it has started.
#[derive(Debug)]
pub struct Config {
    /// The durations that drive the monitor.
    pub timing: Timing,
    /// What alerts are sent with.
    pub credentials: Credentials,
}

/// A configuration as plain values.
pub struct ConfigView {
    pub timing: Timing,
    pub token: Seq<char>,
    pub user: Seq<char>,
}

impl View for Config {
    type V = ConfigView;

    open spec fn view(&self) -> ConfigView {
        ConfigView {
            timing: self.timing,
            token: self.credentials.token@,
            user: self.credentials.user@,
        }
    }
}

/// The texts that were found for the five settings; `None` where nothing was
/// found.
#[derive(Debug)]
pub struct RawSettings {
    pub pushover_token: Option<String>,
    pub pushover_user: Option<String>,
    pub heartbeat_timeout_secs: Option<String>,
    pub check_interval_secs: Option<String>,
    pub debounce_secs: Option<String>,
}

/// The texts of raw settings as plain values.
pub struct RawSettingsView {
    pub pushover_token: Option<Seq<char>>,
    pub pushover_user: Option<Seq<char>>,
    pub heartbeat_timeout_secs: Option<Seq<char>>,
    pub check_interval_secs: Option<Seq<char>>,
    pub debounce_secs: Option<Seq<char>>,
}

/// The text of an optional string.
pub open spec fn text_of(raw: Option<String>) -> Option<Seq<char>> {
    match raw {
        Some(text) => Some(text@),
        None => None,
    }
}

impl View for RawSettings {
    type V = RawSettingsView;

    open spec fn view(&self) -> RawSettingsView {
        RawSettingsView {
            pushover_token: text_of(self.pushover_token),
            pushover_user: text_of(self.pushover_user),
            heartbeat_timeout_secs: text_of(self.heartbeat_timeout_secs),
            check_interval_secs: text_of(self.check_interval_secs),
            debounce_secs: text_of(self.debounce_secs),
        }
    }
}

/// The duration that a setting stands for: its default where nothing is
/// given, else the number that the given text denotes, if it denotes one.
pub open spec fn duration_of(raw: Option<Seq<char>>, default: u64) -> Option<u64> {
    match raw {
        None => Some(default),
        Some(text) => parsed_secs(text),
    }
}

/// The first thing that is wrong with the raw settings, in the order token,
/// user, timeout, check interval, debounce; `None` if nothing is.
pub open spec fn first_fault(raw: RawSettingsView) -> Option<ConfigError> {
    if raw.pushover_token is None {
        Some(ConfigError::Missing { setting: Setting::PushoverToken })
    } else if raw.pushover_user is None {
        Some(ConfigError::Missing { setting: Setting::PushoverUser })
    } else if duration_of(raw.heartbeat_timeout_secs, DEFAULT_TIMEOUT_SECS) is None {
        Some(ConfigError::NotANumber { setting: Setting::HeartbeatTimeoutSecs })
    } else if duration_of(raw.check_interval_secs, DEFAULT_CHECK_INTERVAL_SECS) is None {
        Some(ConfigError::NotANumber { setting: Setting::CheckIntervalSecs })
    } else if duration_of(raw.debounce_secs, DEFAULT_DEBOUNCE_SECS) is None {
        Some(ConfigError::NotANumber { setting: Setting::DebounceSecs })
    } else {
        None
    }
}

/// The configuration that faultless raw settings stand for.
pub open spec fn configured(raw: RawSettingsView) -> ConfigView {
    ConfigView {
        timing: Timing {
            timeout_secs: duration_of(raw.heartbeat_timeout_secs, DEFAULT_TIMEOUT_SECS)->0,
            check_interval_secs: duration_of(
                raw.check_interval_secs,
                DEFAULT_CHECK_INTERVAL_SECS,
            )->0,
            debounce_secs: duration_of(raw.debounce_secs, DEFAULT_DEBOUNCE_SECS)->0,
        },
        token: raw.pushover_token->0,
        user: raw.pushover_user->0,
    }
}

/// The duration of one setting: its default where nothing is given, else the
/// number that the given text denotes. A text that denotes none is an error
/// that names the setting.
pub fn read_duration(raw: &Option<String>, setting: Setting, default: u64) -> (secs: Result<
    u64,
    ConfigError,
>)
    ensures
        match duration_of(text_of(*raw), default) {
            Some(n) => secs == Ok::<u64, ConfigError>(n),
            None => secs == Err::<u64, ConfigError>(ConfigError::NotANumber { setting }),
        },
{
    match raw {
        None => Ok(default),
        Some(text) => match parse_secs(text.as_str()) {
            Some(n) => Ok(n),
            None => Err(ConfigError::NotANumber { setting }),
        },
    }
}

impl Config {
    /// Makes the configuration from the texts that were found for the five
    /// settings.
    ///
    /// The token and the user are required and taken as they are, empty or
    /// not. Each duration falls back to its default where nothing is given
    /// and must else be a number. The first fault, in the order token, user,
    /// timeout, check interval, debounce, is the error.
    pub fn from_raw(raw: RawSettings) -> (made: Result<Config, ConfigError>)
        ensures
            match first_fault(raw@) {
                Some(fault) => made == Err::<Config, ConfigError>(fault),
                None => made is Ok && made->Ok_0@ == configured(raw@),
            },
    {
        let token = match raw.pushover_token {
            Some(token) => token,
            None => { return Err(ConfigError::Missing { setting: Setting::PushoverToken }); },
        };
        let user = match raw.pushover_user {
            Some(user) => user,
            None => { return Err(ConfigError::Missing { setting: Setting::PushoverUser }); },
        };
        let timeout_secs = match read_duration(
            &raw.heartbeat_timeout_secs,
            Setting::HeartbeatTimeoutSecs,
            DEFAULT_TIMEOUT_SECS,
        ) {
            Ok(secs) => secs,
            Err(fault) => { return Err(fault); },
        };
        let check_interval_secs = match read_duration(
            &raw.check_interval_secs,
            Setting::CheckIntervalSecs,
            DEFAULT_CHECK_INTERVAL_SECS,
        ) {
            Ok(secs) => secs,
            Err(fault) => { return Err(fault); },
        };
        let debounce_secs = match read_duration(
            &raw.debounce_secs,
            Setting::DebounceSecs,
            DEFAULT_DEBOUNCE_SECS,
        ) {
            Ok(secs) => secs,
            Err(fault) => { return Err(fault); },
        };
        Ok(
            Config {
                timing: Timing { timeout_secs, check_interval_secs, debounce_secs },
                credentials: Credentials { token, user },
            },
        )
    }
}

} // verus!
