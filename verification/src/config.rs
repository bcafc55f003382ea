//! Runtime parameters of the agent, and how a parameter that was not given
//! gets its value from the environment or from a default.

use crate::parse::{
    flag_spec, parse_bool, parse_i64, parse_u64, parse_usize, signed_spec, unsigned_spec,
};
use vstd::prelude::*;
use vstd::string::StringExecFns;

verus! {

/// Default number of buffered events that a push must exceed to force a
/// submission.
pub const DEFAULT_APP_BUFFER_SIZE_LIMIT: usize = 100;

/// Default idle timeout in milliseconds.
pub const DEFAULT_APP_IDLE_TIMEOUT: u64 = 10000;

/// By default the session is never locked.
pub const DEFAULT_APP_LOCK_ENABLED: bool = false;

/// Default interval between two metadata refreshes, in milliseconds.
pub const DEFAULT_APP_METADATA_QUERY_INTERVAL: i64 = 600000;

/// Default interval between two status queries, in seconds.
pub const DEFAULT_APP_STATUS_INTERVAL: u64 = 100;

/// Default name of the credential header.
pub open spec fn default_api_key_name() -> Seq<char> {
    "api-key"@
}

/// Default value of the credential header.
pub open spec fn default_api_key_value() -> Seq<char> {
    "x11-sentinel-client"@
}

/// Default program that locks the session.
pub open spec fn default_lock_utility() -> Seq<char> {
    "slock"@
}

/// Default base URL of the status endpoint.
pub open spec fn default_status_base_url() -> Seq<char> {
    "http://localhost:3000/status"@
}

/// Default URL of the submission endpoint.
pub open spec fn default_submit_url() -> Seq<char> {
    "http://localhost:3000/chunk"@
}

/// Default identifier of the user.
pub open spec fn default_user_id() -> Seq<char> {
    "default_user"@
}

/// Runtime parameters. A field that is `None` has not been given yet;
/// after [`Config::new`] every field is `Some`.
#[derive(Clone, Debug, PartialEq, Eq)]
pub struct Config {
    /// Name of the credential header sent with every submission.
    pub api_key_name: Option<String>,
    /// Value of the credential header sent with every submission.
    pub api_key_value: Option<String>,
    /// Number of buffered events that a push must exceed to force a submission.
    pub buffer_size_limit: Option<usize>,
    /// Milliseconds without a new event after which the buffer is submitted.
    pub idle_timeout: Option<u64>,
    /// Whether the session may be locked on a low score.
    pub lock_enabled: Option<bool>,
    /// Program that locks the session.
    pub lock_utility: Option<String>,
    /// Milliseconds between two metadata refreshes.
    pub metadata_query_interval: Option<i64>,
    /// Base URL of the status endpoint.
    pub status_base_url: Option<String>,
    /// Seconds between two status queries.
    pub status_interval: Option<u64>,
    /// URL of the submission endpoint.
    pub submit_url: Option<String>,
    /// Identifier of the user.
    pub user_id: Option<String>,
}

/// The text of the environment variable of each parameter, `None` where the
/// variable is not set.
#[derive(Clone, Debug, PartialEq, Eq)]
pub struct Environment {
    /// `APP_API_KEY_NAME`
    pub api_key_name: Option<String>,
    /// `APP_API_KEY_VALUE`
    pub api_key_value: Option<String>,
    /// `APP_BUFFER_SIZE_LIMIT`
    pub buffer_size_limit: Option<String>,
    /// `APP_IDLE_TIMEOUT`
    pub idle_timeout: Option<String>,
    /// `APP_LOCK_ENABLED`
    pub lock_enabled: Option<String>,
    /// `APP_LOCK_UTILITY`
    pub lock_utility: Option<String>,
    /// `APP_METADATA_QUERY_INTERVAL`
    pub metadata_query_interval: Option<String>,
    /// `APP_STATUS_BASE_URL`
    pub status_base_url: Option<String>,
    /// `APP_STATUS_INTERVAL`
    pub status_interval: Option<String>,
    /// `APP_SUBMIT_URL`
    pub submit_url: Option<String>,
    /// `APP_USER_ID`
    pub user_id: Option<String>,
}

/// The text of a variable, or the default where the variable is not set.
pub open spec fn text_or(variable: Option<String>, default: Seq<char>) -> Seq<char> {
    match variable {
        Some(text) => text@,
        None => default,
    }
}

/// The word-sized number that a variable writes, or the default where the
/// variable is not set or writes none.
pub open spec fn usize_or(variable: Option<String>, default: usize) -> usize {
    match variable {
        Some(text) => match unsigned_spec(text@, usize::MAX as nat) {
            Some(value) => value as usize,
            None => default,
        },
        None => default,
    }
}

/// The 64-bit unsigned number that a variable writes, or the default where
/// the variable is not set or writes none.
pub open spec fn u64_or(variable: Option<String>, default: u64) -> u64 {
    match variable {
        Some(text) => match unsigned_spec(text@, u64::MAX as nat) {
            Some(value) => value as u64,
            None => default,
        },
        None => default,
    }
}

/// The 64-bit signed number that a variable writes, or the default where
/// the variable is not set or writes none.
pub open spec fn i64_or(variable: Option<String>, default: i64) -> i64 {
    match variable {
        Some(text) => match signed_spec(text@) {
            Some(value) => value as i64,
            None => default,
        },
        None => default,
    }
}

/// The flag that a variable writes, or the default where the variable is
/// not set or writes none.
pub open spec fn bool_or(variable: Option<String>, default: bool) -> bool {
    match variable {
        Some(text) => match flag_spec(text@) {
            Some(value) => value,
            None => default,
        },
        None => default,
    }
}

/// The text of a variable, or the default where the variable is not set.
pub fn get_text_or(variable: &Option<String>, default: &str) -> (out: String)
    ensures
        out@ == text_or(*variable, default@),
{
    match variable {
        Some(text) => text.clone(),
        None => String::from_str(default),
    }
}

/// The word-sized number that a variable writes, or the default.
pub fn get_usize_or(variable: &Option<String>, default: usize) -> (out: usize)
    ensures
        out == usize_or(*variable, default),
{
    match variable {
        Some(text) => match parse_usize(text.as_str()) {
            Some(value) => value,
            None => default,
        },
        None => default,
    }
}

/// The 64-bit unsigned number that a variable writes, or the default.
pub fn get_u64_or(variable: &Option<String>, default: u64) -> (out: u64)
    ensures
        out == u64_or(*variable, default),
{
    match variable {
        Some(text) => match parse_u64(text.as_str()) {
            Some(value) => value,
            None => default,
        },
        None => default,
    }
}

/// The 64-bit signed number that a variable writes, or the default.
pub fn get_i64_or(variable: &Option<String>, default: i64) -> (out: i64)
    ensures
        out == i64_or(*variable, default),
{
    match variable {
        Some(text) => match parse_i64(text.as_str()) {
            Some(value) => value,
            None => default,
        },
        None => default,
    }
}

/// The flag that a variable writes, or the default.
pub fn get_bool_or(variable: &Option<String>, default: bool) -> (out: bool)
    ensures
        out == bool_or(*variable, default),
{
    match variable {
        Some(text) => match parse_bool(text.as_str()) {
            Some(value) => value,
            None => default,
        },
        None => default,
    }
}

impl Config {
    /// Every parameter has a value.
    pub open spec fn complete(&self) -> bool {
        &&& self.api_key_name.is_some()
        &&& self.api_key_value.is_some()
        &&& self.buffer_size_limit.is_some()
        &&& self.idle_timeout.is_some()
        &&& self.lock_enabled.is_some()
        &&& self.lock_utility.is_some()
        &&& self.metadata_query_interval.is_some()
        &&& self.status_base_url.is_some()
        &&& self.status_interval.is_some()
        &&& self.submit_url.is_some()
        &&& self.user_id.is_some()
    }

    /// The text of a parameter after it was set: what was given, else what
    /// the variable holds, else the default.
    pub open spec fn text_set(given: Option<String>, variable: Option<String>, default: Seq<char>)
        -> Seq<char> {
        match given {
            Some(text) => text@,
            None => text_or(variable, default),
        }
    }

    /// The parameters as they are after [`Config::new`], the texts by their
    /// characters.
    pub open spec fn resolves_to(&self, given: Config, env: Environment) -> bool {
        &&& self.complete()
        &&& self.api_key_name.unwrap()@ == Self::text_set(
            given.api_key_name,
            env.api_key_name,
            default_api_key_name(),
        )
        &&& self.api_key_value.unwrap()@ == Self::text_set(
            given.api_key_value,
            env.api_key_value,
            default_api_key_value(),
        )
        &&& self.buffer_size_limit.unwrap() == match given.buffer_size_limit {
            Some(value) => value,
            None => usize_or(env.buffer_size_limit, DEFAULT_APP_BUFFER_SIZE_LIMIT),
        }
        &&& self.idle_timeout.unwrap() == match given.idle_timeout {
            Some(value) => value,
            None => u64_or(env.idle_timeout, DEFAULT_APP_IDLE_TIMEOUT),
        }
        &&& self.lock_enabled.unwrap() == match given.lock_enabled {
            Some(value) => value,
            None => bool_or(env.lock_enabled, DEFAULT_APP_LOCK_ENABLED),
        }
        &&& self.lock_utility.unwrap()@ == Self::text_set(
            given.lock_utility,
            env.lock_utility,
            default_lock_utility(),
        )
        &&& self.metadata_query_interval.unwrap() == match given.metadata_query_interval {
            Some(value) => value,
            None => i64_or(env.metadata_query_interval, DEFAULT_APP_METADATA_QUERY_INTERVAL),
        }
        &&& self.status_base_url.unwrap()@ == Self::text_set(
            given.status_base_url,
            env.status_base_url,
            default_status_base_url(),
        )
        &&& self.status_interval.unwrap() == match given.status_interval {
            Some(value) => value,
            None => u64_or(env.status_interval, DEFAULT_APP_STATUS_INTERVAL),
        }
        &&& self.submit_url.unwrap()@ == Self::text_set(
            given.submit_url,
            env.submit_url,
            default_submit_url(),
        )
        &&& self.user_id.unwrap()@ == Self::text_set(given.user_id, env.user_id, default_user_id())
    }

    /// The parameters with every one that was not given set from its
    /// environment variable, or from its default where the variable is not
    /// set or, for a number or a flag, does not write one.
    pub fn new(given: Config, env: &Environment) -> (config: Config)
        ensures
            config.resolves_to(given, *env),
    {
        let mut config = given;
        config.set_api_key_name(&env.api_key_name);
        config.set_api_key_value(&env.api_key_value);
        config.set_buffer_size_limit(&env.buffer_size_limit);
        config.set_idle_timeout(&env.idle_timeout);
        config.set_lock_enabled(&env.lock_enabled);
        config.set_lock_utility(&env.lock_utility);
        config.set_metadata_query_interval(&env.metadata_query_interval);
        config.status_base_url(&env.status_base_url);
        config.set_status_interval(&env.status_interval);
        config.set_submit_url(&env.submit_url);
        config.set_user_id(&env.user_id);
        config
    }

    /// Sets the name of the credential header where it was not given.
    pub fn set_api_key_name(&mut self, variable: &Option<String>)
        ensures
            final(self).api_key_name.is_some(),
            final(self).api_key_name.unwrap()@ == Self::text_set(
                old(self).api_key_name,
                *variable,
                default_api_key_name(),
            ),
            *final(self) == (Config { api_key_name: final(self).api_key_name, ..*old(self) }),
    {
        if self.api_key_name.is_none() {
            self.api_key_name = Some(get_text_or(variable, "api-key"));
        }
    }

    /// Sets the value of the credential header where it was not given.
    pub fn set_api_key_value(&mut self, variable: &Option<String>)
        ensures
            final(self).api_key_value.is_some(),
            final(self).api_key_value.unwrap()@ == Self::text_set(
                old(self).api_key_value,
                *variable,
                default_api_key_value(),
            ),
            *final(self) == (Config { api_key_value: final(self).api_key_value, ..*old(self) }),
    {
        if self.api_key_value.is_none() {
            self.api_key_value = Some(get_text_or(variable, "x11-sentinel-client"));
        }
    }

    /// Sets the buffer size limit where it was not given.
    pub fn set_buffer_size_limit(&mut self, variable: &Option<String>)
        ensures
            *final(self) == (Config {
                buffer_size_limit: Some(
                    match old(self).buffer_size_limit {
                        Some(value) => value,
                        None => usize_or(*variable, DEFAULT_APP_BUFFER_SIZE_LIMIT),
                    },
                ),
                ..*old(self)
            }),
    {
        if self.buffer_size_limit.is_none() {
            self.buffer_size_limit = Some(get_usize_or(variable, DEFAULT_APP_BUFFER_SIZE_LIMIT));
        }
    }

    /// Sets the idle timeout where it was not given.
    pub fn set_idle_timeout(&mut self, variable: &Option<String>)
        ensures
            *final(self) == (Config {
                idle_timeout: Some(
                    match old(self).idle_timeout {
                        Some(value) => value,
                        None => u64_or(*variable, DEFAULT_APP_IDLE_TIMEOUT),
                    },
                ),
                ..*old(self)
            }),
    {
        if self.idle_timeout.is_none() {
            self.idle_timeout = Some(get_u64_or(variable, DEFAULT_APP_IDLE_TIMEOUT));
        }
    }

    /// Sets whether the session may be locked where it was not given.
    pub fn set_lock_enabled(&mut self, variable: &Option<String>)
        ensures
            *final(self) == (Config {
                lock_enabled: Some(
                    match old(self).lock_enabled {
                        Some(value) => value,
                        None => bool_or(*variable, DEFAULT_APP_LOCK_ENABLED),
                    },
                ),
                ..*old(self)
            }),
    {
        if self.lock_enabled.is_none() {
            self.lock_enabled = Some(get_bool_or(variable, DEFAULT_APP_LOCK_ENABLED));
        }
    }

    /// Sets the program that locks the session where it was not given.
    pub fn set_lock_utility(&mut self, variable: &Option<String>)
        ensures
            final(self).lock_utility.is_some(),
            final(self).lock_utility.unwrap()@ == Self::text_set(
                old(self).lock_utility,
                *variable,
                default_lock_utility(),
            ),
            *final(self) == (Config { lock_utility: final(self).lock_utility, ..*old(self) }),
    {
        if self.lock_utility.is_none() {
            self.lock_utility = Some(get_text_or(variable, "slock"));
        }
    }

    /// Sets the metadata refresh interval where it was not given.
    pub fn set_metadata_query_interval(&mut self, variable: &Option<String>)
        ensures
            *final(self) == (Config {
                metadata_query_interval: Some(
                    match old(self).metadata_query_interval {
                        Some(value) => value,
                        None => i64_or(*variable, DEFAULT_APP_METADATA_QUERY_INTERVAL),
                    },
                ),
                ..*old(self)
            }),
    {
        if self.metadata_query_interval.is_none() {
            self.metadata_query_interval = Some(
                get_i64_or(variable, DEFAULT_APP_METADATA_QUERY_INTERVAL),
            );
        }
    }

    /// Sets the base URL of the status endpoint where it was not given.
    pub fn status_base_url(&mut self, variable: &Option<String>)
        ensures
            final(self).status_base_url.is_some(),
            final(self).status_base_url.unwrap()@ == Self::text_set(
                old(self).status_base_url,
                *variable,
                default_status_base_url(),
            ),
            *final(self) == (Config { status_base_url: final(self).status_base_url, ..*old(self) }),
    {
        if self.status_base_url.is_none() {
            self.status_base_url = Some(get_text_or(variable, "http://localhost:3000/status"));
        }
    }

    /// Sets the status query interval where it was not given.
    pub fn set_status_interval(&mut self, variable: &Option<String>)
        ensures
            *final(self) == (Config {
                status_interval: Some(
                    match old(self).status_interval {
                        Some(value) => value,
                        None => u64_or(*variable, DEFAULT_APP_STATUS_INTERVAL),
                    },
                ),
                ..*old(self)
            }),
    {
        if self.status_interval.is_none() {
            self.status_interval = Some(get_u64_or(variable, DEFAULT_APP_STATUS_INTERVAL));
        }
    }

    /// Sets the URL of the submission endpoint where it was not given.
    pub fn set_submit_url(&mut self, variable: &Option<String>)
        ensures
            final(self).submit_url.is_some(),
            final(self).submit_url.unwrap()@ == Self::text_set(
                old(self).submit_url,
                *variable,
                default_submit_url(),
            ),
            *final(self) == (Config { submit_url: final(self).submit_url, ..*old(self) }),
    {
        if self.submit_url.is_none() {
            self.submit_url = Some(get_text_or(variable, "http://localhost:3000/chunk"));
        }
    }

    /// Sets the identifier of the user where it was not given.
    pub fn set_user_id(&mut self, variable: &Option<String>)
        ensures
            final(self).user_id.is_some(),
            final(self).user_id.unwrap()@ == Self::text_set(
                old(self).user_id,
                *variable,
                default_user_id(),
            ),
            *final(self) == (Config { user_id: final(self).user_id, ..*old(self) }),
    {
        if self.user_id.is_none() {
            self.user_id = Some(get_text_or(variable, "default_user"));
        }
    }
}

} // verus!
