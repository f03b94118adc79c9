use vstd::prelude::*;

verus! {

/// Persistent Pomodoro configuration expressed in minutes.
#[derive(Debug, Clone, Copy, PartialEq, Eq, Structural)]
pub struct AppConfig {
    /// Duration of one work phase in minutes.
    pub work_minutes: u64,
    /// Duration of one short break phase in minutes.
    pub short_break_minutes: u64,
    /// Duration of one long break phase in minutes.
    pub long_break_minutes: u64,
    /// Insert a long break after every N completed work sessions.
    pub long_break_every: u32,
}

/// Optional replacements for the fields of an [`AppConfig`].
#[derive(Debug, Clone, Copy, PartialEq, Eq, Structural)]
pub struct ConfigOverrides {
    /// Optional replacement for [`AppConfig::work_minutes`].
    pub work_minutes: Option<u64>,
    /// Optional replacement for [`AppConfig::short_break_minutes`].
    pub short_break_minutes: Option<u64>,
    /// Optional replacement for [`AppConfig::long_break_minutes`].
    pub long_break_minutes: Option<u64>,
    /// Optional replacement for [`AppConfig::long_break_every`].
    pub long_break_every: Option<u32>,
}

/// The built-in configuration: 25 minutes of work, 5 and 15 minutes of
/// break, and a long break after every 4 work sessions.
pub open spec fn default_config() -> AppConfig {
    AppConfig { work_minutes: 25, short_break_minutes: 5, long_break_minutes: 15, long_break_every: 4 }
}

/// An override that sets nothing.
pub open spec fn no_overrides() -> ConfigOverrides {
    ConfigOverrides {
        work_minutes: None,
        short_break_minutes: None,
        long_break_minutes: None,
        long_break_every: None,
    }
}

/// The value an optional override gives a field.
pub open spec fn overridden<T>(value: Option<T>, current: T) -> T {
    match value {
        Some(v) => v,
        None => current,
    }
}

/// `config` with every override that is set put in place of its field.
pub open spec fn apply_overrides_spec(config: AppConfig, overrides: ConfigOverrides) -> AppConfig {
    AppConfig {
        work_minutes: overridden(overrides.work_minutes, config.work_minutes),
        short_break_minutes: overridden(overrides.short_break_minutes, config.short_break_minutes),
        long_break_minutes: overridden(overrides.long_break_minutes, config.long_break_minutes),
        long_break_every: overridden(overrides.long_break_every, config.long_break_every),
    }
}

/// A configuration is valid when every duration and the frequency are non-zero.
pub open spec fn config_valid(config: AppConfig) -> bool {
    &&& config.work_minutes > 0
    &&& config.short_break_minutes > 0
    &&& config.long_break_minutes > 0
    &&& config.long_break_every > 0
}

/// The message `validate` reports for a configuration, if any: the first
/// offending field in declaration order.
pub open spec fn validation_message(config: AppConfig) -> Option<Seq<char>> {
    if config.work_minutes == 0 {
        Some("work_minutes must be greater than 0"@)
    } else if config.short_break_minutes == 0 {
        Some("short_break_minutes must be greater than 0"@)
    } else if config.long_break_minutes == 0 {
        Some("long_break_minutes must be greater than 0"@)
    } else if config.long_break_every == 0 {
        Some("long_break_every must be greater than 0"@)
    } else {
        None
    }
}

/// Every phase length of `config`, in seconds, fits in a `u64`.
pub open spec fn durations_fit(config: AppConfig) -> bool {
    &&& config.work_minutes * 60 <= u64::MAX
    &&& config.short_break_minutes * 60 <= u64::MAX
    &&& config.long_break_minutes * 60 <= u64::MAX
}

impl Default for AppConfig {
    fn default() -> (config: Self)
        ensures
            config == default_config(),
            config.work_minutes == 25,
            config.short_break_minutes == 5,
            config.long_break_minutes == 15,
            config.long_break_every == 4,
    {
        AppConfig { work_minutes: 25, short_break_minutes: 5, long_break_minutes: 15, long_break_every: 4 }
    }
}

impl Default for ConfigOverrides {
    fn default() -> (overrides: Self)
        ensures
            overrides == no_overrides(),
    {
        ConfigOverrides {
            work_minutes: None,
            short_break_minutes: None,
            long_break_minutes: None,
            long_break_every: None,
        }
    }
}

impl ConfigOverrides {
    /// True when no override is set.
    pub fn is_empty(&self) -> (empty: bool)
        ensures
            empty == (*self == no_overrides()),
            empty == (self.work_minutes is None && self.short_break_minutes is None
                && self.long_break_minutes is None && self.long_break_every is None),
    {
        self.work_minutes.is_none() && self.short_break_minutes.is_none()
            && self.long_break_minutes.is_none() && self.long_break_every.is_none()
    }
}

impl AppConfig {
    /// Returns a copy of this config with provided overrides applied.
    pub fn apply_overrides(&self, overrides: &ConfigOverrides) -> (updated: Self)
        ensures
            updated == apply_overrides_spec(*self, *overrides),
            overrides.work_minutes matches Some(v) ==> updated.work_minutes == v,
            overrides.work_minutes is None ==> updated.work_minutes == self.work_minutes,
            overrides.short_break_minutes matches Some(v) ==> updated.short_break_minutes == v,
            overrides.short_break_minutes is None ==> updated.short_break_minutes == self.short_break_minutes,
            overrides.long_break_minutes matches Some(v) ==> updated.long_break_minutes == v,
            overrides.long_break_minutes is None ==> updated.long_break_minutes == self.long_break_minutes,
            overrides.long_break_every matches Some(v) ==> updated.long_break_every == v,
            overrides.long_break_every is None ==> updated.long_break_every == self.long_break_every,
    {
        AppConfig {
            work_minutes: overrides.work_minutes.unwrap_or(self.work_minutes),
            short_break_minutes: overrides.short_break_minutes.unwrap_or(self.short_break_minutes),
            long_break_minutes: overrides.long_break_minutes.unwrap_or(self.long_break_minutes),
            long_break_every: overrides.long_break_every.unwrap_or(self.long_break_every),
        }
    }

    /// Validates that all configured durations and frequency are non-zero.
    ///
    /// Returns a user-facing error message describing the invalid field.
    pub fn validate(&self) -> (result: Result<(), String>)
        ensures
            result is Ok <==> config_valid(*self),
            result is Ok <==> (self.work_minutes > 0 && self.short_break_minutes > 0 && self.long_break_minutes > 0
                && self.long_break_every > 0),
            result is Ok <==> validation_message(*self) is None,
            result matches Err(message) ==> Some(message@) == validation_message(*self),
    {
        if self.work_minutes == 0 {
            return Err(String::from_str("work_minutes must be greater than 0"));
        }
        if self.short_break_minutes == 0 {
            return Err(String::from_str("short_break_minutes must be greater than 0"));
        }
        if self.long_break_minutes == 0 {
            return Err(String::from_str("long_break_minutes must be greater than 0"));
        }
        if self.long_break_every == 0 {
            return Err(String::from_str("long_break_every must be greater than 0"));
        }
        Ok(())
    }

    /// True when every phase length of this config, in seconds, fits in a `u64`.
    pub fn durations_fit(&self) -> (fit: bool)
        ensures
            fit == durations_fit(*self),
            fit == (self.work_minutes * 60 <= u64::MAX && self.short_break_minutes * 60 <= u64::MAX
                && self.long_break_minutes * 60 <= u64::MAX),
    {
        self.work_minutes <= u64::MAX / 60 && self.short_break_minutes <= u64::MAX / 60
            && self.long_break_minutes <= u64::MAX / 60
    }
}


/// Applying overrides of which none is set leaves a configuration as it is.
pub proof fn lemma_no_overrides_keep_config(config: AppConfig)
    ensures
        apply_overrides_spec(config, no_overrides()) == config,
{
}

/// Applying the same overrides twice gives what applying them once gives.
pub proof fn lemma_apply_overrides_idempotent(config: AppConfig, overrides: ConfigOverrides)
    ensures
        apply_overrides_spec(apply_overrides_spec(config, overrides), overrides)
            == apply_overrides_spec(config, overrides),
{
}

/// The default configuration is valid, and its phase lengths fit in seconds.
pub proof fn lemma_default_config_valid()
    ensures
        config_valid(default_config()),
        validation_message(default_config()) is None,
        durations_fit(default_config()),
{
}


/// An override that is set is put in place as given, and a field whose
/// override is not set keeps its value.
pub proof fn lemma_overrides_replace_fields(config: AppConfig, overrides: ConfigOverrides)
    ensures
        ({
            let updated = apply_overrides_spec(config, overrides);
            &&& overrides.work_minutes matches Some(v) ==> updated.work_minutes == v
            &&& overrides.work_minutes is None ==> updated.work_minutes == config.work_minutes
            &&& overrides.short_break_minutes matches Some(v) ==> updated.short_break_minutes == v
            &&& overrides.short_break_minutes is None ==> updated.short_break_minutes == config.short_break_minutes
            &&& overrides.long_break_minutes matches Some(v) ==> updated.long_break_minutes == v
            &&& overrides.long_break_minutes is None ==> updated.long_break_minutes == config.long_break_minutes
            &&& overrides.long_break_every matches Some(v) ==> updated.long_break_every == v
            &&& overrides.long_break_every is None ==> updated.long_break_every == config.long_break_every
        }),
{
}

/// A configuration passes validation exactly when every length and the
/// long-break frequency are above zero; the message names the first field,
/// in declaration order, that is zero.
pub proof fn lemma_validation_names_first_zero_field(config: AppConfig)
    ensures
        validation_message(config) is None <==> (config.work_minutes > 0 && config.short_break_minutes > 0
            && config.long_break_minutes > 0 && config.long_break_every > 0),
        config.work_minutes == 0 ==> validation_message(config) == Some("work_minutes must be greater than 0"@),
        config.work_minutes > 0 && config.short_break_minutes == 0 ==> validation_message(config) == Some(
            "short_break_minutes must be greater than 0"@,
        ),
        config.work_minutes > 0 && config.short_break_minutes > 0 && config.long_break_minutes == 0
            ==> validation_message(config) == Some("long_break_minutes must be greater than 0"@),
        config.work_minutes > 0 && config.short_break_minutes > 0 && config.long_break_minutes > 0
            && config.long_break_every == 0 ==> validation_message(config) == Some(
            "long_break_every must be greater than 0"@,
        ),
{
}

} // verus!
