//! Session settings and their validation.

use crate::text::{lowercase_of, same_text};
use crate::units::{unit_named, TemperatureUnit, WeatherFormatter, WindSpeedUnit};
use vstd::prelude::*;
use vstd::string::{StrSliceExecFns, StringExecFns};

verus! {

/// How much of a report is shown.
#[derive(Debug, Clone, Copy, PartialEq, Eq, Structural)]
pub enum DisplayFormat {
    Simple,
    Detailed,
    Compact,
}

/// The settings of one session. They are read once and then only passed on.
#[derive(Debug, Clone)]
pub struct AppConfig {
    pub api_key: String,
    pub default_country: String,
    pub temperature_unit: String,
    pub display_format: DisplayFormat,
    pub save_history: bool,
    pub max_history_items: usize,
}

/// What is wrong with a setting.
#[derive(Debug, Clone, Copy, PartialEq, Eq, Structural)]
pub enum ConfigFault {
    /// The API key is empty.
    ApiKeyMissing,
    /// The API key is still the placeholder of the template.
    ApiKeyPlaceholder,
    /// The default country is not a code of two characters.
    CountryCode,
    /// The temperature unit is none of the known names.
    TemperatureUnit,
    /// The settings file lacks a setting or holds one of the wrong kind.
    Malformed,
}

/// What was found of the settings at startup.
#[derive(Debug, Clone)]
pub enum ConfigSource {
    /// There is no settings file.
    Absent,
    /// There is a settings file, and it could not be read as settings.
    Unreadable,
    /// The settings as they were read.
    Read(AppConfig),
}

/// Why a session cannot start.
#[derive(Debug, Clone, Copy, PartialEq, Eq, Structural)]
pub enum ConfigError {
    /// No settings were found.
    ConfigMissing,
    /// The settings were found and one of them is unusable.
    ConfigInvalid(ConfigFault),
}

/// The API key that the template ships with.
pub open spec fn placeholder_api_key() -> Seq<char> {
    "YOUR_API_KEY_HERE"@
}

/// The first fault of settings whose temperature unit has been read
/// already, if any: the API key is looked at first, then the country code,
/// then the unit.
pub open spec fn fault_with_unit(config: &AppConfig, unit: Option<TemperatureUnit>) -> Option<
    ConfigFault,
> {
    if config.api_key@.len() == 0 {
        Some(ConfigFault::ApiKeyMissing)
    } else if config.api_key@ == placeholder_api_key() {
        Some(ConfigFault::ApiKeyPlaceholder)
    } else if config.default_country@.len() != 2 {
        Some(ConfigFault::CountryCode)
    } else if unit is None {
        Some(ConfigFault::TemperatureUnit)
    } else {
        None
    }
}

/// The first fault of the settings, if any. The temperature unit is read
/// whatever the case of its letters.
pub open spec fn config_fault(config: &AppConfig) -> Option<ConfigFault> {
    fault_with_unit(config, unit_named(lowercase_of(config.temperature_unit@)))
}

/// The temperature unit that a setting stands for, whatever the case of its
/// letters. An unknown name stands for Celsius.
pub open spec fn configured_unit(setting: Seq<char>) -> TemperatureUnit {
    match unit_named(lowercase_of(setting)) {
        Some(unit) => unit,
        None => TemperatureUnit::Celsius,
    }
}

/// The words in which an error is reported.
pub open spec fn config_error_text(error: ConfigError) -> Seq<char> {
    match error {
        ConfigError::ConfigMissing => "Configuration file not found"@,
        ConfigError::ConfigInvalid(ConfigFault::ApiKeyMissing) => "API key is required"@,
        ConfigError::ConfigInvalid(ConfigFault::ApiKeyPlaceholder) => "API key must be updated"@,
        ConfigError::ConfigInvalid(ConfigFault::CountryCode) =>
            "Default country must be a 2-letter code"@,
        ConfigError::ConfigInvalid(ConfigFault::TemperatureUnit) => "Invalid temperature unit"@,
        ConfigError::ConfigInvalid(ConfigFault::Malformed) => "Configuration file is malformed"@,
    }
}

impl ConfigError {
    /// The words in which the error is reported.
    pub fn message(&self) -> (text: String)
        ensures
            text@ == config_error_text(*self),
    {
        match self {
            ConfigError::ConfigMissing => String::from_str("Configuration file not found"),
            ConfigError::ConfigInvalid(ConfigFault::ApiKeyMissing) => String::from_str(
                "API key is required",
            ),
            ConfigError::ConfigInvalid(ConfigFault::ApiKeyPlaceholder) => String::from_str(
                "API key must be updated",
            ),
            ConfigError::ConfigInvalid(ConfigFault::CountryCode) => String::from_str(
                "Default country must be a 2-letter code",
            ),
            ConfigError::ConfigInvalid(ConfigFault::TemperatureUnit) => String::from_str(
                "Invalid temperature unit",
            ),
            ConfigError::ConfigInvalid(ConfigFault::Malformed) => String::from_str(
                "Configuration file is malformed",
            ),
        }
    }
}

impl Default for AppConfig {
    fn default() -> (config: AppConfig)
        ensures
            config.api_key@.len() == 0,
            config.default_country@ == "US"@,
            config.temperature_unit@ == "celsius"@,
            config.display_format == DisplayFormat::Simple,
            config.save_history,
            config.max_history_items == 10,
    {
        AppConfig {
            api_key: String::new(),
            default_country: String::from_str("US"),
            temperature_unit: String::from_str("celsius"),
            display_format: DisplayFormat::Simple,
            save_history: true,
            max_history_items: 10,
        }
    }
}

impl AppConfig {
    /// Accepts settings whose temperature unit has been read already (`None`
    /// where it is none of the known names), or names their first fault.
    pub fn validate_with_unit(&self, unit: Option<TemperatureUnit>) -> (checked: Result<
        (),
        ConfigError,
    >)
        ensures
            fault_with_unit(self, unit) is None ==> checked == Ok::<(), ConfigError>(()),
            fault_with_unit(self, unit) is Some ==> checked == Err::<(), ConfigError>(
                ConfigError::ConfigInvalid(fault_with_unit(self, unit)->Some_0),
            ),
    {
        if self.api_key.as_str().is_empty() {
            return Err(ConfigError::ConfigInvalid(ConfigFault::ApiKeyMissing));
        }
        if same_text(self.api_key.as_str(), "YOUR_API_KEY_HERE") {
            return Err(ConfigError::ConfigInvalid(ConfigFault::ApiKeyPlaceholder));
        }
        if self.default_country.as_str().unicode_len() != 2 {
            return Err(ConfigError::ConfigInvalid(ConfigFault::CountryCode));
        }
        if unit.is_none() {
            return Err(ConfigError::ConfigInvalid(ConfigFault::TemperatureUnit));
        }
        Ok(())
    }

    /// Accepts the settings, or names their first fault.
    pub fn validate(&self) -> (checked: Result<(), ConfigError>)
        ensures
            config_fault(self) is None ==> checked == Ok::<(), ConfigError>(()),
            config_fault(self) is Some ==> checked == Err::<(), ConfigError>(
                ConfigError::ConfigInvalid(config_fault(self)->Some_0),
            ),
    {
        let unit = match TemperatureUnit::from_str(self.temperature_unit.as_str()) {
            Ok(unit) => Some(unit),
            Err(_) => None,
        };
        self.validate_with_unit(unit)
    }

    /// The units of the session: the temperature unit that the settings
    /// name, or Celsius where they name none that is known; wind in metres
    /// per second.
    pub fn formatter(&self) -> (formatter: WeatherFormatter)
        ensures
            formatter.temperature_unit == configured_unit(self.temperature_unit@),
            formatter.wind_speed_unit == WindSpeedUnit::MetersPerSecond,
    {
        let unit = match TemperatureUnit::from_str(self.temperature_unit.as_str()) {
            Ok(unit) => unit,
            Err(_) => TemperatureUnit::Celsius,
        };
        WeatherFormatter::new(unit, WindSpeedUnit::MetersPerSecond)
    }
}

/// What becomes of the settings found at startup: they are handed on where
/// they were read and have no fault; a missing file, an unreadable one and a
/// fault are each reported as such.
pub open spec fn accepted_config(found: ConfigSource) -> Result<AppConfig, ConfigError> {
    match found {
        ConfigSource::Absent => Err(ConfigError::ConfigMissing),
        ConfigSource::Unreadable => Err(ConfigError::ConfigInvalid(ConfigFault::Malformed)),
        ConfigSource::Read(config) => match config_fault(&config) {
            None => Ok(config),
            Some(fault) => Err(ConfigError::ConfigInvalid(fault)),
        },
    }
}

/// Decides whether a session may start on what was found at startup.
/// Settings are handed on unchanged, and only if they are valid.
pub fn accept_config(found: ConfigSource) -> (accepted: Result<AppConfig, ConfigError>)
    ensures
        accepted == accepted_config(found),
{
    match found {
        ConfigSource::Absent => Err(ConfigError::ConfigMissing),
        ConfigSource::Unreadable => Err(ConfigError::ConfigInvalid(ConfigFault::Malformed)),
        ConfigSource::Read(config) => match config.validate() {
            Ok(()) => Ok(config),
            Err(e) => Err(e),
        },
    }
}

/// Settings without an API key never start a session, whatever else they
/// hold.
pub proof fn empty_api_key_law(config: AppConfig)
    requires
        config.api_key@.len() == 0,
    ensures
        config_fault(&config) == Some(ConfigFault::ApiKeyMissing),
        accepted_config(ConfigSource::Read(config)) is Err,
{
}

/// Settings that start a session were read from a file, have no fault and
/// are handed on as they were read.
pub proof fn accepted_settings_law(found: ConfigSource)
    ensures
        accepted_config(found) is Ok ==> found is Read && config_fault(&found->Read_0) is None
            && accepted_config(found)->Ok_0 == found->Read_0,
{
}

} // verus!
