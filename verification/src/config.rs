//! The configuration values the router consumes, modeled as plain data: a
//! dynamic value tree, the pager command line, and the errors malformed
//! configuration raises at startup.

use vstd::prelude::*;

use crate::choice::ColorChoice;

verus! {

/// A dynamic configuration value, as a configuration file supplies it.
#[derive(Debug)]
pub enum ConfigValue {
    Str(String),
    Bool(bool),
    Array(Vec<ConfigValue>),
    Table(Vec<(String, ConfigValue)>),
    Other,
}

/// Every mapping in the value binds each key once.
pub open spec fn value_wf(v: ConfigValue) -> bool
    decreases v,
{
    match v {
        ConfigValue::Table(entries) => {
            &&& forall|i: int, j: int|
                #![trigger entries@[i].0, entries@[j].0]
                0 <= i < j < entries@.len() ==> entries@[i].0@ != entries@[j].0@
            &&& forall|i: int| 0 <= i < entries@.len() ==> value_wf(#[trigger] entries@[i].1)
        },
        ConfigValue::Array(items) => forall|i: int|
            0 <= i < items@.len() ==> value_wf(#[trigger] items@[i]),
        _ => true,
    }
}

/// Whether a configuration value is a valid pager command line: a program
/// name string, or a non-empty array of strings.
pub open spec fn pager_value_ok(v: ConfigValue) -> bool {
    match v {
        ConfigValue::Str(_) => true,
        ConfigValue::Array(items) => items@.len() > 0 && (forall|i: int|
            0 <= i < items@.len() ==> items@[i] is Str),
        _ => false,
    }
}

/// Whether `c` is the pager command line the configuration value describes.
pub open spec fn pager_represents(c: CommandNameAndArgs, v: ConfigValue) -> bool {
    match v {
        ConfigValue::Str(s) => c.name@ == s@ && c.args@.len() == 0,
        ConfigValue::Array(items) => {
            &&& items@.len() > 0
            &&& c.name@ == items@[0]->Str_0@
            &&& c.args@.len() == items@.len() - 1
            &&& forall|i: int| 1 <= i < items@.len() ==> c.args@[i - 1]@ == items@[i]->Str_0@
        },
        _ => false,
    }
}

/// Which configuration key a fatal startup error is about.
#[derive(Clone, Copy, Debug, PartialEq, Eq, Structural)]
pub enum ConfigField {
    Pager,
    Paginate,
}

/// A fatal, user-facing error raised before any output routing begins.
#[derive(Clone, Copy, Debug, PartialEq, Eq, Structural)]
pub enum CommandError {
    ConfigError(ConfigField),
}

/// The pager invocation: a program name and its arguments.
#[derive(Debug)]
pub struct CommandNameAndArgs {
    pub name: String,
    pub args: Vec<String>,
}

impl CommandNameAndArgs {
    /// Reads a pager command line from a configuration value: either a plain
    /// program name, or a non-empty array of strings, program first.
    pub fn from_value(v: &ConfigValue) -> (r: Result<CommandNameAndArgs, CommandError>)
        ensures
            r is Ok <==> pager_value_ok(*v),
            r matches Ok(c) ==> pager_represents(c, *v),
            r is Err ==> r == Err::<CommandNameAndArgs, CommandError>(
                CommandError::ConfigError(ConfigField::Pager),
            ),
    {
        match v {
            ConfigValue::Str(s) => Ok(CommandNameAndArgs { name: s.clone(), args: Vec::new() }),
            ConfigValue::Array(items) => {

                let n = items.len();
                if n == 0 {
                    return Err(CommandError::ConfigError(ConfigField::Pager));
                }
                let name = match &items[0] {
                    ConfigValue::Str(s) => s.clone(),
                    _ => {
                        return Err(CommandError::ConfigError(ConfigField::Pager));
                    },
                };
                let mut args: Vec<String> = Vec::new();
                let mut i: usize = 1;
                while i < n
                    invariant
                        *v == ConfigValue::Array(*items),
                        n == items@.len(),
                        1 <= i <= n,
                        items@[0] is Str,
                        forall|j: int| 0 <= j < i ==> items@[j] is Str,
                        args@.len() == i - 1,
                        forall|j: int| 1 <= j < i ==> args@[j - 1]@ == items@[j]->Str_0@,
                    decreases n - i,
                {
                    match &items[i] {
                        ConfigValue::Str(s) => {
                            args.push(s.clone());
                        },
                        _ => {
                            return Err(CommandError::ConfigError(ConfigField::Pager));
                        },
                    }
                    i = i + 1;
                }
                Ok(CommandNameAndArgs { name, args })
            },
            _ => Err(CommandError::ConfigError(ConfigField::Pager)),
        }
    }

    /// The program name alone, as shown in diagnostics.
    pub fn split_name(&self) -> (r: &String)
        ensures
            r@ == self.name@,
    {
        &self.name
    }
}

/// The configuration keys the router consumes, resolved once at startup and
/// on explicit reload.
#[derive(Debug)]
pub struct UiConfig {
    pub color: Option<String>,
    pub paginate: Option<ConfigValue>,
    pub pager: Option<ConfigValue>,
    pub progress_indicator: Option<bool>,
}

/// The mappings under the pagination and pager keys bind each key once.
pub open spec fn ui_config_wf(cfg: UiConfig) -> bool {
    &&& (cfg.paginate matches Some(v) ==> value_wf(v))
    &&& (cfg.pager matches Some(v) ==> value_wf(v))
}

/// Whether the configuration carries a usable pager command line.
pub open spec fn spec_pager_ok(cfg: UiConfig) -> bool {
    cfg.pager matches Some(v) && pager_value_ok(v)
}

/// The color choice a configuration yields: an unset or unrecognized value
/// falls back to `auto`.
pub open spec fn spec_color_setting(cfg: UiConfig) -> ColorChoice {
    match cfg.color {
        Some(s) => if s@ == "always"@ {
            ColorChoice::Always
        } else if s@ == "never"@ {
            ColorChoice::Never
        } else {
            ColorChoice::Auto
        },
        None => ColorChoice::Auto,
    }
}

/// Reads the color choice; an unset or unrecognized value means `auto`.
pub fn color_setting(cfg: &UiConfig) -> (r: ColorChoice)
    ensures
        r == spec_color_setting(*cfg),
{
    match &cfg.color {
        Some(s) => match ColorChoice::from_str(s.as_str()) {
            Ok(c) => c,
            Err(_) => ColorChoice::Auto,
        },
        None => ColorChoice::Auto,
    }
}

/// Whether the progress indicator is enabled; unset means enabled.
pub open spec fn spec_progress_indicator_setting(cfg: UiConfig) -> bool {
    match cfg.progress_indicator {
        Some(b) => b,
        None => true,
    }
}

/// Reads the progress-indicator switch; unset means enabled.
pub fn progress_indicator_setting(cfg: &UiConfig) -> (r: bool)
    ensures
        r == spec_progress_indicator_setting(*cfg),
{
    match cfg.progress_indicator {
        Some(b) => b,
        None => true,
    }
}

/// Reads the pager command line; a missing or malformed value is a fatal
/// configuration error.
pub fn pager_setting(cfg: &UiConfig) -> (r: Result<CommandNameAndArgs, CommandError>)
    ensures
        r is Ok <==> spec_pager_ok(*cfg),
        r matches Ok(c) ==> pager_represents(c, cfg.pager->0),
        r is Err ==> r == Err::<CommandNameAndArgs, CommandError>(
            CommandError::ConfigError(ConfigField::Pager),
        ),
{
    match &cfg.pager {
        Some(v) => CommandNameAndArgs::from_value(v),
        None => Err(CommandError::ConfigError(ConfigField::Pager)),
    }
}

} // verus!
