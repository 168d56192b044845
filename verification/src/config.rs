//! The settings of a run, as the environment gives them.

use crate::text::{optional_text, parse_unsigned, unsigned_numeral};
use vstd::prelude::*;
use vstd::string::*;

verus! {

/// Where the billing data lies in the warehouse, and how many trailing days
/// of it a report covers.
#[derive(Debug, PartialEq, Eq)]
pub struct BigQuerySettings {
    pub project_id: String,
    pub dataset: String,
    pub table: String,
    pub days_to_report: i64,
}

/// Where the report is posted, and under which name and picture.
#[derive(Debug, PartialEq, Eq)]
pub struct DiscordSettings {
    pub webhook_url: String,
    pub username: Option<String>,
    pub avatar_url: Option<String>,
}

/// All the settings of a run.
#[derive(Debug, PartialEq, Eq)]
pub struct Settings {
    pub bigquery: BigQuerySettings,
    pub discord: DiscordSettings,
}

/// A `BigQuerySettings` as mathematics.
pub struct BigQuerySettingsView {
    pub project_id: Seq<char>,
    pub dataset: Seq<char>,
    pub table: Seq<char>,
    pub days_to_report: int,
}

/// A `DiscordSettings` as mathematics.
pub struct DiscordSettingsView {
    pub webhook_url: Seq<char>,
    pub username: Option<Seq<char>>,
    pub avatar_url: Option<Seq<char>>,
}

/// A `Settings` as mathematics.
pub struct SettingsView {
    pub bigquery: BigQuerySettingsView,
    pub discord: DiscordSettingsView,
}

impl View for BigQuerySettings {
    type V = BigQuerySettingsView;

    open spec fn view(&self) -> BigQuerySettingsView {
        BigQuerySettingsView {
            project_id: self.project_id@,
            dataset: self.dataset@,
            table: self.table@,
            days_to_report: self.days_to_report as int,
        }
    }
}

impl View for DiscordSettings {
    type V = DiscordSettingsView;

    open spec fn view(&self) -> DiscordSettingsView {
        DiscordSettingsView {
            webhook_url: self.webhook_url@,
            username: optional_text(self.username),
            avatar_url: optional_text(self.avatar_url),
        }
    }
}

impl View for Settings {
    type V = SettingsView;

    open spec fn view(&self) -> SettingsView {
        SettingsView { bigquery: self.bigquery@, discord: self.discord@ }
    }
}

/// The variables of the environment that the settings are read from.
#[derive(Debug, Clone, Copy, PartialEq, Eq, Structural)]
pub enum Variable {
    ProjectId,
    Dataset,
    Table,
    DaysToReport,
    WebhookUrl,
    Username,
    AvatarUrl,
}

/// The variable of the warehouse project.
pub const PROJECT_ID_NAME: &'static str = "APP_BIGQUERY__PROJECT_ID";

/// The variable of the dataset.
pub const DATASET_NAME: &'static str = "APP_BIGQUERY__DATASET";

/// The variable of the table.
pub const TABLE_NAME: &'static str = "APP_BIGQUERY__TABLE";

/// The variable of the number of days that a report covers.
pub const DAYS_TO_REPORT_NAME: &'static str = "APP_BIGQUERY__DAYS_TO_REPORT";

/// The variable of the webhook's address.
pub const WEBHOOK_URL_NAME: &'static str = "APP_DISCORD__WEBHOOK_URL";

/// The variable of the name that the report is posted under.
pub const USERNAME_NAME: &'static str = "APP_DISCORD__USERNAME";

/// The variable of the picture that the report is posted under.
pub const AVATAR_URL_NAME: &'static str = "APP_DISCORD__AVATAR_URL";

/// The days that a report covers where the environment does not say.
pub const DEFAULT_DAYS: i64 = 30;

/// Why the environment gives no settings.
#[derive(Debug, Clone, Copy, PartialEq, Eq, Structural)]
pub enum ConfigError {
    /// A variable that must be set is not.
    Missing(Variable),
    /// A variable is set to what cannot be its value.
    Invalid(Variable),
}

/// The name of a variable.
pub open spec fn name_of(variable: Variable) -> Seq<char> {
    match variable {
        Variable::ProjectId => PROJECT_ID_NAME@,
        Variable::Dataset => DATASET_NAME@,
        Variable::Table => TABLE_NAME@,
        Variable::DaysToReport => DAYS_TO_REPORT_NAME@,
        Variable::WebhookUrl => WEBHOOK_URL_NAME@,
        Variable::Username => USERNAME_NAME@,
        Variable::AvatarUrl => AVATAR_URL_NAME@,
    }
}

/// The value of the variable `name` in an environment given as pairs of
/// name and value: that of the first pair with this name.
pub open spec fn lookup(vars: Seq<(String, String)>, name: Seq<char>) -> Option<Seq<char>>
    decreases vars.len(),
{
    if vars.len() == 0 {
        None
    } else if vars[0].0@ == name {
        Some(vars[0].1@)
    } else {
        lookup(vars.drop_first(), name)
    }
}

/// The days that a report covers: `DEFAULT_DAYS` where the variable is not
/// set, else the positive number that its text writes, if it writes one that
/// an `i64` holds.
pub open spec fn days_of(text: Option<Seq<char>>) -> Option<int> {
    match text {
        None => Some(DEFAULT_DAYS as int),
        Some(text) => match unsigned_numeral(text) {
            Some(days) => if 1 <= days <= i64::MAX {
                Some(days)
            } else {
                None
            },
            None => None,
        },
    }
}

/// The settings that an environment gives, or the first thing wrong with it,
/// the variables taken in the order project, dataset, table, days, webhook.
pub open spec fn settings_of(vars: Seq<(String, String)>) -> Result<SettingsView, ConfigError> {
    let project_id = lookup(vars, name_of(Variable::ProjectId));
    let dataset = lookup(vars, name_of(Variable::Dataset));
    let table = lookup(vars, name_of(Variable::Table));
    let days = days_of(lookup(vars, name_of(Variable::DaysToReport)));
    let webhook_url = lookup(vars, name_of(Variable::WebhookUrl));
    if project_id is None {
        Err(ConfigError::Missing(Variable::ProjectId))
    } else if dataset is None {
        Err(ConfigError::Missing(Variable::Dataset))
    } else if table is None {
        Err(ConfigError::Missing(Variable::Table))
    } else if days is None {
        Err(ConfigError::Invalid(Variable::DaysToReport))
    } else if webhook_url is None {
        Err(ConfigError::Missing(Variable::WebhookUrl))
    } else {
        Ok(
            SettingsView {
                bigquery: BigQuerySettingsView {
                    project_id: project_id.unwrap(),
                    dataset: dataset.unwrap(),
                    table: table.unwrap(),
                    days_to_report: days.unwrap(),
                },
                discord: DiscordSettingsView {
                    webhook_url: webhook_url.unwrap(),
                    username: lookup(vars, name_of(Variable::Username)),
                    avatar_url: lookup(vars, name_of(Variable::AvatarUrl)),
                },
            },
        )
    }
}

/// The variables that must be set.
pub open spec fn is_required(variable: Variable) -> bool {
    variable == Variable::ProjectId || variable == Variable::Dataset || variable
        == Variable::Table || variable == Variable::WebhookUrl
}

/// An environment in which a variable that must be set is not gives no
/// settings: reading it fails, and with a variable that is missing, unless
/// the number of days is found wrong first.
pub proof fn lemma_missing_variable_fails(vars: Seq<(String, String)>, variable: Variable)
    requires
        is_required(variable),
        lookup(vars, name_of(variable)) is None,
    ensures
        settings_of(vars) is Err,
        variable != Variable::WebhookUrl ==> (settings_of(vars) matches Err(error)
            && error is Missing),
        variable == Variable::WebhookUrl ==> (settings_of(vars) matches Err(error) && (error
            is Missing || error == ConfigError::Invalid(Variable::DaysToReport))),
{
}

/// What became of reading the settings, by its view.
pub open spec fn settings_outcome(outcome: Result<Settings, ConfigError>) -> Result<
    SettingsView,
    ConfigError,
> {
    match outcome {
        Ok(settings) => Ok(settings@),
        Err(error) => Err(error),
    }
}

/// What a failure says of itself: what is wrong, and the variable's name.
pub open spec fn config_error_text(error: ConfigError) -> Seq<char> {
    match error {
        ConfigError::Missing(variable) => "missing environment variable "@ + name_of(variable),
        ConfigError::Invalid(variable) => "invalid value of environment variable "@ + name_of(
            variable,
        ),
    }
}

impl Variable {
    /// The name of the variable.
    pub fn name(self) -> (name: &'static str)
        ensures
            name@ == name_of(self),
    {
        match self {
            Variable::ProjectId => PROJECT_ID_NAME,
            Variable::Dataset => DATASET_NAME,
            Variable::Table => TABLE_NAME,
            Variable::DaysToReport => DAYS_TO_REPORT_NAME,
            Variable::WebhookUrl => WEBHOOK_URL_NAME,
            Variable::Username => USERNAME_NAME,
            Variable::AvatarUrl => AVATAR_URL_NAME,
        }
    }
}

impl ConfigError {
    /// What the failure says of itself.
    pub fn message(&self) -> (text: String)
        ensures
            text@ == config_error_text(*self),
    {
        match self {
            ConfigError::Missing(variable) => {
                let mut text = String::from_str("missing environment variable ");
                text.append(variable.name());
                text
            },
            ConfigError::Invalid(variable) => {
                let mut text = String::from_str("invalid value of environment variable ");
                text.append(variable.name());
                text
            },
        }
    }
}

/// The value of `variable` in the environment, if it is set.
fn find(vars: &Vec<(String, String)>, variable: Variable) -> (value: Option<String>)
    ensures
        optional_text(value) == lookup(vars@, name_of(variable)),
{
    let name = String::from_str(variable.name());
    let mut i: usize = 0;
    assert(vars@.skip(0) =~= vars@);
    while i < vars.len()
        invariant
            i <= vars@.len(),
            name@ == name_of(variable),
            lookup(vars@, name_of(variable)) == lookup(vars@.skip(i as int), name_of(variable)),
        decreases vars@.len() - i,
    {
        proof {
            assert(vars@.skip(i as int)[0] == vars@[i as int]);
            assert(vars@.skip(i as int).drop_first() =~= vars@.skip(i + 1));
        }
        if vars[i].0 == name {
            return Some(vars[i].1.clone());
        }
        i += 1;
    }
    None
}

/// The value of a variable that must be set.
fn require(vars: &Vec<(String, String)>, variable: Variable) -> (value: Result<
    String,
    ConfigError,
>)
    ensures
        match value {
            Ok(text) => lookup(vars@, name_of(variable)) == Some(text@),
            Err(error) => lookup(vars@, name_of(variable)) is None && error
                == ConfigError::Missing(variable),
        },
{
    match find(vars, variable) {
        Some(text) => Ok(text),
        None => Err(ConfigError::Missing(variable)),
    }
}

/// The days that a report covers, from the text of the variable if it is set.
fn read_days(text: &Option<String>) -> (days: Option<i64>)
    ensures
        match days {
            Some(n) => days_of(optional_text(*text)) == Some(n as int) && n >= 1,
            None => days_of(optional_text(*text)) is None,
        },
{
    match text {
        None => Some(DEFAULT_DAYS),
        Some(text) => match parse_unsigned(text.as_str()) {
            Some(n) => if 1 <= n && n <= 9223372036854775807u64 {
                Some(n as i64)
            } else {
                None
            },
            None => None,
        },
    }
}

impl BigQuerySettings {
    /// The report covers one day at least.
    pub open spec fn wf(&self) -> bool {
        self.days_to_report >= 1
    }
}

impl Settings {
    /// Every part of the settings is as it must be.
    pub open spec fn wf(&self) -> bool {
        self.bigquery.wf()
    }

    /// The settings that the environment gives, the environment being the
    /// pairs of name and value of its variables. It fails on the first thing
    /// wrong: a variable that must be set and is not, or a number of days
    /// that is no positive number.
    pub fn from_env(vars: &Vec<(String, String)>) -> (outcome: Result<Settings, ConfigError>)
        ensures
            settings_outcome(outcome) == settings_of(vars@),
            outcome matches Ok(settings) ==> settings.wf(),
    {
        let project_id = match require(vars, Variable::ProjectId) {
            Ok(text) => text,
            Err(error) => {
                return Err(error);
            },
        };
        let dataset = match require(vars, Variable::Dataset) {
            Ok(text) => text,
            Err(error) => {
                return Err(error);
            },
        };
        let table = match require(vars, Variable::Table) {
            Ok(text) => text,
            Err(error) => {
                return Err(error);
            },
        };
        let days_to_report = match read_days(&find(vars, Variable::DaysToReport)) {
            Some(days) => days,
            None => {
                return Err(ConfigError::Invalid(Variable::DaysToReport));
            },
        };
        let webhook_url = match require(vars, Variable::WebhookUrl) {
            Ok(text) => text,
            Err(error) => {
                return Err(error);
            },
        };
        let username = find(vars, Variable::Username);
        let avatar_url = find(vars, Variable::AvatarUrl);
        Ok(
            Settings {
                bigquery: BigQuerySettings { project_id, dataset, table, days_to_report },
                discord: DiscordSettings { webhook_url, username, avatar_url },
            },
        )
    }
}

} // verus!
