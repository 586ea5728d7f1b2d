//! The adapter's settings: the command line arguments as given, their
//! validation, and the configuration derived from them. Durations are in
//! milliseconds.
use vstd::prelude::*;
use crate::error::{AppError, AppFault};
use crate::text::{decimal, text_with_number, push_decimal, strip, strip_text, CharClass, opt_view};

verus! {

#[verifier::external_type_specification]
#[verifier::external_body]
pub struct ExPathBuf(std::path::PathBuf);

pub const DEFAULT_SOURCE_PORT: u16 = 23;
pub const DEFAULT_MQTT_PORT: u16 = 1883;
pub const DEFAULT_TIMEOUT_MILLIS: u64 = 2_000;
pub const DEFAULT_INTERVAL_MILLIS: u64 = 1_000;
pub const DEFAULT_MANAGEMENT_INTERVAL_MILLIS: u64 = 30_000;
pub const DEFAULT_RECONNECT_INITIAL_DELAY_MILLIS: u64 = 1_000;
pub const DEFAULT_RECONNECT_MAX_DELAY_MILLIS: u64 = 30_000;
pub const DEFAULT_STATS_INTERVAL_MILLIS: u64 = 300_000;
pub const DEFAULT_SCAN_START: u8 = 2;
pub const DEFAULT_SCAN_END: u8 = 9;
pub const DEFAULT_DISCOVERY_PREFIX: &'static str = "homeassistant";
pub const DEFAULT_TOPIC_PREFIX: &'static str = "pylontech";
pub const DEFAULT_CLIENT_ID: &'static str = "pylontech-rs-mqtt-adapter";

/// The command line arguments as given.
#[derive(Debug)]
pub struct CliArgs {
    pub source_host: String,
    pub source_port: u16,
    pub timeout_millis: u64,
    pub interval_millis: u64,
    pub management_interval_millis: u64,
    pub scan_start: u8,
    pub scan_end: u8,
    pub reconnect_initial_delay_millis: u64,
    pub reconnect_max_delay_millis: u64,
    pub stats_interval_millis: u64,
    pub mqtt_host: String,
    pub mqtt_port: u16,
    pub mqtt_user: Option<String>,
    pub mqtt_password: Option<String>,
    pub mqtt_password_file: Option<std::path::PathBuf>,
    pub discovery_prefix: String,
    pub topic_prefix: String,
    pub client_id: String,
}

#[derive(Debug, Clone)]
pub struct AppConfig {
    pub source: SourceConfig,
    pub polling: PollingConfig,
    pub mqtt: MqttConfig,
    pub reconnect: ReconnectConfig,
    pub stats: StatsConfig,
}

#[derive(Debug, Clone)]
pub struct SourceConfig {
    pub host: String,
    pub port: u16,
    pub timeout_millis: u64,
}

#[derive(Debug, Clone)]
pub struct PollingConfig {
    pub interval_millis: u64,
    pub management_interval_millis: u64,
    pub scan_start: u8,
    pub scan_end: u8,
}

impl PollingConfig {
    /// The module addresses to probe, both ends included.
    pub fn addresses(&self) -> (res: std::ops::RangeInclusive<u8>)
        ensures
            res@.start == self.scan_start,
            res@.end == self.scan_end,
            !res@.exhausted,
    {
        std::ops::RangeInclusive::new(self.scan_start, self.scan_end)
    }
}

#[derive(Debug, Clone)]
pub struct MqttConfig {
    pub host: String,
    pub port: u16,
    pub username: Option<String>,
    pub password: Option<String>,
    pub discovery_prefix: String,
    pub topic_prefix: String,
    pub client_id: String,
}

#[derive(Debug, Clone)]
pub struct ReconnectConfig {
    pub initial_delay_millis: u64,
    pub max_delay_millis: u64,
}

#[derive(Debug, Clone)]
pub struct StatsConfig {
    pub interval_millis: u64,
}

pub open spec fn trimmed(s: Seq<char>) -> Seq<char> {
    strip(s, CharClass::Whitespace)
}

pub open spec fn scan_range_text(start: u8, end: u8) -> Seq<char> {
    "scan start "@ + decimal(start as nat) + " cannot be greater than scan end "@ + decimal(end as nat)
}

pub open spec fn reconnect_delays_text(initial: u64, max: u64) -> Seq<char> {
    "reconnect initial delay "@ + decimal(initial as nat) + " cannot be greater than reconnect max delay "@ + decimal(
        max as nat,
    )
}

/// The first rule of the arguments' numbers and hosts that they break, as
/// the text of the refusal.
pub open spec fn argument_problem(a: CliArgs) -> Option<Seq<char>> {
    if trimmed(a.source_host@).len() == 0 {
        Some("source host cannot be empty"@)
    } else if trimmed(a.mqtt_host@).len() == 0 {
        Some("mqtt host cannot be empty"@)
    } else if a.timeout_millis == 0 {
        Some("timeout must be greater than zero"@)
    } else if a.interval_millis == 0 {
        Some("interval must be greater than zero"@)
    } else if a.management_interval_millis == 0 {
        Some("management interval must be greater than zero"@)
    } else if a.scan_start > a.scan_end {
        Some(scan_range_text(a.scan_start, a.scan_end))
    } else if a.reconnect_initial_delay_millis == 0 {
        Some("reconnect initial delay must be greater than zero"@)
    } else if a.reconnect_max_delay_millis == 0 {
        Some("reconnect max delay must be greater than zero"@)
    } else if a.reconnect_initial_delay_millis > a.reconnect_max_delay_millis {
        Some(reconnect_delays_text(a.reconnect_initial_delay_millis, a.reconnect_max_delay_millis))
    } else if a.stats_interval_millis == 0 {
        Some("stats interval must be greater than zero"@)
    } else {
        None
    }
}

fn invalid_config(message: &str) -> (res: AppError)
    ensures
        res@ == AppFault::InvalidConfig(message@),
{
    AppError::InvalidConfig(String::from_str(message))
}

fn is_blank(s: &str) -> (res: bool)
    ensures
        res == (trimmed(s@).len() == 0),
{
    let t = strip_text(s, CharClass::Whitespace);
    t.as_str().unicode_len() == 0
}

impl CliArgs {
    /// Checks the hosts, intervals, delays and the scan range.
    pub fn validate(&self) -> (res: Result<(), AppError>)
        ensures
            argument_problem(*self) is None ==> res is Ok,
            argument_problem(*self) is Some ==> res is Err && res->Err_0@ == AppFault::InvalidConfig(
                argument_problem(*self)->Some_0,
            ),
    {
        if is_blank(self.source_host.as_str()) {
            return Err(invalid_config("source host cannot be empty"));
        }
        if is_blank(self.mqtt_host.as_str()) {
            return Err(invalid_config("mqtt host cannot be empty"));
        }
        if self.timeout_millis == 0 {
            return Err(invalid_config("timeout must be greater than zero"));
        }
        if self.interval_millis == 0 {
            return Err(invalid_config("interval must be greater than zero"));
        }
        if self.management_interval_millis == 0 {
            return Err(invalid_config("management interval must be greater than zero"));
        }
        if self.scan_start > self.scan_end {
            let mut m = text_with_number("scan start ", self.scan_start as u64, " cannot be greater than scan end ");
            push_decimal(&mut m, self.scan_end as u64);
            return Err(AppError::InvalidConfig(m));
        }
        if self.reconnect_initial_delay_millis == 0 {
            return Err(invalid_config("reconnect initial delay must be greater than zero"));
        }
        if self.reconnect_max_delay_millis == 0 {
            return Err(invalid_config("reconnect max delay must be greater than zero"));
        }
        if self.reconnect_initial_delay_millis > self.reconnect_max_delay_millis {
            let mut m = text_with_number(
                "reconnect initial delay ",
                self.reconnect_initial_delay_millis,
                " cannot be greater than reconnect max delay ",
            );
            push_decimal(&mut m, self.reconnect_max_delay_millis);
            return Err(AppError::InvalidConfig(m));
        }
        if self.stats_interval_millis == 0 {
            return Err(invalid_config("stats interval must be greater than zero"));
        }
        Ok(())
    }
}

/// A topic prefix without surrounding white space and slashes.
pub open spec fn topic_segment(s: Seq<char>) -> Seq<char> {
    strip(strip(s, CharClass::Whitespace), CharClass::Exactly('/'))
}

/// Trims `value` of white space and then of slashes; an empty result is
/// refused, naming `field_name`.
pub fn normalize_topic_segment(value: &str, field_name: &str) -> (res: Result<String, AppError>)
    ensures
        topic_segment(value@).len() == 0 ==> res is Err && res->Err_0@ == AppFault::InvalidConfig(
            field_name@ + " cannot be empty"@,
        ),
        topic_segment(value@).len() > 0 ==> res is Ok && res->Ok_0@ == topic_segment(value@),
{
    let trimmed_value = strip_text(value, CharClass::Whitespace);
    let normalized = strip_text(trimmed_value.as_str(), CharClass::Exactly('/'));
    if normalized.as_str().unicode_len() == 0 {
        let mut m = String::from_str(field_name);
        m.append(" cannot be empty");
        return Err(AppError::InvalidConfig(m));
    }
    Ok(normalized)
}

/// The password to use: the one given directly, or the trimmed contents of
/// the password file.
pub open spec fn chosen_password(password: Option<String>, file_given: bool, contents: Option<String>) -> Option<Seq<char>> {
    match password {
        Some(p) => if file_given {
            None
        } else {
            Some(p@)
        },
        None => if file_given {
            Some(trimmed(contents->Some_0@))
        } else {
            None
        },
    }
}

/// Picks the password from `--mqtt-password` or from the contents of the
/// file named by `--mqtt-password-file` (read by the caller); both at once,
/// or an empty file, are refused.
pub fn load_password(password: Option<String>, password_file: Option<std::path::PathBuf>, password_file_contents: Option<String>) -> (res: Result<Option<String>, AppError>)
    requires
        password is None && password_file is Some ==> password_file_contents is Some,
    ensures
        password is Some && password_file is Some ==> res is Err && res->Err_0@ == AppFault::InvalidConfig(
            "use either --mqtt-password or --mqtt-password-file"@,
        ),
        password is None && password_file is Some && trimmed(password_file_contents->Some_0@).len() == 0 ==> res is Err
            && res->Err_0@ == AppFault::InvalidConfig("mqtt password file was empty"@),
        !(password is Some && password_file is Some) && !(password is None && password_file is Some && trimmed(
            password_file_contents->Some_0@,
        ).len() == 0) ==> res is Ok && opt_view(res->Ok_0) == chosen_password(password, password_file is Some, password_file_contents),
{
    match (password, password_file) {
        (Some(_), Some(_)) => Err(invalid_config("use either --mqtt-password or --mqtt-password-file")),
        (Some(password), None) => Ok(Some(password)),
        (None, Some(_)) => {
            let contents = match password_file_contents {
                Some(c) => c,
                None => String::new(),
            };
            let password = strip_text(contents.as_str(), CharClass::Whitespace);
            if password.as_str().unicode_len() == 0 {
                return Err(invalid_config("mqtt password file was empty"));
            }
            Ok(Some(password))
        },
        (None, None) => Ok(None),
    }
}

/// The first reason to refuse the arguments, given the password file's
/// contents.
pub open spec fn config_problem(a: CliArgs, contents: Option<String>) -> Option<Seq<char>> {
    let password = chosen_password(a.mqtt_password, a.mqtt_password_file is Some, contents);
    if argument_problem(a) is Some {
        argument_problem(a)
    } else if a.mqtt_password is Some && a.mqtt_password_file is Some {
        Some("use either --mqtt-password or --mqtt-password-file"@)
    } else if a.mqtt_password is None && a.mqtt_password_file is Some && trimmed(contents->Some_0@).len() == 0 {
        Some("mqtt password file was empty"@)
    } else if password is Some && a.mqtt_user is None {
        Some("mqtt password requires --mqtt-user"@)
    } else if topic_segment(a.discovery_prefix@).len() == 0 {
        Some("discovery prefix"@ + " cannot be empty"@)
    } else if topic_segment(a.topic_prefix@).len() == 0 {
        Some("topic prefix"@ + " cannot be empty"@)
    } else {
        None
    }
}

/// The configuration the arguments stand for.
pub open spec fn config_matches(c: AppConfig, a: CliArgs, contents: Option<String>) -> bool {
    &&& c.source.host@ == trimmed(a.source_host@)
    &&& c.source.port == a.source_port
    &&& c.source.timeout_millis == a.timeout_millis
    &&& c.polling.interval_millis == a.interval_millis
    &&& c.polling.management_interval_millis == a.management_interval_millis
    &&& c.polling.scan_start == a.scan_start
    &&& c.polling.scan_end == a.scan_end
    &&& c.mqtt.host@ == trimmed(a.mqtt_host@)
    &&& c.mqtt.port == a.mqtt_port
    &&& opt_view(c.mqtt.username) == match a.mqtt_user {
        Some(u) => Some(trimmed(u@)),
        None => None::<Seq<char>>,
    }
    &&& opt_view(c.mqtt.password) == chosen_password(a.mqtt_password, a.mqtt_password_file is Some, contents)
    &&& c.mqtt.discovery_prefix@ == topic_segment(a.discovery_prefix@)
    &&& c.mqtt.topic_prefix@ == topic_segment(a.topic_prefix@)
    &&& c.mqtt.client_id@ == trimmed(a.client_id@)
    &&& c.reconnect.initial_delay_millis == a.reconnect_initial_delay_millis
    &&& c.reconnect.max_delay_millis == a.reconnect_max_delay_millis
    &&& c.stats.interval_millis == a.stats_interval_millis
}

impl AppConfig {
    /// What every accepted configuration satisfies: hosts and prefixes are
    /// not empty, intervals and delays are positive, the scan range is
    /// ordered and the initial reconnect delay is at most the maximum.
    pub open spec fn wf(&self) -> bool {
        &&& self.source.host@.len() > 0
        &&& self.mqtt.host@.len() > 0
        &&& self.mqtt.discovery_prefix@.len() > 0
        &&& self.mqtt.topic_prefix@.len() > 0
        &&& self.source.timeout_millis > 0
        &&& self.polling.interval_millis > 0
        &&& self.polling.management_interval_millis > 0
        &&& self.polling.scan_start <= self.polling.scan_end
        &&& 0 < self.reconnect.initial_delay_millis <= self.reconnect.max_delay_millis
        &&& self.stats.interval_millis > 0
        &&& self.mqtt.password is Some ==> self.mqtt.username is Some
    }
}

impl CliArgs {
    /// Validates the arguments and derives the configuration. When a
    /// password file is named and no password is given directly, the caller
    /// reads the file once `validate` has passed and hands in its contents.
    pub fn into_config(self, password_file_contents: Option<String>) -> (res: Result<AppConfig, AppError>)
        requires
            argument_problem(self) is None && self.mqtt_password is None && self.mqtt_password_file is Some
                ==> password_file_contents is Some,
        ensures
            config_problem(self, password_file_contents) is Some ==> res is Err && res->Err_0@ == AppFault::InvalidConfig(
                config_problem(self, password_file_contents)->Some_0,
            ),
            config_problem(self, password_file_contents) is None ==> res is Ok && config_matches(
                res->Ok_0,
                self,
                password_file_contents,
            ),
            res is Ok ==> res->Ok_0.wf(),
    {
        match self.validate() {
            Ok(()) => {},
            Err(e) => return Err(e),
        }
        let ghost args = self;
        let CliArgs {
            source_host,
            source_port,
            timeout_millis,
            interval_millis,
            management_interval_millis,
            scan_start,
            scan_end,
            reconnect_initial_delay_millis,
            reconnect_max_delay_millis,
            stats_interval_millis,
            mqtt_host,
            mqtt_port,
            mqtt_user,
            mqtt_password,
            mqtt_password_file,
            discovery_prefix,
            topic_prefix,
            client_id,
        } = self;
        let password = match load_password(mqtt_password, mqtt_password_file, password_file_contents) {
            Ok(p) => p,
            Err(e) => return Err(e),
        };
        if password.is_some() && mqtt_user.is_none() {
            return Err(invalid_config("mqtt password requires --mqtt-user"));
        }
        let username = match mqtt_user {
            Some(value) => Some(strip_text(value.as_str(), CharClass::Whitespace)),
            None => None,
        };
        let discovery_prefix = match normalize_topic_segment(discovery_prefix.as_str(), "discovery prefix") {
            Ok(v) => v,
            Err(e) => return Err(e),
        };
        let topic_prefix = match normalize_topic_segment(topic_prefix.as_str(), "topic prefix") {
            Ok(v) => v,
            Err(e) => return Err(e),
        };
        Ok(AppConfig {
            source: SourceConfig {
                host: strip_text(source_host.as_str(), CharClass::Whitespace),
                port: source_port,
                timeout_millis,
            },
            polling: PollingConfig { interval_millis, management_interval_millis, scan_start, scan_end },
            mqtt: MqttConfig {
                host: strip_text(mqtt_host.as_str(), CharClass::Whitespace),
                port: mqtt_port,
                username,
                password,
                discovery_prefix,
                topic_prefix,
                client_id: strip_text(client_id.as_str(), CharClass::Whitespace),
            },
            reconnect: ReconnectConfig {
                initial_delay_millis: reconnect_initial_delay_millis,
                max_delay_millis: reconnect_max_delay_millis,
            },
            stats: StatsConfig { interval_millis: stats_interval_millis },
        })
    }
}

/// An accepted configuration takes each setting from the argument of the
/// same name: hosts and the client id with surrounding white space
/// removed, prefixes also without leading and trailing slashes, numbers as
/// given, and the password from the argument or, trimmed, from the file.
pub proof fn lemma_config_takes_each_argument(c: AppConfig, a: CliArgs, contents: Option<String>)
    requires
        config_problem(a, contents) is None,
        config_matches(c, a, contents),
    ensures
        c.source.host@ == strip(a.source_host@, CharClass::Whitespace),
        c.source.port == a.source_port,
        c.source.timeout_millis == a.timeout_millis,
        c.polling.interval_millis == a.interval_millis,
        c.polling.management_interval_millis == a.management_interval_millis,
        c.polling.scan_start == a.scan_start,
        c.polling.scan_end == a.scan_end,
        c.mqtt.host@ == strip(a.mqtt_host@, CharClass::Whitespace),
        c.mqtt.port == a.mqtt_port,
        a.mqtt_user is None ==> c.mqtt.username is None,
        a.mqtt_user matches Some(u) ==> (c.mqtt.username matches Some(v) && v@ == strip(u@, CharClass::Whitespace)),
        a.mqtt_password matches Some(p) ==> (c.mqtt.password matches Some(q) && q@ == p@),
        a.mqtt_password_file is Some ==> (c.mqtt.password matches Some(q) && q@ == strip(
            contents->Some_0@,
            CharClass::Whitespace,
        )),
        a.mqtt_password is None && a.mqtt_password_file is None ==> c.mqtt.password is None,
        c.mqtt.discovery_prefix@ == strip(strip(a.discovery_prefix@, CharClass::Whitespace), CharClass::Exactly('/')),
        c.mqtt.topic_prefix@ == strip(strip(a.topic_prefix@, CharClass::Whitespace), CharClass::Exactly('/')),
        c.mqtt.client_id@ == strip(a.client_id@, CharClass::Whitespace),
        c.reconnect.initial_delay_millis == a.reconnect_initial_delay_millis,
        c.reconnect.max_delay_millis == a.reconnect_max_delay_millis,
        c.stats.interval_millis == a.stats_interval_millis,
{
}

} // verus!
