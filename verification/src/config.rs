//! The configuration of the plugin and its defaults.

use crate::text::{join, join3};
use vstd::prelude::*;

verus! {

/// The configuration of the plugin.
#[derive(Debug, Clone)]
pub struct Config {
    pub homecore: HomecoreConfig,
    pub ecowitt: EcowittConfig,
    pub logging: LoggingConfig,
}

/// How the plugin reaches HomeCore.
#[derive(Debug, Clone)]
pub struct HomecoreConfig {
    pub broker_host: String,
    pub broker_port: u16,
    pub plugin_id: String,
    pub password: String,
}

/// How the plugin reaches the gateway, and the gateway the plugin.
#[derive(Debug, Clone)]
pub struct EcowittConfig {
    /// Port of the HTTP server that receives the gateway's reports.
    pub listen_port: u16,
    /// Address that the HTTP server binds to. The default is loopback: the upload protocol
    /// carries no real authentication, so a receiver that the LAN can reach should be paired
    /// with `allowed_source_ips`.
    pub bind_addr: String,
    /// The only sources that may report. Empty accepts any.
    pub allowed_source_ips: Vec<String>,
    /// The gateway, for polling and for the management actions.
    pub gateway_ip: Option<String>,
    /// Consoles that a broadcast does not reach. Each is asked over HTTP when a discovery runs,
    /// or when an action needs a gateway and none is configured.
    pub manual_hosts: Vec<String>,
    /// Seconds between two polls of the gateway.
    pub poll_interval_secs: u64,
    /// Prefix of the device ids in HomeCore.
    pub device_prefix: String,
    /// User of the gateway's web UI.
    pub gateway_username: String,
    /// Password of the gateway's web UI; blank where it has none.
    pub gateway_password: String,
}

/// The part of the logging configuration that the plugin itself reads.
#[derive(Debug, Clone)]
pub struct LoggingConfig {
    /// Level from which log lines are forwarded to HomeCore.
    pub log_forward_level: String,
}

/// What a configuration file says. A field that it leaves out is `None`.
#[derive(Debug)]
pub struct ConfigFile {
    pub homecore: HomecoreSection,
    pub ecowitt: EcowittSection,
    pub logging: LoggingConfig,
}

/// The section about HomeCore as the file has it.
#[derive(Debug)]
pub struct HomecoreSection {
    pub broker_host: Option<String>,
    pub broker_port: Option<u16>,
    pub plugin_id: Option<String>,
    pub password: Option<String>,
}

/// The section about the gateway as the file has it.
#[derive(Debug)]
pub struct EcowittSection {
    pub listen_port: Option<u16>,
    pub bind_addr: Option<String>,
    pub allowed_source_ips: Option<Vec<String>>,
    pub gateway_ip: Option<String>,
    pub manual_hosts: Option<Vec<String>>,
    pub poll_interval_secs: Option<u64>,
    pub device_prefix: Option<String>,
    pub gateway_username: Option<String>,
    pub gateway_password: Option<String>,
}

/// Why there is no configuration file to go by, with the words of the layer that failed.
#[derive(Debug)]
pub enum LoadFailure {
    Unreadable(String),
    Malformed(String),
}

pub fn default_broker_host() -> (host: String)
    ensures
        host@ == "127.0.0.1"@,
{
    "127.0.0.1".to_owned()
}

pub fn default_broker_port() -> (port: u16)
    ensures
        port == 1883,
{
    1883
}

pub fn default_plugin_id() -> (id: String)
    ensures
        id@ == "plugin.ecowitt"@,
{
    "plugin.ecowitt".to_owned()
}

pub fn default_listen_port() -> (port: u16)
    ensures
        port == 8888,
{
    8888
}

pub fn default_bind_addr() -> (addr: String)
    ensures
        addr@ == "127.0.0.1"@,
{
    "127.0.0.1".to_owned()
}

pub fn default_poll_interval() -> (secs: u64)
    ensures
        secs == 60,
{
    60
}

pub fn default_device_prefix() -> (prefix: String)
    ensures
        prefix@ == "ecowitt"@,
{
    "ecowitt".to_owned()
}

pub fn default_gateway_username() -> (name: String)
    ensures
        name@ == "admin"@,
{
    "admin".to_owned()
}

/// The text of a field, or its default.
pub open spec fn text_or(field: Option<String>, default: Seq<char>) -> Seq<char> {
    match field {
        Some(text) => text@,
        None => default,
    }
}

/// The list of a field, or an empty one.
pub open spec fn list_or_empty(field: Option<Vec<String>>) -> Seq<String> {
    match field {
        Some(list) => list@,
        None => Seq::empty(),
    }
}

impl HomecoreConfig {
    /// Whether this is what the section says, completed with the defaults.
    pub open spec fn completes(self, section: HomecoreSection) -> bool {
        &&& self.broker_host@ == text_or(section.broker_host, "127.0.0.1"@)
        &&& self.broker_port == (match section.broker_port {
            Some(port) => port,
            None => 1883,
        })
        &&& self.plugin_id@ == text_or(section.plugin_id, "plugin.ecowitt"@)
        &&& self.password@ == text_or(section.password, Seq::empty())
    }
}

impl EcowittConfig {
    /// Whether this is what the section says, completed with the defaults.
    pub open spec fn completes(self, section: EcowittSection) -> bool {
        &&& self.listen_port == (match section.listen_port {
            Some(port) => port,
            None => 8888,
        })
        &&& self.bind_addr@ == text_or(section.bind_addr, "127.0.0.1"@)
        &&& self.allowed_source_ips@ == list_or_empty(section.allowed_source_ips)
        &&& self.gateway_ip == section.gateway_ip
        &&& self.manual_hosts@ == list_or_empty(section.manual_hosts)
        &&& self.poll_interval_secs == (match section.poll_interval_secs {
            Some(secs) => secs,
            None => 60,
        })
        &&& self.device_prefix@ == text_or(section.device_prefix, "ecowitt"@)
        &&& self.gateway_username@ == text_or(section.gateway_username, "admin"@)
        &&& self.gateway_password@ == text_or(section.gateway_password, Seq::empty())
    }
}

impl Config {
    /// Whether this is what the file says, completed with the defaults.
    pub open spec fn completes(self, file: ConfigFile) -> bool {
        &&& self.homecore.completes(file.homecore)
        &&& self.ecowitt.completes(file.ecowitt)
        &&& self.logging == file.logging
    }

    /// The configuration that the file under `path` gives, or the message that says why it gives
    /// none.
    pub fn load(path: &str, file: Result<ConfigFile, LoadFailure>) -> (config: Result<
        Config,
        String,
    >)
        ensures
            match file {
                Ok(file) => config matches Ok(c) && c.completes(file),
                Err(LoadFailure::Unreadable(e)) => config matches Err(message) && message@
                    == "Cannot read config "@ + path@ + ": "@ + e@,
                Err(LoadFailure::Malformed(e)) => config matches Err(message) && message@
                    == "Config parse error in "@ + path@ + ": "@ + e@,
            },
    {
        match file {
            Ok(file) => Ok(
                Config {
                    homecore: complete_homecore(file.homecore),
                    ecowitt: complete_ecowitt(file.ecowitt),
                    logging: file.logging,
                },
            ),
            Err(LoadFailure::Unreadable(e)) => {
                let head = join3("Cannot read config ", path, ": ");
                Err(join(head.as_str(), e.as_str()))
            },
            Err(LoadFailure::Malformed(e)) => {
                let head = join3("Config parse error in ", path, ": ");
                Err(join(head.as_str(), e.as_str()))
            },
        }
    }
}

fn complete_homecore(section: HomecoreSection) -> (config: HomecoreConfig)
    ensures
        config.completes(section),
{
    HomecoreConfig {
        broker_host: match section.broker_host {
            Some(host) => host,
            None => default_broker_host(),
        },
        broker_port: match section.broker_port {
            Some(port) => port,
            None => default_broker_port(),
        },
        plugin_id: match section.plugin_id {
            Some(id) => id,
            None => default_plugin_id(),
        },
        password: match section.password {
            Some(password) => password,
            None => String::new(),
        },
    }
}

fn complete_ecowitt(section: EcowittSection) -> (config: EcowittConfig)
    ensures
        config.completes(section),
{
    EcowittConfig {
        listen_port: match section.listen_port {
            Some(port) => port,
            None => default_listen_port(),
        },
        bind_addr: match section.bind_addr {
            Some(addr) => addr,
            None => default_bind_addr(),
        },
        allowed_source_ips: match section.allowed_source_ips {
            Some(list) => list,
            None => Vec::new(),
        },
        gateway_ip: section.gateway_ip,
        manual_hosts: match section.manual_hosts {
            Some(list) => list,
            None => Vec::new(),
        },
        poll_interval_secs: match section.poll_interval_secs {
            Some(secs) => secs,
            None => default_poll_interval(),
        },
        device_prefix: match section.device_prefix {
            Some(prefix) => prefix,
            None => default_device_prefix(),
        },
        gateway_username: match section.gateway_username {
            Some(name) => name,
            None => default_gateway_username(),
        },
        gateway_password: match section.gateway_password {
            Some(password) => password,
            None => String::new(),
        },
    }
}

/// Where the file leaves the receiver and its callers out, the receiver is bound to loopback and
/// accepts any source.
pub proof fn receiver_is_loopback_by_default(file: ConfigFile, config: Config)
    requires
        config.completes(file),
        file.ecowitt.bind_addr is None,
        file.ecowitt.allowed_source_ips is None,
    ensures
        config.ecowitt.bind_addr@ == "127.0.0.1"@,
        config.ecowitt.allowed_source_ips@.len() == 0,
{
}

/// What a configuration file says is kept, field by field, whatever it is.
pub proof fn what_the_file_says_is_kept(file: ConfigFile, config: Config)
    requires
        config.completes(file),
    ensures
        file.homecore.broker_host matches Some(text) ==> config.homecore.broker_host@ == text@,
        file.homecore.broker_port matches Some(number) ==> config.homecore.broker_port == number,
        file.homecore.plugin_id matches Some(text) ==> config.homecore.plugin_id@ == text@,
        file.homecore.password matches Some(text) ==> config.homecore.password@ == text@,
        file.ecowitt.listen_port matches Some(number) ==> config.ecowitt.listen_port == number,
        file.ecowitt.bind_addr matches Some(text) ==> config.ecowitt.bind_addr@ == text@,
        file.ecowitt.allowed_source_ips matches Some(list)
            ==> config.ecowitt.allowed_source_ips@ == list@,
        file.ecowitt.manual_hosts matches Some(list) ==> config.ecowitt.manual_hosts@ == list@,
        file.ecowitt.poll_interval_secs matches Some(number)
            ==> config.ecowitt.poll_interval_secs == number,
        file.ecowitt.device_prefix matches Some(text) ==> config.ecowitt.device_prefix@ == text@,
        file.ecowitt.gateway_username matches Some(text)
            ==> config.ecowitt.gateway_username@ == text@,
        file.ecowitt.gateway_password matches Some(text)
            ==> config.ecowitt.gateway_password@ == text@,
        config.ecowitt.gateway_ip == file.ecowitt.gateway_ip,
        config.logging == file.logging,
{
}

/// What a configuration file leaves out has its default, field by field, whatever else it says.
pub proof fn what_the_file_leaves_out_has_its_default(file: ConfigFile, config: Config)
    requires
        config.completes(file),
    ensures
        file.homecore.broker_host is None ==> config.homecore.broker_host@ == "127.0.0.1"@,
        file.homecore.broker_port is None ==> config.homecore.broker_port == 1883,
        file.homecore.plugin_id is None ==> config.homecore.plugin_id@ == "plugin.ecowitt"@,
        file.homecore.password is None ==> config.homecore.password@ == Seq::<char>::empty(),
        file.ecowitt.listen_port is None ==> config.ecowitt.listen_port == 8888,
        file.ecowitt.bind_addr is None ==> config.ecowitt.bind_addr@ == "127.0.0.1"@,
        file.ecowitt.allowed_source_ips is None ==> config.ecowitt.allowed_source_ips@.len() == 0,
        file.ecowitt.manual_hosts is None ==> config.ecowitt.manual_hosts@.len() == 0,
        file.ecowitt.poll_interval_secs is None ==> config.ecowitt.poll_interval_secs == 60,
        file.ecowitt.device_prefix is None ==> config.ecowitt.device_prefix@ == "ecowitt"@,
        file.ecowitt.gateway_username is None ==> config.ecowitt.gateway_username@ == "admin"@,
        file.ecowitt.gateway_password is None
            ==> config.ecowitt.gateway_password@ == Seq::<char>::empty(),
{
}

/// Two files that give a field different values give different configurations.
pub proof fn different_files_give_different_configurations(
    file: ConfigFile,
    other_file: ConfigFile,
    config: Config,
    other: Config,
)
    requires
        config.completes(file),
        other.completes(other_file),
        config == other,
    ensures
        file.ecowitt.listen_port is Some && other_file.ecowitt.listen_port is Some
            ==> file.ecowitt.listen_port == other_file.ecowitt.listen_port,
        file.ecowitt.bind_addr matches Some(a) ==> (other_file.ecowitt.bind_addr matches Some(b)
            ==> a@ == b@),
        file.ecowitt.gateway_ip == other_file.ecowitt.gateway_ip,
        file.homecore.plugin_id matches Some(a) ==> (other_file.homecore.plugin_id matches Some(b)
            ==> a@ == b@),
{
}

} // verus!
