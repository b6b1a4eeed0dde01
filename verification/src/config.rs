//! Settings of the gateway, read from a list of environment variables.

use vstd::prelude::*;
use vstd::string::*;
use crate::text::{is_mac, parse_u16, parse_u16_spec, prefixed, str_is_mac};

verus! {

/// Address to listen on.
pub const ENV_BIND_HOST: &'static str = "ARTICWAKE_BIND_HOST";

/// Port to listen on.
pub const ENV_PORT: &'static str = "ARTICWAKE_PORT";

/// Hardware address of the homelab host. Required.
pub const ENV_HOMELAB_MAC: &'static str = "ARTICWAKE_HOMELAB_MAC";

/// Network address of the homelab host. Required.
pub const ENV_HOMELAB_IP: &'static str = "ARTICWAKE_HOMELAB_IP";

/// Broadcast address that the magic packet is sent to.
pub const ENV_HOMELAB_BROADCAST: &'static str = "ARTICWAKE_HOMELAB_BROADCAST";

/// Port of the boot-time shell on the homelab host.
pub const ENV_SSH_PORT: &'static str = "ARTICWAKE_SSH_PORT";

/// Where the private key lies.
pub const ENV_SSH_KEY_PATH: &'static str = "ARTICWAKE_SSH_KEY_PATH";

/// Where the PIN hash lies.
pub const ENV_PIN_HASH_PATH: &'static str = "ARTICWAKE_PIN_HASH_PATH";

pub const DEFAULT_BIND_HOST: &'static str = "127.0.0.1";

pub const DEFAULT_PORT: u16 = 8080;

pub const DEFAULT_BROADCAST: &'static str = "255.255.255.255";

pub const DEFAULT_SSH_PORT: u16 = 2222;

pub const DEFAULT_SSH_KEY_PATH: &'static str = "/etc/secrets/articwake-key";

pub const DEFAULT_PIN_HASH_PATH: &'static str = "/var/lib/articwake/pin.hash";

/// Why the settings could not be read.
#[derive(Debug)]
pub enum ConfigError {
    /// A variable that has no default is not set; its name is given.
    MissingEnvVar(String),
    /// The hardware address does not hold twelve hexadecimal digits; the
    /// text is given.
    InvalidMac(String),
    /// A port is no 16-bit decimal number; the variable's name is given.
    InvalidPort(String),
}

/// Mathematical value of a [`ConfigError`].
pub ghost enum ConfigErrorView {
    MissingEnvVar(Seq<char>),
    InvalidMac(Seq<char>),
    InvalidPort(Seq<char>),
}

impl View for ConfigError {
    type V = ConfigErrorView;

    open spec fn view(&self) -> ConfigErrorView {
        match self {
            ConfigError::MissingEnvVar(m) => ConfigErrorView::MissingEnvVar(m@),
            ConfigError::InvalidMac(m) => ConfigErrorView::InvalidMac(m@),
            ConfigError::InvalidPort(m) => ConfigErrorView::InvalidPort(m@),
        }
    }
}

/// Text shown for an error.
pub open spec fn config_error_text(e: ConfigErrorView) -> Seq<char> {
    match e {
        ConfigErrorView::MissingEnvVar(m) => "Missing required environment variable: "@ + m,
        ConfigErrorView::InvalidMac(m) => "Invalid MAC address format: "@ + m,
        ConfigErrorView::InvalidPort(m) => "Invalid port number: "@ + m,
    }
}

impl ConfigError {
    /// Human-readable description of the error.
    pub fn message(&self) -> (text: String)
        ensures
            text@ == config_error_text(self@),
    {
        match self {
            ConfigError::MissingEnvVar(m) => prefixed(
                "Missing required environment variable: ",
                m.as_str(),
            ),
            ConfigError::InvalidMac(m) => prefixed("Invalid MAC address format: ", m.as_str()),
            ConfigError::InvalidPort(m) => prefixed("Invalid port number: ", m.as_str()),
        }
    }
}

/// Mathematical value of what [`validate_mac`] returns.
pub open spec fn validation_view(r: Result<(), ConfigError>) -> Result<(), ConfigErrorView> {
    match r {
        Ok(_) => Ok(()),
        Err(e) => Err(e@),
    }
}

/// What [`validate_mac`] returns for `s`.
pub open spec fn validate_mac_spec(s: Seq<char>) -> Result<(), ConfigErrorView> {
    if is_mac(s) {
        Ok(())
    } else {
        Err(ConfigErrorView::InvalidMac(s))
    }
}

/// Accepts a text that holds exactly twelve hexadecimal digits, whatever
/// separates them, and refuses every other.
pub fn validate_mac(mac_str: &str) -> (r: Result<(), ConfigError>)
    ensures
        validation_view(r) == validate_mac_spec(mac_str@),
{
    if str_is_mac(mac_str) {
        Ok(())
    } else {
        Err(ConfigError::InvalidMac(mac_str.to_owned()))
    }
}

/// The settings of the gateway.
#[derive(Debug, Clone)]
pub struct Config {
    pub bind_host: String,
    pub port: u16,
    pub homelab_mac: String,
    pub homelab_ip: String,
    pub homelab_broadcast: String,
    pub ssh_port: u16,
    pub ssh_key_path: String,
    pub pin_hash_path: String,
}

/// Mathematical value of a [`Config`].
pub ghost struct ConfigView {
    pub bind_host: Seq<char>,
    pub port: u16,
    pub homelab_mac: Seq<char>,
    pub homelab_ip: Seq<char>,
    pub homelab_broadcast: Seq<char>,
    pub ssh_port: u16,
    pub ssh_key_path: Seq<char>,
    pub pin_hash_path: Seq<char>,
}

impl View for Config {
    type V = ConfigView;

    open spec fn view(&self) -> ConfigView {
        ConfigView {
            bind_host: self.bind_host@,
            port: self.port,
            homelab_mac: self.homelab_mac@,
            homelab_ip: self.homelab_ip@,
            homelab_broadcast: self.homelab_broadcast@,
            ssh_port: self.ssh_port,
            ssh_key_path: self.ssh_key_path@,
            pin_hash_path: self.pin_hash_path@,
        }
    }
}

/// The value of the variable `name` in `env`: that of the first entry
/// under this name, if there is one.
pub open spec fn env_value(env: Seq<(String, String)>, name: Seq<char>) -> Option<Seq<char>>
    decreases env.len(),
{
    if env.len() == 0 {
        None
    } else if env[0].0@ == name {
        Some(env[0].1@)
    } else {
        env_value(env.drop_first(), name)
    }
}

/// A setting that has a default.
pub open spec fn text_setting(
    env: Seq<(String, String)>,
    name: Seq<char>,
    default: Seq<char>,
) -> Seq<char> {
    match env_value(env, name) {
        Some(v) => v,
        None => default,
    }
}

/// A setting that has none.
pub open spec fn required_setting(env: Seq<(String, String)>, name: Seq<char>) -> Result<
    Seq<char>,
    ConfigErrorView,
> {
    match env_value(env, name) {
        Some(v) => Ok(v),
        None => Err(ConfigErrorView::MissingEnvVar(name)),
    }
}

/// A port: the default where the variable is not set, else what it spells.
pub open spec fn port_setting(env: Seq<(String, String)>, name: Seq<char>, default: u16) -> Result<
    u16,
    ConfigErrorView,
> {
    match env_value(env, name) {
        None => Ok(default),
        Some(text) => match parse_u16_spec(text) {
            Some(port) => Ok(port),
            None => Err(ConfigErrorView::InvalidPort(name)),
        },
    }
}

/// The settings that `env` describes, or the first fault found in it. The
/// order of the checks is: the port, the hardware address (set, then well
/// formed), the network address, the shell port.
pub open spec fn from_env_spec(env: Seq<(String, String)>) -> Result<ConfigView, ConfigErrorView> {
    match port_setting(env, ENV_PORT@, DEFAULT_PORT) {
        Err(e) => Err(e),
        Ok(port) => match required_setting(env, ENV_HOMELAB_MAC@) {
            Err(e) => Err(e),
            Ok(mac) => if !is_mac(mac) {
                Err(ConfigErrorView::InvalidMac(mac))
            } else {
                match required_setting(env, ENV_HOMELAB_IP@) {
                    Err(e) => Err(e),
                    Ok(ip) => match port_setting(env, ENV_SSH_PORT@, DEFAULT_SSH_PORT) {
                        Err(e) => Err(e),
                        Ok(ssh_port) => Ok(
                            ConfigView {
                                bind_host: text_setting(env, ENV_BIND_HOST@, DEFAULT_BIND_HOST@),
                                port,
                                homelab_mac: mac,
                                homelab_ip: ip,
                                homelab_broadcast: text_setting(
                                    env,
                                    ENV_HOMELAB_BROADCAST@,
                                    DEFAULT_BROADCAST@,
                                ),
                                ssh_port,
                                ssh_key_path: text_setting(
                                    env,
                                    ENV_SSH_KEY_PATH@,
                                    DEFAULT_SSH_KEY_PATH@,
                                ),
                                pin_hash_path: text_setting(
                                    env,
                                    ENV_PIN_HASH_PATH@,
                                    DEFAULT_PIN_HASH_PATH@,
                                ),
                            },
                        ),
                    },
                }
            },
        },
    }
}

/// Mathematical value of what [`Config::from_env`] returns.
pub open spec fn config_result_view(r: Result<Config, ConfigError>) -> Result<
    ConfigView,
    ConfigErrorView,
> {
    match r {
        Ok(c) => Ok(c@),
        Err(e) => Err(e@),
    }
}

/// Looks the variable `name` up in `env`.
pub fn env_var<'a>(env: &'a Vec<(String, String)>, name: &str) -> (value: Option<&'a String>)
    ensures
        match env_value(env@, name@) {
            Some(v) => value is Some && value->0@ == v,
            None => value is None,
        },
{
    let wanted = name.to_owned();
    let mut i: usize = 0;
    proof {
        assert(env@.skip(0) =~= env@);
    }
    while i < env.len()
        invariant
            i <= env.len(),
            wanted@ == name@,
            env_value(env@, name@) == env_value(env@.skip(i as int), name@),
        decreases env.len() - i,
    {
        proof {
            assert(env@.skip(i as int)[0] == env@[i as int]);
            assert(env@.skip(i as int).drop_first() =~= env@.skip(i + 1));
        }
        if env[i].0 == wanted {
            return Some(&env[i].1);
        }
        i = i + 1;
    }
    None
}

fn text_var(env: &Vec<(String, String)>, name: &str, default: &str) -> (value: String)
    ensures
        value@ == text_setting(env@, name@, default@),
{
    match env_var(env, name) {
        Some(v) => v.clone(),
        None => default.to_owned(),
    }
}

fn required_var(env: &Vec<(String, String)>, name: &str) -> (value: Result<String, ConfigError>)
    ensures
        match required_setting(env@, name@) {
            Ok(v) => value is Ok && value->Ok_0@ == v,
            Err(e) => value is Err && value->Err_0@ == e,
        },
{
    match env_var(env, name) {
        Some(v) => Ok(v.clone()),
        None => Err(ConfigError::MissingEnvVar(name.to_owned())),
    }
}

fn port_var(env: &Vec<(String, String)>, name: &str, default: u16) -> (value: Result<
    u16,
    ConfigError,
>)
    ensures
        match port_setting(env@, name@, default) {
            Ok(v) => value == Ok::<u16, ConfigError>(v),
            Err(e) => value is Err && value->Err_0@ == e,
        },
{
    match env_var(env, name) {
        None => Ok(default),
        Some(text) => match parse_u16(text.as_str()) {
            Some(port) => Ok(port),
            None => Err(ConfigError::InvalidPort(name.to_owned())),
        },
    }
}

impl Config {
    /// Reads the settings from the environment `env`, a list of pairs of a
    /// variable's name and its value. Only the hardware address and the
    /// network address of the homelab host must be set; everything else
    /// has a default.
    pub fn from_env(env: &Vec<(String, String)>) -> (r: Result<Config, ConfigError>)
        ensures
            config_result_view(r) == from_env_spec(env@),
    {
        let bind_host = text_var(env, ENV_BIND_HOST, DEFAULT_BIND_HOST);
        let port = match port_var(env, ENV_PORT, DEFAULT_PORT) {
            Ok(port) => port,
            Err(e) => {
                return Err(e);
            },
        };
        let homelab_mac = match required_var(env, ENV_HOMELAB_MAC) {
            Ok(mac) => mac,
            Err(e) => {
                return Err(e);
            },
        };
        if !str_is_mac(homelab_mac.as_str()) {
            return Err(ConfigError::InvalidMac(homelab_mac));
        }
        let homelab_ip = match required_var(env, ENV_HOMELAB_IP) {
            Ok(ip) => ip,
            Err(e) => {
                return Err(e);
            },
        };
        let homelab_broadcast = text_var(env, ENV_HOMELAB_BROADCAST, DEFAULT_BROADCAST);
        let ssh_port = match port_var(env, ENV_SSH_PORT, DEFAULT_SSH_PORT) {
            Ok(port) => port,
            Err(e) => {
                return Err(e);
            },
        };
        let ssh_key_path = text_var(env, ENV_SSH_KEY_PATH, DEFAULT_SSH_KEY_PATH);
        let pin_hash_path = text_var(env, ENV_PIN_HASH_PATH, DEFAULT_PIN_HASH_PATH);
        Ok(
            Config {
                bind_host,
                port,
                homelab_mac,
                homelab_ip,
                homelab_broadcast,
                ssh_port,
                ssh_key_path,
                pin_hash_path,
            },
        )
    }
}

} // verus!
