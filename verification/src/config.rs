//! The listen address and the shared secret: the defaults, and the one
//! combination that is refused.

use crate::text::same_text;
use vstd::prelude::*;

verus! {

/// The secret that a fresh installation starts with. It is public knowledge,
/// and a server that is configured with it lets every write through.
pub open spec fn default_token() -> Seq<char> {
    "changeme"@
}

/// The only address under which the default secret may be used.
pub open spec fn loopback() -> Seq<char> {
    "127.0.0.1"@
}

/// The port of a fresh installation.
pub open spec fn default_port() -> Seq<char> {
    "8010"@
}

/// Whether a configuration offers the default secret beyond the loopback
/// address.
pub open spec fn exposed(addr: Seq<char>, civ_token: Seq<char>) -> bool {
    civ_token == default_token() && addr != loopback()
}

/// The address to listen on: host and port, joined by a colon.
pub open spec fn listen_address(addr: Seq<char>, port: Seq<char>) -> Seq<char> {
    addr + ":"@ + port
}

/// The environment file of a fresh installation: one `NAME=value` line for
/// the address, the port and the secret, the last line left open.
pub open spec fn default_env_text() -> Seq<char> {
    "HOST_ADDR="@ + loopback() + "\nHOST_PORT="@ + default_port() + "\nCIV_TOKEN="@
        + default_token()
}

/// Why a configuration was refused.
#[derive(Clone, Copy, Debug, PartialEq, Eq, Structural)]
pub enum ConfigError {
    /// The default secret is configured together with an address other than
    /// the loopback address.
    DefaultTokenExposed,
}

impl ConfigError {
    /// The sentence that explains the refusal.
    pub fn message(&self) -> (text: &'static str)
        ensures
            text@ == "Cannot use default token with non-localhost address!"@,
    {
        "Cannot use default token with non-localhost address!"
    }
}

/// The default secret, for comparing and for writing out.
pub fn default_civ_token() -> (token: &'static str)
    ensures
        token@ == default_token(),
{
    "changeme"
}

/// Turns the three configured values into the listen address and the secret.
/// The default secret is accepted only together with the loopback address.
pub fn resolve_env_config(addr: &str, port: &str, civ_token: String) -> (config: Result<
    (String, String),
    ConfigError,
>)
    ensures
        exposed(addr@, civ_token@) ==> config == Err::<(String, String), ConfigError>(
            ConfigError::DefaultTokenExposed,
        ),
        !exposed(addr@, civ_token@) ==> config is Ok && config->Ok_0.0@ == listen_address(
            addr@,
            port@,
        ) && config->Ok_0.1@ == civ_token@,
{
    if same_text(civ_token.as_str(), default_civ_token()) && !same_text(addr, "127.0.0.1") {
        return Err(ConfigError::DefaultTokenExposed);
    }
    let mut host_addr = String::from_str(addr);
    host_addr.append(":");
    host_addr.append(port);
    Ok((host_addr, civ_token))
}

/// The configuration of a fresh installation: the loopback address with the
/// default port, and the default secret.
pub fn default_env_config() -> (config: (String, String))
    ensures
        config.0@ == listen_address(loopback(), default_port()),
        config.1@ == default_token(),
        !exposed(loopback(), config.1@),
{
    let mut host_addr = String::from_str("127.0.0.1");
    host_addr.append(":");
    host_addr.append("8010");
    (host_addr, String::from_str(default_civ_token()))
}

/// The text of the environment file that a fresh installation writes.
pub fn default_env_file() -> (text: &'static str)
    ensures
        text@ == default_env_text(),
{
    proof {
        reveal_strlit("HOST_ADDR=127.0.0.1\nHOST_PORT=8010\nCIV_TOKEN=changeme");
        reveal_strlit("HOST_ADDR=");
        reveal_strlit("127.0.0.1");
        reveal_strlit("\nHOST_PORT=");
        reveal_strlit("8010");
        reveal_strlit("\nCIV_TOKEN=");
        reveal_strlit("changeme");
        assert("HOST_ADDR=127.0.0.1\nHOST_PORT=8010\nCIV_TOKEN=changeme"@ =~= default_env_text());
    }
    "HOST_ADDR=127.0.0.1\nHOST_PORT=8010\nCIV_TOKEN=changeme"
}

} // verus!
