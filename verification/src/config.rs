//! The service's settings.

use vstd::prelude::*;
use crate::errors::VaultServiceError;
use crate::text::{parse_u16, u16_value};

verus! {

#[derive(Debug, Clone, PartialEq, Eq)]
pub struct Config {
    pub solana: SolanaConfig,
    pub mongodb: MongoDbConfig,
    pub server: ServerConfig,
    pub vault_program: VaultProgramConfig,
}

#[derive(Debug, Clone, PartialEq, Eq)]
pub struct SolanaConfig {
    pub rpc_url: String,
    pub ws_url: String,
    pub commitment: String,
}

#[derive(Debug, Clone, PartialEq, Eq)]
pub struct MongoDbConfig {
    pub uri: String,
    pub database: String,
}

#[derive(Debug, Clone, PartialEq, Eq)]
pub struct ServerConfig {
    pub host: String,
    pub port: u16,
}

#[derive(Debug, Clone, PartialEq, Eq)]
pub struct VaultProgramConfig {
    pub program_id: String,
    pub usdt_mint: String,
}

/// The settings as the process environment gives them, each absent or a
/// text: `SOLANA_RPC_URL`, `SOLANA_WS_URL`, `SOLANA_COMMITMENT`,
/// `MONGODB_URI`, `MONGODB_DATABASE`, `SERVER_HOST`, `SERVER_PORT`,
/// `VAULT_PROGRAM_ID` and `USDT_MINT`.
#[derive(Debug, Clone, PartialEq, Eq)]
pub struct Environment {
    pub solana_rpc_url: Option<String>,
    pub solana_ws_url: Option<String>,
    pub solana_commitment: Option<String>,
    pub mongodb_uri: Option<String>,
    pub mongodb_database: Option<String>,
    pub server_host: Option<String>,
    pub server_port: Option<String>,
    pub vault_program_id: Option<String>,
    pub usdt_mint: Option<String>,
}

/// The text that is set, or the default.
pub open spec fn setting(value: Option<String>, default: Seq<char>) -> Seq<char> {
    match value {
        Some(text) => text@,
        None => default,
    }
}

/// The port that is set, where it is set to a port; else 8080.
pub open spec fn port_setting(value: Option<String>) -> u16 {
    match value {
        Some(text) => match u16_value(text@) {
            Some(port) => port,
            None => 8080,
        },
        None => 8080,
    }
}

/// What is said where no mint is set.
pub open spec fn mint_missing_text() -> Seq<char> {
    "USDT_MINT must be set"@
}

/// The text that is set, or the default.
fn or_default(value: Option<String>, default: &str) -> (text: String)
    ensures
        text@ == setting(value, default@),
{
    match value {
        Some(text) => text,
        None => String::from_str(default),
    }
}

impl Config {
    /// `self` holds the settings of `env`, with the defaults for what is
    /// absent.
    pub open spec fn reflects(self, env: Environment) -> bool {
        &&& self.solana.rpc_url@ == setting(env.solana_rpc_url, "http://localhost:8899"@)
        &&& self.solana.ws_url@ == setting(env.solana_ws_url, "ws://localhost:8900"@)
        &&& self.solana.commitment@ == setting(env.solana_commitment, "confirmed"@)
        &&& self.mongodb.uri@ == setting(env.mongodb_uri, "mongodb://localhost:27017"@)
        &&& self.mongodb.database@ == setting(env.mongodb_database, "vault_manager"@)
        &&& self.server.host@ == setting(env.server_host, "0.0.0.0"@)
        &&& self.server.port == port_setting(env.server_port)
        &&& self.vault_program.program_id@ == setting(
            env.vault_program_id,
            "VAULTmngr11111111111111111111111111111111"@,
        )
        &&& env.usdt_mint matches Some(mint) && self.vault_program.usdt_mint@ == mint@
    }

    /// The settings of the environment. Everything but the mint has a
    /// default; a port that is set to something that is no port counts as
    /// absent. Without a mint there are no settings.
    pub fn from_env(env: Environment) -> (r: Result<Config, VaultServiceError>)
        ensures
            env.usdt_mint is Some ==> (r matches Ok(config) && config.reflects(env)),
            env.usdt_mint is None ==> (r matches Err(VaultServiceError::ConfigError(text))
                && text@ == mint_missing_text()),
    {
        let usdt_mint = match env.usdt_mint {
            Some(mint) => mint,
            None => {
                return Err(
                    VaultServiceError::ConfigError(String::from_str("USDT_MINT must be set")),
                );
            },
        };
        let port = match &env.server_port {
            Some(text) => match parse_u16(text.as_str()) {
                Some(port) => port,
                None => 8080,
            },
            None => 8080,
        };
        Ok(
            Config {
                solana: SolanaConfig {
                    rpc_url: or_default(env.solana_rpc_url, "http://localhost:8899"),
                    ws_url: or_default(env.solana_ws_url, "ws://localhost:8900"),
                    commitment: or_default(env.solana_commitment, "confirmed"),
                },
                mongodb: MongoDbConfig {
                    uri: or_default(env.mongodb_uri, "mongodb://localhost:27017"),
                    database: or_default(env.mongodb_database, "vault_manager"),
                },
                server: ServerConfig { host: or_default(env.server_host, "0.0.0.0"), port },
                vault_program: VaultProgramConfig {
                    program_id: or_default(
                        env.vault_program_id,
                        "VAULTmngr11111111111111111111111111111111",
                    ),
                    usdt_mint,
                },
            },
        )
    }
}

} // verus!
