use collateral_ledger::config::{Config, MongoDbConfig, ServerConfig, SolanaConfig, VaultProgramConfig};
use collateral_ledger::errors::VaultServiceError;
use collateral_ledger::pubkey::{ParsePubkeyError, Pubkey};
use collateral_ledger::vault_manager::VaultManager;

const SYSTEM: &str = "11111111111111111111111111111111";
const TOKEN: &str = "TokenkegQfeZyiNwAJbNbGKPFXCWuBvf9Ss623VQ5DA";

fn config(program_id: &str, usdt_mint: &str) -> Config {
    Config {
        solana: SolanaConfig {
            rpc_url: "http://localhost:8899".to_string(),
            ws_url: "ws://localhost:8900".to_string(),
            commitment: "confirmed".to_string(),
        },
        mongodb: MongoDbConfig {
            uri: "mongodb://localhost:27017".to_string(),
            database: "vault_manager".to_string(),
        },
        server: ServerConfig { host: "0.0.0.0".to_string(), port: 8080 },
        vault_program: VaultProgramConfig {
            program_id: program_id.to_string(),
            usdt_mint: usdt_mint.to_string(),
        },
    }
}

#[test]
fn the_all_ones_text_is_the_zero_key() {
    assert_eq!(Pubkey::from_str(SYSTEM), Ok(Pubkey { bytes: [0; 32] }));
    assert_eq!(Pubkey { bytes: [0; 32] }.to_text(), SYSTEM);
}

#[test]
fn a_key_reads_back_from_its_text() {
    let key = Pubkey::from_str(TOKEN).unwrap();
    assert_ne!(key, Pubkey { bytes: [0; 32] });
    assert_eq!(key.to_text(), TOKEN);
    let mut bytes = [0u8; 32];
    for (i, b) in bytes.iter_mut().enumerate() {
        *b = (i * 7 + 3) as u8;
    }
    let key = Pubkey { bytes };
    assert_eq!(Pubkey::from_str(&key.to_text()), Ok(key));
    assert_eq!(key.to_text(), solana_sdk::pubkey::Pubkey::new_from_array(bytes).to_string());
}

#[test]
fn texts_that_are_no_keys() {
    assert_eq!(Pubkey::from_str("abc"), Err(ParsePubkeyError::WrongSize));
    assert_eq!(Pubkey::from_str(""), Err(ParsePubkeyError::WrongSize));
    assert_eq!(
        Pubkey::from_str("I1111111111111111111111111111111"),
        Err(ParsePubkeyError::Invalid)
    );
    assert_eq!(
        Pubkey::from_str("111111111111111111111111111111111111111111111"),
        Err(ParsePubkeyError::WrongSize)
    );
    assert_eq!(ParsePubkeyError::WrongSize.message(), "String is the wrong size");
    assert_eq!(ParsePubkeyError::Invalid.message(), "Invalid Base58 string");
    assert_eq!(
        ParsePubkeyError::WrongSize.message(),
        solana_sdk::pubkey::ParsePubkeyError::WrongSize.to_string()
    );
    assert_eq!(
        ParsePubkeyError::Invalid.message(),
        solana_sdk::pubkey::ParsePubkeyError::Invalid.to_string()
    );
}

#[test]
fn keys_compare_by_their_bytes() {
    let mut bytes = [5u8; 32];
    let a = Pubkey { bytes };
    bytes[31] = 6;
    let b = Pubkey { bytes };
    assert!(a == a);
    assert!(a != b);
    assert_eq!(a.to_seed(), vec![5u8; 32]);
}

#[test]
fn the_manager_reads_its_keys_from_the_settings() {
    let manager = VaultManager::new(config(TOKEN, SYSTEM)).unwrap();
    assert_eq!(manager.program_id, Pubkey::from_str(TOKEN).unwrap());
    assert_eq!(manager.usdt_mint, Pubkey { bytes: [0; 32] });
    assert_eq!(manager.config, config(TOKEN, SYSTEM));
}

#[test]
fn settings_that_name_no_key_are_refused() {
    assert_eq!(
        VaultManager::new(config("VAULTmngr11111111111111111111111111111111", SYSTEM)),
        Err(VaultServiceError::ConfigError(
            "Invalid program ID: String is the wrong size".to_string()
        ))
    );
    assert_eq!(
        VaultManager::new(config("0OIl", SYSTEM)),
        Err(VaultServiceError::ConfigError(
            "Invalid program ID: Invalid Base58 string".to_string()
        ))
    );
    assert_eq!(
        VaultManager::new(config("abc", "also not a key")),
        Err(VaultServiceError::ConfigError(
            "Invalid program ID: String is the wrong size".to_string()
        ))
    );
    assert_eq!(
        VaultManager::new(config(TOKEN, "0OIl")),
        Err(VaultServiceError::ConfigError("Invalid USDT mint: Invalid Base58 string".to_string()))
    );
}

#[test]
fn vault_addresses_are_those_of_the_settlement_network() {
    let manager = VaultManager::new(config(TOKEN, SYSTEM)).unwrap();
    let program = solana_sdk::pubkey::Pubkey::new_from_array(manager.program_id.bytes);
    for n in [0u8, 1, 77, 255] {
        let user = Pubkey { bytes: [n; 32] };
        let (address, bump) = manager.derive_vault_pda(&user).unwrap();
        let (expected, expected_bump) =
            solana_sdk::pubkey::Pubkey::find_program_address(&[b"vault", &[n; 32]], &program);
        assert_eq!(address.bytes, expected.to_bytes());
        assert_eq!(bump, expected_bump);
        assert_ne!(address, user);
    }
    let (authority, bump) = manager.derive_authority_pda().unwrap();
    let (expected, expected_bump) =
        solana_sdk::pubkey::Pubkey::find_program_address(&[b"authority"], &program);
    assert_eq!(authority.bytes, expected.to_bytes());
    assert_eq!(bump, expected_bump);
}
