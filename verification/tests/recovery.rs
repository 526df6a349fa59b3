//! Tests of wallet-file seed recovery and startup decisions.

use zecwallet_cli::Command;
use zecwallet_cli::FrontEnd;
use zecwallet_cli::RecoverError;
use zecwallet_cli::ServerAddress;
use zecwallet_cli::WalletOpenPlan;
use zecwallet_cli::birthday_from_arg;
use zecwallet_cli::choose_front_end;
use zecwallet_cli::le_u64;
use zecwallet_cli::recover_seed;
use zecwallet_cli::seed_needs_birthday;
use zecwallet_cli::wallet_open_plan;

#[test]
fn le_u64_reads_little_endian() {
    let data = vec![0x78, 0x56, 0x34, 0x12, 0, 0, 0, 0];
    assert_eq!(le_u64(&data, 0), 0x12345678);
    let data = vec![0xff; 8];
    assert_eq!(le_u64(&data, 0), u64::MAX);
    let data = vec![9, 1, 0, 0, 0, 0, 0, 0, 0];
    assert_eq!(le_u64(&data, 1), 1);
}

#[test]
fn recovery_reads_version_and_phrase() {
    // eight-byte little-endian version 7, then a 32-byte all-zero seed
    let mut data = vec![7, 0, 0, 0, 0, 0, 0, 0];
    data.extend(std::iter::repeat(0u8).take(32));
    let rec = recover_seed(&data).unwrap();
    assert_eq!(rec.version, 7);
    // the standard mnemonic of 32 zero bytes
    let expected = format!("{}art", "abandon ".repeat(23));
    assert_eq!(rec.phrase, expected);
}

#[test]
fn recovery_ignores_trailing_bytes() {
    let mut data = vec![25, 0, 0, 0, 0, 0, 0, 0];
    data.extend(std::iter::repeat(0u8).take(32));
    data.extend([1, 2, 3]);
    let rec = recover_seed(&data).unwrap();
    assert_eq!(rec.version, 25);
}

#[test]
fn a_short_file_is_rejected() {
    let data = vec![0u8; 39];
    assert_eq!(recover_seed(&data).unwrap_err(), RecoverError::TooShort);
    assert_eq!(recover_seed(&Vec::new()).unwrap_err(), RecoverError::TooShort);
}

#[test]
fn a_given_command_runs_one_shot() {
    match choose_front_end(Some("balance".to_owned()), vec!["z".to_owned()]) {
        FrontEnd::OneShot(Command { name, args }) => {
            assert_eq!(name, "balance");
            assert_eq!(args, vec!["z".to_owned()]);
        }
        _ => panic!("expected one-shot mode"),
    }
    assert!(matches!(
        choose_front_end(None, Vec::new()),
        FrontEnd::Interactive
    ));
}

#[test]
fn wallet_open_prefers_phrase_then_disk() {
    assert!(matches!(
        wallet_open_plan(&Some("phrase".to_owned()), true),
        WalletOpenPlan::FromPhrase
    ));
    assert!(matches!(
        wallet_open_plan(&None, true),
        WalletOpenPlan::ReadDisk
    ));
    assert!(matches!(
        wallet_open_plan(&None, false),
        WalletOpenPlan::CreateNew
    ));
}

#[test]
fn a_seed_without_birthday_is_refused() {
    assert!(seed_needs_birthday(&Some("phrase".to_owned()), &None));
    assert!(!seed_needs_birthday(
        &Some("phrase".to_owned()),
        &Some("600000".to_owned())
    ));
    assert!(!seed_needs_birthday(&None, &None));
}

#[test]
fn the_birthday_defaults_to_zero() {
    assert_eq!(birthday_from_arg(&None), Some(0));
    assert_eq!(birthday_from_arg(&Some("600000".to_owned())), Some(600000));
    assert_eq!(birthday_from_arg(&Some("sixty".to_owned())), None);
}

#[test]
fn a_server_address_needs_scheme_host_and_port() {
    let full = ServerAddress {
        scheme: Some("https".to_owned()),
        host: Some("lightwalletd.example".to_owned()),
        port: Some(9067),
    };
    assert!(full.is_complete());
    let no_port = ServerAddress {
        scheme: Some("https".to_owned()),
        host: Some("lightwalletd.example".to_owned()),
        port: None,
    };
    assert!(!no_port.is_complete());
}
