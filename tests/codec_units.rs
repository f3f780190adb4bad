use sol_transfer::codec::{parse_address, parse_keypair, CodecError};
use sol_transfer::units::{lamports_to_sol, sol_to_lamports, whole_sol_to_lamports, SolAmount, LAMPORTS_PER_SOL};
use solana_sdk::signature::Keypair;

fn as_f64(a: SolAmount) -> f64 {
    a.whole as f64 + a.lamports as f64 / LAMPORTS_PER_SOL as f64
}

#[test]
fn test_lamports_to_sol_conversion() {
    assert_eq!(as_f64(lamports_to_sol(1_000_000_000)), 1.0);
    assert_eq!(as_f64(lamports_to_sol(500_000_000)), 0.5);
    assert_eq!(as_f64(lamports_to_sol(0)), 0.0);
}

#[test]
fn test_pubkey_validation() {
    assert!(parse_address("9WzDXwBbmkg8ZTbNMqUxvQRAyrZzDsGYdLVL9zYtAWWM").is_ok());
    assert!(parse_address("invalid_pubkey").is_err());
}

#[test]
fn lamports_split_exact() {
    assert_eq!(lamports_to_sol(1_500_000_001), SolAmount { whole: 1, lamports: 500_000_001 });
    assert_eq!(lamports_to_sol(999_999_999), SolAmount { whole: 0, lamports: 999_999_999 });
}

#[test]
fn whole_units_round_trip() {
    for n in [0u64, 1, 2, 7, 18_446_744_073] {
        let l = whole_sol_to_lamports(n).unwrap();
        assert_eq!(l, n * 1_000_000_000);
        assert_eq!(lamports_to_sol(l), SolAmount { whole: n, lamports: 0 });
    }
}

#[test]
fn conversion_overflow_is_none() {
    assert_eq!(whole_sol_to_lamports(18_446_744_074), None);
    assert_eq!(sol_to_lamports(SolAmount { whole: 18_446_744_073, lamports: 709_551_615 }), Some(u64::MAX));
    assert_eq!(sol_to_lamports(SolAmount { whole: 18_446_744_073, lamports: 709_551_616 }), None);
    assert_eq!(sol_to_lamports(SolAmount { whole: 0, lamports: 500_000_000 }), Some(500_000_000));
}

#[test]
fn address_bytes_match_base58() {
    let text = "9WzDXwBbmkg8ZTbNMqUxvQRAyrZzDsGYdLVL9zYtAWWM";
    let a = parse_address(text).unwrap();
    assert_eq!(a.bytes.to_vec(), bs58::decode(text).into_vec().unwrap());
}

#[test]
fn address_wrong_length_rejected() {
    assert_eq!(parse_address("1111"), Err(CodecError::InvalidAddress));
    assert_eq!(parse_address(""), Err(CodecError::InvalidAddress));
    let long = "9WzDXwBbmkg8ZTbNMqUxvQRAyrZzDsGYdLVL9zYtAWWM9WzDX";
    assert_eq!(parse_address(long), Err(CodecError::InvalidAddress));
}

#[test]
fn keypair_invalid_encoding() {
    assert!(matches!(parse_keypair("0OIl"), Err(CodecError::Encoding)));
}

#[test]
fn keypair_wrong_length() {
    let r = parse_keypair("9WzDXwBbmkg8ZTbNMqUxvQRAyrZzDsGYdLVL9zYtAWWM");
    assert!(matches!(r, Err(CodecError::Length { expected: 64, actual: 32 })));
    let r = parse_keypair("");
    assert!(matches!(r, Err(CodecError::Length { expected: 64, actual: 0 })));
}

#[test]
fn keypair_inconsistent_bytes() {
    let text = bs58::encode([7u8; 64]).into_string();
    assert!(matches!(parse_keypair(&text), Err(CodecError::InvalidKey)));
}

#[test]
fn keypair_valid_round_trip() {
    let k = Keypair::new();
    let parsed = parse_keypair(&k.to_base58_string()).unwrap();
    assert_eq!(parsed.bytes, k.to_bytes().to_vec());
}
