use vault_admin::{key_hash, strkey_to_hash, DecodedKey, DispatchError};

const ACCOUNT_A: &str = "GA3D5KRYM6CB7OWQ6TWYRR3Z4T7GNZLKERYNZGGA5SOAOPIFY6YQHES5";
const ACCOUNT_B: &str = "GA7QYNF7SOWQ3GLR2BGMZEHXAVIRZA4KVWLTJJFC7MGXUA74P7UJVSGZ";
const CONTRACT_A: &str = "CA3D5KRYM6CB7OWQ6TWYRR3Z4T7GNZLKERYNZGGA5SOAOPIFY6YQGAXE";
const CONTRACT_B: &str = "CA7QYNF7SOWQ3GLR2BGMZEHXAVIRZA4KVWLTJJFC7MGXUA74P7UJUWDA";
const PRE_AUTH_TX: &str = "TBU2RRGLXH3E5CQHTD3ODLDF2BWDCYUSSBLLZ5GNW7JXHDIYKXZWHXL7";
const MUXED_ACCOUNT: &str =
    "MA3D5KRYM6CB7OWQ6TWYRR3Z4T7GNZLKERYNZGGA5SOAOPIFY6YQGAAAAAAAAAPCICBKU";

const BYTES_A: [u8; 32] = [
    0x36, 0x3e, 0xaa, 0x38, 0x67, 0x84, 0x1f, 0xba, 0xd0, 0xf4, 0xed, 0x88, 0xc7, 0x79, 0xe4, 0xfe,
    0x66, 0xe5, 0x6a, 0x24, 0x70, 0xdc, 0x98, 0xc0, 0xec, 0x9c, 0x07, 0x3d, 0x05, 0xc7, 0xb1, 0x03,
];
const BYTES_B: [u8; 32] = [
    0x3f, 0x0c, 0x34, 0xbf, 0x93, 0xad, 0x0d, 0x99, 0x71, 0xd0, 0x4c, 0xcc, 0x90, 0xf7, 0x05, 0x51,
    0x1c, 0x83, 0x8a, 0xad, 0x97, 0x34, 0xa4, 0xa2, 0xfb, 0x0d, 0x7a, 0x03, 0xfc, 0x7f, 0xe8, 0x9a,
];

#[test]
fn account_id_resolves_to_its_public_key() {
    assert_eq!(strkey_to_hash(ACCOUNT_A), Ok(BYTES_A));
    assert_eq!(strkey_to_hash(ACCOUNT_B), Ok(BYTES_B));
}

#[test]
fn contract_id_resolves_to_its_hash() {
    assert_eq!(strkey_to_hash(CONTRACT_A), Ok(BYTES_A));
    assert_eq!(strkey_to_hash(CONTRACT_B), Ok(BYTES_B));
}

#[test]
fn resolved_bytes_are_not_the_text() {
    let hash = strkey_to_hash(CONTRACT_B).unwrap();
    assert_ne!(&hash[..], &CONTRACT_B.as_bytes()[..32]);
    assert_eq!(hash[0], 0x3f);
    assert_eq!(hash[31], 0x9a);
}

#[test]
fn other_kinds_of_identifier_are_unsupported() {
    assert_eq!(
        strkey_to_hash(PRE_AUTH_TX),
        Err(DispatchError::UnsupportedIdentifierFormat)
    );
    assert_eq!(
        strkey_to_hash(MUXED_ACCOUNT),
        Err(DispatchError::UnsupportedIdentifierFormat)
    );
}

#[test]
fn malformed_text_is_unsupported() {
    for text in [
        "",
        "not an address",
        "GAAAAAAAACGC6",
        // one letter of a valid account changed: the checksum no longer fits
        "GA3D5KRYM6CB7OWQ6TWYRR3Z4T7GNZLKERYNZGGA5SOAOPIFY6YQHES6",
        // lower case is no base32 text
        "ga3d5krym6cb7owq6twyrr3z4t7gnzlkeryNZGGA5SOAOPIFY6YQHES5",
    ] {
        assert_eq!(
            strkey_to_hash(text),
            Err(DispatchError::UnsupportedIdentifierFormat),
            "{text}"
        );
    }
}

#[test]
fn secret_seed_is_unsupported() {
    assert_eq!(
        strkey_to_hash("SBU2RRGLXH3E5CQHTD3ODLDF2BWDCYUSSBLLZ5GNW7JXHDIYKXZWHOKR"),
        Err(DispatchError::UnsupportedIdentifierFormat)
    );
}

#[test]
fn key_hash_keeps_the_bytes_of_accounts_and_contracts() {
    assert_eq!(key_hash(DecodedKey::PublicKeyEd25519(BYTES_A)), Ok(BYTES_A));
    assert_eq!(key_hash(DecodedKey::Contract(BYTES_B)), Ok(BYTES_B));
}

#[test]
fn key_hash_refuses_everything_else() {
    assert_eq!(
        key_hash(DecodedKey::Other),
        Err(DispatchError::UnsupportedIdentifierFormat)
    );
    assert_eq!(
        key_hash(DecodedKey::Rejected),
        Err(DispatchError::UnsupportedIdentifierFormat)
    );
}
