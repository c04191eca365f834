use kinic_cli::identity::Principal;
use kinic_cli::keyring::{
    classify_keyring_failure, decode_stored_pem, keyring_account, str_contains, KeyringFailure,
    KEYRING_IDENTITY_PREFIX, KEYRING_SERVICE_NAME,
};

#[test]
fn account_is_prefix_and_name() {
    assert_eq!(KEYRING_SERVICE_NAME, "internet_computer_identities");
    assert_eq!(KEYRING_IDENTITY_PREFIX, "internet_computer_identity_");
    assert_eq!(keyring_account("default"), "internet_computer_identity_default");
    assert_eq!(keyring_account(""), "internet_computer_identity_");
    assert_eq!(keyring_account("\u{e9}"), "internet_computer_identity_\u{e9}");
}

#[test]
fn stored_pem_is_hexadecimal() {
    assert_eq!(decode_stored_pem(""), Some(vec![]));
    assert_eq!(decode_stored_pem("6b697769"), Some(b"kiwi".to_vec()));
    assert_eq!(decode_stored_pem("00ff7F80aAbB"), Some(vec![0, 255, 127, 128, 170, 187]));
    assert_eq!(decode_stored_pem("2d2d2d2d2d"), Some(vec![0x2d; 5]));
    assert_eq!(decode_stored_pem("abc"), None);
    assert_eq!(decode_stored_pem("0g"), None);
    assert_eq!(decode_stored_pem(" 00"), None);
    assert_eq!(decode_stored_pem("0x00"), None);
    assert_eq!(decode_stored_pem("\u{e9}"), None);
    assert_eq!(decode_stored_pem("\u{661}\u{662}"), None);
    assert_ne!(decode_stored_pem("3031"), Some(b"3031".to_vec()));
}

#[test]
fn substring_search_matches_the_standard_library() {
    for (text, needle) in [
        ("", ""),
        ("a", ""),
        ("", "a"),
        ("abc", "abc"),
        ("abc", "abcd"),
        ("aab", "ab"),
        ("aaab", "aab"),
        ("abab", "bab"),
        ("abc", "c"),
        ("abc", "d"),
        ("x\u{e9}y", "\u{e9}y"),
        ("x\u{e9}y", "ey"),
        ("PlatformFailure(-67671)", "-67671"),
        ("PlatformFailure(-6767)", "-67671"),
    ] {
        assert_eq!(str_contains(text, needle), text.contains(needle), "{:?} {:?}", text, needle);
    }
}

#[test]
fn keyring_failures_are_told_apart_by_their_text() {
    assert_eq!(
        classify_keyring_failure("PlatformFailure(Error { code: -67671 })"),
        KeyringFailure::InteractionNotAllowed
    );
    assert_eq!(
        classify_keyring_failure("NoStorageAccess(errSecInteractionNotAllowed)"),
        KeyringFailure::InteractionNotAllowed
    );
    assert_eq!(classify_keyring_failure("NoEntry"), KeyringFailure::Other);
    assert_eq!(classify_keyring_failure("code: 67671"), KeyringFailure::Other);
    assert_eq!(classify_keyring_failure("errsecinteractionnotallowed"), KeyringFailure::Other);
    assert_eq!(classify_keyring_failure(""), KeyringFailure::Other);
}

#[test]
fn canister_ids_are_read_from_text() {
    let launcher = Principal::from_text("xfug4-5qaaa-aaaak-afowa-cai").unwrap();
    let expected = candid::Principal::from_text("xfug4-5qaaa-aaaak-afowa-cai").unwrap();
    assert_eq!(launcher.as_slice(), expected.as_slice());
    assert_eq!(launcher.to_text(), "xfug4-5qaaa-aaaak-afowa-cai");
    assert_eq!(Principal::from_text("aaaaa-aa").unwrap().as_slice(), &[] as &[u8]);
    assert_eq!(Principal::from_text("2vxsx-fae").unwrap().as_slice(), &[4]);
    assert!(Principal::from_text("XFUG4-5QAAA-AAAAK-AFOWA-CAI").is_some());
    assert!(Principal::from_text("xfug45qaaaaaaakafowacai").is_none());
    assert!(Principal::from_text("xfug4-5qaaa-aaaak-afowa-caj").is_none());
    assert!(Principal::from_text("").is_none());
    assert!(Principal::from_text("not a principal").is_none());
}
