use engine_evm::account_id::{AccountId, ParseAccountError, MAX_ACCOUNT_ID_LEN, MIN_ACCOUNT_ID_LEN};

#[test]
fn accepts_the_identifiers_of_the_host_ledger() {
    let accepted = [
        "aa",
        "a-a",
        "a-aa",
        "100",
        "0o",
        "com",
        "near",
        "bowen",
        "b-o_w_e-n",
        "b.owen",
        "bro.wen",
        "a.ha",
        "a.b-a.ra",
        "system",
        "over.9000",
        "google.com",
        "illia.cheapaccounts.near",
        "0o0ooo00oo00o",
        "alex-skidanov",
        "10-4.8-2",
        "no_lols",
        "0123456789012345678901234567890123456789012345678901234567890123",
        "eth_recipient.root",
    ];
    for id in accepted {
        let account = AccountId::new(id).unwrap();
        assert_eq!(account.as_str(), id);
        assert!(!account.is_default());
    }
}

#[test]
fn refuses_short_identifiers() {
    assert_eq!(AccountId::new(""), Err(ParseAccountError::TooShort));
    assert_eq!(AccountId::new("a"), Err(ParseAccountError::TooShort));
    assert_eq!(AccountId::new("."), Err(ParseAccountError::TooShort));
    assert_eq!(MIN_ACCOUNT_ID_LEN, 2);
}

#[test]
fn refuses_long_identifiers() {
    let longest = "a".repeat(64);
    let too_long = "a".repeat(65);
    assert!(AccountId::new(&longest).is_ok());
    assert_eq!(AccountId::new(&too_long), Err(ParseAccountError::TooLong));
    assert_eq!(MAX_ACCOUNT_ID_LEN, 64);
}

#[test]
fn refuses_bytes_that_may_not_occur() {
    for id in ["A.b", "Abc", "a b", "a+b", "ab@near", "a\u{e9}", "\u{e9}", "aa\n"] {
        assert_eq!(AccountId::new(id), Err(ParseAccountError::Invalid), "{}", id);
    }
}

#[test]
fn refuses_misplaced_separators() {
    for id in [
        "-near", "near-", ".near", "near.", "_near", "near_", "a..near", "a--b", "a_-b", "a._b",
        "..", "--",
    ] {
        assert_eq!(AccountId::new(id), Err(ParseAccountError::Invalid), "{}", id);
    }
}

#[test]
fn length_is_counted_in_bytes() {
    // One character of two bytes is long enough to be scanned, and the scan
    // refuses it.
    assert_eq!(AccountId::new("\u{e9}"), Err(ParseAccountError::Invalid));
    // Thirty-three characters of two bytes each are sixty-six bytes.
    let wide = "\u{e9}".repeat(33);
    assert_eq!(AccountId::new(&wide), Err(ParseAccountError::TooLong));
}

#[test]
fn the_default_identifier_is_empty() {
    let account = AccountId::default();
    assert!(account.is_default());
    assert_eq!(account.as_str(), "");
}

#[test]
fn identifiers_compare_by_their_text() {
    let a = AccountId::new("alice.near").unwrap();
    let b = AccountId::new("alice.near").unwrap();
    let c = AccountId::new("bob.near").unwrap();
    assert_eq!(a, b);
    assert_ne!(a, c);
    assert_eq!(a.clone(), a);
}

#[test]
fn agrees_with_the_host_on_every_kind_of_identifier() {
    let long = "b".repeat(65);
    let candidates = [
        "", "a", "aa", "a.b", "a..b", "-a", "a-", "A", "aB", "near", "0", "00", "x_y-z.w",
        "x__y", "\u{e9}\u{e9}", long.as_str(),
    ];
    for id in candidates {
        let host = aurora_engine_types::account_id::AccountId::validate(id);
        let ours = AccountId::new(id);
        assert_eq!(host.is_ok(), ours.is_ok(), "{}", id);
        if let (Err(host), Err(ours)) = (host, ours) {
            let same = match host {
                aurora_engine_types::account_id::ParseAccountError::TooLong => {
                    ours == ParseAccountError::TooLong
                }
                aurora_engine_types::account_id::ParseAccountError::TooShort => {
                    ours == ParseAccountError::TooShort
                }
                aurora_engine_types::account_id::ParseAccountError::Invalid => {
                    ours == ParseAccountError::Invalid
                }
            };
            assert!(same, "{}", id);
        }
    }
    let host_default = aurora_engine_types::account_id::AccountId::default();
    let text: &str = host_default.as_ref();
    assert_eq!(AccountId::default().as_str(), text);
}
