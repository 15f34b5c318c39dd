use wallet_adapter::base::events::StandardFeatures;
use wallet_adapter::base::events::WindowEvent;
use wallet_adapter::base::version::SemverVersion;
use wallet_adapter::base::version::Version;
use wallet_adapter::base::version::WALLET_STANDARD_VERSION;
use wallet_adapter::codec::nonce_from_entropy;
use wallet_adapter::codec::to_hex;
use wallet_adapter::common::errors::WalletUtilsError;
use wallet_adapter::common::events::SolanaStandardEvents;
use wallet_adapter::common::utils::WalletCommonUtils;
use wallet_adapter::common::version::SolanaWalletAdapterVersion;
use wallet_adapter::text::begins_with;
use wallet_adapter::text::chars_of;
use wallet_adapter::text::contains_text;
use wallet_adapter::text::find_char;
use wallet_adapter::text::split_on;
use wallet_adapter::text::split_once_at;
use wallet_adapter::text::string_of;
use wallet_adapter::text::text_equal;
use wallet_adapter::text::trimmed;
use wallet_adapter::time::TimeSpan;
use wallet_adapter::time::Timestamp;

fn chars(s: &str) -> Vec<char> {
    s.chars().collect()
}

#[test]
fn chars_and_strings_convert_both_ways() {
    assert_eq!(chars_of("aé✓"), vec!['a', 'é', '✓']);
    assert_eq!(string_of(&['a', 'é', '✓']), "aé✓");
    assert_eq!(chars_of(""), Vec::<char>::new());
}

#[test]
fn trimming_follows_unicode_whitespace() {
    for text in [
        "  a b \t",
        "\u{a0}x\u{3000}",
        "\n\r x",
        "",
        "   ",
        "x",
        "\u{2003}a\u{200a}",
        "\u{200b}a",
        "\u{85}\u{1680}a\u{2028}\u{2029}\u{202f}\u{205f}",
    ] {
        assert_eq!(string_of(&trimmed(&chars(text))), text.trim(), "{:?}", text);
    }
}

#[test]
fn splitting_matches_std() {
    for text in ["", "a", "a\nb", "a\n", "\n", "\n\na\n\nb", "a-b-c"] {
        for sep in ['\n', '-'] {
            let pieces: Vec<String> =
                split_on(&chars(text), sep).iter().map(|p| string_of(p)).collect();
            let expected: Vec<String> = text.split(sep).map(|p| p.to_string()).collect();
            assert_eq!(pieces, expected);
        }
    }
    assert_eq!(find_char(&chars("abc:def:"), ':'), Some(3));
    assert_eq!(find_char(&chars("abc"), ':'), None);
    let (left, right) = split_once_at(&chars("a: b: c"), ':').unwrap();
    assert_eq!(string_of(&left), "a");
    assert_eq!(string_of(&right), " b: c");
    assert!(split_once_at(&chars("abc"), ':').is_none());
}

#[test]
fn searching_matches_std() {
    for (text, pattern) in [
        ("Issued At: x", "Issued At"),
        ("Issued", "Issued At"),
        ("", ""),
        ("abc", ""),
        ("", "a"),
        ("aab", "ab"),
        ("xURIx", "URI"),
        ("URL", "URI"),
    ] {
        assert_eq!(contains_text(&chars(text), &chars(pattern)), text.contains(pattern));
        assert_eq!(begins_with(&chars(text), &chars(pattern)), text.starts_with(pattern));
    }
    assert!(text_equal("abc", "abc"));
    assert!(!text_equal("abc", "abd"));
    assert!(!text_equal("abc", "ab"));
    assert!(text_equal("", ""));
}

#[test]
fn hexadecimal_text() {
    assert_eq!(to_hex(&[]), "");
    assert_eq!(to_hex(&[0x00, 0x0f, 0xa0, 0xff, 0x12]), "000fa0ff12");
}

#[test]
fn nonce_is_the_sha3_digest_in_hex() {
    assert_eq!(
        nonce_from_entropy(&[0u8; 32]),
        "9e6291970cb44dd94008c79bcaf9d86f18b4b49ba5b2a04781db7199ed3b9e4e"
    );
    assert_ne!(nonce_from_entropy(&[1u8; 32]), nonce_from_entropy(&[0u8; 32]));
}

#[test]
fn timestamps_have_the_range_of_rfc3339() {
    assert!(Timestamp::new(0, 0).is_some());
    assert!(Timestamp::new(253_402_300_799, 999_999_999).is_some());
    assert!(Timestamp::new(253_402_300_800, 0).is_none());
    assert!(Timestamp::new(0, 1_000_000_000).is_none());
    assert_eq!(Timestamp::new(0, 0).unwrap(), Timestamp::unix_epoch());
    let t = Timestamp::new(12, 34).unwrap();
    assert_eq!(t.secs(), 12);
    assert_eq!(t.subsec_nanos(), 34);
    assert_eq!(Timestamp::from_unix_millis(1500), Timestamp::new(1, 500_000_000));
    assert!(Timestamp::from_unix_millis(u64::MAX).is_none());
    let last = Timestamp::new(253_402_300_799, 999_999_999).unwrap();
    assert!(last.checked_add(TimeSpan::from_millis(1)).is_none());
    assert_eq!(last.checked_add(TimeSpan::from_secs(0)), Some(last));
    assert!(Timestamp::unix_epoch().checked_sub(TimeSpan::from_millis(1)).is_none());
    assert_eq!(t.checked_add(TimeSpan::from_millis(2500)), Timestamp::new(14, 500_000_034));
    assert!(last.is_after(&t));
    assert!(!t.is_after(&t));
}

#[test]
fn rfc3339_text_of_timestamps() {
    assert_eq!(Timestamp::unix_epoch().to_rfc3339_millis(), "1970-01-01T00:00:00.000Z");
    assert_eq!(
        Timestamp::new(1_518_568_087, 133_999_999).unwrap().to_rfc3339_millis(),
        "2018-02-14T00:28:07.133Z"
    );
    assert_eq!(
        Timestamp::new(253_402_300_799, 999_999_999).unwrap().to_rfc3339_millis(),
        "9999-12-31T23:59:59.999Z"
    );
    assert_eq!(Timestamp::parse_rfc3339("2018-02-14T00:28:07Z"), Timestamp::new(1_518_568_087, 0));
    assert_eq!(
        Timestamp::parse_rfc3339("2018-02-14T00:28:07.133+00:00"),
        Timestamp::new(1_518_568_087, 133_000_000)
    );
    assert_eq!(
        Timestamp::parse_rfc3339("9999-12-31T23:59:59.999999999Z"),
        Timestamp::new(253_402_300_799, 999_999_999)
    );
    assert_eq!(Timestamp::parse_rfc3339("2018-02-14 00:28:07Z"), None);
    assert_eq!(Timestamp::parse_rfc3339(" 2018-02-14T00:28:07Z"), None);
    assert_eq!(Timestamp::parse_rfc3339("1969-12-31T23:59:59Z"), None);
    assert_eq!(Timestamp::parse_rfc3339(""), None);
}

#[test]
fn semver_versions() {
    let version = SemverVersion::new();
    assert_eq!((version.major(), version.minor(), version.patch()), (1, 0, 0));
    assert_eq!(version, SemverVersion::default());
    let version = version.set_major(12).set_minor(0).set_patch(255);
    assert_eq!((version.major(), version.minor(), version.patch()), (12, 0, 255));
    assert_eq!(version.stringify_version(), "12.0.255");
    assert_eq!(SemverVersion::new().stringify_version(), WALLET_STANDARD_VERSION);
    assert_eq!(version.version(), SemverVersion::new());
    assert_eq!(SolanaWalletAdapterVersion.version(), SemverVersion::new());
    assert_eq!(SolanaWalletAdapterVersion.to_text(), "1.0.0");
    assert_eq!(SemverVersion::new().set_patch(7).stringify_version(), "1.0.7");
}

#[test]
fn event_and_feature_identifiers() {
    assert_eq!(WindowEvent::AppReady.event_identifier(), "wallet-standard:app-ready");
    assert_eq!(WindowEvent::Register.event_identifier(), "wallet-standard:register-wallet");
    let events = SolanaStandardEvents::default();
    assert_eq!(events, SolanaStandardEvents::Disconnect);
    assert_eq!(events.connect(), "standard:connect");
    assert_eq!(events.disconnect(), "standard:disconnect");
    assert_eq!(events.events(), "standard:events");
    assert_eq!(events.on(), "standard:on");
    assert_eq!(events.namespace(), "standard:events");
    assert_eq!(events.sign_in(), "solana:signIn");
    assert_eq!(events.sign_message(), "solana:signMessage");
    assert_eq!(events.sign_transaction(), "solana:signTransaction");
    assert_eq!(events.sign_and_send_transaction(), "solana:signAndSendTransaction");
    assert!(events.supports_sign_in());
}

#[test]
fn shortened_addresses() {
    let address = "FXdlRGd4abcdefghijklmnopqrstuvwxyz1234RGd4";
    assert_eq!(WalletCommonUtils::shorten_base58(address).unwrap(), "FXdl...RGd4");
    assert_eq!(WalletCommonUtils::custom_shorten_base58(address, 2).unwrap(), "FX...d4");
    assert_eq!(WalletCommonUtils::custom_shorten_address_rl(address, 1, 3).unwrap(), "F...Gd4");
    assert_eq!(WalletCommonUtils::shorten_base58("12345678").unwrap(), "1234...5678");
    assert_eq!(
        WalletCommonUtils::shorten_base58("1234567"),
        Err(WalletUtilsError::InvalidBase58Address)
    );
    assert_eq!(
        WalletCommonUtils::custom_shorten_address_rl("abc", usize::MAX, 2),
        Err(WalletUtilsError::InvalidBase58Address)
    );
    assert_eq!(WalletCommonUtils::custom_shorten_address_rl("abc", 0, 0).unwrap(), "...");
}

#[test]
fn byte_arrays_of_fixed_length() {
    let bytes: Vec<u8> = (0..64).collect();
    assert_eq!(WalletCommonUtils::to64byte_array(&bytes).unwrap().to_vec(), bytes);
    assert_eq!(WalletCommonUtils::to32byte_array(&bytes[..32]).unwrap().to_vec(), bytes[..32]);
    assert_eq!(
        WalletCommonUtils::to64byte_array(&bytes[..63]),
        Err(WalletUtilsError::Expected64ByteLength)
    );
    assert_eq!(
        WalletCommonUtils::to32byte_array(&bytes[..33]),
        Err(WalletUtilsError::Expected32ByteLength)
    );
    assert_eq!(WalletCommonUtils::to_iso860(Timestamp::unix_epoch()), "1970-01-01T00:00:00.000Z");
}
