use wallet_adapter::base::errors::WalletBaseError;
use wallet_adapter::base::sign_in::check_decoded_address;
use wallet_adapter::base::sign_in::instant_of_text;
use wallet_adapter::base::sign_in::SignInInput;
use wallet_adapter::common::clusters::SolanaNetworkCluster;
use wallet_adapter::time::TimeSpan;
use wallet_adapter::time::Timestamp;

fn time_now() -> Timestamp {
    Timestamp::new(1_750_000_000, 250_000_000).unwrap()
}

fn text_of(time: Timestamp) -> String {
    time.to_rfc3339_millis()
}

#[test]
fn sign_in_set_issued_at() {
    let mut signin_input = SignInInput::default();

    assert!(signin_input.issued_at().is_none());

    signin_input.set_issued_at(time_now());

    assert!(signin_input.issued_at_system_time().unwrap() > Timestamp::unix_epoch())
}

#[test]
fn sign_in_set_expiration_time() {
    let mut signin_input = SignInInput::default();

    let now = time_now();

    let past_time = now.checked_sub(TimeSpan::from_secs(300)).unwrap();
    assert_eq!(
        Some(WalletBaseError::ExpirationTimeIsInThePast {
            now: text_of(now),
            expiry: text_of(past_time)
        }),
        signin_input.set_expiration_time(now, past_time).err()
    );

    signin_input.set_issued_at(now);
    assert_eq!(
        Some(WalletBaseError::ExpiryTimeEarlierThanIssuedTime {
            issued: "2025-06-15T15:06:40.250Z".to_string(),
            expiry: text_of(past_time)
        }),
        signin_input.set_expiration_time(now, past_time).err()
    );

    let valid_expiry = now.checked_add(TimeSpan::from_secs(300)).unwrap();
    assert!(signin_input.set_expiration_time(now, valid_expiry).is_ok());

    assert!(signin_input.issued_at_system_time().unwrap() > Timestamp::unix_epoch());

    assert!(signin_input.set_expiration_time_millis(now, 4000).is_ok());
    assert!(signin_input.set_expiration_time_seconds(now, 4).is_ok());
}

#[test]
fn sign_in_set_not_before_time() {
    let mut signin_input = SignInInput::default();

    let now = time_now();

    let past_time = now.checked_sub(TimeSpan::from_secs(300)).unwrap();
    assert_eq!(
        Some(WalletBaseError::NotBeforeTimeIsInThePast {
            now: text_of(now),
            not_before: text_of(past_time)
        }),
        signin_input.set_not_before_time(now, past_time).err()
    );

    signin_input.set_issued_at(now);
    let future_time = now.checked_sub(TimeSpan::from_secs(3000000)).unwrap();
    assert_eq!(
        Some(WalletBaseError::NotBeforeTimeEarlierThanIssuedTime {
            issued_at: text_of(now),
            not_before: text_of(future_time)
        }),
        signin_input.set_not_before_time(now, future_time).err()
    );

    signin_input.set_issued_at(now);
    let future_time = time_now()
        .checked_add(TimeSpan::from_secs(30000))
        .unwrap();
    signin_input.set_expiration_time(now, future_time).unwrap();
    let not_before = now.checked_add(TimeSpan::from_secs(3000000)).unwrap();
    assert_eq!(
        Some(WalletBaseError::NotBeforeTimeLaterThanExpirationTime {
            not_before: text_of(not_before),
            expiry: text_of(future_time)
        }),
        signin_input.set_not_before_time(now, not_before).err()
    );

    let valid_expiry = now.checked_add(TimeSpan::from_secs(300)).unwrap();
    assert!(signin_input.set_not_before_time(now, valid_expiry).is_ok());

    assert!(signin_input.issued_at_system_time().unwrap() > Timestamp::unix_epoch());

    assert!(signin_input.set_not_before_time_millis(now, 4000).is_ok());
    assert!(signin_input.set_not_before_time_seconds(now, 4).is_ok());
}

#[test]
fn sign_in_new_is_empty() {
    let input = SignInInput::new();
    assert!(input.domain().is_none());
    assert!(input.address().is_none());
    assert!(input.statement().is_none());
    assert!(input.uri().is_none());
    assert!(input.version().is_none());
    assert!(input.chain_id().is_none());
    assert!(input.nonce().is_none());
    assert!(input.issued_at().is_none());
    assert!(input.expiration_time().is_none());
    assert!(input.not_before().is_none());
    assert!(input.issued_at_system_time().is_none());
    assert!(input.expiration_time_system_time().is_none());
    assert!(input.not_before_system_time().is_none());
    assert!(input.request_id().is_none());
    assert!(input.resources().is_empty());
    assert_eq!(input, SignInInput::default());
}

#[test]
fn sign_in_plain_setters() {
    let mut input = SignInInput::new();
    input
        .set_domain("example.com")
        .set_statement("Sign in to Example")
        .set_uri("https://example.com/login")
        .set_version("1")
        .set_chain_id(SolanaNetworkCluster::TestNet)
        .set_request_id("req-1")
        .add_resource("https://example.com/a")
        .add_resources(&["https://example.com/b"]);
    assert_eq!(input.domain(), Some("example.com"));
    assert_eq!(input.statement(), Some("Sign in to Example"));
    assert_eq!(input.uri(), Some("https://example.com/login"));
    assert_eq!(input.version(), Some("1"));
    assert_eq!(input.chain_id(), Some("solana:testnet"));
    assert_eq!(input.request_id(), Some("req-1"));
    assert_eq!(
        input.resources(),
        &["https://example.com/a".to_string(), "https://example.com/b".to_string()]
    );
}

#[test]
fn sign_in_set_address() {
    let mut input = SignInInput::new();
    let address = "11111111111111111111111111111111";
    assert!(input.set_address(address).is_ok());
    assert_eq!(input.address(), Some(address));

    let mut input = SignInInput::new();
    assert_eq!(
        input.set_address("0OIl").err(),
        Some(WalletBaseError::InvalidBase58Address("0OIl".to_string()))
    );
    assert_eq!(
        input.set_address("111").err(),
        Some(WalletBaseError::InvalidEd25519PublicKeyLen(3))
    );
    assert_eq!(
        input.set_address("").err(),
        Some(WalletBaseError::InvalidEd25519PublicKeyLen(0))
    );
    assert!(input.address().is_none());
}

#[test]
fn sign_in_nonce() {
    let mut input = SignInInput::new();
    input.set_nonce();
    let nonce = input.nonce().unwrap().to_string();
    assert_eq!(nonce.len(), 64);
    assert!(nonce.chars().all(|c| "0123456789abcdef".contains(c)));
    assert!(SignInInput::new().set_custom_nonce(&nonce).is_ok());

    assert_eq!(
        input.set_custom_nonce("abc").err(),
        Some(WalletBaseError::NonceMustBeAtLeast8Characters(3))
    );
    assert_eq!(input.nonce(), Some(nonce.as_str()));
    assert!(input.set_custom_nonce("abcdefgh").is_ok());
    assert_eq!(input.nonce(), Some("abcdefgh"));
}

#[test]
fn sign_in_times_are_kept_as_text() {
    let mut input = SignInInput::new();
    let issued = Timestamp::new(1_518_568_087, 133_000_000).unwrap();
    input.set_issued_at(issued);
    assert_eq!(input.issued_at(), Some("2018-02-14T00:28:07.133Z"));
    assert_eq!(input.issued_at_system_time(), Some(issued));
    input.set_expiration_time_seconds(issued, 60).unwrap();
    assert_eq!(input.expiration_time(), Some("2018-02-14T00:29:07.133Z"));
    input.set_not_before_time_millis(issued, 500).unwrap();
    assert_eq!(input.not_before(), Some("2018-02-14T00:28:07.633Z"));
    assert_eq!(
        input.not_before_system_time(),
        Some(Timestamp::new(1_518_568_087, 633_000_000).unwrap())
    );
    assert_eq!(
        input.set_expiration_time_seconds(issued, u64::MAX).err(),
        Some(WalletBaseError::SystemTimeCheckedAddOverflow)
    );
}

#[test]
fn sign_in_parser_reads_a_message() {
    let text = "example.com wants you to sign in with your Solana account:\n\
11111111111111111111111111111111\n\
\n\
Sign in to Example\n\
\n\
URI: https://example.com/login\n\
Version: 1\n\
Chain ID: solana:mainnet\n\
Nonce: abcdefgh12345678\n\
Issued At: 2018-02-14T00:28:07.133Z\n\
Expiration Time: 2018-02-14T00:29:07.000Z\n\
Not Before: 2018-02-14T00:28:08.000Z\n\
Request ID: req-1\n\
Resources:\n\
- https://example.com/a\n\
- https://example.com/b";
    let input = SignInInput::parser(text).unwrap();
    assert_eq!(input.domain(), Some("example.com"));
    assert_eq!(input.address(), Some("11111111111111111111111111111111"));
    assert_eq!(input.statement(), Some("Sign in to Example"));
    assert_eq!(input.uri(), Some("https://example.com/login"));
    assert_eq!(input.version(), Some("1"));
    assert_eq!(input.chain_id(), Some("solana:mainnet"));
    assert_eq!(input.nonce(), Some("abcdefgh12345678"));
    // the time fields keep what follows the colon as it is written
    assert_eq!(input.issued_at(), Some(" 2018-02-14T00:28:07.133Z"));
    assert_eq!(input.expiration_time(), Some(" 2018-02-14T00:29:07.000Z"));
    assert_eq!(input.not_before(), Some(" 2018-02-14T00:28:08.000Z"));
    assert_eq!(input.request_id(), Some("req-1"));
    assert_eq!(
        input.resources(),
        &["https://example.com/a".to_string(), "https://example.com/b".to_string()]
    );
}

#[test]
fn sign_in_parser_refuses_a_bad_timestamp() {
    let text = "example.com wants you to sign in with your Solana account:\n\
addr\n\n\n\nIssued At: yesterday";
    assert_eq!(
        SignInInput::parser(text).err(),
        Some(WalletBaseError::InvalidISO8601Timestamp(" yesterday".to_string()))
    );
}

#[test]
fn sign_in_check_eq() {
    let mut a = SignInInput::new();
    a.set_domain("example.com").set_statement("hello");
    let mut b = SignInInput::new();
    b.set_domain("example.com").set_statement("hello");
    assert_eq!(a.check_eq(&b), Ok(()));
    b.set_statement("hello!");
    assert_eq!(a.check_eq(&b), Err(WalletBaseError::MessageResponseMismatch));
    b.set_statement("hello").add_resource("x");
    assert_eq!(a.check_eq(&b), Err(WalletBaseError::MessageResponseMismatch));
}

#[test]
fn sign_in_times_read_from_a_message_do_not_serve_the_setters() {
    // the parser keeps the text after the colon with its space, and that
    // text is no timestamp when the setters read it again
    let text = "example.com wants you to sign in with your Solana account:\n\
addr\n\nhello\n\nIssued At: 2018-02-14T00:28:07.133Z\nExpiration Time: 2018-02-14T00:29:07Z";
    let now = time_now();
    let mut input = SignInInput::parser(text).unwrap();
    assert_eq!(input.issued_at_system_time(), None);
    assert_eq!(
        input.set_expiration_time(now, now).err(),
        Some(WalletBaseError::InvalidISO8601Timestamp(" 2018-02-14T00:28:07.133Z".to_string()))
    );
    assert_eq!(
        input.set_not_before_time(now, now).err(),
        Some(WalletBaseError::InvalidISO8601Timestamp(" 2018-02-14T00:28:07.133Z".to_string()))
    );
    assert_eq!(
        input.set_expiration_time_millis(now, 1).err(),
        Some(WalletBaseError::InvalidISO8601Timestamp(" 2018-02-14T00:28:07.133Z".to_string()))
    );
    input.set_issued_at(Timestamp::unix_epoch());
    assert_eq!(
        input.set_not_before_time(now, now).err(),
        Some(WalletBaseError::InvalidISO8601Timestamp(" 2018-02-14T00:29:07Z".to_string()))
    );
    assert_eq!(input.expiration_time(), Some(" 2018-02-14T00:29:07Z"));
}

#[test]
fn sign_in_address_by_decoded_length() {
    assert_eq!(check_decoded_address("abc", Some(32)), Ok(()));
    assert_eq!(
        check_decoded_address("abc", Some(31)),
        Err(WalletBaseError::InvalidEd25519PublicKeyLen(31))
    );
    assert_eq!(
        check_decoded_address("abc", Some(0)),
        Err(WalletBaseError::InvalidEd25519PublicKeyLen(0))
    );
    assert_eq!(
        check_decoded_address("abc", None),
        Err(WalletBaseError::InvalidBase58Address("abc".to_string()))
    );
    let text = "then".to_string();
    assert_eq!(instant_of_text(&text, Some(time_now())), Ok(time_now()));
    assert_eq!(
        instant_of_text(&text, None),
        Err(WalletBaseError::InvalidISO8601Timestamp("then".to_string()))
    );
}
