use wallet_adapter::common::clusters::SolanaNetworkCluster;
use wallet_adapter::common::errors::WalletUtilsError;
use wallet_adapter::common::signin::check_decoded_address;
use wallet_adapter::common::signin::SigninInput;
use wallet_adapter::message::time_field;
use wallet_adapter::time::TimeSpan;
use wallet_adapter::time::Timestamp;

fn time_now() -> Timestamp {
    Timestamp::new(1_750_000_000, 250_000_000).unwrap()
}

#[test]
fn signin_set_issued_at() {
    let mut signin_input = SigninInput::default();

    assert!(signin_input.issued_at().is_none());

    signin_input.set_issued_at(time_now());

    assert!(*signin_input.issued_at().unwrap() > Timestamp::unix_epoch())
}

#[test]
fn signin_set_expiration_time() {
    let mut signin_input = SigninInput::default();

    let now = time_now();

    let past_time = now.checked_sub(TimeSpan::from_secs(300)).unwrap();
    assert_eq!(
        Some(WalletUtilsError::ExpirationTimeIsInThePast),
        signin_input.set_expiration_time(now, past_time).err()
    );

    signin_input.set_issued_at(now);
    assert_eq!(
        Some(WalletUtilsError::ExpiryTimeEarlierThanIssuedTime),
        signin_input.set_expiration_time(now, past_time).err()
    );

    let valid_expiry = now.checked_add(TimeSpan::from_secs(300)).unwrap();
    assert!(signin_input.set_expiration_time(now, valid_expiry).is_ok());

    assert!(*signin_input.issued_at().unwrap() > Timestamp::unix_epoch());

    assert!(signin_input.set_expiration_time_millis(now, 4000).is_ok());
    assert!(signin_input.set_expiration_time_seconds(now, 4).is_ok());
}

#[test]
fn signin_set_not_before_time() {
    let mut signin_input = SigninInput::default();

    let now = time_now();

    let past_time = now.checked_sub(TimeSpan::from_secs(300)).unwrap();
    assert_eq!(
        Some(WalletUtilsError::NotBeforeTimeIsInThePast),
        signin_input.set_not_before_time(now, past_time).err()
    );

    signin_input.set_issued_at(now);
    let future_time = now.checked_sub(TimeSpan::from_secs(3000000)).unwrap();
    assert_eq!(
        Some(WalletUtilsError::NotBeforeTimeEarlierThanIssuedTime),
        signin_input.set_not_before_time(now, future_time).err()
    );

    signin_input.set_issued_at(now);
    let future_time = time_now()
        .checked_add(TimeSpan::from_secs(30000))
        .unwrap();
    signin_input.set_expiration_time(now, future_time).unwrap();
    let future_time = now.checked_add(TimeSpan::from_secs(3000000)).unwrap();
    assert_eq!(
        Some(WalletUtilsError::NotBeforeTimeLaterThanExpirationTime),
        signin_input.set_not_before_time(now, future_time).err()
    );

    let valid_expiry = now.checked_add(TimeSpan::from_secs(300)).unwrap();
    assert!(signin_input.set_not_before_time(now, valid_expiry).is_ok());

    assert!(*signin_input.issued_at().unwrap() > Timestamp::unix_epoch());

    assert!(signin_input.set_not_before_time_millis(now, 4000).is_ok());
    assert!(signin_input.set_not_before_time_seconds(now, 4).is_ok());
}

#[test]
fn signin_new_is_empty() {
    let input = SigninInput::new();
    assert!(input.domain().is_none());
    assert!(input.address().is_none());
    assert!(input.statement().is_none());
    assert!(input.uri().is_none());
    assert!(input.version().is_none());
    assert!(input.chain_id().is_none());
    assert!(input.nonce().is_none());
    assert!(input.issued_at().is_none());
    assert!(input.expiration_time().is_none());
    assert!(input.not_before().is_none());
    assert!(input.request_id().is_none());
    assert!(input.resources().is_empty());
    assert_eq!(input, SigninInput::default());
}

#[test]
fn signin_plain_setters() {
    let mut input = SigninInput::new();
    input
        .set_domain("example.com")
        .set_statement("Sign in to Example")
        .set_uri("https://example.com/login")
        .set_version("1")
        .set_chain_id(SolanaNetworkCluster::MainNet)
        .set_request_id("req-1")
        .add_resource("https://example.com/a")
        .add_resources(&["https://example.com/b", "https://example.com/c"]);
    assert_eq!(input.domain().unwrap(), "example.com");
    assert_eq!(input.statement().unwrap(), "Sign in to Example");
    assert_eq!(input.uri().unwrap(), "https://example.com/login");
    assert_eq!(input.version().unwrap(), "1");
    assert_eq!(input.chain_id(), Some(&SolanaNetworkCluster::MainNet));
    assert_eq!(input.request_id().unwrap(), "req-1");
    assert_eq!(
        input.resources(),
        &[
            "https://example.com/a".to_string(),
            "https://example.com/b".to_string(),
            "https://example.com/c".to_string()
        ]
    );
}

#[test]
fn signin_set_address_accepts_32_byte_base58() {
    let mut input = SigninInput::new();
    let address = "11111111111111111111111111111111";
    assert!(input.set_address(address).is_ok());
    assert_eq!(input.address().unwrap(), address);
    let other = "So11111111111111111111111111111111111111112";
    assert!(input.set_address(other).is_ok());
    assert_eq!(input.address().unwrap(), other);
}

#[test]
fn signin_set_address_refuses_other_text() {
    let mut input = SigninInput::new();
    assert_eq!(
        input.set_address("not base58 0OIl").err(),
        Some(WalletUtilsError::InvalidBase58Address)
    );
    assert_eq!(
        input.set_address("abc").err(),
        Some(WalletUtilsError::Expected32ByteLength)
    );
    assert_eq!(input.set_address("").err(), Some(WalletUtilsError::Expected32ByteLength));
    // 33 bytes do not fit the buffer
    assert_eq!(
        input.set_address("111111111111111111111111111111111").err(),
        Some(WalletUtilsError::InvalidBase58Address)
    );
    assert!(input.address().is_none());
}

#[test]
fn signin_nonce_is_64_hex_characters() {
    let mut input = SigninInput::new();
    input.set_nonce();
    let nonce = input.nonce().unwrap().clone();
    assert_eq!(nonce.len(), 64);
    assert!(nonce.chars().all(|c| c.is_ascii_hexdigit() && !c.is_ascii_uppercase()));
    let mut other = SigninInput::new();
    assert!(other.set_custom_nonce(&nonce).is_ok());
    input.set_nonce();
    assert_ne!(input.nonce().unwrap(), &nonce);
}

#[test]
fn signin_custom_nonce_length() {
    let mut input = SigninInput::new();
    assert_eq!(
        input.set_custom_nonce("1234567").err(),
        Some(WalletUtilsError::NonceMustBeAtLeast8Characters)
    );
    assert!(input.nonce().is_none());
    assert!(input.set_custom_nonce("12345678").is_ok());
    assert_eq!(input.nonce().unwrap(), "12345678");
}

#[test]
fn signin_iso8601_text() {
    let mut input = SigninInput::new();
    assert!(input.issued_at_iso8601().is_none());
    let issued = Timestamp::new(1_518_568_087, 133_999_999).unwrap();
    input.set_issued_at(issued);
    assert_eq!(input.issued_at_iso8601().unwrap(), "2018-02-14T00:28:07.133Z");
    let expiry = Timestamp::new(1_518_568_087 + 60, 0).unwrap();
    input.set_expiration_time(issued, expiry).unwrap();
    assert_eq!(input.expiration_time_iso8601().unwrap(), "2018-02-14T00:29:07.000Z");
    input.set_not_before_time(issued, issued).unwrap();
    assert_eq!(input.not_before_iso8601().unwrap(), "2018-02-14T00:28:07.133Z");
}

#[test]
fn signin_expiry_equal_to_issue_is_accepted() {
    let mut input = SigninInput::new();
    let now = time_now();
    input.set_issued_at(now);
    assert!(input.set_expiration_time(now, now).is_ok());
    assert_eq!(input.expiration_time(), Some(&now));
}

#[test]
fn signin_order_of_setters_decides_the_check() {
    let now = time_now();
    let early = now.checked_add(TimeSpan::from_secs(10)).unwrap();
    let late = now.checked_add(TimeSpan::from_secs(1000)).unwrap();
    // expiry first, issue afterwards: nothing is compared
    let mut input = SigninInput::new();
    assert!(input.set_expiration_time(now, early).is_ok());
    input.set_issued_at(late);
    assert_eq!(input.expiration_time(), Some(&early));
    // issue first: the same expiry is refused
    let mut input = SigninInput::new();
    input.set_issued_at(late);
    assert_eq!(
        input.set_expiration_time(now, early).err(),
        Some(WalletUtilsError::ExpiryTimeEarlierThanIssuedTime)
    );
    assert!(input.expiration_time().is_none());
}

#[test]
fn signin_span_is_added_to_issue_time() {
    let now = time_now();
    let mut input = SigninInput::new();
    // without a time of issue the span is not used
    input.set_expiration_time_seconds(now, 100).unwrap();
    assert_eq!(input.expiration_time(), Some(&now));
    let issued = now.checked_add(TimeSpan::from_secs(5)).unwrap();
    input.set_issued_at(issued);
    input.set_expiration_time_millis(now, 1500).unwrap();
    assert_eq!(
        input.expiration_time(),
        Some(&issued.checked_add(TimeSpan::from_millis(1500)).unwrap())
    );
    input.set_not_before_time_seconds(now, 1).unwrap();
    assert_eq!(
        input.not_before(),
        Some(&issued.checked_add(TimeSpan::from_secs(1)).unwrap())
    );
    assert_eq!(
        input.set_expiration_time_seconds(now, u64::MAX).err(),
        Some(WalletUtilsError::SystemTimeCheckedAddOverflow)
    );
    assert_eq!(
        input.set_not_before_time_millis(now, u64::MAX).err(),
        Some(WalletUtilsError::SystemTimeCheckedAddOverflow)
    );
}

#[test]
fn signin_address_by_decoded_length() {
    assert_eq!(check_decoded_address(Some(32)), Ok(()));
    assert_eq!(check_decoded_address(Some(31)), Err(WalletUtilsError::Expected32ByteLength));
    assert_eq!(check_decoded_address(Some(33)), Err(WalletUtilsError::Expected32ByteLength));
    assert_eq!(check_decoded_address(None), Err(WalletUtilsError::InvalidBase58Address));
}

#[test]
fn time_field_of_a_line() {
    let field = time_field(" raw".to_string(), Some(time_now())).unwrap();
    assert_eq!(field.raw, " raw");
    assert_eq!(field.instant, time_now());
    assert_eq!(time_field(" raw".to_string(), None).err(), Some(" raw".to_string()));
}
