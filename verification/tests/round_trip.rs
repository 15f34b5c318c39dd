use wallet_adapter::base::errors::WalletBaseError;
use wallet_adapter::base::sign_in::SignInInput;
use wallet_adapter::common::clusters::SolanaNetworkCluster;
use wallet_adapter::common::errors::WalletUtilsError;
use wallet_adapter::common::signin::SigninInput;
use wallet_adapter::message::read_message;
use wallet_adapter::message::write_message;
use wallet_adapter::time::Timestamp;

const ADDRESS: &str = "So11111111111111111111111111111111111111112";

fn full_input() -> SigninInput {
    let issued = Timestamp::new(1_518_568_087, 133_000_000).unwrap();
    let mut input = SigninInput::new();
    input
        .set_domain("example.com")
        .set_statement("Sign in to Example")
        .set_uri("https://example.com/login")
        .set_version("1")
        .set_chain_id(SolanaNetworkCluster::MainNet)
        .set_issued_at(issued)
        .set_request_id("req-1")
        .add_resources(&["https://example.com/a", "https://example.com/b"]);
    input.set_address(ADDRESS).unwrap();
    input.set_custom_nonce("abcdefgh12345678").unwrap();
    input.set_expiration_time_seconds(issued, 60).unwrap();
    input.set_not_before_time_millis(issued, 1000).unwrap();
    input
}

#[test]
fn message_of_a_full_input() {
    assert_eq!(
        full_input().to_message(),
        "example.com wants you to sign in with your Solana account:\n\
So11111111111111111111111111111111111111112\n\
\n\
Sign in to Example\n\
\n\
URI: https://example.com/login\n\
Version: 1\n\
Chain ID: solana:mainnet\n\
Nonce: abcdefgh12345678\n\
Issued At: 2018-02-14T00:28:07.133Z\n\
Expiration Time: 2018-02-14T00:29:07.133Z\n\
Not Before: 2018-02-14T00:28:08.133Z\n\
Request ID: req-1\n\
Resources:\n\
- https://example.com/a\n\
- https://example.com/b"
    );
}

#[test]
fn message_of_a_small_input() {
    let mut input = SigninInput::new();
    input.set_domain("example.com").set_statement("Hello");
    input.set_address(ADDRESS).unwrap();
    assert_eq!(
        input.to_message(),
        "example.com wants you to sign in with your Solana account:\n\
So11111111111111111111111111111111111111112\n\nHello\n"
    );
    assert_eq!(
        SigninInput::new().to_message(),
        " wants you to sign in with your Solana account:\n\n\n\n"
    );
}

#[test]
fn written_message_reads_back() {
    let input = full_input();
    let text = input.to_message();
    assert_eq!(SigninInput::parser(&text), Ok(input.clone()));
    assert_eq!(input.check_eq(&text), Ok(()));

    let mut small = SigninInput::new();
    small.set_domain("example.com").set_statement("Hello");
    small.set_address(ADDRESS).unwrap();
    assert_eq!(SigninInput::parser(&small.to_message()), Ok(small.clone()));
    assert_eq!(small.check_eq(&small.to_message()), Ok(()));
}

#[test]
fn a_changed_field_is_found() {
    let input = full_input();
    let changes: Vec<fn(&mut SigninInput)> = vec![
        |i| {
            i.set_domain("example.org");
        },
        |i| {
            i.set_address("11111111111111111111111111111111").unwrap();
        },
        |i| {
            i.set_statement("Sign in to Example!");
        },
        |i| {
            i.set_uri("https://example.com/logout");
        },
        |i| {
            i.set_version("2");
        },
        |i| {
            i.set_chain_id(SolanaNetworkCluster::TestNet);
        },
        |i| {
            i.set_custom_nonce("abcdefgh12345679").unwrap();
        },
        |i| {
            i.set_issued_at(Timestamp::new(1_518_568_087, 134_000_000).unwrap());
        },
        |i| {
            i.set_expiration_time_seconds(Timestamp::unix_epoch(), 61).unwrap();
        },
        |i| {
            i.set_not_before_time_millis(Timestamp::unix_epoch(), 1001).unwrap();
        },
        |i| {
            i.set_request_id("req-2");
        },
        |i| {
            i.add_resource("https://example.com/c");
        },
    ];
    for change in changes {
        let mut changed = input.clone();
        change(&mut changed);
        assert_ne!(changed, input);
        assert_eq!(
            input.check_eq(&changed.to_message()),
            Err(WalletUtilsError::MessageResponseMismatch)
        );
    }
}

#[test]
fn inputs_that_do_not_read_back() {
    // without a statement the fourth line is read as an empty statement
    let mut input = SigninInput::new();
    input.set_domain("example.com");
    input.set_address(ADDRESS).unwrap();
    assert_eq!(
        input.check_eq(&input.to_message()),
        Err(WalletUtilsError::MessageResponseMismatch)
    );
    // a resource with a dash is cut at the dash
    let mut input = full_input();
    input.add_resource("https://my-site.example");
    let read = SigninInput::parser(&input.to_message()).unwrap();
    assert_eq!(read.resources()[2], "https://my");
    // a label inside a value counts for the label
    let mut input = SigninInput::new();
    input.set_domain("example.com").set_statement("Your Nonce: 5");
    input.set_address(ADDRESS).unwrap();
    let read = SigninInput::parser(&input.to_message()).unwrap();
    assert_eq!(read.nonce(), Some(&"5".to_string()));
    // nanoseconds below a millisecond are not written
    let mut input = full_input();
    input.set_issued_at(Timestamp::new(1_518_568_087, 133_000_001).unwrap());
    assert_eq!(
        input.check_eq(&input.to_message()),
        Err(WalletUtilsError::MessageResponseMismatch)
    );
}

#[test]
fn reading_goes_by_position_and_label() {
    let read = SigninInput::parser("a b\nsecond\nthird\n fourth \nURI:x\nVersion\nChain ID: nowhere\n-r-s\n- \nExpiration: 2018-02-14T00:28:07Z")
        .unwrap();
    assert_eq!(read.domain(), Some(&"a".to_string()));
    assert_eq!(read.address(), Some(&"second".to_string()));
    assert_eq!(read.statement(), Some(&"fourth".to_string()));
    assert_eq!(read.uri(), Some(&"x".to_string()));
    assert_eq!(read.version(), None);
    assert_eq!(read.chain_id(), Some(&SolanaNetworkCluster::DevNet));
    assert_eq!(read.resources(), &["r".to_string(), "".to_string()]);
    assert_eq!(read.expiration_time(), Some(&Timestamp::new(1_518_568_087, 0).unwrap()));

    let read = SigninInput::parser("nospace").unwrap();
    assert_eq!(read, SigninInput::new());
    assert_eq!(
        SigninInput::parser("x\nNot Before:\tnever ").err(),
        Some(WalletUtilsError::InvalidISO8601Timestamp("\tnever ".to_string()))
    );
    assert_eq!(
        SigninInput::new().check_eq("Issued At: x"),
        Err(WalletUtilsError::InvalidISO8601Timestamp(" x".to_string()))
    );
}

#[test]
fn message_fields_are_written_and_read() {
    let text = full_input().to_message();
    let fields = read_message(&text).unwrap();
    assert_eq!(fields.domain.as_deref(), Some("example.com"));
    assert_eq!(fields.issued_at.as_ref().unwrap().raw, " 2018-02-14T00:28:07.133Z");
    assert_eq!(
        fields.issued_at.as_ref().unwrap().instant,
        Timestamp::new(1_518_568_087, 133_000_000).unwrap()
    );
    assert_eq!(write_message(&fields), text);
    assert_eq!(read_message("Issued At: x").err(), Some(" x".to_string()));
}

#[test]
fn text_input_reads_back_without_times() {
    let mut input = SignInInput::new();
    input
        .set_domain("example.com")
        .set_statement("Sign in to Example")
        .set_uri("https://example.com/login")
        .set_version("1")
        .set_chain_id(SolanaNetworkCluster::DevNet)
        .set_request_id("req-1")
        .add_resource("https://example.com/a");
    input.set_address(ADDRESS).unwrap();
    input.set_custom_nonce("abcdefgh").unwrap();
    let text = input.to_message();
    assert_eq!(
        text,
        "example.com wants you to sign in with your Solana account:\n\
So11111111111111111111111111111111111111112\n\
\n\
Sign in to Example\n\
\n\
URI: https://example.com/login\n\
Version: 1\n\
Chain ID: solana:devnet\n\
Nonce: abcdefgh\n\
Request ID: req-1\n\
Resources:\n\
- https://example.com/a"
    );
    let read = SignInInput::parser(&text).unwrap();
    assert_eq!(read, input);
    assert_eq!(input.check_eq(&read), Ok(()));

    // a time reads back with the space that follows the colon
    input.set_issued_at(Timestamp::unix_epoch());
    let text = input.to_message();
    assert!(text.contains("\nIssued At: 1970-01-01T00:00:00.000Z\n"));
    let read = SignInInput::parser(&text).unwrap();
    assert_eq!(read.issued_at(), Some(" 1970-01-01T00:00:00.000Z"));
    assert_eq!(input.check_eq(&read), Err(WalletBaseError::MessageResponseMismatch));
}
