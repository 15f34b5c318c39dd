use wallet_adapter::adapter::connection::ConnectionInfo;
use wallet_adapter::adapter::errors::WalletError;
use wallet_adapter::adapter::events::WalletEvent;
use wallet_adapter::adapter::features::Features;
use wallet_adapter::adapter::host::ReflectedAccount;
use wallet_adapter::adapter::host::ReflectedFeature;
use wallet_adapter::adapter::host::ReflectedWallet;
use wallet_adapter::adapter::host::TransactionVersionToken;
use wallet_adapter::adapter::semver::parse_u8;
use wallet_adapter::adapter::semver::parse_version;
use wallet_adapter::adapter::sign_in::SignInResponse;
use wallet_adapter::adapter::features::SignIn;
use wallet_adapter::adapter::features::SignMessage;
use wallet_adapter::adapter::sign_message::SignedMessageResponse;
use wallet_adapter::adapter::sign_tx::SendOptions;
use wallet_adapter::adapter::sign_tx::SignTransaction;
use wallet_adapter::adapter::storage::WalletStorage;
use wallet_adapter::adapter::wallet::Wallet;
use wallet_adapter::adapter::wallet_account::WalletAccount;
use wallet_adapter::adapter::wallet_adapter::WalletAdapter;
use wallet_adapter::base::version::SemverVersion;
use wallet_adapter::common::chains::ChainSupport;
use wallet_adapter::common::clusters::SolanaNetworkCluster;
use wallet_adapter::common::commitment::SolanaNetworkCommitment;
use wallet_adapter::common::errors::WalletUtilsError;
use wallet_adapter::common::feature_support::FeatureSupport;
use wallet_adapter::common::signin::SigninInput;
use wallet_adapter::common::wallet::WalletData;

fn feature(key: &str, functions: &[&str]) -> ReflectedFeature {
    ReflectedFeature {
        key: key.to_string(),
        version: Some("1.0.0".to_string()),
        functions: functions.iter().map(|f| f.to_string()).collect(),
        supported_transaction_versions: None,
    }
}

fn tx_feature(key: &str, function: &str, versions: Vec<TransactionVersionToken>) -> ReflectedFeature {
    ReflectedFeature {
        key: key.to_string(),
        version: Some("1.2.3".to_string()),
        functions: vec![function.to_string()],
        supported_transaction_versions: Some(versions),
    }
}

fn legacy() -> TransactionVersionToken {
    TransactionVersionToken::Text("legacy".to_string())
}

fn account(handle: u64, key_byte: u8) -> ReflectedAccount {
    ReflectedAccount {
        handle,
        address: format!("address-{}", key_byte),
        public_key: vec![key_byte; 32],
        chains: vec!["solana:mainnet".to_string(), "solana:devnet".to_string()],
        features: vec!["standard:connect".to_string(), "solana:signMessage".to_string()],
        label: Some("main".to_string()),
        icon: None,
    }
}

fn wallet_account(handle: u64, key_byte: u8) -> WalletAccount {
    WalletAccount::parse(&account(handle, key_byte)).unwrap()
}

fn reflected_wallet(name: &str) -> ReflectedWallet {
    ReflectedWallet {
        name: name.to_string(),
        version: "1.0.0".to_string(),
        icon: Some("data:image/png;base64,AAAA".to_string()),
        chains: vec![
            "solana:mainnet".to_string(),
            "bitcoin:mainnet".to_string(),
            "solana:localnet".to_string(),
        ],
        accounts: vec![account(1, 1), account(2, 2)],
        features: vec![
            feature("standard:connect", &["connect"]),
            feature("standard:disconnect", &["disconnect"]),
            feature("standard:events", &["on"]),
            tx_feature("solana:signTransaction", "signTransaction", vec![legacy()]),
            feature("solana:signMessage", &["signMessage"]),
        ],
    }
}

fn wallet(name: &str) -> Wallet {
    Wallet::from_jsvalue(reflected_wallet(name)).unwrap()
}

#[test]
fn capability_parsing_with_an_extension_key() {
    let entries = vec![
        feature("standard:connect", &["connect"]),
        feature("standard:disconnect", &["disconnect"]),
        tx_feature("solana:signTransaction", "signTransaction", vec![legacy()]),
        ReflectedFeature {
            key: "foo:bar".to_string(),
            version: None,
            functions: vec![],
            supported_transaction_versions: None,
        },
    ];
    // a key outside the two namespaces is an extension and is tolerated
    let (features, support) = Features::parse(&entries).unwrap();
    assert_eq!(features.extensions(), &["foo:bar".to_string()]);
    let expected = FeatureSupport {
        connect: true,
        disconnect: true,
        events: false,
        sign_in: false,
        sign_message: false,
        sign_and_send_tx: false,
        sign_tx: true,
        sign_all_tx: false,
    };
    assert_eq!(support, expected);

    // without that key the flags are the same and nothing is an extension
    let (features, support) = Features::parse(&entries[..3].to_vec()).unwrap();
    assert!(features.extensions().is_empty());
    assert_eq!(support, expected);
    assert_eq!(features.sign_tx().version, SemverVersion::new().set_minor(2).set_patch(3));
    assert!(features.sign_tx().legacy);
    assert!(!features.sign_tx().version_zero);
    assert_eq!(features.connect().version, SemverVersion::new());
}

#[test]
fn capability_parsing_refuses_an_unknown_namespaced_key() {
    for key in ["solana:fooBar", "standard:bar", "solana:", "standard:connect2"] {
        let entries = vec![
            feature("standard:connect", &["connect"]),
            feature(key, &["call"]),
            feature("standard:disconnect", &["disconnect"]),
        ];
        assert_eq!(
            Features::parse(&entries).err(),
            Some(WalletError::UnsupportedWalletFeature(key.to_string()))
        );
    }
}

#[test]
fn capability_parsing_asks_for_version_and_function() {
    let mut no_version = feature("standard:connect", &["connect"]);
    no_version.version = None;
    assert_eq!(Features::parse(&vec![no_version]).err(), Some(WalletError::VersionNotFound));

    let mut bad_version = feature("standard:connect", &["connect"]);
    bad_version.version = Some("1.0".to_string());
    assert_eq!(
        Features::parse(&vec![bad_version]).err(),
        Some(WalletError::InvalidWalletVersion("1.0".to_string()))
    );

    let cases = [
        ("standard:connect", WalletError::MissingConnectFunction),
        ("standard:disconnect", WalletError::MissingDisconnectFunction),
        ("standard:events", WalletError::MissingStandardEventsFunction),
        ("solana:signMessage", WalletError::MissingSignMessageFunction),
        ("solana:signIn", WalletError::MissingSignInFunction),
        ("solana:signTransaction", WalletError::MissingSignTransactionFunction),
        ("solana:signAndSendTransaction", WalletError::MissingSignTransactionFunction),
        ("solana:signAllTransactions", WalletError::MissingSignTransactionFunction),
    ];
    for (key, error) in cases {
        assert_eq!(Features::parse(&vec![feature(key, &["other"])]).err(), Some(error));
    }
}

#[test]
fn capability_parsing_of_all_features() {
    let entries = vec![
        feature("standard:connect", &["connect"]),
        feature("standard:disconnect", &["disconnect"]),
        feature("standard:events", &["on"]),
        tx_feature(
            "solana:signAndSendTransaction",
            "signAndSendTransaction",
            vec![legacy(), TransactionVersionToken::Integer(0)],
        ),
        tx_feature("solana:signTransaction", "signTransaction", vec![legacy()]),
        tx_feature("solana:signAllTransactions", "signAllTransactions", vec![legacy()]),
        feature("solana:signMessage", &["signMessage"]),
        feature("solana:signIn", &["signIn"]),
        feature("phantom:", &[]),
    ];
    let (features, support) = Features::parse(&entries).unwrap();
    assert_eq!(
        support,
        FeatureSupport {
            connect: true,
            disconnect: true,
            events: true,
            sign_in: true,
            sign_message: true,
            sign_and_send_tx: true,
            sign_tx: true,
            sign_all_tx: true,
        }
    );
    assert!(features.sign_and_send_tx().version_zero);
    assert!(features.sign_all_tx().is_some());
    assert!(features.sign_in().is_some());
    assert_eq!(features.extensions(), &["phantom:".to_string()]);
    assert_eq!(Features::default().extensions().len(), 0);
    assert_eq!(FeatureSupport::default().connect, false);
}

#[test]
fn transaction_versions_need_legacy() {
    let zero = TransactionVersionToken::Integer(0);
    let with = |versions: Vec<TransactionVersionToken>| {
        SignTransaction::get_tx_version_support(&tx_feature("k", "f", versions))
    };
    assert_eq!(with(vec![legacy(), zero.clone()]), Ok((true, true)));
    assert_eq!(with(vec![zero.clone(), legacy()]), Ok((true, true)));
    assert_eq!(with(vec![legacy()]), Ok((true, false)));
    assert_eq!(with(vec![legacy(), legacy()]), Ok((true, false)));
    assert_eq!(with(vec![]), Err(WalletError::LegacyTransactionSupportRequired));
    assert_eq!(with(vec![zero.clone()]), Err(WalletError::LegacyTransactionSupportRequired));
    assert_eq!(
        with(vec![zero.clone(), TransactionVersionToken::Integer(1)]),
        Err(WalletError::UnsupportedTransactionVersion)
    );
    assert_eq!(
        with(vec![TransactionVersionToken::Text("Legacy".to_string())]),
        Err(WalletError::UnsupportedTransactionVersion)
    );
    assert_eq!(
        with(vec![legacy(), TransactionVersionToken::Other]),
        Err(WalletError::UnsupportedTransactionVersion)
    );
    assert_eq!(
        SignTransaction::get_tx_version_support(&feature("k", &["f"])),
        Err(WalletError::ExpectedValueNotFound("supportedTransactionVersions".to_string()))
    );
    let parsed = SignTransaction::new_sign_tx(
        &tx_feature("solana:signTransaction", "signTransaction", vec![legacy(), zero]),
        SemverVersion::new(),
    )
    .unwrap();
    assert!(parsed.legacy && parsed.version_zero);
    assert_eq!(SignTransaction::default().legacy, false);
}

#[test]
fn versions_are_three_bytes() {
    let version = parse_version("1.22.255").unwrap();
    assert_eq!((version.major(), version.minor(), version.patch()), (1, 22, 255));
    let version = parse_version("+1.007.0").unwrap();
    assert_eq!((version.major(), version.minor(), version.patch()), (1, 7, 0));
    assert_eq!(
        parse_version("1.0").err(),
        Some(WalletError::InvalidWalletVersion("1.0".to_string()))
    );
    assert_eq!(
        parse_version("1.0.0.0").err(),
        Some(WalletError::InvalidWalletVersion("1.0.0.0".to_string()))
    );
    assert_eq!(
        parse_version("1.256.0").err(),
        Some(WalletError::InvalidSemVerNumber("256".to_string()))
    );
    assert_eq!(
        parse_version("a.1.1").err(),
        Some(WalletError::InvalidSemVerNumber("a".to_string()))
    );
    assert_eq!(
        parse_version("1.1.").err(),
        Some(WalletError::InvalidSemVerNumber("".to_string()))
    );
    for text in ["0", "255", "256", "", "+", "-1", "+12", "0000000000000001", "99999999999999999999", "1a", " 1"] {
        let chars: Vec<char> = text.chars().collect();
        assert_eq!(parse_u8(&chars), text.parse::<u8>().ok(), "{:?}", text);
    }
}

#[test]
fn account_parsing() {
    let parsed = wallet_account(7, 9);
    assert_eq!(parsed.handle(), 7);
    assert_eq!(parsed.address(), "address-9");
    assert_eq!(parsed.public_key(), [9u8; 32]);
    assert_eq!(parsed.chains().len(), 2);
    assert_eq!(parsed.features().len(), 2);
    assert_eq!(parsed.label(), Some(&"main".to_string()));
    assert_eq!(parsed.icon(), None);
    assert!(parsed.mainnet() && parsed.devnet() && !parsed.testnet() && !parsed.localnet());
    assert!(parsed.standard_connect() && parsed.solana_sign_message());
    assert!(!parsed.standard_disconnect() && !parsed.standard_events());
    assert!(!parsed.solana_signin() && !parsed.solana_sign_transaction());
    assert!(!parsed.solana_sign_and_send_transaction() && !parsed.solana_sign_all_transactions());
    assert_eq!(parsed.shorten_address().unwrap(), "addr...ss-9");
    assert_eq!(parsed.custom_shorten_address(1).unwrap(), "a...9");
    assert_eq!(parsed.custom_shorten_address_rl(2, 0).unwrap(), "ad...");
    assert_eq!(
        parsed.custom_shorten_address(100).err(),
        Some(WalletError::InvalidBase58Address)
    );

    let mut short_key = account(1, 1);
    short_key.public_key.pop();
    assert_eq!(WalletAccount::parse(&short_key).err(), Some(WalletError::Expected32ByteLength));

    let mut bad_chain = account(1, 1);
    bad_chain.chains.push("solana:mainnet-beta".to_string());
    bad_chain.chains.push("eth:1".to_string());
    bad_chain.features.push("nonsense".to_string());
    assert_eq!(
        WalletAccount::parse(&bad_chain).err(),
        Some(WalletError::UnsupportedChain("solana:mainnet-beta".to_string()))
    );

    let mut bad_feature = account(1, 1);
    bad_feature.features.push("solana:signAllTransactions".to_string());
    bad_feature.features.push("solana:sign".to_string());
    assert_eq!(
        WalletAccount::parse(&bad_feature).err(),
        Some(WalletError::UnsupportedWalletFeature("solana:sign".to_string()))
    );
}

#[test]
fn first_account_of_a_notification() {
    assert_eq!(WalletAccount::first_of(&[]), None);
    assert_eq!(WalletAccount::first_of(&[account(3, 3), account(4, 4)]).unwrap().handle(), 3);
    let mut broken = account(1, 1);
    broken.chains.push("eth:1".to_string());
    assert_eq!(WalletAccount::first_of(&[broken, account(4, 4)]), None);
}

#[test]
fn accounts_are_compared_without_their_handle() {
    assert_eq!(wallet_account(1, 5), wallet_account(2, 5));
    assert_ne!(wallet_account(1, 5), wallet_account(1, 6));
    assert!(wallet_account(1, 5).same_account(&wallet_account(9, 5)));
    let copy = wallet_account(3, 5).duplicate();
    assert_eq!(copy.handle(), 3);
}

#[test]
fn wallet_parsing() {
    let parsed = wallet("Phantom");
    assert_eq!(parsed.name(), "Phantom");
    assert_eq!(parsed.version(), SemverVersion::new());
    assert_eq!(parsed.icon(), Some(&"data:image/png;base64,AAAA".to_string()));
    assert_eq!(
        parsed.chains(),
        &[SolanaNetworkCluster::MainNet, SolanaNetworkCluster::LocalNet]
    );
    assert!(parsed.mainnet() && parsed.localnet() && !parsed.devnet() && !parsed.testnet());
    assert_eq!(parsed.accounts().len(), 2);
    assert_eq!(parsed.accounts()[1].handle(), 2);
    assert_eq!(parsed.data().accounts().len(), 2);
    assert_eq!(parsed.data().accounts()[0].public_key, [1u8; 32]);
    assert!(parsed.standard_connect() && parsed.standard_disconnect() && parsed.standard_events());
    assert!(parsed.solana_sign_transaction() && parsed.solana_sign_message());
    assert!(!parsed.solana_signin() && !parsed.solana_sign_and_send_transaction());
    assert!(!parsed.solana_sign_all_transactions());
    assert!(parsed.features().extensions().is_empty());

    // a chain of the namespace that names no cluster stands for devnet
    let mut odd = reflected_wallet("Odd");
    odd.chains = vec!["solana:unknown".to_string(), "eth:1".to_string()];
    let parsed = Wallet::from_jsvalue(odd).unwrap();
    assert_eq!(parsed.chains(), &[SolanaNetworkCluster::DevNet]);
    assert!(parsed.devnet() && !parsed.mainnet());
}

#[test]
fn wallet_parsing_is_all_or_nothing() {
    let mut bad_version = reflected_wallet("W");
    bad_version.version = "one".to_string();
    bad_version.accounts[0].public_key.clear();
    assert_eq!(
        Wallet::from_jsvalue(bad_version).err(),
        Some(WalletError::InvalidWalletVersion("one".to_string()))
    );

    let mut bad_account = reflected_wallet("W");
    bad_account.accounts[1].chains.push("solana:x".to_string());
    bad_account.features.push(feature("solana:x", &[]));
    assert_eq!(
        Wallet::from_jsvalue(bad_account).err(),
        Some(WalletError::UnsupportedChain("solana:x".to_string()))
    );

    let mut bad_feature = reflected_wallet("W");
    bad_feature.features.push(feature("solana:x", &[]));
    assert_eq!(
        Wallet::from_jsvalue(bad_feature).err(),
        Some(WalletError::UnsupportedWalletFeature("solana:x".to_string()))
    );
}

#[test]
fn wallets_are_the_same_by_name_version_and_chains() {
    let a = wallet("Phantom");
    let mut other = reflected_wallet("Phantom");
    other.icon = None;
    other.accounts.clear();
    let b = Wallet::from_jsvalue(other).unwrap();
    assert_eq!(a, b);
    assert_ne!(a, wallet("Solflare"));
    let mut other = reflected_wallet("Phantom");
    other.chains.pop();
    assert_ne!(a, Wallet::from_jsvalue(other).unwrap());
    let mut other = reflected_wallet("Phantom");
    other.version = "1.0.1".to_string();
    assert_ne!(a, Wallet::from_jsvalue(other).unwrap());
}

#[test]
fn wallet_data_builder() {
    let data = WalletData::new();
    assert_eq!(data.name(), "");
    assert_eq!(*data.version(), SemverVersion::new());
    assert!(data.icon().is_none() && data.accounts().is_empty() && data.chains().is_empty());
    let first = wallet_account(1, 1).into_data();
    let second = wallet_account(2, 2).into_data();
    let data = data
        .set_name("Backpack")
        .set_version(SemverVersion::new().set_major(2))
        .set_icon(Some("icon"))
        .set_icon(None)
        .add_account(first.clone())
        .add_accounts(&[second.clone(), first.clone()])
        .add_chain(SolanaNetworkCluster::TestNet)
        .add_chains(&[SolanaNetworkCluster::MainNet, SolanaNetworkCluster::DevNet])
        .set_supported_chains(ChainSupport { mainnet: true, devnet: true, testnet: true, localnet: false })
        .set_supported_features(FeatureSupport { sign_in: true, ..FeatureSupport::default() });
    assert_eq!(data.name(), "Backpack");
    assert_eq!(data.version().major(), 2);
    assert_eq!(data.icon(), Some(&"icon".to_string()));
    assert_eq!(data.accounts(), &[first.clone(), second.clone(), first.clone()]);
    assert_eq!(
        data.chains(),
        &[SolanaNetworkCluster::TestNet, SolanaNetworkCluster::MainNet, SolanaNetworkCluster::DevNet]
    );
    assert!(data.mainnet() && data.devnet() && data.testnet() && !data.localnet());
    assert!(data.solana_signin() && !data.standard_connect() && !data.standard_disconnect());
    assert!(!data.standard_events() && !data.solana_sign_message());
    assert!(!data.solana_sign_transaction() && !data.solana_sign_all_transactions());
    assert!(!data.solana_sign_and_send_transaction());
    let data = data.replace_accounts(vec![second.clone()]).replace_chains(vec![]);
    assert_eq!(data.accounts(), &[second]);
    assert!(data.chains().is_empty());
    assert_eq!(data.duplicate(), data);
    assert_eq!(ChainSupport::default().mainnet, false);
}

#[test]
fn connection_state_machine() {
    // from the disconnected state an account connects
    let mut info = ConnectionInfo::new();
    let first = wallet_account(1, 1);
    let event = info.account_changed("Phantom", Some(first.duplicate()));
    assert_eq!(event, WalletEvent::Connected(first.duplicate()));
    assert_eq!(info.connected_account().unwrap(), &first);
    assert!(info.previous_accounts().is_empty());

    // the same wallet puts another account in its place
    info.set_wallet(wallet("Phantom"));
    let second = wallet_account(2, 2);
    let event = info.account_changed("Phantom", Some(second.duplicate()));
    assert_eq!(event, WalletEvent::AccountChanged(second.duplicate()));
    assert_eq!(info.connected_account().unwrap(), &second);
    assert_eq!(info.previous_accounts(), &[first.duplicate()]);

    // another wallet with an account that is not known changes nothing
    let before = info.clone();
    let event = info.account_changed("Solflare", Some(wallet_account(3, 3)));
    assert_eq!(event, WalletEvent::Skip);
    assert_eq!(info, before);
    let event = info.account_changed("Solflare", None);
    assert_eq!(event, WalletEvent::Skip);
    assert_eq!(info, before);

    // the same wallet without an account disconnects and keeps the history
    let event = info.account_changed("Phantom", None);
    assert_eq!(event, WalletEvent::Disconnected);
    assert_eq!(info.connected_account().err(), Some(WalletError::AccountNotFound));
    assert!(info.connected_account_raw().is_none());
    assert_eq!(info.previous_accounts(), &[first.duplicate(), second.duplicate()]);
    assert!(info.connected_wallet_raw().is_some());

    // an account that was connected before connects again
    let event = info.account_changed("Other", Some(wallet_account(5, 1)));
    assert_eq!(event, WalletEvent::Connected(first.duplicate()));
    assert_eq!(info.connected_account().unwrap().handle(), 5);
    assert_eq!(info.previous_accounts().len(), 2);

    // an account that was never connected is skipped while none is connected
    info.account_changed("Phantom", None);
    let history = info.previous_accounts().len();
    let event = info.account_changed("Phantom", Some(wallet_account(6, 6)));
    assert_eq!(event, WalletEvent::Skip);
    assert_eq!(info.previous_accounts().len(), history);
}

#[test]
fn history_has_no_repetitions_in_a_row() {
    let mut info = ConnectionInfo::new();
    info.set_wallet(wallet("Phantom"));
    info.set_account(wallet_account(1, 1));
    info.account_changed("Phantom", Some(wallet_account(2, 1)));
    info.account_changed("Phantom", Some(wallet_account(3, 1)));
    info.account_changed("Phantom", Some(wallet_account(4, 2)));
    info.account_changed("Phantom", Some(wallet_account(5, 1)));
    info.account_changed("Phantom", None);
    let keys: Vec<u8> = info.previous_accounts().iter().map(|a| a.public_key()[0]).collect();
    assert_eq!(keys, vec![1, 2, 1]);
    assert_eq!(info.previous_accounts()[0].handle(), 1);
    info.push_previous_account();
    assert_eq!(info.previous_accounts().len(), 3);
}

#[test]
fn notifications_without_a_wallet_are_dropped() {
    let mut info = ConnectionInfo::default();
    assert_eq!(info.emit_wallet_event("Phantom", Some(wallet_account(1, 1))), None);
    assert_eq!(info.emit_wallet_event("Phantom", None), None);
    assert_eq!(info, ConnectionInfo::new());
    assert_eq!(info.connected_wallet().err(), Some(WalletError::WalletNotFound));
    info.set_wallet(wallet("Phantom"));
    assert_eq!(info.emit_wallet_event("Phantom", None), Some(WalletEvent::Disconnected));
    assert_eq!(info.emit_wallet_event("phantom", None), Some(WalletEvent::Skip));
}

#[test]
fn connecting_through_the_connection() {
    let mut info = ConnectionInfo::new();
    assert_eq!(info.connect(&[account(1, 1)]).err(), Some(WalletError::WalletNotFound));
    info.set_wallet(wallet("Phantom"));
    assert_eq!(info.connect(&[]).err(), Some(WalletError::ConnectHasNoAccounts));
    let mut broken = account(1, 1);
    broken.public_key.push(0);
    assert_eq!(info.connect(&[broken]).err(), Some(WalletError::Expected32ByteLength));
    assert!(info.connected_account_raw().is_none());
    let (connected, event) = info.connect(&[account(4, 4), account(5, 5)]).unwrap();
    assert_eq!(connected.handle(), 4);
    assert_eq!(event, WalletEvent::Connected(wallet_account(4, 4)));
    assert_eq!(info.connected_account().unwrap(), &connected);
    assert_eq!(info.set_disconnected(), WalletEvent::Disconnected);
    assert_eq!(info, ConnectionInfo::new());
}

#[test]
fn sign_message_response_is_checked() {
    let signer = wallet_account(1, 8);
    let message = b"hello wallet";
    let good = SignedMessageResponse { signed_message: message.to_vec(), signature: vec![7; 64] };
    let output = SignMessage::signed_message_output(message, &signer, &[good.clone()]).unwrap();
    assert_eq!(output.message(), message);
    assert_eq!(output.signature(), [7u8; 64]);
    assert_eq!(output.public_key(), [8u8; 32]);

    assert_eq!(
        SignMessage::signed_message_output(message, &signer, &[]).err(),
        Some(WalletError::ReceivedAnEmptySignedMessagesArray)
    );
    // a changed message is a mismatch whatever the signature is
    for signature in [vec![7; 64], vec![], vec![0; 63]] {
        let changed = SignedMessageResponse { signed_message: b"hello wallet!".to_vec(), signature };
        assert_eq!(
            SignMessage::signed_message_output(message, &signer, &[changed, good.clone()]).err(),
            Some(WalletError::SignedMessageMismatch)
        );
    }
    let short = SignedMessageResponse { signed_message: message.to_vec(), signature: vec![7; 63] };
    assert_eq!(
        SignMessage::signed_message_output(message, &signer, &[short]).err(),
        Some(WalletError::Expected64ByteLength)
    );
    let request = wallet("Phantom").sign_message(message, &signer);
    assert_eq!(request.account, 1);
    assert_eq!(request.message, message);
}

#[test]
fn transaction_requests_and_responses() {
    let w = wallet("Phantom");
    let signer = wallet_account(3, 3);
    let request = w.sign_transaction(&[1, 2, 3], Some(SolanaNetworkCluster::DevNet), &signer);
    assert_eq!(request.account, 3);
    assert_eq!(request.transaction, vec![1, 2, 3]);
    assert_eq!(request.chain, Some("solana:devnet".to_string()));
    assert_eq!(w.sign_transaction(&[], None, &signer).chain, None);

    let options = SendOptions {
        preflight_commitment: SolanaNetworkCommitment::Confirmed,
        skip_preflight: true,
        max_retries: 3,
    };
    let request =
        w.sign_and_send_transaction(&[9], SolanaNetworkCluster::MainNet, options, &signer);
    assert_eq!(request.chain, "solana:mainnet");
    assert_eq!(request.transaction, vec![9]);
    assert_eq!(request.options, options);
    let object = options.to_object();
    assert_eq!(object.preflight_commitment, "confirmed");
    assert!(object.skip_preflight);
    assert_eq!(object.max_retries, 3);
    assert_eq!(SendOptions::default().to_object().preflight_commitment, "finalized");

    assert_eq!(
        w.sign_all_transactions(&[vec![1]], None, &signer).err(),
        Some(WalletError::MissingSignAllTransactionsFunction)
    );
    let mut with_all = reflected_wallet("All");
    with_all.features.push(tx_feature(
        "solana:signAllTransactions",
        "signAllTransactions",
        vec![legacy()],
    ));
    let w = Wallet::from_jsvalue(with_all).unwrap();
    let request = w
        .sign_all_transactions(&[vec![1], vec![2, 3]], Some(SolanaNetworkCluster::TestNet), &signer)
        .unwrap();
    assert_eq!(request.transactions, vec![vec![1], vec![2, 3]]);
    assert_eq!(request.chain, Some("solana:testnet".to_string()));

    assert_eq!(
        SignTransaction::signed_transactions(vec![], 1).err(),
        Some(WalletError::ReceivedAnEmptySignedMessagesArray)
    );
    assert_eq!(
        SignTransaction::signed_transactions(vec![], 0).err(),
        Some(WalletError::ReceivedAnEmptySignedMessagesArray)
    );
    assert_eq!(
        SignTransaction::signed_transactions(vec![vec![1]], 2).err(),
        Some(WalletError::ReceivedAnEmptySignedMessagesArray)
    );
    assert_eq!(
        SignTransaction::signed_transactions(vec![vec![1], vec![2]], 2),
        Ok(vec![vec![1], vec![2]])
    );
    assert_eq!(
        SignTransaction::sent_transaction_signature(&[]).err(),
        Some(WalletError::SendAndSignTransactionSignatureEmpty)
    );
    assert_eq!(
        SignTransaction::sent_transaction_signature(&[vec![1; 65]]).err(),
        Some(WalletError::Expected64ByteLength)
    );
    assert_eq!(
        SignTransaction::sent_transaction_signature(&[vec![1; 64], vec![]]),
        Ok([1u8; 64])
    );
}

#[test]
fn sign_in_response_is_checked() {
    let mut input = SigninInput::new();
    input
        .set_domain("example.com")
        .set_statement("Welcome")
        .set_uri("https://example.com")
        .set_chain_id(SolanaNetworkCluster::MainNet);
    input.set_custom_nonce("abcdefgh").unwrap();
    // the parser reads the address from the second line, so it has to be set too
    input.set_address("11111111111111111111111111111111").unwrap();
    let message = "example.com wants you to sign in with your Solana account:\n\
11111111111111111111111111111111\n\nWelcome\n\nURI: https://example.com\n\
Chain ID: solana:mainnet\nNonce: abcdefgh";
    let response = |text: &str, signature: Vec<u8>| SignInResponse {
        account: account(1, 1),
        signed_message: text.as_bytes().to_vec(),
        signature,
    };
    let output =
        SignIn::sign_in_output(&input, [1u8; 32], &[response(message, vec![5; 64])]).unwrap();
    assert_eq!(output.message, message);
    assert_eq!(output.signature, [5u8; 64]);
    assert_eq!(output.public_key, [1u8; 32]);
    assert_eq!(output.account.address, "address-1");

    assert_eq!(
        SignIn::sign_in_output(&input, [1u8; 32], &[]).err(),
        Some(WalletError::ReceivedAnEmptySignedMessagesArray)
    );
    let tampered = message.replace("Welcome", "Welcome!");
    assert_eq!(
        SignIn::sign_in_output(&input, [1u8; 32], &[response(&tampered, vec![5; 64])]).err(),
        Some(WalletError::MessageResponseMismatch)
    );
    assert_eq!(
        SignIn::sign_in_output(&input, [1u8; 32], &[response(message, vec![5; 10])]).err(),
        Some(WalletError::Expected64ByteLength)
    );
    let dated = format!("{}\nIssued At: soon", message);
    assert_eq!(
        SignIn::sign_in_output(&input, [1u8; 32], &[response(&dated, vec![5; 64])]).err(),
        Some(WalletError::InvalidISO8601Timestamp(" soon".to_string()))
    );
    let not_text = SignInResponse {
        account: account(1, 1),
        signed_message: vec![0xff],
        signature: vec![5; 64],
    };
    assert!(matches!(
        SignIn::sign_in_output(&input, [1u8; 32], &[not_text]),
        Err(WalletError::InternalError(_))
    ));

    let w = wallet("Phantom");
    assert_eq!(w.sign_in(&input, [1u8; 32]).err(), Some(WalletError::MissingSignInFunction));
    let mut with_sign_in = reflected_wallet("S");
    with_sign_in.features.push(feature("solana:signIn", &["signIn"]));
    let request = Wallet::from_jsvalue(with_sign_in).unwrap().sign_in(&input, [2u8; 32]).unwrap();
    assert_eq!(request.input, input);
    assert_eq!(request.public_key, [2u8; 32]);
}

#[test]
fn registry_finds_wallets_by_name_in_any_case() {
    let mut storage = WalletStorage::default();
    assert!(storage.get_wallets().is_empty());
    assert!(storage.get_wallet("Phantom").is_none());
    storage.insert(wallet("Phantom"));
    storage.insert(wallet("Solflare"));
    assert_eq!(storage.get_wallet("phantom").unwrap().name(), "Phantom");
    assert_eq!(storage.get_wallet("PHANTOM").unwrap().name(), "Phantom");
    assert_eq!(storage.get_wallet("Solflare").unwrap().name(), "Solflare");
    assert!(storage.get_wallet("Backpack").is_none());
    // the same name again takes the place of the first
    let mut newer = reflected_wallet("PHANTOM");
    newer.version = "2.0.0".to_string();
    storage.insert(Wallet::from_jsvalue(newer).unwrap());
    let names: Vec<String> = storage.get_wallets().iter().map(|w| w.name().to_string()).collect();
    assert_eq!(names, vec!["PHANTOM".to_string(), "Solflare".to_string()]);
    assert_eq!(storage.get_wallet("Phantom").unwrap().version().major(), 2);
    assert_eq!(storage.clone_inner().get_wallets().len(), 2);
    assert_ne!(WalletStorage::wallet_key("a"), WalletStorage::wallet_key("b"));
    assert_eq!(
        storage.get_by_key(&WalletStorage::wallet_key("solflare")).unwrap().name(),
        "Solflare"
    );
    assert!(storage.get_by_key(&[0u8; 32]).is_none());
    assert_eq!(WalletStorage::wallet_key("A"), WalletStorage::wallet_key("a"));
    assert_eq!(WalletStorage::wallet_key("PhanTom ÄB"), WalletStorage::wallet_key("phantom äb"));
    // SHA3-256 of "a"
    assert_eq!(
        wallet_adapter::codec::to_hex(&WalletStorage::wallet_key("A")),
        "80084bf2fba02475726feb2cab2d8215eab14bc6bdd8bfb2c8151257032ecd8b"
    );
}

#[test]
fn adapter_operations() {
    let mut adapter = WalletAdapter::init();
    assert_eq!(adapter.channel_capacity(), 5);
    assert_eq!(WalletAdapter::init_with_channel_capacity(9).channel_capacity(), 9);
    assert!(!adapter.is_connected());
    assert_eq!(adapter.mainnet(), Err(WalletError::WalletNotFound));
    assert_eq!(adapter.clusters(), Err(WalletError::WalletNotFound));
    assert_eq!(adapter.solana_signin(), Err(WalletError::WalletNotFound));
    assert_eq!(adapter.sign_message(b"m").err(), Some(WalletError::WalletNotFound));
    assert_eq!(adapter.get_wallet("Phantom").err(), Some(WalletError::WalletNotFound));
    assert_eq!(
        adapter.connect_by_name("Phantom", &[account(1, 1)]).err(),
        Some(WalletError::WalletNotFound)
    );

    let mut everywhere = reflected_wallet("Phantom");
    everywhere.chains = vec![
        "solana:testnet".to_string(),
        "solana:localnet".to_string(),
        "solana:devnet".to_string(),
        "solana:mainnet".to_string(),
    ];
    adapter.register_wallet(everywhere).unwrap();
    let mut broken = reflected_wallet("Broken");
    broken.version = "x".to_string();
    assert!(adapter.register_wallet(broken).is_err());
    assert_eq!(adapter.wallets().len(), 1);
    assert_eq!(adapter.storage().get_wallets().len(), 1);

    // an answer without accounts leaves the adapter as it was
    assert_eq!(
        adapter.connect_by_name("phantom", &[]).err(),
        Some(WalletError::ConnectHasNoAccounts)
    );
    assert!(adapter.connection_info().connected_wallet_raw().is_none());

    let (connected, event) = adapter.connect_by_name("phantom", &[account(4, 4)]).unwrap();
    assert_eq!(event, WalletEvent::Connected(connected.duplicate()));
    assert!(adapter.is_connected());
    assert_eq!(adapter.connection_info().connected_wallet().unwrap().name(), "Phantom");
    assert_eq!(
        adapter.clusters(),
        Ok(vec![
            SolanaNetworkCluster::MainNet,
            SolanaNetworkCluster::DevNet,
            SolanaNetworkCluster::LocalNet,
            SolanaNetworkCluster::TestNet
        ])
    );
    assert_eq!(adapter.mainnet(), Ok(true));
    assert_eq!(adapter.devnet(), Ok(true));
    assert_eq!(adapter.testnet(), Ok(true));
    assert_eq!(adapter.localnet(), Ok(true));
    assert_eq!(adapter.standard_connect(), Ok(true));
    assert_eq!(adapter.standard_disconnect(), Ok(true));
    assert_eq!(adapter.standard_events(), Ok(true));
    assert_eq!(adapter.solana_signin(), Ok(false));
    assert_eq!(adapter.solana_sign_message(), Ok(true));
    assert_eq!(adapter.solana_sign_transaction(), Ok(true));
    assert_eq!(adapter.solana_sign_and_send_transaction(), Ok(false));
    assert_eq!(adapter.solana_sign_all_transactions(), Ok(false));

    assert_eq!(adapter.sign_message(b"m").unwrap().account, 4);
    assert_eq!(adapter.sign_transaction(&[1], None).unwrap().transaction, vec![1]);
    assert_eq!(
        adapter
            .sign_and_send_transaction(&[1], SolanaNetworkCluster::DevNet, SendOptions::default())
            .unwrap()
            .chain,
        "solana:devnet"
    );
    assert_eq!(
        adapter.sign_all_transactions(&[vec![1]], None).err(),
        Some(WalletError::MissingSignAllTransactionsFunction)
    );
    assert_eq!(
        adapter.sign_in(&SigninInput::new(), [0; 32]).err(),
        Some(WalletError::MissingSignInFunction)
    );

    assert_eq!(
        adapter.emit_wallet_event("Phantom", Some(wallet_account(5, 5))),
        Some(WalletEvent::AccountChanged(wallet_account(5, 5)))
    );
    assert_eq!(adapter.emit_wallet_event("Phantom", None), Some(WalletEvent::Disconnected));
    assert!(!adapter.is_connected());
    assert_eq!(adapter.sign_message(b"m").err(), Some(WalletError::AccountNotFound));
    assert_eq!(adapter.disconnect(), WalletEvent::Disconnected);
    assert_eq!(adapter.emit_wallet_event("Phantom", None), None);
    assert_eq!(adapter.wallets().len(), 1);
}

#[test]
fn wallet_answers() {
    let w = wallet("Phantom");
    assert_eq!(w.connect(&[]).err(), Some(WalletError::ConnectHasNoAccounts));
    assert_eq!(w.connect(&[account(2, 2)]).unwrap().handle(), 2);
    assert_eq!(w.disconnect(), Ok(()));
    assert_eq!(w.call_on_event(), Ok(()));
    assert_eq!(Wallet::default().disconnect(), Err(WalletError::MissingDisconnectFunction));
    assert_eq!(Wallet::default().call_on_event(), Err(WalletError::MissingStandardEventsFunction));
    assert_eq!(w.duplicate(), w);
    assert_eq!(WalletEvent::default(), WalletEvent::Skip);
}

#[test]
fn errors_of_plain_data_become_errors_of_the_adapter() {
    let pairs = [
        (WalletUtilsError::SystemTimeCheckedAddOverflow, WalletError::SystemTimeCheckedAddOverflow),
        (WalletUtilsError::ExpiryTimeEarlierThanIssuedTime, WalletError::ExpiryTimeEarlierThanIssuedTime),
        (WalletUtilsError::ExpirationTimeIsInThePast, WalletError::ExpirationTimeIsInThePast),
        (WalletUtilsError::NotBeforeTimeEarlierThanIssuedTime, WalletError::NotBeforeTimeEarlierThanIssuedTime),
        (WalletUtilsError::NotBeforeTimeIsInThePast, WalletError::NotBeforeTimeIsInThePast),
        (WalletUtilsError::NotBeforeTimeLaterThanExpirationTime, WalletError::NotBeforeTimeLaterThanExpirationTime),
        (
            WalletUtilsError::InvalidISO8601Timestamp("x".to_string()),
            WalletError::InvalidISO8601Timestamp("x".to_string()),
        ),
        (WalletUtilsError::InvalidBase58Address, WalletError::InvalidBase58Address),
        (WalletUtilsError::InvalidEd25519PublicKeyBytes, WalletError::InvalidEd25519PublicKeyBytes),
        (WalletUtilsError::InvalidSignature, WalletError::InvalidSignature),
        (WalletUtilsError::Expected64ByteLength, WalletError::Expected64ByteLength),
        (WalletUtilsError::Expected32ByteLength, WalletError::Expected32ByteLength),
        (WalletUtilsError::NonceMustBeAtLeast8Characters, WalletError::NonceMustBeAtLeast8Characters),
        (WalletUtilsError::MessageResponseMismatch, WalletError::MessageResponseMismatch),
    ];
    for (from, to) in pairs {
        assert_eq!(WalletError::from(from), to);
    }
}
