//! The features of a wallet, read from the entries of its `features`
//! object.
//!
//! An entry whose key begins with `standard:` or `solana:` must be one of
//! the eight features of the wallet standard, must tell its version and
//! must have the function that the feature is called by. Any other entry
//! is an extension of the wallet: its key is kept and nothing is asked of it.

use crate::adapter::errors::WalletError;
use crate::adapter::errors::WalletErrorView;
use crate::adapter::errors::WalletResult;
use crate::adapter::host::ReflectedFeature;
use crate::adapter::semver::parse_version;
use crate::adapter::semver::parsed_version;
use crate::adapter::sign_tx::feature_has_function;
use crate::adapter::sign_tx::has_function;
use crate::adapter::sign_tx::transaction_feature;
use crate::adapter::sign_tx::SignTransaction;
use crate::base::version::SemverVersion;
use crate::common::feature_support::no_features;
use crate::common::feature_support::FeatureSupport;
use crate::text::begins_with;
use crate::text::chars_of;
use crate::text::starts_with;
use crate::text::string_views;
use crate::text::text_equal;
use vstd::prelude::*;

verus! {

/// The feature `standard:connect` of a wallet.
#[derive(Debug, Clone, Copy, PartialEq, Eq, Structural, PartialOrd, Ord, Hash)]
pub struct Connect {
    /// The version of the feature.
    pub version: SemverVersion,
}

/// The feature `standard:disconnect` of a wallet.
#[derive(Debug, Clone, Copy, PartialEq, Eq, Structural, PartialOrd, Ord, Hash)]
pub struct Disconnect {
    /// The version of the feature.
    pub version: SemverVersion,
}

/// The feature `standard:events` of a wallet.
#[derive(Debug, Clone, Copy, PartialEq, Eq, Structural, PartialOrd, Ord, Hash)]
pub struct StandardEvents {
    /// The version of the feature.
    pub version: SemverVersion,
}

/// The feature `solana:signMessage` of a wallet.
#[derive(Debug, Clone, Copy, PartialEq, Eq, Structural, PartialOrd, Ord, Hash)]
pub struct SignMessage {
    /// The version of the feature.
    pub version: SemverVersion,
}

/// The feature `solana:signIn` of a wallet.
#[derive(Debug, Clone, Copy, PartialEq, Eq, Structural, PartialOrd, Ord, Hash)]
pub struct SignIn {
    /// The version of the feature.
    pub version: SemverVersion,
}

/// The features of a wallet with the keys of its extensions as character sequences.
pub struct FeaturesView {
    pub connect: Connect,
    pub disconnect: Disconnect,
    pub events: StandardEvents,
    pub sign_and_send_tx: SignTransaction,
    pub sign_tx: SignTransaction,
    pub sign_all_tx: Option<SignTransaction>,
    pub sign_message: SignMessage,
    pub sign_in: Option<SignIn>,
    pub extensions: Seq<Seq<char>>,
}

/// The features of a wallet that offers nothing: every feature at
/// version `1.0.0`, no transaction version supported, no extension.
pub open spec fn blank_features() -> FeaturesView {
    let version = SemverVersion::from_numbers(1, 0, 0);
    let transactions = SignTransaction { version, legacy: false, version_zero: false };
    FeaturesView {
        connect: Connect { version },
        disconnect: Disconnect { version },
        events: StandardEvents { version },
        sign_and_send_tx: transactions,
        sign_tx: transactions,
        sign_all_tx: None,
        sign_message: SignMessage { version },
        sign_in: None,
        extensions: Seq::empty(),
    }
}

/// Whether `key` belongs to the namespace `standard` or `solana`.
pub open spec fn is_namespaced(key: Seq<char>) -> bool {
    starts_with(key, "standard:"@) || starts_with(key, "solana:"@)
}

/// The version that the entry tells, or the reason why it tells none.
pub open spec fn feature_version(f: ReflectedFeature) -> Result<SemverVersion, WalletErrorView> {
    match f.version {
        None => Err(WalletErrorView::VersionNotFound),
        Some(text) => match parsed_version(text@) {
            Ok(numbers) => Ok(SemverVersion::from_numbers(numbers.0, numbers.1, numbers.2)),
            Err(e) => Err(e),
        },
    }
}

/// What a namespaced entry with the version `version` adds to the
/// features and flags read so far.
pub open spec fn apply_standard_feature(
    state: (FeaturesView, FeatureSupport),
    f: ReflectedFeature,
    version: SemverVersion,
) -> Result<(FeaturesView, FeatureSupport), WalletErrorView> {
    let key = f.key@;
    let features = state.0;
    let support = state.1;
    if key == "standard:connect"@ {
        if has_function(f, "connect"@) {
            Ok(
                (
                    FeaturesView { connect: Connect { version }, ..features },
                    FeatureSupport { connect: true, ..support },
                ),
            )
        } else {
            Err(WalletErrorView::MissingConnectFunction)
        }
    } else if key == "standard:disconnect"@ {
        if has_function(f, "disconnect"@) {
            Ok(
                (
                    FeaturesView { disconnect: Disconnect { version }, ..features },
                    FeatureSupport { disconnect: true, ..support },
                ),
            )
        } else {
            Err(WalletErrorView::MissingDisconnectFunction)
        }
    } else if key == "standard:events"@ {
        if has_function(f, "on"@) {
            Ok(
                (
                    FeaturesView { events: StandardEvents { version }, ..features },
                    FeatureSupport { events: true, ..support },
                ),
            )
        } else {
            Err(WalletErrorView::MissingStandardEventsFunction)
        }
    } else if key == "solana:signAndSendTransaction"@ {
        match transaction_feature(f, version, "signAndSendTransaction"@) {
            Ok(t) => Ok(
                (
                    FeaturesView { sign_and_send_tx: t, ..features },
                    FeatureSupport { sign_and_send_tx: true, ..support },
                ),
            ),
            Err(e) => Err(e),
        }
    } else if key == "solana:signTransaction"@ {
        match transaction_feature(f, version, "signTransaction"@) {
            Ok(t) => Ok(
                (
                    FeaturesView { sign_tx: t, ..features },
                    FeatureSupport { sign_tx: true, ..support },
                ),
            ),
            Err(e) => Err(e),
        }
    } else if key == "solana:signAllTransactions"@ {
        match transaction_feature(f, version, "signAllTransactions"@) {
            Ok(t) => Ok(
                (
                    FeaturesView { sign_all_tx: Some(t), ..features },
                    FeatureSupport { sign_all_tx: true, ..support },
                ),
            ),
            Err(e) => Err(e),
        }
    } else if key == "solana:signMessage"@ {
        if has_function(f, "signMessage"@) {
            Ok(
                (
                    FeaturesView { sign_message: SignMessage { version }, ..features },
                    FeatureSupport { sign_message: true, ..support },
                ),
            )
        } else {
            Err(WalletErrorView::MissingSignMessageFunction)
        }
    } else if key == "solana:signIn"@ {
        if has_function(f, "signIn"@) {
            Ok(
                (
                    FeaturesView { sign_in: Some(SignIn { version }), ..features },
                    FeatureSupport { sign_in: true, ..support },
                ),
            )
        } else {
            Err(WalletErrorView::MissingSignInFunction)
        }
    } else {
        Err(WalletErrorView::UnsupportedWalletFeature(key))
    }
}

/// What one entry adds to the features and flags read so far.
pub open spec fn apply_feature(state: (FeaturesView, FeatureSupport), f: ReflectedFeature)
    -> Result<(FeaturesView, FeatureSupport), WalletErrorView> {
    if is_namespaced(f.key@) {
        match feature_version(f) {
            Ok(version) => apply_standard_feature(state, f, version),
            Err(e) => Err(e),
        }
    } else {
        Ok((FeaturesView { extensions: state.0.extensions.push(f.key@), ..state.0 }, state.1))
    }
}

/// What the entries from `from` on add, in order. The first entry that
/// is refused ends the reading.
pub open spec fn apply_features(
    state: (FeaturesView, FeatureSupport),
    entries: Seq<ReflectedFeature>,
    from: int,
) -> Result<(FeaturesView, FeatureSupport), WalletErrorView>
    decreases entries.len() - from,
{
    if 0 <= from < entries.len() {
        match apply_feature(state, entries[from]) {
            Ok(next) => apply_features(next, entries, from + 1),
            Err(e) => Err(e),
        }
    } else {
        Ok(state)
    }
}

/// The features and flags that the entries of a `features` object make.
pub open spec fn parsed_features(entries: Seq<ReflectedFeature>) -> Result<
    (FeaturesView, FeatureSupport),
    WalletErrorView,
> {
    apply_features((blank_features(), no_features()), entries, 0)
}

/// An entry outside the two namespaces is never refused: its key joins
/// the extensions, and the flags stay as they are.
pub proof fn law_extensions_are_tolerated(
    state: (FeaturesView, FeatureSupport),
    f: ReflectedFeature,
)
    requires
        !is_namespaced(f.key@),
    ensures
        apply_feature(state, f) == Ok::<(FeaturesView, FeatureSupport), WalletErrorView>(
            (FeaturesView { extensions: state.0.extensions.push(f.key@), ..state.0 }, state.1),
        ),
{
}

/// An entry inside the two namespaces that tells its version and is none
/// of the eight features is refused, and the error names its key.
pub proof fn law_unknown_feature_is_refused(
    state: (FeaturesView, FeatureSupport),
    f: ReflectedFeature,
)
    requires
        is_namespaced(f.key@),
        feature_version(f) is Ok,
        !crate::adapter::wallet_account::is_standard_feature(f.key@),
    ensures
        apply_feature(state, f) == Err::<(FeaturesView, FeatureSupport), WalletErrorView>(
            WalletErrorView::UnsupportedWalletFeature(f.key@),
        ),
{
}

/// One refused entry makes the whole reading fail.
pub proof fn law_all_or_nothing(entries: Seq<ReflectedFeature>, k: int)
    requires
        0 <= k < entries.len(),
        forall|state: (FeaturesView, FeatureSupport)| apply_feature(state, entries[k]) is Err,
    ensures
        parsed_features(entries) is Err,
{
    lemma_refused_entry(((blank_features(), no_features())), entries, 0, k);
}

proof fn lemma_refused_entry(
    state: (FeaturesView, FeatureSupport),
    entries: Seq<ReflectedFeature>,
    from: int,
    k: int,
)
    requires
        0 <= from <= k < entries.len(),
        forall|state: (FeaturesView, FeatureSupport)| apply_feature(state, entries[k]) is Err,
    ensures
        apply_features(state, entries, from) is Err,
    decreases k - from,
{
    if from < k {
        match apply_feature(state, entries[from]) {
            Ok(next) => {
                lemma_refused_entry(next, entries, from + 1, k);
            },
            Err(_) => {},
        }
    }
}

/// The features of a wallet.
#[derive(Debug, Clone, PartialEq, Eq)]
pub struct Features {
    /// `standard:connect`
    pub(crate) connect: Connect,
    /// `standard:disconnect`
    pub(crate) disconnect: Disconnect,
    /// `standard:events`
    pub(crate) events: StandardEvents,
    /// `solana:signAndSendTransaction`
    pub(crate) sign_and_send_tx: SignTransaction,
    /// `solana:signTransaction`
    pub(crate) sign_tx: SignTransaction,
    /// `solana:signAllTransactions`
    pub(crate) sign_all_tx: Option<SignTransaction>,
    /// `solana:signMessage`
    pub(crate) sign_message: SignMessage,
    /// `solana:signIn`
    pub(crate) sign_in: Option<SignIn>,
    /// The keys of the entries outside the two namespaces.
    pub(crate) extensions: Vec<String>,
}

impl View for Features {
    type V = FeaturesView;

    closed spec fn view(&self) -> FeaturesView {
        FeaturesView {
            connect: self.connect,
            disconnect: self.disconnect,
            events: self.events,
            sign_and_send_tx: self.sign_and_send_tx,
            sign_tx: self.sign_tx,
            sign_all_tx: self.sign_all_tx,
            sign_message: self.sign_message,
            sign_in: self.sign_in,
            extensions: string_views(self.extensions@),
        }
    }
}

impl Default for Features {
    /// The features of a wallet that offers nothing.
    fn default() -> (features: Features)
        ensures
            features@ == blank_features(),
    {
        let version = SemverVersion::new();
        proof {
            version.lemma_from_numbers();
        }
        let transactions = SignTransaction { version, legacy: false, version_zero: false };
        let features = Features {
            connect: Connect { version },
            disconnect: Disconnect { version },
            events: StandardEvents { version },
            sign_and_send_tx: transactions,
            sign_tx: transactions,
            sign_all_tx: None,
            sign_message: SignMessage { version },
            sign_in: None,
            extensions: Vec::new(),
        };
        proof {
            assert(string_views(features.extensions@) =~= Seq::empty());
        }
        features
    }
}

/// Decides `is_namespaced`.
pub fn key_is_namespaced(key: &str) -> (r: bool)
    ensures
        r == is_namespaced(key@),
{
    let chars = chars_of(key);
    let standard = chars_of("standard:");
    let solana = chars_of("solana:");
    begins_with(chars.as_slice(), standard.as_slice()) || begins_with(
        chars.as_slice(),
        solana.as_slice(),
    )
}

/// Reads the version of an entry.
pub fn read_feature_version(f: &ReflectedFeature) -> (r: WalletResult<SemverVersion>)
    ensures
        match feature_version(*f) {
            Ok(version) => r == Ok::<SemverVersion, WalletError>(version),
            Err(e) => r matches Err(x) && x@ == e,
        },
{
    match &f.version {
        None => Err(WalletError::VersionNotFound),
        Some(text) => match parse_version(text.as_str()) {
            Ok(version) => {
                proof {
                    version.lemma_from_numbers();
                }
                Ok(version)
            },
            Err(e) => Err(e),
        },
    }
}

impl Connect {
    /// Reads the feature `standard:connect`, which needs a function `connect`.
    pub fn new(feature: &ReflectedFeature, version: SemverVersion) -> (r: WalletResult<Connect>)
        ensures
            if has_function(*feature, "connect"@) {
                r == Ok::<Connect, WalletError>(Connect { version })
            } else {
                r matches Err(e) && e@ == WalletErrorView::MissingConnectFunction
            },
    {
        if feature_has_function(feature, "connect") {
            Ok(Connect { version })
        } else {
            Err(WalletError::MissingConnectFunction)
        }
    }
}

impl Disconnect {
    /// Reads the feature `standard:disconnect`, which needs a function `disconnect`.
    pub fn new(feature: &ReflectedFeature, version: SemverVersion) -> (r: WalletResult<
        Disconnect,
    >)
        ensures
            if has_function(*feature, "disconnect"@) {
                r == Ok::<Disconnect, WalletError>(Disconnect { version })
            } else {
                r matches Err(e) && e@ == WalletErrorView::MissingDisconnectFunction
            },
    {
        if feature_has_function(feature, "disconnect") {
            Ok(Disconnect { version })
        } else {
            Err(WalletError::MissingDisconnectFunction)
        }
    }
}

impl StandardEvents {
    /// Reads the feature `standard:events`, which needs a function `on`.
    pub fn new(feature: &ReflectedFeature, version: SemverVersion) -> (r: WalletResult<
        StandardEvents,
    >)
        ensures
            if has_function(*feature, "on"@) {
                r == Ok::<StandardEvents, WalletError>(StandardEvents { version })
            } else {
                r matches Err(e) && e@ == WalletErrorView::MissingStandardEventsFunction
            },
    {
        if feature_has_function(feature, "on") {
            Ok(StandardEvents { version })
        } else {
            Err(WalletError::MissingStandardEventsFunction)
        }
    }
}

impl SignMessage {
    /// Reads the feature `solana:signMessage`, which needs a function `signMessage`.
    pub fn new(feature: &ReflectedFeature, version: SemverVersion) -> (r: WalletResult<
        SignMessage,
    >)
        ensures
            if has_function(*feature, "signMessage"@) {
                r == Ok::<SignMessage, WalletError>(SignMessage { version })
            } else {
                r matches Err(e) && e@ == WalletErrorView::MissingSignMessageFunction
            },
    {
        if feature_has_function(feature, "signMessage") {
            Ok(SignMessage { version })
        } else {
            Err(WalletError::MissingSignMessageFunction)
        }
    }
}

impl SignIn {
    /// Reads the feature `solana:signIn`, which needs a function `signIn`.
    pub fn new(feature: &ReflectedFeature, version: SemverVersion) -> (r: WalletResult<SignIn>)
        ensures
            if has_function(*feature, "signIn"@) {
                r == Ok::<SignIn, WalletError>(SignIn { version })
            } else {
                r matches Err(e) && e@ == WalletErrorView::MissingSignInFunction
            },
    {
        if feature_has_function(feature, "signIn") {
            Ok(SignIn { version })
        } else {
            Err(WalletError::MissingSignInFunction)
        }
    }
}

impl Features {
    /// Reads one namespaced entry into `self` and `support`.
    fn read_standard_feature(
        &mut self,
        support: &mut FeatureSupport,
        feature: &ReflectedFeature,
        version: SemverVersion,
    ) -> (r: WalletResult<()>)
        ensures
            match apply_standard_feature((old(self)@, *old(support)), *feature, version) {
                Ok(next) => r is Ok && final(self)@ == next.0 && *final(support) == next.1,
                Err(e) => r matches Err(x) && x@ == e,
            },
    {
        let key = feature.key.as_str();
        if text_equal(key, "standard:connect") {
            self.connect = Connect::new(feature, version)?;
            support.connect = true;
        } else if text_equal(key, "standard:disconnect") {
            self.disconnect = Disconnect::new(feature, version)?;
            support.disconnect = true;
        } else if text_equal(key, "standard:events") {
            self.events = StandardEvents::new(feature, version)?;
            support.events = true;
        } else if text_equal(key, "solana:signAndSendTransaction") {
            self.sign_and_send_tx = SignTransaction::new_sign_and_send_tx(feature, version)?;
            support.sign_and_send_tx = true;
        } else if text_equal(key, "solana:signTransaction") {
            self.sign_tx = SignTransaction::new_sign_tx(feature, version)?;
            support.sign_tx = true;
        } else if text_equal(key, "solana:signAllTransactions") {
            self.sign_all_tx = Some(SignTransaction::new_sign_all_tx(feature, version)?);
            support.sign_all_tx = true;
        } else if text_equal(key, "solana:signMessage") {
            self.sign_message = SignMessage::new(feature, version)?;
            support.sign_message = true;
        } else if text_equal(key, "solana:signIn") {
            self.sign_in = Some(SignIn::new(feature, version)?);
            support.sign_in = true;
        } else {
            return Err(WalletError::UnsupportedWalletFeature(feature.key.clone()));
        }
        Ok(())
    }

    /// Reads the entries of the `features` object of a wallet. One entry
    /// that is refused makes the whole reading fail.
    pub fn parse(entries: &Vec<ReflectedFeature>) -> (r: WalletResult<(Features, FeatureSupport)>)
        ensures
            match parsed_features(entries@) {
                Ok(state) => r matches Ok(read) && read.0@ == state.0 && read.1 == state.1,
                Err(e) => r matches Err(x) && x@ == e,
            },
    {
        let mut features = Features::default();
        let mut support = FeatureSupport::default();
        let n: usize = entries.len();
        let mut i: usize = 0;
        while i < n
            invariant
                n == entries@.len(),
                i <= n,
                parsed_features(entries@) == apply_features((features@, support), entries@, i as int),
            decreases n - i,
        {
            let feature = &entries[i];
            if key_is_namespaced(feature.key.as_str()) {
                let version = read_feature_version(feature)?;
                features.read_standard_feature(&mut support, feature, version)?;
            } else {
                let ghost before = features.extensions@;
                features.extensions.push(feature.key.clone());
                proof {
                    assert(string_views(features.extensions@) =~= string_views(before).push(
                        feature.key@,
                    ));
                }
            }
            i += 1;
        }
        Ok((features, support))
    }

    /// The feature `standard:connect`.
    pub fn connect(&self) -> (r: Connect)
        ensures
            r == self@.connect,
    {
        self.connect
    }

    /// The feature `standard:disconnect`.
    pub fn disconnect(&self) -> (r: Disconnect)
        ensures
            r == self@.disconnect,
    {
        self.disconnect
    }

    /// The feature `standard:events`.
    pub fn events(&self) -> (r: StandardEvents)
        ensures
            r == self@.events,
    {
        self.events
    }

    /// The feature `solana:signAndSendTransaction`.
    pub fn sign_and_send_tx(&self) -> (r: SignTransaction)
        ensures
            r == self@.sign_and_send_tx,
    {
        self.sign_and_send_tx
    }

    /// The feature `solana:signTransaction`.
    pub fn sign_tx(&self) -> (r: SignTransaction)
        ensures
            r == self@.sign_tx,
    {
        self.sign_tx
    }

    /// The feature `solana:signAllTransactions`, where the wallet has it.
    pub fn sign_all_tx(&self) -> (r: Option<SignTransaction>)
        ensures
            r == self@.sign_all_tx,
    {
        self.sign_all_tx
    }

    /// The feature `solana:signMessage`.
    pub fn sign_message(&self) -> (r: SignMessage)
        ensures
            r == self@.sign_message,
    {
        self.sign_message
    }

    /// The feature `solana:signIn`, where the wallet has it.
    pub fn sign_in(&self) -> (r: Option<SignIn>)
        ensures
            r == self@.sign_in,
    {
        self.sign_in
    }

    /// The keys of the entries outside the two namespaces, in their order.
    pub fn extensions(&self) -> (r: &[String])
        ensures
            string_views(r@) == self@.extensions,
    {
        self.extensions.as_slice()
    }

    /// A copy of the features.
    pub fn duplicate(&self) -> (copy: Features)
        ensures
            copy@ == self@,
    {
        Features {
            connect: self.connect,
            disconnect: self.disconnect,
            events: self.events,
            sign_and_send_tx: self.sign_and_send_tx,
            sign_tx: self.sign_tx,
            sign_all_tx: self.sign_all_tx,
            sign_message: self.sign_message,
            sign_in: self.sign_in,
            extensions: crate::text::clone_texts(&self.extensions),
        }
    }
}

} // verus!
