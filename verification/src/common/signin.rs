//! The input of a Sign-In-With-Solana request with typed fields: the
//! chain as a cluster, the times as instants.
//!
//! The time fields are checked when they are set, against the fields that
//! are set by then: the order of the calls decides which check is made.

use crate::base::sign_in::as_opt_str;
use crate::codec::base58_decoded_len;
use crate::codec::decode_base58_len;
use crate::codec::hex_text;
use crate::codec::nonce_from_entropy;
use crate::codec::os_random_bytes;
use crate::codec::sha3_256;
use crate::common::account::WalletAccountData;
use crate::common::clusters::cluster_named;
use crate::common::clusters::SolanaNetworkCluster;
use crate::common::errors::WalletUtilsError;
use crate::common::errors::WalletUtilsResult;
use crate::message::opt_time_view;
use crate::message::parse;
use crate::message::render;
use crate::message::write_message;
use crate::round_trip::begins_with_dash;
use crate::round_trip::law_message_round_trip;
use crate::round_trip::mentions_no_label;
use crate::round_trip::plain;
use crate::round_trip::plain_if_set;
use crate::text::trim;
use crate::time::rfc3339_instant;
use crate::base::clusters::Cluster;
use crate::message::read_message;
use crate::message::Fields;
use crate::message::MessageFields;
use crate::message::TimeField;
use crate::message::TimeText;
use crate::text::opt_str_view;
use crate::text::opt_text_equal;
use crate::text::opt_view;
use crate::text::str_views;
use crate::text::string_views;
use crate::text::texts_equal;
use crate::time::opt_instant;
use crate::time::representable;
use crate::time::rfc3339_millis_text;
use crate::time::TimeSpan;
use crate::time::Timestamp;
use vstd::prelude::*;
use vstd::string::StringSliceAdditionalSpecFns;

verus! {

/// The fields of a [`SigninInput`]: texts as character sequences, times
/// in nanoseconds since the epoch.
pub struct SigninInputView {
    pub domain: Option<Seq<char>>,
    pub address: Option<Seq<char>>,
    pub statement: Option<Seq<char>>,
    pub uri: Option<Seq<char>>,
    pub version: Option<Seq<char>>,
    pub chain_id: Option<SolanaNetworkCluster>,
    pub nonce: Option<Seq<char>>,
    pub issued_at: Option<nat>,
    pub expiration_time: Option<nat>,
    pub not_before: Option<nat>,
    pub request_id: Option<Seq<char>>,
    pub resources: Seq<Seq<char>>,
}

/// The view of an input on which nothing has been set.
pub open spec fn empty_view() -> SigninInputView {
    SigninInputView {
        domain: None,
        address: None,
        statement: None,
        uri: None,
        version: None,
        chain_id: None,
        nonce: None,
        issued_at: None,
        expiration_time: None,
        not_before: None,
        request_id: None,
        resources: Seq::empty(),
    }
}

/// The instant of a timestamp field of a message.
pub open spec fn time_instant(field: Option<TimeText>) -> Option<nat> {
    match field {
        Some(t) => Some(t.instant),
        None => None,
    }
}

/// The cluster that the chain field of a message names.
pub open spec fn chain_cluster(field: Option<Seq<char>>) -> Option<SolanaNetworkCluster> {
    match field {
        Some(text) => Some(cluster_named(text)),
        None => None,
    }
}

/// The input that the fields of a message make.
pub open spec fn view_of_fields(f: Fields) -> SigninInputView {
    SigninInputView {
        domain: f.domain,
        address: f.address,
        statement: f.statement,
        uri: f.uri,
        version: f.version,
        chain_id: chain_cluster(f.chain_id),
        nonce: f.nonce,
        issued_at: time_instant(f.issued_at),
        expiration_time: time_instant(f.expiration_time),
        not_before: time_instant(f.not_before),
        request_id: f.request_id,
        resources: f.resources,
    }
}

/// What reading the message `input` gives: the input it describes, or the
/// text of the first timestamp in it that cannot be read.
pub open spec fn parsed(input: Seq<char>) -> Result<SigninInputView, Seq<char>> {
    match parse(input) {
        Ok(f) => Ok(view_of_fields(f)),
        Err(raw) => Err(raw),
    }
}

/// Whether the expiration time `expiry` may be set on `v` at the time `now`.
pub open spec fn expiration_check(v: SigninInputView, now: nat, expiry: nat) -> Result<
    (),
    WalletUtilsError,
> {
    if v.issued_at is Some && v.issued_at->0 > expiry {
        Err(WalletUtilsError::ExpiryTimeEarlierThanIssuedTime)
    } else if now > expiry {
        Err(WalletUtilsError::ExpirationTimeIsInThePast)
    } else {
        Ok(())
    }
}

/// Whether the not-before time `not_before` may be set on `v` at the time `now`.
pub open spec fn not_before_check(v: SigninInputView, now: nat, not_before: nat) -> Result<
    (),
    WalletUtilsError,
> {
    if v.issued_at is Some && v.issued_at->0 > not_before {
        Err(WalletUtilsError::NotBeforeTimeEarlierThanIssuedTime)
    } else if now > not_before {
        Err(WalletUtilsError::NotBeforeTimeIsInThePast)
    } else if v.expiration_time is Some && not_before > v.expiration_time->0 {
        Err(WalletUtilsError::NotBeforeTimeLaterThanExpirationTime)
    } else {
        Ok(())
    }
}

/// The instant that lies `span` after the time of issue, or `now` where no
/// time of issue is set.
pub open spec fn instant_after_issue(v: SigninInputView, now: nat, span: nat) -> Result<
    nat,
    WalletUtilsError,
> {
    match v.issued_at {
        Some(issued) => if representable((issued + span) as int) {
            Ok(issued + span)
        } else {
            Err(WalletUtilsError::SystemTimeCheckedAddOverflow)
        },
        None => Ok(now),
    }
}

/// What setting the expiration time `expiry` on `v` at the time `now` gives.
pub open spec fn with_expiration(v: SigninInputView, now: nat, expiry: nat) -> Result<
    SigninInputView,
    WalletUtilsError,
> {
    match expiration_check(v, now, expiry) {
        Ok(()) => Ok(SigninInputView { expiration_time: Some(expiry), ..v }),
        Err(e) => Err(e),
    }
}

/// What setting the not-before time `not_before` on `v` at the time `now` gives.
pub open spec fn with_not_before(v: SigninInputView, now: nat, not_before: nat) -> Result<
    SigninInputView,
    WalletUtilsError,
> {
    match not_before_check(v, now, not_before) {
        Ok(()) => Ok(SigninInputView { not_before: Some(not_before), ..v }),
        Err(e) => Err(e),
    }
}

/// What setting the expiration time `span` after the time of issue gives.
pub open spec fn with_expiration_after(v: SigninInputView, now: nat, span: nat) -> Result<
    SigninInputView,
    WalletUtilsError,
> {
    match instant_after_issue(v, now, span) {
        Ok(expiry) => with_expiration(v, now, expiry),
        Err(e) => Err(e),
    }
}

/// What setting the not-before time `span` after the time of issue gives.
pub open spec fn with_not_before_after(v: SigninInputView, now: nat, span: nat) -> Result<
    SigninInputView,
    WalletUtilsError,
> {
    match instant_after_issue(v, now, span) {
        Ok(not_before) => with_not_before(v, now, not_before),
        Err(e) => Err(e),
    }
}

/// A timestamp field of a message that carries the instant `instant`: a
/// space and the RFC 3339 text of the instant.
pub open spec fn time_field_of(instant: nat) -> TimeText {
    TimeText { raw: seq![' '] + rfc3339_millis_text(instant), instant }
}

/// The fields of the message that says what `v` holds.
pub open spec fn fields_of(v: SigninInputView) -> Fields {
    Fields {
        domain: v.domain,
        address: v.address,
        statement: v.statement,
        uri: v.uri,
        version: v.version,
        chain_id: match v.chain_id {
            Some(cluster) => Some(cluster.chain_text()),
            None => None,
        },
        nonce: v.nonce,
        issued_at: match v.issued_at {
            Some(instant) => Some(time_field_of(instant)),
            None => None,
        },
        expiration_time: match v.expiration_time {
            Some(instant) => Some(time_field_of(instant)),
            None => None,
        },
        not_before: match v.not_before {
            Some(instant) => Some(time_field_of(instant)),
            None => None,
        },
        request_id: v.request_id,
        resources: v.resources,
    }
}

/// The message that says what `v` holds.
pub open spec fn rendered(v: SigninInputView) -> Seq<char> {
    render(fields_of(v))
}

/// Whether the RFC 3339 text of the instant can be written into a
/// message and read back: it holds no line feed and no label, trimming
/// leaves it as it is, and it reads as the instant.
pub open spec fn time_reads_back(instant: nat) -> bool {
    let text = rfc3339_millis_text(instant);
    !text.contains('\n') && mentions_no_label(text) && trim(text) == text && rfc3339_instant(text)
        == Some(instant)
}

/// Whether an optional instant is absent or can be read back.
pub open spec fn time_reads_back_if_set(instant: Option<nat>) -> bool {
    instant matches Some(t) ==> time_reads_back(t)
}

/// Whether the message that says what `v` holds reads back as `v`: the
/// domain, the address and the statement are set; every text is plain;
/// the domain holds no space; neither the domain nor the address nor the
/// statement begins with a dash; no resource holds a dash; and the text
/// of every instant can be read back.
pub open spec fn reads_back(v: SigninInputView) -> bool {
    &&& v.domain is Some && plain(v.domain->0) && !v.domain->0.contains(' ') && !begins_with_dash(
        v.domain->0,
    )
    &&& v.address is Some && plain(v.address->0) && !begins_with_dash(v.address->0)
    &&& v.statement is Some && plain(v.statement->0) && !begins_with_dash(v.statement->0)
    &&& plain_if_set(v.uri)
    &&& plain_if_set(v.version)
    &&& plain_if_set(v.nonce)
    &&& time_reads_back_if_set(v.issued_at)
    &&& time_reads_back_if_set(v.expiration_time)
    &&& time_reads_back_if_set(v.not_before)
    &&& plain_if_set(v.request_id)
    &&& forall|i: int|
        0 <= i < v.resources.len() ==> plain(#[trigger] v.resources[i]) && !v.resources[i].contains(
            '-',
        )
}

/// The chain identifier of a cluster is plain, and names the cluster.
pub proof fn lemma_chain_text(cluster: SolanaNetworkCluster)
    ensures
        plain(cluster.chain_text()),
        cluster_named(cluster.chain_text()) == cluster,
{
    let text = cluster.chain_text();
    reveal_strlit("solana:mainnet");
    reveal_strlit("solana:testnet");
    reveal_strlit("solana:devnet");
    reveal_strlit("solana:localnet");
    reveal_strlit("mainnet");
    reveal_strlit("testnet");
    reveal_strlit("localnet");
    reveal_strlit("https://api.mainnet-beta.solana.com");
    reveal_strlit("https://api.testnet.solana.com");
    reveal_strlit("http://localhost:8899");
    assert(text[0] == 's');
    assert(text[7] == 'm' || text[7] == 't' || text[7] == 'd' || text[7] == 'l');
    assert("mainnet"@[0] == 'm');
    assert("testnet"@[0] == 't');
    assert("localnet"@[0] == 'l');
    assert("https://api.mainnet-beta.solana.com"@[0] == 'h');
    assert("https://api.testnet.solana.com"@[0] == 'h');
    assert("http://localhost:8899"@[0] == 'h');
    assert("solana:mainnet"@[7] == 'm');
    assert("solana:testnet"@[7] == 't');
    assert("solana:localnet"@[7] == 'l');
    assert("solana:devnet"@[7] == 'd');
    crate::round_trip::lemma_no_initial_no_label(text);
    crate::text::lemma_trim_identity(text);
}

/// A timestamp field made from an instant whose text can be read back is plain.
pub proof fn lemma_time_field(instant: nat)
    requires
        time_reads_back(instant),
    ensures
        crate::round_trip::plain_time(time_field_of(instant)),
{
    let text = rfc3339_millis_text(instant);
    let raw = seq![' '] + text;
    crate::round_trip::lemma_space_mentions_no_label(text);
    crate::round_trip::lemma_trim_after_space(text);
    if raw.contains('\n') {
        let i = choose|i: int| 0 <= i < raw.len() && raw[i] == '\n';
        if i > 0 {
            assert(text[i - 1] == '\n');
        }
    }
}

/// Writing an input that reads back and reading the message gives the
/// input again.
pub proof fn law_round_trip(v: SigninInputView)
    requires
        reads_back(v),
    ensures
        parsed(rendered(v)) == Ok::<SigninInputView, Seq<char>>(v),
{
    let f = fields_of(v);
    if v.chain_id is Some {
        lemma_chain_text(v.chain_id->0);
    }
    if v.issued_at is Some {
        lemma_time_field(v.issued_at->0);
    }
    if v.expiration_time is Some {
        lemma_time_field(v.expiration_time->0);
    }
    if v.not_before is Some {
        lemma_time_field(v.not_before->0);
    }
    assert(crate::round_trip::reads_back(f));
    law_message_round_trip(f);
    assert(view_of_fields(f) == v);
}

/// Of two inputs that read back, the message of the one reads back as
/// the other only if they are the same: a field that is changed before
/// the message is written is found out when the message is read.
pub proof fn law_changed_field_is_found(v: SigninInputView, changed: SigninInputView)
    requires
        reads_back(changed),
        changed != v,
    ensures
        parsed(rendered(changed)) is Ok,
        parsed(rendered(changed))->Ok_0 != v,
{
    law_round_trip(changed);
}

/// With the time of issue set to `issued`, an expiration time that lies
/// `later` after it is accepted as long as it does not lie before `now`,
/// and is refused as lying in the past where it does. An expiration time
/// that lies `earlier` before the time of issue, by however little, is
/// refused as earlier than the time of issue.
pub proof fn law_expiration_after_issue(
    v: SigninInputView,
    now: nat,
    issued: nat,
    later: nat,
    earlier: nat,
)
    requires
        v.issued_at == Some(issued),
        0 < earlier <= issued,
    ensures
        now <= issued + later ==> with_expiration(v, now, issued + later) == Ok::<
            SigninInputView,
            WalletUtilsError,
        >(SigninInputView { expiration_time: Some(issued + later), ..v }),
        now > issued + later ==> with_expiration(v, now, issued + later) == Err::<
            SigninInputView,
            WalletUtilsError,
        >(WalletUtilsError::ExpirationTimeIsInThePast),
        with_expiration(v, now, (issued - earlier) as nat) == Err::<
            SigninInputView,
            WalletUtilsError,
        >(WalletUtilsError::ExpiryTimeEarlierThanIssuedTime),
{
}

/// A not-before time between the time of issue and the expiration time,
/// and not before `now`, is accepted; outside that window it is refused.
pub proof fn law_not_before_window(v: SigninInputView, now: nat, not_before: nat)
    requires
        v.issued_at is Some,
        v.expiration_time is Some,
    ensures
        with_not_before(v, now, not_before) is Ok <==> v.issued_at->0 <= not_before
            <= v.expiration_time->0 && now <= not_before,
{
}

/// The parameters of a Sign-In-With-Solana request. Every field is
/// optional; a wallet leaves out of the message what is not set.
#[derive(Debug, Clone, PartialEq, Eq, PartialOrd, Ord, Hash)]
pub struct SigninInput {
    domain: Option<String>,
    address: Option<String>,
    statement: Option<String>,
    uri: Option<String>,
    version: Option<String>,
    chain_id: Option<SolanaNetworkCluster>,
    nonce: Option<String>,
    issued_at: Option<Timestamp>,
    expiration_time: Option<Timestamp>,
    not_before: Option<Timestamp>,
    request_id: Option<String>,
    resources: Vec<String>,
}

impl View for SigninInput {
    type V = SigninInputView;

    closed spec fn view(&self) -> SigninInputView {
        SigninInputView {
            domain: opt_view(self.domain),
            address: opt_view(self.address),
            statement: opt_view(self.statement),
            uri: opt_view(self.uri),
            version: opt_view(self.version),
            chain_id: self.chain_id,
            nonce: opt_view(self.nonce),
            issued_at: opt_instant(self.issued_at),
            expiration_time: opt_instant(self.expiration_time),
            not_before: opt_instant(self.not_before),
            request_id: opt_view(self.request_id),
            resources: string_views(self.resources@),
        }
    }
}

impl Default for SigninInput {
    /// An input on which nothing is set.
    fn default() -> (input: SigninInput)
        ensures
            input@ == empty_view(),
    {
        SigninInput::new()
    }
}

/// What becomes of an address, given how many bytes its Base58 text
/// decodes to, or `None` where the text does not decode into 32 bytes.
pub open spec fn address_outcome(decoded: Option<usize>) -> Result<(), WalletUtilsError> {
    match decoded {
        None => Err(WalletUtilsError::InvalidBase58Address),
        Some(n) => if n == 32 {
            Ok(())
        } else {
            Err(WalletUtilsError::Expected32ByteLength)
        },
    }
}

/// Decides whether an address is accepted, given how many bytes its
/// Base58 text decodes to, or `None` where the text does not decode
/// into 32 bytes.
pub fn check_decoded_address(decoded: Option<usize>) -> (r: WalletUtilsResult<()>)
    ensures
        r == address_outcome(decoded),
{
    match decoded {
        None => Err(WalletUtilsError::InvalidBase58Address),
        Some(written) => {
            if written != 32 {
                return Err(WalletUtilsError::Expected32ByteLength);
            }
            Ok(())
        },
    }
}

/// Whether two optional timestamps are both absent or the same instant.
fn opt_time_equal(a: &Option<Timestamp>, b: &Option<Timestamp>) -> (r: bool)
    ensures
        r == (opt_instant(*a) == opt_instant(*b)),
{
    match (a, b) {
        (Some(x), Some(y)) => !x.is_after(y) && !y.is_after(x),
        (None, None) => true,
        _ => false,
    }
}

/// Whether two optional clusters are both absent or the same cluster.
fn opt_cluster_equal(a: &Option<SolanaNetworkCluster>, b: &Option<SolanaNetworkCluster>) -> (r:
    bool)
    ensures
        r == (*a == *b),
{
    match (a, b) {
        (Some(x), Some(y)) => *x == *y,
        (None, None) => true,
        _ => false,
    }
}

/// The instant of an optional timestamp field.
fn instant_of(field: Option<TimeField>) -> (r: Option<Timestamp>)
    ensures
        opt_instant(r) == time_instant(opt_time_view(field)),
{
    match field {
        Some(t) => Some(t.instant),
        None => None,
    }
}

/// The cluster that an optional chain text names.
fn cluster_of(field: &Option<String>) -> (r: Option<SolanaNetworkCluster>)
    ensures
        r == chain_cluster(opt_view(*field)),
{
    match field {
        Some(text) => Some(SolanaNetworkCluster::from_name(text.as_str())),
        None => None,
    }
}

/// The timestamp field of a message for an optional timestamp.
fn written_time(time: &Option<Timestamp>) -> (r: Option<TimeField>)
    ensures
        opt_time_view(r) == match opt_instant(*time) {
            Some(instant) => Some(time_field_of(instant)),
            None => None,
        },
{
    match time {
        Some(t) => {
            let mut raw: Vec<char> = Vec::new();
            raw.push(' ');
            let text = crate::text::chars_of(t.to_rfc3339_millis().as_str());
            let n: usize = text.len();
            let mut i: usize = 0;
            while i < n
                invariant
                    n == text@.len(),
                    i <= n,
                    raw@ == seq![' '] + text@.subrange(0, i as int),
                decreases n - i,
            {
                raw.push(text[i]);
                proof {
                    assert(raw@ =~= seq![' '] + text@.subrange(0, i + 1));
                }
                i += 1;
            }
            proof {
                assert(text@.subrange(0, n as int) =~= text@);
            }
            Some(TimeField { raw: crate::text::string_of(raw.as_slice()), instant: *t })
        },
        None => None,
    }
}

/// The RFC 3339 text of an optional timestamp.
fn iso8601_of(time: &Option<Timestamp>) -> (r: Option<String>)
    ensures
        opt_view(r) == match opt_instant(*time) {
            Some(instant) => Some(rfc3339_millis_text(instant)),
            None => None,
        },
{
    match time {
        Some(t) => Some(t.to_rfc3339_millis()),
        None => None,
    }
}

impl SigninInput {
    /// An input on which nothing is set.
    pub fn new() -> (input: SigninInput)
        ensures
            input@ == empty_view(),
    {
        let input = SigninInput {
            domain: None,
            address: None,
            statement: None,
            uri: None,
            version: None,
            chain_id: None,
            nonce: None,
            issued_at: None,
            expiration_time: None,
            not_before: None,
            request_id: None,
            resources: Vec::new(),
        };
        proof {
            assert(string_views(input.resources@) =~= Seq::empty());
        }
        input
    }

    /// Sets the domain that requests the sign-in.
    pub fn set_domain(&mut self, domain: &str) -> (ret: &mut Self)
        ensures
            ret@ == (SigninInputView { domain: Some(domain@), ..old(self)@ }),
            *final(self) == *final(ret),
    {
        self.domain = Some(domain.to_owned());
        self
    }

    /// Sets the address that signs in. The address must be the Base58 form
    /// of 32 bytes; any other text is refused and leaves the input as it was.
    pub fn set_address(&mut self, address: &str) -> (r: WalletUtilsResult<&mut Self>)
        ensures
            match base58_decoded_len(address@) {
                None => r matches Err(e) && e == WalletUtilsError::InvalidBase58Address
                    && *final(self) == *old(self),
                Some(n) => if n == 32 {
                    r matches Ok(ret) && ret@ == (SigninInputView {
                        address: Some(address@),
                        ..old(self)@
                    }) && *final(self) == *final(ret)
                } else {
                    r matches Err(e) && e == WalletUtilsError::Expected32ByteLength && *final(self)
                        == *old(self)
                },
            },
    {
        match check_decoded_address(decode_base58_len(address)) {
            Ok(()) => {
                self.address = Some(address.to_owned());
                Ok(self)
            },
            Err(e) => Err(e),
        }
    }

    /// Sets the statement that the wallet shows to the user.
    pub fn set_statement(&mut self, statement: &str) -> (ret: &mut Self)
        ensures
            ret@ == (SigninInputView { statement: Some(statement@), ..old(self)@ }),
            *final(self) == *final(ret),
    {
        self.statement = Some(statement.to_owned());
        self
    }

    /// Sets the address of the page that requests the sign-in.
    pub fn set_uri(&mut self, uri: &str) -> (ret: &mut Self)
        ensures
            ret@ == (SigninInputView { uri: Some(uri@), ..old(self)@ }),
            *final(self) == *final(ret),
    {
        self.uri = Some(uri.to_owned());
        self
    }

    /// Sets the version of the message.
    pub fn set_version(&mut self, version: &str) -> (ret: &mut Self)
        ensures
            ret@ == (SigninInputView { version: Some(version@), ..old(self)@ }),
            *final(self) == *final(ret),
    {
        self.version = Some(version.to_owned());
        self
    }

    /// Sets the cluster on which the sign-in takes place.
    pub fn set_chain_id(&mut self, cluster: SolanaNetworkCluster) -> (ret: &mut Self)
        ensures
            ret@ == (SigninInputView { chain_id: Some(cluster), ..old(self)@ }),
            *final(self) == *final(ret),
    {
        self.chain_id = Some(cluster);
        self
    }

    /// Sets a fresh nonce: the SHA3-256 digest, in hexadecimal, of 32 bytes
    /// from a generator that the operating system seeds. The nonce has 64
    /// characters, each one byte long.
    pub fn set_nonce(&mut self) -> (ret: &mut Self)
        ensures
            exists|entropy: Seq<u8>|
                entropy.len() == 32 && ret@ == (SigninInputView {
                    nonce: Some(#[trigger] hex_text(sha3_256(entropy))),
                    ..old(self)@
                }),
            ret@.nonce is Some,
            ret@.nonce->0.len() == 64,
            vstd::utf8::encode_utf8(ret@.nonce->0).len() == 64,
            *final(self) == *final(ret),
    {
        let entropy = os_random_bytes();
        let nonce = nonce_from_entropy(&entropy);
        proof {
            crate::codec::lemma_hex_text_is_ascii(sha3_256(entropy@));
        }
        self.nonce = Some(nonce);
        self
    }

    /// Sets the nonce to `nonce`, which must be at least 8 bytes long.
    pub fn set_custom_nonce(&mut self, nonce: &str) -> (r: WalletUtilsResult<&mut Self>)
        ensures
            if nonce.spec_bytes().len() < 8 {
                r matches Err(e) && e == WalletUtilsError::NonceMustBeAtLeast8Characters
                    && *final(self) == *old(self)
            } else {
                r matches Ok(ret) && ret@ == (SigninInputView { nonce: Some(nonce@), ..old(self)@ })
                    && *final(self) == *final(ret)
            },
    {
        if nonce.as_bytes().len() < 8 {
            return Err(WalletUtilsError::NonceMustBeAtLeast8Characters);
        }
        self.nonce = Some(nonce.to_owned());
        Ok(self)
    }

    /// Sets the time at which the request was issued.
    pub fn set_issued_at(&mut self, time: Timestamp) -> (ret: &mut Self)
        ensures
            ret@ == (SigninInputView { issued_at: Some(time@), ..old(self)@ }),
            *final(self) == *final(ret),
    {
        self.issued_at = Some(time);
        self
    }

    /// Sets the expiration time `expiration_time_milliseconds` after the
    /// time of issue, or to `now` where no time of issue is set.
    pub fn set_expiration_time_millis(
        &mut self,
        now: Timestamp,
        expiration_time_milliseconds: u64,
    ) -> (r: WalletUtilsResult<&mut Self>)
        ensures
            match with_expiration_after(
                old(self)@,
                now@,
                expiration_time_milliseconds as nat * 1_000_000,
            ) {
                Ok(v) => r matches Ok(ret) && ret@ == v && *final(self) == *final(ret),
                Err(e) => r matches Err(x) && x == e && *final(self) == *old(self),
            },
    {
        let span = TimeSpan::from_millis(expiration_time_milliseconds);
        self.set_expiry_internal(now, span)
    }

    /// Sets the expiration time `expiration_time_seconds` after the time
    /// of issue, or to `now` where no time of issue is set.
    pub fn set_expiration_time_seconds(&mut self, now: Timestamp, expiration_time_seconds: u64) -> (r:
        WalletUtilsResult<&mut Self>)
        ensures
            match with_expiration_after(
                old(self)@,
                now@,
                expiration_time_seconds as nat * 1_000_000_000,
            ) {
                Ok(v) => r matches Ok(ret) && ret@ == v && *final(self) == *final(ret),
                Err(e) => r matches Err(x) && x == e && *final(self) == *old(self),
            },
    {
        let span = TimeSpan::from_secs(expiration_time_seconds);
        self.set_expiry_internal(now, span)
    }

    /// The instant `span` after the time of issue, or `now` where none is set.
    fn after_issue(&self, now: Timestamp, span: TimeSpan) -> (r: WalletUtilsResult<Timestamp>)
        ensures
            match instant_after_issue(self@, now@, span@) {
                Ok(instant) => r matches Ok(t) && t@ == instant,
                Err(e) => r matches Err(x) && x == e,
            },
    {
        match self.issued_at {
            Some(issued) => match issued.checked_add(span) {
                Some(t) => Ok(t),
                None => Err(WalletUtilsError::SystemTimeCheckedAddOverflow),
            },
            None => Ok(now),
        }
    }

    /// Sets the expiration time `span` after the time of issue.
    pub fn set_expiry_internal(&mut self, now: Timestamp, span: TimeSpan) -> (r:
        WalletUtilsResult<&mut Self>)
        ensures
            match with_expiration_after(old(self)@, now@, span@) {
                Ok(v) => r matches Ok(ret) && ret@ == v && *final(self) == *final(ret),
                Err(e) => r matches Err(x) && x == e && *final(self) == *old(self),
            },
    {
        match self.after_issue(now, span) {
            Ok(expiry) => self.set_expiration_time(now, expiry),
            Err(e) => Err(e),
        }
    }

    /// Sets the time at which the request expires. The time must not lie
    /// before the time of issue, where one is set, nor before `now`.
    pub fn set_expiration_time(&mut self, now: Timestamp, expiration_time: Timestamp) -> (r:
        WalletUtilsResult<&mut Self>)
        ensures
            match with_expiration(old(self)@, now@, expiration_time@) {
                Ok(v) => r matches Ok(ret) && ret@ == v && *final(self) == *final(ret),
                Err(e) => r matches Err(x) && x == e && *final(self) == *old(self),
            },
    {
        if let Some(issued_at) = self.issued_at {
            if issued_at.is_after(&expiration_time) {
                return Err(WalletUtilsError::ExpiryTimeEarlierThanIssuedTime);
            }
        }
        if now.is_after(&expiration_time) {
            return Err(WalletUtilsError::ExpirationTimeIsInThePast);
        }
        self.expiration_time = Some(expiration_time);
        Ok(self)
    }

    /// Sets the not-before time `span` after the time of issue.
    pub fn set_not_before_internal(&mut self, now: Timestamp, span: TimeSpan) -> (r:
        WalletUtilsResult<&mut Self>)
        ensures
            match with_not_before_after(old(self)@, now@, span@) {
                Ok(v) => r matches Ok(ret) && ret@ == v && *final(self) == *final(ret),
                Err(e) => r matches Err(x) && x == e && *final(self) == *old(self),
            },
    {
        match self.after_issue(now, span) {
            Ok(not_before) => self.set_not_before_time(now, not_before),
            Err(e) => Err(e),
        }
    }

    /// Sets the not-before time `expiration_time_milliseconds` after the
    /// time of issue, or to `now` where no time of issue is set.
    pub fn set_not_before_time_millis(
        &mut self,
        now: Timestamp,
        expiration_time_milliseconds: u64,
    ) -> (r: WalletUtilsResult<&mut Self>)
        ensures
            match with_not_before_after(
                old(self)@,
                now@,
                expiration_time_milliseconds as nat * 1_000_000,
            ) {
                Ok(v) => r matches Ok(ret) && ret@ == v && *final(self) == *final(ret),
                Err(e) => r matches Err(x) && x == e && *final(self) == *old(self),
            },
    {
        let span = TimeSpan::from_millis(expiration_time_milliseconds);
        self.set_not_before_internal(now, span)
    }

    /// Sets the not-before time `expiration_time_seconds` after the time
    /// of issue, or to `now` where no time of issue is set.
    pub fn set_not_before_time_seconds(&mut self, now: Timestamp, expiration_time_seconds: u64) -> (r:
        WalletUtilsResult<&mut Self>)
        ensures
            match with_not_before_after(
                old(self)@,
                now@,
                expiration_time_seconds as nat * 1_000_000_000,
            ) {
                Ok(v) => r matches Ok(ret) && ret@ == v && *final(self) == *final(ret),
                Err(e) => r matches Err(x) && x == e && *final(self) == *old(self),
            },
    {
        let span = TimeSpan::from_secs(expiration_time_seconds);
        self.set_not_before_internal(now, span)
    }

    /// Sets the time from which the request is valid. The time must not
    /// lie before the time of issue, where one is set, nor before `now`,
    /// nor after the expiration time, where one is set.
    pub fn set_not_before_time(&mut self, now: Timestamp, not_before: Timestamp) -> (r:
        WalletUtilsResult<&mut Self>)
        ensures
            match with_not_before(old(self)@, now@, not_before@) {
                Ok(v) => r matches Ok(ret) && ret@ == v && *final(self) == *final(ret),
                Err(e) => r matches Err(x) && x == e && *final(self) == *old(self),
            },
    {
        if let Some(issued_at) = self.issued_at {
            if issued_at.is_after(&not_before) {
                return Err(WalletUtilsError::NotBeforeTimeEarlierThanIssuedTime);
            }
        }
        if now.is_after(&not_before) {
            return Err(WalletUtilsError::NotBeforeTimeIsInThePast);
        }
        if let Some(expiration_time) = self.expiration_time {
            if not_before.is_after(&expiration_time) {
                return Err(WalletUtilsError::NotBeforeTimeLaterThanExpirationTime);
            }
        }
        self.not_before = Some(not_before);
        Ok(self)
    }

    /// The input that a message read by [`read_message`] describes.
    pub fn from_fields(fields: MessageFields) -> (input: SigninInput)
        ensures
            input@ == view_of_fields(fields@),
    {
        let chain_id = cluster_of(&fields.chain_id);
        SigninInput {
            domain: fields.domain,
            address: fields.address,
            statement: fields.statement,
            uri: fields.uri,
            version: fields.version,
            chain_id,
            nonce: fields.nonce,
            issued_at: instant_of(fields.issued_at),
            expiration_time: instant_of(fields.expiration_time),
            not_before: instant_of(fields.not_before),
            request_id: fields.request_id,
            resources: fields.resources,
        }
    }

    /// Reads the message that a wallet signed back into an input.
    pub fn parser(input: &str) -> (r: WalletUtilsResult<SigninInput>)
        ensures
            match parsed(input@) {
                Ok(v) => r matches Ok(i) && i@ == v,
                Err(raw) => r matches Err(WalletUtilsError::InvalidISO8601Timestamp(text)) && text@
                    == raw,
            },
    {
        match read_message(input) {
            Ok(fields) => Ok(SigninInput::from_fields(fields)),
            Err(raw) => Err(WalletUtilsError::InvalidISO8601Timestamp(raw)),
        }
    }

    /// A copy of the input, field by field.
    pub fn duplicate(&self) -> (copy: SigninInput)
        ensures
            copy@ == self@,
    {
        SigninInput {
            domain: crate::common::account::clone_opt_text(&self.domain),
            address: crate::common::account::clone_opt_text(&self.address),
            statement: crate::common::account::clone_opt_text(&self.statement),
            uri: crate::common::account::clone_opt_text(&self.uri),
            version: crate::common::account::clone_opt_text(&self.version),
            chain_id: self.chain_id,
            nonce: crate::common::account::clone_opt_text(&self.nonce),
            issued_at: self.issued_at,
            expiration_time: self.expiration_time,
            not_before: self.not_before,
            request_id: crate::common::account::clone_opt_text(&self.request_id),
            resources: crate::text::clone_texts(&self.resources),
        }
    }

    /// The message that says what the input holds, as a wallet writes it.
    pub fn to_message(&self) -> (text: String)
        ensures
            text@ == rendered(self@),
    {
        let fields = MessageFields {
            domain: crate::common::account::clone_opt_text(&self.domain),
            address: crate::common::account::clone_opt_text(&self.address),
            statement: crate::common::account::clone_opt_text(&self.statement),
            uri: crate::common::account::clone_opt_text(&self.uri),
            version: crate::common::account::clone_opt_text(&self.version),
            chain_id: match self.chain_id {
                Some(cluster) => Some(cluster.chain().to_owned()),
                None => None,
            },
            nonce: crate::common::account::clone_opt_text(&self.nonce),
            issued_at: written_time(&self.issued_at),
            expiration_time: written_time(&self.expiration_time),
            not_before: written_time(&self.not_before),
            request_id: crate::common::account::clone_opt_text(&self.request_id),
            resources: crate::text::clone_texts(&self.resources),
        };
        proof {
            assert(fields@ == fields_of(self@));
        }
        write_message(&fields)
    }

    /// Whether `other` has every field as `self` has it.
    pub fn same_fields(&self, other: &SigninInput) -> (r: bool)
        ensures
            r == (self@ == other@),
    {
        opt_text_equal(&self.domain, &other.domain) && opt_text_equal(&self.address, &other.address)
            && opt_text_equal(&self.statement, &other.statement) && opt_text_equal(
            &self.uri,
            &other.uri,
        ) && opt_text_equal(&self.version, &other.version) && opt_cluster_equal(
            &self.chain_id,
            &other.chain_id,
        ) && opt_text_equal(&self.nonce, &other.nonce) && opt_time_equal(
            &self.issued_at,
            &other.issued_at,
        ) && opt_time_equal(&self.expiration_time, &other.expiration_time) && opt_time_equal(
            &self.not_before,
            &other.not_before,
        ) && opt_text_equal(&self.request_id, &other.request_id) && texts_equal(
            &self.resources,
            &other.resources,
        )
    }

    /// Whether the message `other`, read back, has every field as `self`
    /// has it: `Ok` where it does, the mismatch error where any field
    /// differs, the timestamp error where `other` cannot be read.
    pub fn check_eq(&self, other: &str) -> (r: WalletUtilsResult<()>)
        ensures
            match parsed(other@) {
                Ok(v) => if v == self@ {
                    r is Ok
                } else {
                    r matches Err(e) && e == WalletUtilsError::MessageResponseMismatch
                },
                Err(raw) => r matches Err(WalletUtilsError::InvalidISO8601Timestamp(text)) && text@
                    == raw,
            },
    {
        match SigninInput::parser(other) {
            Ok(read) => {
                if self.same_fields(&read) {
                    Ok(())
                } else {
                    Err(WalletUtilsError::MessageResponseMismatch)
                }
            },
            Err(e) => Err(e),
        }
    }

    /// Sets the identifier of the request.
    pub fn set_request_id(&mut self, id: &str) -> (ret: &mut Self)
        ensures
            ret@ == (SigninInputView { request_id: Some(id@), ..old(self)@ }),
            *final(self) == *final(ret),
    {
        self.request_id = Some(id.to_owned());
        self
    }

    /// Adds a resource after those that are there.
    pub fn add_resource(&mut self, resource: &str) -> (ret: &mut Self)
        ensures
            ret@ == (SigninInputView {
                resources: old(self)@.resources.push(resource@),
                ..old(self)@
            }),
            *final(self) == *final(ret),
    {
        let ghost before = self.resources@;
        let text = resource.to_owned();
        self.resources.push(text);
        proof {
            assert(string_views(self.resources@) =~= string_views(before).push(resource@));
        }
        self
    }

    /// Adds the resources, in order, after those that are there.
    pub fn add_resources(&mut self, resources: &[&str]) -> (ret: &mut Self)
        ensures
            ret@ == (SigninInputView {
                resources: old(self)@.resources + str_views(resources@),
                ..old(self)@
            }),
            *final(self) == *final(ret),
    {
        let n: usize = resources.len();
        let mut i: usize = 0;
        proof {
            assert(old(self)@.resources + str_views(resources@).subrange(0, 0) =~= old(
                self,
            )@.resources);
        }
        while i < n
            invariant
                n == resources@.len(),
                i <= n,
                self@ == (SigninInputView {
                    resources: old(self)@.resources + str_views(resources@).subrange(0, i as int),
                    ..old(self)@
                }),
            decreases n - i,
        {
            let ghost before = self.resources@;
            let text = resources[i].to_owned();
            self.resources.push(text);
            proof {
                assert(string_views(self.resources@) =~= string_views(before).push(
                    resources@[i as int]@,
                ));
                assert(old(self)@.resources + str_views(resources@).subrange(0, i + 1) =~= (old(
                    self,
                )@.resources + str_views(resources@).subrange(0, i as int)).push(
                    resources@[i as int]@,
                ));
            }
            i += 1;
        }
        proof {
            assert(str_views(resources@).subrange(0, n as int) =~= str_views(resources@));
        }
        self
    }

    /// The domain, where one is set.
    pub fn domain(&self) -> (r: Option<&String>)
        ensures
            opt_ref_view(r) == self@.domain,
    {
        self.domain.as_ref()
    }

    /// The address, where one is set.
    pub fn address(&self) -> (r: Option<&String>)
        ensures
            opt_ref_view(r) == self@.address,
    {
        self.address.as_ref()
    }

    /// The statement, where one is set.
    pub fn statement(&self) -> (r: Option<&String>)
        ensures
            opt_ref_view(r) == self@.statement,
    {
        self.statement.as_ref()
    }

    /// The URI, where one is set.
    pub fn uri(&self) -> (r: Option<&String>)
        ensures
            opt_ref_view(r) == self@.uri,
    {
        self.uri.as_ref()
    }

    /// The version, where one is set.
    pub fn version(&self) -> (r: Option<&String>)
        ensures
            opt_ref_view(r) == self@.version,
    {
        self.version.as_ref()
    }

    /// The cluster, where one is set.
    pub fn chain_id(&self) -> (r: Option<&SolanaNetworkCluster>)
        ensures
            match r {
                Some(c) => self@.chain_id == Some(*c),
                None => self@.chain_id is None,
            },
    {
        self.chain_id.as_ref()
    }

    /// The nonce, where one is set.
    pub fn nonce(&self) -> (r: Option<&String>)
        ensures
            opt_ref_view(r) == self@.nonce,
    {
        self.nonce.as_ref()
    }

    /// The time of issue, where one is set.
    pub fn issued_at(&self) -> (r: Option<&Timestamp>)
        ensures
            match r {
                Some(t) => self@.issued_at == Some(t@),
                None => self@.issued_at is None,
            },
    {
        self.issued_at.as_ref()
    }

    /// The expiration time, where one is set.
    pub fn expiration_time(&self) -> (r: Option<&Timestamp>)
        ensures
            match r {
                Some(t) => self@.expiration_time == Some(t@),
                None => self@.expiration_time is None,
            },
    {
        self.expiration_time.as_ref()
    }

    /// The not-before time, where one is set.
    pub fn not_before(&self) -> (r: Option<&Timestamp>)
        ensures
            match r {
                Some(t) => self@.not_before == Some(t@),
                None => self@.not_before is None,
            },
    {
        self.not_before.as_ref()
    }

    /// The time of issue as RFC 3339 text with milliseconds, where one is set.
    pub fn issued_at_iso8601(&self) -> (r: Option<String>)
        ensures
            opt_view(r) == match self@.issued_at {
                Some(instant) => Some(rfc3339_millis_text(instant)),
                None => None,
            },
    {
        iso8601_of(&self.issued_at)
    }

    /// The expiration time as RFC 3339 text with milliseconds, where one is set.
    pub fn expiration_time_iso8601(&self) -> (r: Option<String>)
        ensures
            opt_view(r) == match self@.expiration_time {
                Some(instant) => Some(rfc3339_millis_text(instant)),
                None => None,
            },
    {
        iso8601_of(&self.expiration_time)
    }

    /// The not-before time as RFC 3339 text with milliseconds, where one is set.
    pub fn not_before_iso8601(&self) -> (r: Option<String>)
        ensures
            opt_view(r) == match self@.not_before {
                Some(instant) => Some(rfc3339_millis_text(instant)),
                None => None,
            },
    {
        iso8601_of(&self.not_before)
    }

    /// The identifier of the request, where one is set.
    pub fn request_id(&self) -> (r: Option<&String>)
        ensures
            opt_ref_view(r) == self@.request_id,
    {
        self.request_id.as_ref()
    }

    /// The resources, in the order in which they were added.
    pub fn resources(&self) -> (r: &[String])
        ensures
            string_views(r@) == self@.resources,
    {
        self.resources.as_slice()
    }
}

/// The character sequence of an optional reference to a string.
pub open spec fn opt_ref_view(text: Option<&String>) -> Option<Seq<char>> {
    match text {
        Some(t) => Some(t@),
        None => None,
    }
}

/// What a wallet hands back for a sign-in request.
#[derive(Debug, PartialEq, Eq, PartialOrd, Ord, Hash, Clone)]
pub struct SignInOutput {
    /// The account that signed in.
    pub account: WalletAccountData,
    /// The message that was signed, as text.
    pub message: String,
    /// The Ed25519 signature over the message.
    pub signature: [u8; 64],
    /// The Ed25519 public key of the account.
    pub public_key: [u8; 32],
}

} // verus!
