//! The input of a Sign-In-With-Solana request, every field kept as the
//! text that the message carries.
//!
//! The time fields are checked when they are set, against the fields that
//! are set by then: the order of the calls decides which check is made.

use crate::base::clusters::Cluster;
use crate::base::errors::BaseErrorView;
use crate::base::errors::WalletBaseError;
use crate::base::errors::WalletBaseResult;
use crate::codec::base58_decoded_len;
use crate::codec::decode_base58_len;
use crate::codec::hex_text;
use crate::codec::nonce_from_entropy;
use crate::codec::os_random_bytes;
use crate::codec::sha3_256;
use crate::message::join;
use crate::message::join_lines;
use crate::message::opening_of;
use crate::message::parse;
use crate::message::push_resource_lines;
use crate::message::push_text_line;
use crate::message::resource_lines;
use crate::message::text_lines;
use crate::message::write_opening;
use crate::round_trip::begins_with_dash;
use crate::round_trip::law_message_round_trip;
use crate::round_trip::plain;
use crate::round_trip::plain_if_set;
use crate::text::string_of;
use crate::message::read_message;
use crate::message::Fields;
use crate::message::MessageFields;
use crate::message::TimeField;
use crate::message::TimeText;
use crate::text::clone_texts;
use crate::text::opt_text_equal;
use crate::text::opt_view;
use crate::text::string_views;
use crate::text::texts_equal;
use crate::time::representable;
use crate::time::rfc3339_instant;
use crate::time::rfc3339_millis_text;
use crate::time::TimeSpan;
use crate::time::Timestamp;
use vstd::prelude::*;
use vstd::string::StringSliceAdditionalSpecFns;

verus! {

/// The fields of a [`SignInInput`] as character sequences.
pub struct SignInInputView {
    pub domain: Option<Seq<char>>,
    pub address: Option<Seq<char>>,
    pub statement: Option<Seq<char>>,
    pub uri: Option<Seq<char>>,
    pub version: Option<Seq<char>>,
    pub chain_id: Option<Seq<char>>,
    pub nonce: Option<Seq<char>>,
    pub issued_at: Option<Seq<char>>,
    pub expiration_time: Option<Seq<char>>,
    pub not_before: Option<Seq<char>>,
    pub request_id: Option<Seq<char>>,
    pub resources: Seq<Seq<char>>,
}

/// The view of an input on which nothing has been set.
pub open spec fn empty_view() -> SignInInputView {
    SignInInputView {
        domain: None,
        address: None,
        statement: None,
        uri: None,
        version: None,
        chain_id: None,
        nonce: None,
        issued_at: None,
        expiration_time: None,
        not_before: None,
        request_id: None,
        resources: Seq::empty(),
    }
}

/// The text of a timestamp field as the message has it.
pub open spec fn time_text(field: Option<TimeText>) -> Option<Seq<char>> {
    match field {
        Some(t) => Some(t.raw),
        None => None,
    }
}

/// The input that the fields of a message make.
pub open spec fn view_of_fields(f: Fields) -> SignInInputView {
    SignInInputView {
        domain: f.domain,
        address: f.address,
        statement: f.statement,
        uri: f.uri,
        version: f.version,
        chain_id: f.chain_id,
        nonce: f.nonce,
        issued_at: time_text(f.issued_at),
        expiration_time: time_text(f.expiration_time),
        not_before: time_text(f.not_before),
        request_id: f.request_id,
        resources: f.resources,
    }
}

/// What reading the message `input` gives: the input it describes, or the
/// text of the first timestamp in it that cannot be read.
pub open spec fn parsed(input: Seq<char>) -> Result<SignInInputView, BaseErrorView> {
    match parse(input) {
        Ok(f) => Ok(view_of_fields(f)),
        Err(raw) => Err(BaseErrorView::InvalidISO8601Timestamp(raw)),
    }
}

/// The instant that the time of issue denotes, where one is set:
/// `Err` where the text that is set cannot be read.
pub open spec fn issued_instant(v: SignInInputView) -> Result<Option<nat>, BaseErrorView> {
    match v.issued_at {
        Some(text) => match rfc3339_instant(text) {
            Some(instant) => Ok(Some(instant)),
            None => Err(BaseErrorView::InvalidISO8601Timestamp(text)),
        },
        None => Ok(None),
    }
}

/// Whether the expiration time `expiry` may be set on `v` at the time `now`.
pub open spec fn expiration_check(v: SignInInputView, now: nat, expiry: nat) -> Result<
    (),
    BaseErrorView,
> {
    match issued_instant(v) {
        Err(e) => Err(e),
        Ok(issued) => if issued is Some && issued->0 > expiry {
            Err(
                BaseErrorView::ExpiryTimeEarlierThanIssuedTime {
                    issued: rfc3339_millis_text(issued->0),
                    expiry: rfc3339_millis_text(expiry),
                },
            )
        } else if now > expiry {
            Err(
                BaseErrorView::ExpirationTimeIsInThePast {
                    now: rfc3339_millis_text(now),
                    expiry: rfc3339_millis_text(expiry),
                },
            )
        } else {
            Ok(())
        },
    }
}

/// The instant that the expiration time denotes, where one is set.
pub open spec fn expiration_instant(v: SignInInputView) -> Result<Option<nat>, BaseErrorView> {
    match v.expiration_time {
        Some(text) => match rfc3339_instant(text) {
            Some(instant) => Ok(Some(instant)),
            None => Err(BaseErrorView::InvalidISO8601Timestamp(text)),
        },
        None => Ok(None),
    }
}

/// Whether the not-before time `not_before` may be set on `v` at the time `now`.
pub open spec fn not_before_check(v: SignInInputView, now: nat, not_before: nat) -> Result<
    (),
    BaseErrorView,
> {
    match issued_instant(v) {
        Err(e) => Err(e),
        Ok(issued) => if issued is Some && issued->0 > not_before {
            Err(
                BaseErrorView::NotBeforeTimeEarlierThanIssuedTime {
                    issued_at: rfc3339_millis_text(issued->0),
                    not_before: rfc3339_millis_text(not_before),
                },
            )
        } else if now > not_before {
            Err(
                BaseErrorView::NotBeforeTimeIsInThePast {
                    now: rfc3339_millis_text(now),
                    not_before: rfc3339_millis_text(not_before),
                },
            )
        } else {
            match expiration_instant(v) {
                Err(e) => Err(e),
                Ok(expiry) => if expiry is Some && not_before > expiry->0 {
                    Err(
                        BaseErrorView::NotBeforeTimeLaterThanExpirationTime {
                            not_before: rfc3339_millis_text(not_before),
                            expiry: rfc3339_millis_text(expiry->0),
                        },
                    )
                } else {
                    Ok(())
                },
            }
        },
    }
}

/// The instant that lies `span` after the time of issue, or `now` where no
/// time of issue is set.
pub open spec fn instant_after_issue(v: SignInInputView, now: nat, span: nat) -> Result<
    nat,
    BaseErrorView,
> {
    match issued_instant(v) {
        Err(e) => Err(e),
        Ok(Some(issued)) => if representable((issued + span) as int) {
            Ok(issued + span)
        } else {
            Err(BaseErrorView::SystemTimeCheckedAddOverflow)
        },
        Ok(None) => Ok(now),
    }
}

/// What setting the expiration time `expiry` on `v` at the time `now` gives.
pub open spec fn with_expiration(v: SignInInputView, now: nat, expiry: nat) -> Result<
    SignInInputView,
    BaseErrorView,
> {
    match expiration_check(v, now, expiry) {
        Ok(()) => Ok(SignInInputView { expiration_time: Some(rfc3339_millis_text(expiry)), ..v }),
        Err(e) => Err(e),
    }
}

/// What setting the not-before time `not_before` on `v` at the time `now` gives.
pub open spec fn with_not_before(v: SignInInputView, now: nat, not_before: nat) -> Result<
    SignInInputView,
    BaseErrorView,
> {
    match not_before_check(v, now, not_before) {
        Ok(()) => Ok(SignInInputView { not_before: Some(rfc3339_millis_text(not_before)), ..v }),
        Err(e) => Err(e),
    }
}

/// What setting the expiration time `span` after the time of issue gives.
pub open spec fn with_expiration_after(v: SignInInputView, now: nat, span: nat) -> Result<
    SignInInputView,
    BaseErrorView,
> {
    match instant_after_issue(v, now, span) {
        Ok(expiry) => with_expiration(v, now, expiry),
        Err(e) => Err(e),
    }
}

/// What setting the not-before time `span` after the time of issue gives.
pub open spec fn with_not_before_after(v: SignInInputView, now: nat, span: nat) -> Result<
    SignInInputView,
    BaseErrorView,
> {
    match instant_after_issue(v, now, span) {
        Ok(not_before) => with_not_before(v, now, not_before),
        Err(e) => Err(e),
    }
}

/// The message that says what `v` holds, every field written as the text
/// that is kept for it.
pub open spec fn rendered(v: SignInInputView) -> Seq<char> {
    join_lines(
        opening_of(v.domain, v.address, v.statement) + text_lines("URI"@, v.uri) + text_lines(
            "Version"@,
            v.version,
        ) + text_lines("Chain ID"@, v.chain_id) + text_lines("Nonce"@, v.nonce) + text_lines(
            "Issued At"@,
            v.issued_at,
        ) + text_lines("Expiration Time"@, v.expiration_time) + text_lines(
            "Not Before"@,
            v.not_before,
        ) + text_lines("Request ID"@, v.request_id) + resource_lines(v.resources),
    )
}

/// Whether the message that says what `v` holds reads back as `v`: the
/// domain, the address and the statement are set; every text is plain;
/// the domain holds no space; neither the domain nor the address nor the
/// statement begins with a dash; no resource holds a dash; and no time
/// is set, since a time reads back with the space that follows the colon.
pub open spec fn reads_back(v: SignInInputView) -> bool {
    &&& v.domain is Some && plain(v.domain->0) && !v.domain->0.contains(' ') && !begins_with_dash(
        v.domain->0,
    )
    &&& v.address is Some && plain(v.address->0) && !begins_with_dash(v.address->0)
    &&& v.statement is Some && plain(v.statement->0) && !begins_with_dash(v.statement->0)
    &&& plain_if_set(v.uri)
    &&& plain_if_set(v.version)
    &&& plain_if_set(v.chain_id)
    &&& plain_if_set(v.nonce)
    &&& v.issued_at is None
    &&& v.expiration_time is None
    &&& v.not_before is None
    &&& plain_if_set(v.request_id)
    &&& forall|i: int|
        0 <= i < v.resources.len() ==> plain(#[trigger] v.resources[i]) && !v.resources[i].contains(
            '-',
        )
}

/// Writing an input that reads back and reading the message gives the
/// input again.
pub proof fn law_round_trip(v: SignInInputView)
    requires
        reads_back(v),
    ensures
        parsed(rendered(v)) == Ok::<SignInInputView, BaseErrorView>(v),
{
    let f = Fields {
        domain: v.domain,
        address: v.address,
        statement: v.statement,
        uri: v.uri,
        version: v.version,
        chain_id: v.chain_id,
        nonce: v.nonce,
        issued_at: None,
        expiration_time: None,
        not_before: None,
        request_id: v.request_id,
        resources: v.resources,
    };
    assert(crate::round_trip::reads_back(f));
    law_message_round_trip(f);
    assert(crate::message::opening_lines(f) == opening_of(v.domain, v.address, v.statement));
    assert(crate::message::render(f) == rendered(v));
    assert(view_of_fields(f) == v);
}

/// With a time of issue set whose text reads as the instant `issued`, an
/// expiration time that lies `later` after it is accepted as long as it
/// does not lie before `now`, and is refused as lying in the past where
/// it does. An expiration time that lies `earlier` before the time of
/// issue, by however little, is refused as earlier than the time of issue.
pub proof fn law_expiration_after_issue(
    v: SignInInputView,
    now: nat,
    issued: nat,
    later: nat,
    earlier: nat,
)
    requires
        v.issued_at is Some,
        rfc3339_instant(v.issued_at->0) == Some(issued),
        0 < earlier <= issued,
    ensures
        now <= issued + later ==> with_expiration(v, now, issued + later) == Ok::<
            SignInInputView,
            BaseErrorView,
        >(SignInInputView { expiration_time: Some(rfc3339_millis_text(issued + later)), ..v }),
        now > issued + later ==> with_expiration(v, now, issued + later) == Err::<
            SignInInputView,
            BaseErrorView,
        >(
            BaseErrorView::ExpirationTimeIsInThePast {
                now: rfc3339_millis_text(now),
                expiry: rfc3339_millis_text(issued + later),
            },
        ),
        with_expiration(v, now, (issued - earlier) as nat) == Err::<
            SignInInputView,
            BaseErrorView,
        >(
            BaseErrorView::ExpiryTimeEarlierThanIssuedTime {
                issued: rfc3339_millis_text(issued),
                expiry: rfc3339_millis_text((issued - earlier) as nat),
            },
        ),
{
}

/// What becomes of an address, given how many bytes its Base58 text
/// decodes to, or `None` where the text does not decode into 32 bytes.
pub open spec fn address_outcome(address: Seq<char>, decoded: Option<u8>) -> Result<
    (),
    BaseErrorView,
> {
    match decoded {
        None => Err(BaseErrorView::InvalidBase58Address(address)),
        Some(n) => if n == 32 {
            Ok(())
        } else {
            Err(BaseErrorView::InvalidEd25519PublicKeyLen(n))
        },
    }
}

/// Decides whether an address is accepted, given how many bytes its
/// Base58 text decodes to, or `None` where the text does not decode
/// into 32 bytes.
pub fn check_decoded_address(address: &str, decoded: Option<u8>) -> (r: WalletBaseResult<()>)
    ensures
        match address_outcome(address@, decoded) {
            Ok(()) => r is Ok,
            Err(e) => r matches Err(x) && x@ == e,
        },
{
    match decoded {
        None => Err(WalletBaseError::InvalidBase58Address(address.to_owned())),
        Some(written) => {
            if written != 32 {
                return Err(WalletBaseError::InvalidEd25519PublicKeyLen(written));
            }
            Ok(())
        },
    }
}

/// The instant that a text of a time field denotes, given what the
/// timestamp parser made of the text: the instant, or the text itself as
/// the offending value.
pub fn instant_of_text(text: &String, parsed: Option<Timestamp>) -> (r: WalletBaseResult<
    Timestamp,
>)
    ensures
        match parsed {
            Some(instant) => r == Ok::<Timestamp, WalletBaseError>(instant),
            None => r matches Err(x) && x@ == BaseErrorView::InvalidISO8601Timestamp(text@),
        },
{
    match parsed {
        Some(instant) => Ok(instant),
        None => Err(WalletBaseError::InvalidISO8601Timestamp(text.clone())),
    }
}

/// An optional string as an optional string slice.
pub fn as_opt_str(text: &Option<String>) -> (r: Option<&str>)
    ensures
        match r {
            Some(t) => opt_view(*text) == Some(t@),
            None => *text is None,
        },
{
    match text {
        Some(t) => Some(t.as_str()),
        None => None,
    }
}

/// The parameters of a Sign-In-With-Solana request. Every field is
/// optional; a wallet leaves out of the message what is not set.
#[derive(Debug, Clone, PartialEq, Eq, PartialOrd, Ord, Hash)]
pub struct SignInInput {
    domain: Option<String>,
    address: Option<String>,
    statement: Option<String>,
    uri: Option<String>,
    version: Option<String>,
    chain_id: Option<String>,
    nonce: Option<String>,
    issued_at: Option<String>,
    expiration_time: Option<String>,
    not_before: Option<String>,
    request_id: Option<String>,
    resources: Vec<String>,
}

impl View for SignInInput {
    type V = SignInInputView;

    closed spec fn view(&self) -> SignInInputView {
        SignInInputView {
            domain: opt_view(self.domain),
            address: opt_view(self.address),
            statement: opt_view(self.statement),
            uri: opt_view(self.uri),
            version: opt_view(self.version),
            chain_id: opt_view(self.chain_id),
            nonce: opt_view(self.nonce),
            issued_at: opt_view(self.issued_at),
            expiration_time: opt_view(self.expiration_time),
            not_before: opt_view(self.not_before),
            request_id: opt_view(self.request_id),
            resources: string_views(self.resources@),
        }
    }
}

impl Default for SignInInput {
    /// An input on which nothing is set.
    fn default() -> (input: SignInInput)
        ensures
            input@ == empty_view(),
    {
        SignInInput::new()
    }
}

impl SignInInput {
    /// An input on which nothing is set.
    pub fn new() -> (input: SignInInput)
        ensures
            input@ == empty_view(),
    {
        let input = SignInInput {
            domain: None,
            address: None,
            statement: None,
            uri: None,
            version: None,
            chain_id: None,
            nonce: None,
            issued_at: None,
            expiration_time: None,
            not_before: None,
            request_id: None,
            resources: Vec::new(),
        };
        proof {
            assert(string_views(input.resources@) =~= Seq::empty());
        }
        input
    }

    /// Sets the domain that requests the sign-in.
    pub fn set_domain(&mut self, domain: &str) -> (ret: &mut Self)
        ensures
            ret@ == (SignInInputView { domain: Some(domain@), ..old(self)@ }),
            *final(self) == *final(ret),
    {
        self.domain = Some(domain.to_owned());
        self
    }

    /// Sets the address that signs in. The address must be the Base58 form
    /// of 32 bytes; any other text is refused and leaves the input as it was.
    pub fn set_address(&mut self, address: &str) -> (r: WalletBaseResult<&mut Self>)
        ensures
            match base58_decoded_len(address@) {
                None => r matches Err(e) && e@ == BaseErrorView::InvalidBase58Address(address@)
                    && *final(self) == *old(self),
                Some(n) => if n == 32 {
                    r matches Ok(ret) && ret@ == (SignInInputView {
                        address: Some(address@),
                        ..old(self)@
                    }) && *final(self) == *final(ret)
                } else {
                    r matches Err(e) && e@ == BaseErrorView::InvalidEd25519PublicKeyLen(n as u8)
                        && *final(self) == *old(self)
                },
            },
    {
        let decoded = match decode_base58_len(address) {
            Some(written) => Some(written as u8),
            None => None,
        };
        match check_decoded_address(address, decoded) {
            Ok(()) => {
                self.address = Some(address.to_owned());
                Ok(self)
            },
            Err(e) => Err(e),
        }
    }

    /// Sets the statement that the wallet shows to the user.
    pub fn set_statement(&mut self, statement: &str) -> (ret: &mut Self)
        ensures
            ret@ == (SignInInputView { statement: Some(statement@), ..old(self)@ }),
            *final(self) == *final(ret),
    {
        self.statement = Some(statement.to_owned());
        self
    }

    /// Sets the address of the page that requests the sign-in.
    pub fn set_uri(&mut self, uri: &str) -> (ret: &mut Self)
        ensures
            ret@ == (SignInInputView { uri: Some(uri@), ..old(self)@ }),
            *final(self) == *final(ret),
    {
        self.uri = Some(uri.to_owned());
        self
    }

    /// Sets the version of the message.
    pub fn set_version(&mut self, version: &str) -> (ret: &mut Self)
        ensures
            ret@ == (SignInInputView { version: Some(version@), ..old(self)@ }),
            *final(self) == *final(ret),
    {
        self.version = Some(version.to_owned());
        self
    }

    /// Sets the chain to the chain identifier of `cluster`.
    pub fn set_chain_id<C: Cluster>(&mut self, cluster: C) -> (ret: &mut Self)
        ensures
            ret@ == (SignInInputView { chain_id: Some(cluster.chain_text()), ..old(self)@ }),
            *final(self) == *final(ret),
    {
        self.chain_id = Some(cluster.chain().to_owned());
        self
    }

    /// Sets a fresh nonce: the SHA3-256 digest, in hexadecimal, of 32 bytes
    /// from a generator that the operating system seeds. The nonce has 64
    /// characters, each one byte long.
    pub fn set_nonce(&mut self) -> (ret: &mut Self)
        ensures
            exists|entropy: Seq<u8>|
                entropy.len() == 32 && ret@ == (SignInInputView {
                    nonce: Some(#[trigger] hex_text(sha3_256(entropy))),
                    ..old(self)@
                }),
            ret@.nonce is Some,
            ret@.nonce->0.len() == 64,
            vstd::utf8::encode_utf8(ret@.nonce->0).len() == 64,
            *final(self) == *final(ret),
    {
        let entropy = os_random_bytes();
        let nonce = nonce_from_entropy(&entropy);
        proof {
            crate::codec::lemma_hex_text_is_ascii(sha3_256(entropy@));
        }
        self.nonce = Some(nonce);
        self
    }

    /// Sets the nonce to `nonce`, which must be at least 8 bytes long.
    pub fn set_custom_nonce(&mut self, nonce: &str) -> (r: WalletBaseResult<&mut Self>)
        ensures
            if nonce.spec_bytes().len() < 8 {
                r matches Err(e) && e@ == BaseErrorView::NonceMustBeAtLeast8Characters(
                    nonce.spec_bytes().len() as u8,
                ) && *final(self) == *old(self)
            } else {
                r matches Ok(ret) && ret@ == (SignInInputView { nonce: Some(nonce@), ..old(self)@ })
                    && *final(self) == *final(ret)
            },
    {
        let nonce_length: usize = nonce.as_bytes().len();
        if nonce_length < 8 {
            return Err(WalletBaseError::NonceMustBeAtLeast8Characters(nonce_length as u8));
        }
        self.nonce = Some(nonce.to_owned());
        Ok(self)
    }

    /// Sets the time at which the request was issued.
    pub fn set_issued_at(&mut self, time: Timestamp) -> (ret: &mut Self)
        ensures
            ret@ == (SignInInputView {
                issued_at: Some(rfc3339_millis_text(time@)),
                ..old(self)@
            }),
            *final(self) == *final(ret),
    {
        self.issued_at = Some(time.to_rfc3339_millis());
        self
    }

    /// Sets the expiration time `expiration_time_milliseconds` after the
    /// time of issue, or to `now` where no time of issue is set.
    pub fn set_expiration_time_millis(
        &mut self,
        now: Timestamp,
        expiration_time_milliseconds: u64,
    ) -> (r: WalletBaseResult<&mut Self>)
        ensures
            match with_expiration_after(
                old(self)@,
                now@,
                expiration_time_milliseconds as nat * 1_000_000,
            ) {
                Ok(v) => r matches Ok(ret) && ret@ == v && *final(self) == *final(ret),
                Err(e) => r matches Err(x) && x@ == e && *final(self) == *old(self),
            },
    {
        let span = TimeSpan::from_millis(expiration_time_milliseconds);
        self.set_expiry_internal(now, span)
    }

    /// Sets the expiration time `expiration_time_seconds` after the time
    /// of issue, or to `now` where no time of issue is set.
    pub fn set_expiration_time_seconds(&mut self, now: Timestamp, expiration_time_seconds: u64) -> (r:
        WalletBaseResult<&mut Self>)
        ensures
            match with_expiration_after(
                old(self)@,
                now@,
                expiration_time_seconds as nat * 1_000_000_000,
            ) {
                Ok(v) => r matches Ok(ret) && ret@ == v && *final(self) == *final(ret),
                Err(e) => r matches Err(x) && x@ == e && *final(self) == *old(self),
            },
    {
        let span = TimeSpan::from_secs(expiration_time_seconds);
        self.set_expiry_internal(now, span)
    }

    /// The time of issue as an instant, where one is set.
    fn read_issued_at(&self) -> (r: WalletBaseResult<Option<Timestamp>>)
        ensures
            match issued_instant(self@) {
                Ok(instant) => r matches Ok(t) && crate::time::opt_instant(t) == instant,
                Err(e) => r matches Err(x) && x@ == e,
            },
    {
        match &self.issued_at {
            Some(text) => match instant_of_text(text, Timestamp::parse_rfc3339(text.as_str())) {
                Ok(instant) => Ok(Some(instant)),
                Err(e) => Err(e),
            },
            None => Ok(None),
        }
    }

    /// The expiration time as an instant, where one is set.
    fn read_expiration_time(&self) -> (r: WalletBaseResult<Option<Timestamp>>)
        ensures
            match expiration_instant(self@) {
                Ok(instant) => r matches Ok(t) && crate::time::opt_instant(t) == instant,
                Err(e) => r matches Err(x) && x@ == e,
            },
    {
        match &self.expiration_time {
            Some(text) => match instant_of_text(text, Timestamp::parse_rfc3339(text.as_str())) {
                Ok(instant) => Ok(Some(instant)),
                Err(e) => Err(e),
            },
            None => Ok(None),
        }
    }

    /// The instant `span` after the time of issue, or `now` where none is set.
    fn after_issue(&self, now: Timestamp, span: TimeSpan) -> (r: WalletBaseResult<Timestamp>)
        ensures
            match instant_after_issue(self@, now@, span@) {
                Ok(instant) => r matches Ok(t) && t@ == instant,
                Err(e) => r matches Err(x) && x@ == e,
            },
    {
        match self.read_issued_at() {
            Err(e) => Err(e),
            Ok(Some(issued)) => match issued.checked_add(span) {
                Some(t) => Ok(t),
                None => Err(WalletBaseError::SystemTimeCheckedAddOverflow),
            },
            Ok(None) => Ok(now),
        }
    }

    fn set_expiry_internal(&mut self, now: Timestamp, span: TimeSpan) -> (r: WalletBaseResult<
        &mut Self,
    >)
        ensures
            match with_expiration_after(old(self)@, now@, span@) {
                Ok(v) => r matches Ok(ret) && ret@ == v && *final(self) == *final(ret),
                Err(e) => r matches Err(x) && x@ == e && *final(self) == *old(self),
            },
    {
        match self.after_issue(now, span) {
            Ok(expiry) => self.set_expiration_time(now, expiry),
            Err(e) => Err(e),
        }
    }

    /// Sets the time at which the request expires. The time must not lie
    /// before the time of issue, where one is set, nor before `now`.
    pub fn set_expiration_time(&mut self, now: Timestamp, expiration_time: Timestamp) -> (r:
        WalletBaseResult<&mut Self>)
        ensures
            match with_expiration(old(self)@, now@, expiration_time@) {
                Ok(v) => r matches Ok(ret) && ret@ == v && *final(self) == *final(ret),
                Err(e) => r matches Err(x) && x@ == e && *final(self) == *old(self),
            },
    {
        match self.read_issued_at() {
            Err(e) => {
                return Err(e);
            },
            Ok(Some(issued_at)) => {
                if issued_at.is_after(&expiration_time) {
                    return Err(
                        WalletBaseError::ExpiryTimeEarlierThanIssuedTime {
                            issued: issued_at.to_rfc3339_millis(),
                            expiry: expiration_time.to_rfc3339_millis(),
                        },
                    );
                }
            },
            Ok(None) => {},
        }
        if now.is_after(&expiration_time) {
            return Err(
                WalletBaseError::ExpirationTimeIsInThePast {
                    now: now.to_rfc3339_millis(),
                    expiry: expiration_time.to_rfc3339_millis(),
                },
            );
        }
        self.expiration_time = Some(expiration_time.to_rfc3339_millis());
        Ok(self)
    }

    fn set_not_before_internal(&mut self, now: Timestamp, span: TimeSpan) -> (r: WalletBaseResult<
        &mut Self,
    >)
        ensures
            match with_not_before_after(old(self)@, now@, span@) {
                Ok(v) => r matches Ok(ret) && ret@ == v && *final(self) == *final(ret),
                Err(e) => r matches Err(x) && x@ == e && *final(self) == *old(self),
            },
    {
        match self.after_issue(now, span) {
            Ok(not_before) => self.set_not_before_time(now, not_before),
            Err(e) => Err(e),
        }
    }

    /// Sets the not-before time `expiration_time_milliseconds` after the
    /// time of issue, or to `now` where no time of issue is set.
    pub fn set_not_before_time_millis(
        &mut self,
        now: Timestamp,
        expiration_time_milliseconds: u64,
    ) -> (r: WalletBaseResult<&mut Self>)
        ensures
            match with_not_before_after(
                old(self)@,
                now@,
                expiration_time_milliseconds as nat * 1_000_000,
            ) {
                Ok(v) => r matches Ok(ret) && ret@ == v && *final(self) == *final(ret),
                Err(e) => r matches Err(x) && x@ == e && *final(self) == *old(self),
            },
    {
        let span = TimeSpan::from_millis(expiration_time_milliseconds);
        self.set_not_before_internal(now, span)
    }

    /// Sets the not-before time `expiration_time_seconds` after the time
    /// of issue, or to `now` where no time of issue is set.
    pub fn set_not_before_time_seconds(&mut self, now: Timestamp, expiration_time_seconds: u64) -> (r:
        WalletBaseResult<&mut Self>)
        ensures
            match with_not_before_after(
                old(self)@,
                now@,
                expiration_time_seconds as nat * 1_000_000_000,
            ) {
                Ok(v) => r matches Ok(ret) && ret@ == v && *final(self) == *final(ret),
                Err(e) => r matches Err(x) && x@ == e && *final(self) == *old(self),
            },
    {
        let span = TimeSpan::from_secs(expiration_time_seconds);
        self.set_not_before_internal(now, span)
    }

    /// Sets the time from which the request is valid. The time must not
    /// lie before the time of issue, where one is set, nor before `now`,
    /// nor after the expiration time, where one is set.
    pub fn set_not_before_time(&mut self, now: Timestamp, not_before: Timestamp) -> (r:
        WalletBaseResult<&mut Self>)
        ensures
            match with_not_before(old(self)@, now@, not_before@) {
                Ok(v) => r matches Ok(ret) && ret@ == v && *final(self) == *final(ret),
                Err(e) => r matches Err(x) && x@ == e && *final(self) == *old(self),
            },
    {
        match self.read_issued_at() {
            Err(e) => {
                return Err(e);
            },
            Ok(Some(issued_at)) => {
                if issued_at.is_after(&not_before) {
                    return Err(
                        WalletBaseError::NotBeforeTimeEarlierThanIssuedTime {
                            issued_at: issued_at.to_rfc3339_millis(),
                            not_before: not_before.to_rfc3339_millis(),
                        },
                    );
                }
            },
            Ok(None) => {},
        }
        if now.is_after(&not_before) {
            return Err(
                WalletBaseError::NotBeforeTimeIsInThePast {
                    now: now.to_rfc3339_millis(),
                    not_before: not_before.to_rfc3339_millis(),
                },
            );
        }
        match self.read_expiration_time() {
            Err(e) => {
                return Err(e);
            },
            Ok(Some(expiration_time)) => {
                if not_before.is_after(&expiration_time) {
                    return Err(
                        WalletBaseError::NotBeforeTimeLaterThanExpirationTime {
                            not_before: not_before.to_rfc3339_millis(),
                            expiry: expiration_time.to_rfc3339_millis(),
                        },
                    );
                }
            },
            Ok(None) => {},
        }
        self.not_before = Some(not_before.to_rfc3339_millis());
        Ok(self)
    }

    /// The input that a message read by [`read_message`] describes. The
    /// time fields keep the text after the colon as it was written.
    pub fn from_fields(fields: MessageFields) -> (input: SignInInput)
        ensures
            input@ == view_of_fields(fields@),
    {
        SignInInput {
            domain: fields.domain,
            address: fields.address,
            statement: fields.statement,
            uri: fields.uri,
            version: fields.version,
            chain_id: fields.chain_id,
            nonce: fields.nonce,
            issued_at: raw_of(fields.issued_at),
            expiration_time: raw_of(fields.expiration_time),
            not_before: raw_of(fields.not_before),
            request_id: fields.request_id,
            resources: fields.resources,
        }
    }

    /// Reads the message that a wallet signed back into an input.
    pub fn parser(input: &str) -> (r: WalletBaseResult<SignInInput>)
        ensures
            match parsed(input@) {
                Ok(v) => r matches Ok(i) && i@ == v,
                Err(e) => r matches Err(x) && x@ == e,
            },
    {
        match read_message(input) {
            Ok(fields) => Ok(SignInInput::from_fields(fields)),
            Err(raw) => Err(WalletBaseError::InvalidISO8601Timestamp(raw)),
        }
    }

    /// The message that says what the input holds, every field written as
    /// the text that is kept for it.
    pub fn to_message(&self) -> (text: String)
        ensures
            text@ == rendered(self@),
    {
        let mut lines = write_opening(&self.domain, &self.address, &self.statement);
        push_text_line(&mut lines, "URI", &self.uri);
        push_text_line(&mut lines, "Version", &self.version);
        push_text_line(&mut lines, "Chain ID", &self.chain_id);
        push_text_line(&mut lines, "Nonce", &self.nonce);
        push_text_line(&mut lines, "Issued At", &self.issued_at);
        push_text_line(&mut lines, "Expiration Time", &self.expiration_time);
        push_text_line(&mut lines, "Not Before", &self.not_before);
        push_text_line(&mut lines, "Request ID", &self.request_id);
        push_resource_lines(&mut lines, &self.resources);
        string_of(join(&lines).as_slice())
    }

    /// Whether `other` has every field as `self` has it: `Ok` where it
    /// does, the mismatch error where any field differs.
    pub fn check_eq(&self, other: &Self) -> (r: WalletBaseResult<()>)
        ensures
            self@ == other@ ==> r is Ok,
            self@ != other@ ==> (r matches Err(e) && e@ == BaseErrorView::MessageResponseMismatch),
    {
        if opt_text_equal(&self.domain, &other.domain) && opt_text_equal(
            &self.address,
            &other.address,
        ) && opt_text_equal(&self.statement, &other.statement) && opt_text_equal(
            &self.uri,
            &other.uri,
        ) && opt_text_equal(&self.version, &other.version) && opt_text_equal(
            &self.chain_id,
            &other.chain_id,
        ) && opt_text_equal(&self.nonce, &other.nonce) && opt_text_equal(
            &self.issued_at,
            &other.issued_at,
        ) && opt_text_equal(&self.expiration_time, &other.expiration_time) && opt_text_equal(
            &self.not_before,
            &other.not_before,
        ) && opt_text_equal(&self.request_id, &other.request_id) && texts_equal(
            &self.resources,
            &other.resources,
        ) {
            Ok(())
        } else {
            Err(WalletBaseError::MessageResponseMismatch)
        }
    }

    /// Sets the identifier of the request.
    pub fn set_request_id(&mut self, id: &str) -> (ret: &mut Self)
        ensures
            ret@ == (SignInInputView { request_id: Some(id@), ..old(self)@ }),
            *final(self) == *final(ret),
    {
        self.request_id = Some(id.to_owned());
        self
    }

    /// Adds a resource after those that are there.
    pub fn add_resource(&mut self, resource: &str) -> (ret: &mut Self)
        ensures
            ret@ == (SignInInputView {
                resources: old(self)@.resources.push(resource@),
                ..old(self)@
            }),
            *final(self) == *final(ret),
    {
        let ghost before = self.resources@;
        let text = resource.to_owned();
        self.resources.push(text);
        proof {
            assert(string_views(self.resources@) =~= string_views(before).push(resource@));
        }
        self
    }

    /// Adds the resources, in order, after those that are there.
    pub fn add_resources(&mut self, resources: &[&str]) -> (ret: &mut Self)
        ensures
            ret@ == (SignInInputView {
                resources: old(self)@.resources + crate::text::str_views(resources@),
                ..old(self)@
            }),
            *final(self) == *final(ret),
    {
        let n: usize = resources.len();
        let mut i: usize = 0;
        proof {
            assert(old(self)@.resources + crate::text::str_views(resources@).subrange(0, 0)
                =~= old(self)@.resources);
        }
        while i < n
            invariant
                n == resources@.len(),
                i <= n,
                self@ == (SignInInputView {
                    resources: old(self)@.resources + crate::text::str_views(resources@).subrange(
                        0,
                        i as int,
                    ),
                    ..old(self)@
                }),
            decreases n - i,
        {
            let ghost before = self.resources@;
            let text = resources[i].to_owned();
            self.resources.push(text);
            proof {
                assert(string_views(self.resources@) =~= string_views(before).push(
                    resources@[i as int]@,
                ));
                assert(old(self)@.resources + crate::text::str_views(resources@).subrange(
                    0,
                    i + 1,
                ) =~= (old(self)@.resources + crate::text::str_views(resources@).subrange(
                    0,
                    i as int,
                )).push(resources@[i as int]@));
            }
            i += 1;
        }
        proof {
            assert(crate::text::str_views(resources@).subrange(0, n as int)
                =~= crate::text::str_views(resources@));
        }
        self
    }

    /// The domain, where one is set.
    pub fn domain(&self) -> (r: Option<&str>)
        ensures
            crate::text::opt_str_view(r) == self@.domain,
    {
        as_opt_str(&self.domain)
    }

    /// The address, where one is set.
    pub fn address(&self) -> (r: Option<&str>)
        ensures
            crate::text::opt_str_view(r) == self@.address,
    {
        as_opt_str(&self.address)
    }

    /// The statement, where one is set.
    pub fn statement(&self) -> (r: Option<&str>)
        ensures
            crate::text::opt_str_view(r) == self@.statement,
    {
        as_opt_str(&self.statement)
    }

    /// The URI, where one is set.
    pub fn uri(&self) -> (r: Option<&str>)
        ensures
            crate::text::opt_str_view(r) == self@.uri,
    {
        as_opt_str(&self.uri)
    }

    /// The version, where one is set.
    pub fn version(&self) -> (r: Option<&str>)
        ensures
            crate::text::opt_str_view(r) == self@.version,
    {
        as_opt_str(&self.version)
    }

    /// The chain identifier, where one is set.
    pub fn chain_id(&self) -> (r: Option<&str>)
        ensures
            crate::text::opt_str_view(r) == self@.chain_id,
    {
        as_opt_str(&self.chain_id)
    }

    /// The nonce, where one is set.
    pub fn nonce(&self) -> (r: Option<&str>)
        ensures
            crate::text::opt_str_view(r) == self@.nonce,
    {
        as_opt_str(&self.nonce)
    }

    /// The text of the time of issue, where one is set.
    pub fn issued_at(&self) -> (r: Option<&str>)
        ensures
            crate::text::opt_str_view(r) == self@.issued_at,
    {
        as_opt_str(&self.issued_at)
    }

    /// The text of the expiration time, where one is set.
    pub fn expiration_time(&self) -> (r: Option<&str>)
        ensures
            crate::text::opt_str_view(r) == self@.expiration_time,
    {
        as_opt_str(&self.expiration_time)
    }

    /// The text of the not-before time, where one is set.
    pub fn not_before(&self) -> (r: Option<&str>)
        ensures
            crate::text::opt_str_view(r) == self@.not_before,
    {
        as_opt_str(&self.not_before)
    }

    /// The time of issue as an instant: `None` where none is set or the
    /// text that is set cannot be read.
    pub fn issued_at_system_time(&self) -> (r: Option<Timestamp>)
        ensures
            crate::time::opt_instant(r) == match self@.issued_at {
                Some(text) => rfc3339_instant(text),
                None => None,
            },
    {
        match &self.issued_at {
            Some(text) => Timestamp::parse_rfc3339(text.as_str()),
            None => None,
        }
    }

    /// The expiration time as an instant: `None` where none is set or the
    /// text that is set cannot be read.
    pub fn expiration_time_system_time(&self) -> (r: Option<Timestamp>)
        ensures
            crate::time::opt_instant(r) == match self@.expiration_time {
                Some(text) => rfc3339_instant(text),
                None => None,
            },
    {
        match &self.expiration_time {
            Some(text) => Timestamp::parse_rfc3339(text.as_str()),
            None => None,
        }
    }

    /// The not-before time as an instant: `None` where none is set or the
    /// text that is set cannot be read.
    pub fn not_before_system_time(&self) -> (r: Option<Timestamp>)
        ensures
            crate::time::opt_instant(r) == match self@.not_before {
                Some(text) => rfc3339_instant(text),
                None => None,
            },
    {
        match &self.not_before {
            Some(text) => Timestamp::parse_rfc3339(text.as_str()),
            None => None,
        }
    }

    /// The identifier of the request, where one is set.
    pub fn request_id(&self) -> (r: Option<&str>)
        ensures
            crate::text::opt_str_view(r) == self@.request_id,
    {
        as_opt_str(&self.request_id)
    }

    /// The resources, in the order in which they were added.
    pub fn resources(&self) -> (r: &[String])
        ensures
            string_views(r@) == self@.resources,
    {
        self.resources.as_slice()
    }
}

/// The text of an optional timestamp field.
fn raw_of(field: Option<TimeField>) -> (r: Option<String>)
    ensures
        opt_view(r) == time_text(crate::message::opt_time_view(field)),
{
    match field {
        Some(t) => Some(t.raw),
        None => None,
    }
}

/// What a wallet hands back for a sign-in request.
#[derive(Debug, PartialEq, Eq, PartialOrd, Ord, Hash, Clone)]
pub struct SignInOutput<T> {
    /// The account that signed in.
    pub account: T,
    /// The message that was signed, as text.
    pub message: String,
    /// The Ed25519 signature over the message.
    pub signature: [u8; 64],
    /// The Ed25519 public key of the account.
    pub public_key: [u8; 32],
}

} // verus!
