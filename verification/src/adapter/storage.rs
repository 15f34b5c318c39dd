//! The registry of the wallets that have registered with the application.
//!
//! A wallet is kept under the SHA3-256 digest of its name in lowercase,
//! so that names that differ only in case find the same wallet.

use crate::adapter::wallet::Wallet;
use crate::adapter::wallet::WalletView;
use crate::codec::sha3_256;
use crate::codec::sha3_256_digest;
use crate::text::bytes_equal;
use crate::text::lowercase;
use crate::text::to_lowercase;
use vstd::prelude::*;
use vstd::utf8::encode_utf8;

verus! {

/// The key under which a wallet called `name` is kept.
pub open spec fn key_of(name: Seq<char>) -> Seq<u8> {
    sha3_256(encode_utf8(lowercase(name)))
}

/// A wallet with the key under which it is kept.
pub struct EntryView {
    pub key: Seq<u8>,
    pub wallet: WalletView,
}

/// The first wallet of `entries` that is kept under `key`.
pub open spec fn lookup(entries: Seq<EntryView>, key: Seq<u8>) -> Option<WalletView>
    decreases entries.len(),
{
    if entries.len() == 0 {
        None
    } else if entries[0].key == key {
        Some(entries[0].wallet)
    } else {
        lookup(entries.drop_first(), key)
    }
}

/// The position of the first entry of `entries` that is kept under
/// `key`, or the number of entries where there is none.
pub open spec fn position(entries: Seq<EntryView>, key: Seq<u8>) -> int
    decreases entries.len(),
{
    if entries.len() == 0 {
        0
    } else if entries[0].key == key {
        0
    } else {
        1 + position(entries.drop_first(), key)
    }
}

/// `entries` with `wallet` kept under `key`: in the place of the wallet
/// that was kept under the key, or at the end.
pub open spec fn with_entry(entries: Seq<EntryView>, key: Seq<u8>, wallet: WalletView) -> Seq<
    EntryView,
> {
    let at = position(entries, key);
    if 0 <= at < entries.len() {
        entries.update(at, EntryView { key, wallet })
    } else {
        entries.push(EntryView { key, wallet })
    }
}

/// Whether no two entries are kept under the same key.
pub open spec fn distinct_keys(entries: Seq<EntryView>) -> bool {
    forall|i: int, j: int|
        0 <= i < j < entries.len() ==> (#[trigger] entries[i]).key != (#[trigger] entries[j]).key
}

/// The wallets of `entries`, in order.
pub open spec fn wallets_of(entries: Seq<EntryView>) -> Seq<WalletView> {
    entries.map_values(|e: EntryView| e.wallet)
}

/// `position` points at the first entry with the key, or past the end.
pub proof fn lemma_position(entries: Seq<EntryView>, key: Seq<u8>)
    ensures
        0 <= position(entries, key) <= entries.len(),
        position(entries, key) < entries.len() ==> entries[position(entries, key)].key == key
            && lookup(entries, key) == Some(entries[position(entries, key)].wallet),
        position(entries, key) == entries.len() ==> lookup(entries, key) is None,
        forall|j: int| 0 <= j < position(entries, key) ==> (#[trigger] entries[j]).key != key,
    decreases entries.len(),
{
    if entries.len() > 0 && entries[0].key != key {
        let rest = entries.drop_first();
        lemma_position(rest, key);
        assert forall|j: int| 0 <= j < position(entries, key) implies (#[trigger] entries[j]).key
            != key by {
            if j > 0 {
                assert(entries[j] == rest[j - 1]);
            }
        }
    }
}

/// An index with the key before which no entry has the key is `position`.
pub proof fn lemma_position_unique(entries: Seq<EntryView>, key: Seq<u8>, at: int)
    requires
        0 <= at <= entries.len(),
        at < entries.len() ==> entries[at].key == key,
        forall|j: int| 0 <= j < at ==> (#[trigger] entries[j]).key != key,
    ensures
        position(entries, key) == at,
{
    lemma_position(entries, key);
    let p = position(entries, key);
    if p < at {
        assert(entries[p].key == key);
    } else if at < p {
        assert(entries[at].key == key);
    }
}

/// A wallet that has been put into the registry is found under its key,
/// and the wallets under other keys are found as before.
pub proof fn law_lookup_after_insert(
    entries: Seq<EntryView>,
    key: Seq<u8>,
    wallet: WalletView,
    other: Seq<u8>,
)
    ensures
        lookup(with_entry(entries, key, wallet), key) == Some(wallet),
        other != key ==> lookup(with_entry(entries, key, wallet), other) == lookup(entries, other),
        distinct_keys(entries) ==> distinct_keys(with_entry(entries, key, wallet)),
{
    let after = with_entry(entries, key, wallet);
    let at = position(entries, key);
    lemma_position(entries, key);
    assert(after[at].key == key);
    assert forall|j: int| 0 <= j < at implies (#[trigger] after[j]).key != key by {
        assert(after[j] == entries[j]);
    }
    lemma_position_unique(after, key, at);
    lemma_position(after, key);
    if other != key {
        let p = position(entries, other);
        lemma_position(entries, other);
        assert(p != at || p == entries.len());
        if p < entries.len() {
            assert(after[p] == entries[p]);
            assert forall|j: int| 0 <= j < p implies (#[trigger] after[j]).key != other by {
                if j != at {
                    assert(after[j] == entries[j]);
                }
            }
            lemma_position_unique(after, other, p);
            lemma_position(after, other);
        } else {
            assert forall|j: int| 0 <= j < after.len() implies (#[trigger] after[j]).key
                != other by {
                if j != at {
                    assert(after[j] == entries[j]);
                }
            }
            lemma_position_unique(after, other, after.len() as int);
            lemma_position(after, other);
        }
    }
    if distinct_keys(entries) {
        assert forall|i: int, j: int| 0 <= i < j < after.len() implies (#[trigger] after[i]).key
            != (#[trigger] after[j]).key by {
            if at < entries.len() {
                if i == at {
                    assert(after[j] == entries[j]);
                    assert(entries[at].key != entries[j].key);
                } else if j == at {
                    assert(after[i] == entries[i]);
                } else {
                    assert(after[i] == entries[i]);
                    assert(after[j] == entries[j]);
                }
            } else {
                if j == at {
                    assert(after[i] == entries[i]);
                } else {
                    assert(after[i] == entries[i]);
                    assert(after[j] == entries[j]);
                }
            }
        }
    }
}

/// A wallet of the registry with its key.
#[derive(Debug, Clone, PartialEq, Eq)]
pub struct StoredWallet {
    key: [u8; 32],
    wallet: Wallet,
}

impl View for StoredWallet {
    type V = EntryView;

    closed spec fn view(&self) -> EntryView {
        EntryView { key: self.key@, wallet: self.wallet@ }
    }
}

/// The views of the entries of the registry.
pub open spec fn entry_views(entries: Seq<StoredWallet>) -> Seq<EntryView> {
    entries.map_values(|e: StoredWallet| e@)
}

/// The wallets that have registered, each under the digest of its name.
#[derive(Debug, Clone, PartialEq, Eq)]
pub struct WalletStorage {
    entries: Vec<StoredWallet>,
}

impl View for WalletStorage {
    type V = Seq<EntryView>;

    closed spec fn view(&self) -> Seq<EntryView> {
        entry_views(self.entries@)
    }
}

impl Default for WalletStorage {
    /// A registry without wallets.
    fn default() -> (storage: WalletStorage)
        ensures
            storage@.len() == 0,
    {
        WalletStorage::new()
    }
}

impl WalletStorage {
    /// A registry without wallets.
    pub fn new() -> (storage: WalletStorage)
        ensures
            storage@.len() == 0,
    {
        WalletStorage { entries: Vec::new() }
    }

    /// The key under which a wallet called `wallet_name` is kept.
    pub fn wallet_key(wallet_name: &str) -> (key: [u8; 32])
        ensures
            key@ == key_of(wallet_name@),
    {
        let lower = to_lowercase(wallet_name);
        sha3_256_digest(lower.as_str().as_bytes())
    }

    /// The position of the first entry that is kept under `key`.
    fn find(&self, key: &[u8; 32]) -> (at: usize)
        ensures
            at == position(self@, key@),
            at <= self@.len(),
    {
        let ghost views = entry_views(self.entries@);
        let n: usize = self.entries.len();
        let mut i: usize = 0;
        while i < n
            invariant
                n == self.entries@.len(),
                i <= n,
                views == entry_views(self.entries@),
                forall|j: int| 0 <= j < i ==> (#[trigger] views[j]).key != key@,
            decreases n - i,
        {
            if bytes_equal(self.entries[i].key.as_slice(), key.as_slice()) {
                proof {
                    assert(views[i as int].key == key@);
                    lemma_position_unique(views, key@, i as int);
                }
                return i;
            }
            i += 1;
        }
        proof {
            lemma_position_unique(views, key@, n as int);
        }
        n
    }

    /// Puts `wallet` into the registry, in the place of the wallet that
    /// was kept under the same name, if there was one.
    pub fn insert(&mut self, wallet: Wallet)
        ensures
            final(self)@ == with_entry(old(self)@, key_of(wallet@.data.name), wallet@),
    {
        let key = WalletStorage::wallet_key(wallet.name());
        let at = self.find(&key);
        let ghost before = self.entries@;
        if at < self.entries.len() {
            self.entries.set(at, StoredWallet { key, wallet });
            proof {
                assert(entry_views(self.entries@) =~= entry_views(before).update(
                    at as int,
                    EntryView { key: key@, wallet: wallet@ },
                ));
            }
        } else {
            self.entries.push(StoredWallet { key, wallet });
            proof {
                assert(entry_views(self.entries@) =~= entry_views(before).push(
                    EntryView { key: key@, wallet: wallet@ },
                ));
            }
        }
    }

    /// A copy of the registry.
    pub fn clone_inner(&self) -> (copy: WalletStorage)
        ensures
            copy@ == self@,
    {
        let n: usize = self.entries.len();
        let mut entries: Vec<StoredWallet> = Vec::new();
        let mut i: usize = 0;
        while i < n
            invariant
                n == self.entries@.len(),
                i <= n,
                entries@.len() == i,
                forall|j: int| 0 <= j < i ==> entries@[j]@ == self.entries@[j]@,
            decreases n - i,
        {
            let entry = &self.entries[i];
            entries.push(StoredWallet { key: entry.key, wallet: entry.wallet.duplicate() });
            i += 1;
        }
        proof {
            assert(entry_views(entries@) =~= entry_views(self.entries@));
        }
        WalletStorage { entries }
    }

    /// The wallets of the registry, in the order in which their names
    /// were first registered.
    pub fn get_wallets(&self) -> (wallets: Vec<Wallet>)
        ensures
            crate::adapter::storage::wallet_views(wallets@) == wallets_of(self@),
    {
        let n: usize = self.entries.len();
        let mut wallets: Vec<Wallet> = Vec::new();
        let mut i: usize = 0;
        while i < n
            invariant
                n == self.entries@.len(),
                i <= n,
                wallets@.len() == i,
                forall|j: int| 0 <= j < i ==> wallets@[j]@ == self.entries@[j]@.wallet,
            decreases n - i,
        {
            wallets.push(self.entries[i].wallet.duplicate());
            i += 1;
        }
        proof {
            assert(wallet_views(wallets@) =~= wallets_of(self@));
        }
        wallets
    }

    /// The wallet that is kept under `key`.
    pub fn get_by_key(&self, key: &[u8; 32]) -> (r: Option<Wallet>)
        ensures
            crate::adapter::connection::opt_wallet_view(r) == lookup(self@, key@),
    {
        let at = self.find(key);
        proof {
            lemma_position(self@, key@);
        }
        if at < self.entries.len() {
            Some(self.entries[at].wallet.duplicate())
        } else {
            None
        }
    }

    /// The wallet that is registered under `wallet_name`, in whatever case
    /// the name is written.
    pub fn get_wallet(&self, wallet_name: &str) -> (r: Option<Wallet>)
        ensures
            crate::adapter::connection::opt_wallet_view(r) == lookup(self@, key_of(wallet_name@)),
    {
        let key = WalletStorage::wallet_key(wallet_name);
        self.get_by_key(&key)
    }
}

/// The views of a list of wallets.
pub open spec fn wallet_views(wallets: Seq<Wallet>) -> Seq<WalletView> {
    wallets.map_values(|w: Wallet| w@)
}

} // verus!
