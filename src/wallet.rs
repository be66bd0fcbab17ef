use vstd::prelude::*;
use crate::error::ServiceError;
use crate::keys::{derive_keychains, keychain_descriptor, is_wpkh_wildcard};
use crate::network::NetworkKind;
use crate::queue::BlockQueue;
use crate::seed::phrase_is_valid;

verus! {

#[verifier::external_type_specification]
#[verifier::external_body]
pub struct ExWallet(bdk_wallet::Wallet);

#[verifier::external_type_specification]
#[verifier::external_body]
pub struct ExBlock(bitcoin::Block);

/// Number of scripts per keychain, from index 0, that are watched.
pub const WATCH_WINDOW: u32 = 20;

/// First derivation index past the BIP-32 range of normal children.
pub const INDEX_LIMIT: u32 = 0x8000_0000;

/// The address of each (keychain, index) in a wallet; `true` is the
/// receiving keychain.
pub uninterp spec fn wallet_addresses(w: bdk_wallet::Wallet) -> Map<(bool, u32), Seq<char>>;

/// The script pubkey of each (keychain, index) in a wallet.
pub uninterp spec fn wallet_scripts(w: bdk_wallet::Wallet) -> Map<(bool, u32), Seq<u8>>;

/// How many addresses of each keychain a wallet has revealed.
pub uninterp spec fn wallet_revealed(w: bdk_wallet::Wallet) -> Map<bool, nat>;

/// The values in satoshis of a wallet's unspent outputs, in the order that
/// `list_unspent` gives them.
pub uninterp spec fn wallet_unspent_values(w: bdk_wallet::Wallet) -> Seq<u64>;

/// The descriptors a wallet was built from: `true` for receiving, `false`
/// for change.
pub uninterp spec fn wallet_descriptors(w: bdk_wallet::Wallet) -> Map<bool, Seq<char>>;

/// The sum of a sequence of amounts.
pub open spec fn amount_sum(s: Seq<u64>) -> nat
    decreases s.len(),
{
    if s.len() == 0 {
        0
    } else {
        (amount_sum(s.drop_last()) + s.last()) as nat
    }
}

/// The balance of a wallet: the total of its unspent outputs.
pub open spec fn wallet_balance(w: bdk_wallet::Wallet) -> nat {
    amount_sum(wallet_unspent_values(w))
}

/// Both descriptors of a wallet are `wpkh(<key>/*)`, so that every index has
/// an address and revealing always moves on to a new index.
pub open spec fn wallet_is_wpkh(w: bdk_wallet::Wallet) -> bool {
    &&& wallet_descriptors(w).contains_key(true)
    &&& wallet_descriptors(w).contains_key(false)
    &&& is_wpkh_wildcard(wallet_descriptors(w)[true])
    &&& is_wpkh_wildcard(wallet_descriptors(w)[false])
}

/// Whether bdk builds a wallet from these two descriptors on a network.
pub uninterp spec fn wallet_builds(external: Seq<char>, internal: Seq<char>, n: NetworkKind) -> bool;

/// The address at an index of a descriptor, encoded for a network.
pub uninterp spec fn address_at(desc: Seq<char>, n: NetworkKind, i: u32) -> Seq<char>;

/// The script pubkey at an index of a descriptor.
pub uninterp spec fn script_at(desc: Seq<char>, i: u32) -> Seq<u8>;

/// Relies on `bdk_wallet::Wallet::create(..).network(..).create_wallet_no_persist()`:
/// whether it succeeds depends on the descriptors and the network alone; the
/// result is a fresh in-memory wallet whose keychains derive every index from
/// the two descriptors on the given network, with nothing revealed and no
/// unspent output yet.
#[verifier::external_body]
fn create_wallet(external: String, internal: String, n: NetworkKind) -> (r: Option<
    bdk_wallet::Wallet,
>)
    ensures
        r is Some <==> wallet_builds(external@, internal@, n),
        r matches Some(w) ==> {
            &&& wallet_unspent_values(w).len() == 0
            &&& wallet_descriptors(w) == map![true => external@, false => internal@]
            &&& forall|k: bool, i: u32|
                i < INDEX_LIMIT ==> #[trigger] wallet_addresses(w).contains_key((k, i))
            &&& forall|k: bool, i: u32|
                i < INDEX_LIMIT ==> #[trigger] wallet_addresses(w)[(k, i)] == address_at(
                    if k {
                        external@
                    } else {
                        internal@
                    },
                    n,
                    i,
                )
            &&& forall|k: bool, i: u32|
                i < INDEX_LIMIT ==> #[trigger] wallet_scripts(w).contains_key((k, i))
            &&& forall|k: bool, i: u32|
                i < INDEX_LIMIT ==> #[trigger] wallet_scripts(w)[(k, i)] == script_at(
                    if k {
                        external@
                    } else {
                        internal@
                    },
                    i,
                )
            &&& wallet_revealed(w) == map![true => 0nat, false => 0nat]
        },
{
    let net = match n {
        NetworkKind::Main => bitcoin::Network::Bitcoin,
        NetworkKind::Test => bitcoin::Network::Testnet,
        NetworkKind::Signet => bitcoin::Network::Signet,
        NetworkKind::Regtest => bitcoin::Network::Regtest,
    };
    bdk_wallet::Wallet::create(external, internal).network(net).create_wallet_no_persist().ok()
}

/// Relies on `bdk_wallet::Wallet::reveal_next_address` on the receiving
/// keychain. For a `wpkh(<key>/*)` keychain (a wildcard descriptor with an
/// address form, so nothing panics) below the BIP-32 limit it returns the
/// first unrevealed address and marks it revealed; once every index is
/// revealed it returns the last one again. Derivations are not changed.
#[verifier::external_body]
fn reveal_next_receiving(w: &mut bdk_wallet::Wallet) -> (r: String)
    requires
        wallet_is_wpkh(*old(w)),
    ensures
        wallet_descriptors(*final(w)) == wallet_descriptors(*old(w)),
        wallet_addresses(*final(w)) == wallet_addresses(*old(w)),
        wallet_scripts(*final(w)) == wallet_scripts(*old(w)),
        wallet_revealed(*old(w))[true] < INDEX_LIMIT ==> {
            &&& r@ == wallet_addresses(*old(w))[(true, wallet_revealed(*old(w))[true] as u32)]
            &&& wallet_revealed(*final(w)) == wallet_revealed(*old(w)).insert(
                true,
                wallet_revealed(*old(w))[true] + 1,
            )
        },
        wallet_revealed(*old(w))[true] >= INDEX_LIMIT ==> wallet_revealed(*final(w))
            == wallet_revealed(*old(w)) && r@ == wallet_addresses(*old(w))[(
            true,
            (INDEX_LIMIT - 1) as u32,
        )],
{
    w.reveal_next_address(bdk_wallet::KeychainKind::External).address.to_string()
}

/// Relies on `bdk_wallet::Wallet::peek_address`: the script pubkey at an
/// index, without revealing it. Below the BIP-32 limit and on `wpkh`
/// keychains (which always have an address form) it does not panic.
#[verifier::external_body]
fn peek_script(w: &bdk_wallet::Wallet, external: bool, i: u32) -> (r: Vec<u8>)
    requires
        i < INDEX_LIMIT,
        wallet_is_wpkh(*w),
    ensures
        r@ == wallet_scripts(*w)[(external, i)],
{
    let k = if external {
        bdk_wallet::KeychainKind::External
    } else {
        bdk_wallet::KeychainKind::Internal
    };
    w.peek_address(k, i).address.script_pubkey().into_bytes()
}

/// Relies on `bdk_wallet::Wallet::list_unspent`: the value of each unspent
/// output of the wallet, in satoshis. Nothing is added up here.
#[verifier::external_body]
fn unspent_values(w: &bdk_wallet::Wallet) -> (r: Vec<u64>)
    ensures
        r@ == wallet_unspent_values(*w),
{
    w.list_unspent().map(|o| o.txout.value.to_sat()).collect()
}

/// Relies on `bdk_wallet::Wallet::derivation_index`: the highest revealed
/// index of a keychain, `None` when nothing is revealed.
#[verifier::external_body]
fn last_revealed(w: &bdk_wallet::Wallet, external: bool) -> (r: Option<u32>)
    ensures
        r is None <==> wallet_revealed(*w)[external] == 0,
        r matches Some(i) ==> wallet_revealed(*w)[external] == i + 1,
{
    let k = if external {
        bdk_wallet::KeychainKind::External
    } else {
        bdk_wallet::KeychainKind::Internal
    };
    w.derivation_index(k)
}

/// Length of the watched window that starts at a reveal cursor: the window
/// size, cut short at the BIP-32 limit.
pub open spec fn window_len(cursor: nat) -> nat {
    if cursor + WATCH_WINDOW <= INDEX_LIMIT {
        WATCH_WINDOW as nat
    } else if cursor <= INDEX_LIMIT {
        (INDEX_LIMIT - cursor) as nat
    } else {
        0
    }
}

/// The in-memory HD wallet of a running node, with the descriptors it was
/// derived from and its queue of blocks waiting to be absorbed.
pub struct WalletManager {
    wallet: bdk_wallet::Wallet,
    network: NetworkKind,
    external_descriptor: String,
    internal_descriptor: String,
    phrase: Ghost<Seq<char>>,
    pending: BlockQueue<bitcoin::Block>,
}

impl WalletManager {
    /// The phrase the wallet was derived from.
    pub closed spec fn phrase(&self) -> Seq<char> {
        self.phrase@
    }

    pub closed spec fn network_spec(&self) -> NetworkKind {
        self.network
    }

    /// The descriptor of a keychain (`true`: receiving, `false`: change).
    pub closed spec fn descriptor(&self, external: bool) -> Seq<char> {
        if external {
            self.external_descriptor@
        } else {
            self.internal_descriptor@
        }
    }

    /// The address at an index of a keychain.
    pub open spec fn address(&self, external: bool, i: u32) -> Seq<char> {
        wallet_addresses(self.wallet_spec())[(external, i)]
    }

    /// The script pubkey at an index of a keychain.
    pub open spec fn script(&self, external: bool, i: u32) -> Seq<u8> {
        wallet_scripts(self.wallet_spec())[(external, i)]
    }

    /// The bdk wallet itself.
    pub closed spec fn wallet_spec(&self) -> bdk_wallet::Wallet {
        self.wallet
    }

    /// How many addresses of a keychain were revealed: the reveal cursor.
    pub open spec fn revealed_of(&self, external: bool) -> nat {
        wallet_revealed(self.wallet_spec())[external]
    }

    /// The address the next reveal hands out: the first unrevealed one, or
    /// the last index's once every index is revealed.
    pub open spec fn next_address(&self) -> Seq<char> {
        if self.revealed() < INDEX_LIMIT {
            self.address(true, self.revealed() as u32)
        } else {
            self.address(true, (INDEX_LIMIT - 1) as u32)
        }
    }

    /// How many receiving addresses were revealed.
    pub open spec fn revealed(&self) -> nat {
        self.revealed_of(true)
    }

    /// How many change addresses were revealed.
    pub open spec fn revealed_change(&self) -> nat {
        self.revealed_of(false)
    }

    /// The scripts watched on a keychain: from its reveal cursor on, the
    /// next `WATCH_WINDOW` indices, cut short at the BIP-32 limit.
    pub open spec fn watch_window(&self, external: bool) -> Seq<Seq<u8>> {
        Seq::new(
            window_len(self.revealed_of(external)),
            |j: int| script_at(self.descriptor(external), (self.revealed_of(external) + j) as u32),
        )
    }

    pub closed spec fn queue(&self) -> BlockQueue<bitcoin::Block> {
        self.pending
    }

    pub closed spec fn wf(&self) -> bool {
        &&& phrase_is_valid(self.phrase@)
        &&& keychain_descriptor(self.phrase@, self.network, true) == Some(
            self.external_descriptor@,
        )
        &&& keychain_descriptor(self.phrase@, self.network, false) == Some(
            self.internal_descriptor@,
        )
        &&& forall|k: bool, i: u32|
            i < INDEX_LIMIT ==> #[trigger] wallet_addresses(self.wallet).contains_key((k, i))
        &&& forall|k: bool, i: u32|
            i < INDEX_LIMIT ==> #[trigger] wallet_addresses(self.wallet)[(k, i)] == address_at(
                self.descriptor(k),
                self.network,
                i,
            )
        &&& forall|k: bool, i: u32|
            i < INDEX_LIMIT ==> #[trigger] wallet_scripts(self.wallet).contains_key((k, i))
        &&& forall|k: bool, i: u32|
            i < INDEX_LIMIT ==> #[trigger] wallet_scripts(self.wallet)[(k, i)] == script_at(
                self.descriptor(k),
                i,
            )
        &&& wallet_descriptors(self.wallet) == map![
            true => self.external_descriptor@,
            false => self.internal_descriptor@,
        ]
        &&& wallet_is_wpkh(self.wallet)
        &&& wallet_revealed(self.wallet).contains_key(true)
        &&& wallet_revealed(self.wallet).contains_key(false)
        &&& wallet_revealed(self.wallet)[true] <= INDEX_LIMIT
        &&& wallet_revealed(self.wallet)[false] <= INDEX_LIMIT
        &&& self.pending.wf()
    }

    /// Builds the wallet of a phrase on a network: derives both keychain
    /// descriptors and creates an empty in-memory wallet over them.
    /// `Format` if the phrase does not parse, `Derivation` if a derivation step
    /// fails, `WalletCreate` if bdk refuses the descriptors; otherwise a fresh
    /// wallet over the BIP-84 descriptors of the phrase.
    pub fn init(phrase: &str, network: NetworkKind) -> (r: Result<Self, ServiceError>)
        ensures
            !phrase_is_valid(phrase@) ==> r == Err::<Self, ServiceError>(ServiceError::Format),
            phrase_is_valid(phrase@) && (keychain_descriptor(phrase@, network, true) is None
                || keychain_descriptor(phrase@, network, false) is None) ==> r
                == Err::<Self, ServiceError>(ServiceError::Derivation),
            phrase_is_valid(phrase@) && keychain_descriptor(phrase@, network, true) is Some
                && keychain_descriptor(phrase@, network, false) is Some ==> (if wallet_builds(
                keychain_descriptor(phrase@, network, true)->0,
                keychain_descriptor(phrase@, network, false)->0,
                network,
            ) {
                r is Ok
            } else {
                r == Err::<Self, ServiceError>(ServiceError::WalletCreate)
            }),
            r matches Ok(m) ==> {
                &&& m.wf()
                &&& m.phrase() == phrase@
                &&& m.network_spec() == network
                &&& Some(m.descriptor(true)) == keychain_descriptor(phrase@, network, true)
                &&& Some(m.descriptor(false)) == keychain_descriptor(phrase@, network, false)
                &&& m.revealed() == 0
                &&& m.revealed_change() == 0
                &&& wallet_balance(m.wallet_spec()) == 0
                &&& wallet_is_wpkh(m.wallet_spec())
                &&& m.queue().pending().len() == 0
                &&& m.queue().enqueued_total() == 0
                &&& m.queue().drained_total() == 0
            },
    {
        let (external, internal) = match derive_keychains(phrase, network) {
            Ok(pair) => pair,
            Err(e) => return Err(e),
        };
        match create_wallet(external.clone(), internal.clone(), network) {
            Some(wallet) => {
                let m = WalletManager {
                    wallet,
                    network,
                    external_descriptor: external,
                    internal_descriptor: internal,
                    phrase: Ghost(phrase@),
                    pending: BlockQueue::new(),
                };
                Ok(m)
            },
            None => Err(ServiceError::WalletCreate),
        }
    }

    pub fn network(&self) -> (r: NetworkKind)
        ensures
            r == self.network_spec(),
    {
        self.network
    }

    /// The wallet's total balance in satoshis.
    /// `None` only when the total does not fit in a `u64` (far beyond the
    /// coin supply).
    pub fn get_balance(&self) -> (r: Option<u64>)
        ensures
            r is Some <==> wallet_balance(self.wallet_spec()) <= u64::MAX,
            r matches Some(b) ==> b == wallet_balance(self.wallet_spec()),
    {
        let values = unspent_values(&self.wallet);
        let mut total: u64 = 0;
        let mut i: usize = 0;
        while i < values.len()
            invariant
                values@ == wallet_unspent_values(self.wallet_spec()),
                i <= values@.len(),
                total == amount_sum(values@.take(i as int)),
            decreases values@.len() - i,
        {
            assert(values@.take(i as int + 1).drop_last() =~= values@.take(i as int));
            if values[i] > u64::MAX - total {
                proof {
                    lemma_amount_sum_prefix(values@, i as int + 1);
                }
                return None;
            }
            total = total + values[i];
            i = i + 1;
        }
        assert(values@.take(values@.len() as int) =~= values@);
        Some(total)
    }

    /// Reveals the next receiving address and advances the cursor, so that an
    /// address is never handed out twice.
    pub fn get_address(&mut self) -> (r: String)
        requires
            old(self).wf(),
        ensures
            final(self).wf(),
            final(self).phrase() == old(self).phrase(),
            final(self).network_spec() == old(self).network_spec(),
            final(self).queue() == old(self).queue(),
            final(self).revealed_change() == old(self).revealed_change(),
            r@ == old(self).next_address(),
            old(self).revealed() < INDEX_LIMIT ==> final(self).revealed() == old(self).revealed()
                + 1,
            old(self).revealed() >= INDEX_LIMIT ==> final(self).revealed() == old(self).revealed(),
    {
        reveal_next_receiving(&mut self.wallet)
    }

    /// Queues a block for absorption; never blocks.
    pub fn queue_block(&mut self, block: bitcoin::Block, height: u32)
        requires
            old(self).wf(),
        ensures
            final(self).wf(),
            final(self).phrase() == old(self).phrase(),
            final(self).network_spec() == old(self).network_spec(),
            final(self).wallet_spec() == old(self).wallet_spec(),
            final(self).queue().pending() == old(self).queue().pending().push((block, height)),
            final(self).queue().enqueued_total() == old(self).queue().enqueued_total() + 1,
            final(self).queue().drained_total() == old(self).queue().drained_total(),
    {
        self.pending.enqueue(block, height);
    }

    /// Removes every queued block at once and returns how many there were.
    pub fn process_pending_blocks(&mut self) -> (r: usize)
        requires
            old(self).wf(),
        ensures
            final(self).wf(),
            final(self).phrase() == old(self).phrase(),
            final(self).network_spec() == old(self).network_spec(),
            final(self).wallet_spec() == old(self).wallet_spec(),
            r == old(self).queue().pending().len(),
            final(self).queue().pending().len() == 0,
            final(self).queue().enqueued_total() == old(self).queue().enqueued_total(),
            final(self).queue().drained_total() == old(self).queue().drained_total() + r,
    {
        let drained = self.pending.drain();
        drained.len()
    }

    /// The reveal cursor of a keychain.
    fn revealed_count(&self, external: bool) -> (r: u64)
        requires
            self.wf(),
        ensures
            r == self.revealed_of(external),
            r <= INDEX_LIMIT,
    {
        match last_revealed(&self.wallet, external) {
            Some(i) => i as u64 + 1,
            None => 0,
        }
    }

    /// Appends the watched window of a keychain to `scripts`.
    fn push_window(&self, scripts: &mut Vec<Vec<u8>>, external: bool)
        requires
            self.wf(),
        ensures
            final(scripts)@.len() == old(scripts)@.len() + self.watch_window(external).len(),
            forall|j: int| 0 <= j < old(scripts)@.len() ==> #[trigger] final(scripts)@[j] == old(scripts)@[j],
            forall|j: int|
                0 <= j < self.watch_window(external).len() ==> #[trigger] final(scripts)@[old(
                    scripts,
                )@.len() + j]@ == self.watch_window(external)[j],
    {
        let start = self.revealed_count(external);
        let end: u64 = if start + WATCH_WINDOW as u64 <= INDEX_LIMIT as u64 {
            start + WATCH_WINDOW as u64
        } else {
            INDEX_LIMIT as u64
        };
        let ghost base = scripts@.len();
        let mut i: u64 = start;
        while i < end
            invariant
                self.wf(),
                start == self.revealed_of(external),
                end == start + window_len(start as nat),
                end <= INDEX_LIMIT,
                start <= i <= end,
                scripts@.len() == base + (i - start),
                base == old(scripts)@.len(),
                forall|j: int| 0 <= j < base ==> #[trigger] scripts@[j] == old(scripts)@[j],
                forall|j: int|
                    0 <= j < i - start ==> #[trigger] scripts@[base + j]@ == script_at(
                        self.descriptor(external),
                        (start + j) as u32,
                    ),
            decreases end - i,
        {
            let s = peek_script(&self.wallet, external, i as u32);
            scripts.push(s);
            i = i + 1;
        }
    }

    /// The scripts to watch: the window of unused receiving scripts from the
    /// receiving cursor on, then that of the change keychain. It moves with
    /// the cursors, so it is recomputed on every call.
    pub fn get_script_pubkeys(&self) -> (r: Vec<Vec<u8>>)
        requires
            self.wf(),
        ensures
            r@.len() == self.watch_window(true).len() + self.watch_window(false).len(),
            forall|j: int|
                0 <= j < self.watch_window(true).len() ==> #[trigger] r@[j]@ == self.watch_window(
                    true,
                )[j],
            forall|j: int|
                0 <= j < self.watch_window(false).len() ==> #[trigger] r@[self.watch_window(
                    true,
                ).len() + j]@ == self.watch_window(false)[j],
    {
        let mut scripts: Vec<Vec<u8>> = Vec::new();
        self.push_window(&mut scripts, true);
        let ghost mid = scripts@;
        assert forall|j: int| 0 <= j < self.watch_window(true).len() implies #[trigger] mid[j]@
            == self.watch_window(true)[j] by {
            assert(mid[0 + j] == mid[j]);
        }
        self.push_window(&mut scripts, false);
        assert forall|j: int| 0 <= j < self.watch_window(true).len() implies #[trigger] scripts@[j]@
            == self.watch_window(true)[j] by {
            assert(scripts@[j] == mid[j]);
        }
        scripts
    }

    /// The underlying wallet, for read-only views.
    pub fn wallet(&self) -> &bdk_wallet::Wallet {
        &self.wallet
    }
}

/// A prefix of a sequence of amounts never sums to more than the whole.
pub proof fn lemma_amount_sum_prefix(s: Seq<u64>, n: int)
    requires
        0 <= n <= s.len(),
    ensures
        amount_sum(s.take(n)) <= amount_sum(s),
    decreases s.len(),
{
    if n < s.len() {
        assert(s.take(n) =~= s.drop_last().take(n));
        lemma_amount_sum_prefix(s.drop_last(), n);
    } else {
        assert(s.take(n) =~= s);
    }
}

/// No block handed to a wallet is lost or counted twice: the blocks counted
/// by all drains so far plus those still queued are exactly those ever
/// queued. With the queue empty, the drains' counts add up to the number of
/// blocks queued.
pub proof fn lemma_wallet_queue_accounting(m: &WalletManager)
    requires
        m.wf(),
    ensures
        m.queue().drained_total() + m.queue().pending().len() == m.queue().enqueued_total(),
        m.queue().pending().len() == 0 ==> m.queue().drained_total() == m.queue().enqueued_total(),
{
    crate::queue::lemma_queue_accounting(&m.pending);
}

/// Two wallets built from the same phrase on the same network derive the
/// same address and the same script at every index of both keychains.
pub proof fn lemma_wallet_derivation_deterministic(a: &WalletManager, b: &WalletManager)
    requires
        a.wf(),
        b.wf(),
        a.phrase() == b.phrase(),
        a.network_spec() == b.network_spec(),
    ensures
        forall|k: bool, i: u32|
            i < INDEX_LIMIT ==> #[trigger] a.address(k, i) == b.address(k, i) && a.script(k, i)
                == b.script(k, i),
        a.revealed() == b.revealed() ==> a.next_address() == b.next_address(),
        forall|k: bool|
            a.revealed_of(k) == b.revealed_of(k) ==> #[trigger] a.watch_window(k)
                == b.watch_window(k),
{
    assert forall|k: bool, i: u32| i < INDEX_LIMIT implies #[trigger] a.address(k, i) == b.address(
        k,
        i,
    ) && a.script(k, i) == b.script(k, i) by {
        assert(a.descriptor(k) == b.descriptor(k));
    }
    assert forall|k: bool| a.revealed_of(k) == b.revealed_of(k) implies #[trigger] a.watch_window(
        k,
    ) == b.watch_window(k) by {
        assert(a.descriptor(k) == b.descriptor(k));
        assert(a.watch_window(k) =~= b.watch_window(k));
    }
}

} // verus!
