use vstd::prelude::*;
use crate::error::{ServiceError, error_text};
use vstd::string::StringExecFns;
use crate::network::{NetworkKind, network_of, parse_network};
use crate::wallet::{WalletManager, INDEX_LIMIT, wallet_balance};

verus! {

/// Lifecycle of the node: `Inactive -> Starting -> Running -> ShuttingDown ->
/// Inactive`, with `Failed` reachable from `Starting` (and from
/// `ShuttingDown` when the shutdown itself fails) until the next start.
#[derive(Debug, Clone, Copy, PartialEq, Eq, Structural)]
pub enum NodeStatus {
    Inactive,
    Starting,
    Running,
    ShuttingDown,
    Failed(ServiceError),
}

impl NodeStatus {
    /// Upper-case label of the state, as shown to the user; a failure carries
    /// its error's description.
    pub fn label(&self) -> (r: String)
        ensures
            r@ == match *self {
                NodeStatus::Inactive => "INACTIVE"@,
                NodeStatus::Starting => "STARTING"@,
                NodeStatus::Running => "RUNNING"@,
                NodeStatus::ShuttingDown => "SHUTTING DOWN"@,
                NodeStatus::Failed(e) => "FAILED ["@ + error_text(e) + "]"@,
            },
    {
        match self {
            NodeStatus::Inactive => String::from_str("INACTIVE"),
            NodeStatus::Starting => String::from_str("STARTING"),
            NodeStatus::Running => String::from_str("RUNNING"),
            NodeStatus::ShuttingDown => String::from_str("SHUTTING DOWN"),
            NodeStatus::Failed(e) => {
                let mut t = String::from_str("FAILED [");
                let d = e.description();
                t.append(d.as_str());
                t.append("]");
                t
            },
        }
    }
}

/// Balance and a fresh receiving address, for display.
#[derive(Debug, Clone)]
pub struct WalletInfo {
    pub balance_sats: u64,
    pub address: String,
}

/// The process-wide state of the light client: at most one node handle and
/// one wallet, the lifecycle state, and the number of leases currently held
/// on the node handle. `N` is the node handle type.
pub struct AppContext<N> {
    node: Option<N>,
    wallet: Option<WalletManager>,
    status: NodeStatus,
    leases: u32,
}

/// What a start request decides, before any node is built.
pub open spec fn start_outcome<N>(c: AppContext<N>, network: Seq<char>) -> Result<
    NetworkKind,
    ServiceError,
> {
    if c.busy() {
        Err(ServiceError::AlreadyRunning)
    } else {
        match network_of(network) {
            Some(k) => Ok(k),
            None => Err(ServiceError::InvalidNetwork),
        }
    }
}

impl<N> AppContext<N> {
    pub closed spec fn node_spec(&self) -> Option<N> {
        self.node
    }

    pub closed spec fn wallet_spec(&self) -> Option<WalletManager> {
        self.wallet
    }

    pub closed spec fn status_spec(&self) -> NodeStatus {
        self.status
    }

    pub closed spec fn leases_spec(&self) -> nat {
        self.leases as nat
    }

    /// A node is installed. (A context left in `Starting` by an abandoned
    /// start does not block the next one: the whole start runs under the
    /// caller's write lock.)
    pub open spec fn busy(&self) -> bool {
        self.node_spec() is Some
    }

    pub closed spec fn wf(&self) -> bool {
        &&& (self.node is Some <==> self.status == NodeStatus::Running)
        &&& (self.wallet is Some ==> self.node is Some)
        &&& (self.wallet matches Some(w) ==> w.wf())
        &&& (self.leases > 0 ==> self.node is Some)
        &&& self.leases < u32::MAX
    }

    pub fn new() -> (r: Self)
        ensures
            r.wf(),
            r.node_spec() is None,
            r.wallet_spec() is None,
            r.status_spec() == NodeStatus::Inactive,
            r.leases_spec() == 0,
    {
        AppContext { node: None, wallet: None, status: NodeStatus::Inactive, leases: 0 }
    }

    /// Whether a node handle is installed.
    pub fn is_node_running(&self) -> (r: bool)
        ensures
            r == self.node_spec() is Some,
    {
        self.node.is_some()
    }

    pub fn status(&self) -> (r: NodeStatus)
        ensures
            r == self.status_spec(),
    {
        self.status
    }

    pub fn node(&self) -> (r: Option<&N>)
        ensures
            r matches Some(n) ==> self.node_spec() == Some(*n),
            r is None ==> self.node_spec() is None,
    {
        self.node.as_ref()
    }

    pub fn wallet(&self) -> (r: Option<&WalletManager>)
        ensures
            r matches Some(w) ==> self.wallet_spec() == Some(*w),
            r is None ==> self.wallet_spec() is None,
    {
        self.wallet.as_ref()
    }

    /// First half of a start: refuses with `AlreadyRunning` while a node is
    /// installed, and with `InvalidNetwork` on an unknown
    /// network name; both refusals leave the context untouched. On success
    /// the context enters `Starting` and the caller builds the node.
    pub fn begin_start(&mut self, network: &str) -> (r: Result<NetworkKind, ServiceError>)
        requires
            old(self).wf(),
        ensures
            final(self).wf(),
            r == start_outcome(*old(self), network@),
            r is Err ==> *final(self) == *old(self),
            r is Ok ==> final(self).status_spec() == NodeStatus::Starting && final(self).node_spec()
                is None && final(self).wallet_spec() is None && final(self).leases_spec() == 0,
    {
        if self.node.is_some() {
            return Err(ServiceError::AlreadyRunning);
        }
        match parse_network(network) {
            Some(k) => {
                self.status = NodeStatus::Starting;
                self.wallet = None;
                Ok(k)
            },
            None => Err(ServiceError::InvalidNetwork),
        }
    }

    /// The node could not be built: no handle is installed and the context
    /// records the failure.
    pub fn fail_start(&mut self, e: ServiceError)
        requires
            old(self).wf(),
            old(self).status_spec() == NodeStatus::Starting,
        ensures
            final(self).wf(),
            final(self).status_spec() == NodeStatus::Failed(e),
            final(self).node_spec() is None,
            final(self).wallet_spec() is None,
            final(self).leases_spec() == 0,
    {
        self.status = NodeStatus::Failed(e);
    }

    /// Second half of a start, once the node is built and its block
    /// subscribers installed. With a wallet, both are committed and the
    /// context is `Running`. If the wallet could not be initialised, the start
    /// is rolled back: nothing is installed, the context records the failure,
    /// and the node is handed back to be shut down.
    pub fn finish_start(&mut self, node: N, wallet: Result<WalletManager, ServiceError>) -> (r:
        Result<(), (ServiceError, N)>)
        requires
            old(self).wf(),
            old(self).status_spec() == NodeStatus::Starting,
            wallet matches Ok(w) ==> w.wf(),
        ensures
            final(self).wf(),
            final(self).leases_spec() == 0,
            wallet matches Ok(w) ==> (r is Ok && final(self).node_spec() == Some(node)
                && final(self).wallet_spec() == Some(w) && final(self).status_spec()
                == NodeStatus::Running),
            wallet matches Err(e) ==> (r == Err::<(), (ServiceError, N)>((e, node))
                && final(self).node_spec() is None && final(self).wallet_spec() is None
                && final(self).status_spec() == NodeStatus::Failed(e)),
    {
        match wallet {
            Ok(w) => {
                self.node = Some(node);
                self.wallet = Some(w);
                self.status = NodeStatus::Running;
                Ok(())
            },
            Err(e) => {
                self.status = NodeStatus::Failed(e);
                Err((e, node))
            },
        }
    }

    /// Takes a lease on the node handle; refused (`false`, nothing changed)
    /// when no node is installed or the count of references (leases plus the
    /// context's own) would no longer fit in a `u32`.
    pub fn acquire_lease(&mut self) -> (r: bool)
        requires
            old(self).wf(),
        ensures
            final(self).wf(),
            final(self).node_spec() == old(self).node_spec(),
            final(self).wallet_spec() == old(self).wallet_spec(),
            final(self).status_spec() == old(self).status_spec(),
            r == (old(self).node_spec() is Some && old(self).leases_spec() + 1 < u32::MAX),
            r ==> final(self).leases_spec() == old(self).leases_spec() + 1,
            !r ==> final(self).leases_spec() == old(self).leases_spec(),
    {
        if self.node.is_some() && self.leases < u32::MAX - 1 {
            self.leases = self.leases + 1;
            true
        } else {
            false
        }
    }

    /// Gives a lease back; without one held, nothing changes.
    pub fn release_lease(&mut self)
        requires
            old(self).wf(),
        ensures
            final(self).wf(),
            final(self).node_spec() == old(self).node_spec(),
            final(self).wallet_spec() == old(self).wallet_spec(),
            final(self).status_spec() == old(self).status_spec(),
            old(self).leases_spec() > 0 ==> final(self).leases_spec() == old(self).leases_spec()
                - 1,
            old(self).leases_spec() == 0 ==> final(self).leases_spec() == 0,
    {
        if self.leases > 0 {
            self.leases = self.leases - 1;
        }
    }

    /// First half of a stop. With no node installed it succeeds as a no-op
    /// (`Ok(None)`). While leases are held it fails with `Busy(count)`, the
    /// count of references to the handle (the leases and the context's own),
    /// and changes nothing. Otherwise the node and the wallet are removed, the
    /// context enters `ShuttingDown`, and the node is handed out to be shut
    /// down.
    pub fn begin_stop(&mut self) -> (r: Result<Option<N>, ServiceError>)
        requires
            old(self).wf(),
        ensures
            final(self).wf(),
            old(self).node_spec() is None ==> (r == Ok::<Option<N>, ServiceError>(None)
                && *final(self) == *old(self)),
            old(self).node_spec() is Some && old(self).leases_spec() > 0 ==> r == Err::<
                Option<N>,
                ServiceError,
            >(ServiceError::Busy((old(self).leases_spec() + 1) as u32)) && *final(self) == *old(self),
            old(self).node_spec() is Some && old(self).leases_spec() == 0 ==> r == Ok::<
                Option<N>,
                ServiceError,
            >(old(self).node_spec()) && final(self).node_spec() is None && final(self).wallet_spec()
                is None && final(self).status_spec() == NodeStatus::ShuttingDown,
    {
        if self.node.is_none() {
            return Ok(None);
        }
        if self.leases > 0 {
            return Err(ServiceError::Busy(self.leases + 1));
        }
        let node = self.node.take();
        self.wallet = None;
        self.status = NodeStatus::ShuttingDown;
        Ok(node)
    }

    /// Records how the shutdown of the node handed out by `begin_stop` went:
    /// `Inactive` after a clean shutdown, `Failed` otherwise. Either way no
    /// handle is installed, and the shutdown's result is passed on.
    pub fn finish_stop(&mut self, shutdown: Result<(), ServiceError>) -> (r: Result<(), ServiceError>)
        requires
            old(self).wf(),
            old(self).status_spec() == NodeStatus::ShuttingDown,
        ensures
            final(self).wf(),
            r == shutdown,
            shutdown is Ok ==> final(self).status_spec() == NodeStatus::Inactive,
            shutdown matches Err(e) ==> final(self).status_spec() == NodeStatus::Failed(e),
            final(self).node_spec() is None,
            final(self).wallet_spec() is None,
            final(self).leases_spec() == 0,
    {
        match shutdown {
            Ok(()) => {
                self.status = NodeStatus::Inactive;
            },
            Err(e) => {
                self.status = NodeStatus::Failed(e);
            },
        }
        shutdown
    }

    /// Balance (saturated to `u64`) and the next receiving address; `None`
    /// when no wallet exists.
    pub fn wallet_info(&mut self) -> (r: Option<WalletInfo>)
        requires
            old(self).wf(),
        ensures
            final(self).wf(),
            final(self).node_spec() == old(self).node_spec(),
            final(self).status_spec() == old(self).status_spec(),
            final(self).leases_spec() == old(self).leases_spec(),
            old(self).wallet_spec() is None ==> r is None && final(self).wallet_spec() is None,
            old(self).wallet_spec() matches Some(w) ==> (final(self).wallet_spec() matches Some(w2)
                && r is Some && r->0.balance_sats == (if wallet_balance(w.wallet_spec())
                <= u64::MAX {
                wallet_balance(w.wallet_spec())
            } else {
                u64::MAX as nat
            }) && w2.revealed_change() == w.revealed_change() && w2.revealed() == (
            if w.revealed() < INDEX_LIMIT {
                w.revealed() + 1
            } else {
                w.revealed()
            }) && r->0.address@ == w.next_address()),
    {
        match self.wallet.as_mut() {
            Some(w) => {
                let balance_sats = match w.get_balance() {
                    Some(b) => b,
                    None => u64::MAX,
                };
                let address = w.get_address();
                Some(WalletInfo { balance_sats, address })
            },
            None => None,
        }
    }

    /// Takes every queued block off the wallet's queue and returns how many
    /// there were (saturated to `u32`); `NotRunning` when no wallet exists.
    /// The blocks are only counted: the wallet's view of the chain comes from
    /// the node's scan, not from these blocks.
    pub fn sync_wallet(&mut self) -> (r: Result<u32, ServiceError>)
        requires
            old(self).wf(),
        ensures
            final(self).wf(),
            final(self).node_spec() == old(self).node_spec(),
            final(self).status_spec() == old(self).status_spec(),
            final(self).leases_spec() == old(self).leases_spec(),
            old(self).wallet_spec() is None ==> r == Err::<u32, ServiceError>(
                ServiceError::NotRunning,
            ) && final(self).wallet_spec() is None,
            old(self).wallet_spec() matches Some(w) ==> (final(self).wallet_spec() matches Some(w2)
                && r matches Ok(n) && (if w.queue().pending().len() <= u32::MAX {
                n == w.queue().pending().len()
            } else {
                n == u32::MAX
            }) && w2.queue().pending().len() == 0 && w2.queue().drained_total()
                == w.queue().drained_total() + w.queue().pending().len()
                && w2.queue().enqueued_total() == w.queue().enqueued_total()),
    {
        match self.wallet.as_mut() {
            Some(w) => {
                let processed = w.process_pending_blocks();
                if processed > u32::MAX as usize {
                    Ok(u32::MAX)
                } else {
                    Ok(processed as u32)
                }
            },
            None => Err(ServiceError::NotRunning),
        }
    }

    /// Hands a validated block to the wallet's queue; dropped when no wallet
    /// exists.
    pub fn deliver_block(&mut self, block: bitcoin::Block, height: u32)
        requires
            old(self).wf(),
        ensures
            final(self).wf(),
            final(self).node_spec() == old(self).node_spec(),
            final(self).status_spec() == old(self).status_spec(),
            final(self).leases_spec() == old(self).leases_spec(),
            old(self).wallet_spec() is None ==> final(self).wallet_spec() is None,
            old(self).wallet_spec() matches Some(w) ==> (final(self).wallet_spec() matches Some(w2)
                && w2.queue().pending() == w.queue().pending().push((block, height))
                && w2.queue().enqueued_total() == w.queue().enqueued_total() + 1
                && w2.queue().drained_total() == w.queue().drained_total()),
    {
        match self.wallet.as_mut() {
            Some(w) => w.queue_block(block, height),
            None => {},
        }
    }
}

/// The block subscriber that feeds the wallet: each validated block is put
/// on the wallet's pending queue, never absorbed inline.
pub struct WalletBlockConsumer;

impl WalletBlockConsumer {
    /// The wallet does not need the outputs a block spends.
    pub fn wants_spent_utxos(&self) -> (r: bool)
        ensures
            !r,
    {
        false
    }

    /// Delivers one validated block: queued on the wallet when there is one,
    /// dropped otherwise.
    pub fn on_block<N>(&self, ctx: &mut AppContext<N>, block: bitcoin::Block, height: u32)
        requires
            old(ctx).wf(),
        ensures
            final(ctx).wf(),
            final(ctx).node_spec() == old(ctx).node_spec(),
            final(ctx).status_spec() == old(ctx).status_spec(),
            final(ctx).leases_spec() == old(ctx).leases_spec(),
            old(ctx).wallet_spec() is None ==> final(ctx).wallet_spec() is None,
            old(ctx).wallet_spec() matches Some(w) ==> (final(ctx).wallet_spec() matches Some(w2)
                && w2.queue().pending() == w.queue().pending().push((block, height))),
    {
        ctx.deliver_block(block, height);
    }
}

/// The block subscriber that keeps statistics: how many blocks arrived and
/// the height of the latest.
pub struct StatsBlockConsumer {
    blocks_seen: u64,
    last_height: Option<u32>,
}

impl StatsBlockConsumer {
    pub closed spec fn seen_spec(&self) -> u64 {
        self.blocks_seen
    }

    pub closed spec fn last_height_spec(&self) -> Option<u32> {
        self.last_height
    }

    pub fn new() -> (r: Self)
        ensures
            r.seen_spec() == 0,
            r.last_height_spec() is None,
    {
        StatsBlockConsumer { blocks_seen: 0, last_height: None }
    }

    /// Counts one block (saturating) and records its height.
    pub fn on_block(&mut self, height: u32)
        ensures
            final(self).seen_spec() == (if old(self).seen_spec() < u64::MAX {
                (old(self).seen_spec() + 1) as u64
            } else {
                u64::MAX
            }),
            final(self).last_height_spec() == Some(height),
    {
        if self.blocks_seen < u64::MAX {
            self.blocks_seen = self.blocks_seen + 1;
        }
        self.last_height = Some(height);
    }

    pub fn blocks_seen(&self) -> (r: u64)
        ensures
            r == self.seen_spec(),
    {
        self.blocks_seen
    }

    pub fn last_height(&self) -> (r: Option<u32>)
        ensures
            r == self.last_height_spec(),
    {
        self.last_height
    }
}

/// The kinds of block subscriber.
#[derive(Debug, Clone, Copy, PartialEq, Eq, Structural)]
pub enum BlockSubscriber {
    Stats,
    Wallet,
}

/// The registry of block subscribers that the supervisor runs for every
/// validated block: a set of subscriber kinds, each at most once.
pub struct BlockPipeline {
    stats_on: bool,
    wallet_on: bool,
    stats: StatsBlockConsumer,
    wallet: WalletBlockConsumer,
}

impl BlockPipeline {
    pub closed spec fn has(&self, s: BlockSubscriber) -> bool {
        match s {
            BlockSubscriber::Stats => self.stats_on,
            BlockSubscriber::Wallet => self.wallet_on,
        }
    }

    pub closed spec fn stats_spec(&self) -> StatsBlockConsumer {
        self.stats
    }

    /// An empty registry.
    pub fn new() -> (r: Self)
        ensures
            !r.has(BlockSubscriber::Stats),
            !r.has(BlockSubscriber::Wallet),
            r.stats_spec().seen_spec() == 0,
            r.stats_spec().last_height_spec() is None,
    {
        BlockPipeline {
            stats_on: false,
            wallet_on: false,
            stats: StatsBlockConsumer::new(),
            wallet: WalletBlockConsumer,
        }
    }

    /// Registers a subscriber kind; registering it again changes nothing.
    pub fn subscribe(&mut self, s: BlockSubscriber)
        ensures
            final(self).has(s),
            forall|t: BlockSubscriber| t != s ==> final(self).has(t) == old(self).has(t),
            final(self).stats_spec() == old(self).stats_spec(),
    {
        match s {
            BlockSubscriber::Stats => self.stats_on = true,
            BlockSubscriber::Wallet => self.wallet_on = true,
        }
    }

    /// The statistics kept so far.
    pub fn stats(&self) -> (r: &StatsBlockConsumer)
        ensures
            *r == self.stats_spec(),
    {
        &self.stats
    }

    /// Runs every registered subscriber on one validated block: the statistics
    /// record it, the wallet queues it. Unregistered kinds see nothing.
    pub fn deliver<N>(&mut self, ctx: &mut AppContext<N>, block: bitcoin::Block, height: u32)
        requires
            old(ctx).wf(),
        ensures
            final(ctx).wf(),
            final(ctx).node_spec() == old(ctx).node_spec(),
            final(ctx).status_spec() == old(ctx).status_spec(),
            final(ctx).leases_spec() == old(ctx).leases_spec(),
            forall|t: BlockSubscriber| final(self).has(t) == old(self).has(t),
            old(self).has(BlockSubscriber::Stats) ==> final(self).stats_spec().last_height_spec()
                == Some(height),
            !old(self).has(BlockSubscriber::Stats) ==> final(self).stats_spec() == old(self).stats_spec(),
            !old(self).has(BlockSubscriber::Wallet) ==> final(ctx).wallet_spec() == old(ctx).wallet_spec(),
            old(self).has(BlockSubscriber::Wallet) && old(ctx).wallet_spec() is None ==> final(ctx).wallet_spec() is None,
            old(self).has(BlockSubscriber::Wallet) ==> (old(ctx).wallet_spec() matches Some(w)
                ==> (final(ctx).wallet_spec() matches Some(w2) && w2.queue().pending()
                == w.queue().pending().push((block, height)))),
    {
        if self.stats_on {
            self.stats.on_block(height);
        }
        if self.wallet_on {
            self.wallet.on_block(ctx, block, height);
        }
    }
}

/// Once a node is installed, every further start is refused with
/// `AlreadyRunning` whatever network it names (and `begin_start` then leaves
/// the context, the installed handle included, as it was).
pub proof fn lemma_second_start_refused<N>(c: AppContext<N>, network: Seq<char>)
    requires
        c.wf(),
        c.node_spec() is Some,
    ensures
        start_outcome(c, network) == Err::<NetworkKind, ServiceError>(ServiceError::AlreadyRunning),
{
}

/// When nothing is running, a start with an unknown network name is refused
/// with `InvalidNetwork` (and `begin_start` then installs no handle).
pub proof fn lemma_unknown_network_refused<N>(c: AppContext<N>, network: Seq<char>)
    requires
        c.wf(),
        !c.busy(),
        network_of(network) is None,
    ensures
        start_outcome(c, network) == Err::<NetworkKind, ServiceError>(ServiceError::InvalidNetwork),
{
}

/// When nothing is running, a start with a known network name goes ahead on
/// that network.
pub proof fn lemma_known_network_accepted<N>(c: AppContext<N>, network: Seq<char>)
    requires
        c.wf(),
        !c.busy(),
        network_of(network) is Some,
    ensures
        start_outcome(c, network) == Ok::<NetworkKind, ServiceError>(network_of(network)->0),
{
}

} // verus!
