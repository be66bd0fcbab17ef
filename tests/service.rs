use bonsai_core::error::ServiceError;
use bonsai_core::network::NetworkKind;
use bonsai_core::service::{AppContext, BlockPipeline, BlockSubscriber, NodeStatus};
use bonsai_core::wallet::WalletManager;

const ZERO_PHRASE: &str = "abandon abandon abandon abandon abandon abandon abandon abandon abandon abandon abandon about";

fn started(node: u32) -> AppContext<u32> {
    let mut c: AppContext<u32> = AppContext::new();
    let k = c.begin_start("signet").unwrap();
    let w = WalletManager::init(ZERO_PHRASE, k);
    c.finish_start(node, w).unwrap();
    c
}

#[test]
fn start_twice_is_refused_and_keeps_the_handle() {
    let mut c = started(1);
    assert!(c.is_node_running());
    assert_eq!(c.begin_start("signet"), Err(ServiceError::AlreadyRunning));
    assert_eq!(c.begin_start("not-a-network"), Err(ServiceError::AlreadyRunning));
    assert_eq!(c.node(), Some(&1));
    assert_eq!(c.status(), NodeStatus::Running);
}

#[test]
fn stop_then_start_again_succeeds() {
    let mut c = started(1);
    assert_eq!(c.begin_start("signet"), Err(ServiceError::AlreadyRunning));
    assert_eq!(c.begin_stop(), Ok(Some(1)));
    assert_eq!(c.status(), NodeStatus::ShuttingDown);
    c.finish_stop(Ok(()));
    assert_eq!(c.status(), NodeStatus::Inactive);
    assert!(!c.is_node_running());
    assert_eq!(c.begin_start("signet"), Ok(NetworkKind::Signet));
}

#[test]
fn stop_without_node_is_a_no_op() {
    let mut c: AppContext<u32> = AppContext::new();
    assert_eq!(c.begin_stop(), Ok(None));
    assert_eq!(c.begin_stop(), Ok(None));
    assert_eq!(c.status(), NodeStatus::Inactive);
}

#[test]
fn unknown_network_installs_nothing() {
    let mut c: AppContext<u32> = AppContext::new();
    assert_eq!(c.begin_start("not-a-network"), Err(ServiceError::InvalidNetwork));
    assert!(!c.is_node_running());
    assert_eq!(c.status(), NodeStatus::Inactive);
    assert_eq!(c.begin_start("REGTEST"), Ok(NetworkKind::Regtest));
}

#[test]
fn abandoned_start_does_not_block_the_next() {
    let mut c: AppContext<u32> = AppContext::new();
    assert_eq!(c.begin_start("signet"), Ok(NetworkKind::Signet));
    assert_eq!(c.status(), NodeStatus::Starting);
    assert_eq!(c.begin_start("regtest"), Ok(NetworkKind::Regtest));
    assert!(!c.is_node_running());
}

#[test]
fn failed_build_leaves_no_handle() {
    let mut c: AppContext<u32> = AppContext::new();
    c.begin_start("signet").unwrap();
    c.fail_start(ServiceError::Io);
    assert!(!c.is_node_running());
    assert_eq!(c.status(), NodeStatus::Failed(ServiceError::Io));
    assert_eq!(c.begin_start("signet"), Ok(NetworkKind::Signet));
}

#[test]
fn wallet_failure_rolls_the_start_back() {
    let mut c: AppContext<u32> = AppContext::new();
    c.begin_start("signet").unwrap();
    let r = c.finish_start(7, Err(ServiceError::WalletCreate));
    assert_eq!(r, Err((ServiceError::WalletCreate, 7)));
    assert!(!c.is_node_running());
    assert!(c.wallet().is_none());
    assert_eq!(c.status(), NodeStatus::Failed(ServiceError::WalletCreate));
}

#[test]
fn held_lease_makes_stop_busy() {
    let mut c = started(3);
    assert!(c.acquire_lease());
    assert!(c.acquire_lease());
    assert_eq!(c.begin_stop(), Err(ServiceError::Busy(3)));
    assert!(c.is_node_running());
    c.release_lease();
    assert_eq!(c.begin_stop(), Err(ServiceError::Busy(2)));
    c.release_lease();
    c.release_lease();
    assert_eq!(c.begin_stop(), Ok(Some(3)));
}

#[test]
fn lease_needs_a_node() {
    let mut c: AppContext<u32> = AppContext::new();
    assert!(!c.acquire_lease());
}

#[test]
fn wallet_queries_without_wallet_are_empty() {
    let mut c: AppContext<u32> = AppContext::new();
    assert!(c.wallet_info().is_none());
    assert_eq!(c.sync_wallet(), Err(ServiceError::NotRunning));
    let block = bitcoin::blockdata::constants::genesis_block(bitcoin::Network::Signet);
    c.deliver_block(block, 0);
    assert!(c.wallet().is_none());
}

#[test]
fn wallet_info_reveals_a_fresh_address_each_time() {
    let mut c = started(1);
    let a = c.wallet_info().unwrap();
    let b = c.wallet_info().unwrap();
    assert_eq!(a.balance_sats, 0);
    assert_eq!(b.balance_sats, 0);
    assert!(a.address.starts_with("tb1q"));
    assert_ne!(a.address, b.address);
}

#[test]
fn delivered_blocks_are_synced_once() {
    let mut c = started(1);
    let block = bitcoin::blockdata::constants::genesis_block(bitcoin::Network::Signet);
    c.deliver_block(block.clone(), 0);
    c.deliver_block(block.clone(), 1);
    assert_eq!(c.sync_wallet(), Ok(2));
    assert_eq!(c.sync_wallet(), Ok(0));
    c.deliver_block(block, 2);
    assert_eq!(c.sync_wallet(), Ok(1));
}

#[test]
fn stop_drops_the_wallet() {
    let mut c = started(1);
    c.begin_stop().unwrap();
    c.finish_stop(Ok(()));
    assert!(c.wallet().is_none());
    assert!(c.wallet_info().is_none());
}

#[test]
fn status_labels() {
    assert_eq!(NodeStatus::Inactive.label(), "INACTIVE");
    assert_eq!(NodeStatus::Starting.label(), "STARTING");
    assert_eq!(NodeStatus::Running.label(), "RUNNING");
    assert_eq!(NodeStatus::ShuttingDown.label(), "SHUTTING DOWN");
    assert_eq!(NodeStatus::Failed(ServiceError::Io).label(), "FAILED [Filesystem error]");
    assert_eq!(
        NodeStatus::Failed(ServiceError::Busy(12)).label(),
        "FAILED [Cannot shutdown: 12 references remain]"
    );
}

#[test]
fn error_descriptions() {
    assert_eq!(ServiceError::AlreadyRunning.description(), "Node already running");
    assert_eq!(ServiceError::InvalidNetwork.description(), "Invalid network");
    assert_eq!(ServiceError::Busy(0).description(), "Cannot shutdown: 0 references remain");
    assert_eq!(ServiceError::Busy(4294967295).description(), "Cannot shutdown: 4294967295 references remain");
    assert_eq!(ServiceError::AlreadyExists.description(), "Wallet already exists");
}

#[test]
fn failed_shutdown_is_recorded() {
    let mut c = started(1);
    c.begin_stop().unwrap();
    assert_eq!(c.finish_stop(Err(ServiceError::Io)), Err(ServiceError::Io));
    assert_eq!(c.status(), NodeStatus::Failed(ServiceError::Io));
    assert!(!c.is_node_running());
    assert_eq!(c.begin_start("signet"), Ok(NetworkKind::Signet));
}

#[test]
fn pipeline_runs_only_registered_subscribers() {
    let mut c = started(1);
    let block = bitcoin::blockdata::constants::genesis_block(bitcoin::Network::Signet);
    let mut p = BlockPipeline::new();
    p.deliver(&mut c, block.clone(), 5);
    assert_eq!(p.stats().blocks_seen(), 0);
    assert_eq!(c.sync_wallet(), Ok(0));
    p.subscribe(BlockSubscriber::Stats);
    p.deliver(&mut c, block.clone(), 6);
    assert_eq!(p.stats().blocks_seen(), 1);
    assert_eq!(p.stats().last_height(), Some(6));
    assert_eq!(c.sync_wallet(), Ok(0));
    p.subscribe(BlockSubscriber::Wallet);
    p.subscribe(BlockSubscriber::Wallet);
    p.deliver(&mut c, block.clone(), 7);
    p.deliver(&mut c, block, 8);
    assert_eq!(p.stats().blocks_seen(), 3);
    assert_eq!(p.stats().last_height(), Some(8));
    assert_eq!(c.sync_wallet(), Ok(2));
}
