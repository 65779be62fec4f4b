use xdp_filter::fault::Halt;
use xdp_filter::frame::Address;
use xdp_filter::loader::{
    advance, classify_failure, exit_status, start, table_path, LoaderError, Move, Phase, Step,
    EXIT_CLEAN, EXIT_FAILED,
};
use xdp_filter::rate::{rate_limit_step, Observation, Policy, RateLimit, THRESHOLD, WINDOW};
use xdp_filter::simple::{block_ip, try_xdp_hello, xdp_blocker, xdp_hello};
use xdp_filter::frame::FrameError;
use xdp_filter::hooks::XdpAction;
use xdp_filter::store::{check_rate_limit_v4, check_rate_limit_v6, block_ipv4, block_ipv6, ipv6_key, Store};
use xdp_filter::table::{CapacityError, DenyTable, TrackerTable};
use xdp_filter::updater::{
    apply, apply_all, outcome, resolve_all_ips, succeeded, update, Applied, Mode,
    NameServiceError, ResolveError,
};
use xdp_filter::wire::{read_be, read_be16, read_be32};

#[test]
fn first_packet_opens_a_window() {
    let o = rate_limit_step(None, 42, Policy::standard());
    assert_eq!(o.entry, RateLimit { last_update: 42, packet_count: 1 });
    assert!(!o.block);
    assert_eq!(RateLimit::new(42), RateLimit { last_update: 42, packet_count: 1 });
    assert_eq!(Policy::standard(), Policy { window: 1_000_000_000, threshold: 500 });
    assert_eq!(WINDOW, 1_000_000_000);
    assert_eq!(THRESHOLD, 500);
}

#[test]
fn counting_inside_and_outside_the_window() {
    let p = Policy { window: 100, threshold: 2 };
    let e = RateLimit { last_update: 1_000, packet_count: 1 };
    assert_eq!(
        e.observe(1_099, p),
        Observation { entry: RateLimit { last_update: 1_000, packet_count: 2 }, block: false }
    );
    assert_eq!(
        e.observe(1_100, p),
        Observation { entry: RateLimit { last_update: 1_100, packet_count: 1 }, block: false }
    );
    let at_limit = RateLimit { last_update: 1_000, packet_count: 2 };
    assert_eq!(
        at_limit.observe(1_000, p),
        Observation { entry: RateLimit { last_update: 1_000, packet_count: 3 }, block: true }
    );
    assert_eq!(
        at_limit.observe(999, p),
        Observation { entry: RateLimit { last_update: 999, packet_count: 1 }, block: false }
    );
    let top = RateLimit { last_update: 0, packet_count: u32::MAX };
    assert_eq!(
        top.observe(1, p),
        Observation { entry: RateLimit { last_update: 0, packet_count: u32::MAX }, block: true }
    );
    assert_eq!(rate_limit_step(Some(e), 1_050, p).entry.packet_count, 2);
}

#[test]
fn network_order_reads() {
    let bytes = [0x00, 0x12, 0x34, 0x56, 0x78, 0x9a];
    assert_eq!(read_be16(&bytes, 1), 0x1234);
    assert_eq!(read_be32(&bytes, 2), 0x3456_789a);
    assert_eq!(read_be(&bytes, 0, 6), 0x0012_3456_789a);
    assert_eq!(read_be(&bytes, 3, 0), 0);
    let ip: [u8; 16] = [0x20, 0x01, 0x0d, 0xb8, 0, 0, 0, 0, 0, 0, 0, 0, 0, 0, 0xab, 0xcd];
    assert_eq!(ipv6_key(&ip), 0x2001_0db8_0000_0000_0000_0000_0000_abcd);
    assert_eq!(ipv6_key(&ip), u128::from_be_bytes(ip));
    assert_eq!(ipv6_key(&[0xff; 16]), u128::MAX);
}

#[test]
fn a_full_deny_table_refuses_one_more_and_keeps_the_rest() {
    let mut table: DenyTable<u32> = DenyTable::new(3);
    assert_eq!(table.max_entries(), 3);
    for ip in [10u32, 20, 30] {
        assert_eq!(apply(&mut table, ip, Mode::Add), Ok(Applied::Added));
    }
    assert_eq!(table.len(), 3);
    assert_eq!(apply(&mut table, 40, Mode::Add), Err(CapacityError { max_entries: 3 }));
    assert_eq!(table.len(), 3);
    assert!(table.contains(&10) && table.contains(&20) && table.contains(&30));
    assert!(!table.contains(&40));
    assert_eq!(apply(&mut table, 20, Mode::Add), Ok(Applied::Added));
    assert_eq!(table.insert(50), Err(CapacityError { max_entries: 3 }));
    assert_eq!(table.insert(30), Ok(()));
    assert_eq!(table.len(), 3);
}

#[test]
fn removing_an_absent_address_is_reported_as_already_absent() {
    let mut table: DenyTable<u128> = DenyTable::new(2);
    assert_eq!(apply(&mut table, 7, Mode::Remove), Ok(Applied::AlreadyAbsent));
    assert_eq!(table.len(), 0);
    assert_eq!(apply(&mut table, 7, Mode::Add), Ok(Applied::Added));
    assert_eq!(apply(&mut table, 8, Mode::Remove), Ok(Applied::AlreadyAbsent));
    assert!(table.contains(&7));
    assert_eq!(apply(&mut table, 7, Mode::Remove), Ok(Applied::Removed));
    assert_eq!(apply(&mut table, 7, Mode::Remove), Ok(Applied::AlreadyAbsent));
    assert!(!table.remove(&7));
}

#[test]
fn add_then_remove_restores_the_table() {
    let mut table: DenyTable<u32> = DenyTable::new(8);
    for ip in [1u32, 2, 3] {
        assert_eq!(table.insert(ip), Ok(()));
    }
    let batch = vec![100u32, 200];
    assert_eq!(apply_all(&mut table, &batch, Mode::Add), vec![Ok(Applied::Added); 2]);
    assert_eq!(table.len(), 5);
    assert!(table.contains(&100) && table.contains(&200));
    assert_eq!(apply_all(&mut table, &batch, Mode::Remove), vec![Ok(Applied::Removed); 2]);
    assert_eq!(table.len(), 3);
    assert!(table.contains(&1) && table.contains(&2) && table.contains(&3));
    assert!(!table.contains(&100) && !table.contains(&200));
}

#[test]
fn a_batch_is_not_rolled_back_when_the_table_fills_up() {
    let mut table: DenyTable<u32> = DenyTable::new(2);
    let batch = vec![1u32, 2, 3, 1, 4];
    let report = apply_all(&mut table, &batch, Mode::Add);
    assert_eq!(
        report,
        vec![
            Ok(Applied::Added),
            Ok(Applied::Added),
            Err(CapacityError { max_entries: 2 }),
            Ok(Applied::Added),
            Err(CapacityError { max_entries: 2 }),
        ]
    );
    assert!(!succeeded(&report));
    assert!(table.contains(&1) && table.contains(&2));
    assert!(!table.contains(&3) && !table.contains(&4));
    let back = apply_all(&mut table, &batch, Mode::Remove);
    assert_eq!(
        back,
        vec![
            Ok(Applied::Removed),
            Ok(Applied::Removed),
            Ok(Applied::AlreadyAbsent),
            Ok(Applied::AlreadyAbsent),
            Ok(Applied::AlreadyAbsent),
        ]
    );
    assert!(succeeded(&back));
    assert_eq!(table.len(), 0);
    assert!(succeeded(&Vec::new()));
}

#[test]
fn an_answer_is_sorted_by_family() {
    let a = 0x2001_0db8_0000_0000_0000_0000_0000_0001u128;
    let answer = vec![Address::V4(1), Address::V6(a), Address::V4(2)];
    let r = resolve_all_ips(Ok(answer)).unwrap();
    assert_eq!(r.v4, Some(vec![1, 2]));
    assert_eq!(r.v6, Some(vec![a]));
    let only4 = resolve_all_ips(Ok(vec![Address::V4(0x5db8_d822)])).unwrap();
    assert_eq!(only4.v4, Some(vec![0x5db8_d822]));
    assert_eq!(only4.v6, None);
    let only6 = resolve_all_ips(Ok(vec![Address::V6(a), Address::V6(a + 1)])).unwrap();
    assert_eq!(only6.v4, None);
    assert_eq!(only6.v6, Some(vec![a, a + 1]));
}

#[test]
fn a_lookup_without_addresses_or_without_answer_fails() {
    assert_eq!(resolve_all_ips(Ok(Vec::new())).unwrap_err(), ResolveError::NoAddresses);
    assert_eq!(resolve_all_ips(Err(NameServiceError)).unwrap_err(), ResolveError::NameService);
}

#[test]
fn an_update_touches_the_deny_table_of_each_family() {
    let mut store = Store::new(2, Policy::standard());
    let a = 0x2001_0db8_0000_0000_0000_0000_0000_0001u128;
    let r = resolve_all_ips(Ok(vec![
        Address::V4(1),
        Address::V6(a),
        Address::V4(2),
        Address::V4(3),
    ]))
    .unwrap();
    let report = update(&mut store, &r, Mode::Add);
    assert_eq!(
        report.v4,
        vec![Ok(Applied::Added), Ok(Applied::Added), Err(CapacityError { max_entries: 2 })]
    );
    assert_eq!(report.v6, vec![Ok(Applied::Added)]);
    assert!(block_ipv4(&store, 1) && block_ipv4(&store, 2) && !block_ipv4(&store, 3));
    assert!(store.blocks(Address::V6(a)));
    assert!(!store.blocks(Address::V6(a + 1)));
    let back = update(&mut store, &r, Mode::Remove);
    assert_eq!(
        back.v4,
        vec![Ok(Applied::Removed), Ok(Applied::Removed), Ok(Applied::AlreadyAbsent)]
    );
    assert_eq!(back.v6, vec![Ok(Applied::Removed)]);
    assert_eq!(xdp_filter::updater::exit_status(&report), 1);
    assert_eq!(xdp_filter::updater::exit_status(&back), 0);
    assert_eq!(store.v4.blocklist.len(), 0);
    assert_eq!(store.v6.blocklist.len(), 0);
}

#[test]
fn the_rate_limit_blocks_by_family() {
    let mut store = Store::new(4, Policy { window: 50, threshold: 1 });
    check_rate_limit_v4(&mut store, &9, 10);
    assert!(!block_ipv4(&store, 9));
    check_rate_limit_v4(&mut store, &9, 11);
    assert!(block_ipv4(&store, 9));
    let ip6 = [0x11u8; 16];
    check_rate_limit_v6(&mut store, &ip6, 10);
    assert!(!block_ipv6(&store, ip6));
    check_rate_limit_v6(&mut store, &ip6, 60);
    assert!(!block_ipv6(&store, ip6));
    check_rate_limit_v6(&mut store, &ip6, 61);
    assert!(block_ipv6(&store, ip6));
    assert_eq!(
        store.v6.tracker.get(&ipv6_key(&ip6)),
        Some(RateLimit { last_update: 60, packet_count: 2 })
    );
    store.check_rate_limit(Address::V4(5), 70);
    assert_eq!(store.v4.tracker.get(&5), Some(RateLimit { last_update: 70, packet_count: 1 }));
}

#[test]
fn full_tables_leave_a_sender_untracked_or_unblocked() {
    let mut store = Store::new(1, Policy { window: 50, threshold: 1 });
    check_rate_limit_v4(&mut store, &1, 10);
    check_rate_limit_v4(&mut store, &2, 10);
    assert_eq!(store.v4.tracker.len(), 1);
    assert_eq!(store.v4.tracker.get(&2), None);
    assert_eq!(store.v4.blocklist.insert(77), Ok(()));
    check_rate_limit_v4(&mut store, &1, 11);
    assert_eq!(store.v4.tracker.get(&1), Some(RateLimit { last_update: 10, packet_count: 2 }));
    assert!(!block_ipv4(&store, 1));
    assert!(block_ipv4(&store, 77));
    let mut tracker: TrackerTable<u32> = TrackerTable::new(1);
    assert_eq!(tracker.max_entries(), 1);
    assert!(tracker.store(1, RateLimit::new(3)));
    assert!(!tracker.store(2, RateLimit::new(3)));
    assert!(tracker.store(1, RateLimit::new(4)));
    assert_eq!(tracker.get(&1), Some(RateLimit { last_update: 4, packet_count: 1 }));
}

#[test]
fn the_loader_walks_its_steps_in_order() {
    let order = [
        Step::Load,
        Step::AttachIngress,
        Step::AttachEgress,
        Step::PublishV4,
        Step::PublishV6,
        Step::Wait,
        Step::UnpublishV4,
        Step::UnpublishV6,
    ];
    let mut phase = start();
    for step in order {
        assert_eq!(phase, Phase::Run(step));
        assert_eq!(exit_status(phase), None);
        let m = advance(step, true);
        assert!(!m.warn);
        phase = m.next;
    }
    assert_eq!(phase, Phase::Finished);
    assert_eq!(exit_status(phase), Some(EXIT_CLEAN));
    assert_eq!(EXIT_CLEAN, 0);
}

#[test]
fn a_failed_step_before_the_teardown_ends_the_run() {
    for step in [
        Step::Load,
        Step::AttachIngress,
        Step::AttachEgress,
        Step::PublishV4,
        Step::PublishV6,
        Step::Wait,
    ] {
        assert_eq!(advance(step, false), Move { next: Phase::Failed(step), warn: false });
        assert_eq!(exit_status(Phase::Failed(step)), Some(EXIT_FAILED));
    }
    assert_eq!(EXIT_FAILED, 1);
}

#[test]
fn a_failed_withdrawal_is_reported_and_the_teardown_goes_on() {
    assert_eq!(
        advance(Step::UnpublishV4, false),
        Move { next: Phase::Run(Step::UnpublishV6), warn: true }
    );
    assert_eq!(advance(Step::UnpublishV6, false), Move { next: Phase::Finished, warn: true });
}

#[test]
fn a_fault_leaves_the_hook_spinning() {
    assert_eq!(xdp_filter::fault::panic(), Halt::Spin);
}

#[test]
fn the_ipv4_only_hook() {
    let mut table: DenyTable<u32> = DenyTable::new(177402);
    let mut f = vec![0u8; 12];
    f.extend_from_slice(&[0x08, 0x00]);
    f.extend_from_slice(&[0x45, 0, 0, 40, 0, 0, 0, 0, 64, 6, 0, 0, 10, 0, 0, 1, 10, 0, 0, 2]);
    f.extend_from_slice(&[0; 20]);
    assert_eq!(xdp_hello(&table, &f), 2);
    assert_eq!(table.insert(0x0a00_0001), Ok(()));
    assert!(block_ip(&table, 0x0a00_0001));
    assert_eq!(try_xdp_hello(&table, &f), Ok(XdpAction::Drop));
    assert_eq!(xdp_hello(&table, &f), 1);
    assert_eq!(xdp_hello(&table, &f[..53]), 0);
    f[23] = 17;
    assert_eq!(xdp_hello(&table, &f[..42]), 1);
    assert_eq!(xdp_hello(&table, &f[..41]), 0);
    f[23] = 1;
    assert_eq!(try_xdp_hello(&table, &f), Err(FrameError::UnknownTransport));
    f[12] = 0x86;
    f[13] = 0xdd;
    assert_eq!(xdp_hello(&table, &f), 2);
    assert_eq!(xdp_hello(&table, &f[..13]), 0);
}

#[test]
fn the_fixed_destination_hook() {
    let mut p = vec![0x45, 0, 0, 20, 0, 0, 0, 0, 64, 6, 0, 0, 9, 9, 9, 9, 1, 2, 3, 4];
    assert_eq!(xdp_blocker(&p), 1);
    assert_eq!(xdp_blocker(&p[..19]), 2);
    p[19] = 5;
    assert_eq!(xdp_blocker(&p), 2);
    assert_eq!(xdp_blocker(&[4, 3, 2, 1]), 2);
}

#[test]
fn the_answer_of_a_table_becomes_a_report() {
    assert_eq!(outcome(Mode::Add, true, 1024), Ok(Applied::Added));
    assert_eq!(outcome(Mode::Add, false, 1024), Err(CapacityError { max_entries: 1024 }));
    assert_eq!(outcome(Mode::Remove, true, 1024), Ok(Applied::Removed));
    assert_eq!(outcome(Mode::Remove, false, 1024), Ok(Applied::AlreadyAbsent));
}

#[test]
fn only_the_deny_tables_have_a_path() {
    assert_eq!(table_path(Step::PublishV4), Some("/sys/fs/bpf/blocklist_v4"));
    assert_eq!(table_path(Step::UnpublishV4), Some("/sys/fs/bpf/blocklist_v4"));
    assert_eq!(table_path(Step::PublishV6), Some("/sys/fs/bpf/blocklist_v6"));
    assert_eq!(table_path(Step::UnpublishV6), Some("/sys/fs/bpf/blocklist_v6"));
    for step in [Step::Load, Step::AttachIngress, Step::AttachEgress, Step::Wait] {
        assert_eq!(table_path(step), None);
    }
}

#[test]
fn each_failed_step_has_its_kind() {
    assert_eq!(classify_failure(Step::Load, false), LoaderError::Load);
    assert_eq!(classify_failure(Step::Load, true), LoaderError::Verification);
    assert_eq!(classify_failure(Step::AttachIngress, false), LoaderError::Attach);
    assert_eq!(classify_failure(Step::AttachEgress, true), LoaderError::Attach);
    assert_eq!(classify_failure(Step::PublishV4, false), LoaderError::Publish);
    assert_eq!(classify_failure(Step::PublishV6, false), LoaderError::Publish);
    assert_eq!(classify_failure(Step::Wait, false), LoaderError::Signal);
    assert_eq!(classify_failure(Step::UnpublishV4, false), LoaderError::Unpublish);
    assert_eq!(classify_failure(Step::UnpublishV6, false), LoaderError::Unpublish);
}

#[test]
fn the_stock_store() {
    let store = Store::new(xdp_filter::store::MAX_ENTRIES, Policy::standard());
    assert_eq!(store.v4.blocklist.max_entries(), 1024);
    assert_eq!(store.v6.blocklist.max_entries(), 1024);
    assert_eq!(store.v4.tracker.max_entries(), 1024);
    assert_eq!(store.v6.tracker.max_entries(), 1024);
    assert_eq!(store.policy, Policy { window: 1_000_000_000, threshold: 500 });
    assert_eq!(store.v4.blocklist.len() + store.v6.blocklist.len(), 0);
}

#[test]
fn a_family_can_be_emptied() {
    let mut store = Store::new(4, Policy { window: 50, threshold: 1 });
    check_rate_limit_v4(&mut store, &9, 10);
    check_rate_limit_v4(&mut store, &9, 11);
    check_rate_limit_v6(&mut store, &[1; 16], 10);
    assert!(block_ipv4(&store, 9));
    store.v4.teardown();
    assert!(!block_ipv4(&store, 9));
    assert_eq!(store.v4.blocklist.len(), 0);
    assert_eq!(store.v4.tracker.len(), 0);
    assert_eq!(store.v4.blocklist.max_entries(), 4);
    assert_eq!(store.v6.tracker.len(), 1);
    store.v6.tracker.clear();
    assert_eq!(store.v6.tracker.len(), 0);
    let mut table: DenyTable<u32> = DenyTable::new(1);
    assert_eq!(table.insert(1), Ok(()));
    table.clear();
    assert_eq!(table.insert(2), Ok(()));
    assert!(!table.contains(&1));
}
