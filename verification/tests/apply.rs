use frank::builder::{engine_start_step, first_step_of, step_after_allocation, step_after_publication, Builder};
use frank::command::Command;
use frank::config::{Availability, DedupConfig, OptionalTools, PackConfig, PipelineConfig, QuicConfig, VerifyConfig};
use frank::handle::Handle;
use frank::inspect::{inspect_interface, Inspection};
use frank::pod::{DedupField, InboundField, PackField, PodKey, PodValue, ProtocolField, QuicField, VerifyField};
use frank::topology::{Action, ApplyError, Event, PersistedResult, Section, Step};

const LISTING: &str = "2: eth0: <BROADCAST,MULTICAST,UP,LOWER_UP> mtu 1500\n    link/ether 02:42:ac:11:00:02 brd ff:ff:ff:ff:ff:ff\n    inet 172.17.0.2/16 brd 172.17.255.255 scope global eth0\n    inet 10.0.0.5/24 scope global secondary eth0\n    inet6 fe80::42:acff:fe11:2/64 scope link\n";

const NO_ADDRESS_LISTING: &str = "2: eth0: <BROADCAST> mtu 1500\n    link/ether 02:42:ac:11:00:02 brd ff:ff:ff:ff:ff:ff\n    inet6 fe80::42:acff:fe11:2/64 scope link\n";

const NO_MAC_LISTING: &str = "4: tun0: <POINTOPOINT> mtu 1500\n    link/none\n    inet 10.8.0.1/24 scope global tun0\n";

fn config(tiles: u32) -> PipelineConfig {
    PipelineConfig {
        name: "fd1".to_string(),
        binary_dir: "/opt/fd/bin".to_string(),
        scratch_directory: "/tmp/fd".to_string(),
        netns_enabled: false,
        verify_tile_count: tiles,
        pack: PackConfig {
            max_pending_transactions: 1024,
            solana_labs_bank_thread_count: 4,
            compute_unit_estimator_table_size: 2048,
            compute_unit_estimator_ema_history: 1000,
            compute_unit_estimator_ema_default: 200000,
            solana_labs_bank_thread_compute_units_executed_per_second: 12000001,
        },
        dedup: DedupConfig { signature_cache_size: 4194302 },
        verify: VerifyConfig { receive_buffer_size: 16384, mtu: 4804 },
        quic: QuicConfig {
            interface: "eth0".to_string(),
            listen_port: 9001,
            xdp_mode: "skb".to_string(),
            xdp_rx_queue_size: 4096,
            xdp_tx_queue_size: 2048,
            xdp_aio_depth: 512,
        },
    }
}

fn all_tools() -> OptionalTools {
    OptionalTools { pack: Availability::Available, quic: Availability::Available }
}

fn no_tools() -> OptionalTools {
    OptionalTools { pack: Availability::Unavailable, quic: Availability::Unavailable }
}

fn line(c: &Command) -> String {
    let mut s = c.program.clone();
    for a in &c.args {
        s.push(' ');
        s.push_str(a);
    }
    s
}

struct Run {
    builder: Builder,
    log: Vec<String>,
    outcome: Result<PersistedResult, ApplyError>,
}

/// Carries an apply out against allocators that hand out ids from `first_id` on and
/// an inspector that prints `listing`.
fn run(cfg: PipelineConfig, tools: OptionalTools, listing: &str, first_id: u64) -> Run {
    let mut builder = Builder::new(cfg, tools);
    let mut log = Vec::new();
    let mut next_id = first_id;
    let mut event = Event::Begin;
    loop {
        let action = match builder.step(event) {
            Ok(action) => action,
            Err(e) => return Run { builder, log, outcome: Err(e) },
        };
        event = match action {
            Action::EnterNamespace { path } => {
                log.push(format!("enter {}", path));
                Event::Completed
            }
            Action::Allocate { command } => {
                log.push(line(&command));
                next_id += 1;
                Event::Allocated(Handle { kind: "fd1.wksp".to_string(), id: next_id - 1 })
            }
            Action::Run { command, tolerant } => {
                log.push(line(&command));
                if tolerant {
                    Event::Failed("nothing to remove".to_string())
                } else {
                    Event::Completed
                }
            }
            Action::Settle { millis } => {
                log.push(format!("settle {}", millis));
                Event::Completed
            }
            Action::Inspect { command } => {
                log.push(line(&command));
                Event::Inspected(inspect_interface(listing).unwrap())
            }
            Action::Finish { result } => return Run { builder, log, outcome: Ok(result) },
        };
    }
}

fn keys(b: &Builder) -> Vec<PodKey> {
    b.entries().iter().map(|e| e.key).collect()
}

fn paths(b: &Builder) -> Vec<String> {
    b.entries().iter().map(|e| e.key.path("fd1")).collect()
}

fn expected_keys(tiles: u32) -> Vec<PodKey> {
    let mut v = vec![PodKey::MainCnc];
    for f in [
        PackField::Cnc,
        PackField::OutMcache,
        PackField::OutDcache,
        PackField::Scratch,
        PackField::CuEstTbl,
        PackField::ReturnFseq,
        PackField::BankCnt,
        PackField::TxnqSz,
        PackField::CuEstTblSz,
        PackField::CuLimit,
    ] {
        v.push(PodKey::Pack(f));
    }
    for f in [DedupField::Cnc, DedupField::Tcache, DedupField::Mcache, DedupField::Fseq] {
        v.push(PodKey::Dedup(f));
    }
    for i in 0..tiles {
        for f in [InboundField::Mcache, InboundField::Dcache, InboundField::Fseq] {
            v.push(PodKey::VerifyIn(i, f));
        }
        for f in [VerifyField::Cnc, VerifyField::Mcache, VerifyField::Dcache, VerifyField::Fseq] {
            v.push(PodKey::Verify(i, f));
        }
    }
    for i in 0..tiles {
        for f in [
            QuicField::Cnc,
            QuicField::Mcache,
            QuicField::Dcache,
            QuicField::Fseq,
            QuicField::Quic,
            QuicField::Xsk,
            QuicField::XskAio,
        ] {
            v.push(PodKey::Quic(i, f));
        }
    }
    for f in [
        ProtocolField::CertFile,
        ProtocolField::KeyFile,
        ProtocolField::IpAddr,
        ProtocolField::ListenPort,
        ProtocolField::SrcMacAddr,
        ProtocolField::IdleTimeoutMs,
    ] {
        v.push(PodKey::QuicCfg(f));
    }
    v
}

fn handle(id: u64) -> PodValue {
    PodValue::Handle(Handle { kind: "fd1.wksp".to_string(), id })
}

#[test]
fn two_tile_pipeline_is_built_end_to_end() {
    let r = run(config(2), all_tools(), LISTING, 100);
    let result = r.outcome.unwrap();
    assert_eq!(
        result,
        PersistedResult {
            pod: 100,
            main_cnc: 101,
            src_mac_address: "02:42:ac:11:00:02".to_string(),
            listen_addresses: vec!["172.17.0.2".to_string(), "10.0.0.5".to_string()],
        }
    );
    assert!(result.listen_addresses.len() >= 1);
    assert_eq!(r.builder.position(), Step::Done);
    let paths = paths(&r.builder);
    for prefix in ["fd1.verify.v0.", "fd1.verify.v1.", "fd1.quic.quic0.", "fd1.quic.quic1."] {
        assert!(paths.iter().any(|p| p.starts_with(prefix)), "{}", prefix);
    }
    assert!(!paths.iter().any(|p| p.starts_with("fd1.verify.v2.")));
    assert!(!paths.iter().any(|p| p.starts_with("fd1.quic.quic2.")));
    assert_eq!(paths.len(), 49);
}

#[test]
fn operations_come_in_dependency_order() {
    let r = run(config(1), all_tools(), LISTING, 1);
    assert!(r.outcome.is_ok());
    let expected: Vec<String> = [
        "/opt/fd/bin/fd_pod_ctl new fd1.wksp 16384",
        "/opt/fd/bin/fd_tango_ctl new-cnc fd1.wksp 0 tic 4032",
        "/opt/fd/bin/fd_pod_ctl insert fd1.wksp:1 cstr fd1.main.cnc fd1.wksp:2",
        "/opt/fd/bin/fd_tango_ctl new-cnc fd1.wksp 0 tic 4032",
        "/opt/fd/bin/fd_tango_ctl new-mcache fd1.wksp 1024 0 0",
        "/opt/fd/bin/fd_tango_ctl new-dcache fd1.wksp 4808 1024 1 1 0",
        "/opt/fd/bin/fd_pack_ctl new-scratch fd1.wksp 4 1024",
        "/opt/fd/bin/fd_pack_ctl new-cu-est-tbl fd1.wksp 2048 1000 200000",
        "/opt/fd/bin/fd_tango_ctl new-fseq fd1.wksp 0",
        "/opt/fd/bin/fd_pod_ctl insert fd1.wksp:1 cstr fd1.pack.cnc fd1.wksp:3 insert fd1.wksp:1 cstr fd1.pack.out-mcache fd1.wksp:4 insert fd1.wksp:1 cstr fd1.pack.out-dcache fd1.wksp:5 insert fd1.wksp:1 cstr fd1.pack.scratch fd1.wksp:6 insert fd1.wksp:1 cstr fd1.pack.cu-est-tbl fd1.wksp:7 insert fd1.wksp:1 cstr fd1.pack.return-fseq fd1.wksp:8 insert fd1.wksp:1 ulong fd1.pack.bank-cnt 4 insert fd1.wksp:1 ulong fd1.pack.txnq-sz 1024 insert fd1.wksp:1 ulong fd1.pack.cu-est-tbl-sz 2048 insert fd1.wksp:1 uint fd1.pack.cu-limit 12000001",
        "/opt/fd/bin/fd_tango_ctl new-cnc fd1.wksp 0 tic 4032",
        "/opt/fd/bin/fd_tango_ctl new-tcache fd1.wksp 4194302 0",
        "/opt/fd/bin/fd_tango_ctl new-mcache fd1.wksp 16384 0 0",
        "/opt/fd/bin/fd_tango_ctl new-fseq fd1.wksp 0",
        "/opt/fd/bin/fd_pod_ctl insert fd1.wksp:1 cstr fd1.dedup.cnc fd1.wksp:9 insert fd1.wksp:1 cstr fd1.dedup.tcache fd1.wksp:10 insert fd1.wksp:1 cstr fd1.dedup.mcache fd1.wksp:11 insert fd1.wksp:1 cstr fd1.dedup.fseq fd1.wksp:12",
        "/opt/fd/bin/fd_tango_ctl new-mcache fd1.wksp 16384 0 0",
        "/opt/fd/bin/fd_tango_ctl new-dcache fd1.wksp 4804 16384 1 1 524288",
        "/opt/fd/bin/fd_tango_ctl new-fseq fd1.wksp 0",
        "/opt/fd/bin/fd_pod_ctl insert fd1.wksp:1 cstr fd1.verifyin.v0in.mcache fd1.wksp:13 insert fd1.wksp:1 cstr fd1.verifyin.v0in.dcache fd1.wksp:14 insert fd1.wksp:1 cstr fd1.verifyin.v0in.fseq fd1.wksp:15",
        "/opt/fd/bin/fd_tango_ctl new-cnc fd1.wksp 2 tic 4032",
        "/opt/fd/bin/fd_tango_ctl new-mcache fd1.wksp 16384 0 0",
        "/opt/fd/bin/fd_tango_ctl new-dcache fd1.wksp 4804 16384 1 1 0",
        "/opt/fd/bin/fd_tango_ctl new-fseq fd1.wksp 0",
        "/opt/fd/bin/fd_pod_ctl insert fd1.wksp:1 cstr fd1.verify.v0.cnc fd1.wksp:16 insert fd1.wksp:1 cstr fd1.verify.v0.mcache fd1.wksp:17 insert fd1.wksp:1 cstr fd1.verify.v0.dcache fd1.wksp:18 insert fd1.wksp:1 cstr fd1.verify.v0.fseq fd1.wksp:19",
        "/opt/fd/bin/fd_xdp_ctl unhook-iface fd1 eth0",
        "settle 1000",
        "/opt/fd/bin/fd_xdp_ctl hook-iface fd1 eth0 skb",
        "ip address show dev eth0",
        "/opt/fd/bin/fd_xdp_ctl listen-udp-port fd1 172.17.0.2 9001 tpu-quic",
        "/opt/fd/bin/fd_xdp_ctl listen-udp-port fd1 10.0.0.5 9001 tpu-quic",
        "/opt/fd/bin/fd_tango_ctl new-cnc fd1.wksp 2 tic 4032",
        "/opt/fd/bin/fd_quic_ctl new-quic fd1.wksp",
        "/opt/fd/bin/fd_xdp_ctl new-xsk fd1.wksp 2048 4096 2048",
        "/opt/fd/bin/fd_xdp_ctl bind-xsk fd1.wksp:22 fd1 eth0 0",
        "/opt/fd/bin/fd_xdp_ctl new-xsk-aio fd1.wksp 2048 512",
        "/opt/fd/bin/fd_pod_ctl insert fd1.wksp:1 cstr fd1.quic.quic0.cnc fd1.wksp:20 insert fd1.wksp:1 cstr fd1.quic.quic0.mcache fd1.wksp:13 insert fd1.wksp:1 cstr fd1.quic.quic0.dcache fd1.wksp:14 insert fd1.wksp:1 cstr fd1.quic.quic0.fseq fd1.wksp:15 insert fd1.wksp:1 cstr fd1.quic.quic0.quic fd1.wksp:21 insert fd1.wksp:1 cstr fd1.quic.quic0.xsk fd1.wksp:22 insert fd1.wksp:1 cstr fd1.quic.quic0.xsk_aio fd1.wksp:23",
        "/opt/fd/bin/fd_pod_ctl insert fd1.wksp:1 cstr fd1.quic_cfg.cert_file /tmp/fd/cert.pem insert fd1.wksp:1 cstr fd1.quic_cfg.key_file /tmp/fd/key.pem insert fd1.wksp:1 cstr fd1.quic_cfg.ip_addr 172.17.0.2 insert fd1.wksp:1 ushort fd1.quic_cfg.listen_port 9001 insert fd1.wksp:1 cstr fd1.quic_cfg.src_mac_addr 02:42:ac:11:00:02 insert fd1.wksp:1 ulong fd1.quic_cfg.idle_timeout_ms 1000",
    ]
    .iter()
    .map(|s| s.to_string())
    .collect();
    assert_eq!(r.log.len(), expected.len());
    for (i, (got, want)) in r.log.iter().zip(expected.iter()).enumerate() {
        assert_eq!(got, want, "operation {}", i);
    }
}

#[test]
fn pod_holds_each_declared_key_exactly_once() {
    for tiles in [0u32, 1, 2, 3, 7] {
        for tools in [all_tools(), no_tools()] {
            let r = run(config(tiles), tools, LISTING, 10);
            assert!(r.outcome.is_ok());
            let got = keys(&r.builder);
            assert_eq!(got, expected_keys(tiles));
            assert_eq!(got.len(), 21 + 14 * tiles as usize);
            for (i, a) in got.iter().enumerate() {
                for b in &got[i + 1..] {
                    assert_ne!(a, b);
                }
            }
            let mut paths = paths(&r.builder);
            paths.sort();
            paths.dedup();
            assert_eq!(paths.len(), got.len());
        }
    }
}

#[test]
fn engine_tiles_read_the_inbound_groups_of_their_verify_tiles() {
    let r = run(config(3), all_tools(), LISTING, 500);
    assert!(r.outcome.is_ok());
    for i in 0..3u32 {
        for (q, v) in [
            (QuicField::Mcache, InboundField::Mcache),
            (QuicField::Dcache, InboundField::Dcache),
            (QuicField::Fseq, InboundField::Fseq),
        ] {
            let engine = r.builder.lookup(PodKey::Quic(i, q)).unwrap();
            let inbound = r.builder.lookup(PodKey::VerifyIn(i, v)).unwrap();
            assert_eq!(engine, inbound);
            assert!(matches!(engine, PodValue::Handle(_)));
        }
        let outbound = r.builder.lookup(PodKey::Verify(i, VerifyField::Mcache)).unwrap();
        assert_ne!(r.builder.lookup(PodKey::Quic(i, QuicField::Mcache)).unwrap(), outbound);
    }
    // pod 500, main 501, pack 502..=507, dedup 508..=511, then seven per verify tile
    assert_eq!(r.builder.lookup(PodKey::VerifyIn(0, InboundField::Mcache)), Some(&handle(512)));
    assert_eq!(r.builder.lookup(PodKey::Quic(0, QuicField::Mcache)), Some(&handle(512)));
    assert_eq!(r.builder.lookup(PodKey::Quic(1, QuicField::Dcache)), Some(&handle(520)));
    assert_eq!(r.builder.lookup(PodKey::Quic(2, QuicField::Fseq)), Some(&handle(528)));
    assert_eq!(r.builder.lookup(PodKey::Quic(3, QuicField::Fseq)), None);
}

#[test]
fn applying_again_gives_the_same_keys_and_new_ids() {
    let first = run(config(2), all_tools(), LISTING, 100);
    let second = run(config(2), all_tools(), LISTING, 9000);
    assert_eq!(keys(&first.builder), keys(&second.builder));
    assert_eq!(paths(&first.builder), paths(&second.builder));
    assert_eq!(first.outcome.unwrap().pod, 100);
    assert_eq!(second.outcome.unwrap().pod, 9000);
    assert_ne!(first.builder.lookup(PodKey::MainCnc), second.builder.lookup(PodKey::MainCnc));
    assert!(second.log[0].ends_with("fd_pod_ctl new fd1.wksp 16384"));
    let fresh = Builder::new(config(2), all_tools());
    assert_eq!(fresh.entries().len(), 0);
    assert_eq!(fresh.position(), Step::Start);
}

#[test]
fn dedup_ring_depth_is_the_verify_receive_buffer_for_any_tile_count() {
    for tiles in [1u32, 2, 4] {
        let mut cfg = config(tiles);
        cfg.verify.receive_buffer_size = 777;
        let r = run(cfg, all_tools(), LISTING, 1);
        assert!(r.outcome.is_ok());
        let rings: Vec<&String> = r.log.iter().filter(|l| l.contains(" new-mcache ")).collect();
        // pack, dedup, then two per verify tile
        assert_eq!(rings.len(), 2 + 2 * tiles as usize);
        assert!(rings[0].ends_with("new-mcache fd1.wksp 1024 0 0"));
        for ring in &rings[1..] {
            assert!(ring.ends_with("new-mcache fd1.wksp 777 0 0"), "{}", ring);
        }
    }
}

#[test]
fn no_address_aborts_before_any_engine_allocation() {
    let r = run(config(2), all_tools(), NO_ADDRESS_LISTING, 1);
    assert_eq!(r.outcome, Err(ApplyError::NoAddresses));
    assert_eq!(r.builder.position(), Step::Failed);
    assert_eq!(r.log.last().unwrap(), "ip address show dev eth0");
    for l in &r.log {
        assert!(!l.contains("new-quic"));
        assert!(!l.contains("new-xsk"));
        assert!(!l.contains("bind-xsk"));
        assert!(!l.contains("listen-udp-port"));
        assert!(!l.contains(".quic."));
        assert!(!l.contains(".quic_cfg."));
    }
    assert_eq!(r.builder.entries().len(), 15 + 7 * 2);
    assert_eq!(r.builder.lookup(PodKey::Quic(0, QuicField::Cnc)), None);
    assert_eq!(r.builder.action(), None);
}

#[test]
fn empty_inspection_is_refused_directly() {
    let mut b = Builder::new(config(0), all_tools());
    let mut event = Event::Begin;
    loop {
        match b.step(event).unwrap() {
            Action::Allocate { .. } => event = Event::Allocated(Handle { kind: "w".to_string(), id: 1 }),
            Action::Inspect { .. } => break,
            _ => event = Event::Completed,
        }
    }
    assert_eq!(b.position(), Step::Inspect);
    let nothing = Inspection { addresses: Vec::new(), mac: Some("aa:bb".to_string()) };
    assert_eq!(b.step(Event::Inspected(nothing)), Err(ApplyError::NoAddresses));
    assert_eq!(b.step(Event::Completed), Err(ApplyError::NotRunning));
}

#[test]
fn missing_mac_aborts_after_the_listeners() {
    let r = run(config(1), all_tools(), NO_MAC_LISTING, 1);
    assert_eq!(r.outcome, Err(ApplyError::NoMacAddress));
    assert_eq!(r.builder.position(), Step::Failed);
    assert_eq!(r.log.last().unwrap(), "/opt/fd/bin/fd_xdp_ctl listen-udp-port fd1 10.8.0.1 9001 tpu-quic");
    assert!(!r.log.iter().any(|l| l.contains("new-xsk")));
}

#[test]
fn absent_tools_publish_the_sentinel_and_the_apply_completes() {
    let r = run(config(2), no_tools(), LISTING, 1);
    let result = r.outcome.unwrap();
    assert_eq!(result.pod, 1);
    assert_eq!(r.builder.lookup(PodKey::Pack(PackField::Scratch)), Some(&PodValue::Unused));
    assert_eq!(r.builder.lookup(PodKey::Pack(PackField::CuEstTbl)), Some(&PodValue::Unused));
    assert_eq!(r.builder.lookup(PodKey::Quic(0, QuicField::Quic)), Some(&PodValue::Unused));
    assert_eq!(r.builder.lookup(PodKey::Quic(1, QuicField::Quic)), Some(&PodValue::Unused));
    assert_eq!(PodValue::Unused.render(), "unused");
    assert!(!r.log.iter().any(|l| l.contains("fd_pack_ctl")));
    assert!(!r.log.iter().any(|l| l.contains("fd_quic_ctl")));
    assert!(r.log.iter().any(|l| l.contains("cstr fd1.pack.scratch unused insert")));
    assert!(r.log.iter().any(|l| l.contains("cstr fd1.pack.cu-est-tbl unused insert")));
    assert!(r.log.iter().any(|l| l.contains("cstr fd1.quic.quic1.quic unused insert")));
    // the handles that follow the missing ones are still the right ones
    assert_eq!(r.builder.lookup(PodKey::Pack(PackField::ReturnFseq)), Some(&handle(6)));
    let with = run(config(2), all_tools(), LISTING, 1);
    assert_eq!(keys(&with.builder), keys(&r.builder));
    assert!(matches!(with.builder.lookup(PodKey::Pack(PackField::Scratch)), Some(PodValue::Handle(_))));
    assert_eq!(with.log.len(), r.log.len() + 4);
}

#[test]
fn only_one_tool_missing() {
    let tools = OptionalTools { pack: Availability::Available, quic: Availability::Unavailable };
    let r = run(config(1), tools, LISTING, 1);
    assert!(r.outcome.is_ok());
    assert!(matches!(r.builder.lookup(PodKey::Pack(PackField::Scratch)), Some(PodValue::Handle(_))));
    assert_eq!(r.builder.lookup(PodKey::Quic(0, QuicField::Quic)), Some(&PodValue::Unused));
    // cnc 20, xsk 21, aio 22
    assert_eq!(r.builder.lookup(PodKey::Quic(0, QuicField::Xsk)), Some(&handle(21)));
    assert_eq!(r.builder.lookup(PodKey::Quic(0, QuicField::XskAio)), Some(&handle(22)));
    assert!(r.log.iter().any(|l| l.ends_with("bind-xsk fd1.wksp:21 fd1 eth0 0")));
}

#[test]
fn pipeline_without_verify_tiles() {
    let r = run(config(0), all_tools(), LISTING, 1);
    let result = r.outcome.unwrap();
    assert_eq!(result.main_cnc, 2);
    assert_eq!(keys(&r.builder), expected_keys(0));
    assert_eq!(
        r.builder.lookup(PodKey::QuicCfg(ProtocolField::IpAddr)),
        Some(&PodValue::Text("172.17.0.2".to_string()))
    );
    assert_eq!(r.builder.lookup(PodKey::QuicCfg(ProtocolField::IdleTimeoutMs)), Some(&PodValue::Ulong(1000)));
    assert_eq!(r.builder.lookup(PodKey::QuicCfg(ProtocolField::ListenPort)), Some(&PodValue::Ushort(9001)));
    assert_eq!(
        r.builder.lookup(PodKey::QuicCfg(ProtocolField::CertFile)),
        Some(&PodValue::Text("/tmp/fd/cert.pem".to_string()))
    );
    assert_eq!(
        r.builder.lookup(PodKey::QuicCfg(ProtocolField::KeyFile)),
        Some(&PodValue::Text("/tmp/fd/key.pem".to_string()))
    );
    assert_eq!(
        r.builder.lookup(PodKey::QuicCfg(ProtocolField::SrcMacAddr)),
        Some(&PodValue::Text("02:42:ac:11:00:02".to_string()))
    );
}

#[test]
fn namespace_is_entered_before_anything_else() {
    let mut cfg = config(1);
    cfg.netns_enabled = true;
    let r = run(cfg, all_tools(), LISTING, 1);
    assert!(r.outcome.is_ok());
    assert_eq!(r.log[0], "enter /var/run/netns/eth0");
    assert!(r.log[1].ends_with("fd_pod_ctl new fd1.wksp 16384"));
    let without = run(config(1), all_tools(), LISTING, 1);
    assert_eq!(without.log.len() + 1, r.log.len());
    assert!(!without.log.iter().any(|l| l.starts_with("enter")));
}

#[test]
fn unhook_settle_hook_before_inspection() {
    let r = run(config(1), all_tools(), LISTING, 1);
    let unhook = r.log.iter().position(|l| l.contains("unhook-iface")).unwrap();
    assert_eq!(r.log[unhook + 1], "settle 1000");
    assert!(r.log[unhook + 2].contains(" hook-iface "));
    assert_eq!(r.log[unhook + 3], "ip address show dev eth0");
    let first_bind = r.log.iter().position(|l| l.contains("bind-xsk")).unwrap();
    assert!(unhook + 2 < first_bind);
    let last_verify = r.log.iter().rposition(|l| l.contains("fd1.verify.v0.cnc")).unwrap();
    assert!(last_verify < unhook);
}

#[test]
fn failing_to_unhook_is_tolerated() {
    let mut b = Builder::new(config(0), all_tools());
    let mut event = Event::Begin;
    loop {
        match b.step(event).unwrap() {
            Action::Allocate { .. } => event = Event::Allocated(Handle { kind: "w".to_string(), id: 1 }),
            Action::Run { tolerant: true, command } => {
                assert_eq!(command.args[0], "unhook-iface");
                break;
            }
            _ => event = Event::Completed,
        }
    }
    assert_eq!(b.position(), Step::Unhook);
    assert_eq!(b.step(Event::Failed("no such binding".to_string())), Ok(Action::Settle { millis: 1000 }));
    assert_eq!(b.position(), Step::Settle);
}

#[test]
fn allocator_failure_aborts_with_tool_and_diagnostic() {
    let mut b = Builder::new(config(1), all_tools());
    b.step(Event::Begin).unwrap();
    b.step(Event::Allocated(Handle { kind: "w".to_string(), id: 1 })).unwrap();
    assert_eq!(b.position(), Step::Allocate(PodKey::MainCnc));
    let e = b.step(Event::Failed("out of memory".to_string())).unwrap_err();
    assert_eq!(
        e,
        ApplyError::ToolFailed { tool: "/opt/fd/bin/fd_tango_ctl".to_string(), diagnostic: "out of memory".to_string() }
    );
    assert_eq!(b.position(), Step::Failed);
    assert_eq!(b.action(), None);
    assert_eq!(b.step(Event::Begin), Err(ApplyError::NotRunning));
    assert_eq!(b.step(Event::Allocated(Handle { kind: "w".to_string(), id: 2 })), Err(ApplyError::NotRunning));
    assert_eq!(b.position(), Step::Failed);
}

#[test]
fn pod_creation_failure_names_the_pod_tool() {
    let mut b = Builder::new(config(1), all_tools());
    b.step(Event::Begin).unwrap();
    assert_eq!(
        b.step(Event::Failed("no workspace".to_string())),
        Err(ApplyError::ToolFailed { tool: "/opt/fd/bin/fd_pod_ctl".to_string(), diagnostic: "no workspace".to_string() })
    );
}

#[test]
fn namespace_failure_names_the_namespace() {
    let mut cfg = config(1);
    cfg.netns_enabled = true;
    let mut b = Builder::new(cfg, all_tools());
    assert_eq!(b.step(Event::Begin), Ok(Action::EnterNamespace { path: "/var/run/netns/eth0".to_string() }));
    assert_eq!(
        b.step(Event::Failed("denied".to_string())),
        Err(ApplyError::ToolFailed { tool: "/var/run/netns/eth0".to_string(), diagnostic: "denied".to_string() })
    );
}

#[test]
fn inspector_failure_is_fatal() {
    let mut b = Builder::new(config(0), all_tools());
    let mut event = Event::Begin;
    loop {
        match b.step(event).unwrap() {
            Action::Allocate { .. } => event = Event::Allocated(Handle { kind: "w".to_string(), id: 1 }),
            Action::Inspect { .. } => break,
            _ => event = Event::Completed,
        }
    }
    assert_eq!(
        b.step(Event::Failed("no such device".to_string())),
        Err(ApplyError::ToolFailed { tool: "ip".to_string(), diagnostic: "no such device".to_string() })
    );
}

#[test]
fn report_that_answers_nothing_is_refused() {
    let mut b = Builder::new(config(1), all_tools());
    assert_eq!(b.step(Event::Completed), Err(ApplyError::UnexpectedEvent));
    assert_eq!(b.position(), Step::Failed);

    let mut b = Builder::new(config(1), all_tools());
    b.step(Event::Begin).unwrap();
    assert_eq!(b.step(Event::Completed), Err(ApplyError::UnexpectedEvent));
    assert_eq!(b.step(Event::Completed), Err(ApplyError::NotRunning));

    let mut b = Builder::new(config(1), all_tools());
    b.step(Event::Begin).unwrap();
    b.step(Event::Allocated(Handle { kind: "w".to_string(), id: 1 })).unwrap();
    b.step(Event::Allocated(Handle { kind: "w".to_string(), id: 2 })).unwrap();
    assert_eq!(b.position(), Step::Publish(Section::Main));
    assert_eq!(
        b.step(Event::Allocated(Handle { kind: "w".to_string(), id: 3 })),
        Err(ApplyError::UnexpectedEvent)
    );
}

#[test]
fn finished_apply_takes_no_more_reports() {
    let mut r = run(config(1), all_tools(), LISTING, 1);
    assert_eq!(r.builder.position(), Step::Done);
    assert_eq!(r.builder.step(Event::Completed), Err(ApplyError::NotRunning));
    assert_eq!(r.builder.position(), Step::Done);
    assert_eq!(r.builder.entries().len(), 35);
    assert!(matches!(r.builder.action(), Some(Action::Finish { .. })));
}

#[test]
fn builder_names_its_action_in_every_state() {
    let mut b = Builder::new(config(1), all_tools());
    assert_eq!(b.action(), None);
    assert_eq!(b.config().name, "fd1");
    let first = b.step(Event::Begin).unwrap();
    assert_eq!(b.action(), Some(first));
    assert_eq!(b.position(), Step::CreatePod);
    assert_eq!(b.lookup(PodKey::MainCnc), None);
}

#[test]
fn steps_follow_each_other() {
    assert_eq!(first_step_of(Section::Main), Step::Allocate(PodKey::MainCnc));
    assert_eq!(first_step_of(Section::QuicCfg), Step::Publish(Section::QuicCfg));
    assert_eq!(
        step_after_allocation(PodKey::Pack(PackField::OutDcache), all_tools()),
        Step::Allocate(PodKey::Pack(PackField::Scratch))
    );
    assert_eq!(
        step_after_allocation(PodKey::Pack(PackField::OutDcache), no_tools()),
        Step::Allocate(PodKey::Pack(PackField::ReturnFseq))
    );
    assert_eq!(step_after_allocation(PodKey::Quic(4, QuicField::Xsk), all_tools()), Step::Bind(4));
    assert_eq!(
        step_after_allocation(PodKey::Quic(4, QuicField::Cnc), no_tools()),
        Step::Allocate(PodKey::Quic(4, QuicField::Xsk))
    );
    assert_eq!(step_after_publication(Section::Dedup, 0), Step::Unhook);
    assert_eq!(
        step_after_publication(Section::Dedup, 2),
        Step::Allocate(PodKey::VerifyIn(0, InboundField::Mcache))
    );
    assert_eq!(
        step_after_publication(Section::Verify(0), 2),
        Step::Allocate(PodKey::VerifyIn(1, InboundField::Mcache))
    );
    assert_eq!(step_after_publication(Section::Verify(1), 2), Step::Unhook);
    assert_eq!(step_after_publication(Section::Verify(u32::MAX), u32::MAX), Step::Unhook);
    assert_eq!(step_after_publication(Section::Quic(1), 2), Step::Publish(Section::QuicCfg));
    assert_eq!(step_after_publication(Section::QuicCfg, 2), Step::Done);
    assert_eq!(engine_start_step(0), Step::Publish(Section::QuicCfg));
    assert_eq!(engine_start_step(3), Step::Allocate(PodKey::Quic(0, QuicField::Cnc)));
}
