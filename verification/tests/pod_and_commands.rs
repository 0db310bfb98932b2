use frank::command::{allocation_command, binding_command, hook_command, insertion_command, inspection_command, listener_command, plan_primitive, unhook_command, Primitive};
use frank::config::{Availability, DedupConfig, OptionalTools, PackConfig, PipelineConfig, QuicConfig, VerifyConfig};
use frank::handle::Handle;
use frank::pod::{render_insert, DedupField, InboundField, PackField, PodEntry, PodKey, PodValue, ProtocolField, QuicField, VerifyField};

fn sample_config() -> PipelineConfig {
    PipelineConfig {
        name: "fd1".to_string(),
        binary_dir: "/opt/fd/bin".to_string(),
        scratch_directory: "/tmp/fd".to_string(),
        netns_enabled: false,
        verify_tile_count: 2,
        pack: PackConfig {
            max_pending_transactions: 1024,
            solana_labs_bank_thread_count: 4,
            compute_unit_estimator_table_size: 2048,
            compute_unit_estimator_ema_history: 1000,
            compute_unit_estimator_ema_default: 200000,
            solana_labs_bank_thread_compute_units_executed_per_second: 12000001,
        },
        dedup: DedupConfig { signature_cache_size: 4194302 },
        verify: VerifyConfig { receive_buffer_size: 16384, mtu: 4804 },
        quic: QuicConfig {
            interface: "eth0".to_string(),
            listen_port: 9001,
            xdp_mode: "skb".to_string(),
            xdp_rx_queue_size: 4096,
            xdp_tx_queue_size: 2048,
            xdp_aio_depth: 512,
        },
    }
}

fn all_tools() -> OptionalTools {
    OptionalTools { pack: Availability::Available, quic: Availability::Available }
}

fn no_tools() -> OptionalTools {
    OptionalTools { pack: Availability::Unavailable, quic: Availability::Unavailable }
}

fn words(v: &[&str]) -> Vec<String> {
    v.iter().map(|s| s.to_string()).collect()
}

#[test]
fn key_paths_of_the_singleton_tiles() {
    assert_eq!(PodKey::MainCnc.path("fd1"), "fd1.main.cnc");
    assert_eq!(PodKey::Pack(PackField::Cnc).path("fd1"), "fd1.pack.cnc");
    assert_eq!(PodKey::Pack(PackField::OutMcache).path("fd1"), "fd1.pack.out-mcache");
    assert_eq!(PodKey::Pack(PackField::OutDcache).path("fd1"), "fd1.pack.out-dcache");
    assert_eq!(PodKey::Pack(PackField::Scratch).path("fd1"), "fd1.pack.scratch");
    assert_eq!(PodKey::Pack(PackField::CuEstTbl).path("fd1"), "fd1.pack.cu-est-tbl");
    assert_eq!(PodKey::Pack(PackField::ReturnFseq).path("fd1"), "fd1.pack.return-fseq");
    assert_eq!(PodKey::Pack(PackField::BankCnt).path("fd1"), "fd1.pack.bank-cnt");
    assert_eq!(PodKey::Pack(PackField::TxnqSz).path("fd1"), "fd1.pack.txnq-sz");
    assert_eq!(PodKey::Pack(PackField::CuEstTblSz).path("fd1"), "fd1.pack.cu-est-tbl-sz");
    assert_eq!(PodKey::Pack(PackField::CuLimit).path("fd1"), "fd1.pack.cu-limit");
    assert_eq!(PodKey::Dedup(DedupField::Cnc).path("fd1"), "fd1.dedup.cnc");
    assert_eq!(PodKey::Dedup(DedupField::Tcache).path("fd1"), "fd1.dedup.tcache");
    assert_eq!(PodKey::Dedup(DedupField::Mcache).path("fd1"), "fd1.dedup.mcache");
    assert_eq!(PodKey::Dedup(DedupField::Fseq).path("fd1"), "fd1.dedup.fseq");
}

#[test]
fn key_paths_of_the_replicated_tiles() {
    assert_eq!(PodKey::VerifyIn(0, InboundField::Mcache).path("fd1"), "fd1.verifyin.v0in.mcache");
    assert_eq!(PodKey::VerifyIn(3, InboundField::Dcache).path("fd1"), "fd1.verifyin.v3in.dcache");
    assert_eq!(PodKey::VerifyIn(12, InboundField::Fseq).path("fd1"), "fd1.verifyin.v12in.fseq");
    assert_eq!(PodKey::Verify(0, VerifyField::Cnc).path("fd1"), "fd1.verify.v0.cnc");
    assert_eq!(PodKey::Verify(1, VerifyField::Mcache).path("fd1"), "fd1.verify.v1.mcache");
    assert_eq!(PodKey::Verify(1, VerifyField::Dcache).path("fd1"), "fd1.verify.v1.dcache");
    assert_eq!(PodKey::Verify(10, VerifyField::Fseq).path("fd1"), "fd1.verify.v10.fseq");
    assert_eq!(PodKey::Quic(0, QuicField::Cnc).path("fd1"), "fd1.quic.quic0.cnc");
    assert_eq!(PodKey::Quic(0, QuicField::Mcache).path("fd1"), "fd1.quic.quic0.mcache");
    assert_eq!(PodKey::Quic(0, QuicField::Dcache).path("fd1"), "fd1.quic.quic0.dcache");
    assert_eq!(PodKey::Quic(0, QuicField::Fseq).path("fd1"), "fd1.quic.quic0.fseq");
    assert_eq!(PodKey::Quic(1, QuicField::Quic).path("fd1"), "fd1.quic.quic1.quic");
    assert_eq!(PodKey::Quic(1, QuicField::Xsk).path("fd1"), "fd1.quic.quic1.xsk");
    assert_eq!(PodKey::Quic(1, QuicField::XskAio).path("fd1"), "fd1.quic.quic1.xsk_aio");
}

#[test]
fn key_paths_of_the_protocol_configuration() {
    assert_eq!(PodKey::QuicCfg(ProtocolField::CertFile).path("p"), "p.quic_cfg.cert_file");
    assert_eq!(PodKey::QuicCfg(ProtocolField::KeyFile).path("p"), "p.quic_cfg.key_file");
    assert_eq!(PodKey::QuicCfg(ProtocolField::IpAddr).path("p"), "p.quic_cfg.ip_addr");
    assert_eq!(PodKey::QuicCfg(ProtocolField::ListenPort).path("p"), "p.quic_cfg.listen_port");
    assert_eq!(PodKey::QuicCfg(ProtocolField::SrcMacAddr).path("p"), "p.quic_cfg.src_mac_addr");
    assert_eq!(PodKey::QuicCfg(ProtocolField::IdleTimeoutMs).path("p"), "p.quic_cfg.idle_timeout_ms");
}

#[test]
fn values_carry_their_tag_and_text() {
    let h = PodValue::Handle(Handle { kind: "w".to_string(), id: 9 });
    assert_eq!(h.tag(), "cstr");
    assert_eq!(h.render(), "w:9");
    assert_eq!(PodValue::Unused.tag(), "cstr");
    assert_eq!(PodValue::Unused.render(), "unused");
    assert_eq!(PodValue::Text("a b".to_string()).tag(), "cstr");
    assert_eq!(PodValue::Text("a b".to_string()).render(), "a b");
    assert_eq!(PodValue::Ulong(1000).tag(), "ulong");
    assert_eq!(PodValue::Ulong(1000).render(), "1000");
    assert_eq!(PodValue::Uint(7).tag(), "uint");
    assert_eq!(PodValue::Uint(7).render(), "7");
    assert_eq!(PodValue::Ushort(9001).tag(), "ushort");
    assert_eq!(PodValue::Ushort(9001).render(), "9001");
    assert_eq!(h.duplicate(), h);
}

#[test]
fn insert_arguments_name_each_entry_in_order() {
    let pod = Handle { kind: "fd1.wksp".to_string(), id: 100 };
    let entries = vec![
        PodEntry {
            key: PodKey::Dedup(DedupField::Cnc),
            value: PodValue::Handle(Handle { kind: "fd1.wksp".to_string(), id: 7 }),
        },
        PodEntry { key: PodKey::Pack(PackField::CuLimit), value: PodValue::Uint(12) },
    ];
    assert_eq!(
        render_insert(&pod, "fd1", &entries),
        words(&[
            "insert", "fd1.wksp:100", "cstr", "fd1.dedup.cnc", "fd1.wksp:7",
            "insert", "fd1.wksp:100", "uint", "fd1.pack.cu-limit", "12",
        ])
    );
    assert_eq!(render_insert(&pod, "fd1", &Vec::new()), Vec::<String>::new());
    assert_eq!(entries[0].duplicate(), entries[0]);
}

#[test]
fn allocations_name_tool_verb_and_sizes() {
    let cfg = sample_config();
    let pod = allocation_command(&cfg, Primitive::Pod { size: 16384 });
    assert_eq!(pod.program, "/opt/fd/bin/fd_pod_ctl");
    assert_eq!(pod.args, words(&["new", "fd1.wksp", "16384"]));
    let cnc = allocation_command(&cfg, Primitive::Cnc { kind: 2, app_size: 4032 });
    assert_eq!(cnc.program, "/opt/fd/bin/fd_tango_ctl");
    assert_eq!(cnc.args, words(&["new-cnc", "fd1.wksp", "2", "tic", "4032"]));
    let mcache = allocation_command(&cfg, Primitive::Mcache { depth: 1024 });
    assert_eq!(mcache.program, "/opt/fd/bin/fd_tango_ctl");
    assert_eq!(mcache.args, words(&["new-mcache", "fd1.wksp", "1024", "0", "0"]));
    let dcache = allocation_command(&cfg, Primitive::Dcache { mtu: 4808, depth: 1024, reserved: 0 });
    assert_eq!(dcache.program, "/opt/fd/bin/fd_tango_ctl");
    assert_eq!(dcache.args, words(&["new-dcache", "fd1.wksp", "4808", "1024", "1", "1", "0"]));
    let fseq = allocation_command(&cfg, Primitive::Fseq);
    assert_eq!(fseq.program, "/opt/fd/bin/fd_tango_ctl");
    assert_eq!(fseq.args, words(&["new-fseq", "fd1.wksp", "0"]));
    let tcache = allocation_command(&cfg, Primitive::Tcache { depth: 4194302 });
    assert_eq!(tcache.program, "/opt/fd/bin/fd_tango_ctl");
    assert_eq!(tcache.args, words(&["new-tcache", "fd1.wksp", "4194302", "0"]));
}

#[test]
fn allocations_of_the_optional_and_network_tools() {
    let cfg = sample_config();
    let scratch = allocation_command(&cfg, Primitive::Scratch { bank_count: 4, depth: 1024 });
    assert_eq!(scratch.program, "/opt/fd/bin/fd_pack_ctl");
    assert_eq!(scratch.args, words(&["new-scratch", "fd1.wksp", "4", "1024"]));
    let table = allocation_command(&cfg, Primitive::CuEstTbl { size: 2048, history: 1000, initial: 200000 });
    assert_eq!(table.program, "/opt/fd/bin/fd_pack_ctl");
    assert_eq!(table.args, words(&["new-cu-est-tbl", "fd1.wksp", "2048", "1000", "200000"]));
    let quic = allocation_command(&cfg, Primitive::Quic);
    assert_eq!(quic.program, "/opt/fd/bin/fd_quic_ctl");
    assert_eq!(quic.args, words(&["new-quic", "fd1.wksp"]));
    let xsk = allocation_command(&cfg, Primitive::Xsk { frame_size: 2048, rx_depth: 4096, tx_depth: 2048 });
    assert_eq!(xsk.program, "/opt/fd/bin/fd_xdp_ctl");
    assert_eq!(xsk.args, words(&["new-xsk", "fd1.wksp", "2048", "4096", "2048"]));
    let aio = allocation_command(&cfg, Primitive::XskAio { tx_depth: 2048, aio_depth: 512 });
    assert_eq!(aio.program, "/opt/fd/bin/fd_xdp_ctl");
    assert_eq!(aio.args, words(&["new-xsk-aio", "fd1.wksp", "2048", "512"]));
}

#[test]
fn network_commands() {
    let cfg = sample_config();
    let unhook = unhook_command(&cfg);
    assert_eq!(unhook.program, "/opt/fd/bin/fd_xdp_ctl");
    assert_eq!(unhook.args, words(&["unhook-iface", "fd1", "eth0"]));
    let hook = hook_command(&cfg);
    assert_eq!(hook.program, "/opt/fd/bin/fd_xdp_ctl");
    assert_eq!(hook.args, words(&["hook-iface", "fd1", "eth0", "skb"]));
    let inspect = inspection_command(&cfg);
    assert_eq!(inspect.program, "ip");
    assert_eq!(inspect.args, words(&["address", "show", "dev", "eth0"]));
    let listen = listener_command(&cfg, "10.0.0.5");
    assert_eq!(listen.program, "/opt/fd/bin/fd_xdp_ctl");
    assert_eq!(listen.args, words(&["listen-udp-port", "fd1", "10.0.0.5", "9001", "tpu-quic"]));
    let xsk = Handle { kind: "fd1.wksp".to_string(), id: 77 };
    let bind = binding_command(&cfg, &xsk, 1);
    assert_eq!(bind.program, "/opt/fd/bin/fd_xdp_ctl");
    assert_eq!(bind.args, words(&["bind-xsk", "fd1.wksp:77", "fd1", "eth0", "1"]));
    let pod = Handle { kind: "fd1.wksp".to_string(), id: 1 };
    let insert = insertion_command(
        &cfg,
        &pod,
        &vec![PodEntry { key: PodKey::QuicCfg(ProtocolField::ListenPort), value: PodValue::Ushort(9001) }],
    );
    assert_eq!(insert.program, "/opt/fd/bin/fd_pod_ctl");
    assert_eq!(insert.args, words(&["insert", "fd1.wksp:1", "ushort", "fd1.quic_cfg.listen_port", "9001"]));
}

#[test]
fn workspace_tool_and_namespace_paths() {
    let cfg = sample_config();
    assert_eq!(cfg.workspace(), "fd1.wksp");
    assert_eq!(cfg.tool("fd_xdp_ctl"), "/opt/fd/bin/fd_xdp_ctl");
    assert_eq!(cfg.namespace(), "/var/run/netns/eth0");
}

#[test]
fn dedup_ring_is_as_deep_as_the_verify_receive_buffer() {
    for tiles in [1u32, 2, 5, 64] {
        for depth in [1u32, 128, 16384, u32::MAX] {
            let mut cfg = sample_config();
            cfg.verify_tile_count = tiles;
            cfg.verify.receive_buffer_size = depth;
            let dedup = plan_primitive(&cfg, all_tools(), PodKey::Dedup(DedupField::Mcache));
            assert_eq!(dedup, Some(Primitive::Mcache { depth }));
            for i in 0..tiles {
                assert_eq!(plan_primitive(&cfg, all_tools(), PodKey::Verify(i, VerifyField::Mcache)), dedup);
                assert_eq!(plan_primitive(&cfg, no_tools(), PodKey::Verify(i, VerifyField::Mcache)), dedup);
            }
        }
    }
}

#[test]
fn inbound_store_reserves_thirty_two_bytes_per_slot_and_outbound_none() {
    let cfg = sample_config();
    assert_eq!(
        plan_primitive(&cfg, all_tools(), PodKey::VerifyIn(0, InboundField::Dcache)),
        Some(Primitive::Dcache { mtu: 4804, depth: 16384, reserved: 524288 })
    );
    assert_eq!(
        plan_primitive(&cfg, all_tools(), PodKey::Verify(0, VerifyField::Dcache)),
        Some(Primitive::Dcache { mtu: 4804, depth: 16384, reserved: 0 })
    );
    let mut big = sample_config();
    big.verify.receive_buffer_size = u32::MAX;
    assert_eq!(
        plan_primitive(&big, all_tools(), PodKey::VerifyIn(1, InboundField::Dcache)),
        Some(Primitive::Dcache { mtu: 4804, depth: u32::MAX, reserved: 137438953440 })
    );
}

#[test]
fn pack_primitives_follow_the_configuration() {
    let cfg = sample_config();
    assert_eq!(plan_primitive(&cfg, all_tools(), PodKey::MainCnc), Some(Primitive::Cnc { kind: 0, app_size: 4032 }));
    assert_eq!(
        plan_primitive(&cfg, all_tools(), PodKey::Pack(PackField::OutMcache)),
        Some(Primitive::Mcache { depth: 1024 })
    );
    assert_eq!(
        plan_primitive(&cfg, all_tools(), PodKey::Pack(PackField::OutDcache)),
        Some(Primitive::Dcache { mtu: 4808, depth: 1024, reserved: 0 })
    );
    assert_eq!(
        plan_primitive(&cfg, all_tools(), PodKey::Pack(PackField::Scratch)),
        Some(Primitive::Scratch { bank_count: 4, depth: 1024 })
    );
    assert_eq!(
        plan_primitive(&cfg, all_tools(), PodKey::Pack(PackField::CuEstTbl)),
        Some(Primitive::CuEstTbl { size: 2048, history: 1000, initial: 200000 })
    );
    assert_eq!(plan_primitive(&cfg, all_tools(), PodKey::Pack(PackField::BankCnt)), None);
    assert_eq!(
        plan_primitive(&cfg, all_tools(), PodKey::Dedup(DedupField::Tcache)),
        Some(Primitive::Tcache { depth: 4194302 })
    );
    assert_eq!(
        plan_primitive(&cfg, all_tools(), PodKey::Verify(1, VerifyField::Cnc)),
        Some(Primitive::Cnc { kind: 2, app_size: 4032 })
    );
}

#[test]
fn absent_tools_allocate_nothing() {
    let cfg = sample_config();
    assert_eq!(plan_primitive(&cfg, no_tools(), PodKey::Pack(PackField::Scratch)), None);
    assert_eq!(plan_primitive(&cfg, no_tools(), PodKey::Pack(PackField::CuEstTbl)), None);
    assert_eq!(plan_primitive(&cfg, no_tools(), PodKey::Quic(0, QuicField::Quic)), None);
    assert_eq!(plan_primitive(&cfg, all_tools(), PodKey::Quic(0, QuicField::Quic)), Some(Primitive::Quic));
    assert_eq!(
        plan_primitive(&cfg, no_tools(), PodKey::Quic(0, QuicField::Xsk)),
        Some(Primitive::Xsk { frame_size: 2048, rx_depth: 4096, tx_depth: 2048 })
    );
    assert_eq!(
        plan_primitive(&cfg, no_tools(), PodKey::Quic(0, QuicField::XskAio)),
        Some(Primitive::XskAio { tx_depth: 2048, aio_depth: 512 })
    );
    assert_eq!(plan_primitive(&cfg, all_tools(), PodKey::Quic(0, QuicField::Mcache)), None);
    assert_eq!(plan_primitive(&cfg, all_tools(), PodKey::QuicCfg(ProtocolField::IpAddr)), None);
}
