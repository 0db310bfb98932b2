//! The invocations of the outside tools: which tool, with which arguments.
//!
//! The library only writes invocations down. Running them is left to the caller,
//! who reports what came back.

use vstd::prelude::*;
use vstd::string::*;
use crate::config::{tool_path, workspace_name, Availability, OptionalTools, PipelineConfig, PipelineConfigView};
use crate::handle::{handle_text, Handle, HandleView};
use crate::pod::{entry_views, insert_arguments, render_insert, DedupField, InboundField, PackField, PodEntry, PodEntryView, PodKey, QuicField, VerifyField};
use crate::text::{decimal, render_decimal, texts};

verus! {

/// Size in bytes of the application region of every liveness block.
pub const CNC_APP_SIZE: u32 = 4032;

/// Capacity in bytes of the configuration pod.
pub const POD_SIZE: u32 = 16384;

/// Size in bytes of a transaction descriptor in the pack tile's payload store.
pub const PACK_DESCRIPTOR_SIZE: u32 = 4808;

/// Size in bytes of a frame of a kernel socket pair.
pub const XSK_FRAME_SIZE: u32 = 2048;

/// Extra application bytes that an inbound payload store reserves per slot of the
/// receive buffer.
pub const INBOUND_APP_BYTES_PER_SLOT: u64 = 32;

/// One invocation of an outside tool.
#[derive(Clone, Debug, PartialEq, Eq)]
pub struct Command {
    pub program: String,
    pub args: Vec<String>,
}

/// The mathematical value of a [`Command`].
pub struct CommandView {
    pub program: Seq<char>,
    pub args: Seq<Seq<char>>,
}

impl View for Command {
    type V = CommandView;

    open spec fn view(&self) -> CommandView {
        CommandView { program: self.program@, args: texts(self.args@) }
    }
}

/// A shared-memory primitive to allocate, with its sizing.
#[derive(Clone, Copy, Debug, PartialEq, Eq, Structural)]
pub enum Primitive {
    /// The configuration pod.
    Pod { size: u32 },
    /// A liveness block.
    Cnc { kind: u32, app_size: u32 },
    /// A ring of message descriptors.
    Mcache { depth: u32 },
    /// A payload store for `depth` messages of up to `mtu` bytes, with `reserved`
    /// extra bytes for the application.
    Dcache { mtu: u32, depth: u32, reserved: u64 },
    /// A consumer-position counter.
    Fseq,
    /// A signature cache.
    Tcache { depth: u32 },
    /// The pack tile's scratch region.
    Scratch { bank_count: u32, depth: u32 },
    /// The pack tile's compute-unit estimator table.
    CuEstTbl { size: u32, history: u32, initial: u32 },
    /// A protocol-engine object.
    Quic,
    /// A kernel socket pair.
    Xsk { frame_size: u32, rx_depth: u32, tx_depth: u32 },
    /// An asynchronous I/O wrapper around a socket pair.
    XskAio { tx_depth: u32, aio_depth: u32 },
}

/// The primitive that is allocated for `key`. `None` for a key that holds a plain
/// configuration value, a handle allocated for another key, or the primitive of an
/// optional tool that is not installed.
pub open spec fn primitive_for(cfg: PipelineConfigView, tools: OptionalTools, key: PodKey) -> Option<
    Primitive,
> {
    let depth = cfg.verify.receive_buffer_size;
    match key {
        PodKey::MainCnc => Some(Primitive::Cnc { kind: 0, app_size: CNC_APP_SIZE }),
        PodKey::Pack(PackField::Cnc) => Some(Primitive::Cnc { kind: 0, app_size: CNC_APP_SIZE }),
        PodKey::Pack(PackField::OutMcache) => Some(
            Primitive::Mcache { depth: cfg.pack.max_pending_transactions },
        ),
        PodKey::Pack(PackField::OutDcache) => Some(
            Primitive::Dcache {
                mtu: PACK_DESCRIPTOR_SIZE,
                depth: cfg.pack.max_pending_transactions,
                reserved: 0,
            },
        ),
        PodKey::Pack(PackField::Scratch) => if tools.pack == Availability::Available {
            Some(
                Primitive::Scratch {
                    bank_count: cfg.pack.solana_labs_bank_thread_count,
                    depth: cfg.pack.max_pending_transactions,
                },
            )
        } else {
            None
        },
        PodKey::Pack(PackField::CuEstTbl) => if tools.pack == Availability::Available {
            Some(
                Primitive::CuEstTbl {
                    size: cfg.pack.compute_unit_estimator_table_size,
                    history: cfg.pack.compute_unit_estimator_ema_history,
                    initial: cfg.pack.compute_unit_estimator_ema_default,
                },
            )
        } else {
            None
        },
        PodKey::Pack(PackField::ReturnFseq) => Some(Primitive::Fseq),
        PodKey::Pack(_) => None,
        PodKey::Dedup(DedupField::Cnc) => Some(Primitive::Cnc { kind: 0, app_size: CNC_APP_SIZE }),
        PodKey::Dedup(DedupField::Tcache) => Some(
            Primitive::Tcache { depth: cfg.dedup.signature_cache_size },
        ),
        PodKey::Dedup(DedupField::Mcache) => Some(Primitive::Mcache { depth }),
        PodKey::Dedup(DedupField::Fseq) => Some(Primitive::Fseq),
        PodKey::VerifyIn(_, InboundField::Mcache) => Some(Primitive::Mcache { depth }),
        PodKey::VerifyIn(_, InboundField::Dcache) => Some(
            Primitive::Dcache {
                mtu: cfg.verify.mtu,
                depth,
                reserved: (depth * INBOUND_APP_BYTES_PER_SLOT) as u64,
            },
        ),
        PodKey::VerifyIn(_, InboundField::Fseq) => Some(Primitive::Fseq),
        PodKey::Verify(_, VerifyField::Cnc) => Some(Primitive::Cnc { kind: 2, app_size: CNC_APP_SIZE }),
        PodKey::Verify(_, VerifyField::Mcache) => Some(Primitive::Mcache { depth }),
        PodKey::Verify(_, VerifyField::Dcache) => Some(
            Primitive::Dcache { mtu: cfg.verify.mtu, depth, reserved: 0 },
        ),
        PodKey::Verify(_, VerifyField::Fseq) => Some(Primitive::Fseq),
        PodKey::Quic(_, QuicField::Cnc) => Some(Primitive::Cnc { kind: 2, app_size: CNC_APP_SIZE }),
        PodKey::Quic(_, QuicField::Quic) => if tools.quic == Availability::Available {
            Some(Primitive::Quic)
        } else {
            None
        },
        PodKey::Quic(_, QuicField::Xsk) => Some(
            Primitive::Xsk {
                frame_size: XSK_FRAME_SIZE,
                rx_depth: cfg.quic.xdp_rx_queue_size,
                tx_depth: cfg.quic.xdp_tx_queue_size,
            },
        ),
        PodKey::Quic(_, QuicField::XskAio) => Some(
            Primitive::XskAio {
                tx_depth: cfg.quic.xdp_tx_queue_size,
                aio_depth: cfg.quic.xdp_aio_depth,
            },
        ),
        PodKey::Quic(_, _) => None,
        PodKey::QuicCfg(_) => None,
    }
}

/// The primitive to allocate for `key`, if its handle comes from an allocation of
/// its own.
pub fn plan_primitive(cfg: &PipelineConfig, tools: OptionalTools, key: PodKey) -> (p: Option<Primitive>)
    ensures
        p == primitive_for(cfg@, tools, key),
{
    let depth = cfg.verify.receive_buffer_size;
    match key {
        PodKey::MainCnc => Some(Primitive::Cnc { kind: 0, app_size: CNC_APP_SIZE }),
        PodKey::Pack(f) => match f {
            PackField::Cnc => Some(Primitive::Cnc { kind: 0, app_size: CNC_APP_SIZE }),
            PackField::OutMcache => Some(Primitive::Mcache { depth: cfg.pack.max_pending_transactions }),
            PackField::OutDcache => Some(
                Primitive::Dcache {
                    mtu: PACK_DESCRIPTOR_SIZE,
                    depth: cfg.pack.max_pending_transactions,
                    reserved: 0,
                },
            ),
            PackField::Scratch => match tools.pack {
                Availability::Available => Some(
                    Primitive::Scratch {
                        bank_count: cfg.pack.solana_labs_bank_thread_count,
                        depth: cfg.pack.max_pending_transactions,
                    },
                ),
                Availability::Unavailable => None,
            },
            PackField::CuEstTbl => match tools.pack {
                Availability::Available => Some(
                    Primitive::CuEstTbl {
                        size: cfg.pack.compute_unit_estimator_table_size,
                        history: cfg.pack.compute_unit_estimator_ema_history,
                        initial: cfg.pack.compute_unit_estimator_ema_default,
                    },
                ),
                Availability::Unavailable => None,
            },
            PackField::ReturnFseq => Some(Primitive::Fseq),
            _ => None,
        },
        PodKey::Dedup(f) => match f {
            DedupField::Cnc => Some(Primitive::Cnc { kind: 0, app_size: CNC_APP_SIZE }),
            DedupField::Tcache => Some(Primitive::Tcache { depth: cfg.dedup.signature_cache_size }),
            DedupField::Mcache => Some(Primitive::Mcache { depth }),
            DedupField::Fseq => Some(Primitive::Fseq),
        },
        PodKey::VerifyIn(_, f) => match f {
            InboundField::Mcache => Some(Primitive::Mcache { depth }),
            InboundField::Dcache => {
                let wide: u64 = depth as u64;
                Some(
                    Primitive::Dcache {
                        mtu: cfg.verify.mtu,
                        depth,
                        reserved: wide * INBOUND_APP_BYTES_PER_SLOT,
                    },
                )
            },
            InboundField::Fseq => Some(Primitive::Fseq),
        },
        PodKey::Verify(_, f) => match f {
            VerifyField::Cnc => Some(Primitive::Cnc { kind: 2, app_size: CNC_APP_SIZE }),
            VerifyField::Mcache => Some(Primitive::Mcache { depth }),
            VerifyField::Dcache => Some(Primitive::Dcache { mtu: cfg.verify.mtu, depth, reserved: 0 }),
            VerifyField::Fseq => Some(Primitive::Fseq),
        },
        PodKey::Quic(_, f) => match f {
            QuicField::Cnc => Some(Primitive::Cnc { kind: 2, app_size: CNC_APP_SIZE }),
            QuicField::Quic => match tools.quic {
                Availability::Available => Some(Primitive::Quic),
                Availability::Unavailable => None,
            },
            QuicField::Xsk => Some(
                Primitive::Xsk {
                    frame_size: XSK_FRAME_SIZE,
                    rx_depth: cfg.quic.xdp_rx_queue_size,
                    tx_depth: cfg.quic.xdp_tx_queue_size,
                },
            ),
            QuicField::XskAio => Some(
                Primitive::XskAio {
                    tx_depth: cfg.quic.xdp_tx_queue_size,
                    aio_depth: cfg.quic.xdp_aio_depth,
                },
            ),
            _ => None,
        },
        PodKey::QuicCfg(_) => None,
    }
}

/// The ring that feeds dedup is as deep as the verify tiles' receive buffer, and so
/// is the outbound ring of every verify tile, whatever the number of tiles.
pub proof fn lemma_dedup_depth_matches_verify(cfg: PipelineConfigView, tools: OptionalTools, tile: u32)
    ensures
        primitive_for(cfg, tools, PodKey::Dedup(DedupField::Mcache)) == Some(
            Primitive::Mcache { depth: cfg.verify.receive_buffer_size },
        ),
        primitive_for(cfg, tools, PodKey::Verify(tile, VerifyField::Mcache)) == primitive_for(
            cfg,
            tools,
            PodKey::Dedup(DedupField::Mcache),
        ),
{
}

/// The tool that allocates a primitive.
pub open spec fn allocator_of(p: Primitive) -> Seq<char> {
    match p {
        Primitive::Pod { .. } => "fd_pod_ctl"@,
        Primitive::Scratch { .. } => "fd_pack_ctl"@,
        Primitive::CuEstTbl { .. } => "fd_pack_ctl"@,
        Primitive::Quic => "fd_quic_ctl"@,
        Primitive::Xsk { .. } => "fd_xdp_ctl"@,
        Primitive::XskAio { .. } => "fd_xdp_ctl"@,
        _ => "fd_tango_ctl"@,
    }
}

/// The arguments that allocate a primitive in the workspace `wksp`.
pub open spec fn allocation_arguments(wksp: Seq<char>, p: Primitive) -> Seq<Seq<char>> {
    match p {
        Primitive::Pod { size } => seq!["new"@, wksp, decimal(size as nat)],
        Primitive::Cnc { kind, app_size } => seq![
            "new-cnc"@,
            wksp,
            decimal(kind as nat),
            "tic"@,
            decimal(app_size as nat),
        ],
        Primitive::Mcache { depth } => seq!["new-mcache"@, wksp, decimal(depth as nat), "0"@, "0"@],
        Primitive::Dcache { mtu, depth, reserved } => seq![
            "new-dcache"@,
            wksp,
            decimal(mtu as nat),
            decimal(depth as nat),
            "1"@,
            "1"@,
            decimal(reserved as nat),
        ],
        Primitive::Fseq => seq!["new-fseq"@, wksp, "0"@],
        Primitive::Tcache { depth } => seq!["new-tcache"@, wksp, decimal(depth as nat), "0"@],
        Primitive::Scratch { bank_count, depth } => seq![
            "new-scratch"@,
            wksp,
            decimal(bank_count as nat),
            decimal(depth as nat),
        ],
        Primitive::CuEstTbl { size, history, initial } => seq![
            "new-cu-est-tbl"@,
            wksp,
            decimal(size as nat),
            decimal(history as nat),
            decimal(initial as nat),
        ],
        Primitive::Quic => seq!["new-quic"@, wksp],
        Primitive::Xsk { frame_size, rx_depth, tx_depth } => seq![
            "new-xsk"@,
            wksp,
            decimal(frame_size as nat),
            decimal(rx_depth as nat),
            decimal(tx_depth as nat),
        ],
        Primitive::XskAio { tx_depth, aio_depth } => seq![
            "new-xsk-aio"@,
            wksp,
            decimal(tx_depth as nat),
            decimal(aio_depth as nat),
        ],
    }
}

/// The invocation that allocates `p` for the pipeline `cfg`.
pub open spec fn allocation(cfg: PipelineConfigView, p: Primitive) -> CommandView {
    CommandView {
        program: tool_path(cfg, allocator_of(p)),
        args: allocation_arguments(workspace_name(cfg), p),
    }
}

/// The invocation that removes the interface's network binding.
pub open spec fn unhook(cfg: PipelineConfigView) -> CommandView {
    CommandView {
        program: tool_path(cfg, "fd_xdp_ctl"@),
        args: seq!["unhook-iface"@, cfg.name, cfg.quic.interface],
    }
}

/// The invocation that binds the interface in the configured mode.
pub open spec fn hook(cfg: PipelineConfigView) -> CommandView {
    CommandView {
        program: tool_path(cfg, "fd_xdp_ctl"@),
        args: seq!["hook-iface"@, cfg.name, cfg.quic.interface, cfg.quic.xdp_mode],
    }
}

/// The invocation that lists the interface's addresses.
pub open spec fn inspection(cfg: PipelineConfigView) -> CommandView {
    CommandView { program: "ip"@, args: seq!["address"@, "show"@, "dev"@, cfg.quic.interface] }
}

/// The invocation that registers a protocol listener on `address`.
pub open spec fn listener(cfg: PipelineConfigView, address: Seq<char>) -> CommandView {
    CommandView {
        program: tool_path(cfg, "fd_xdp_ctl"@),
        args: seq![
            "listen-udp-port"@,
            cfg.name,
            address,
            decimal(cfg.quic.listen_port as nat),
            "tpu-quic"@,
        ],
    }
}

/// The invocation that binds the socket pair `xsk` to receive queue `queue` of the
/// interface.
pub open spec fn binding(cfg: PipelineConfigView, xsk: HandleView, queue: u32) -> CommandView {
    CommandView {
        program: tool_path(cfg, "fd_xdp_ctl"@),
        args: seq![
            "bind-xsk"@,
            handle_text(xsk),
            cfg.name,
            cfg.quic.interface,
            decimal(queue as nat),
        ],
    }
}

/// The invocation that inserts `entries` into `pod`, in order.
pub open spec fn insertion(cfg: PipelineConfigView, pod: HandleView, entries: Seq<PodEntryView>) -> CommandView {
    CommandView {
        program: tool_path(cfg, "fd_pod_ctl"@),
        args: insert_arguments(pod, cfg.name, entries),
    }
}

fn number(n: u32) -> (s: String)
    ensures
        s@ == decimal(n as nat),
{
    render_decimal(n as u64)
}

fn word(s: &str) -> (r: String)
    ensures
        r@ == s@,
{
    String::from_str(s)
}

/// Writes the invocation that allocates `p`.
pub fn allocation_command(cfg: &PipelineConfig, p: Primitive) -> (c: Command)
    ensures
        c@ == allocation(cfg@, p),
{
    let mut args: Vec<String> = Vec::new();
    let wksp = cfg.workspace();
    let program;
    match p {
        Primitive::Pod { size } => {
            program = cfg.tool("fd_pod_ctl");
            args.push(word("new"));
            args.push(wksp);
            args.push(number(size));
        },
        Primitive::Cnc { kind, app_size } => {
            program = cfg.tool("fd_tango_ctl");
            args.push(word("new-cnc"));
            args.push(wksp);
            args.push(number(kind));
            args.push(word("tic"));
            args.push(number(app_size));
        },
        Primitive::Mcache { depth } => {
            program = cfg.tool("fd_tango_ctl");
            args.push(word("new-mcache"));
            args.push(wksp);
            args.push(number(depth));
            args.push(word("0"));
            args.push(word("0"));
        },
        Primitive::Dcache { mtu, depth, reserved } => {
            program = cfg.tool("fd_tango_ctl");
            args.push(word("new-dcache"));
            args.push(wksp);
            args.push(number(mtu));
            args.push(number(depth));
            args.push(word("1"));
            args.push(word("1"));
            args.push(render_decimal(reserved));
        },
        Primitive::Fseq => {
            program = cfg.tool("fd_tango_ctl");
            args.push(word("new-fseq"));
            args.push(wksp);
            args.push(word("0"));
        },
        Primitive::Tcache { depth } => {
            program = cfg.tool("fd_tango_ctl");
            args.push(word("new-tcache"));
            args.push(wksp);
            args.push(number(depth));
            args.push(word("0"));
        },
        Primitive::Scratch { bank_count, depth } => {
            program = cfg.tool("fd_pack_ctl");
            args.push(word("new-scratch"));
            args.push(wksp);
            args.push(number(bank_count));
            args.push(number(depth));
        },
        Primitive::CuEstTbl { size, history, initial } => {
            program = cfg.tool("fd_pack_ctl");
            args.push(word("new-cu-est-tbl"));
            args.push(wksp);
            args.push(number(size));
            args.push(number(history));
            args.push(number(initial));
        },
        Primitive::Quic => {
            program = cfg.tool("fd_quic_ctl");
            args.push(word("new-quic"));
            args.push(wksp);
        },
        Primitive::Xsk { frame_size, rx_depth, tx_depth } => {
            program = cfg.tool("fd_xdp_ctl");
            args.push(word("new-xsk"));
            args.push(wksp);
            args.push(number(frame_size));
            args.push(number(rx_depth));
            args.push(number(tx_depth));
        },
        Primitive::XskAio { tx_depth, aio_depth } => {
            program = cfg.tool("fd_xdp_ctl");
            args.push(word("new-xsk-aio"));
            args.push(wksp);
            args.push(number(tx_depth));
            args.push(number(aio_depth));
        },
    }
    assert(texts(args@) =~= allocation_arguments(workspace_name(cfg@), p));
    Command { program, args }
}

/// Writes the invocation that removes the interface's network binding.
pub fn unhook_command(cfg: &PipelineConfig) -> (c: Command)
    ensures
        c@ == unhook(cfg@),
{
    let mut args: Vec<String> = Vec::new();
    args.push(word("unhook-iface"));
    args.push(cfg.name.clone());
    args.push(cfg.quic.interface.clone());
    assert(texts(args@) =~= unhook(cfg@).args);
    Command { program: cfg.tool("fd_xdp_ctl"), args }
}

/// Writes the invocation that binds the interface in the configured mode.
pub fn hook_command(cfg: &PipelineConfig) -> (c: Command)
    ensures
        c@ == hook(cfg@),
{
    let mut args: Vec<String> = Vec::new();
    args.push(word("hook-iface"));
    args.push(cfg.name.clone());
    args.push(cfg.quic.interface.clone());
    args.push(cfg.quic.xdp_mode.clone());
    assert(texts(args@) =~= hook(cfg@).args);
    Command { program: cfg.tool("fd_xdp_ctl"), args }
}

/// Writes the invocation that lists the interface's addresses.
pub fn inspection_command(cfg: &PipelineConfig) -> (c: Command)
    ensures
        c@ == inspection(cfg@),
{
    let mut args: Vec<String> = Vec::new();
    args.push(word("address"));
    args.push(word("show"));
    args.push(word("dev"));
    args.push(cfg.quic.interface.clone());
    assert(texts(args@) =~= inspection(cfg@).args);
    Command { program: word("ip"), args }
}

/// Writes the invocation that registers a protocol listener on `address`.
pub fn listener_command(cfg: &PipelineConfig, address: &str) -> (c: Command)
    ensures
        c@ == listener(cfg@, address@),
{
    let mut args: Vec<String> = Vec::new();
    args.push(word("listen-udp-port"));
    args.push(cfg.name.clone());
    args.push(word(address));
    args.push(render_decimal(cfg.quic.listen_port as u64));
    args.push(word("tpu-quic"));
    assert(texts(args@) =~= listener(cfg@, address@).args);
    Command { program: cfg.tool("fd_xdp_ctl"), args }
}

/// Writes the invocation that binds the socket pair `xsk` to receive queue `queue`.
pub fn binding_command(cfg: &PipelineConfig, xsk: &Handle, queue: u32) -> (c: Command)
    ensures
        c@ == binding(cfg@, xsk@, queue),
{
    let mut args: Vec<String> = Vec::new();
    args.push(word("bind-xsk"));
    args.push(xsk.render());
    args.push(cfg.name.clone());
    args.push(cfg.quic.interface.clone());
    args.push(number(queue));
    assert(texts(args@) =~= binding(cfg@, xsk@, queue).args);
    Command { program: cfg.tool("fd_xdp_ctl"), args }
}

/// Writes the invocation that inserts `entries` into `pod`, in order.
pub fn insertion_command(cfg: &PipelineConfig, pod: &Handle, entries: &Vec<PodEntry>) -> (c: Command)
    ensures
        c@ == insertion(cfg@, pod@, entry_views(entries@)),
{
    let args = render_insert(pod, cfg.name.as_str(), entries);
    Command { program: cfg.tool("fd_pod_ctl"), args }
}

} // verus!
