//! The declarative description of the pipeline that the topology is built from.

use vstd::prelude::*;
use vstd::string::*;

verus! {

/// Whether an optional allocator tool is installed.
#[derive(Clone, Copy, Debug, PartialEq, Eq, Structural)]
pub enum Availability {
    Available,
    Unavailable,
}

/// The optional allocator tools. Where one is missing the primitives it would
/// allocate are published as unused; its absence is never an error.
#[derive(Clone, Copy, Debug, PartialEq, Eq, Structural)]
pub struct OptionalTools {
    /// The pack tool, which allocates the scratch region and the estimator table.
    pub pack: Availability,
    /// The protocol-engine tool, which allocates the per-tile engine object.
    pub quic: Availability,
}

/// Sizing of the pack tile.
#[derive(Clone, Copy, Debug, PartialEq, Eq, Structural)]
pub struct PackConfig {
    pub max_pending_transactions: u32,
    pub solana_labs_bank_thread_count: u32,
    pub compute_unit_estimator_table_size: u32,
    pub compute_unit_estimator_ema_history: u32,
    pub compute_unit_estimator_ema_default: u32,
    pub solana_labs_bank_thread_compute_units_executed_per_second: u32,
}

/// Sizing of the dedup tile.
#[derive(Clone, Copy, Debug, PartialEq, Eq, Structural)]
pub struct DedupConfig {
    pub signature_cache_size: u32,
}

/// Sizing of every verify tile.
#[derive(Clone, Copy, Debug, PartialEq, Eq, Structural)]
pub struct VerifyConfig {
    pub receive_buffer_size: u32,
    pub mtu: u32,
}

/// Network parameters of the protocol-engine tiles.
#[derive(Clone, Debug, PartialEq, Eq)]
pub struct QuicConfig {
    pub interface: String,
    pub listen_port: u16,
    pub xdp_mode: String,
    pub xdp_rx_queue_size: u32,
    pub xdp_tx_queue_size: u32,
    pub xdp_aio_depth: u32,
}

/// The mathematical value of a [`QuicConfig`].
pub struct QuicConfigView {
    pub interface: Seq<char>,
    pub listen_port: u16,
    pub xdp_mode: Seq<char>,
    pub xdp_rx_queue_size: u32,
    pub xdp_tx_queue_size: u32,
    pub xdp_aio_depth: u32,
}

impl View for QuicConfig {
    type V = QuicConfigView;

    open spec fn view(&self) -> QuicConfigView {
        QuicConfigView {
            interface: self.interface@,
            listen_port: self.listen_port,
            xdp_mode: self.xdp_mode@,
            xdp_rx_queue_size: self.xdp_rx_queue_size,
            xdp_tx_queue_size: self.xdp_tx_queue_size,
            xdp_aio_depth: self.xdp_aio_depth,
        }
    }
}

/// The immutable input of one apply: the shape of the pipeline.
#[derive(Clone, Debug, PartialEq, Eq)]
pub struct PipelineConfig {
    /// Name of the pipeline instance; every pod key starts with it.
    pub name: String,
    /// Directory that holds the allocator tools.
    pub binary_dir: String,
    /// Directory that holds the protocol credentials.
    pub scratch_directory: String,
    /// Whether the interface lives in a network namespace of its own.
    pub netns_enabled: bool,
    /// Number of verify tiles, and of protocol-engine tiles paired with them.
    pub verify_tile_count: u32,
    pub pack: PackConfig,
    pub dedup: DedupConfig,
    pub verify: VerifyConfig,
    pub quic: QuicConfig,
}

/// The mathematical value of a [`PipelineConfig`].
pub struct PipelineConfigView {
    pub name: Seq<char>,
    pub binary_dir: Seq<char>,
    pub scratch_directory: Seq<char>,
    pub netns_enabled: bool,
    pub verify_tile_count: u32,
    pub pack: PackConfig,
    pub dedup: DedupConfig,
    pub verify: VerifyConfig,
    pub quic: QuicConfigView,
}

impl View for PipelineConfig {
    type V = PipelineConfigView;

    open spec fn view(&self) -> PipelineConfigView {
        PipelineConfigView {
            name: self.name@,
            binary_dir: self.binary_dir@,
            scratch_directory: self.scratch_directory@,
            netns_enabled: self.netns_enabled,
            verify_tile_count: self.verify_tile_count,
            pack: self.pack,
            dedup: self.dedup,
            verify: self.verify,
            quic: self.quic@,
        }
    }
}

/// Name of the workspace that an apply carves every primitive from.
pub open spec fn workspace_name(cfg: PipelineConfigView) -> Seq<char> {
    cfg.name + ".wksp"@
}

/// Path of a tool in the binary directory.
pub open spec fn tool_path(cfg: PipelineConfigView, tool: Seq<char>) -> Seq<char> {
    cfg.binary_dir + "/"@ + tool
}

/// Path of the network namespace that is named after the interface.
pub open spec fn namespace_path(cfg: PipelineConfigView) -> Seq<char> {
    "/var/run/netns/"@ + cfg.quic.interface
}

impl PipelineConfig {
    /// Name of the workspace of this pipeline.
    pub fn workspace(&self) -> (s: String)
        ensures
            s@ == workspace_name(self@),
    {
        let mut s = self.name.clone();
        s.append(".wksp");
        s
    }

    /// Path of the tool called `tool` in the binary directory.
    pub fn tool(&self, tool: &str) -> (s: String)
        ensures
            s@ == tool_path(self@, tool@),
    {
        let mut s = self.binary_dir.clone();
        s.append("/");
        s.append(tool);
        s
    }

    /// Path of the network namespace of the interface.
    pub fn namespace(&self) -> (s: String)
        ensures
            s@ == namespace_path(self@),
    {
        let mut s = String::from_str("/var/run/netns/");
        s.append(self.quic.interface.as_str());
        s
    }
}

} // verus!
