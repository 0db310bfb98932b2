//! The model of an apply: the operations it asks for, in their order, and what it
//! has learnt after each answer.
//!
//! An apply is a conversation. The builder names one operation, the caller performs
//! it and reports an [`Event`], and the builder names the next. [`transition`] is the
//! whole of that conversation as a function on [`Model`]s; [`Model::wf`] is what holds
//! of every state the conversation can reach, and the lemmas at the end of this file
//! say what that means for the pod that a finished apply has published.

use vstd::prelude::*;
use crate::command::{allocation, binding, hook, insertion, inspection, listener, primitive_for, unhook, Command, CommandView, Primitive, POD_SIZE};
use crate::config::{namespace_path, Availability, OptionalTools, PipelineConfigView};
use crate::handle::{Handle, HandleView};
use crate::inspect::{Inspection, InspectionView};
use crate::pod::{pod_size, DedupField, InboundField, PackField, PodEntryView, PodKey, PodValueView, ProtocolField, QuicField, VerifyField};
use crate::text::texts;

verus! {

/// Milliseconds to wait between removing the interface's binding and binding it
/// again. The two race in the kernel and there is no signal to wait for; the pause
/// makes the race unlikely, it does not exclude it.
pub const SETTLE_MILLIS: u64 = 1000;

/// Milliseconds after which the protocol engine drops an idle connection.
pub const IDLE_TIMEOUT_MILLIS: u64 = 1000;

/// A group of keys that is published with one insertion.
#[derive(Clone, Copy, Debug, PartialEq, Eq, Structural)]
pub enum Section {
    Main,
    Pack,
    Dedup,
    VerifyIn(u32),
    Verify(u32),
    Quic(u32),
    QuicCfg,
}

/// The operation that an apply is waiting for.
#[derive(Clone, Copy, Debug, PartialEq, Eq, Structural)]
pub enum Step {
    /// Nothing has been asked for yet.
    Start,
    /// Entering the network namespace of the interface.
    EnterNamespace,
    /// Creating the workspace's pod.
    CreatePod,
    /// Allocating the primitive that is published under the key.
    Allocate(PodKey),
    /// Inserting the section's entries into the pod.
    Publish(Section),
    /// Removing a stale binding of the interface.
    Unhook,
    /// Letting the removal settle.
    Settle,
    /// Binding the interface.
    Hook,
    /// Listing the interface's addresses.
    Inspect,
    /// Registering the listener on the address with this index.
    Listen(usize),
    /// Binding the socket pair of the protocol-engine tile with this index.
    Bind(u32),
    /// The apply has finished; its result has been handed out.
    Done,
    /// The apply was aborted.
    Failed,
}

/// What the caller reports back.
#[derive(Clone, Debug, PartialEq, Eq)]
pub enum Event {
    /// The caller asks for the first operation.
    Begin,
    /// The operation was carried out and has nothing to report.
    Completed,
    /// The allocator answered with this handle.
    Allocated(Handle),
    /// The inspector's listing, already read.
    Inspected(Inspection),
    /// The operation failed, with this diagnostic.
    Failed(String),
}

/// The mathematical value of an [`Event`].
pub enum EventView {
    Begin,
    Completed,
    Allocated(HandleView),
    Inspected(InspectionView),
    Failed(Seq<char>),
}

impl View for Event {
    type V = EventView;

    open spec fn view(&self) -> EventView {
        match self {
            Event::Begin => EventView::Begin,
            Event::Completed => EventView::Completed,
            Event::Allocated(h) => EventView::Allocated(h@),
            Event::Inspected(i) => EventView::Inspected(i@),
            Event::Failed(d) => EventView::Failed(d@),
        }
    }
}

/// The facts that outlive an apply.
#[derive(Clone, Debug, PartialEq, Eq)]
pub struct PersistedResult {
    /// Id of the pod.
    pub pod: u64,
    /// Id of the pipeline's liveness block.
    pub main_cnc: u64,
    /// Link-layer address of the interface.
    pub src_mac_address: String,
    /// IPv4 addresses of the interface, in the inspector's order.
    pub listen_addresses: Vec<String>,
}

/// The mathematical value of a [`PersistedResult`].
pub struct PersistedResultView {
    pub pod: u64,
    pub main_cnc: u64,
    pub src_mac_address: Seq<char>,
    pub listen_addresses: Seq<Seq<char>>,
}

impl View for PersistedResult {
    type V = PersistedResultView;

    open spec fn view(&self) -> PersistedResultView {
        PersistedResultView {
            pod: self.pod,
            main_cnc: self.main_cnc,
            src_mac_address: self.src_mac_address@,
            listen_addresses: texts(self.listen_addresses@),
        }
    }
}

/// What the caller is asked to do.
#[derive(Clone, Debug, PartialEq, Eq)]
pub enum Action {
    /// Enter the network namespace at this path. Answer: `Completed`.
    EnterNamespace { path: String },
    /// Run the allocator. Answer: `Allocated` with the handle it printed.
    Allocate { command: Command },
    /// Run the tool. Answer: `Completed`, or `Failed`, which aborts the apply unless
    /// the action is tolerant.
    Run { command: Command, tolerant: bool },
    /// Wait. Answer: `Completed`.
    Settle { millis: u64 },
    /// Run the inspector and read its listing. Answer: `Inspected`.
    Inspect { command: Command },
    /// Store the result in the long-lived configuration and flush it. No answer is
    /// expected: the apply is complete.
    Finish { result: PersistedResult },
}

/// The mathematical value of an [`Action`].
pub enum ActionView {
    EnterNamespace { path: Seq<char> },
    Allocate { command: CommandView },
    Run { command: CommandView, tolerant: bool },
    Settle { millis: u64 },
    Inspect { command: CommandView },
    Finish { result: PersistedResultView },
}

impl View for Action {
    type V = ActionView;

    open spec fn view(&self) -> ActionView {
        match self {
            Action::EnterNamespace { path } => ActionView::EnterNamespace { path: path@ },
            Action::Allocate { command } => ActionView::Allocate { command: command@ },
            Action::Run { command, tolerant } => ActionView::Run {
                command: command@,
                tolerant: *tolerant,
            },
            Action::Settle { millis } => ActionView::Settle { millis: *millis },
            Action::Inspect { command } => ActionView::Inspect { command: command@ },
            Action::Finish { result } => ActionView::Finish { result: result@ },
        }
    }
}

/// Why an apply was aborted, or a report refused.
#[derive(Clone, Debug, PartialEq, Eq)]
pub enum ApplyError {
    /// A tool exited with an error that is not tolerated.
    ToolFailed { tool: String, diagnostic: String },
    /// The interface has no IPv4 address, so there is nothing to listen on.
    NoAddresses,
    /// The listing shows no link-layer address for the protocol engine to send from.
    NoMacAddress,
    /// The report does not answer the operation that was asked for.
    UnexpectedEvent,
    /// The apply has already finished or failed.
    NotRunning,
}

/// The mathematical value of an [`ApplyError`].
pub enum ApplyErrorView {
    ToolFailed { tool: Seq<char>, diagnostic: Seq<char> },
    NoAddresses,
    NoMacAddress,
    UnexpectedEvent,
    NotRunning,
}

impl View for ApplyError {
    type V = ApplyErrorView;

    open spec fn view(&self) -> ApplyErrorView {
        match self {
            ApplyError::ToolFailed { tool, diagnostic } => ApplyErrorView::ToolFailed {
                tool: tool@,
                diagnostic: diagnostic@,
            },
            ApplyError::NoAddresses => ApplyErrorView::NoAddresses,
            ApplyError::NoMacAddress => ApplyErrorView::NoMacAddress,
            ApplyError::UnexpectedEvent => ApplyErrorView::UnexpectedEvent,
            ApplyError::NotRunning => ApplyErrorView::NotRunning,
        }
    }
}

impl Section {
    /// Whether a pipeline with `tiles` verify tiles has this section.
    pub open spec fn declared(self, tiles: nat) -> bool {
        match self {
            Section::VerifyIn(i) => i < tiles,
            Section::Verify(i) => i < tiles,
            Section::Quic(i) => i < tiles,
            _ => true,
        }
    }

    /// Slot of the section's first key.
    pub open spec fn start(self, tiles: nat) -> int {
        match self {
            Section::Main => 0,
            Section::Pack => 1,
            Section::Dedup => 11,
            Section::VerifyIn(i) => 15 + 7 * i,
            Section::Verify(i) => 18 + 7 * i,
            Section::Quic(i) => 15 + 7 * tiles + 7 * i,
            Section::QuicCfg => 15 + 14 * (tiles as int),
        }
    }

    /// Number of handles that are allocated for the section.
    pub open spec fn allocations(self, tools: OptionalTools) -> int {
        match self {
            Section::Main => 1,
            Section::Pack => if tools.pack == Availability::Available {
                6
            } else {
                4
            },
            Section::Dedup => 4,
            Section::VerifyIn(_) => 3,
            Section::Verify(_) => 4,
            Section::Quic(_) => if tools.quic == Availability::Available {
                4
            } else {
                3
            },
            Section::QuicCfg => 0,
        }
    }

    /// Whether the section belongs to the protocol engine.
    pub open spec fn is_engine(self) -> bool {
        self is Quic || self is QuicCfg
    }
}

/// The section that a key is published with.
pub open spec fn section_of(key: PodKey) -> Section {
    match key {
        PodKey::MainCnc => Section::Main,
        PodKey::Pack(_) => Section::Pack,
        PodKey::Dedup(_) => Section::Dedup,
        PodKey::VerifyIn(i, _) => Section::VerifyIn(i),
        PodKey::Verify(i, _) => Section::Verify(i),
        PodKey::Quic(i, _) => Section::Quic(i),
        PodKey::QuicCfg(_) => Section::QuicCfg,
    }
}

/// Number of handles that are allocated for the key's section before the key's own.
pub open spec fn allocation_index(key: PodKey, tools: OptionalTools) -> int {
    match key {
        PodKey::MainCnc => 0,
        PodKey::Pack(PackField::ReturnFseq) => if tools.pack == Availability::Available {
            5
        } else {
            3
        },
        PodKey::Pack(f) => f.ordinal(),
        PodKey::Dedup(f) => f.ordinal(),
        PodKey::VerifyIn(_, f) => f.ordinal(),
        PodKey::Verify(_, f) => f.ordinal(),
        PodKey::Quic(_, QuicField::Cnc) => 0,
        PodKey::Quic(_, QuicField::Quic) => 1,
        PodKey::Quic(_, QuicField::Xsk) => if tools.quic == Availability::Available {
            2
        } else {
            1
        },
        PodKey::Quic(_, _) => if tools.quic == Availability::Available {
            3
        } else {
            2
        },
        PodKey::QuicCfg(_) => 0,
    }
}

/// The step that begins a section.
pub open spec fn first_step(s: Section) -> Step {
    match s {
        Section::Main => Step::Allocate(PodKey::MainCnc),
        Section::Pack => Step::Allocate(PodKey::Pack(PackField::Cnc)),
        Section::Dedup => Step::Allocate(PodKey::Dedup(DedupField::Cnc)),
        Section::VerifyIn(i) => Step::Allocate(PodKey::VerifyIn(i, InboundField::Mcache)),
        Section::Verify(i) => Step::Allocate(PodKey::Verify(i, VerifyField::Cnc)),
        Section::Quic(i) => Step::Allocate(PodKey::Quic(i, QuicField::Cnc)),
        Section::QuicCfg => Step::Publish(Section::QuicCfg),
    }
}

/// The step that follows the allocation for `key`.
pub open spec fn after_allocation(key: PodKey, tools: OptionalTools) -> Step {
    match key {
        PodKey::MainCnc => Step::Publish(Section::Main),
        PodKey::Pack(f) => match f {
            PackField::Cnc => Step::Allocate(PodKey::Pack(PackField::OutMcache)),
            PackField::OutMcache => Step::Allocate(PodKey::Pack(PackField::OutDcache)),
            PackField::OutDcache => if tools.pack == Availability::Available {
                Step::Allocate(PodKey::Pack(PackField::Scratch))
            } else {
                Step::Allocate(PodKey::Pack(PackField::ReturnFseq))
            },
            PackField::Scratch => Step::Allocate(PodKey::Pack(PackField::CuEstTbl)),
            PackField::CuEstTbl => Step::Allocate(PodKey::Pack(PackField::ReturnFseq)),
            _ => Step::Publish(Section::Pack),
        },
        PodKey::Dedup(f) => match f {
            DedupField::Cnc => Step::Allocate(PodKey::Dedup(DedupField::Tcache)),
            DedupField::Tcache => Step::Allocate(PodKey::Dedup(DedupField::Mcache)),
            DedupField::Mcache => Step::Allocate(PodKey::Dedup(DedupField::Fseq)),
            DedupField::Fseq => Step::Publish(Section::Dedup),
        },
        PodKey::VerifyIn(i, f) => match f {
            InboundField::Mcache => Step::Allocate(PodKey::VerifyIn(i, InboundField::Dcache)),
            InboundField::Dcache => Step::Allocate(PodKey::VerifyIn(i, InboundField::Fseq)),
            InboundField::Fseq => Step::Publish(Section::VerifyIn(i)),
        },
        PodKey::Verify(i, f) => match f {
            VerifyField::Cnc => Step::Allocate(PodKey::Verify(i, VerifyField::Mcache)),
            VerifyField::Mcache => Step::Allocate(PodKey::Verify(i, VerifyField::Dcache)),
            VerifyField::Dcache => Step::Allocate(PodKey::Verify(i, VerifyField::Fseq)),
            VerifyField::Fseq => Step::Publish(Section::Verify(i)),
        },
        PodKey::Quic(i, f) => match f {
            QuicField::Cnc => if tools.quic == Availability::Available {
                Step::Allocate(PodKey::Quic(i, QuicField::Quic))
            } else {
                Step::Allocate(PodKey::Quic(i, QuicField::Xsk))
            },
            QuicField::Quic => Step::Allocate(PodKey::Quic(i, QuicField::Xsk)),
            QuicField::Xsk => Step::Bind(i),
            _ => Step::Publish(Section::Quic(i)),
        },
        PodKey::QuicCfg(_) => Step::Publish(Section::QuicCfg),
    }
}

/// The step that begins the protocol-engine stage.
pub open spec fn engine_start(tiles: nat) -> Step {
    if 0 < tiles {
        first_step(Section::Quic(0))
    } else {
        first_step(Section::QuicCfg)
    }
}

/// The step that follows the publication of a section.
pub open spec fn after_publication(s: Section, tiles: nat) -> Step {
    match s {
        Section::Main => first_step(Section::Pack),
        Section::Pack => first_step(Section::Dedup),
        Section::Dedup => if 0 < tiles {
            first_step(Section::VerifyIn(0))
        } else {
            Step::Unhook
        },
        Section::VerifyIn(i) => first_step(Section::Verify(i)),
        Section::Verify(i) => if i + 1 < tiles {
            first_step(Section::VerifyIn((i + 1) as u32))
        } else {
            Step::Unhook
        },
        Section::Quic(i) => if i + 1 < tiles {
            first_step(Section::Quic((i + 1) as u32))
        } else {
            first_step(Section::QuicCfg)
        },
        Section::QuicCfg => Step::Done,
    }
}

/// The state of an apply.
pub struct Model {
    pub config: PipelineConfigView,
    pub tools: OptionalTools,
    /// The operation that the apply is waiting for.
    pub step: Step,
    /// The pod, once it exists.
    pub pod: Option<HandleView>,
    /// The handles allocated for the section under way, in the order of allocation.
    pub staged: Seq<HandleView>,
    /// What has been inserted into the pod, in the order of insertion.
    pub entries: Seq<PodEntryView>,
    /// The interface's IPv4 addresses, once the interface has been inspected.
    pub addresses: Seq<Seq<char>>,
    /// The interface's link-layer address, if the inspection showed one.
    pub mac: Option<Seq<char>>,
}

/// The value of a key that holds no handle of its own: a number or a path of the
/// configuration, the sentinel for a primitive that was not allocated, what the
/// inspection found, or, for a protocol-engine tile's ring, payload store and
/// counter, what is published for the inbound group of the verify tile of the same
/// index.
pub open spec fn fixed_value(
    config: PipelineConfigView,
    entries: Seq<PodEntryView>,
    addresses: Seq<Seq<char>>,
    mac: Option<Seq<char>>,
    key: PodKey,
) -> PodValueView {
    let n = config.verify_tile_count as nat;
    match key {
        PodKey::Pack(PackField::BankCnt) => PodValueView::Ulong(
            config.pack.solana_labs_bank_thread_count as u64,
        ),
        PodKey::Pack(PackField::TxnqSz) => PodValueView::Ulong(
            config.pack.max_pending_transactions as u64,
        ),
        PodKey::Pack(PackField::CuEstTblSz) => PodValueView::Ulong(
            config.pack.compute_unit_estimator_table_size as u64,
        ),
        PodKey::Pack(PackField::CuLimit) => PodValueView::Uint(
            config.pack.solana_labs_bank_thread_compute_units_executed_per_second,
        ),
        PodKey::Quic(i, QuicField::Mcache) => entries[PodKey::VerifyIn(i, InboundField::Mcache).slot(
            n,
        )].value,
        PodKey::Quic(i, QuicField::Dcache) => entries[PodKey::VerifyIn(i, InboundField::Dcache).slot(
            n,
        )].value,
        PodKey::Quic(i, QuicField::Fseq) => entries[PodKey::VerifyIn(i, InboundField::Fseq).slot(
            n,
        )].value,
        PodKey::QuicCfg(ProtocolField::CertFile) => PodValueView::Text(
            config.scratch_directory + "/cert.pem"@,
        ),
        PodKey::QuicCfg(ProtocolField::KeyFile) => PodValueView::Text(
            config.scratch_directory + "/key.pem"@,
        ),
        PodKey::QuicCfg(ProtocolField::IpAddr) => PodValueView::Text(addresses[0]),
        PodKey::QuicCfg(ProtocolField::ListenPort) => PodValueView::Ushort(config.quic.listen_port),
        PodKey::QuicCfg(ProtocolField::SrcMacAddr) => match mac {
            Some(mac) => PodValueView::Text(mac),
            None => PodValueView::Unused,
        },
        PodKey::QuicCfg(ProtocolField::IdleTimeoutMs) => PodValueView::Ulong(IDLE_TIMEOUT_MILLIS),
        _ => PodValueView::Unused,
    }
}

/// Whether an entry holds what its key calls for: a handle where one is allocated
/// for the key, the fixed value elsewhere.
pub open spec fn settled(
    config: PipelineConfigView,
    tools: OptionalTools,
    entries: Seq<PodEntryView>,
    addresses: Seq<Seq<char>>,
    mac: Option<Seq<char>>,
    e: PodEntryView,
) -> bool {
    match primitive_for(config, tools, e.key) {
        Some(_) => e.value is Handle,
        None => e.value == fixed_value(config, entries, addresses, mac, e.key),
    }
}

/// Whether every entry sits at the slot of its key.
pub open spec fn laid_out(entries: Seq<PodEntryView>, tiles: nat) -> bool {
    forall|idx: int|
        0 <= idx < entries.len() ==> (#[trigger] entries[idx]).key.declared(tiles)
            && entries[idx].key.slot(tiles) == idx
}

/// Whether every entry holds what its key calls for.
pub open spec fn all_settled(
    config: PipelineConfigView,
    tools: OptionalTools,
    entries: Seq<PodEntryView>,
    addresses: Seq<Seq<char>>,
    mac: Option<Seq<char>>,
) -> bool {
    forall|idx: int|
        0 <= idx < entries.len() ==> settled(
            config,
            tools,
            entries,
            addresses,
            mac,
            #[trigger] entries[idx],
        )
}

/// The value that is published under `key` when its section is inserted: the handle
/// allocated for it, or its fixed value.
pub open spec fn value_for(m: Model, key: PodKey) -> PodValueView {
    match primitive_for(m.config, m.tools, key) {
        Some(_) => PodValueView::Handle(m.staged[allocation_index(key, m.tools)]),
        None => fixed_value(m.config, m.entries, m.addresses, m.mac, key),
    }
}

/// The entry that is published under `key`.
pub open spec fn entry_for(m: Model, key: PodKey) -> PodEntryView {
    PodEntryView { key, value: value_for(m, key) }
}

/// The entries of a section, in the order of insertion.
pub open spec fn section_entries(m: Model, s: Section) -> Seq<PodEntryView> {
    match s {
        Section::Main => seq![entry_for(m, PodKey::MainCnc)],
        Section::Pack => seq![
            entry_for(m, PodKey::Pack(PackField::Cnc)),
            entry_for(m, PodKey::Pack(PackField::OutMcache)),
            entry_for(m, PodKey::Pack(PackField::OutDcache)),
            entry_for(m, PodKey::Pack(PackField::Scratch)),
            entry_for(m, PodKey::Pack(PackField::CuEstTbl)),
            entry_for(m, PodKey::Pack(PackField::ReturnFseq)),
            entry_for(m, PodKey::Pack(PackField::BankCnt)),
            entry_for(m, PodKey::Pack(PackField::TxnqSz)),
            entry_for(m, PodKey::Pack(PackField::CuEstTblSz)),
            entry_for(m, PodKey::Pack(PackField::CuLimit)),
        ],
        Section::Dedup => seq![
            entry_for(m, PodKey::Dedup(DedupField::Cnc)),
            entry_for(m, PodKey::Dedup(DedupField::Tcache)),
            entry_for(m, PodKey::Dedup(DedupField::Mcache)),
            entry_for(m, PodKey::Dedup(DedupField::Fseq)),
        ],
        Section::VerifyIn(i) => seq![
            entry_for(m, PodKey::VerifyIn(i, InboundField::Mcache)),
            entry_for(m, PodKey::VerifyIn(i, InboundField::Dcache)),
            entry_for(m, PodKey::VerifyIn(i, InboundField::Fseq)),
        ],
        Section::Verify(i) => seq![
            entry_for(m, PodKey::Verify(i, VerifyField::Cnc)),
            entry_for(m, PodKey::Verify(i, VerifyField::Mcache)),
            entry_for(m, PodKey::Verify(i, VerifyField::Dcache)),
            entry_for(m, PodKey::Verify(i, VerifyField::Fseq)),
        ],
        Section::Quic(i) => seq![
            entry_for(m, PodKey::Quic(i, QuicField::Cnc)),
            entry_for(m, PodKey::Quic(i, QuicField::Mcache)),
            entry_for(m, PodKey::Quic(i, QuicField::Dcache)),
            entry_for(m, PodKey::Quic(i, QuicField::Fseq)),
            entry_for(m, PodKey::Quic(i, QuicField::Quic)),
            entry_for(m, PodKey::Quic(i, QuicField::Xsk)),
            entry_for(m, PodKey::Quic(i, QuicField::XskAio)),
        ],
        Section::QuicCfg => seq![
            entry_for(m, PodKey::QuicCfg(ProtocolField::CertFile)),
            entry_for(m, PodKey::QuicCfg(ProtocolField::KeyFile)),
            entry_for(m, PodKey::QuicCfg(ProtocolField::IpAddr)),
            entry_for(m, PodKey::QuicCfg(ProtocolField::ListenPort)),
            entry_for(m, PodKey::QuicCfg(ProtocolField::SrcMacAddr)),
            entry_for(m, PodKey::QuicCfg(ProtocolField::IdleTimeoutMs)),
        ],
    }
}

/// The id of the handle that a value refers to; zero for any other value.
pub open spec fn handle_id(v: PodValueView) -> u64 {
    match v {
        PodValueView::Handle(h) => h.id,
        _ => 0,
    }
}

/// The facts that a finished apply hands out.
pub open spec fn result_of(m: Model) -> PersistedResultView {
    PersistedResultView {
        pod: match m.pod {
            Some(h) => h.id,
            None => 0,
        },
        main_cnc: handle_id(m.entries[0].value),
        src_mac_address: match m.mac {
            Some(mac) => mac,
            None => Seq::empty(),
        },
        listen_addresses: m.addresses,
    }
}

/// What the caller is asked to do in state `m`. `None` before the apply has begun and
/// after it was aborted.
pub open spec fn action_of(m: Model) -> Option<ActionView> {
    match m.step {
        Step::Start => None,
        Step::Failed => None,
        Step::EnterNamespace => Some(ActionView::EnterNamespace { path: namespace_path(m.config) }),
        Step::CreatePod => Some(
            ActionView::Allocate { command: allocation(m.config, Primitive::Pod { size: POD_SIZE }) },
        ),
        Step::Allocate(key) => match primitive_for(m.config, m.tools, key) {
            Some(p) => Some(ActionView::Allocate { command: allocation(m.config, p) }),
            None => None,
        },
        Step::Publish(s) => match m.pod {
            Some(pod) => Some(
                ActionView::Run {
                    command: insertion(m.config, pod, section_entries(m, s)),
                    tolerant: false,
                },
            ),
            None => None,
        },
        Step::Unhook => Some(ActionView::Run { command: unhook(m.config), tolerant: true }),
        Step::Settle => Some(ActionView::Settle { millis: SETTLE_MILLIS }),
        Step::Hook => Some(ActionView::Run { command: hook(m.config), tolerant: false }),
        Step::Inspect => Some(ActionView::Inspect { command: inspection(m.config) }),
        Step::Listen(j) => Some(
            ActionView::Run {
                command: listener(m.config, m.addresses[j as int]),
                tolerant: false,
            },
        ),
        Step::Bind(i) => Some(
            ActionView::Run { command: binding(m.config, m.staged.last(), i), tolerant: false },
        ),
        Step::Done => Some(ActionView::Finish { result: result_of(m) }),
    }
}

/// The tool, or for the namespace its path, that the operation under way runs.
pub open spec fn tool_of(m: Model) -> Seq<char> {
    match action_of(m) {
        Some(ActionView::EnterNamespace { path }) => path,
        Some(ActionView::Allocate { command }) => command.program,
        Some(ActionView::Run { command, .. }) => command.program,
        Some(ActionView::Inspect { command }) => command.program,
        _ => Seq::empty(),
    }
}

impl Model {
    /// Number of verify tiles, and of protocol-engine tiles.
    pub open spec fn tiles(self) -> nat {
        self.config.verify_tile_count as nat
    }

    /// The state in which an apply begins: nothing asked for, nothing known.
    pub open spec fn initial(config: PipelineConfigView, tools: OptionalTools) -> Model {
        Model {
            config,
            tools,
            step: Step::Start,
            pod: None,
            staged: Seq::empty(),
            entries: Seq::empty(),
            addresses: Seq::empty(),
            mac: None,
        }
    }

    /// The state with the apply moved on to `step`.
    pub open spec fn at(self, step: Step) -> Model {
        Model { step, ..self }
    }

    /// The state after a refused report: a running apply is aborted, a finished one
    /// stays finished.
    pub open spec fn aborted(self) -> Model {
        if self.step == Step::Done {
            self
        } else {
            self.at(Step::Failed)
        }
    }

    /// Whether both the addresses and the link-layer address are known.
    pub open spec fn network_known(self) -> bool {
        self.addresses.len() >= 1 && self.mac is Some
    }

    /// Every published entry sits at the slot of its key.
    pub open spec fn layout_ok(self) -> bool {
        laid_out(self.entries, self.tiles())
    }

    /// Every published entry holds what its key calls for.
    pub open spec fn values_ok(self) -> bool {
        all_settled(self.config, self.tools, self.entries, self.addresses, self.mac)
    }

    /// What has been published and allocated is what the step under way comes after.
    pub open spec fn progress_ok(self) -> bool {
        let n = self.tiles();
        match self.step {
            Step::Start => self.entries.len() == 0 && self.staged.len() == 0,
            Step::EnterNamespace => self.entries.len() == 0 && self.staged.len() == 0,
            Step::CreatePod => self.entries.len() == 0 && self.staged.len() == 0,
            Step::Allocate(key) => {
                &&& key.declared(n)
                &&& primitive_for(self.config, self.tools, key) is Some
                &&& self.pod is Some
                &&& self.entries.len() == section_of(key).start(n)
                &&& self.staged.len() == allocation_index(key, self.tools)
                &&& (section_of(key).is_engine() ==> self.network_known())
            },
            Step::Publish(s) => {
                &&& s.declared(n)
                &&& self.pod is Some
                &&& self.entries.len() == s.start(n)
                &&& self.staged.len() == s.allocations(self.tools)
                &&& (s.is_engine() ==> self.network_known())
            },
            Step::Unhook | Step::Settle | Step::Hook | Step::Inspect => {
                &&& self.pod is Some
                &&& self.entries.len() == 15 + 7 * n
                &&& self.staged.len() == 0
            },
            Step::Listen(j) => {
                &&& self.pod is Some
                &&& self.entries.len() == 15 + 7 * n
                &&& self.staged.len() == 0
                &&& j < self.addresses.len()
            },
            Step::Bind(i) => {
                &&& i < n
                &&& self.pod is Some
                &&& self.entries.len() == Section::Quic(i).start(n)
                &&& self.staged.len() == allocation_index(PodKey::Quic(i, QuicField::XskAio), self.tools)
                &&& self.network_known()
            },
            Step::Done => {
                &&& self.pod is Some
                &&& self.entries.len() == pod_size(n)
                &&& self.staged.len() == 0
                &&& self.network_known()
            },
            Step::Failed => true,
        }
    }

    /// What holds of every state that an apply can reach.
    pub open spec fn wf(self) -> bool {
        &&& self.layout_ok()
        &&& self.values_ok()
        &&& self.progress_ok()
    }
}

/// The error for a report of failure.
pub open spec fn tool_failure(m: Model, diagnostic: Seq<char>) -> ApplyErrorView {
    ApplyErrorView::ToolFailed { tool: tool_of(m), diagnostic }
}

/// One turn of the conversation: the state after the caller has reported `e` in
/// state `m`, or the reason for which the report aborts the apply.
pub open spec fn transition(m: Model, e: EventView) -> Result<Model, ApplyErrorView> {
    match m.step {
        Step::Done => Err(ApplyErrorView::NotRunning),
        Step::Failed => Err(ApplyErrorView::NotRunning),
        Step::Start => match e {
            EventView::Begin => Ok(
                m.at(
                    if m.config.netns_enabled {
                        Step::EnterNamespace
                    } else {
                        Step::CreatePod
                    },
                ),
            ),
            _ => Err(ApplyErrorView::UnexpectedEvent),
        },
        Step::EnterNamespace => match e {
            EventView::Completed => Ok(m.at(Step::CreatePod)),
            EventView::Failed(d) => Err(tool_failure(m, d)),
            _ => Err(ApplyErrorView::UnexpectedEvent),
        },
        Step::CreatePod => match e {
            EventView::Allocated(h) => Ok(Model { pod: Some(h), ..m.at(first_step(Section::Main)) }),
            EventView::Failed(d) => Err(tool_failure(m, d)),
            _ => Err(ApplyErrorView::UnexpectedEvent),
        },
        Step::Allocate(key) => match e {
            EventView::Allocated(h) => Ok(
                Model { staged: m.staged.push(h), ..m.at(after_allocation(key, m.tools)) },
            ),
            EventView::Failed(d) => Err(tool_failure(m, d)),
            _ => Err(ApplyErrorView::UnexpectedEvent),
        },
        Step::Publish(s) => match e {
            EventView::Completed => Ok(
                Model {
                    entries: m.entries + section_entries(m, s),
                    staged: Seq::empty(),
                    ..m.at(after_publication(s, m.tiles()))
                },
            ),
            EventView::Failed(d) => Err(tool_failure(m, d)),
            _ => Err(ApplyErrorView::UnexpectedEvent),
        },
        Step::Unhook => match e {
            EventView::Completed => Ok(m.at(Step::Settle)),
            EventView::Failed(_) => Ok(m.at(Step::Settle)),
            _ => Err(ApplyErrorView::UnexpectedEvent),
        },
        Step::Settle => match e {
            EventView::Completed => Ok(m.at(Step::Hook)),
            _ => Err(ApplyErrorView::UnexpectedEvent),
        },
        Step::Hook => match e {
            EventView::Completed => Ok(m.at(Step::Inspect)),
            EventView::Failed(d) => Err(tool_failure(m, d)),
            _ => Err(ApplyErrorView::UnexpectedEvent),
        },
        Step::Inspect => match e {
            EventView::Inspected(found) => if found.addresses.len() == 0 {
                Err(ApplyErrorView::NoAddresses)
            } else {
                Ok(Model { addresses: found.addresses, mac: found.mac, ..m.at(Step::Listen(0)) })
            },
            EventView::Failed(d) => Err(tool_failure(m, d)),
            _ => Err(ApplyErrorView::UnexpectedEvent),
        },
        Step::Listen(j) => match e {
            EventView::Completed => if j + 1 < m.addresses.len() {
                Ok(m.at(Step::Listen((j + 1) as usize)))
            } else if m.mac is None {
                Err(ApplyErrorView::NoMacAddress)
            } else {
                Ok(m.at(engine_start(m.tiles())))
            },
            EventView::Failed(d) => Err(tool_failure(m, d)),
            _ => Err(ApplyErrorView::UnexpectedEvent),
        },
        Step::Bind(i) => match e {
            EventView::Completed => Ok(m.at(Step::Allocate(PodKey::Quic(i, QuicField::XskAio)))),
            EventView::Failed(d) => Err(tool_failure(m, d)),
            _ => Err(ApplyErrorView::UnexpectedEvent),
        },
    }
}

/// Number of keys in a section.
pub open spec fn section_size(s: Section) -> int {
    match s {
        Section::Main => 1,
        Section::Pack => 10,
        Section::Dedup => 4,
        Section::VerifyIn(_) => 3,
        Section::Verify(_) => 4,
        Section::Quic(_) => 7,
        Section::QuicCfg => 6,
    }
}

/// An apply begins in a well-formed state.
pub proof fn lemma_initial_wf(config: PipelineConfigView, tools: OptionalTools)
    ensures
        Model::initial(config, tools).wf(),
{
}

/// The entries of a section take the section's slots, in order.
pub proof fn lemma_section_layout(m: Model, s: Section)
    requires
        s.declared(m.tiles()),
    ensures
        section_entries(m, s).len() == section_size(s),
        forall|j: int|
            0 <= j < section_size(s) ==> (#[trigger] section_entries(m, s)[j]).key.declared(
                m.tiles(),
            ) && section_entries(m, s)[j].key.slot(m.tiles()) == s.start(m.tiles()) + j,
{
}

/// Each entry of a section holds what its key calls for.
pub proof fn lemma_section_settled(m: Model, s: Section)
    ensures
        forall|j: int|
            0 <= j < section_size(s) ==> settled(
                m.config,
                m.tools,
                m.entries,
                m.addresses,
                m.mac,
                #[trigger] section_entries(m, s)[j],
            ),
{
}

/// What is published for a key read from earlier entries only, so it stays what it is
/// when entries are added.
proof fn lemma_settled_extends(m: Model, more: Seq<PodEntryView>, e: PodEntryView)
    requires
        settled(m.config, m.tools, m.entries, m.addresses, m.mac, e),
        e.key.declared(m.tiles()),
        15 + 7 * m.tiles() <= m.entries.len() || !(e.key is Quic),
    ensures
        settled(m.config, m.tools, m.entries + more, m.addresses, m.mac, e),
{
}

/// What is published before the protocol-engine stage does not depend on what the
/// inspection finds.
proof fn lemma_settled_without_network(
    m: Model,
    addresses: Seq<Seq<char>>,
    mac: Option<Seq<char>>,
    e: PodEntryView,
)
    requires
        settled(m.config, m.tools, m.entries, m.addresses, m.mac, e),
        !(e.key is QuicCfg),
    ensures
        settled(m.config, m.tools, m.entries, addresses, mac, e),
{
}

proof fn lemma_publish_wf(m: Model, s: Section)
    requires
        m.wf(),
        m.step == Step::Publish(s),
    ensures
        transition(m, EventView::Completed) matches Ok(next) && next.wf(),
{
    let n = m.tiles();
    let next = transition(m, EventView::Completed)->Ok_0;
    let added = section_entries(m, s);
    lemma_section_layout(m, s);
    lemma_section_settled(m, s);
    assert forall|idx: int| 0 <= idx < next.entries.len() implies (#[trigger] next.entries[idx]).key.declared(
        n,
    ) && next.entries[idx].key.slot(n) == idx && settled(
        next.config,
        next.tools,
        next.entries,
        next.addresses,
        next.mac,
        next.entries[idx],
    ) by {
        let e = next.entries[idx];
        if idx < m.entries.len() {
            assert(e == m.entries[idx]);
            assert(settled(m.config, m.tools, m.entries, m.addresses, m.mac, e));
        } else {
            assert(e == added[idx - m.entries.len()]);
            assert(settled(m.config, m.tools, m.entries, m.addresses, m.mac, e));
        }
        lemma_settled_extends(m, added, e);
    }
}

/// Every turn of the conversation leads from a well-formed state to a well-formed
/// state, and so does a refused report.
pub proof fn lemma_transition_wf(m: Model, e: EventView)
    requires
        m.wf(),
    ensures
        transition(m, e) matches Ok(next) ==> next.wf(),
        m.aborted().wf(),
{
    match m.step {
        Step::Publish(s) => {
            if e is Completed {
                lemma_publish_wf(m, s);
            }
        },
        Step::Inspect => {
            if let EventView::Inspected(found) = e {
                assert forall|idx: int| 0 <= idx < m.entries.len() implies settled(
                    m.config,
                    m.tools,
                    m.entries,
                    found.addresses,
                    found.mac,
                    #[trigger] m.entries[idx],
                ) by {
                    lemma_settled_without_network(m, found.addresses, found.mac, m.entries[idx]);
                }
            }
        },
        _ => {},
    }
}

} // verus!
