//! The topology builder: the state of one apply, and the function that takes it from
//! one operation to the next.
//!
//! The builder performs nothing itself. The caller begins with [`Event::Begin`],
//! carries out each [`Action`] that [`Builder::step`] returns and reports what came
//! of it, until the action is [`Action::Finish`] or the step fails.

use vstd::prelude::*;
use vstd::string::*;
use crate::command::{allocation_command, binding_command, hook_command, insertion_command, inspection_command, listener_command, plan_primitive, primitive_for, unhook_command, Primitive, POD_SIZE};
use crate::config::{Availability, OptionalTools, PipelineConfig};
use crate::handle::{handle_option_view, handle_views, Handle};
use crate::inspect::{text_option_view, Inspection};
use crate::pod::{entry_views, lemma_slot_injective, DedupField, InboundField, PackField, PodEntry, PodKey, PodValue, ProtocolField, QuicField, VerifyField};
use crate::text::{copy_texts, texts};
use crate::topology::{tool_failure, ApplyErrorView, EventView, action_of, after_allocation, after_publication, allocation_index, engine_start, entry_for, first_step, fixed_value, lemma_initial_wf, lemma_transition_wf, result_of, section_entries, section_of, tool_of, transition, Action, ApplyError, Event, Model, PersistedResult, Section, Step, IDLE_TIMEOUT_MILLIS, SETTLE_MILLIS};

verus! {

/// The step that begins a section.
pub fn first_step_of(s: Section) -> (step: Step)
    ensures
        step == first_step(s),
{
    match s {
        Section::Main => Step::Allocate(PodKey::MainCnc),
        Section::Pack => Step::Allocate(PodKey::Pack(PackField::Cnc)),
        Section::Dedup => Step::Allocate(PodKey::Dedup(DedupField::Cnc)),
        Section::VerifyIn(i) => Step::Allocate(PodKey::VerifyIn(i, InboundField::Mcache)),
        Section::Verify(i) => Step::Allocate(PodKey::Verify(i, VerifyField::Cnc)),
        Section::Quic(i) => Step::Allocate(PodKey::Quic(i, QuicField::Cnc)),
        Section::QuicCfg => Step::Publish(Section::QuicCfg),
    }
}

/// The step that follows the allocation for `key`.
pub fn step_after_allocation(key: PodKey, tools: OptionalTools) -> (step: Step)
    ensures
        step == after_allocation(key, tools),
{
    match key {
        PodKey::MainCnc => Step::Publish(Section::Main),
        PodKey::Pack(f) => match f {
            PackField::Cnc => Step::Allocate(PodKey::Pack(PackField::OutMcache)),
            PackField::OutMcache => Step::Allocate(PodKey::Pack(PackField::OutDcache)),
            PackField::OutDcache => match tools.pack {
                Availability::Available => Step::Allocate(PodKey::Pack(PackField::Scratch)),
                Availability::Unavailable => Step::Allocate(PodKey::Pack(PackField::ReturnFseq)),
            },
            PackField::Scratch => Step::Allocate(PodKey::Pack(PackField::CuEstTbl)),
            PackField::CuEstTbl => Step::Allocate(PodKey::Pack(PackField::ReturnFseq)),
            _ => Step::Publish(Section::Pack),
        },
        PodKey::Dedup(f) => match f {
            DedupField::Cnc => Step::Allocate(PodKey::Dedup(DedupField::Tcache)),
            DedupField::Tcache => Step::Allocate(PodKey::Dedup(DedupField::Mcache)),
            DedupField::Mcache => Step::Allocate(PodKey::Dedup(DedupField::Fseq)),
            DedupField::Fseq => Step::Publish(Section::Dedup),
        },
        PodKey::VerifyIn(i, f) => match f {
            InboundField::Mcache => Step::Allocate(PodKey::VerifyIn(i, InboundField::Dcache)),
            InboundField::Dcache => Step::Allocate(PodKey::VerifyIn(i, InboundField::Fseq)),
            InboundField::Fseq => Step::Publish(Section::VerifyIn(i)),
        },
        PodKey::Verify(i, f) => match f {
            VerifyField::Cnc => Step::Allocate(PodKey::Verify(i, VerifyField::Mcache)),
            VerifyField::Mcache => Step::Allocate(PodKey::Verify(i, VerifyField::Dcache)),
            VerifyField::Dcache => Step::Allocate(PodKey::Verify(i, VerifyField::Fseq)),
            VerifyField::Fseq => Step::Publish(Section::Verify(i)),
        },
        PodKey::Quic(i, f) => match f {
            QuicField::Cnc => match tools.quic {
                Availability::Available => Step::Allocate(PodKey::Quic(i, QuicField::Quic)),
                Availability::Unavailable => Step::Allocate(PodKey::Quic(i, QuicField::Xsk)),
            },
            QuicField::Quic => Step::Allocate(PodKey::Quic(i, QuicField::Xsk)),
            QuicField::Xsk => Step::Bind(i),
            _ => Step::Publish(Section::Quic(i)),
        },
        PodKey::QuicCfg(_) => Step::Publish(Section::QuicCfg),
    }
}

/// The step that begins the protocol-engine stage of a pipeline with `tiles` tiles.
pub fn engine_start_step(tiles: u32) -> (step: Step)
    ensures
        step == engine_start(tiles as nat),
{
    if 0 < tiles {
        first_step_of(Section::Quic(0))
    } else {
        first_step_of(Section::QuicCfg)
    }
}

/// The step that follows the publication of a section.
pub fn step_after_publication(s: Section, tiles: u32) -> (step: Step)
    ensures
        step == after_publication(s, tiles as nat),
{
    match s {
        Section::Main => first_step_of(Section::Pack),
        Section::Pack => first_step_of(Section::Dedup),
        Section::Dedup => if 0 < tiles {
            first_step_of(Section::VerifyIn(0))
        } else {
            Step::Unhook
        },
        Section::VerifyIn(i) => first_step_of(Section::Verify(i)),
        Section::Verify(i) => if tiles > 0 && i < tiles - 1 {
            first_step_of(Section::VerifyIn(i + 1))
        } else {
            Step::Unhook
        },
        Section::Quic(i) => if tiles > 0 && i < tiles - 1 {
            first_step_of(Section::Quic(i + 1))
        } else {
            first_step_of(Section::QuicCfg)
        },
        Section::QuicCfg => Step::Done,
    }
}

/// Number of handles allocated for the key's section before the key's own.
fn staged_index(key: PodKey, tools: OptionalTools) -> (k: usize)
    ensures
        k as int == allocation_index(key, tools),
{
    match key {
        PodKey::MainCnc => 0,
        PodKey::Pack(f) => match f {
            PackField::Cnc => 0,
            PackField::OutMcache => 1,
            PackField::OutDcache => 2,
            PackField::Scratch => 3,
            PackField::CuEstTbl => 4,
            PackField::ReturnFseq => match tools.pack {
                Availability::Available => 5,
                Availability::Unavailable => 3,
            },
            PackField::BankCnt => 6,
            PackField::TxnqSz => 7,
            PackField::CuEstTblSz => 8,
            PackField::CuLimit => 9,
        },
        PodKey::Dedup(f) => match f {
            DedupField::Cnc => 0,
            DedupField::Tcache => 1,
            DedupField::Mcache => 2,
            DedupField::Fseq => 3,
        },
        PodKey::VerifyIn(_, f) => match f {
            InboundField::Mcache => 0,
            InboundField::Dcache => 1,
            InboundField::Fseq => 2,
        },
        PodKey::Verify(_, f) => match f {
            VerifyField::Cnc => 0,
            VerifyField::Mcache => 1,
            VerifyField::Dcache => 2,
            VerifyField::Fseq => 3,
        },
        PodKey::Quic(_, f) => match f {
            QuicField::Cnc => 0,
            QuicField::Quic => 1,
            QuicField::Xsk => match tools.quic {
                Availability::Available => 2,
                Availability::Unavailable => 1,
            },
            _ => match tools.quic {
                Availability::Available => 3,
                Availability::Unavailable => 2,
            },
        },
        PodKey::QuicCfg(_) => 0,
    }
}

/// The state of one apply.
#[derive(Debug)]
pub struct Builder {
    config: PipelineConfig,
    tools: OptionalTools,
    step: Step,
    pod: Option<Handle>,
    staged: Vec<Handle>,
    entries: Vec<PodEntry>,
    addresses: Vec<String>,
    mac: Option<String>,
}

impl View for Builder {
    type V = Model;

    closed spec fn view(&self) -> Model {
        Model {
            config: self.config@,
            tools: self.tools,
            step: self.step,
            pod: handle_option_view(self.pod),
            staged: handle_views(self.staged@),
            entries: entry_views(self.entries@),
            addresses: texts(self.addresses@),
            mac: text_option_view(self.mac),
        }
    }
}

impl Builder {
    /// Begins an apply. Nothing of an earlier apply is carried over: the first
    /// operations create the pod anew.
    pub fn new(config: PipelineConfig, tools: OptionalTools) -> (b: Builder)
        ensures
            b@ == Model::initial(config@, tools),
            b@.wf(),
    {
        let b = Builder {
            config,
            tools,
            step: Step::Start,
            pod: None,
            staged: Vec::new(),
            entries: Vec::new(),
            addresses: Vec::new(),
            mac: None,
        };
        proof {
            assert(b@.staged =~= Seq::empty());
            assert(b@.entries =~= Seq::empty());
            assert(b@.addresses =~= Seq::empty());
            lemma_initial_wf(config@, tools);
        }
        b
    }

    /// The operation that the apply is waiting for.
    pub fn position(&self) -> (step: Step)
        ensures
            step == self@.step,
    {
        self.step
    }

    /// The configuration that the apply works from.
    pub fn config(&self) -> (config: &PipelineConfig)
        ensures
            config@ == self@.config,
    {
        &self.config
    }

    /// What has been inserted into the pod so far, in the order of insertion.
    pub fn entries(&self) -> (entries: &Vec<PodEntry>)
        ensures
            entry_views(entries@) == self@.entries,
    {
        &self.entries
    }

    /// The value published under `key`, if the key has been published.
    pub fn lookup(&self, key: PodKey) -> (found: Option<&PodValue>)
        requires
            self@.wf(),
        ensures
            found is Some <==> key.declared(self@.tiles()) && key.slot(self@.tiles())
                < self@.entries.len(),
            found matches Some(v) ==> v@ == self@.entries[key.slot(self@.tiles())].value,
    {
        let mut i: usize = 0;
        while i < self.entries.len()
            invariant
                i <= self.entries.len(),
                self@.wf(),
                forall|j: int| 0 <= j < i ==> self@.entries[j].key != key,
            decreases self.entries.len() - i,
        {
            assert(self@.entries[i as int] == self.entries@[i as int]@);
            if self.entries[i].key == key {
                return Some(&self.entries[i].value);
            }
            i += 1;
        }
        proof {
            let n = self@.tiles();
            if key.declared(n) && key.slot(n) < self@.entries.len() {
                lemma_slot_injective(self@.entries[key.slot(n)].key, key, n);
            }
        }
        None
    }

    fn fixed(&self, key: PodKey) -> (v: PodValue)
        requires
            self@.wf(),
            self@.step == Step::Publish(section_of(key)),
            primitive_for(self@.config, self@.tools, key) is None,
        ensures
            v@ == fixed_value(self@.config, self@.entries, self@.addresses, self@.mac, key),
    {
        proof {
            assert(self@.entries.len() == self.entries.len());
            if let PodKey::Quic(i, _) = key {
                assert(self.entries.len() == 15 + 7 * self@.tiles() + 7 * i);
                assert(i < self@.tiles());
            }
        }
        match key {
            PodKey::Pack(PackField::BankCnt) => PodValue::Ulong(
                self.config.pack.solana_labs_bank_thread_count as u64,
            ),
            PodKey::Pack(PackField::TxnqSz) => PodValue::Ulong(
                self.config.pack.max_pending_transactions as u64,
            ),
            PodKey::Pack(PackField::CuEstTblSz) => PodValue::Ulong(
                self.config.pack.compute_unit_estimator_table_size as u64,
            ),
            PodKey::Pack(PackField::CuLimit) => PodValue::Uint(
                self.config.pack.solana_labs_bank_thread_compute_units_executed_per_second,
            ),
            PodKey::Quic(i, QuicField::Mcache) => {
                let at: usize = 15 + 7 * (i as usize);
                assert(self@.entries[at as int] == self.entries@[at as int]@);
                self.entries[at].value.duplicate()
            },
            PodKey::Quic(i, QuicField::Dcache) => {
                let at: usize = 16 + 7 * (i as usize);
                assert(self@.entries[at as int] == self.entries@[at as int]@);
                self.entries[at].value.duplicate()
            },
            PodKey::Quic(i, QuicField::Fseq) => {
                let at: usize = 17 + 7 * (i as usize);
                assert(self@.entries[at as int] == self.entries@[at as int]@);
                self.entries[at].value.duplicate()
            },
            PodKey::QuicCfg(ProtocolField::CertFile) => {
                let mut path = self.config.scratch_directory.clone();
                path.append("/cert.pem");
                PodValue::Text(path)
            },
            PodKey::QuicCfg(ProtocolField::KeyFile) => {
                let mut path = self.config.scratch_directory.clone();
                path.append("/key.pem");
                PodValue::Text(path)
            },
            PodKey::QuicCfg(ProtocolField::IpAddr) => {
                assert(self@.addresses[0] == self.addresses@[0]@);
                PodValue::Text(self.addresses[0].clone())
            },
            PodKey::QuicCfg(ProtocolField::ListenPort) => PodValue::Ushort(
                self.config.quic.listen_port,
            ),
            PodKey::QuicCfg(ProtocolField::SrcMacAddr) => match &self.mac {
                Some(mac) => PodValue::Text(mac.clone()),
                None => PodValue::Unused,
            },
            PodKey::QuicCfg(ProtocolField::IdleTimeoutMs) => PodValue::Ulong(IDLE_TIMEOUT_MILLIS),
            _ => PodValue::Unused,
        }
    }

    fn entry(&self, key: PodKey) -> (e: PodEntry)
        requires
            self@.wf(),
            self@.step == Step::Publish(section_of(key)),
        ensures
            e@ == entry_for(self@, key),
    {
        let value = match plan_primitive(&self.config, self.tools, key) {
            Some(_) => {
                let at = staged_index(key, self.tools);
                assert(self@.staged[at as int] == self.staged@[at as int]@);
                PodValue::Handle(self.staged[at].duplicate())
            },
            None => self.fixed(key),
        };
        PodEntry { key, value }
    }

    fn pack_entries(&self) -> (out: Vec<PodEntry>)
        requires
            self@.wf(),
            self@.step == Step::Publish(Section::Pack),
        ensures
            entry_views(out@) == section_entries(self@, Section::Pack),
    {
        let mut out: Vec<PodEntry> = Vec::new();
        out.push(self.entry(PodKey::Pack(PackField::Cnc)));
        out.push(self.entry(PodKey::Pack(PackField::OutMcache)));
        out.push(self.entry(PodKey::Pack(PackField::OutDcache)));
        out.push(self.entry(PodKey::Pack(PackField::Scratch)));
        out.push(self.entry(PodKey::Pack(PackField::CuEstTbl)));
        out.push(self.entry(PodKey::Pack(PackField::ReturnFseq)));
        out.push(self.entry(PodKey::Pack(PackField::BankCnt)));
        out.push(self.entry(PodKey::Pack(PackField::TxnqSz)));
        out.push(self.entry(PodKey::Pack(PackField::CuEstTblSz)));
        out.push(self.entry(PodKey::Pack(PackField::CuLimit)));
        assert(entry_views(out@) =~= section_entries(self@, Section::Pack));
        out
    }

    fn dedup_entries(&self) -> (out: Vec<PodEntry>)
        requires
            self@.wf(),
            self@.step == Step::Publish(Section::Dedup),
        ensures
            entry_views(out@) == section_entries(self@, Section::Dedup),
    {
        let mut out: Vec<PodEntry> = Vec::new();
        out.push(self.entry(PodKey::Dedup(DedupField::Cnc)));
        out.push(self.entry(PodKey::Dedup(DedupField::Tcache)));
        out.push(self.entry(PodKey::Dedup(DedupField::Mcache)));
        out.push(self.entry(PodKey::Dedup(DedupField::Fseq)));
        assert(entry_views(out@) =~= section_entries(self@, Section::Dedup));
        out
    }

    fn inbound_entries(&self, i: u32) -> (out: Vec<PodEntry>)
        requires
            self@.wf(),
            self@.step == Step::Publish(Section::VerifyIn(i)),
        ensures
            entry_views(out@) == section_entries(self@, Section::VerifyIn(i)),
    {
        let mut out: Vec<PodEntry> = Vec::new();
        out.push(self.entry(PodKey::VerifyIn(i, InboundField::Mcache)));
        out.push(self.entry(PodKey::VerifyIn(i, InboundField::Dcache)));
        out.push(self.entry(PodKey::VerifyIn(i, InboundField::Fseq)));
        assert(entry_views(out@) =~= section_entries(self@, Section::VerifyIn(i)));
        out
    }

    fn verify_entries(&self, i: u32) -> (out: Vec<PodEntry>)
        requires
            self@.wf(),
            self@.step == Step::Publish(Section::Verify(i)),
        ensures
            entry_views(out@) == section_entries(self@, Section::Verify(i)),
    {
        let mut out: Vec<PodEntry> = Vec::new();
        out.push(self.entry(PodKey::Verify(i, VerifyField::Cnc)));
        out.push(self.entry(PodKey::Verify(i, VerifyField::Mcache)));
        out.push(self.entry(PodKey::Verify(i, VerifyField::Dcache)));
        out.push(self.entry(PodKey::Verify(i, VerifyField::Fseq)));
        assert(entry_views(out@) =~= section_entries(self@, Section::Verify(i)));
        out
    }

    fn quic_entries(&self, i: u32) -> (out: Vec<PodEntry>)
        requires
            self@.wf(),
            self@.step == Step::Publish(Section::Quic(i)),
        ensures
            entry_views(out@) == section_entries(self@, Section::Quic(i)),
    {
        let mut out: Vec<PodEntry> = Vec::new();
        out.push(self.entry(PodKey::Quic(i, QuicField::Cnc)));
        out.push(self.entry(PodKey::Quic(i, QuicField::Mcache)));
        out.push(self.entry(PodKey::Quic(i, QuicField::Dcache)));
        out.push(self.entry(PodKey::Quic(i, QuicField::Fseq)));
        out.push(self.entry(PodKey::Quic(i, QuicField::Quic)));
        out.push(self.entry(PodKey::Quic(i, QuicField::Xsk)));
        out.push(self.entry(PodKey::Quic(i, QuicField::XskAio)));
        assert(entry_views(out@) =~= section_entries(self@, Section::Quic(i)));
        out
    }

    fn protocol_entries(&self) -> (out: Vec<PodEntry>)
        requires
            self@.wf(),
            self@.step == Step::Publish(Section::QuicCfg),
        ensures
            entry_views(out@) == section_entries(self@, Section::QuicCfg),
    {
        let mut out: Vec<PodEntry> = Vec::new();
        out.push(self.entry(PodKey::QuicCfg(ProtocolField::CertFile)));
        out.push(self.entry(PodKey::QuicCfg(ProtocolField::KeyFile)));
        out.push(self.entry(PodKey::QuicCfg(ProtocolField::IpAddr)));
        out.push(self.entry(PodKey::QuicCfg(ProtocolField::ListenPort)));
        out.push(self.entry(PodKey::QuicCfg(ProtocolField::SrcMacAddr)));
        out.push(self.entry(PodKey::QuicCfg(ProtocolField::IdleTimeoutMs)));
        assert(entry_views(out@) =~= section_entries(self@, Section::QuicCfg));
        out
    }

    /// The entries of the section that is about to be published.
    fn section(&self, s: Section) -> (out: Vec<PodEntry>)
        requires
            self@.wf(),
            self@.step == Step::Publish(s),
        ensures
            entry_views(out@) == section_entries(self@, s),
    {
        match s {
            Section::Main => {
                let mut out: Vec<PodEntry> = Vec::new();
                out.push(self.entry(PodKey::MainCnc));
                assert(entry_views(out@) =~= section_entries(self@, s));
                out
            },
            Section::Pack => self.pack_entries(),
            Section::Dedup => self.dedup_entries(),
            Section::VerifyIn(i) => self.inbound_entries(i),
            Section::Verify(i) => self.verify_entries(i),
            Section::Quic(i) => self.quic_entries(i),
            Section::QuicCfg => self.protocol_entries(),
        }
    }

    /// The facts that the finished apply hands out.
    fn result(&self) -> (r: PersistedResult)
        requires
            self@.wf(),
            self@.step == Step::Done,
        ensures
            r@ == result_of(self@),
    {
        let pod = match &self.pod {
            Some(h) => h.id,
            None => 0,
        };
        assert(self@.entries[0] == self.entries@[0]@);
        let main_cnc = match &self.entries[0].value {
            PodValue::Handle(h) => h.id,
            _ => 0,
        };
        let src_mac_address = match &self.mac {
            Some(mac) => mac.clone(),
            None => String::new(),
        };
        PersistedResult {
            pod,
            main_cnc,
            src_mac_address,
            listen_addresses: copy_texts(&self.addresses),
        }
    }

    /// What the caller is asked to do now. `None` before the apply has begun and
    /// after it was aborted.
    pub fn action(&self) -> (a: Option<Action>)
        requires
            self@.wf(),
        ensures
            a is Some <==> action_of(self@) is Some,
            a matches Some(x) ==> Some(x@) == action_of(self@),
    {
        match self.step {
            Step::Start => None,
            Step::Failed => None,
            Step::EnterNamespace => Some(Action::EnterNamespace { path: self.config.namespace() }),
            Step::CreatePod => Some(
                Action::Allocate {
                    command: allocation_command(&self.config, Primitive::Pod { size: POD_SIZE }),
                },
            ),
            Step::Allocate(key) => match plan_primitive(&self.config, self.tools, key) {
                Some(p) => Some(Action::Allocate { command: allocation_command(&self.config, p) }),
                None => None,
            },
            Step::Publish(s) => match &self.pod {
                Some(pod) => {
                    let entries = self.section(s);
                    Some(
                        Action::Run {
                            command: insertion_command(&self.config, pod, &entries),
                            tolerant: false,
                        },
                    )
                },
                None => None,
            },
            Step::Unhook => Some(Action::Run { command: unhook_command(&self.config), tolerant: true }),
            Step::Settle => Some(Action::Settle { millis: SETTLE_MILLIS }),
            Step::Hook => Some(Action::Run { command: hook_command(&self.config), tolerant: false }),
            Step::Inspect => Some(Action::Inspect { command: inspection_command(&self.config) }),
            Step::Listen(j) => {
                assert(self@.addresses[j as int] == self.addresses@[j as int]@);
                Some(
                    Action::Run {
                        command: listener_command(&self.config, self.addresses[j].as_str()),
                        tolerant: false,
                    },
                )
            },
            Step::Bind(i) => {
                let last = self.staged.len() - 1;
                assert(self@.staged.last() == self.staged@[last as int]@);
                Some(
                    Action::Run {
                        command: binding_command(&self.config, &self.staged[last], i),
                        tolerant: false,
                    },
                )
            },
            Step::Done => Some(Action::Finish { result: self.result() }),
        }
    }

    /// The tool that the operation under way runs.
    fn tool(&self) -> (name: String)
        requires
            self@.wf(),
        ensures
            name@ == tool_of(self@),
    {
        match self.action() {
            Some(Action::EnterNamespace { path }) => path,
            Some(Action::Allocate { command }) => command.program,
            Some(Action::Run { command, .. }) => command.program,
            Some(Action::Inspect { command }) => command.program,
            _ => String::new(),
        }
    }

    /// Aborts the apply for a report of failure.
    fn fail(&mut self, diagnostic: String) -> (e: ApplyError)
        requires
            old(self)@.wf(),
            old(self)@.step != Step::Done,
        ensures
            final(self)@ == old(self)@.aborted(),
            e@ == tool_failure(old(self)@, diagnostic@),
    {
        let tool = self.tool();
        self.step = Step::Failed;
        ApplyError::ToolFailed { tool, diagnostic }
    }

    /// Aborts the apply with `error`.
    fn abort(&mut self, error: ApplyError) -> (e: ApplyError)
        requires
            old(self)@.step != Step::Done,
        ensures
            final(self)@ == old(self)@.aborted(),
            e@ == error@,
    {
        self.step = Step::Failed;
        error
    }

    /// Moves on to `step` with nothing else changed.
    fn go(&mut self, step: Step)
        ensures
            final(self)@ == old(self)@.at(step),
    {
        self.step = step;
    }

    fn on_allocated(&mut self, h: Handle)
        requires
            old(self)@.step is CreatePod || old(self)@.step is Allocate,
        ensures
            transition(old(self)@, EventView::Allocated(h@)) == Ok::<Model, ApplyErrorView>(
                final(self)@,
            ),
    {
        let ghost before = self@;
        match self.step {
            Step::Allocate(key) => {
                self.staged.push(h);
                self.step = step_after_allocation(key, self.tools);
                assert(self@.staged =~= before.staged.push(h@));
            },
            _ => {
                self.pod = Some(h);
                self.step = first_step_of(Section::Main);
            },
        }
    }

    fn on_published(&mut self, s: Section)
        requires
            old(self)@.wf(),
            old(self)@.step == Step::Publish(s),
        ensures
            transition(old(self)@, EventView::Completed) == Ok::<Model, ApplyErrorView>(
                final(self)@,
            ),
    {
        let ghost before = self@;
        let mut added = self.section(s);
        self.entries.append(&mut added);
        self.staged = Vec::new();
        self.step = step_after_publication(s, self.config.verify_tile_count);
        assert(self@.entries =~= before.entries + section_entries(before, s));
        assert(self@.staged =~= Seq::empty());
    }

    fn on_inspected(&mut self, found: Inspection) -> (r: Result<(), ApplyError>)
        requires
            old(self)@.step == Step::Inspect,
        ensures
            stepped(old(self)@, EventView::Inspected(found@), final(self)@, r),
    {
        if found.addresses.len() == 0 {
            assert(found@.addresses.len() == 0);
            return Err(self.abort(ApplyError::NoAddresses));
        }
        assert(found@.addresses.len() != 0);
        self.addresses = found.addresses;
        self.mac = found.mac;
        self.step = Step::Listen(0);
        Ok(())
    }

    fn on_listening(&mut self, j: usize) -> (r: Result<(), ApplyError>)
        requires
            old(self)@.wf(),
            old(self)@.step == Step::Listen(j),
        ensures
            stepped(old(self)@, EventView::Completed, final(self)@, r),
    {
        assert(self@.addresses.len() == self.addresses.len());
        if j + 1 < self.addresses.len() {
            self.go(Step::Listen(j + 1));
            Ok(())
        } else if self.mac.is_none() {
            Err(self.abort(ApplyError::NoMacAddress))
        } else {
            self.go(engine_start_step(self.config.verify_tile_count));
            Ok(())
        }
    }

    /// Takes the caller's report and moves to the next state.
    fn advance(&mut self, event: Event) -> (r: Result<(), ApplyError>)
        requires
            old(self)@.wf(),
        ensures
            stepped(old(self)@, event@, final(self)@, r),
    {
        match self.step {
            Step::Done => Err(ApplyError::NotRunning),
            Step::Failed => Err(ApplyError::NotRunning),
            Step::Start => match event {
                Event::Begin => {
                    let first = if self.config.netns_enabled {
                        Step::EnterNamespace
                    } else {
                        Step::CreatePod
                    };
                    self.go(first);
                    Ok(())
                },
                _ => Err(self.abort(ApplyError::UnexpectedEvent)),
            },
            Step::EnterNamespace => match event {
                Event::Completed => {
                    self.go(Step::CreatePod);
                    Ok(())
                },
                Event::Failed(d) => Err(self.fail(d)),
                _ => Err(self.abort(ApplyError::UnexpectedEvent)),
            },
            Step::CreatePod => match event {
                Event::Allocated(h) => {
                    self.on_allocated(h);
                    Ok(())
                },
                Event::Failed(d) => Err(self.fail(d)),
                _ => Err(self.abort(ApplyError::UnexpectedEvent)),
            },
            Step::Allocate(_) => match event {
                Event::Allocated(h) => {
                    self.on_allocated(h);
                    Ok(())
                },
                Event::Failed(d) => Err(self.fail(d)),
                _ => Err(self.abort(ApplyError::UnexpectedEvent)),
            },
            Step::Publish(s) => match event {
                Event::Completed => {
                    self.on_published(s);
                    Ok(())
                },
                Event::Failed(d) => Err(self.fail(d)),
                _ => Err(self.abort(ApplyError::UnexpectedEvent)),
            },
            Step::Unhook => match event {
                Event::Completed => {
                    self.go(Step::Settle);
                    Ok(())
                },
                Event::Failed(_) => {
                    self.go(Step::Settle);
                    Ok(())
                },
                _ => Err(self.abort(ApplyError::UnexpectedEvent)),
            },
            Step::Settle => match event {
                Event::Completed => {
                    self.go(Step::Hook);
                    Ok(())
                },
                _ => Err(self.abort(ApplyError::UnexpectedEvent)),
            },
            Step::Hook => match event {
                Event::Completed => {
                    self.go(Step::Inspect);
                    Ok(())
                },
                Event::Failed(d) => Err(self.fail(d)),
                _ => Err(self.abort(ApplyError::UnexpectedEvent)),
            },
            Step::Inspect => match event {
                Event::Inspected(found) => self.on_inspected(found),
                Event::Failed(d) => Err(self.fail(d)),
                _ => Err(self.abort(ApplyError::UnexpectedEvent)),
            },
            Step::Listen(j) => match event {
                Event::Completed => self.on_listening(j),
                Event::Failed(d) => Err(self.fail(d)),
                _ => Err(self.abort(ApplyError::UnexpectedEvent)),
            },
            Step::Bind(i) => match event {
                Event::Completed => {
                    self.go(Step::Allocate(PodKey::Quic(i, QuicField::XskAio)));
                    Ok(())
                },
                Event::Failed(d) => Err(self.fail(d)),
                _ => Err(self.abort(ApplyError::UnexpectedEvent)),
            },
        }
    }

    /// Takes the caller's report of the operation under way and names the next one.
    ///
    /// The new state and the action are those of [`transition`] and [`action_of`]. On
    /// an error the apply is aborted: nothing that was allocated is released, and
    /// every later report is refused with [`ApplyError::NotRunning`].
    pub fn step(&mut self, event: Event) -> (r: Result<Action, ApplyError>)
        requires
            old(self)@.wf(),
        ensures
            final(self)@.wf(),
            match transition(old(self)@, event@) {
                Ok(next) => {
                    &&& final(self)@ == next
                    &&& r matches Ok(a) && Some(a@) == action_of(next)
                },
                Err(e) => {
                    &&& final(self)@ == old(self)@.aborted()
                    &&& r matches Err(x) && x@ == e
                },
            },
    {
        proof {
            lemma_transition_wf(self@, event@);
        }
        match self.advance(event) {
            Err(e) => Err(e),
            Ok(()) => {
                proof {
                    lemma_action_follows(self@);
                }
                match self.action() {
                    Some(a) => Ok(a),
                    None => Err(ApplyError::NotRunning),
                }
            },
        }
    }
}

/// What [`Builder::step`] has done to the state: the turn that [`transition`]
/// describes, or, where the report is refused, the abort.
pub open spec fn stepped(before: Model, event: EventView, after: Model, r: Result<(), ApplyError>) -> bool {
    match transition(before, event) {
        Ok(next) => after == next && r is Ok,
        Err(e) => after == before.aborted() && (r matches Err(x) && x@ == e),
    }
}

/// A state that a turn has led to names an action.
pub proof fn lemma_action_follows(m: Model)
    requires
        m.wf(),
        m.step != Step::Start,
        m.step != Step::Failed,
    ensures
        action_of(m) is Some,
{
}

} // verus!
