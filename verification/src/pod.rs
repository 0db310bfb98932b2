//! The configuration pod: its keys, its typed values and its layout.
//!
//! A pod key is a dot-separated path below the pipeline's name. The keys of one
//! topology are fixed by the number of verify tiles alone; [`PodKey::slot`] numbers
//! them in the order in which an apply publishes them.

use vstd::prelude::*;
use vstd::string::*;
use crate::handle::{handle_text, Handle, HandleView};
use crate::text::{decimal, render_decimal, texts};

verus! {

/// What the pack tile publishes.
#[derive(Clone, Copy, Debug, PartialEq, Eq, Structural)]
pub enum PackField {
    Cnc,
    OutMcache,
    OutDcache,
    Scratch,
    CuEstTbl,
    ReturnFseq,
    BankCnt,
    TxnqSz,
    CuEstTblSz,
    CuLimit,
}

/// What the dedup tile publishes.
#[derive(Clone, Copy, Debug, PartialEq, Eq, Structural)]
pub enum DedupField {
    Cnc,
    Tcache,
    Mcache,
    Fseq,
}

/// The members of a verify tile's inbound group.
#[derive(Clone, Copy, Debug, PartialEq, Eq, Structural)]
pub enum InboundField {
    Mcache,
    Dcache,
    Fseq,
}

/// The members of a verify tile's outbound group.
#[derive(Clone, Copy, Debug, PartialEq, Eq, Structural)]
pub enum VerifyField {
    Cnc,
    Mcache,
    Dcache,
    Fseq,
}

/// What a protocol-engine tile publishes.
#[derive(Clone, Copy, Debug, PartialEq, Eq, Structural)]
pub enum QuicField {
    Cnc,
    Mcache,
    Dcache,
    Fseq,
    Quic,
    Xsk,
    XskAio,
}

/// The protocol configuration shared by all protocol-engine tiles.
#[derive(Clone, Copy, Debug, PartialEq, Eq, Structural)]
pub enum ProtocolField {
    CertFile,
    KeyFile,
    IpAddr,
    ListenPort,
    SrcMacAddr,
    IdleTimeoutMs,
}

impl PackField {
    /// Position among the pack tile's keys.
    pub open spec fn ordinal(self) -> int {
        match self {
            PackField::Cnc => 0,
            PackField::OutMcache => 1,
            PackField::OutDcache => 2,
            PackField::Scratch => 3,
            PackField::CuEstTbl => 4,
            PackField::ReturnFseq => 5,
            PackField::BankCnt => 6,
            PackField::TxnqSz => 7,
            PackField::CuEstTblSz => 8,
            PackField::CuLimit => 9,
        }
    }

    /// Last component of the key.
    pub open spec fn label(self) -> Seq<char> {
        match self {
            PackField::Cnc => "cnc"@,
            PackField::OutMcache => "out-mcache"@,
            PackField::OutDcache => "out-dcache"@,
            PackField::Scratch => "scratch"@,
            PackField::CuEstTbl => "cu-est-tbl"@,
            PackField::ReturnFseq => "return-fseq"@,
            PackField::BankCnt => "bank-cnt"@,
            PackField::TxnqSz => "txnq-sz"@,
            PackField::CuEstTblSz => "cu-est-tbl-sz"@,
            PackField::CuLimit => "cu-limit"@,
        }
    }

    /// Last component of the key.
    pub fn name(&self) -> (s: &'static str)
        ensures
            s@ == self.label(),
    {
        match self {
            PackField::Cnc => "cnc",
            PackField::OutMcache => "out-mcache",
            PackField::OutDcache => "out-dcache",
            PackField::Scratch => "scratch",
            PackField::CuEstTbl => "cu-est-tbl",
            PackField::ReturnFseq => "return-fseq",
            PackField::BankCnt => "bank-cnt",
            PackField::TxnqSz => "txnq-sz",
            PackField::CuEstTblSz => "cu-est-tbl-sz",
            PackField::CuLimit => "cu-limit",
        }
    }
}

impl DedupField {
    /// Position among the dedup tile's keys.
    pub open spec fn ordinal(self) -> int {
        match self {
            DedupField::Cnc => 0,
            DedupField::Tcache => 1,
            DedupField::Mcache => 2,
            DedupField::Fseq => 3,
        }
    }

    /// Last component of the key.
    pub open spec fn label(self) -> Seq<char> {
        match self {
            DedupField::Cnc => "cnc"@,
            DedupField::Tcache => "tcache"@,
            DedupField::Mcache => "mcache"@,
            DedupField::Fseq => "fseq"@,
        }
    }

    /// Last component of the key.
    pub fn name(&self) -> (s: &'static str)
        ensures
            s@ == self.label(),
    {
        match self {
            DedupField::Cnc => "cnc",
            DedupField::Tcache => "tcache",
            DedupField::Mcache => "mcache",
            DedupField::Fseq => "fseq",
        }
    }
}

impl InboundField {
    /// Position among the inbound group's keys.
    pub open spec fn ordinal(self) -> int {
        match self {
            InboundField::Mcache => 0,
            InboundField::Dcache => 1,
            InboundField::Fseq => 2,
        }
    }

    /// Last component of the key.
    pub open spec fn label(self) -> Seq<char> {
        match self {
            InboundField::Mcache => "mcache"@,
            InboundField::Dcache => "dcache"@,
            InboundField::Fseq => "fseq"@,
        }
    }

    /// Last component of the key.
    pub fn name(&self) -> (s: &'static str)
        ensures
            s@ == self.label(),
    {
        match self {
            InboundField::Mcache => "mcache",
            InboundField::Dcache => "dcache",
            InboundField::Fseq => "fseq",
        }
    }
}

impl VerifyField {
    /// Position among the outbound group's keys.
    pub open spec fn ordinal(self) -> int {
        match self {
            VerifyField::Cnc => 0,
            VerifyField::Mcache => 1,
            VerifyField::Dcache => 2,
            VerifyField::Fseq => 3,
        }
    }

    /// Last component of the key.
    pub open spec fn label(self) -> Seq<char> {
        match self {
            VerifyField::Cnc => "cnc"@,
            VerifyField::Mcache => "mcache"@,
            VerifyField::Dcache => "dcache"@,
            VerifyField::Fseq => "fseq"@,
        }
    }

    /// Last component of the key.
    pub fn name(&self) -> (s: &'static str)
        ensures
            s@ == self.label(),
    {
        match self {
            VerifyField::Cnc => "cnc",
            VerifyField::Mcache => "mcache",
            VerifyField::Dcache => "dcache",
            VerifyField::Fseq => "fseq",
        }
    }
}

impl QuicField {
    /// Position among a protocol-engine tile's keys.
    pub open spec fn ordinal(self) -> int {
        match self {
            QuicField::Cnc => 0,
            QuicField::Mcache => 1,
            QuicField::Dcache => 2,
            QuicField::Fseq => 3,
            QuicField::Quic => 4,
            QuicField::Xsk => 5,
            QuicField::XskAio => 6,
        }
    }

    /// Last component of the key.
    pub open spec fn label(self) -> Seq<char> {
        match self {
            QuicField::Cnc => "cnc"@,
            QuicField::Mcache => "mcache"@,
            QuicField::Dcache => "dcache"@,
            QuicField::Fseq => "fseq"@,
            QuicField::Quic => "quic"@,
            QuicField::Xsk => "xsk"@,
            QuicField::XskAio => "xsk_aio"@,
        }
    }

    /// Last component of the key.
    pub fn name(&self) -> (s: &'static str)
        ensures
            s@ == self.label(),
    {
        match self {
            QuicField::Cnc => "cnc",
            QuicField::Mcache => "mcache",
            QuicField::Dcache => "dcache",
            QuicField::Fseq => "fseq",
            QuicField::Quic => "quic",
            QuicField::Xsk => "xsk",
            QuicField::XskAio => "xsk_aio",
        }
    }
}

impl ProtocolField {
    /// Position among the protocol configuration's keys.
    pub open spec fn ordinal(self) -> int {
        match self {
            ProtocolField::CertFile => 0,
            ProtocolField::KeyFile => 1,
            ProtocolField::IpAddr => 2,
            ProtocolField::ListenPort => 3,
            ProtocolField::SrcMacAddr => 4,
            ProtocolField::IdleTimeoutMs => 5,
        }
    }

    /// Last component of the key.
    pub open spec fn label(self) -> Seq<char> {
        match self {
            ProtocolField::CertFile => "cert_file"@,
            ProtocolField::KeyFile => "key_file"@,
            ProtocolField::IpAddr => "ip_addr"@,
            ProtocolField::ListenPort => "listen_port"@,
            ProtocolField::SrcMacAddr => "src_mac_addr"@,
            ProtocolField::IdleTimeoutMs => "idle_timeout_ms"@,
        }
    }

    /// Last component of the key.
    pub fn name(&self) -> (s: &'static str)
        ensures
            s@ == self.label(),
    {
        match self {
            ProtocolField::CertFile => "cert_file",
            ProtocolField::KeyFile => "key_file",
            ProtocolField::IpAddr => "ip_addr",
            ProtocolField::ListenPort => "listen_port",
            ProtocolField::SrcMacAddr => "src_mac_addr",
            ProtocolField::IdleTimeoutMs => "idle_timeout_ms",
        }
    }
}

/// A key of the pod. The tile index of a per-replica key counts from zero.
#[derive(Clone, Copy, Debug, PartialEq, Eq, Structural)]
pub enum PodKey {
    /// The liveness block of the whole pipeline.
    MainCnc,
    Pack(PackField),
    Dedup(DedupField),
    /// The inbound group of a verify tile, fed by the protocol-engine tile of the
    /// same index.
    VerifyIn(u32, InboundField),
    /// The outbound group of a verify tile, which feeds dedup.
    Verify(u32, VerifyField),
    Quic(u32, QuicField),
    QuicCfg(ProtocolField),
}

/// Number of keys in the pod of a pipeline with `tiles` verify tiles.
pub open spec fn pod_size(tiles: nat) -> int {
    21 + 14 * (tiles as int)
}

/// The key's path below the pipeline's name.
pub open spec fn key_suffix(key: PodKey) -> Seq<char> {
    match key {
        PodKey::MainCnc => "main.cnc"@,
        PodKey::Pack(f) => "pack."@ + f.label(),
        PodKey::Dedup(f) => "dedup."@ + f.label(),
        PodKey::VerifyIn(i, f) => "verifyin.v"@ + decimal(i as nat) + "in."@ + f.label(),
        PodKey::Verify(i, f) => "verify.v"@ + decimal(i as nat) + "."@ + f.label(),
        PodKey::Quic(i, f) => "quic.quic"@ + decimal(i as nat) + "."@ + f.label(),
        PodKey::QuicCfg(f) => "quic_cfg."@ + f.label(),
    }
}

/// The full dot-separated path of `key` in the pod of the pipeline called `name`.
pub open spec fn key_path(name: Seq<char>, key: PodKey) -> Seq<char> {
    name + "."@ + key_suffix(key)
}

impl PodKey {
    /// Whether a pipeline with `tiles` verify tiles has this key.
    pub open spec fn declared(self, tiles: nat) -> bool {
        match self {
            PodKey::VerifyIn(i, _) => i < tiles,
            PodKey::Verify(i, _) => i < tiles,
            PodKey::Quic(i, _) => i < tiles,
            _ => true,
        }
    }

    /// Position of the key in the order of publication: the main liveness block,
    /// the pack tile, the dedup tile, then for each verify tile its inbound and its
    /// outbound group, then the protocol-engine tiles, then the protocol
    /// configuration.
    pub open spec fn slot(self, tiles: nat) -> int {
        match self {
            PodKey::MainCnc => 0,
            PodKey::Pack(f) => 1 + f.ordinal(),
            PodKey::Dedup(f) => 11 + f.ordinal(),
            PodKey::VerifyIn(i, f) => 15 + 7 * i + f.ordinal(),
            PodKey::Verify(i, f) => 18 + 7 * i + f.ordinal(),
            PodKey::Quic(i, f) => 15 + 7 * tiles + 7 * i + f.ordinal(),
            PodKey::QuicCfg(f) => 15 + 14 * tiles + f.ordinal(),
        }
    }

    /// The full path of the key in the pod of the pipeline called `name`.
    pub fn path(&self, name: &str) -> (s: String)
        ensures
            s@ == key_path(name@, *self),
    {
        let mut s = String::from_str(name);
        s.append(".");
        let ghost head = s@;
        match self {
            PodKey::MainCnc => {
                s.append("main.cnc");
            },
            PodKey::Pack(f) => {
                s.append("pack.");
                s.append(f.name());
            },
            PodKey::Dedup(f) => {
                s.append("dedup.");
                s.append(f.name());
            },
            PodKey::VerifyIn(i, f) => {
                s.append("verifyin.v");
                s.append(render_decimal(*i as u64).as_str());
                s.append("in.");
                s.append(f.name());
            },
            PodKey::Verify(i, f) => {
                s.append("verify.v");
                s.append(render_decimal(*i as u64).as_str());
                s.append(".");
                s.append(f.name());
            },
            PodKey::Quic(i, f) => {
                s.append("quic.quic");
                s.append(render_decimal(*i as u64).as_str());
                s.append(".");
                s.append(f.name());
            },
            PodKey::QuicCfg(f) => {
                s.append("quic_cfg.");
                s.append(f.name());
            },
        }
        assert(s@ =~= head + key_suffix(*self));
        s
    }
}

proof fn lemma_pack_ordinal(f: PackField, g: PackField)
    ensures
        0 <= f.ordinal() < 10,
        f.ordinal() == g.ordinal() ==> f == g,
{
}

proof fn lemma_dedup_ordinal(f: DedupField, g: DedupField)
    ensures
        0 <= f.ordinal() < 4,
        f.ordinal() == g.ordinal() ==> f == g,
{
}

proof fn lemma_inbound_ordinal(f: InboundField, g: InboundField)
    ensures
        0 <= f.ordinal() < 3,
        f.ordinal() == g.ordinal() ==> f == g,
{
}

proof fn lemma_verify_ordinal(f: VerifyField, g: VerifyField)
    ensures
        0 <= f.ordinal() < 4,
        f.ordinal() == g.ordinal() ==> f == g,
{
}

proof fn lemma_quic_ordinal(f: QuicField, g: QuicField)
    ensures
        0 <= f.ordinal() < 7,
        f.ordinal() == g.ordinal() ==> f == g,
{
}

proof fn lemma_protocol_ordinal(f: ProtocolField, g: ProtocolField)
    ensures
        0 <= f.ordinal() < 6,
        f.ordinal() == g.ordinal() ==> f == g,
{
}

/// Where the slots of a key's group begin and end.
proof fn lemma_slot_bounds(a: PodKey, tiles: nat)
    ensures
        a is MainCnc ==> a.slot(tiles) == 0,
        a is Pack ==> 1 <= a.slot(tiles) < 11,
        a is Dedup ==> 11 <= a.slot(tiles) < 15,
        a matches PodKey::VerifyIn(i, _) ==> 15 + 7 * i <= a.slot(tiles) < 18 + 7 * i,
        a matches PodKey::Verify(i, _) ==> 18 + 7 * i <= a.slot(tiles) < 22 + 7 * i,
        a matches PodKey::Quic(i, _) ==> 15 + 7 * tiles + 7 * i <= a.slot(tiles) < 22 + 7 * tiles
            + 7 * i,
        a is QuicCfg ==> 15 + 14 * tiles <= a.slot(tiles) < 21 + 14 * tiles,
{
    match a {
        PodKey::MainCnc => {},
        PodKey::Pack(f) => lemma_pack_ordinal(f, f),
        PodKey::Dedup(f) => lemma_dedup_ordinal(f, f),
        PodKey::VerifyIn(_, f) => lemma_inbound_ordinal(f, f),
        PodKey::Verify(_, f) => lemma_verify_ordinal(f, f),
        PodKey::Quic(_, f) => lemma_quic_ordinal(f, f),
        PodKey::QuicCfg(f) => lemma_protocol_ordinal(f, f),
    }
}

/// Every declared key has a slot inside the pod.
pub proof fn lemma_slot_in_range(key: PodKey, tiles: nat)
    requires
        key.declared(tiles),
    ensures
        0 <= key.slot(tiles) < pod_size(tiles),
{
    lemma_slot_bounds(key, tiles);
}

/// No two declared keys share a slot.
pub proof fn lemma_slot_injective(a: PodKey, b: PodKey, tiles: nat)
    requires
        a.declared(tiles),
        b.declared(tiles),
        a.slot(tiles) == b.slot(tiles),
    ensures
        a == b,
{
    lemma_slot_bounds(a, tiles);
    lemma_slot_bounds(b, tiles);
    match a {
        PodKey::MainCnc => {
            assert(b is MainCnc);
        },
        PodKey::Pack(f) => {
            assert(b is Pack);
            lemma_pack_ordinal(f, b->Pack_0);
        },
        PodKey::Dedup(f) => {
            assert(b is Dedup);
            lemma_dedup_ordinal(f, b->Dedup_0);
        },
        PodKey::VerifyIn(i, f) => {
            assert(b is VerifyIn);
            assert(i == b->VerifyIn_0);
            lemma_inbound_ordinal(f, b->VerifyIn_1);
        },
        PodKey::Verify(i, f) => {
            assert(b is Verify);
            assert(i == b->Verify_0);
            lemma_verify_ordinal(f, b->Verify_1);
        },
        PodKey::Quic(i, f) => {
            assert(b is Quic);
            assert(i == b->Quic_0);
            lemma_quic_ordinal(f, b->Quic_1);
        },
        PodKey::QuicCfg(f) => {
            assert(b is QuicCfg);
            lemma_protocol_ordinal(f, b->QuicCfg_0);
        },
    }
}

/// A value stored under a pod key.
#[derive(Clone, Debug, PartialEq, Eq)]
pub enum PodValue {
    /// A reference to an allocated primitive.
    Handle(Handle),
    /// The sentinel for a primitive that was not allocated: consumers do not open it.
    Unused,
    /// Any other string.
    Text(String),
    Ulong(u64),
    Uint(u32),
    Ushort(u16),
}

/// The mathematical value of a [`PodValue`].
pub enum PodValueView {
    Handle(HandleView),
    Unused,
    Text(Seq<char>),
    Ulong(u64),
    Uint(u32),
    Ushort(u16),
}

impl View for PodValue {
    type V = PodValueView;

    open spec fn view(&self) -> PodValueView {
        match self {
            PodValue::Handle(h) => PodValueView::Handle(h@),
            PodValue::Unused => PodValueView::Unused,
            PodValue::Text(t) => PodValueView::Text(t@),
            PodValue::Ulong(n) => PodValueView::Ulong(*n),
            PodValue::Uint(n) => PodValueView::Uint(*n),
            PodValue::Ushort(n) => PodValueView::Ushort(*n),
        }
    }
}

/// The type tag under which a value is inserted.
pub open spec fn value_tag(v: PodValueView) -> Seq<char> {
    match v {
        PodValueView::Handle(_) => "cstr"@,
        PodValueView::Unused => "cstr"@,
        PodValueView::Text(_) => "cstr"@,
        PodValueView::Ulong(_) => "ulong"@,
        PodValueView::Uint(_) => "uint"@,
        PodValueView::Ushort(_) => "ushort"@,
    }
}

/// The text under which a value is inserted.
pub open spec fn value_text(v: PodValueView) -> Seq<char> {
    match v {
        PodValueView::Handle(h) => handle_text(h),
        PodValueView::Unused => "unused"@,
        PodValueView::Text(t) => t,
        PodValueView::Ulong(n) => decimal(n as nat),
        PodValueView::Uint(n) => decimal(n as nat),
        PodValueView::Ushort(n) => decimal(n as nat),
    }
}

impl PodValue {
    /// The type tag of the insert operation for this value.
    pub fn tag(&self) -> (s: &'static str)
        ensures
            s@ == value_tag(self@),
    {
        match self {
            PodValue::Handle(_) => "cstr",
            PodValue::Unused => "cstr",
            PodValue::Text(_) => "cstr",
            PodValue::Ulong(_) => "ulong",
            PodValue::Uint(_) => "uint",
            PodValue::Ushort(_) => "ushort",
        }
    }

    /// The value as the insert operation takes it.
    pub fn render(&self) -> (s: String)
        ensures
            s@ == value_text(self@),
    {
        match self {
            PodValue::Handle(h) => h.render(),
            PodValue::Unused => String::from_str("unused"),
            PodValue::Text(t) => t.clone(),
            PodValue::Ulong(n) => render_decimal(*n),
            PodValue::Uint(n) => render_decimal(*n as u64),
            PodValue::Ushort(n) => render_decimal(*n as u64),
        }
    }

    /// An independent copy of the value.
    pub fn duplicate(&self) -> (v: PodValue)
        ensures
            v@ == self@,
    {
        match self {
            PodValue::Handle(h) => PodValue::Handle(h.duplicate()),
            PodValue::Unused => PodValue::Unused,
            PodValue::Text(t) => PodValue::Text(t.clone()),
            PodValue::Ulong(n) => PodValue::Ulong(*n),
            PodValue::Uint(n) => PodValue::Uint(*n),
            PodValue::Ushort(n) => PodValue::Ushort(*n),
        }
    }
}

/// One key of the pod with the value stored under it.
#[derive(Clone, Debug, PartialEq, Eq)]
pub struct PodEntry {
    pub key: PodKey,
    pub value: PodValue,
}

/// The mathematical value of a [`PodEntry`].
pub struct PodEntryView {
    pub key: PodKey,
    pub value: PodValueView,
}

impl View for PodEntry {
    type V = PodEntryView;

    open spec fn view(&self) -> PodEntryView {
        PodEntryView { key: self.key, value: self.value@ }
    }
}

impl PodEntry {
    /// An independent copy of the entry.
    pub fn duplicate(&self) -> (e: PodEntry)
        ensures
            e@ == self@,
    {
        PodEntry { key: self.key, value: self.value.duplicate() }
    }
}

/// The views of a sequence of entries.
pub open spec fn entry_views(v: Seq<PodEntry>) -> Seq<PodEntryView> {
    Seq::new(v.len(), |i: int| v[i]@)
}

/// The five words that insert one entry: the verb, the pod, the type tag, the key
/// and the value.
pub open spec fn insert_words(pod: HandleView, name: Seq<char>, e: PodEntryView) -> Seq<Seq<char>> {
    seq![
        "insert"@,
        handle_text(pod),
        value_tag(e.value),
        key_path(name, e.key),
        value_text(e.value),
    ]
}

/// The arguments of one pod-tool invocation that inserts `entries` in order.
pub open spec fn insert_arguments(
    pod: HandleView,
    name: Seq<char>,
    entries: Seq<PodEntryView>,
) -> Seq<Seq<char>>
    decreases entries.len(),
{
    if entries.len() == 0 {
        Seq::empty()
    } else {
        insert_arguments(pod, name, entries.drop_last()) + insert_words(pod, name, entries.last())
    }
}

/// Writes the arguments that insert `entries` into `pod`, in order.
pub fn render_insert(pod: &Handle, name: &str, entries: &Vec<PodEntry>) -> (args: Vec<String>)
    ensures
        texts(args@) == insert_arguments(pod@, name@, entry_views(entries@)),
{
    let mut args: Vec<String> = Vec::new();
    let mut i: usize = 0;
    let ghost all = entry_views(entries@);
    assert(all.take(0) =~= Seq::<PodEntryView>::empty());
    while i < entries.len()
        invariant
            i <= entries.len(),
            all == entry_views(entries@),
            texts(args@) == insert_arguments(pod@, name@, all.take(i as int)),
        decreases entries.len() - i,
    {
        let ghost before = texts(args@);
        let e = &entries[i];
        assert(all.take(i + 1).drop_last() =~= all.take(i as int));
        assert(all.take(i + 1).last() == e@);
        args.push(String::from_str("insert"));
        args.push(pod.render());
        args.push(String::from_str(e.value.tag()));
        args.push(e.key.path(name));
        args.push(e.value.render());
        assert(texts(args@) =~= before + insert_words(pod@, name@, e@));
        i += 1;
    }
    assert(all.take(entries.len() as int) =~= all);
    args
}

} // verus!
