//! What holds of every apply, stated over the model of [`crate::topology`].

use vstd::prelude::*;
use crate::command::{allocation, Primitive};
use crate::config::{Availability, OptionalTools};
use crate::handle::HandleView;
use crate::inspect::InspectionView;
use crate::paths::lemma_paths_tell_keys_apart;
use crate::pod::{key_path, lemma_slot_in_range, lemma_slot_injective, pod_size, value_text, InboundField, PackField, PodKey, PodValueView, QuicField};
use crate::pod::{DedupField, VerifyField};
use crate::topology::{action_of, allocation_index, result_of, transition, value_for, ActionView, ApplyErrorView, EventView, Model, Section, Step};

verus! {

/// The value published under `key`.
pub open spec fn published(m: Model, key: PodKey) -> PodValueView {
    m.entries[key.slot(m.tiles())].value
}

/// Whether `key` has been published.
pub open spec fn is_published(m: Model, key: PodKey) -> bool {
    key.declared(m.tiles()) && key.slot(m.tiles()) < m.entries.len()
}

/// After a finished apply the pod holds one entry for every key that the pipeline
/// declares, no entry for any other key, and no key twice.
pub proof fn lemma_finished_pod_is_exact(m: Model)
    requires
        m.wf(),
        m.step == Step::Done,
    ensures
        m.entries.len() == pod_size(m.tiles()),
        forall|key: PodKey| #[trigger]
            key.declared(m.tiles()) ==> is_published(m, key) && m.entries[key.slot(m.tiles())].key
                == key,
        forall|idx: int|
            0 <= idx < m.entries.len() ==> (#[trigger] m.entries[idx]).key.declared(m.tiles()),
        forall|a: int, b: int|
            0 <= a < b < m.entries.len() ==> (#[trigger] m.entries[a]).key != (
            #[trigger] m.entries[b]).key,
{
    let n = m.tiles();
    assert forall|key: PodKey| #[trigger] key.declared(n) implies is_published(m, key)
        && m.entries[key.slot(n)].key == key by {
        lemma_slot_in_range(key, n);
        lemma_slot_injective(m.entries[key.slot(n)].key, key, n);
    }
}

/// At every moment of an apply no key has been published twice.
pub proof fn lemma_keys_never_overwritten(m: Model, a: int, b: int)
    requires
        m.wf(),
        0 <= a < b < m.entries.len(),
    ensures
        m.entries[a].key != m.entries[b].key,
{
}

/// At every moment of an apply no two published entries are written under the same
/// path, so no insertion ever overwrites an earlier one.
pub proof fn lemma_paths_never_overwritten(m: Model, a: int, b: int)
    requires
        m.wf(),
        0 <= a < b < m.entries.len(),
    ensures
        key_path(m.config.name, m.entries[a].key) != key_path(m.config.name, m.entries[b].key),
{
    if key_path(m.config.name, m.entries[a].key) == key_path(m.config.name, m.entries[b].key) {
        lemma_paths_tell_keys_apart(m.config.name, m.entries[a].key, m.entries[b].key);
    }
}

/// Once a protocol-engine tile is published, its ring, payload store and counter are
/// the handles published for the inbound group of the verify tile of the same index.
pub proof fn lemma_engine_wired_to_verify(m: Model, tile: u32)
    requires
        m.wf(),
        is_published(m, PodKey::Quic(tile, QuicField::XskAio)),
    ensures
        is_published(m, PodKey::VerifyIn(tile, InboundField::Fseq)),
        published(m, PodKey::Quic(tile, QuicField::Mcache)) is Handle,
        published(m, PodKey::Quic(tile, QuicField::Dcache)) is Handle,
        published(m, PodKey::Quic(tile, QuicField::Fseq)) is Handle,
        published(m, PodKey::Quic(tile, QuicField::Mcache)) == published(
            m,
            PodKey::VerifyIn(tile, InboundField::Mcache),
        ),
        published(m, PodKey::Quic(tile, QuicField::Dcache)) == published(
            m,
            PodKey::VerifyIn(tile, InboundField::Dcache),
        ),
        published(m, PodKey::Quic(tile, QuicField::Fseq)) == published(
            m,
            PodKey::VerifyIn(tile, InboundField::Fseq),
        ),
{
    let n = m.tiles();
    lemma_published_key(m, PodKey::Quic(tile, QuicField::Mcache));
    lemma_published_key(m, PodKey::Quic(tile, QuicField::Dcache));
    lemma_published_key(m, PodKey::Quic(tile, QuicField::Fseq));
    lemma_published_key(m, PodKey::VerifyIn(tile, InboundField::Mcache));
    lemma_published_key(m, PodKey::VerifyIn(tile, InboundField::Dcache));
    lemma_published_key(m, PodKey::VerifyIn(tile, InboundField::Fseq));
}

/// A published key is found at its slot, holding what the key calls for.
pub proof fn lemma_published_key(m: Model, key: PodKey)
    requires
        m.wf(),
        is_published(m, key),
    ensures
        m.entries[key.slot(m.tiles())].key == key,
        crate::topology::settled(
            m.config,
            m.tools,
            m.entries,
            m.addresses,
            m.mac,
            m.entries[key.slot(m.tiles())],
        ),
{
    let n = m.tiles();
    lemma_slot_in_range(key, n);
    lemma_slot_injective(m.entries[key.slot(n)].key, key, n);
}

/// The handle that an allocator answers with is staged for the key it was asked for,
/// and the handles staged before it stay where they are: what is published under a
/// key is the handle that was allocated for that key.
pub proof fn lemma_allocation_is_staged_for_its_key(m: Model, key: PodKey, h: HandleView)
    requires
        m.wf(),
        m.step == Step::Allocate(key),
    ensures
        transition(m, EventView::Allocated(h)) matches Ok(next) && value_for(next, key)
            == PodValueView::Handle(h) && (forall|earlier: PodKey|
            0 <= #[trigger] allocation_index(earlier, m.tools) < m.staged.len() ==> value_for(
                next,
                earlier,
            ) == value_for(m, earlier)),
{
}

/// The ring that feeds dedup is asked for with the depth of the verify tiles' receive
/// buffer, which is also the depth asked for the outbound ring of every verify tile.
pub proof fn lemma_dedup_ring_request(m: Model, tile: u32)
    ensures
        m.step == Step::Allocate(PodKey::Dedup(DedupField::Mcache)) ==> action_of(m) == Some(
            ActionView::Allocate {
                command: allocation(
                    m.config,
                    Primitive::Mcache { depth: m.config.verify.receive_buffer_size },
                ),
            },
        ),
        m.step == Step::Allocate(PodKey::Verify(tile, VerifyField::Mcache)) ==> action_of(m) == Some(
            ActionView::Allocate {
                command: allocation(
                    m.config,
                    Primitive::Mcache { depth: m.config.verify.receive_buffer_size },
                ),
            },
        ),
{
}

/// Two finished applies of pipelines with the same number of tiles have published the
/// same keys in the same order, whatever handles the allocators gave.
pub proof fn lemma_reapply_same_shape(a: Model, b: Model)
    requires
        a.wf(),
        b.wf(),
        a.step == Step::Done,
        b.step == Step::Done,
        a.tiles() == b.tiles(),
    ensures
        a.entries.len() == b.entries.len(),
        forall|idx: int| 0 <= idx < a.entries.len() ==> a.entries[idx].key == b.entries[idx].key,
{
    let n = a.tiles();
    assert forall|idx: int| 0 <= idx < a.entries.len() implies a.entries[idx].key
        == b.entries[idx].key by {
        lemma_slot_injective(a.entries[idx].key, b.entries[idx].key, n);
    }
}

/// An apply carries nothing over from an earlier one: it begins with an empty pod,
/// and its first operation that allocates creates the pod anew.
pub proof fn lemma_apply_starts_afresh(m: Model)
    requires
        m.wf(),
        m.step == Step::Start,
    ensures
        m.entries.len() == 0,
        m.staged.len() == 0,
        transition(m, EventView::Begin) matches Ok(next) && (next.step == Step::EnterNamespace
            || next.step == Step::CreatePod),
{
}

/// Whether the step belongs to the protocol-engine stage.
pub open spec fn is_engine_step(step: Step) -> bool {
    match step {
        Step::Allocate(PodKey::Quic(_, _)) => true,
        Step::Bind(_) => true,
        Step::Publish(Section::Quic(_)) => true,
        Step::Publish(Section::QuicCfg) => true,
        _ => false,
    }
}

/// An inspection that finds no address aborts the apply on the spot. Nothing of the
/// protocol-engine stage has been allocated or published by then, and an aborted
/// apply asks for nothing more.
pub proof fn lemma_no_address_aborts_before_engine(m: Model, found: InspectionView, later: EventView)
    requires
        m.wf(),
        m.step == Step::Inspect,
        found.addresses.len() == 0,
    ensures
        transition(m, EventView::Inspected(found)) == Err::<Model, ApplyErrorView>(
            ApplyErrorView::NoAddresses,
        ),
        m.staged.len() == 0,
        forall|idx: int|
            0 <= idx < m.entries.len() ==> !((#[trigger] m.entries[idx]).key is Quic)
                && !(m.entries[idx].key is QuicCfg),
        m.aborted().step == Step::Failed,
        action_of(m.aborted()) is None,
        transition(m.aborted(), later) == Err::<Model, ApplyErrorView>(ApplyErrorView::NotRunning),
{
}

/// The protocol-engine stage is only ever entered with at least one address and the
/// link-layer address known.
pub proof fn lemma_engine_has_address(m: Model)
    requires
        m.wf(),
        is_engine_step(m.step) || m.step == Step::Done,
    ensures
        m.addresses.len() >= 1,
        m.mac is Some,
{
}

/// The listener steps come before every protocol-engine step, and only after an
/// inspection that found an address.
pub proof fn lemma_listeners_follow_inspection(m: Model, found: InspectionView)
    requires
        m.wf(),
        m.step == Step::Inspect,
        found.addresses.len() > 0,
    ensures
        transition(m, EventView::Inspected(found)) matches Ok(next) && next.step == Step::Listen(0)
            && next.addresses == found.addresses && next.mac == found.mac,
{
}

/// Where the pack tool is not installed, the scratch region and the estimator table
/// are published as the sentinel, which is written `unused`.
pub proof fn lemma_absent_pack_tool_publishes_unused(m: Model)
    requires
        m.wf(),
        m.tools.pack == Availability::Unavailable,
        is_published(m, PodKey::Pack(PackField::CuEstTbl)),
    ensures
        published(m, PodKey::Pack(PackField::Scratch)) == PodValueView::Unused,
        published(m, PodKey::Pack(PackField::CuEstTbl)) == PodValueView::Unused,
        value_text(PodValueView::Unused) == "unused"@,
{
    lemma_published_key(m, PodKey::Pack(PackField::Scratch));
    lemma_published_key(m, PodKey::Pack(PackField::CuEstTbl));
}

/// Where the protocol-engine tool is not installed, the engine object of every
/// published tile is the sentinel.
pub proof fn lemma_absent_quic_tool_publishes_unused(m: Model, tile: u32)
    requires
        m.wf(),
        m.tools.quic == Availability::Unavailable,
        is_published(m, PodKey::Quic(tile, QuicField::Quic)),
    ensures
        published(m, PodKey::Quic(tile, QuicField::Quic)) == PodValueView::Unused,
{
    lemma_published_key(m, PodKey::Quic(tile, QuicField::Quic));
}

/// Where a tool is installed, what it allocates is published as a handle.
pub proof fn lemma_present_tools_publish_handles(m: Model, tile: u32)
    requires
        m.wf(),
    ensures
        m.tools.pack == Availability::Available && is_published(m, PodKey::Pack(PackField::CuEstTbl))
            ==> published(m, PodKey::Pack(PackField::Scratch)) is Handle && published(
            m,
            PodKey::Pack(PackField::CuEstTbl),
        ) is Handle,
        m.tools.quic == Availability::Available && is_published(
            m,
            PodKey::Quic(tile, QuicField::Quic),
        ) ==> published(m, PodKey::Quic(tile, QuicField::Quic)) is Handle,
{
    if is_published(m, PodKey::Pack(PackField::CuEstTbl)) {
        lemma_published_key(m, PodKey::Pack(PackField::Scratch));
        lemma_published_key(m, PodKey::Pack(PackField::CuEstTbl));
    }
    if is_published(m, PodKey::Quic(tile, QuicField::Quic)) {
        lemma_published_key(m, PodKey::Quic(tile, QuicField::Quic));
    }
}

/// Whether a report is accepted does not depend on which optional tools are
/// installed: a missing tool never turns a turn of the apply into an error.
pub proof fn lemma_missing_tool_is_no_error(m: Model, tools: OptionalTools, e: EventView)
    ensures
        transition(m, e) is Ok <==> transition(Model { tools, ..m }, e) is Ok,
{
}

/// The result of a finished apply keeps the addresses in the inspector's order, and
/// names the pod and the pipeline's liveness block by the ids of their handles.
pub proof fn lemma_result_keeps_order(m: Model, found: InspectionView)
    requires
        m.wf(),
        m.step == Step::Inspect,
        found.addresses.len() > 0,
    ensures
        transition(m, EventView::Inspected(found)) matches Ok(next) && result_of(
            next,
        ).listen_addresses == found.addresses,
{
}

/// The result of a finished apply names the pod and the pipeline's liveness block by
/// the ids of the handles that were allocated for them.
pub proof fn lemma_result_names_handles(m: Model)
    requires
        m.wf(),
        m.step == Step::Done,
    ensures
        m.pod matches Some(pod) && result_of(m).pod == pod.id,
        published(m, PodKey::MainCnc) matches PodValueView::Handle(h) && result_of(m).main_cnc
            == h.id,
        m.mac == Some(result_of(m).src_mac_address),
        result_of(m).listen_addresses == m.addresses,
{
    lemma_published_key(m, PodKey::MainCnc);
}

} // verus!
