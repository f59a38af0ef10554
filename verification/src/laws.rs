//! The library's cross-cutting guarantees, stated and proved once.
//!
//! Each law is phrased over the same spec functions the operational
//! contracts use, so what is proved here is about the code as specified,
//! not a parallel story: the bracket steps are exactly the phases that
//! [`crate::graph::RenderGraph::import_temporal`], `export_temporal` and
//! `retire_temporal` require and ensure; the frame actions are exactly the
//! shapes that `import_temporal` and `write_buffer` ensure; the slot
//! assignment is the one the builder's invariant carries.

use vstd::prelude::*;

use crate::builder::{slots_of, BuilderCall};
use crate::desc::{with_format, Format, ImageDesc};
use crate::graph::{written, GraphModel, RenderPassBinding};
use crate::temporal::TemporalPhase;

verus! {

/// One step of a temporal resource's frame lifecycle.
pub ghost enum TemporalOp {
    Begin,
    End,
    Retire,
}

/// The lifecycle's transition function: exactly the phases the import,
/// export and retire contracts require and ensure. `None` is a contract
/// violation, which the operations exclude by precondition.
pub open spec fn bracket_step(p: TemporalPhase, op: TemporalOp) -> Option<TemporalPhase> {
    match (p, op) {
        (TemporalPhase::Resident, TemporalOp::Begin) => Some(TemporalPhase::Lent),
        (TemporalPhase::Lent, TemporalOp::End) => Some(TemporalPhase::Returned),
        (TemporalPhase::Returned, TemporalOp::Retire) => Some(TemporalPhase::Resident),
        _ => None,
    }
}

/// Runs a sequence of lifecycle steps; `None` as soon as any step is a
/// violation.
pub open spec fn bracket_run(p: TemporalPhase, ops: Seq<TemporalOp>) -> Option<TemporalPhase>
    decreases ops.len(),
{
    if ops.len() == 0 {
        Some(p)
    } else {
        match bracket_run(p, ops.drop_last()) {
            Some(q) => bracket_step(q, ops.last()),
            None => None,
        }
    }
}

/// How many times `op` occurs in `ops`.
pub open spec fn count_op(ops: Seq<TemporalOp>, op: TemporalOp) -> int
    decreases ops.len(),
{
    if ops.len() == 0 {
        0
    } else {
        count_op(ops.drop_last(), op) + (if ops.last() == op {
            1int
        } else {
            0
        })
    }
}

/// The phase of a resource determines the balance of its lifecycle
/// counters: begins and ends are equal exactly when the resource is not
/// lent out, and ends and retires are equal exactly when no bracket awaits
/// its retire.
pub proof fn lemma_bracket_counts(ops: Seq<TemporalOp>)
    requires
        bracket_run(TemporalPhase::Resident, ops) is Some,
    ensures
        match bracket_run(TemporalPhase::Resident, ops) {
            Some(TemporalPhase::Resident) => count_op(ops, TemporalOp::Begin) == count_op(
                ops,
                TemporalOp::End,
            ) && count_op(ops, TemporalOp::End) == count_op(ops, TemporalOp::Retire),
            Some(TemporalPhase::Lent) => count_op(ops, TemporalOp::Begin) == count_op(
                ops,
                TemporalOp::End,
            ) + 1 && count_op(ops, TemporalOp::End) == count_op(ops, TemporalOp::Retire),
            Some(TemporalPhase::Returned) => count_op(ops, TemporalOp::Begin) == count_op(
                ops,
                TemporalOp::End,
            ) && count_op(ops, TemporalOp::End) == count_op(ops, TemporalOp::Retire) + 1,
            None => false,
        },
    decreases ops.len(),
{
    if ops.len() > 0 {
        lemma_bracket_counts(ops.drop_last());
    }
}

/// A valid lifecycle trace stays valid when cut short.
pub proof fn lemma_bracket_prefix(ops: Seq<TemporalOp>, k: int)
    requires
        bracket_run(TemporalPhase::Resident, ops) is Some,
        0 <= k <= ops.len(),
    ensures
        bracket_run(TemporalPhase::Resident, ops.take(k)) is Some,
    decreases ops.len() - k,
{
    if k == ops.len() {
        assert(ops.take(k) =~= ops);
    } else {
        lemma_bracket_prefix(ops, k + 1);
        assert(ops.take(k + 1).drop_last() =~= ops.take(k));
    }
}

/// Bracket pairing: in every prefix of a lifecycle trace the contracts
/// accept from a resident resource, `begin` has occurred at most once more
/// than `end` — a second begin is only reachable after the matching end —
/// and `end` never outruns `begin`: each end closes exactly one bracket.
pub proof fn lemma_bracket_pairing(ops: Seq<TemporalOp>, k: int)
    requires
        bracket_run(TemporalPhase::Resident, ops) is Some,
        0 <= k <= ops.len(),
    ensures
        count_op(ops.take(k), TemporalOp::End) <= count_op(ops.take(k), TemporalOp::Begin),
        count_op(ops.take(k), TemporalOp::Begin) <= count_op(ops.take(k), TemporalOp::End) + 1,
        count_op(ops.take(k), TemporalOp::Begin) == count_op(ops.take(k), TemporalOp::End) + 1
            <==> bracket_run(TemporalPhase::Resident, ops.take(k)) == Some(TemporalPhase::Lent),
{
    lemma_bracket_prefix(ops, k);
    lemma_bracket_counts(ops.take(k));
}

/// What one frame does to the graph's buffer contents, as far as bytes are
/// concerned: a write through a write-mode access token (the shape
/// `write_buffer` ensures), or an import appending a lent resource's bytes
/// (the shape `import_temporal` ensures). Declarations, pipeline
/// registrations and recorded commands leave contents untouched.
pub ghost enum FrameAction {
    Write { id: int, offset: int, bytes: Seq<u8> },
    Import { data: Seq<u8> },
}

impl FrameAction {
    /// Whether the action writes buffer `id`.
    pub open spec fn touches(self, id: int) -> bool {
        self matches FrameAction::Write { id: wid, .. } && wid == id
    }
}

/// One action applied to the frame's buffer contents.
pub open spec fn apply_action(bufs: Seq<Seq<u8>>, a: FrameAction) -> Seq<Seq<u8>> {
    match a {
        FrameAction::Write { id, offset, bytes } => if 0 <= id < bufs.len() {
            bufs.update(id, written(bufs[id], offset, bytes))
        } else {
            bufs
        },
        FrameAction::Import { data } => bufs.push(data),
    }
}

/// A frame's actions applied in order.
pub open spec fn apply_actions(bufs: Seq<Seq<u8>>, actions: Seq<FrameAction>) -> Seq<Seq<u8>>
    decreases actions.len(),
{
    if actions.len() == 0 {
        bufs
    } else {
        apply_action(apply_actions(bufs, actions.drop_last()), actions.last())
    }
}

/// The byte contents of every frame-local buffer.
pub open spec fn buf_datas(g: GraphModel) -> Seq<Seq<u8>> {
    g.buffers.map_values(|s: crate::graph::BufferSlot| s.data@)
}

/// Persistence idempotence: a buffer that no action of the frame writes
/// holds exactly its original bytes when the frame ends. Since import hands
/// a temporal resource's bytes to the slot verbatim and export hands the
/// slot's bytes back verbatim, a temporal resource with no writers in frame
/// k shows the same content at its next begin, in frame k+1, as at the end
/// of frame k.
pub proof fn lemma_persistence_pass_through(
    bufs: Seq<Seq<u8>>,
    actions: Seq<FrameAction>,
    id: int,
)
    requires
        0 <= id < bufs.len(),
        forall|k: int| 0 <= k < actions.len() ==> !(#[trigger] actions[k]).touches(id),
    ensures
        apply_actions(bufs, actions).len() >= bufs.len(),
        apply_actions(bufs, actions)[id] == bufs[id],
    decreases actions.len(),
{
    if actions.len() > 0 {
        assert forall|k: int|
            0 <= k < actions.len() - 1 implies !(#[trigger] actions.drop_last()[k]).touches(
            id,
        ) by {
            assert(actions.drop_last()[k] == actions[k]);
        }
        lemma_persistence_pass_through(bufs, actions.drop_last(), id);
        assert(!actions[actions.len() - 1].touches(id));
    }
}

/// One write through a write-mode access token changes the frame's buffer
/// contents exactly as one `Write` action does: the shape `write_buffer`
/// ensures is the action semantics.
pub proof fn lemma_write_is_action(
    pre: GraphModel,
    post: GraphModel,
    id: int,
    offset: int,
    bytes: Seq<u8>,
)
    requires
        0 <= id < pre.buffers.len(),
        post.buffers.len() == pre.buffers.len(),
        forall|j: int|
            0 <= j < pre.buffers.len() && j != id ==> post.buffers[j] == pre.buffers[j],
        post.buffers[id].data@ == written(pre.buffers[id].data@, offset, bytes),
    ensures
        buf_datas(post) == apply_action(buf_datas(pre), FrameAction::Write { id, offset, bytes }),
{
    assert(buf_datas(post) =~= apply_action(
        buf_datas(pre),
        FrameAction::Write { id, offset, bytes },
    ));
}

/// One import extends the frame's buffer contents exactly as one `Import`
/// action does: the shape `import_temporal` ensures is the action
/// semantics.
pub proof fn lemma_import_is_action(pre: GraphModel, post: GraphModel, data: Seq<u8>)
    requires
        post.buffers.len() == pre.buffers.len() + 1,
        forall|j: int| 0 <= j < pre.buffers.len() ==> post.buffers[j] == pre.buffers[j],
        post.buffers.last().data@ == data,
    ensures
        buf_datas(post) == apply_action(buf_datas(pre), FrameAction::Import { data }),
{
    assert(buf_datas(post) =~= apply_action(buf_datas(pre), FrameAction::Import { data }));
}

/// Binding order determinism: the descriptor-slot assignment is a function
/// of the call sequence alone. Two builder runs over the same sequence of
/// `read`/`read_aspect`/`write` calls produce the same slot list, whatever
/// resource kinds the calls mix, and slot n is always the n-th call's
/// binding.
pub proof fn lemma_binding_order_determinism(
    calls: Seq<BuilderCall>,
    a: Seq<RenderPassBinding>,
    b: Seq<RenderPassBinding>,
)
    requires
        a == slots_of(calls),
        b == slots_of(calls),
    ensures
        a == b,
        a.len() == calls.len(),
        forall|n: int| 0 <= n < calls.len() ==> a[n] == (#[trigger] calls[n]).binding(),
{
}

/// Derived-resource sizing: an output derived as "same extent, different
/// format" from an input of extent (w, h, d) has extent exactly (w, h, d)
/// and exactly the requested format — and the input's own format plays no
/// part: inputs that agree on extent derive the same description.
pub proof fn lemma_derived_resource_sizing(d1: ImageDesc, d2: ImageDesc, f: Format)
    ensures
        with_format(d1, f).extent == d1.extent,
        with_format(d1, f).format == f,
        d1.extent == d2.extent ==> with_format(d1, f) == with_format(d2, f),
{
}

} // verus!
