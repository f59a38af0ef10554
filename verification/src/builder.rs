//! The fluent pass-composition builder.
//!
//! [`SimpleComputePass`] accumulates a sequence of `read`/`read_aspect`/
//! `write` registrations against one pass and finishes with `dispatch`,
//! which records the pass's compute command. The ordering contract is the
//! point: the n-th registration call binds descriptor slot n, for every
//! combination of resource kinds. The builder carries a ghost log of its
//! calls, and its invariant says the accumulated binding list is exactly
//! [`slots_of`] that log — which is what makes the slot assignment a
//! function of the call sequence alone.

use vstd::prelude::*;

use crate::desc::{AccessType, AspectMask};
use crate::graph::{
    pass_declared, pipeline_added_compute, same_pipelines, same_resources, AccessRef,
    ComputePipelineHandle, DescriptorSetBinding, GraphModel, Handle, handle_valid, Image, PassBody,
    PassBuilder, RenderGraph, RenderPassBinding, ResKind, Resource,
};

verus! {

/// One registration call against the builder, as recorded in its ghost log.
pub ghost enum BuilderCall {
    Read { kind: ResKind, id: usize },
    ReadAspect { id: usize, aspect: AspectMask },
    Write { kind: ResKind, id: usize },
}

impl BuilderCall {
    /// The access the call declares against the graph.
    pub open spec fn access_ref(self) -> AccessRef {
        match self {
            BuilderCall::Read { kind, id } => AccessRef {
                kind,
                id,
                access: AccessType::ComputeShaderReadSampledImageOrUniformTexelBuffer,
            },
            BuilderCall::ReadAspect { id, aspect } => AccessRef {
                kind: ResKind::Image,
                id,
                access: AccessType::ComputeShaderReadSampledImageOrUniformTexelBuffer,
            },
            BuilderCall::Write { kind, id } => AccessRef {
                kind,
                id,
                access: AccessType::ComputeShaderWrite,
            },
        }
    }

    /// The descriptor binding the call contributes.
    pub open spec fn binding(self) -> RenderPassBinding {
        match self {
            BuilderCall::ReadAspect { id, aspect } => RenderPassBinding {
                target: self.access_ref(),
                aspect: Some(aspect),
            },
            _ => RenderPassBinding { target: self.access_ref(), aspect: None },
        }
    }
}

/// The descriptor-slot assignment determined by a call sequence: slot n is
/// the binding of call n.
pub open spec fn slots_of(calls: Seq<BuilderCall>) -> Seq<RenderPassBinding> {
    calls.map_values(|c: BuilderCall| c.binding())
}

/// Extending the call sequence by one call appends that call's binding.
pub proof fn lemma_slots_of_push(calls: Seq<BuilderCall>, c: BuilderCall)
    ensures
        slots_of(calls.push(c)) == slots_of(calls).push(c.binding()),
{
    assert(slots_of(calls.push(c)) =~= slots_of(calls).push(c.binding()));
}

/// A compute pass under composition: the pass being built, its pipeline,
/// and the bindings accumulated so far, in registration order.
pub struct SimpleComputePass {
    pub pass: PassBuilder,
    pub pipeline: ComputePipelineHandle,
    pub bindings: Vec<RenderPassBinding>,
    pub calls: Ghost<Seq<BuilderCall>>,
}

impl SimpleComputePass {
    /// The builder targets a live, unrecorded pass and its binding list is
    /// exactly the slot assignment of its call log.
    pub open spec fn wf(self, g: GraphModel) -> bool {
        &&& self.pass.wf(g)
        &&& self.bindings@ == slots_of(self.calls@)
    }

    /// Starts composing: registers the compute pipeline for `pipeline_path`
    /// and begins with an empty binding list.
    pub fn new(pass: PassBuilder, rg: &mut RenderGraph, pipeline_path: &str) -> (s:
        SimpleComputePass)
        requires
            pass.wf(old(rg)@),
        ensures
            s.pass == pass,
            s.calls@ =~= Seq::<BuilderCall>::empty(),
            s.pipeline.idx == old(rg)@.pipelines.len(),
            s.wf(final(rg)@),
            pipeline_added_compute(old(rg)@, final(rg)@, pipeline_path@),
            same_resources(old(rg)@, final(rg)@),
            crate::graph::same_passes(old(rg)@, final(rg)@),
    {
        let pipeline = pass.register_compute_pipeline(rg, pipeline_path);
        let s = SimpleComputePass {
            pass,
            pipeline,
            bindings: Vec::new(),
            calls: Ghost(Seq::empty()),
        };
        proof {
            assert(s.bindings@ =~= slots_of(s.calls@));
        }
        s
    }

    /// Registers a read of `handle` and appends it to the binding list:
    /// this call's position is its descriptor slot.
    pub fn read<Res: Resource>(self, rg: &mut RenderGraph, handle: &Handle<Res>) -> (s:
        SimpleComputePass)
        requires
            self.wf(old(rg)@),
            handle_valid::<Res>(old(rg)@, *handle),
        ensures
            s.pass == self.pass,
            s.pipeline == self.pipeline,
            s.calls@ == self.calls@.push(BuilderCall::Read { kind: Res::kind(), id: handle.id }),
            s.wf(final(rg)@),
            pass_declared(
                old(rg)@,
                final(rg)@,
                self.pass.pass_index as int,
                (BuilderCall::Read { kind: Res::kind(), id: handle.id }).access_ref(),
            ),
            same_resources(old(rg)@, final(rg)@),
            same_pipelines(old(rg)@, final(rg)@),
    {
        let mut s = self;
        let handle_ref = s.pass.read(
            rg,
            handle,
            AccessType::ComputeShaderReadSampledImageOrUniformTexelBuffer,
        );
        s.bindings.push(handle_ref.bind());
        proof {
            let c = BuilderCall::Read { kind: Res::kind(), id: handle.id };
            lemma_slots_of_push(s.calls@, c);
            s.calls@ = s.calls@.push(c);
        }
        s
    }

    /// Registers a read of an image restricted to the given aspect (for
    /// example the depth plane of a depth-stencil target) and appends it to
    /// the binding list.
    pub fn read_aspect(self, rg: &mut RenderGraph, handle: &Handle<Image>, aspect_mask: AspectMask)
        -> (s: SimpleComputePass)
        requires
            self.wf(old(rg)@),
            handle_valid::<Image>(old(rg)@, *handle),
        ensures
            s.pass == self.pass,
            s.pipeline == self.pipeline,
            s.calls@ == self.calls@.push(
                BuilderCall::ReadAspect { id: handle.id, aspect: aspect_mask },
            ),
            s.wf(final(rg)@),
            pass_declared(
                old(rg)@,
                final(rg)@,
                self.pass.pass_index as int,
                (BuilderCall::ReadAspect { id: handle.id, aspect: aspect_mask }).access_ref(),
            ),
            same_resources(old(rg)@, final(rg)@),
            same_pipelines(old(rg)@, final(rg)@),
    {
        let mut s = self;
        let handle_ref = s.pass.read(
            rg,
            handle,
            AccessType::ComputeShaderReadSampledImageOrUniformTexelBuffer,
        );
        s.bindings.push(handle_ref.bind_view(aspect_mask));
        proof {
            let c = BuilderCall::ReadAspect { id: handle.id, aspect: aspect_mask };
            lemma_slots_of_push(s.calls@, c);
            s.calls@ = s.calls@.push(c);
        }
        s
    }

    /// Registers a storage write of `handle` and appends it to the binding
    /// list.
    pub fn write<Res: Resource>(self, rg: &mut RenderGraph, handle: &mut Handle<Res>) -> (s:
        SimpleComputePass)
        requires
            self.wf(old(rg)@),
            handle_valid::<Res>(old(rg)@, *old(handle)),
        ensures
            *final(handle) == *old(handle),
            s.pass == self.pass,
            s.pipeline == self.pipeline,
            s.calls@ == self.calls@.push(
                BuilderCall::Write { kind: Res::kind(), id: old(handle).id },
            ),
            s.wf(final(rg)@),
            pass_declared(
                old(rg)@,
                final(rg)@,
                self.pass.pass_index as int,
                (BuilderCall::Write { kind: Res::kind(), id: old(handle).id }).access_ref(),
            ),
            same_resources(old(rg)@, final(rg)@),
            same_pipelines(old(rg)@, final(rg)@),
    {
        let mut s = self;
        let handle_ref = s.pass.write(rg, handle, AccessType::ComputeShaderWrite);
        s.bindings.push(handle_ref.bind());
        proof {
            let c = BuilderCall::Write { kind: Res::kind(), id: handle.id };
            lemma_slots_of_push(s.calls@, c);
            s.calls@ = s.calls@.push(c);
        }
        s
    }

    /// Finalizes the pass: captures the pipeline and the accumulated
    /// binding list by value into one recorded command, dispatching over
    /// `extent`, bound as descriptor set 0 in registration order.
    pub fn dispatch(self, rg: &mut RenderGraph, extent: [u32; 3])
        requires
            self.wf(old(rg)@),
        ensures
            dispatch_recorded(
                old(rg)@,
                final(rg)@,
                self.pass.pass_index as int,
                self.pipeline,
                slots_of(self.calls@),
                extent@,
            ),
            same_resources(old(rg)@, final(rg)@),
            same_pipelines(old(rg)@, final(rg)@),
    {
        let mut sets: Vec<DescriptorSetBinding> = Vec::new();
        sets.push(DescriptorSetBinding::Slots { set_index: 0, bindings: self.bindings });
        self.pass.render(
            rg,
            PassBody::Compute { pipeline: self.pipeline, sets, extent },
        );
    }
}

/// Pass `i` recorded a compute command dispatching `extent`, whose only
/// composed descriptor set is set 0 with exactly `slots`, in order; nothing
/// else about the pass queue changed.
pub open spec fn dispatch_recorded(
    pre: GraphModel,
    post: GraphModel,
    i: int,
    pipeline: ComputePipelineHandle,
    slots: Seq<RenderPassBinding>,
    extent: Seq<u32>,
) -> bool {
    &&& 0 <= i < pre.passes.len()
    &&& post.passes.len() == pre.passes.len()
    &&& (forall|j: int| 0 <= j < pre.passes.len() && j != i ==> post.passes[j] == pre.passes[j])
    &&& post.passes[i].declarations == pre.passes[i].declarations
    &&& post.passes[i].body matches Some(PassBody::Compute { pipeline: p, sets, extent: e })
        && p == pipeline && e@ == extent && sets@.len() == 1 && (sets@[0] matches
    DescriptorSetBinding::Slots { set_index, bindings } && set_index == 0 && bindings@ == slots)
}

} // verus!
