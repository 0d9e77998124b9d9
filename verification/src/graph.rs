//! The graph layer: pass kinds and the capability every pass exposes.

use vstd::prelude::*;

use crate::effect;
use crate::object::Id;
use crate::pipeline::PipelineType;

verus! {

/// What a pass is, independent of how it is implemented.
pub trait Graph {
    spec fn spec_pass_type(&self) -> Id;

    spec fn spec_pipeline_type(&self) -> PipelineType;

    fn get_pass_type(&self) -> (r: Id)
        ensures
            r == self.spec_pass_type(),
    ;

    fn get_pipeline_type(&self) -> (r: PipelineType)
        ensures
            r == self.spec_pipeline_type(),
    ;
}

/// The built-in pass kinds.
#[derive(Clone, Copy, PartialEq, Eq, Structural, Debug)]
pub enum PassType {
    DeferredPbr,
    DirectionalShadowAccumulator,
    GBufferFiller,
    ShadowMapper,
    Ssao,
    TransparentPbr,
    Unlit,
}

/// Pass ids below this are reserved; user pass ids start here.
pub const USER_STARTING_TYPE_ID: Id = 1024;

impl Graph for effect::Base {
    open spec fn spec_pass_type(&self) -> Id {
        self.base.spec_node_id()
    }

    open spec fn spec_pipeline_type(&self) -> PipelineType {
        self.shared_data.pipeline.pipeline_type
    }

    fn get_pass_type(&self) -> (r: Id) {
        self.base.get_node_id()
    }

    fn get_pipeline_type(&self) -> (r: PipelineType) {
        self.shared_data.pipeline.pipeline_type
    }
}

} // verus!
