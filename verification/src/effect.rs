//! The generic single-pass node: N typed inputs, M typed image outputs,
//! one pipeline, one small uniform.
//!
//! A value of `Base` is both a template and an instance: `create_new`
//! clones a fresh instance from it. The shared data (produced images,
//! render pass, framebuffer, pipeline) is built once and reused by every
//! instance; the render data (command buffers, semaphores, uniform
//! storage) is cloned fresh per instance, one record per frame in flight.

use vstd::prelude::*;

use crate::error::Error;
use crate::gapi::Engine;
use crate::image::{AttachmentType, Format, View as ImageView};
use crate::node;
use crate::object::Id;
use crate::pipeline;
use crate::pipeline::{Pipeline, PipelineType};

verus! {

/// Creating one frame-in-flight record costs at most this many handles
/// (two fixed handles plus one secondary buffer per worker slot, with the
/// worker count capped at 100000).
pub const FRAME_HANDLE_COST: u64 = 100002;

/// Declares one produced image: its size and format, and the output link
/// it is published on.
pub struct BufferInfo {
    pub width: usize,
    pub height: usize,
    pub format: Format,
    pub id: Id,
    pub name: String,
}

/// Declares one consumed input link.
pub struct InputInfo {
    pub id: Id,
    pub name: String,
}

/// What one worker recorded into its secondary command buffer for one
/// frame: the pipeline it bound and the input resources it read.
pub struct RecordedPass {
    pub pipeline: u64,
    pub framebuffer: u64,
    pub inputs: Vec<u64>,
}

/// Per-worker slice of a frame record: the worker's secondary command
/// buffer, its scratch object counter, and what it recorded last.
pub struct KernelData {
    pub sec_cmd: u64,
    pub objects_count: usize,
    pub recorded: Option<RecordedPass>,
}

/// Per-frame-in-flight record of one node instance.
pub struct FrameData {
    pub pri_cmd: u64,
    pub semaphore: u64,
    pub descriptor_set: Option<u64>,
    /// When set, the descriptor set no longer matches the bound inputs and
    /// is rebuilt lazily by the next `record`.
    pub input_textures_changed: bool,
    pub kernels_data: Vec<KernelData>,
}

impl FrameData {
    /// The handle is one of the GPU objects owned by this record.
    pub open spec fn contains_handle(self, h: u64) -> bool {
        ||| self.pri_cmd == h
        ||| self.semaphore == h
        ||| self.descriptor_set == Some(h)
        ||| exists|k: int|
            0 <= k < self.kernels_data@.len() && self.kernels_data@[k].sec_cmd == h
    }

    /// Every GPU object owned by this record was allocated inside
    /// `[lo, hi)`.
    pub open spec fn in_range(self, lo: int, hi: int) -> bool {
        forall|h: u64| self.contains_handle(h) ==> lo <= h < hi
    }

    /// Nothing recorded yet, no descriptor set built yet.
    pub open spec fn pristine(self) -> bool {
        &&& self.descriptor_set is None
        &&& !self.input_textures_changed
        &&& forall|k: int|
            0 <= k < self.kernels_data@.len() ==> (#[trigger] self.kernels_data@[k].recorded)
                is None && self.kernels_data@[k].objects_count == 0
    }

    /// One primary command buffer and semaphore, plus one secondary
    /// command buffer per worker slot. A single worker slot records from
    /// the main pool; several record each from their own worker's pool.
    pub fn new(eng: &mut Engine, sec_count: usize) -> (r: Self)
        requires
            1 <= sec_count <= 100000,
            sec_count > 1 ==> sec_count <= old(eng).spec_kernels_data().len(),
            old(eng).spec_next_handle() + FRAME_HANDLE_COST <= u64::MAX,
        ensures
            r.kernels_data@.len() == sec_count,
            r.pristine(),
            r.in_range(
                old(eng).spec_next_handle() as int,
                final(eng).spec_next_handle() as int,
            ),
            Engine::static_state_eq(*old(eng), *final(eng)),
            final(eng).spec_current_frame() == old(eng).spec_current_frame(),
            final(eng).spec_actions() == old(eng).spec_actions(),
            final(eng).spec_next_handle() == old(eng).spec_next_handle() + 2 + sec_count,
    {
        let ghost lo = eng.spec_next_handle() as int;
        let pri_cmd = eng.create_primary_command_buffer_from_main_graphic_pool();
        let semaphore = eng.create_semaphore();
        let mut kernels_data: Vec<KernelData> = Vec::new();
        let mut k: usize = 0;
        while k < sec_count
            invariant
                k <= sec_count,
                1 <= sec_count <= 100000,
                sec_count > 1 ==> sec_count <= eng.spec_kernels_data().len(),
                kernels_data@.len() == k,
                eng.spec_next_handle() == lo + 2 + k,
                lo + 2 + sec_count <= u64::MAX,
                forall|j: int|
                    0 <= j < k ==> lo + 2 <= #[trigger] kernels_data@[j].sec_cmd < lo + 2 + k,
                forall|j: int|
                    0 <= j < k ==> (#[trigger] kernels_data@[j].recorded) is None
                        && kernels_data@[j].objects_count == 0,
                Engine::static_state_eq(*old(eng), *eng),
                eng.spec_current_frame() == old(eng).spec_current_frame(),
                eng.spec_actions() == old(eng).spec_actions(),
            decreases sec_count - k,
        {
            let sec_cmd = if sec_count == 1 {
                eng.create_secondary_command_buffer_from_main_graphic_pool()
            } else {
                eng.create_secondary_command_buffer(k)
            };
            kernels_data.push(KernelData { sec_cmd, objects_count: 0, recorded: None });
            k = k + 1;
        }
        let r = FrameData {
            pri_cmd,
            semaphore,
            descriptor_set: None,
            input_textures_changed: false,
            kernels_data,
        };
        proof {
            assert forall|h: u64| r.contains_handle(h) implies lo <= h < eng.spec_next_handle() by {
                if r.pri_cmd == h || r.semaphore == h {
                } else if r.descriptor_set == Some(h) {
                    assert(false);
                } else {
                    let kk = choose|kk: int|
                        0 <= kk < r.kernels_data@.len() && r.kernels_data@[kk].sec_cmd == h;
                    assert(lo + 2 <= r.kernels_data@[kk].sec_cmd < lo + 2 + sec_count);
                }
            }
        }
        r
    }
}

/// Per-instance render data: the frame records, the uniform value and its
/// GPU buffer, and the input resources wired in by provider bindings.
pub struct RenderData {
    pub frames_data: Vec<FrameData>,
    pub uniform: Vec<u8>,
    pub uniform_buffer: u64,
    pub input_textures: Vec<Option<u64>>,
}

impl RenderData {
    /// The handle is one of the GPU objects owned by this render data.
    /// Bound input textures are not owned: they belong to the provider.
    pub open spec fn contains_handle(self, h: u64) -> bool {
        ||| self.uniform_buffer == h
        ||| exists|f: int|
            0 <= f < self.frames_data@.len() && self.frames_data@[f].contains_handle(h)
    }

    /// Every owned GPU object was allocated inside `[lo, hi)`.
    pub open spec fn in_range(self, lo: int, hi: int) -> bool {
        forall|h: u64| self.contains_handle(h) ==> lo <= h < hi
    }

    /// Fresh render data: one frame record per frame in flight, all
    /// pristine, the given uniform value, and no input bound yet.
    pub open spec fn fresh_shape(
        self,
        frames_count: int,
        sec_count: int,
        uniform: Seq<u8>,
        inputs_count: int,
    ) -> bool {
        &&& self.frames_data@.len() == frames_count
        &&& forall|f: int|
            0 <= f < frames_count ==> (#[trigger] self.frames_data@[f]).kernels_data@.len()
                == sec_count
        &&& forall|f: int| 0 <= f < frames_count ==> (#[trigger] self.frames_data@[f]).pristine()
        &&& self.uniform@ == uniform
        &&& self.input_textures@.len() == inputs_count
        &&& forall|i: int|
            0 <= i < inputs_count ==> (#[trigger] self.input_textures@[i]) is None
    }

    /// Builds the render data of a fresh instance, sized to the engine's
    /// frame-in-flight count.
    pub fn new(eng: &mut Engine, sec_count: usize, uniform: Vec<u8>, inputs_count: usize) -> (r:
        Self)
        requires
            1 <= sec_count <= 100000,
            sec_count > 1 ==> sec_count <= old(eng).spec_kernels_data().len(),
            old(eng).spec_frames_data().len() <= 100000,
            inputs_count <= 100000,
            old(eng).spec_next_handle() + 0x300000000 <= u64::MAX,
        ensures
            r.fresh_shape(
                old(eng).spec_frames_data().len() as int,
                sec_count as int,
                uniform@,
                inputs_count as int,
            ),
            r.in_range(
                old(eng).spec_next_handle() as int,
                final(eng).spec_next_handle() as int,
            ),
            Engine::static_state_eq(*old(eng), *final(eng)),
            final(eng).spec_current_frame() == old(eng).spec_current_frame(),
            final(eng).spec_actions() == old(eng).spec_actions(),
            old(eng).spec_next_handle() < final(eng).spec_next_handle(),
            final(eng).spec_next_handle() <= old(eng).spec_next_handle() + 1 + 100002 * old(
                eng,
            ).spec_frames_data().len(),
    {
        let ghost lo = eng.spec_next_handle() as int;
        let frames_count = eng.get_frames_count();
        let mut frames_data: Vec<FrameData> = Vec::new();
        let mut f: usize = 0;
        while f < frames_count
            invariant
                f <= frames_count,
                frames_count <= 100000,
                1 <= sec_count <= 100000,
                sec_count > 1 ==> sec_count <= eng.spec_kernels_data().len(),
                frames_count == eng.spec_frames_data().len(),
                frames_data@.len() == f,
                lo <= eng.spec_next_handle(),
                eng.spec_next_handle() <= lo + 100002 * f,
                lo + 0x300000000 <= u64::MAX,
                forall|j: int|
                    0 <= j < f ==> (#[trigger] frames_data@[j]).in_range(
                        lo,
                        eng.spec_next_handle() as int,
                    ),
                forall|j: int|
                    0 <= j < f ==> (#[trigger] frames_data@[j]).kernels_data@.len() == sec_count,
                forall|j: int| 0 <= j < f ==> (#[trigger] frames_data@[j]).pristine(),
                Engine::static_state_eq(*old(eng), *eng),
                eng.spec_current_frame() == old(eng).spec_current_frame(),
                eng.spec_actions() == old(eng).spec_actions(),
            decreases frames_count - f,
        {
            let fd = FrameData::new(eng, sec_count);
            frames_data.push(fd);
            f = f + 1;
        }
        let uniform_buffer = eng.create_dynamic_buffer(uniform.len());
        let mut input_textures: Vec<Option<u64>> = Vec::new();
        let mut i: usize = 0;
        while i < inputs_count
            invariant
                i <= inputs_count,
                input_textures@.len() == i,
                forall|j: int| 0 <= j < i ==> (#[trigger] input_textures@[j]) is None,
            decreases inputs_count - i,
        {
            input_textures.push(None);
            i = i + 1;
        }
        let r = RenderData { frames_data, uniform, uniform_buffer, input_textures };
        proof {
            assert forall|h: u64| r.contains_handle(h) implies lo <= h < eng.spec_next_handle()
                as int by {
                if r.uniform_buffer == h {
                } else {
                    let ff = choose|ff: int|
                        0 <= ff < r.frames_data@.len() && r.frames_data@[ff].contains_handle(h);
                    assert(r.frames_data@[ff].in_range(lo, eng.spec_next_handle() as int - 1));
                }
            }
        }
        r
    }
}

/// An exact copy of a byte vector.
pub fn copy_bytes(src: &Vec<u8>) -> (r: Vec<u8>)
    ensures
        r@ == src@,
{
    let mut r: Vec<u8> = Vec::new();
    let n = src.len();
    let mut i: usize = 0;
    while i < n
        invariant
            i <= n,
            n == src@.len(),
            r@ =~= src@.subrange(0, i as int),
        decreases n - i,
    {
        r.push(src[i]);
        i = i + 1;
    }
    proof {
        assert(r@ =~= src@);
    }
    r
}

/// The immutable data every instance of one template shares: the produced
/// images' textures, the render pass and framebuffer, and the pipeline.
pub struct SharedData {
    pub textures: Vec<u64>,
    pub render_pass: u64,
    pub framebuffer: u64,
    pub pipeline: Pipeline,
}

/// The two shared-data records name the same GPU objects.
pub open spec fn shared_eq(a: SharedData, b: SharedData) -> bool {
    &&& a.textures@ == b.textures@
    &&& a.render_pass == b.render_pass
    &&& a.framebuffer == b.framebuffer
    &&& pipeline::pipeline_eq(a.pipeline, b.pipeline)
}

/// A copy of the shared-data record: the same GPU objects, shared by
/// reference counting in the backend.
pub fn clone_shared(s: &SharedData) -> (r: SharedData)
    ensures
        shared_eq(r, *s),
{
    let mut textures: Vec<u64> = Vec::new();
    let n = s.textures.len();
    let mut i: usize = 0;
    while i < n
        invariant
            i <= n,
            n == s.textures@.len(),
            textures@ =~= s.textures@.subrange(0, i as int),
        decreases n - i,
    {
        textures.push(s.textures[i]);
        i = i + 1;
    }
    proof {
        assert(textures@ =~= s.textures@);
    }
    SharedData {
        textures,
        render_pass: s.render_pass,
        framebuffer: s.framebuffer,
        pipeline: pipeline::clone_pipeline(&s.pipeline),
    }
}

/// The scene as one frame's recording reads it: the camera and the visible
/// models, all by handle, never written.
pub struct SceneView {
    pub camera: u64,
    pub models: Vec<u64>,
}

/// A generic single-pass node; a template, and by `create_new` also every
/// instance of it.
pub struct Base {
    pub base: node::Base,
    pub shared_data: SharedData,
    pub render_data: RenderData,
}

impl Base {
    /// The number of secondary command buffers each frame record carries
    /// (the worker slots of this node).
    pub open spec fn spec_sec_count(&self) -> int {
        self.render_data.frames_data@[0].kernels_data@.len() as int
    }

    /// Link lists, bindings and per-frame records are consistently sized.
    pub open spec fn wf(&self) -> bool {
        &&& self.base.wf()
        &&& self.base.spec_inputs_count() <= 100000
        &&& self.base.spec_outputs_count() <= 100000
        &&& self.render_data.input_textures@.len() == self.base.spec_inputs_count()
        &&& self.shared_data.textures@.len() == self.base.spec_outputs_count()
        &&& 1 <= self.render_data.frames_data@.len()
        &&& 1 <= self.spec_sec_count() <= 100000
        &&& forall|f: int|
            0 <= f < self.render_data.frames_data@.len() ==> (#[trigger] self.render_data.frames_data@[f]).kernels_data@.len()
                == self.spec_sec_count()
    }

    pub fn get_base(&self) -> (r: &node::Base)
        ensures
            *r == self.base,
    {
        &self.base
    }

    pub fn get_mut_base(&mut self) -> (r: &mut node::Base)
        ensures
            *r == old(self).base,
            final(self).base == *final(r),
            final(self).shared_data == old(self).shared_data,
            final(self).render_data == old(self).render_data,
    {
        &mut self.base
    }

    /// The produced image of the output link at `index`; asking past the
    /// declared output count is an authoring error.
    pub fn get_output_texture(&self, index: usize) -> (r: u64)
        requires
            index < self.shared_data.textures@.len(),
        ensures
            r == self.shared_data.textures@[index as int],
    {
        self.shared_data.textures[index]
    }

    /// The produced image of the output link declared with this id; naming
    /// an id no output link declares is an authoring error and is reported.
    pub fn get_output_texture_by_id(&self, id: Id) -> (r: Result<u64, Error>)
        requires
            self.wf(),
        ensures
            match r {
                Result::Ok(t) => exists|i: int|
                    0 <= i < self.base.spec_output_ids().len() && #[trigger] self.base.spec_output_ids()[i]
                        == id && t == self.shared_data.textures@[i],
                Result::Err(e) => {
                    &&& e == (Error::UnknownLinkId { link_id: id })
                    &&& forall|i: int|
                        0 <= i < self.base.spec_output_ids().len()
                            ==> #[trigger] self.base.spec_output_ids()[i] != id
                },
            },
    {
        match self.base.get_output_link_index_by_id(id) {
            Some(i) => Ok(self.get_output_texture(i)),
            None => Err(Error::UnknownLinkId { link_id: id }),
        }
    }

    /// The produced image of the output link declared with this name;
    /// naming a name no output link declares is an authoring error and is
    /// reported.
    pub fn get_output_texture_by_name(&self, name: &String) -> (r: Result<u64, Error>)
        requires
            self.wf(),
        ensures
            match r {
                Result::Ok(t) => exists|i: int|
                    0 <= i < self.base.spec_output_names().len()
                        && #[trigger] self.base.spec_output_names()[i] == name@ && t
                        == self.shared_data.textures@[i],
                Result::Err(e) => {
                    &&& e == Error::UnknownLinkName
                    &&& forall|i: int|
                        0 <= i < self.base.spec_output_names().len()
                            ==> #[trigger] self.base.spec_output_names()[i] != name@
                },
            },
    {
        match self.base.get_output_link_index_by_name(name) {
            Some(i) => Ok(self.get_output_texture(i)),
            None => Err(Error::UnknownLinkName),
        }
    }

    /// The frame record at `frame_index`, unchanged but for the rebinding
    /// mark.
    pub open spec fn marked_changed(fd_old: FrameData, fd_new: FrameData) -> bool {
        &&& fd_new.pri_cmd == fd_old.pri_cmd
        &&& fd_new.semaphore == fd_old.semaphore
        &&& fd_new.descriptor_set == fd_old.descriptor_set
        &&& fd_new.kernels_data == fd_old.kernels_data
        &&& fd_new.input_textures_changed
    }

    /// Binds the input link at `index` to the provider and its produced
    /// texture. A link already bound is rebound: the new provider replaces
    /// the old one. Every frame's cached descriptor bindings are marked
    /// stale, forcing lazy re-creation on that frame's next record.
    pub fn register_provider_for_link(
        &mut self,
        index: usize,
        p: node::Provider,
        texture: u64,
    )
        requires
            old(self).wf(),
            index < old(self).base.spec_inputs_count(),
        ensures
            final(self).wf(),
            final(self).base.spec_providers() == old(self).base.spec_providers().update(
                index as int,
                Some(p),
            ),
            final(self).base.spec_node_id() == old(self).base.spec_node_id(),
            final(self).base.spec_name() == old(self).base.spec_name(),
            final(self).base.spec_input_ids() == old(self).base.spec_input_ids(),
            final(self).base.spec_input_names() == old(self).base.spec_input_names(),
            final(self).base.spec_output_ids() == old(self).base.spec_output_ids(),
            final(self).base.spec_output_names() == old(self).base.spec_output_names(),
            final(self).base.spec_consumers() == old(self).base.spec_consumers(),
            final(self).shared_data == old(self).shared_data,
            final(self).render_data.input_textures@ == old(
                self,
            ).render_data.input_textures@.update(index as int, Some(texture)),
            final(self).render_data.uniform@ == old(self).render_data.uniform@,
            final(self).render_data.uniform_buffer == old(self).render_data.uniform_buffer,
            final(self).render_data.frames_data@.len() == old(
                self,
            ).render_data.frames_data@.len(),
            forall|f: int|
                0 <= f < old(self).render_data.frames_data@.len() ==> Base::marked_changed(
                    old(self).render_data.frames_data@[f],
                    #[trigger] final(self).render_data.frames_data@[f],
                ),
    {
        self.render_data.input_textures.set(index, Some(texture));
        let n = self.render_data.frames_data.len();
        let mut f: usize = 0;
        while f < n
            invariant
                f <= n,
                n == self.render_data.frames_data@.len(),
                self.base == old(self).base,
                self.shared_data == old(self).shared_data,
                self.render_data.uniform == old(self).render_data.uniform,
                self.render_data.uniform_buffer == old(self).render_data.uniform_buffer,
                self.render_data.input_textures@ == old(
                    self,
                ).render_data.input_textures@.update(index as int, Some(texture)),
                forall|j: int|
                    0 <= j < f ==> Base::marked_changed(
                        old(self).render_data.frames_data@[j],
                        #[trigger] self.render_data.frames_data@[j],
                    ),
                forall|j: int|
                    f <= j < n ==> #[trigger] self.render_data.frames_data@[j] == old(
                        self,
                    ).render_data.frames_data@[j],
            decreases n - f,
        {
            let mut fd = self.render_data.frames_data.remove(f);
            fd.input_textures_changed = true;
            self.render_data.frames_data.insert(f, fd);
            f = f + 1;
        }
        self.base.register_provider_for_link(index, p);
    }

    /// What `record` writes into one worker's slice of one frame record.
    pub open spec fn recorded_pass_ok(&self, pass: RecordedPass, scene: SceneView) -> bool {
        &&& pass.pipeline == self.shared_data.pipeline.vk_data
        &&& pass.framebuffer == self.shared_data.framebuffer
        &&& pass.inputs@.len() == self.render_data.input_textures@.len()
        &&& forall|i: int|
            0 <= i < pass.inputs@.len() ==> Some(#[trigger] pass.inputs@[i])
                == self.render_data.input_textures@[i]
    }

    /// Appends this node's commands for one frame into the given worker's
    /// secondary command buffer: binds the pipeline and the bound input
    /// resources and draws the scene's models.
    ///
    /// Recording with any input link unbound is an authoring error and is
    /// rejected, naming the first unbound link. When the bound inputs
    /// changed since the frame's descriptor set was built, the set is
    /// rebuilt first (lazily, here). Shared data is never written; only
    /// the addressed frame record changes.
    pub fn record(
        &mut self,
        kernel_index: usize,
        frame_index: usize,
        eng: &mut Engine,
        scene: &SceneView,
    ) -> (r: Result<(), Error>)
        requires
            old(self).wf(),
            frame_index < old(self).render_data.frames_data@.len(),
            kernel_index < old(self).spec_sec_count(),
            old(eng).spec_next_handle() < u64::MAX,
        ensures
            final(self).wf(),
            match r {
                Result::Err(e) => {
                    &&& e matches Error::UnboundInput { input_index }
                    &&& 0 <= input_index < old(self).render_data.input_textures@.len()
                    &&& old(self).render_data.input_textures@[input_index as int] is None
                    &&& forall|j: int|
                        0 <= j < input_index ==> (#[trigger] old(
                            self,
                        ).render_data.input_textures@[j]) is Some
                    &&& *final(self) == *old(self)
                    &&& *final(eng) == *old(eng)
                },
                Result::Ok(u) => {
                    let ofd = old(self).render_data.frames_data@[frame_index as int];
                    let nfd = final(self).render_data.frames_data@[frame_index as int];
                    &&& forall|i: int|
                        0 <= i < old(self).render_data.input_textures@.len() ==> (#[trigger] old(
                            self,
                        ).render_data.input_textures@[i]) is Some
                    &&& final(self).base == old(self).base
                    &&& final(self).shared_data == old(self).shared_data
                    &&& final(self).render_data.uniform@ == old(self).render_data.uniform@
                    &&& final(self).render_data.uniform_buffer == old(
                        self,
                    ).render_data.uniform_buffer
                    &&& final(self).render_data.input_textures@ == old(
                        self,
                    ).render_data.input_textures@
                    &&& final(self).render_data.frames_data@ == old(
                        self,
                    ).render_data.frames_data@.update(frame_index as int, nfd)
                    &&& nfd.pri_cmd == ofd.pri_cmd
                    &&& nfd.semaphore == ofd.semaphore
                    &&& !nfd.input_textures_changed
                    &&& if ofd.input_textures_changed {
                        &&& nfd.descriptor_set == Some(old(eng).spec_next_handle())
                        &&& Engine::allocated_one(
                            *old(eng),
                            *final(eng),
                            old(eng).spec_next_handle(),
                        )
                    } else {
                        &&& nfd.descriptor_set == ofd.descriptor_set
                        &&& *final(eng) == *old(eng)
                    }
                    &&& nfd.kernels_data@.len() == ofd.kernels_data@.len()
                    &&& forall|k: int|
                        0 <= k < ofd.kernels_data@.len() && k != kernel_index
                            ==> #[trigger] nfd.kernels_data@[k] == ofd.kernels_data@[k]
                    &&& nfd.kernels_data@[kernel_index as int].sec_cmd
                        == ofd.kernels_data@[kernel_index as int].sec_cmd
                    &&& nfd.kernels_data@[kernel_index as int].objects_count == scene.models@.len()
                    &&& nfd.kernels_data@[kernel_index as int].recorded matches Some(pass)
                        && old(self).recorded_pass_ok(pass, *scene)
                },
            },
    {
        let icount = self.render_data.input_textures.len();
        let mut i: usize = 0;
        while i < icount
            invariant
                old(self).wf(),
                i <= icount,
                *self == *old(self),
                icount == self.render_data.input_textures@.len(),
                forall|j: int|
                    0 <= j < i ==> (#[trigger] self.render_data.input_textures@[j]) is Some,
            decreases icount - i,
        {
            if self.render_data.input_textures[i].is_none() {
                return Err(Error::UnboundInput { input_index: i });
            }
            i = i + 1;
        }
        let mut inputs: Vec<u64> = Vec::new();
        let mut j: usize = 0;
        while j < icount
            invariant
                old(self).wf(),
                j <= icount,
                *self == *old(self),
                icount == self.render_data.input_textures@.len(),
                inputs@.len() == j,
                forall|k: int|
                    0 <= k < icount ==> (#[trigger] self.render_data.input_textures@[k]) is Some,
                forall|k: int|
                    0 <= k < j ==> Some(#[trigger] inputs@[k])
                        == self.render_data.input_textures@[k],
            decreases icount - j,
        {
            match self.render_data.input_textures[j] {
                Some(t) => inputs.push(t),
                None => {
                    return Err(Error::UnboundInput { input_index: j });
                },
            }
            j = j + 1;
        }
        let mut fd = self.render_data.frames_data.remove(frame_index);
        if fd.input_textures_changed {
            fd.descriptor_set = Some(eng.create_descriptor_set());
            fd.input_textures_changed = false;
        }
        let mut kd = fd.kernels_data.remove(kernel_index);
        kd.objects_count = scene.models.len();
        kd.recorded = Some(
            RecordedPass {
                pipeline: self.shared_data.pipeline.get_info_for_binding(),
                framebuffer: self.shared_data.framebuffer,
                inputs,
            },
        );
        fd.kernels_data.insert(kernel_index, kd);
        self.render_data.frames_data.insert(frame_index, fd);
        proof {
            assert(self.render_data.frames_data@ =~= old(
                self,
            ).render_data.frames_data@.update(
                frame_index as int,
                self.render_data.frames_data@[frame_index as int],
            ));
            let ofd = old(self).render_data.frames_data@[frame_index as int];
            let nfd = self.render_data.frames_data@[frame_index as int];
            assert(nfd.kernels_data@ =~= ofd.kernels_data@.update(
                kernel_index as int,
                nfd.kernels_data@[kernel_index as int],
            ));
        }
        Ok(())
    }

    /// Builds a template from a declarative description: one attachment
    /// image, texture and output link per `BufferInfo`, one input link per
    /// `InputInfo`, a render pass and framebuffer over the attachments,
    /// and the pipeline of the given pass kind. The render data is sized
    /// to the engine's frame-in-flight count, with one secondary command
    /// buffer per worker slot.
    ///
    /// Declaring the same link id or name twice is an authoring error and
    /// is excluded up front.
    pub fn new_with_worker_slots(
        eng: &mut Engine,
        pipmgr: &mut pipeline::Manager,
        buffer_infos: &Vec<BufferInfo>,
        uniform: Vec<u8>,
        pipeline_type: PipelineType,
        node_id: Id,
        node_name: String,
        input_infos: &Vec<InputInfo>,
        worker_slots: usize,
    ) -> (r: Self)
        requires
            old(pipmgr).wf(),
            pipeline::supported_pipeline_type(pipeline_type),
            buffer_infos@.len() <= 100000,
            input_infos@.len() <= 100000,
            1 <= worker_slots <= 100000,
            worker_slots > 1 ==> worker_slots <= old(eng).spec_kernels_data().len(),
            node::distinct_ids(input_infos@.map_values(|inf: InputInfo| inf.id)),
            node::distinct_names(input_infos@.map_values(|inf: InputInfo| inf.name@)),
            node::distinct_ids(buffer_infos@.map_values(|bf: BufferInfo| bf.id)),
            node::distinct_names(buffer_infos@.map_values(|bf: BufferInfo| bf.name@)),
            1 <= old(eng).spec_frames_data().len() <= 100000,
            old(eng).spec_next_handle() + 0x400000000 <= u64::MAX,
        ensures
            r.wf(),
            final(pipmgr).wf(),
            final(pipmgr).spec_config() == old(pipmgr).spec_config(),
            r.base.spec_node_id() == node_id,
            r.base.spec_name() == node_name@,
            r.base.spec_input_ids() == input_infos@.map_values(|inf: InputInfo| inf.id),
            r.base.spec_input_names() == input_infos@.map_values(|inf: InputInfo| inf.name@),
            r.base.spec_output_ids() == buffer_infos@.map_values(|bf: BufferInfo| bf.id),
            r.base.spec_output_names() == buffer_infos@.map_values(|bf: BufferInfo| bf.name@),
            forall|i: int|
                0 <= i < r.base.spec_providers().len() ==> r.base.spec_providers()[i] is None,
            forall|i: int|
                0 <= i < r.base.spec_consumers().len() ==> r.base.spec_consumers()[i] =~= Seq::<
                    usize,
                >::empty(),
            r.shared_data.textures@.len() == buffer_infos@.len(),
            r.shared_data.pipeline.decided_for(pipeline_type, old(pipmgr).spec_config()),
            r.shared_data.pipeline.render_pass == r.shared_data.render_pass,
            r.render_data.fresh_shape(
                old(eng).spec_frames_data().len() as int,
                worker_slots as int,
                uniform@,
                input_infos@.len() as int,
            ),
            r.render_data.in_range(
                old(eng).spec_next_handle() as int,
                final(eng).spec_next_handle() as int,
            ),
            Engine::static_state_eq(*old(eng), *final(eng)),
            final(eng).spec_current_frame() == old(eng).spec_current_frame(),
            final(eng).spec_actions() == old(eng).spec_actions(),
            old(eng).spec_next_handle() < final(eng).spec_next_handle(),
            final(eng).spec_next_handle() <= old(eng).spec_next_handle() + 0x400000000,
    {
        let ghost lo = eng.spec_next_handle() as int;
        let nb = buffer_infos.len();
        let mut buffers: Vec<u64> = Vec::new();
        let mut textures: Vec<u64> = Vec::new();
        let mut i: usize = 0;
        while i < nb
            invariant
                i <= nb,
                nb == buffer_infos@.len(),
                nb <= 100000,
                buffers@.len() == i,
                textures@.len() == i,
                lo <= eng.spec_next_handle(),
                eng.spec_next_handle() <= lo + 3 * i,
                lo + 0x400000000 <= u64::MAX,
                Engine::static_state_eq(*old(eng), *eng),
                eng.spec_current_frame() == old(eng).spec_current_frame(),
                eng.spec_actions() == old(eng).spec_actions(),
            decreases nb - i,
        {
            let bf_format = buffer_infos[i].format;
            let w = #[verifier::truncate] (buffer_infos[i].width as u32);
            let h = #[verifier::truncate] (buffer_infos[i].height as u32);
            let view = ImageView::new_attachment(eng, bf_format, AttachmentType::Effect, w, h);
            let texture = eng.create_texture_2d_with_view_sampler(view.vk_data);
            buffers.push(view.vk_data);
            textures.push(texture);
            i = i + 1;
        }
        let render_pass = eng.create_render_pass();
        let framebuffer = eng.create_framebuffer();
        let pipeline = pipmgr.create(eng, render_pass, pipeline_type);
        let mut input_names: Vec<String> = Vec::new();
        let mut input_ids: Vec<Id> = Vec::new();
        let mut j: usize = 0;
        let ni = input_infos.len();
        while j < ni
            invariant
                j <= ni,
                ni == input_infos@.len(),
                input_names@.len() == j,
                input_ids@.len() == j,
                forall|k: int| 0 <= k < j ==> #[trigger] input_names@[k]@ == input_infos@[k].name@,
                forall|k: int| 0 <= k < j ==> #[trigger] input_ids@[k] == input_infos@[k].id,
            decreases ni - j,
        {
            input_names.push(input_infos[j].name.clone());
            input_ids.push(input_infos[j].id);
            j = j + 1;
        }
        let mut output_names: Vec<String> = Vec::new();
        let mut output_ids: Vec<Id> = Vec::new();
        let mut j2: usize = 0;
        while j2 < nb
            invariant
                j2 <= nb,
                nb == buffer_infos@.len(),
                output_names@.len() == j2,
                output_ids@.len() == j2,
                forall|k: int|
                    0 <= k < j2 ==> #[trigger] output_names@[k]@ == buffer_infos@[k].name@,
                forall|k: int| 0 <= k < j2 ==> #[trigger] output_ids@[k] == buffer_infos@[k].id,
            decreases nb - j2,
        {
            output_names.push(buffer_infos[j2].name.clone());
            output_ids.push(buffer_infos[j2].id);
            j2 = j2 + 1;
        }
        proof {
            assert(input_ids@ =~= input_infos@.map_values(|inf: InputInfo| inf.id));
            assert(input_names@.map_values(|s: String| s@) =~= input_infos@.map_values(
                |inf: InputInfo| inf.name@,
            ));
            assert(output_ids@ =~= buffer_infos@.map_values(|bf: BufferInfo| bf.id));
            assert(output_names@.map_values(|s: String| s@) =~= buffer_infos@.map_values(
                |bf: BufferInfo| bf.name@,
            ));
        }
        let base = node::Base::new(
            node_id,
            node_name,
            input_names,
            input_ids,
            output_names,
            output_ids,
        );
        let shared_data = SharedData { textures, render_pass, framebuffer, pipeline };
        let inputs_count = input_infos.len();
        let render_data = RenderData::new(eng, worker_slots, uniform, inputs_count);
        Base { base, shared_data, render_data }
    }

    /// Builds an effect template: as `new_with_worker_slots`, with a
    /// single worker slot, since effect passes record single-threaded.
    pub fn new_with_buffer_info(
        eng: &mut Engine,
        pipmgr: &mut pipeline::Manager,
        buffer_infos: &Vec<BufferInfo>,
        uniform: Vec<u8>,
        pipeline_type: PipelineType,
        node_id: Id,
        node_name: String,
        input_infos: &Vec<InputInfo>,
    ) -> (r: Self)
        requires
            old(pipmgr).wf(),
            pipeline::supported_pipeline_type(pipeline_type),
            buffer_infos@.len() <= 100000,
            input_infos@.len() <= 100000,
            node::distinct_ids(input_infos@.map_values(|inf: InputInfo| inf.id)),
            node::distinct_names(input_infos@.map_values(|inf: InputInfo| inf.name@)),
            node::distinct_ids(buffer_infos@.map_values(|bf: BufferInfo| bf.id)),
            node::distinct_names(buffer_infos@.map_values(|bf: BufferInfo| bf.name@)),
            1 <= old(eng).spec_frames_data().len() <= 100000,
            old(eng).spec_next_handle() + 0x400000000 <= u64::MAX,
        ensures
            r.wf(),
            final(pipmgr).wf(),
            final(pipmgr).spec_config() == old(pipmgr).spec_config(),
            r.base.spec_node_id() == node_id,
            r.base.spec_name() == node_name@,
            r.base.spec_input_ids() == input_infos@.map_values(|inf: InputInfo| inf.id),
            r.base.spec_input_names() == input_infos@.map_values(|inf: InputInfo| inf.name@),
            r.base.spec_output_ids() == buffer_infos@.map_values(|bf: BufferInfo| bf.id),
            r.base.spec_output_names() == buffer_infos@.map_values(|bf: BufferInfo| bf.name@),
            forall|i: int|
                0 <= i < r.base.spec_providers().len() ==> r.base.spec_providers()[i] is None,
            forall|i: int|
                0 <= i < r.base.spec_consumers().len() ==> r.base.spec_consumers()[i] =~= Seq::<
                    usize,
                >::empty(),
            r.shared_data.textures@.len() == buffer_infos@.len(),
            r.shared_data.pipeline.decided_for(pipeline_type, old(pipmgr).spec_config()),
            r.shared_data.pipeline.render_pass == r.shared_data.render_pass,
            r.render_data.fresh_shape(
                old(eng).spec_frames_data().len() as int,
                1,
                uniform@,
                input_infos@.len() as int,
            ),
            r.render_data.in_range(
                old(eng).spec_next_handle() as int,
                final(eng).spec_next_handle() as int,
            ),
            Engine::static_state_eq(*old(eng), *final(eng)),
            final(eng).spec_current_frame() == old(eng).spec_current_frame(),
            final(eng).spec_actions() == old(eng).spec_actions(),
            old(eng).spec_next_handle() < final(eng).spec_next_handle(),
            final(eng).spec_next_handle() <= old(eng).spec_next_handle() + 0x400000000,
    {
        Base::new_with_worker_slots(
            eng,
            pipmgr,
            buffer_infos,
            uniform,
            pipeline_type,
            node_id,
            node_name,
            input_infos,
            1,
        )
    }

    /// A fresh instance of this template: the link declarations are kept
    /// with nothing bound, the shared data names the same GPU objects, the
    /// render data is cloned fresh for the engine's frame-in-flight count,
    /// and the uniform value is copied from the template as it stands.
    pub fn create_new(&self, eng: &mut Engine) -> (r: Self)
        requires
            self.wf(),
            self.spec_sec_count() > 1 ==> self.spec_sec_count() <= old(
                eng,
            ).spec_kernels_data().len(),
            1 <= old(eng).spec_frames_data().len() <= 100000,
            old(eng).spec_next_handle() + 0x400000000 <= u64::MAX,
        ensures
            r.wf(),
            r.base.spec_node_id() == self.base.spec_node_id(),
            r.base.spec_name() == self.base.spec_name(),
            r.base.spec_input_ids() == self.base.spec_input_ids(),
            r.base.spec_input_names() == self.base.spec_input_names(),
            r.base.spec_output_ids() == self.base.spec_output_ids(),
            r.base.spec_output_names() == self.base.spec_output_names(),
            forall|i: int|
                0 <= i < r.base.spec_providers().len() ==> r.base.spec_providers()[i] is None,
            forall|i: int|
                0 <= i < r.base.spec_consumers().len() ==> r.base.spec_consumers()[i] =~= Seq::<
                    usize,
                >::empty(),
            shared_eq(r.shared_data, self.shared_data),
            r.render_data.fresh_shape(
                old(eng).spec_frames_data().len() as int,
                self.spec_sec_count(),
                self.render_data.uniform@,
                self.base.spec_inputs_count() as int,
            ),
            r.render_data.in_range(
                old(eng).spec_next_handle() as int,
                final(eng).spec_next_handle() as int,
            ),
            Engine::static_state_eq(*old(eng), *final(eng)),
            final(eng).spec_current_frame() == old(eng).spec_current_frame(),
            final(eng).spec_actions() == old(eng).spec_actions(),
            old(eng).spec_next_handle() < final(eng).spec_next_handle(),
            final(eng).spec_next_handle() <= old(eng).spec_next_handle() + 0x400000000,
    {
        let base = self.base.create_new();
        let shared_data = clone_shared(&self.shared_data);
        let uniform = copy_bytes(&self.render_data.uniform);
        let sec_count = self.render_data.frames_data[0].kernels_data.len();
        let inputs_count = self.render_data.input_textures.len();
        let render_data = RenderData::new(eng, sec_count, uniform, inputs_count);
        Base { base, shared_data, render_data }
    }
}

/// The value is an instance cloned from the template: same links and
/// kind, same shared GPU objects, the template's uniform value, and
/// nothing bound yet.
pub open spec fn instance_of(inst: Base, tpl: Base) -> bool {
    &&& inst.base.spec_node_id() == tpl.base.spec_node_id()
    &&& inst.base.spec_name() == tpl.base.spec_name()
    &&& inst.base.spec_input_ids() == tpl.base.spec_input_ids()
    &&& inst.base.spec_input_names() == tpl.base.spec_input_names()
    &&& inst.base.spec_output_ids() == tpl.base.spec_output_ids()
    &&& inst.base.spec_output_names() == tpl.base.spec_output_names()
    &&& forall|i: int|
        0 <= i < inst.base.spec_providers().len() ==> inst.base.spec_providers()[i] is None
    &&& shared_eq(inst.shared_data, tpl.shared_data)
    &&& inst.render_data.uniform@ == tpl.render_data.uniform@
    &&& inst.render_data.input_textures@.len() == tpl.base.spec_inputs_count()
    &&& forall|i: int|
        0 <= i < inst.render_data.input_textures@.len() ==> (
        #[trigger] inst.render_data.input_textures@[i]) is None
}

impl crate::object::Object for Base {
    open spec fn spec_id(&self) -> Id {
        self.base.spec_node_id()
    }

    open spec fn spec_name(&self) -> Option<Seq<char>> {
        Some(self.base.spec_name())
    }

    fn get_id(&self) -> (r: Id) {
        self.base.get_node_id()
    }

    fn get_name(&self) -> (r: Option<&str>) {
        Some(self.base.get_name())
    }
}

} // verus!
