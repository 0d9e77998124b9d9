//! The graphics-engine context and frame scheduler.
//!
//! GPU objects (semaphores, fences, command pools and buffers, render
//! passes, framebuffers) are modeled by opaque `u64` handles drawn from a
//! monotonic allocator: two objects are the same exactly when their handles
//! are equal, and a handle drawn later is distinct from everything drawn
//! earlier.
//!
//! The scheduler owns one `FrameData` per swapchain image and drives each
//! frame through a semaphore-gated chain of queue submissions. It does not
//! talk to the device itself: every step is appended to an action log that
//! the backend drains and performs in order. The log is what the ordering
//! and frame-reuse guarantees are stated over.

use vstd::prelude::*;

use crate::error::Error;

verus! {

/// Source of fresh GPU-object handles: a monotonic counter.
pub struct HandleAllocator {
    next: u64,
}

impl HandleAllocator {
    /// The handle the next allocation will return.
    pub closed spec fn spec_next(&self) -> u64 {
        self.next
    }

    pub fn new() -> (r: Self)
        ensures
            r.spec_next() == 1,
    {
        HandleAllocator { next: 1 }
    }

    /// Draws a fresh handle: distinct from every handle drawn earlier.
    pub fn fresh(&mut self) -> (r: u64)
        requires
            old(self).spec_next() < u64::MAX,
        ensures
            r == old(self).spec_next(),
            final(self).spec_next() == old(self).spec_next() + 1,
    {
        let r = self.next;
        self.next = self.next + 1;
        r
    }
}

/// One queue submission: the semaphores it waits on, the command buffers it
/// executes, the semaphores it signals, and the fence, if any, that the
/// device signals when the submission completes.
#[derive(Clone, Debug)]
pub struct Submission {
    pub waits: Vec<u64>,
    pub cmds: Vec<u64>,
    pub signals: Vec<u64>,
    pub fence: Option<u64>,
}

/// One step the backend must perform for the scheduler, in log order.
#[derive(Clone, Debug)]
pub enum Action {
    /// Block until the fence is signaled by the device.
    WaitFence(u64),
    /// Put the fence back into the unsignaled state.
    ResetFence(u64),
    /// Enqueue a submission on the graphics queue.
    Submit(Submission),
    /// Present the swapchain image once the semaphore is signaled.
    Present { image_index: usize, wait_semaphore: u64 },
}

/// The action is a submission with exactly these parts.
pub open spec fn submit_action(
    a: Action,
    waits: Seq<u64>,
    cmds: Seq<u64>,
    signals: Seq<u64>,
    fence: Option<u64>,
) -> bool {
    &&& a matches Action::Submit(s)
    &&& s.waits@ == waits
    &&& s.cmds@ == cmds
    &&& s.signals@ == signals
    &&& s.fence == fence
}

/// What the result of acquiring the next swapchain image can be.
#[derive(Clone, Copy, PartialEq, Eq, Structural, Debug)]
pub enum NextImageResult {
    /// The index of the swapchain image (and so the frame slot) to use.
    Next(usize),
    /// The swapchain is out of date and must be recreated before any
    /// further acquisition.
    NeedsRefresh,
}

/// Per-swapchain-image record: the semaphores that chain this slot's
/// submissions, its two data-upload primary command buffers, the fence that
/// gates reuse of the slot, and its framebuffers. Created once per
/// swapchain and recycled every frame.
#[derive(Clone, Copy, PartialEq, Eq, Structural, Debug)]
pub struct FrameData {
    pub present_semaphore: u64,
    pub data_semaphore: u64,
    pub second_data_semaphore: u64,
    pub render_semaphore: u64,
    pub data_primary_cmd: u64,
    pub second_data_primary_cmd: u64,
    pub wait_fence: u64,
    pub framebuffer: u64,
    pub clear_framebuffer: u64,
}

impl FrameData {
    /// The nine handles of this record sit consecutively at `base`.
    pub open spec fn allocated_at(self, base: int) -> bool {
        &&& self.present_semaphore == base

        &&& self.data_semaphore == base + 1

        &&& self.second_data_semaphore == base + 2

        &&& self.render_semaphore == base + 3

        &&& self.data_primary_cmd == base + 4

        &&& self.second_data_primary_cmd == base + 5

        &&& self.wait_fence == base + 6

        &&& self.framebuffer == base + 7

        &&& self.clear_framebuffer == base + 8
    }

    pub fn new(handles: &mut HandleAllocator) -> (r: Self)
        requires
            old(handles).spec_next() + 9 <= u64::MAX,
        ensures
            r.allocated_at(old(handles).spec_next() as int),
            final(handles).spec_next() == old(handles).spec_next() + 9,
    {
        let present_semaphore = handles.fresh();
        let data_semaphore = handles.fresh();
        let second_data_semaphore = handles.fresh();
        let render_semaphore = handles.fresh();
        let data_primary_cmd = handles.fresh();
        let second_data_primary_cmd = handles.fresh();
        let wait_fence = handles.fresh();
        let framebuffer = handles.fresh();
        let clear_framebuffer = handles.fresh();
        FrameData {
            present_semaphore,
            data_semaphore,
            second_data_semaphore,
            render_semaphore,
            data_primary_cmd,
            second_data_primary_cmd,
            wait_fence,
            framebuffer,
            clear_framebuffer,
        }
    }
}

/// Per-worker-thread record: the command pool that worker's secondary
/// command buffers are carved from.
#[derive(Clone, Copy, PartialEq, Eq, Structural, Debug)]
pub struct KernelData {
    pub graphic_cmd_pool: u64,
}

impl KernelData {
    pub fn new(handles: &mut HandleAllocator) -> (r: Self)
        requires
            old(handles).spec_next() < u64::MAX,
        ensures
            r.graphic_cmd_pool == old(handles).spec_next(),
            final(handles).spec_next() == old(handles).spec_next() + 1,
    {
        let graphic_cmd_pool = handles.fresh();
        KernelData { graphic_cmd_pool }
    }
}

/// Relies on num_cpus::get: the number of logical CPUs available to the
/// process, documented to always be at least 1.
#[verifier::external_body]
fn cpu_count() -> (r: usize)
    ensures
        1 <= r,
{
    num_cpus::get()
}

/// The graphics-engine context: GPU-object creation and the per-frame
/// submission scheduler.
pub struct Engine {
    handles: HandleAllocator,
    graphic_cmd_pool: u64,
    render_pass: u64,
    clear_render_pass: u64,
    frames_data: Vec<FrameData>,
    kernels_data: Vec<KernelData>,
    current_frame_number: usize,
    actions: Vec<Action>,
}

impl Engine {
    pub closed spec fn spec_next_handle(&self) -> u64 {
        self.handles.spec_next()
    }

    pub closed spec fn spec_frames_data(&self) -> Seq<FrameData> {
        self.frames_data@
    }

    pub closed spec fn spec_kernels_data(&self) -> Seq<KernelData> {
        self.kernels_data@
    }

    pub closed spec fn spec_current_frame(&self) -> int {
        self.current_frame_number as int
    }

    pub closed spec fn spec_actions(&self) -> Seq<Action> {
        self.actions@
    }

    pub closed spec fn spec_graphic_cmd_pool(&self) -> u64 {
        self.graphic_cmd_pool
    }

    pub closed spec fn spec_render_pass(&self) -> u64 {
        self.render_pass
    }

    pub closed spec fn spec_clear_render_pass(&self) -> u64 {
        self.clear_render_pass
    }

    /// The records built at construction never change afterwards.
    pub open spec fn static_state_eq(a: Engine, b: Engine) -> bool {
        &&& a.spec_frames_data() == b.spec_frames_data()
        &&& a.spec_kernels_data() == b.spec_kernels_data()
        &&& a.spec_graphic_cmd_pool() == b.spec_graphic_cmd_pool()
        &&& a.spec_render_pass() == b.spec_render_pass()
        &&& a.spec_clear_render_pass() == b.spec_clear_render_pass()
    }

    pub open spec fn wf(&self) -> bool {
        &&& 1 <= self.spec_frames_data().len() <= 100000
        &&& 1 <= self.spec_kernels_data().len() <= 100000
        &&& self.spec_current_frame() < self.spec_frames_data().len()
    }

    /// Builds the per-slot records, one per swapchain image, and one
    /// worker record per logical CPU (the worker-pool size; clamped only
    /// to keep handle arithmetic in machine range).
    pub fn new(frames_count: usize) -> (r: Self)
        requires
            1 <= frames_count <= 100000,
        ensures
            r.wf(),
            r.spec_frames_data().len() == frames_count,
            1 <= r.spec_kernels_data().len() <= 100000,
            r.spec_current_frame() == 0,
            r.spec_actions().len() == 0,
            r.spec_graphic_cmd_pool() == 1,
            r.spec_render_pass() == 2,
            r.spec_clear_render_pass() == 3,
            forall|i: int|
                0 <= i < frames_count ==> r.spec_frames_data()[i].allocated_at(4 + 9 * i),
            forall|i: int|
                0 <= i < r.spec_kernels_data().len()
                    ==> r.spec_kernels_data()[i].graphic_cmd_pool == 4 + 9 * (frames_count as int)
                    + i,
            r.spec_next_handle() == 4 + 9 * (frames_count as int) + r.spec_kernels_data().len(),
    {
        let mut handles = HandleAllocator::new();
        let graphic_cmd_pool = handles.fresh();
        let render_pass = handles.fresh();
        let clear_render_pass = handles.fresh();
        let mut frames_data: Vec<FrameData> = Vec::new();
        let mut i: usize = 0;
        while i < frames_count
            invariant
                i <= frames_count,
                frames_count <= 100000,
                frames_data@.len() == i,
                handles.spec_next() == 4 + 9 * i,
                forall|k: int| 0 <= k < i ==> frames_data@[k].allocated_at(4 + 9 * k),
            decreases frames_count - i,
        {
            frames_data.push(FrameData::new(&mut handles));
            i = i + 1;
        }
        let cpus = cpu_count();
        let kernels_count = if cpus > 100000 {
            100000
        } else {
            cpus
        };
        let mut kernels_data: Vec<KernelData> = Vec::new();
        let mut j: usize = 0;
        while j < kernels_count
            invariant
                j <= kernels_count,
                kernels_count <= 100000,
                frames_count <= 100000,
                kernels_data@.len() == j,
                handles.spec_next() == 4 + 9 * frames_count + j,
                forall|k: int|
                    0 <= k < j ==> kernels_data@[k].graphic_cmd_pool == 4 + 9 * (
                    frames_count as int) + k,
            decreases kernels_count - j,
        {
            kernels_data.push(KernelData::new(&mut handles));
            j = j + 1;
        }
        Engine {
            handles,
            graphic_cmd_pool,
            render_pass,
            clear_render_pass,
            frames_data,
            kernels_data,
            current_frame_number: 0,
            actions: Vec::new(),
        }
    }

    pub fn get_frames_count(&self) -> (r: usize)
        ensures
            r == self.spec_frames_data().len(),
    {
        self.frames_data.len()
    }

    pub fn get_kernels_count(&self) -> (r: usize)
        ensures
            r == self.spec_kernels_data().len(),
    {
        self.kernels_data.len()
    }

    pub fn get_frame_number(&self) -> (r: usize)
        ensures
            r == self.spec_current_frame(),
    {
        self.current_frame_number
    }

    /// The semaphore that ends the per-frame data-upload chain: stage "B",
    /// which every node submission of the frame waits on.
    pub fn get_starting_semaphore(&self) -> (r: u64)
        requires
            self.spec_current_frame() < self.spec_frames_data().len(),
        ensures
            r == self.spec_frames_data()[self.spec_current_frame()].second_data_semaphore,
    {
        self.frames_data[self.current_frame_number].second_data_semaphore
    }

    /// The semaphore the next swapchain acquisition will signal.
    pub fn get_present_semaphore(&self) -> (r: u64)
        requires
            self.spec_current_frame() < self.spec_frames_data().len(),
        ensures
            r == self.spec_frames_data()[self.spec_current_frame()].present_semaphore,
    {
        self.frames_data[self.current_frame_number].present_semaphore
    }

    pub fn get_current_framebuffer(&self) -> (r: u64)
        requires
            self.spec_current_frame() < self.spec_frames_data().len(),
        ensures
            r == self.spec_frames_data()[self.spec_current_frame()].framebuffer,
    {
        self.frames_data[self.current_frame_number].framebuffer
    }

    pub fn get_render_pass(&self) -> (r: u64)
        ensures
            r == self.spec_render_pass(),
    {
        self.render_pass
    }

    /// A freshly created object, and otherwise an unchanged engine.
    pub open spec fn allocated_one(old_self: Engine, new_self: Engine, r: u64) -> bool {
        &&& r == old_self.spec_next_handle()
        &&& new_self.spec_next_handle() == old_self.spec_next_handle() + 1
        &&& Engine::static_state_eq(old_self, new_self)
        &&& new_self.spec_current_frame() == old_self.spec_current_frame()
        &&& new_self.spec_actions() == old_self.spec_actions()
    }

    /// Two freshly created objects, in order, and an otherwise unchanged
    /// engine.
    pub open spec fn allocated_two(old_self: Engine, new_self: Engine, a: u64, b: u64) -> bool {
        &&& a == old_self.spec_next_handle()
        &&& b == old_self.spec_next_handle() + 1
        &&& new_self.spec_next_handle() == old_self.spec_next_handle() + 2
        &&& Engine::static_state_eq(old_self, new_self)
        &&& new_self.spec_current_frame() == old_self.spec_current_frame()
        &&& new_self.spec_actions() == old_self.spec_actions()
    }

    /// A new image allocated in device memory.
    pub fn create_image(&mut self) -> (r: u64)
        requires
            old(self).spec_next_handle() < u64::MAX,
        ensures
            Engine::allocated_one(*old(self), *final(self), r),
    {
        self.handles.fresh()
    }

    /// A new view object over an image.
    pub fn create_image_view(&mut self) -> (r: u64)
        requires
            old(self).spec_next_handle() < u64::MAX,
        ensures
            Engine::allocated_one(*old(self), *final(self), r),
    {
        self.handles.fresh()
    }

    /// A new render pass over a set of attachments.
    pub fn create_render_pass(&mut self) -> (r: u64)
        requires
            old(self).spec_next_handle() < u64::MAX,
        ensures
            Engine::allocated_one(*old(self), *final(self), r),
    {
        self.handles.fresh()
    }

    /// A new framebuffer binding attachments to a render pass.
    pub fn create_framebuffer(&mut self) -> (r: u64)
        requires
            old(self).spec_next_handle() < u64::MAX,
        ensures
            Engine::allocated_one(*old(self), *final(self), r),
    {
        self.handles.fresh()
    }

    /// A new pipeline layout over a sequence of descriptor-set layouts.
    pub fn create_pipeline_layout(&mut self) -> (r: u64)
        requires
            old(self).spec_next_handle() < u64::MAX,
        ensures
            Engine::allocated_one(*old(self), *final(self), r),
    {
        self.handles.fresh()
    }

    /// A new shader module compiled from the pass's bytecode.
    pub fn create_shader_module(&mut self) -> (r: u64)
        requires
            old(self).spec_next_handle() < u64::MAX,
        ensures
            Engine::allocated_one(*old(self), *final(self), r),
    {
        self.handles.fresh()
    }

    /// A new pipeline object cache.
    pub fn create_pipeline_cache(&mut self) -> (r: u64)
        requires
            old(self).spec_next_handle() < u64::MAX,
        ensures
            Engine::allocated_one(*old(self), *final(self), r),
    {
        self.handles.fresh()
    }

    /// A new pipeline object compiled for a render pass.
    pub fn create_pipeline(&mut self) -> (r: u64)
        requires
            old(self).spec_next_handle() < u64::MAX,
        ensures
            Engine::allocated_one(*old(self), *final(self), r),
    {
        self.handles.fresh()
    }

    /// A new texture over an image view and a sampler, as the texture
    /// manager builds it.
    pub fn create_texture_2d_with_view_sampler(&mut self, view: u64) -> (r: u64)
        requires
            old(self).spec_next_handle() < u64::MAX,
        ensures
            Engine::allocated_one(*old(self), *final(self), r),
    {
        self.handles.fresh()
    }

    /// A new uniform buffer of the given byte size, carved from the
    /// buffer manager's dynamic arena.
    pub fn create_dynamic_buffer(&mut self, size_bytes: usize) -> (r: u64)
        requires
            old(self).spec_next_handle() < u64::MAX,
        ensures
            Engine::allocated_one(*old(self), *final(self), r),
    {
        self.handles.fresh()
    }

    /// A new descriptor set binding a uniform buffer and textures.
    pub fn create_descriptor_set(&mut self) -> (r: u64)
        requires
            old(self).spec_next_handle() < u64::MAX,
        ensures
            Engine::allocated_one(*old(self), *final(self), r),
    {
        self.handles.fresh()
    }

    pub fn create_semaphore(&mut self) -> (r: u64)
        requires
            old(self).spec_next_handle() < u64::MAX,
        ensures
            Engine::allocated_one(*old(self), *final(self), r),
    {
        self.handles.fresh()
    }

    pub fn create_command_pool(&mut self) -> (r: u64)
        requires
            old(self).spec_next_handle() < u64::MAX,
        ensures
            Engine::allocated_one(*old(self), *final(self), r),
    {
        self.handles.fresh()
    }

    /// A secondary command buffer carved from the given worker's pool.
    pub fn create_secondary_command_buffer(&mut self, kernel_index: usize) -> (r: u64)
        requires
            old(self).spec_next_handle() < u64::MAX,
            kernel_index < old(self).spec_kernels_data().len(),
        ensures
            Engine::allocated_one(*old(self), *final(self), r),
    {
        self.handles.fresh()
    }

    /// A primary command buffer carved from the given worker's pool.
    pub fn create_primary_command_buffer(&mut self, kernel_index: usize) -> (r: u64)
        requires
            old(self).spec_next_handle() < u64::MAX,
            kernel_index < old(self).spec_kernels_data().len(),
        ensures
            Engine::allocated_one(*old(self), *final(self), r),
    {
        self.handles.fresh()
    }

    pub fn create_primary_command_buffer_from_main_graphic_pool(&mut self) -> (r: u64)
        requires
            old(self).spec_next_handle() < u64::MAX,
        ensures
            Engine::allocated_one(*old(self), *final(self), r),
    {
        self.handles.fresh()
    }

    pub fn create_secondary_command_buffer_from_main_graphic_pool(&mut self) -> (r: u64)
        requires
            old(self).spec_next_handle() < u64::MAX,
        ensures
            Engine::allocated_one(*old(self), *final(self), r),
    {
        self.handles.fresh()
    }

    /// The engine after a scheduling step: nothing changed but the action
    /// log, which grew by the given suffix.
    pub open spec fn appended(old_self: Engine, new_self: Engine, suffix: Seq<Action>) -> bool {
        &&& Engine::static_state_eq(old_self, new_self)
        &&& new_self.spec_next_handle() == old_self.spec_next_handle()
        &&& new_self.spec_current_frame() == old_self.spec_current_frame()
        &&& new_self.spec_actions().len() == old_self.spec_actions().len() + suffix.len()
        &&& new_self.spec_actions().subrange(0, old_self.spec_actions().len() as int) == old_self
            .spec_actions()
        &&& new_self.spec_actions().subrange(
            old_self.spec_actions().len() as int,
            new_self.spec_actions().len() as int,
        ) == suffix
    }

    /// Enqueues one submission gated on one semaphore and signaling one.
    pub fn submit(&mut self, wait: u64, cmd: u64, signal: u64)
        ensures
            final(self).spec_actions().len() == old(self).spec_actions().len() + 1,
            Engine::appended(
                *old(self),
                *final(self),
                seq![final(self).spec_actions().last()],
            ),
            submit_action(
                final(self).spec_actions().last(),
                seq![wait],
                seq![cmd],
                seq![signal],
                None,
            ),
    {
        let mut waits: Vec<u64> = Vec::new();
        waits.push(wait);
        let mut cmds: Vec<u64> = Vec::new();
        cmds.push(cmd);
        let mut signals: Vec<u64> = Vec::new();
        signals.push(signal);
        self.actions.push(Action::Submit(Submission { waits, cmds, signals, fence: None }));
        proof {
            assert(self.spec_actions().subrange(0, old(self).spec_actions().len() as int) =~= old(
                self,
            ).spec_actions());
            assert(self.spec_actions().subrange(
                old(self).spec_actions().len() as int,
                self.spec_actions().len() as int,
            ) =~= seq![self.spec_actions().last()]);
        }
    }

    /// Enqueues one submission with explicit wait/command/signal lists and
    /// an optional completion fence.
    pub fn submit_with_fence(
        &mut self,
        waits: &Vec<u64>,
        cmds: &Vec<u64>,
        signals: &Vec<u64>,
        fence: Option<u64>,
    )
        ensures
            final(self).spec_actions().len() == old(self).spec_actions().len() + 1,
            Engine::appended(
                *old(self),
                *final(self),
                seq![final(self).spec_actions().last()],
            ),
            submit_action(
                final(self).spec_actions().last(),
                waits@,
                cmds@,
                signals@,
                fence,
            ),
    {
        self.actions.push(
            Action::Submit(
                Submission {
                    waits: waits.clone(),
                    cmds: cmds.clone(),
                    signals: signals.clone(),
                    fence,
                },
            ),
        );
        proof {
            assert(self.spec_actions().subrange(0, old(self).spec_actions().len() as int) =~= old(
                self,
            ).spec_actions());
            assert(self.spec_actions().subrange(
                old(self).spec_actions().len() as int,
                self.spec_actions().len() as int,
            ) =~= seq![self.spec_actions().last()]);
        }
    }

    /// The log grew by `k` actions and the earlier entries are untouched.
    pub open spec fn log_grew(old_self: Engine, new_self: Engine, k: int) -> bool {
        &&& new_self.spec_actions().len() == old_self.spec_actions().len() + k
        &&& forall|i: int|
            0 <= i < old_self.spec_actions().len() ==> new_self.spec_actions()[i] == old_self
                .spec_actions()[i]
    }

    /// Begins the tick for the acquired swapchain slot.
    ///
    /// The backend has already acquired the image; `NeedsRefresh` is fatal
    /// for the current frame and is passed back up unchanged. Otherwise the
    /// slot's completion fence is waited on and reset - the throttle that
    /// bounds frames in flight - and the two data-upload stages are
    /// enqueued: the clear/copy pass gated on the present semaphore and
    /// signaling stage A, then the secondary-data upload gated on stage A
    /// and signaling stage B.
    pub fn start_rendering(&mut self, acquired: NextImageResult) -> (r: Result<(), Error>)
        requires
            acquired matches NextImageResult::Next(c) ==> c < old(self).spec_frames_data().len(),
        ensures
            match acquired {
                NextImageResult::NeedsRefresh => {
                    &&& r == Err::<(), Error>(Error::SwapchainNeedsRefresh)
                    &&& *final(self) == *old(self)
                },
                NextImageResult::Next(c) => {
                    let fd = old(self).spec_frames_data()[c as int];
                    let n = old(self).spec_actions().len() as int;
                    &&& r is Ok
                    &&& Engine::static_state_eq(*old(self), *final(self))
                    &&& final(self).spec_next_handle() == old(self).spec_next_handle()
                    &&& final(self).spec_current_frame() == c
                    &&& Engine::log_grew(*old(self), *final(self), 4)
                    &&& final(self).spec_actions()[n] == Action::WaitFence(fd.wait_fence)
                    &&& final(self).spec_actions()[n + 1] == Action::ResetFence(fd.wait_fence)
                    &&& submit_action(
                        final(self).spec_actions()[n + 2],
                        seq![fd.present_semaphore],
                        seq![fd.data_primary_cmd],
                        seq![fd.data_semaphore],
                        None,
                    )
                    &&& submit_action(
                        final(self).spec_actions()[n + 3],
                        seq![fd.data_semaphore],
                        seq![fd.second_data_primary_cmd],
                        seq![fd.second_data_semaphore],
                        None,
                    )
                },
            },
    {
        let c = match acquired {
            NextImageResult::Next(c) => c,
            NextImageResult::NeedsRefresh => {
                return Err(Error::SwapchainNeedsRefresh);
            },
        };
        self.current_frame_number = c;
        let fence = self.frames_data[c].wait_fence;
        self.actions.push(Action::WaitFence(fence));
        self.actions.push(Action::ResetFence(fence));
        self.clear_copy_data();
        self.secondary_data_preparing();
        Ok(())
    }

    /// Stage one of the frame: the clear/copy pass. Waits the present
    /// semaphore the acquisition signals and signals stage semaphore A.
    /// The backend records the buffer-manager upload and the clear pass
    /// into this slot's first primary command buffer.
    fn clear_copy_data(&mut self)
        requires
            old(self).spec_current_frame() < old(self).spec_frames_data().len(),
        ensures
            ({
                let fd = old(self).spec_frames_data()[old(self).spec_current_frame()];
                &&& Engine::static_state_eq(*old(self), *final(self))
                &&& final(self).spec_next_handle() == old(self).spec_next_handle()
                &&& final(self).spec_current_frame() == old(self).spec_current_frame()
                &&& Engine::log_grew(*old(self), *final(self), 1)
                &&& submit_action(
                    final(self).spec_actions().last(),
                    seq![fd.present_semaphore],
                    seq![fd.data_primary_cmd],
                    seq![fd.data_semaphore],
                    None,
                )
            }),
    {
        let fd = self.frames_data[self.current_frame_number];
        self.submit(fd.present_semaphore, fd.data_primary_cmd, fd.data_semaphore);
    }

    /// Stage two of the frame: the secondary-data upload, gated on stage
    /// semaphore A and signaling stage semaphore B.
    fn secondary_data_preparing(&mut self)
        requires
            old(self).spec_current_frame() < old(self).spec_frames_data().len(),
        ensures
            ({
                let fd = old(self).spec_frames_data()[old(self).spec_current_frame()];
                &&& Engine::static_state_eq(*old(self), *final(self))
                &&& final(self).spec_next_handle() == old(self).spec_next_handle()
                &&& final(self).spec_current_frame() == old(self).spec_current_frame()
                &&& Engine::log_grew(*old(self), *final(self), 1)
                &&& submit_action(
                    final(self).spec_actions().last(),
                    seq![fd.data_semaphore],
                    seq![fd.second_data_primary_cmd],
                    seq![fd.second_data_semaphore],
                    None,
                )
            }),
    {
        let fd = self.frames_data[self.current_frame_number];
        self.submit(fd.data_semaphore, fd.second_data_primary_cmd, fd.second_data_semaphore);
    }

    /// Ends the tick: the composition submission waits the last node's
    /// semaphore, signals the render-complete semaphore and attaches the
    /// slot's fence, so the next tick on this slot can detect completion;
    /// then the image is presented gated on render-complete.
    pub fn end(&mut self, wait: u64)
        requires
            old(self).spec_current_frame() < old(self).spec_frames_data().len(),
        ensures
            ({
                let fd = old(self).spec_frames_data()[old(self).spec_current_frame()];
                let n = old(self).spec_actions().len() as int;
                &&& Engine::static_state_eq(*old(self), *final(self))
                &&& final(self).spec_next_handle() == old(self).spec_next_handle()
                &&& final(self).spec_current_frame() == old(self).spec_current_frame()
                &&& Engine::log_grew(*old(self), *final(self), 2)
                &&& submit_action(
                    final(self).spec_actions()[n],
                    seq![wait],
                    Seq::<u64>::empty(),
                    seq![fd.render_semaphore],
                    Some(fd.wait_fence),
                )
                &&& final(self).spec_actions()[n + 1] == (Action::Present {
                    image_index: old(self).spec_current_frame() as usize,
                    wait_semaphore: fd.render_semaphore,
                })
            }),
    {
        let fd = self.frames_data[self.current_frame_number];
        let mut waits: Vec<u64> = Vec::new();
        waits.push(wait);
        let cmds: Vec<u64> = Vec::new();
        let mut signals: Vec<u64> = Vec::new();
        signals.push(fd.render_semaphore);
        self.submit_with_fence(&waits, &cmds, &signals, Some(fd.wait_fence));
        self.actions.push(
            Action::Present {
                image_index: self.current_frame_number,
                wait_semaphore: fd.render_semaphore,
            },
        );
    }

    /// Hands the pending actions to the backend, oldest first, and clears
    /// the log.
    pub fn take_actions(&mut self) -> (r: Vec<Action>)
        ensures
            r@ == old(self).spec_actions(),
            final(self).spec_actions().len() == 0,
            Engine::static_state_eq(*old(self), *final(self)),
            final(self).spec_next_handle() == old(self).spec_next_handle(),
            final(self).spec_current_frame() == old(self).spec_current_frame(),
    {
        let mut r: Vec<Action> = Vec::new();
        core::mem::swap(&mut r, &mut self.actions);
        r
    }

    /// Enqueues one submission over several semaphores and buffers at once.
    pub fn submit_multiple(&mut self, waits: &Vec<u64>, cmds: &Vec<u64>, signals: &Vec<u64>)
        ensures
            final(self).spec_actions().len() == old(self).spec_actions().len() + 1,
            Engine::appended(
                *old(self),
                *final(self),
                seq![final(self).spec_actions().last()],
            ),
            submit_action(
                final(self).spec_actions().last(),
                waits@,
                cmds@,
                signals@,
                None,
            ),
    {
        self.submit_with_fence(waits, cmds, signals, None);
    }
}

} // verus!
