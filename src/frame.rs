use vstd::prelude::*;

use crate::camera::{CameraPose, CameraUniform};

verus! {

/// Edge, in pixels, of the square tile that one compute workgroup covers.
pub const TILE_EDGE: u32 = 8;

/// Workgroups needed to cover `pixels` pixels with tiles of `TILE_EDGE`.
pub open spec fn tiles_for(pixels: int) -> int {
    (pixels + TILE_EDGE - 1) / (TILE_EDGE as int)
}

/// Number of workgroups that cover `pixels` pixels: the quotient rounded up.
pub fn workgroup_count(pixels: u32) -> (r: u32)
    ensures
        r == tiles_for(pixels as int),
{
    pixels / TILE_EDGE + if pixels % TILE_EDGE == 0 { 0 } else { 1 }
}

/// The stages of one frame, in the only order in which they may run.
#[derive(Clone, Copy, Debug, PartialEq, Eq, Structural)]
pub enum FramePhase {
    UpdateUniforms,
    RayTrace,
    Denoise(u32),
    Present,
    PaceWait,
}

pub open spec fn spec_next_phase(p: FramePhase) -> FramePhase {
    match p {
        FramePhase::UpdateUniforms => FramePhase::RayTrace,
        FramePhase::RayTrace => FramePhase::Denoise(0),
        FramePhase::Denoise(k) => if k == 0 { FramePhase::Denoise(1) } else { FramePhase::Present },
        FramePhase::Present => FramePhase::PaceWait,
        FramePhase::PaceWait => FramePhase::UpdateUniforms,
    }
}

/// The stage that follows `p`; after the wait the next frame begins.
pub fn next_phase(p: FramePhase) -> (r: FramePhase)
    ensures
        r == spec_next_phase(p),
{
    match p {
        FramePhase::UpdateUniforms => FramePhase::RayTrace,
        FramePhase::RayTrace => FramePhase::Denoise(0),
        FramePhase::Denoise(k) => if k == 0 { FramePhase::Denoise(1) } else { FramePhase::Present },
        FramePhase::Present => FramePhase::PaceWait,
        FramePhase::PaceWait => FramePhase::UpdateUniforms,
    }
}

/// One step of the GPU work of a frame, for the caller to carry out in order.
#[derive(Clone, Copy, Debug, PartialEq, Eq, Structural)]
pub enum FrameCommand {
    /// Write the live camera uniform to its buffer.
    UploadCamera,
    /// Write the shader configuration to its buffer.
    UploadShaderConfig,
    /// Wait for the next presentable surface image.
    AcquireSurface,
    /// Dispatch the ray-generation pipeline over the output image.
    RayTrace { groups_x: u32, groups_y: u32 },
    /// Write the denoise pass index uniform.
    SetDenoisePass(u32),
    /// Dispatch the denoise pipeline over the output image.
    Denoise { groups_x: u32, groups_y: u32 },
    /// Submit the commands recorded so far to the queue.
    Submit,
    /// Draw the colour buffer as a full-screen quad.
    DrawScreen,
    /// Write the live camera uniform to the denoise-reference buffer.
    UploadReferenceCamera,
    /// Draw the settings overlay on the same target.
    DrawOverlay,
    /// Present the surface image.
    Present,
}

/// The GPU work of one frame over a `width` by `height` output.
pub open spec fn spec_frame_plan(width: u32, height: u32) -> Seq<FrameCommand> {
    let gx = tiles_for(width as int) as u32;
    let gy = tiles_for(height as int) as u32;
    seq![
        FrameCommand::UploadCamera,
        FrameCommand::UploadShaderConfig,
        FrameCommand::AcquireSurface,
        FrameCommand::RayTrace { groups_x: gx, groups_y: gy },
        FrameCommand::SetDenoisePass(0),
        FrameCommand::Denoise { groups_x: gx, groups_y: gy },
        FrameCommand::Submit,
        FrameCommand::SetDenoisePass(1),
        FrameCommand::Denoise { groups_x: gx, groups_y: gy },
        FrameCommand::Submit,
        FrameCommand::DrawScreen,
        FrameCommand::UploadReferenceCamera,
        FrameCommand::DrawOverlay,
        FrameCommand::Submit,
        FrameCommand::Present,
    ]
}

/// The commands of one frame: uniforms, ray tracing, denoise pass 0, denoise
/// pass 1, presentation with the overlay. Each submission holds only work
/// whose inputs earlier submissions produced, and the denoise-reference
/// camera is written only after both denoise passes were submitted.
pub fn frame_plan(width: u32, height: u32) -> (r: Vec<FrameCommand>)
    ensures
        r@ == spec_frame_plan(width, height),
{
    let gx = workgroup_count(width);
    let gy = workgroup_count(height);
    let mut r: Vec<FrameCommand> = Vec::new();
    r.push(FrameCommand::UploadCamera);
    r.push(FrameCommand::UploadShaderConfig);
    r.push(FrameCommand::AcquireSurface);
    r.push(FrameCommand::RayTrace { groups_x: gx, groups_y: gy });
    r.push(FrameCommand::SetDenoisePass(0));
    r.push(FrameCommand::Denoise { groups_x: gx, groups_y: gy });
    r.push(FrameCommand::Submit);
    r.push(FrameCommand::SetDenoisePass(1));
    r.push(FrameCommand::Denoise { groups_x: gx, groups_y: gy });
    r.push(FrameCommand::Submit);
    r.push(FrameCommand::DrawScreen);
    r.push(FrameCommand::UploadReferenceCamera);
    r.push(FrameCommand::DrawOverlay);
    r.push(FrameCommand::Submit);
    r.push(FrameCommand::Present);
    assert(r@ =~= spec_frame_plan(width, height));
    r
}

/// The commands from `AcquireSurface` on, once its outcome is known: the
/// rest of the plan when a surface image was acquired, and nothing when it
/// was not. A frame without a surface image encodes no pass, writes neither
/// the pass index nor the denoise-reference camera, and presents nothing.
pub fn frame_rest(width: u32, height: u32, acquired: bool) -> (r: Vec<FrameCommand>)
    ensures
        acquired ==> r@ == spec_frame_plan(width, height).subrange(3, 15),
        !acquired ==> r@ == Seq::<FrameCommand>::empty(),
{
    if !acquired {
        return Vec::new();
    }
    let plan = frame_plan(width, height);
    let mut r: Vec<FrameCommand> = Vec::new();
    let mut i: usize = 3;
    while i < plan.len()
        invariant
            plan@ == spec_frame_plan(width, height),
            3 <= i <= 15,
            r@ == plan@.subrange(3, i as int),
        decreases 15 - i,
    {
        r.push(plan[i]);
        i = i + 1;
        assert(r@ =~= plan@.subrange(3, i as int));
    }
    r
}

/// What the orchestrator keeps from frame to frame: the output size, the
/// camera's aspect ratio as `aspect_width : aspect_height`, the live camera
/// uniform and the denoise-reference copy of it.
#[derive(Clone, Copy, Debug)]
pub struct FrameState {
    pub width: u32,
    pub height: u32,
    pub aspect_width: u32,
    pub aspect_height: u32,
    pub live: CameraUniform,
    pub reference: CameraUniform,
}

/// `s` after the uniforms of a frame were updated with `pose`.
pub open spec fn began(s: FrameState, pose: CameraPose) -> FrameState {
    FrameState { live: CameraUniform { frame: CameraUniform::next_frame(s.live.frame), pose }, ..s }
}

/// `s` after the frame was presented: the reference copy is the live one.
pub open spec fn presented(s: FrameState) -> FrameState {
    FrameState { reference: s.live, ..s }
}

/// Output size, or none for a zero-area size.
pub open spec fn resized(s: FrameState, width: u32, height: u32) -> FrameState {
    if width == 0 || height == 0 {
        s
    } else {
        FrameState { width, height, aspect_width: width, aspect_height: height, ..s }
    }
}

impl FrameState {
    /// The state before the first frame: both camera copies hold `camera`.
    pub fn new(width: u32, height: u32, camera: CameraUniform) -> (r: FrameState)
        ensures
            r == (FrameState {
                width,
                height,
                aspect_width: width,
                aspect_height: height,
                live: camera,
                reference: camera,
            }),
    {
        FrameState { width, height, aspect_width: width, aspect_height: height, live: camera, reference: camera }
    }

    /// The update stage: the live camera takes `pose` and counts one frame.
    pub fn begin_frame(&mut self, pose: CameraPose)
        ensures
            *final(self) == began(*old(self), pose),
    {
        self.live.update_view_proj(pose);
        self.live.update_frame();
    }

    /// After presentation: the reference copy takes the pose just used, so
    /// the next frame's temporal filter compares against this one.
    pub fn finish_frame(&mut self)
        ensures
            *final(self) == presented(*old(self)),
    {
        self.reference = self.live;
    }

    /// Ends a frame: the reference copy is updated only when the frame was
    /// presented; a frame that got no surface image leaves it as it was.
    pub fn end_frame(&mut self, was_presented: bool)
        ensures
            was_presented ==> *final(self) == presented(*old(self)),
            !was_presented ==> *final(self) == *old(self),
    {
        if was_presented {
            self.finish_frame();
        }
    }

    /// A new output size. A zero-area size (a minimised window) is ignored
    /// and `false` returned; otherwise the output size and the camera's
    /// aspect ratio take the new size and `true` says that the colour,
    /// history and surface resources must be recreated at it.
    pub fn resize(&mut self, width: u32, height: u32) -> (r: bool)
        ensures
            r == (width > 0 && height > 0),
            *final(self) == resized(*old(self), width, height),
    {
        if width > 0 && height > 0 {
            self.width = width;
            self.height = height;
            self.aspect_width = width;
            self.aspect_height = height;
            true
        } else {
            false
        }
    }

    /// The commands of the next frame at the current output size.
    pub fn plan(&self) -> (r: Vec<FrameCommand>)
        ensures
            r@ == spec_frame_plan(self.width, self.height),
    {
        frame_plan(self.width, self.height)
    }
}

/// The denoise passes of a frame read the reference camera of the frame
/// before: over two frames, what the second frame's passes see is the first
/// frame's live camera, and only after the second frame is presented does
/// the reference take the second frame's pose. With a stationary camera the
/// two poses agree and only the frame counter tells the frames apart.
pub proof fn lemma_reference_lags_one_frame(s0: FrameState, pose1: CameraPose, pose2: CameraPose)
    ensures
        ({
            let frame1 = began(s0, pose1);
            let s1 = presented(frame1);
            let frame2 = began(s1, pose2);
            &&& frame2.reference == frame1.live
            &&& frame2.reference.pose == pose1
            &&& presented(frame2).reference == frame2.live
            &&& (pose1 == pose2 ==> frame2.reference.pose == frame2.live.pose)
            &&& frame2.live.frame == CameraUniform::next_frame(frame2.reference.frame)
        }),
{
}

/// Nanoseconds to sleep before the next frame: what is left of the interval
/// of a `frame_limit` frames-per-second cap after `elapsed_nanos`; no wait
/// when uncapped (`0`) or when the frame took the whole interval.
pub open spec fn spec_frame_wait(frame_limit: u32, elapsed_nanos: u64) -> u64 {
    if frame_limit == 0 {
        0
    } else {
        let budget = 1_000_000_000u64 / frame_limit as u64;
        if elapsed_nanos < budget { (budget - elapsed_nanos) as u64 } else { 0 }
    }
}

pub fn frame_wait_nanos(frame_limit: u32, elapsed_nanos: u64) -> (r: u64)
    ensures
        r == spec_frame_wait(frame_limit, elapsed_nanos),
{
    if frame_limit == 0 {
        return 0;
    }
    let budget = 1_000_000_000u64 / frame_limit as u64;
    if elapsed_nanos < budget {
        budget - elapsed_nanos
    } else {
        0
    }
}

/// Why the next surface image could not be had.
#[derive(Clone, Copy, Debug, PartialEq, Eq, Structural)]
pub enum SurfaceError {
    Lost,
    Outdated,
    OutOfMemory,
    Timeout,
}

/// What to do about a surface error.
#[derive(Clone, Copy, Debug, PartialEq, Eq, Structural)]
pub enum SurfaceAction {
    /// Reconfigure the surface at the current size and go on.
    Reconfigure,
    /// End the session.
    Exit,
    /// Skip this frame and go on.
    Skip,
}

/// A lost or outdated surface is reconfigured, running out of memory ends
/// the session, and a timeout only skips the frame.
pub fn surface_error_action(e: SurfaceError) -> (r: SurfaceAction)
    ensures
        (e == SurfaceError::Lost || e == SurfaceError::Outdated) ==> r == SurfaceAction::Reconfigure,
        e == SurfaceError::OutOfMemory ==> r == SurfaceAction::Exit,
        e == SurfaceError::Timeout ==> r == SurfaceAction::Skip,
{
    match e {
        SurfaceError::Lost | SurfaceError::Outdated => SurfaceAction::Reconfigure,
        SurfaceError::OutOfMemory => SurfaceAction::Exit,
        SurfaceError::Timeout => SurfaceAction::Skip,
    }
}

} // verus!
