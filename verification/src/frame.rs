//! What a frame does, in order: resize the image if the panel asks for it,
//! upload the camera, upload the spheres, dispatch, submit.

use vstd::prelude::*;
use crate::camera::CameraUniform;
use crate::dispatch::{dispatch_for, dispatch_size, DispatchSize};
use crate::layout::{
    camera_uniform_bytes, scene_bytes, scene_fits, scene_len, CAMERA_UNIFORM_SIZE,
};
use crate::pack::PackError;
use crate::scene::SceneStorage;
use crate::storage::{capacity_after, upload_action, StorageSlot, UploadAction};
use crate::target::{resize_action, size_after, RenderTarget, ResizeAction, START_EXTENT};

verus! {

/// Index of the binding group of the image.
pub const TARGET_GROUP: u32 = 0;

/// Index of the binding group of the camera block.
pub const CAMERA_GROUP: u32 = 1;

/// Index of the binding group of the sphere buffer.
pub const SCENE_GROUP: u32 = 2;

/// Whether a frame waits for the device after it has submitted its work.
#[derive(Clone, Copy, Debug, PartialEq, Eq, Structural)]
pub enum SubmitPolicy {
    /// Wait until the submitted work is done: frame times are exact.
    Blocking,
    /// Return at once: frames overlap with the work of the device.
    Pipelined,
}

/// What to make on the device before the first frame.
#[derive(Debug, PartialEq, Eq)]
pub struct StartPlan {
    /// Width of the image.
    pub width: usize,
    /// Height of the image.
    pub height: usize,
    /// What the camera buffer is made with.
    pub camera_bytes: Vec<u8>,
    /// What the sphere buffer is made with.
    pub scene_bytes: Vec<u8>,
}

/// The work of one frame. The caller carries it out in the order of the
/// fields and, if one step fails, drops the rest.
#[derive(Debug, PartialEq, Eq)]
pub struct FramePlan {
    /// What happens to the image.
    pub resize: ResizeAction,
    /// What is written at the start of the camera buffer.
    pub camera_bytes: Vec<u8>,
    /// How `scene_bytes` reach the sphere buffer.
    pub upload: UploadAction,
    /// The sphere buffer's new contents.
    pub scene_bytes: Vec<u8>,
    /// The dispatch, over the image as it is after `resize`.
    pub dispatch: DispatchSize,
    /// Whether to wait for the device after the work is submitted.
    pub wait: bool,
}

/// What the driver knows of the device between frames: the size of the image
/// and the size of the sphere buffer.
#[derive(Clone, Copy, Debug, PartialEq, Eq)]
pub struct FrameDriver {
    target: RenderTarget,
    storage: StorageSlot,
    policy: SubmitPolicy,
}

impl FrameDriver {
    /// Width and height of the image.
    pub closed spec fn target_size(&self) -> (usize, usize) {
        self.target.size()
    }

    /// Bytes of the sphere buffer.
    pub closed spec fn storage_size(&self) -> usize {
        self.storage.size()
    }

    /// Whether frames wait for the device.
    pub closed spec fn policy(&self) -> SubmitPolicy {
        self.policy
    }

    /// The driver of a new session and what to make for it: an image of one
    /// pixel, a camera buffer that holds `camera`, and a sphere buffer that
    /// holds `scene` and nothing more. A scene that no buffer can hold is
    /// refused.
    pub fn start(camera: &CameraUniform, scene: &SceneStorage, policy: SubmitPolicy) -> (started:
        Result<(FrameDriver, StartPlan), PackError>)
        ensures
            !scene_fits(scene@.len()) ==> started is Err && started->Err_0
                == PackError::TooManySpheres,
            scene_fits(scene@.len()) ==> started is Ok && ({
                let (driver, plan) = started->Ok_0;
                &&& driver.target_size() == (START_EXTENT, START_EXTENT)
                &&& driver.storage_size() == scene_len(scene@.len())
                &&& driver.policy() == policy
                &&& plan.width == START_EXTENT
                &&& plan.height == START_EXTENT
                &&& plan.camera_bytes@ == camera_uniform_bytes(*camera)
                &&& plan.camera_bytes@.len() == CAMERA_UNIFORM_SIZE
                &&& plan.scene_bytes@ == scene_bytes(scene@)
                &&& plan.scene_bytes@.len() == scene_len(scene@.len())
            }),
    {
        let scene_bytes = match scene.pack() {
            Ok(bytes) => bytes,
            Err(error) => {
                return Err(error);
            },
        };
        let target = RenderTarget::new();
        let plan = StartPlan {
            width: target.width(),
            height: target.height(),
            camera_bytes: camera.pack(),
            scene_bytes,
        };
        let driver = FrameDriver {
            target,
            storage: StorageSlot::new(plan.scene_bytes.len()),
            policy,
        };
        Ok((driver, plan))
    }

    pub fn target_width(&self) -> (width: usize)
        ensures
            width == self.target_size().0,
            width != 0,
    {
        self.target.width()
    }

    pub fn target_height(&self) -> (height: usize)
        ensures
            height == self.target_size().1,
            height != 0,
    {
        self.target.height()
    }

    pub fn storage_capacity(&self) -> (bytes: usize)
        ensures
            bytes == self.storage_size(),
    {
        self.storage.capacity()
    }

    pub fn submit_policy(&self) -> (policy: SubmitPolicy)
        ensures
            policy == self.policy(),
    {
        self.policy
    }

    /// Plans one frame for the size that the panel reports, the camera and
    /// the scene, and records what the frame does to the image and to the
    /// sphere buffer. A scene that no buffer can hold is refused, and then
    /// nothing is recorded.
    pub fn plan_frame(
        &mut self,
        viewport: (usize, usize),
        camera: &CameraUniform,
        scene: &SceneStorage,
    ) -> (planned: Result<FramePlan, PackError>)
        ensures
            final(self).policy() == old(self).policy(),
            !scene_fits(scene@.len()) ==> {
                &&& planned is Err
                &&& planned->Err_0 == PackError::TooManySpheres
                &&& final(self).target_size() == old(self).target_size()
                &&& final(self).storage_size() == old(self).storage_size()
            },
            scene_fits(scene@.len()) ==> planned is Ok && ({
                let plan = planned->Ok_0;
                let len = scene_len(scene@.len()) as usize;
                &&& plan.resize == resize_action(old(self).target_size(), viewport)
                &&& final(self).target_size() == size_after(old(self).target_size(), viewport)
                &&& plan.camera_bytes@ == camera_uniform_bytes(*camera)
                &&& plan.camera_bytes@.len() == CAMERA_UNIFORM_SIZE
                &&& plan.upload == upload_action(old(self).storage_size(), len)
                &&& final(self).storage_size() == capacity_after(old(self).storage_size(), len)
                &&& final(self).storage_size() >= old(self).storage_size()
                &&& final(self).storage_size() >= len
                &&& plan.scene_bytes@ == scene_bytes(scene@)
                &&& plan.scene_bytes@.len() == len
                &&& plan.dispatch == dispatch_size(
                    final(self).target_size().0,
                    final(self).target_size().1,
                )
                &&& plan.wait == (old(self).policy() == SubmitPolicy::Blocking)
            }),
    {
        let scene_bytes = match scene.pack() {
            Ok(bytes) => bytes,
            Err(error) => {
                return Err(error);
            },
        };
        let resize = self.target.ensure_size(viewport);
        let camera_bytes = camera.pack();
        let upload = self.storage.plan_upload(scene_bytes.len());
        let dispatch = dispatch_for(self.target.width(), self.target.height());
        let wait = match self.policy {
            SubmitPolicy::Blocking => true,
            SubmitPolicy::Pipelined => false,
        };
        Ok(FramePlan { resize, camera_bytes, upload, scene_bytes, dispatch, wait })
    }
}

/// Once the sphere buffer has held `more` spheres it is large enough for
/// every scene of no more spheres: such a scene is written in place, and the
/// buffer keeps its size.
pub proof fn lemma_fewer_spheres_keep_buffer(capacity: usize, more: nat, fewer: nat)
    requires
        fewer <= more,
        scene_fits(more),
    ensures
        scene_fits(fewer),
        capacity_after(capacity, scene_len(more) as usize) >= scene_len(more),
        upload_action(capacity_after(capacity, scene_len(more) as usize), scene_len(fewer) as usize)
            == UploadAction::Overwrite,
        capacity_after(
            capacity_after(capacity, scene_len(more) as usize),
            scene_len(fewer) as usize,
        ) == capacity_after(capacity, scene_len(more) as usize),
{
    assert(fewer * 32 <= more * 32);
}

} // verus!
