use vstd::prelude::*;

use crate::error::Error;
use crate::native::{ImageDesc, NativeImage, SampleDesc, SIMULTANEOUS_RENDER_TARGET_COUNT};
use crate::resource::{
    pool_mapping, pool_mapping_spec, BIND_DEPTH_STENCIL, BIND_RENDER_TARGET, BIND_SHADER_RESOURCE,
    Resource, ResourceKind, POOL_DEFAULT, POOL_SYSTEMMEM, USAGE_DEPTHSTENCIL, USAGE_RENDERTARGET,
};
use crate::surface::{Surface, SurfaceData};

verus! {

/// Presentation flag asking that the automatic depth / stencil buffer be
/// discarded after each present.
pub const PRESENTFLAG_DISCARD_DEPTHSTENCIL: u32 = 0x2;

/// The parameters a device was created with.
#[derive(Clone, Copy, Debug, PartialEq, Eq, Structural)]
pub struct CreationParameters {
    pub adapter: u32,
    pub device_type: u32,
    /// The focus window's handle; zero for none.
    pub focus_window: u64,
    pub behavior_flags: u32,
}

/// The presentation parameters that the device reads.
#[derive(Clone, Copy, Debug, PartialEq, Eq, Structural)]
pub struct PresentParameters {
    pub back_buffer_width: u32,
    pub back_buffer_height: u32,
    pub back_buffer_format: u32,
    /// The device window's handle; zero for none.
    pub device_window: u64,
    pub enable_auto_depth_stencil: bool,
    pub auto_depth_stencil_format: u32,
    pub flags: u32,
}

/// A request that is accepted but not honoured.
#[derive(Clone, Copy, Debug, PartialEq, Eq, Structural)]
pub enum Unsupported {
    /// A lockable render target was asked for.
    LockableRenderTarget,
    /// A depth / stencil buffer that is discarded was asked for.
    DiscardDepthStencil,
    /// The memory pool is not one that the pool table knows.
    MemoryPool(u32),
}

/// The native image to create for a legacy resource, and what of the request
/// was not honoured.
#[derive(Clone, Copy, Debug, PartialEq, Eq, Structural)]
pub struct ImagePlan {
    pub desc: ImageDesc,
    pub note: Option<Unsupported>,
}

/// The native output-merger binding: how many render target slots are in
/// use, the view in each native slot (zero for none), and the depth / stencil
/// view (zero for none).
#[derive(Clone, Debug, PartialEq, Eq)]
pub struct OutputTargets {
    pub count: u32,
    pub render_target_views: Vec<u64>,
    pub depth_stencil_view: u64,
}

/// A rectangle in legacy coordinates.
#[derive(Clone, Copy, Debug, PartialEq, Eq, Structural)]
pub struct Rect {
    pub left: i32,
    pub top: i32,
    pub right: i32,
    pub bottom: i32,
}

/// A point in legacy coordinates.
#[derive(Clone, Copy, Debug, PartialEq, Eq, Structural)]
pub struct Point {
    pub x: i32,
    pub y: i32,
}

/// A native box: a region of a subresource.
#[derive(Clone, Copy, Debug, PartialEq, Eq, Structural)]
pub struct CopyBox {
    pub left: u32,
    pub top: u32,
    pub front: u32,
    pub right: u32,
    pub bottom: u32,
    pub back: u32,
}

/// A native copy of a region of one subresource into another.
#[derive(Clone, Copy, Debug, PartialEq, Eq, Structural)]
pub struct CopyRequest {
    pub dest_resource: u64,
    pub dest_subresource: u32,
    pub dest_x: u32,
    pub dest_y: u32,
    pub dest_z: u32,
    pub src_resource: u64,
    pub src_subresource: u32,
    /// The region to copy; `None` copies the whole subresource.
    pub src_box: Option<CopyBox>,
}

/// The legacy-visible state of a device.
pub struct DeviceView {
    pub device: u64,
    pub context: u64,
    pub creation_params: CreationParameters,
    pub window: u64,
    pub swap_chains: Seq<u64>,
    pub render_targets: Seq<Option<Surface>>,
    pub depth_stencil: Option<Surface>,
}

pub open spec fn owns_render_target_view(s: Surface) -> bool {
    s.render_target_view_spec() is Some
}

pub open spec fn owns_depth_stencil_view(s: Surface) -> bool {
    s.depth_stencil_view_spec() is Some
}

/// A device's state is well formed: one implicit swap chain; between one
/// slot and the native limit of render target slots, the first always bound;
/// every bound render target owns a render target view, and a bound depth /
/// stencil buffer owns a depth / stencil view.
pub open spec fn view_wf(v: DeviceView) -> bool {
    &&& v.swap_chains.len() == 1
    &&& 1 <= v.render_targets.len() <= SIMULTANEOUS_RENDER_TARGET_COUNT
    &&& v.render_targets[0] is Some
    &&& forall|k: int|
        0 <= k < v.render_targets.len() && (#[trigger] v.render_targets[k]) is Some
            ==> owns_render_target_view(v.render_targets[k].unwrap())
    &&& v.depth_stencil is Some ==> owns_depth_stencil_view(v.depth_stencil.unwrap())
}

/// The window a device renders to: the device window, else the focus window.
pub open spec fn window_spec(cp: CreationParameters, pp: PresentParameters) -> Result<u64, Error> {
    if pp.device_window != 0 {
        Ok(pp.device_window)
    } else if cp.focus_window != 0 {
        Ok(cp.focus_window)
    } else {
        Err(Error::InvalidCall)
    }
}

pub open spec fn render_target_plan_spec(
    width: u32,
    height: u32,
    format: u32,
    samples: SampleDesc,
    lockable: u32,
) -> ImagePlan {
    let placement = pool_mapping_spec(POOL_DEFAULT, BIND_RENDER_TARGET);
    ImagePlan {
        desc: ImageDesc {
            width,
            height,
            mip_levels: 1,
            array_size: 1,
            format,
            samples,
            usage: placement.usage,
            bind_flags: placement.bind_flags,
            cpu_access: placement.cpu_access,
        },
        note: if lockable != 0 {
            Some(Unsupported::LockableRenderTarget)
        } else {
            None
        },
    }
}

pub open spec fn depth_stencil_plan_spec(
    width: u32,
    height: u32,
    format: u32,
    discard: u32,
) -> ImagePlan {
    let placement = pool_mapping_spec(POOL_DEFAULT, BIND_DEPTH_STENCIL);
    ImagePlan {
        desc: ImageDesc {
            width,
            height,
            mip_levels: 1,
            array_size: 1,
            format,
            samples: SampleDesc { count: 1, quality: 0 },
            usage: placement.usage,
            bind_flags: placement.bind_flags,
            cpu_access: placement.cpu_access,
        },
        note: if discard != 0 {
            Some(Unsupported::DiscardDepthStencil)
        } else {
            None
        },
    }
}

pub open spec fn texture_plan_spec(
    width: u32,
    height: u32,
    levels: u32,
    format: u32,
    pool: u32,
) -> ImagePlan {
    let placement = pool_mapping_spec(pool, BIND_SHADER_RESOURCE);
    ImagePlan {
        desc: ImageDesc {
            width,
            height,
            mip_levels: levels,
            array_size: 1,
            format,
            samples: SampleDesc { count: 1, quality: 0 },
            usage: placement.usage,
            bind_flags: placement.bind_flags,
            cpu_access: placement.cpu_access,
        },
        note: if placement.recognized {
            None
        } else {
            Some(Unsupported::MemoryPool(pool))
        },
    }
}

/// The surface that wraps a render target image and its view.
pub open spec fn render_target_surface_spec(device: u64, image: NativeImage, view: u64) -> Surface {
    Surface {
        resource: Resource {
            device,
            usage: USAGE_RENDERTARGET,
            pool: POOL_DEFAULT,
            kind: ResourceKind::Surface,
        },
        image,
        data: SurfaceData::RenderTarget(view),
    }
}

/// The surface that wraps a depth / stencil image and its view.
pub open spec fn depth_stencil_surface_spec(device: u64, image: NativeImage, view: u64) -> Surface {
    Surface {
        resource: Resource {
            device,
            usage: USAGE_DEPTHSTENCIL,
            pool: POOL_DEFAULT,
            kind: ResourceKind::Surface,
        },
        image,
        data: SurfaceData::DepthStencil(view),
    }
}

/// `setRenderTarget(i, rt)` is refused: the slot is past the native limit,
/// the first slot would be unbound, or the surface owns no render target view.
pub open spec fn render_target_rejected(i: u32, rt: Option<Surface>) -> bool {
    ||| i >= SIMULTANEOUS_RENDER_TARGET_COUNT
    ||| (i == 0 && rt is None)
    ||| (rt is Some && !owns_render_target_view(rt.unwrap()))
}

/// The render target slots after binding `rt` at slot `i`: grown with empty
/// slots as far as `i`, with `rt` at `i`, the others kept.
pub open spec fn with_render_target(rts: Seq<Option<Surface>>, i: int, rt: Option<Surface>) -> Seq<
    Option<Surface>,
> {
    let len = if i < rts.len() {
        rts.len() as int
    } else {
        i + 1
    };
    Seq::new(
        len as nat,
        |k: int|
            if k == i {
                rt
            } else if k < rts.len() {
                rts[k]
            } else {
                None
            },
    )
}

/// What `getRenderTarget(i)` returns.
pub open spec fn render_target_spec(rts: Seq<Option<Surface>>, i: u32) -> Result<Surface, Error> {
    if (i as int) < rts.len() && rts[i as int] is Some {
        Ok(rts[i as int].unwrap())
    } else {
        Err(Error::NotFound)
    }
}

/// The native view bound at output slot `k`.
pub open spec fn rt_view_slot(rts: Seq<Option<Surface>>, k: int) -> u64 {
    if 0 <= k < rts.len() {
        match rts[k] {
            Some(s) => match s.render_target_view_spec() {
                Some(view) => view,
                None => 0,
            },
            None => 0,
        }
    } else {
        0
    }
}

pub open spec fn rt_view_slots(rts: Seq<Option<Surface>>) -> Seq<u64> {
    Seq::new(SIMULTANEOUS_RENDER_TARGET_COUNT as nat, |k: int| rt_view_slot(rts, k))
}

pub open spec fn ds_view_handle(ds: Option<Surface>) -> u64 {
    match ds {
        Some(s) => match s.depth_stencil_view_spec() {
            Some(view) => view,
            None => 0,
        },
        None => 0,
    }
}

/// The output-merger binding that mirrors the given bindings.
pub open spec fn output_targets_match(
    r: OutputTargets,
    rts: Seq<Option<Surface>>,
    ds: Option<Surface>,
) -> bool {
    &&& r.count as int == rts.len()
    &&& r.render_target_views@ == rt_view_slots(rts)
    &&& r.depth_stencil_view == ds_view_handle(ds)
}

/// The native copy that `updateSurface` makes, where the pools allow it.
pub open spec fn copy_request_spec(
    src: Surface,
    src_rect: Option<Rect>,
    dest: Surface,
    dest_point: Point,
) -> CopyRequest {
    CopyRequest {
        dest_resource: dest.image.handle,
        dest_subresource: dest.subresource_index(),
        dest_x: dest_point.x as u32,
        dest_y: dest_point.y as u32,
        dest_z: 0,
        src_resource: src.image.handle,
        src_subresource: src.subresource_index(),
        src_box: match src_rect {
            Some(r) => Some(
                CopyBox {
                    left: r.left as u32,
                    top: r.top as u32,
                    front: 0,
                    right: r.right as u32,
                    bottom: r.bottom as u32,
                    back: 1,
                },
            ),
            None => None,
        },
    }
}

/// A logical device: its implicit swap chain, the bound render targets and
/// depth / stencil buffer, and what it was created with. Every change of the
/// bindings hands back the native output-merger binding that mirrors them.
pub struct Device {
    device: u64,
    context: u64,
    creation_params: CreationParameters,
    window: u64,
    swap_chains: Vec<u64>,
    render_targets: Vec<Option<Surface>>,
    depth_stencil: Option<Surface>,
}

impl View for Device {
    type V = DeviceView;

    closed spec fn view(&self) -> DeviceView {
        DeviceView {
            device: self.device,
            context: self.context,
            creation_params: self.creation_params,
            window: self.window,
            swap_chains: self.swap_chains@,
            render_targets: self.render_targets@,
            depth_stencil: self.depth_stencil,
        }
    }
}

impl Device {
    pub open spec fn wf(&self) -> bool {
        view_wf(self@)
    }

    /// Resolves the window to render to: the device window of the
    /// presentation parameters, else the focus window of the creation
    /// parameters; `InvalidCall` where neither is set.
    pub fn resolve_window(cp: &CreationParameters, pp: &PresentParameters) -> (r: Result<
        u64,
        Error,
    >)
        ensures
            r == window_spec(*cp, *pp),
    {
        if pp.device_window != 0 {
            Ok(pp.device_window)
        } else if cp.focus_window != 0 {
            Ok(cp.focus_window)
        } else {
            Err(Error::InvalidCall)
        }
    }

    /// The depth / stencil buffer that the presentation parameters ask the
    /// device to create, if any: the size of the back buffer, single sampled.
    pub fn auto_depth_stencil(pp: &PresentParameters) -> (r: Option<ImagePlan>)
        ensures
            pp.enable_auto_depth_stencil ==> r == Some(
                depth_stencil_plan_spec(
                    pp.back_buffer_width,
                    pp.back_buffer_height,
                    pp.auto_depth_stencil_format,
                    pp.flags & PRESENTFLAG_DISCARD_DEPTHSTENCIL,
                ),
            ),
            !pp.enable_auto_depth_stencil ==> r is None,
    {
        if pp.enable_auto_depth_stencil {
            Some(
                Self::depth_stencil_plan(
                    pp.back_buffer_width,
                    pp.back_buffer_height,
                    pp.auto_depth_stencil_format,
                    pp.flags & PRESENTFLAG_DISCARD_DEPTHSTENCIL,
                ),
            )
        } else {
            None
        }
    }

    /// Creates the device `device` from its implicit swap chain, that chain's
    /// first back buffer with a render target view of it, and the automatic
    /// depth / stencil buffer with its view, where the presentation parameters
    /// ask for one. Fails `InvalidCall` where no window can be resolved, or
    /// where a depth / stencil buffer is given that was not asked for or is
    /// missing. The back buffer is bound at the first render target slot.
    pub fn new(
        device: u64,
        context: u64,
        cp: CreationParameters,
        pp: &PresentParameters,
        swap_chain: u64,
        back_buffer: NativeImage,
        back_buffer_view: u64,
        depth_stencil: Option<(NativeImage, u64)>,
    ) -> (r: Result<Device, Error>)
        ensures
            r is Ok <==> (window_spec(cp, *pp) is Ok && (depth_stencil is Some
                == pp.enable_auto_depth_stencil)),
            r is Err ==> r == Err::<Device, Error>(Error::InvalidCall),
            r matches Ok(d) ==> {
                &&& d.wf()
                &&& d@.device == device
                &&& d@.context == context
                &&& d@.creation_params == cp
                &&& Ok::<u64, Error>(d@.window) == window_spec(cp, *pp)
                &&& d@.swap_chains == seq![swap_chain]
                &&& d@.render_targets == seq![
                    Some(render_target_surface_spec(device, back_buffer, back_buffer_view)),
                ]
                &&& d@.depth_stencil == match depth_stencil {
                    Some((image, view)) => Some(depth_stencil_surface_spec(device, image, view)),
                    None => None,
                }
            },
    {
        let window = Self::resolve_window(&cp, pp)?;
        if depth_stencil.is_some() != pp.enable_auto_depth_stencil {
            return Err(Error::InvalidCall);
        }
        let ds = match depth_stencil {
            Some((image, view)) => Some(
                Surface::new(
                    device,
                    image,
                    USAGE_DEPTHSTENCIL,
                    POOL_DEFAULT,
                    SurfaceData::DepthStencil(view),
                ),
            ),
            None => None,
        };
        let mut swap_chains: Vec<u64> = Vec::new();
        swap_chains.push(swap_chain);
        let mut render_targets: Vec<Option<Surface>> = Vec::new();
        render_targets.push(
            Some(
                Surface::new(
                    device,
                    back_buffer,
                    USAGE_RENDERTARGET,
                    POOL_DEFAULT,
                    SurfaceData::RenderTarget(back_buffer_view),
                ),
            ),
        );
        let d = Device {
            device,
            context,
            creation_params: cp,
            window,
            swap_chains,
            render_targets,
            depth_stencil: ds,
        };
        assert(d@.swap_chains =~= seq![swap_chain]);
        assert(d@.render_targets =~= seq![
            Some(render_target_surface_spec(device, back_buffer, back_buffer_view)),
        ]);
        Ok(d)
    }

    /// The native device this device issues its work to.
    pub fn native_device(&self) -> (r: u64)
        ensures
            r == self@.device,
    {
        self.device
    }

    /// The adapter this device was created on.
    pub fn adapter(&self) -> (r: u32)
        ensures
            r == self@.creation_params.adapter,
    {
        self.creation_params.adapter
    }

    /// The native immediate context, shared by every resource of this device.
    pub fn device_context(&self) -> (r: u64)
        ensures
            r == self@.context,
    {
        self.context
    }

    /// The window this device renders to.
    pub fn window(&self) -> (r: u64)
        ensures
            r == self@.window,
    {
        self.window
    }

    /// The parameters this device was created with.
    pub fn get_creation_parameters(&self) -> (r: CreationParameters)
        ensures
            r == self@.creation_params,
    {
        self.creation_params
    }

    /// The number of implicit swap chains, which is always one.
    pub fn get_number_of_swap_chains(&self) -> (r: u32)
        ensures
            r == 1,
    {
        1
    }

    /// The implicit swap chain at `index`; `InvalidCall` where there is none.
    pub fn get_swap_chain(&self, index: u32) -> (r: Result<u64, Error>)
        ensures
            (index as int) < self@.swap_chains.len() ==> r == Ok::<u64, Error>(
                self@.swap_chains[index as int],
            ),
            (index as int) >= self@.swap_chains.len() ==> r == Err::<u64, Error>(
                Error::InvalidCall,
            ),
    {
        if (index as usize) < self.swap_chains.len() {
            Ok(self.swap_chains[index as usize])
        } else {
            Err(Error::InvalidCall)
        }
    }

    /// The implicit swap chains, in the order in which they are presented.
    pub fn swap_chains(&self) -> (r: &Vec<u64>)
        ensures
            r@ == self@.swap_chains,
    {
        &self.swap_chains
    }

    /// The native image to create for a render target. Fails `InvalidCall`
    /// for a shared resource; a lockable one is accepted and noted as not
    /// honoured.
    pub fn create_render_target(
        &self,
        width: u32,
        height: u32,
        format: u32,
        multisample_type: u32,
        multisample_quality: u32,
        lockable: u32,
        shared_handle: u64,
    ) -> (r: Result<ImagePlan, Error>)
        ensures
            shared_handle != 0 ==> r == Err::<ImagePlan, Error>(Error::InvalidCall),
            shared_handle == 0 ==> r == Ok::<ImagePlan, Error>(
                render_target_plan_spec(
                    width,
                    height,
                    format,
                    crate::native::samples_from_legacy_spec(multisample_type, multisample_quality),
                    lockable,
                ),
            ),
    {
        if shared_handle != 0 {
            return Err(Error::InvalidCall);
        }
        let placement = pool_mapping(POOL_DEFAULT, BIND_RENDER_TARGET);
        let desc = ImageDesc {
            width,
            height,
            mip_levels: 1,
            array_size: 1,
            format,
            samples: crate::native::samples_from_legacy(multisample_type, multisample_quality),
            usage: placement.usage,
            bind_flags: placement.bind_flags,
            cpu_access: placement.cpu_access,
        };
        let note = if lockable != 0 {
            Some(Unsupported::LockableRenderTarget)
        } else {
            None
        };
        Ok(ImagePlan { desc, note })
    }

    /// Wraps a render target image and its view in a surface.
    pub fn render_target_surface(&self, image: NativeImage, view: u64) -> (r: Surface)
        ensures
            r == render_target_surface_spec(self@.device, image, view),
    {
        Surface::new(self.device, image, USAGE_RENDERTARGET, POOL_DEFAULT, SurfaceData::RenderTarget(view))
    }

    /// The native image for a depth / stencil buffer: always single sampled.
    pub fn depth_stencil_plan(width: u32, height: u32, format: u32, discard: u32) -> (r: ImagePlan)
        ensures
            r == depth_stencil_plan_spec(width, height, format, discard),
    {
        let placement = pool_mapping(POOL_DEFAULT, BIND_DEPTH_STENCIL);
        let desc = ImageDesc {
            width,
            height,
            mip_levels: 1,
            array_size: 1,
            format,
            samples: SampleDesc { count: 1, quality: 0 },
            usage: placement.usage,
            bind_flags: placement.bind_flags,
            cpu_access: placement.cpu_access,
        };
        let note = if discard != 0 {
            Some(Unsupported::DiscardDepthStencil)
        } else {
            None
        };
        ImagePlan { desc, note }
    }

    /// The native image to create for a depth / stencil buffer. Fails
    /// `InvalidCall` for a shared resource. The multisample request is not
    /// followed: depth / stencil buffers have one sample. Discarding is
    /// accepted and noted as not honoured.
    pub fn create_depth_stencil_surface(
        &self,
        width: u32,
        height: u32,
        format: u32,
        multisample_type: u32,
        multisample_quality: u32,
        discard: u32,
        shared_handle: u64,
    ) -> (r: Result<ImagePlan, Error>)
        ensures
            shared_handle != 0 ==> r == Err::<ImagePlan, Error>(Error::InvalidCall),
            shared_handle == 0 ==> r == Ok::<ImagePlan, Error>(
                depth_stencil_plan_spec(width, height, format, discard),
            ),
    {
        if shared_handle != 0 {
            return Err(Error::InvalidCall);
        }
        Ok(Self::depth_stencil_plan(width, height, format, discard))
    }

    /// Wraps a depth / stencil image and its view in a surface.
    pub fn depth_stencil_surface(&self, image: NativeImage, view: u64) -> (r: Surface)
        ensures
            r == depth_stencil_surface_spec(self@.device, image, view),
    {
        Surface::new(self.device, image, USAGE_DEPTHSTENCIL, POOL_DEFAULT, SurfaceData::DepthStencil(view))
    }

    /// The native image to create for a texture with `levels` mip levels in
    /// `pool`, placed as the pool table says. Fails `InvalidCall` for a shared
    /// resource; a pool the table does not know is noted, and gets defaults.
    /// Textures with usage flags are not supported.
    pub fn create_texture(
        &self,
        width: u32,
        height: u32,
        levels: u32,
        usage: u32,
        format: u32,
        pool: u32,
        shared_handle: u64,
    ) -> (r: Result<ImagePlan, Error>)
        requires
            usage == 0,
        ensures
            shared_handle != 0 ==> r == Err::<ImagePlan, Error>(Error::InvalidCall),
            shared_handle == 0 ==> r == Ok::<ImagePlan, Error>(
                texture_plan_spec(width, height, levels, format, pool),
            ),
    {
        if shared_handle != 0 {
            return Err(Error::InvalidCall);
        }
        let placement = pool_mapping(pool, BIND_SHADER_RESOURCE);
        let desc = ImageDesc {
            width,
            height,
            mip_levels: levels,
            array_size: 1,
            format,
            samples: SampleDesc { count: 1, quality: 0 },
            usage: placement.usage,
            bind_flags: placement.bind_flags,
            cpu_access: placement.cpu_access,
        };
        let note = if placement.recognized {
            None
        } else {
            Some(Unsupported::MemoryPool(pool))
        };
        Ok(ImagePlan { desc, note })
    }

    /// The native output-merger binding that mirrors the current render
    /// targets and depth / stencil buffer.
    pub fn update_render_targets(&self) -> (r: OutputTargets)
        requires
            self.wf(),
        ensures
            output_targets_match(r, self@.render_targets, self@.depth_stencil),
    {
        let slots: usize = SIMULTANEOUS_RENDER_TARGET_COUNT as usize;
        let mut views: Vec<u64> = Vec::new();
        let mut k: usize = 0;
        while k < slots
            invariant
                slots == SIMULTANEOUS_RENDER_TARGET_COUNT,
                k <= slots,
                views@.len() == k,
                forall|j: int| 0 <= j < k ==> views@[j] == rt_view_slot(self@.render_targets, j),
            decreases slots - k,
        {
            let mut view: u64 = 0;
            if k < self.render_targets.len() {
                if let Some(rt) = self.render_targets[k] {
                    if let Some(v) = rt.render_target_view() {
                        view = v;
                    }
                }
            }
            views.push(view);
            k = k + 1;
        }
        let ds_view = match self.depth_stencil {
            Some(ds) => match ds.depth_stencil_view() {
                Some(v) => v,
                None => 0,
            },
            None => 0,
        };
        assert(views@ =~= rt_view_slots(self@.render_targets));
        OutputTargets {
            count: self.render_targets.len() as u32,
            render_target_views: views,
            depth_stencil_view: ds_view,
        }
    }

    /// Binds `rt` at render target slot `i`, or unbinds the slot where `rt`
    /// is `None`, growing the slots with empty ones as needed; returns the
    /// output-merger binding that mirrors the result. Fails `InvalidCall`,
    /// changing nothing, where `i` is past the native limit, the first slot
    /// would be unbound, or the surface owns no render target view.
    pub fn set_render_target(&mut self, i: u32, rt: Option<Surface>) -> (r: Result<
        OutputTargets,
        Error,
    >)
        requires
            old(self).wf(),
        ensures
            final(self).wf(),
            r is Err <==> render_target_rejected(i, rt),
            r is Err ==> r == Err::<OutputTargets, Error>(Error::InvalidCall) && final(self)@
                == old(self)@,
            r is Ok ==> final(self)@ == (DeviceView {
                render_targets: with_render_target(old(self)@.render_targets, i as int, rt),
                ..old(self)@
            }),
            r matches Ok(t) ==> output_targets_match(
                t,
                final(self)@.render_targets,
                final(self)@.depth_stencil,
            ),
    {
        if i >= SIMULTANEOUS_RENDER_TARGET_COUNT {
            return Err(Error::InvalidCall);
        }
        match rt {
            Some(s) => {
                if s.render_target_view().is_none() {
                    return Err(Error::InvalidCall);
                }
            },
            None => {
                if i == 0 {
                    return Err(Error::InvalidCall);
                }
            },
        }
        let idx = i as usize;
        let len = self.render_targets.len();
        let new_len = if idx < len {
            len
        } else {
            idx + 1
        };
        let ghost expected = with_render_target(self@.render_targets, i as int, rt);
        let mut slots: Vec<Option<Surface>> = Vec::new();
        let mut k: usize = 0;
        while k < new_len
            invariant
                len == self.render_targets@.len(),
                new_len == expected.len(),
                k <= new_len,
                idx == i,
                expected == with_render_target(self@.render_targets, i as int, rt),
                slots@.len() == k,
                forall|j: int| 0 <= j < k ==> slots@[j] == expected[j],
            decreases new_len - k,
        {
            let slot = if k == idx {
                rt
            } else if k < len {
                self.render_targets[k]
            } else {
                None
            };
            slots.push(slot);
            k = k + 1;
        }
        assert(slots@ =~= expected);
        self.render_targets = slots;
        assert(forall|j: int|
            0 <= j < self@.render_targets.len() && (#[trigger] self@.render_targets[j]) is Some
                ==> owns_render_target_view(self@.render_targets[j].unwrap())) by {
            assert(forall|j: int|
                0 <= j < old(self)@.render_targets.len() && #[trigger] old(
                    self,
                )@.render_targets[j] is Some ==> owns_render_target_view(
                    old(self)@.render_targets[j].unwrap(),
                ));
        }
        Ok(self.update_render_targets())
    }

    /// The surface bound at render target slot `i`; `NotFound` where the
    /// slot is past the bound ones or empty.
    pub fn get_render_target(&self, i: u32) -> (r: Result<Surface, Error>)
        ensures
            r == render_target_spec(self@.render_targets, i),
    {
        if (i as usize) < self.render_targets.len() {
            match self.render_targets[i as usize] {
                Some(s) => Ok(s),
                None => Err(Error::NotFound),
            }
        } else {
            Err(Error::NotFound)
        }
    }

    /// Binds `ds` as the depth / stencil buffer, or unbinds it where `ds` is
    /// `None`; returns the output-merger binding that mirrors the result.
    /// Fails `InvalidCall`, changing nothing, where the surface owns no depth
    /// / stencil view.
    pub fn set_depth_stencil_surface(&mut self, ds: Option<Surface>) -> (r: Result<
        OutputTargets,
        Error,
    >)
        requires
            old(self).wf(),
        ensures
            final(self).wf(),
            r is Err <==> (ds is Some && !owns_depth_stencil_view(ds.unwrap())),
            r is Err ==> r == Err::<OutputTargets, Error>(Error::InvalidCall) && final(self)@
                == old(self)@,
            r is Ok ==> final(self)@ == (DeviceView { depth_stencil: ds, ..old(self)@ }),
            r matches Ok(t) ==> output_targets_match(
                t,
                final(self)@.render_targets,
                final(self)@.depth_stencil,
            ),
    {
        if let Some(s) = ds {
            if s.depth_stencil_view().is_none() {
                return Err(Error::InvalidCall);
            }
        }
        self.depth_stencil = ds;
        Ok(self.update_render_targets())
    }

    /// The bound depth / stencil buffer, if any.
    pub fn get_depth_stencil_surface(&self) -> (r: Option<Surface>)
        ensures
            r == self@.depth_stencil,
    {
        self.depth_stencil
    }

    /// The native copy of a region of `src` into `dest` at `dest_point`; the
    /// whole subresource where `src_rect` is `None`. Fails `InvalidCall`
    /// unless `src` is in system memory and `dest` in the default pool.
    pub fn update_surface(
        &self,
        src: &Surface,
        src_rect: Option<Rect>,
        dest: &Surface,
        dest_point: Point,
    ) -> (r: Result<CopyRequest, Error>)
        ensures
            (src.resource.pool == POOL_SYSTEMMEM && dest.resource.pool == POOL_DEFAULT) ==> r
                == Ok::<CopyRequest, Error>(copy_request_spec(*src, src_rect, *dest, dest_point)),
            !(src.resource.pool == POOL_SYSTEMMEM && dest.resource.pool == POOL_DEFAULT) ==> r
                == Err::<CopyRequest, Error>(Error::InvalidCall),
    {
        if src.pool() != POOL_SYSTEMMEM || dest.pool() != POOL_DEFAULT {
            return Err(Error::InvalidCall);
        }
        let (src_resource, src_subresource) = src.subresource();
        let (dest_resource, dest_subresource) = dest.subresource();
        let src_box = match src_rect {
            Some(r) => Some(
                CopyBox {
                    left: r.left as u32,
                    top: r.top as u32,
                    front: 0,
                    right: r.right as u32,
                    bottom: r.bottom as u32,
                    back: 1,
                },
            ),
            None => None,
        };
        Ok(
            CopyRequest {
                dest_resource,
                dest_subresource,
                dest_x: dest_point.x as u32,
                dest_y: dest_point.y as u32,
                dest_z: 0,
                src_resource,
                src_subresource,
                src_box,
            },
        )
    }
}

} // verus!
