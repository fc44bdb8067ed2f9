use vstd::prelude::*;

use crate::device::{
    depth_stencil_plan_spec, depth_stencil_surface_spec, owns_render_target_view,
    render_target_plan_spec, render_target_rejected, render_target_spec,
    render_target_surface_spec, texture_plan_spec, view_wf, with_render_target, DeviceView,
};
use crate::error::Error;
use crate::native::{
    has_flag, lock_map_flags, map_request_spec, MapRequest, samples_from_legacy_spec, NativeImage, LOCK_DISCARD,
    LOCK_NOOVERWRITE, LOCK_READONLY, MAP_READ, MAP_READ_WRITE, MAP_WRITE_DISCARD,
    SIMULTANEOUS_RENDER_TARGET_COUNT,
};
use crate::resource::{
    NativeUsage, CPU_ACCESS_READ, CPU_ACCESS_WRITE, MULTISAMPLE_NONE, POOL_DEFAULT, POOL_MANAGED,
    POOL_SYSTEMMEM,
};
use crate::surface::Surface;
use crate::texture::Texture;

verus! {

/// A lock that asks to write with none of the read-only, discard and
/// no-overwrite flags.
pub open spec fn plain_write_lock(flags: u32) -> bool {
    !has_flag(flags, LOCK_READONLY) && !has_flag(flags, LOCK_DISCARD) && !has_flag(
        flags,
        LOCK_NOOVERWRITE,
    )
}

/// A well-formed device, as every constructed one is, has one implicit swap
/// chain; its first render target slot holds a surface that owns a render
/// target view; and a slot past the bound ones is not found.
pub proof fn device_bindings_well_formed(v: DeviceView, i: u32)
    requires
        view_wf(v),
    ensures
        v.swap_chains.len() == 1,
        render_target_spec(v.render_targets, 0) is Ok,
        render_target_spec(v.render_targets, 0) matches Ok(s) && owns_render_target_view(s),
        i >= v.render_targets.len() ==> render_target_spec(v.render_targets, i) == Err::<
            Surface,
            Error,
        >(Error::NotFound),
{
}

/// Unbinding the first render target slot is always refused, and so is any
/// slot at or past the native limit, whatever the surface.
pub proof fn render_target_refusals(i: u32, rt: Option<Surface>)
    ensures
        render_target_rejected(0, None),
        i >= SIMULTANEOUS_RENDER_TARGET_COUNT ==> render_target_rejected(i, rt),
{
}

/// Each pool locks as its row of the pool table says: a read-only lock reads
/// in any pool; otherwise a default-pool resource cannot be locked, a managed
/// one (dynamic, CPU writable) is mapped write-discard, and a system-memory
/// one (staging, CPU readable and writable) is mapped for reading and writing.
pub proof fn pool_lock_behavior(
    resource: u64,
    subresource: u32,
    width: u32,
    height: u32,
    levels: u32,
    format: u32,
    flags: u32,
)
    ensures
        has_flag(flags, LOCK_READONLY) ==> forall|pool: u32|
            (#[trigger] map_request_spec(resource, subresource, pool, flags) matches Ok(m)
                && m.map_type == MAP_READ),
        !has_flag(flags, LOCK_READONLY) ==> map_request_spec(
            resource,
            subresource,
            POOL_DEFAULT,
            flags,
        ) == Err::<MapRequest, Error>(Error::InvalidCall),
        texture_plan_spec(width, height, levels, format, POOL_MANAGED).desc.usage
            == NativeUsage::Dynamic,
        texture_plan_spec(width, height, levels, format, POOL_MANAGED).desc.cpu_access
            == CPU_ACCESS_WRITE,
        texture_plan_spec(width, height, levels, format, POOL_SYSTEMMEM).desc.usage
            == NativeUsage::Staging,
        texture_plan_spec(width, height, levels, format, POOL_SYSTEMMEM).desc.cpu_access
            == CPU_ACCESS_WRITE | CPU_ACCESS_READ,
        texture_plan_spec(width, height, levels, format, POOL_SYSTEMMEM).desc.bind_flags == 0,
        texture_plan_spec(width, height, levels, format, POOL_DEFAULT).desc.usage
            == NativeUsage::Default,
        texture_plan_spec(width, height, levels, format, POOL_DEFAULT).desc.cpu_access == 0,
        plain_write_lock(flags) ==> map_request_spec(resource, subresource, POOL_MANAGED, flags)
            == Ok::<MapRequest, Error>(
            MapRequest {
                resource,
                subresource,
                map_type: MAP_WRITE_DISCARD,
                map_flags: lock_map_flags(flags),
            },
        ),
        plain_write_lock(flags) ==> map_request_spec(resource, subresource, POOL_SYSTEMMEM, flags)
            == Ok::<MapRequest, Error>(
            MapRequest {
                resource,
                subresource,
                map_type: MAP_READ_WRITE,
                map_flags: lock_map_flags(flags),
            },
        ),
{
    assert(4u32 | 0u32 | 0u32 == 4u32) by (bit_vector);
    assert((1u32 | 2u32) | 0u32 | 0u32 == 3u32) by (bit_vector);
}

/// A render target created with a size and format, bound at the first slot,
/// is read back from that slot with the same size and format.
pub proof fn render_target_round_trip(
    v: DeviceView,
    width: u32,
    height: u32,
    format: u32,
    multisample_type: u32,
    multisample_quality: u32,
    lockable: u32,
    handle: u64,
    view: u64,
)
    requires
        view_wf(v),
    ensures
        ({
            let plan = render_target_plan_spec(
                width,
                height,
                format,
                samples_from_legacy_spec(multisample_type, multisample_quality),
                lockable,
            );
            let s = render_target_surface_spec(v.device, NativeImage { handle, desc: plan.desc }, view);
            let rts = with_render_target(v.render_targets, 0, Some(s));
            &&& !render_target_rejected(0, Some(s))
            &&& render_target_spec(rts, 0) == Ok::<Surface, Error>(s)
            &&& s.desc_spec().width == width
            &&& s.desc_spec().height == height
            &&& s.desc_spec().format == format
        }),
{
}

/// A depth / stencil buffer reports no multisampling, whatever
/// multisampling was asked for.
pub proof fn depth_stencil_single_sampled(
    device: u64,
    width: u32,
    height: u32,
    format: u32,
    discard: u32,
    handle: u64,
    view: u64,
)
    ensures
        ({
            let plan = depth_stencil_plan_spec(width, height, format, discard);
            let s = depth_stencil_surface_spec(device, NativeImage { handle, desc: plan.desc }, view);
            &&& plan.desc.samples.count == 1
            &&& s.desc_spec().multisample_type == MULTISAMPLE_NONE
            &&& s.desc_spec().multisample_quality == 0
        }),
{
}

/// A lock of a texture level maps exactly the subresource that unlocking
/// that level unmaps: the texture's image at that level.
pub proof fn texture_lock_maps_level(t: Texture, level: u32, flags: u32)
    ensures
        map_request_spec(t.image.handle, level, t.resource.pool, flags) matches Ok(m) ==> (
        m.resource == t.image.handle && m.subresource == level),
{
}

/// A lock of a surface maps exactly the subresource that unlocking the
/// surface unmaps: its image, at its own subresource index.
pub proof fn surface_lock_maps_subresource(s: Surface, flags: u32)
    ensures
        map_request_spec(s.image.handle, s.subresource_index(), s.resource.pool, flags) matches Ok(
            m,
        ) ==> (m.resource == s.image.handle && m.subresource == s.subresource_index()),
{
}

} // verus!
