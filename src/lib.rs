//! A device and resource layer for a pool-based, surface-centric graphics
//! object model, expressed over an explicit native API of images, views and
//! CPU mappings.
//!
//! The library keeps the legacy-visible state (bindings, pools, surface roles)
//! and decides every native request (image descriptions, mappings, copies,
//! output-merger bindings). Native objects are referred to by opaque handles
//! (`u64`, zero standing for a null pointer); whoever owns the native device
//! performs the requests.

pub mod device;
pub mod error;
pub mod format;
pub mod laws;
pub mod native;
pub mod resource;
pub mod surface;
pub mod texture;

pub use error::{Error, NativeCall, NativeFailure};
pub use format::{format_round_trip, legacy_format, native_format, NATIVE_FORMAT_UNKNOWN};
pub use resource::{
    pool_mapping, NativeUsage, PoolMapping, Resource, ResourceKind, BIND_DEPTH_STENCIL,
    BIND_RENDER_TARGET, BIND_SHADER_RESOURCE, CPU_ACCESS_READ, CPU_ACCESS_WRITE, MULTISAMPLE_NONE,
    POOL_DEFAULT, POOL_MANAGED, POOL_SCRATCH, POOL_SYSTEMMEM, USAGE_AUTOGENMIPMAP,
    USAGE_DEPTHSTENCIL, USAGE_DYNAMIC, USAGE_RENDERTARGET,
};
pub use native::{
    check_status, map_request, map_result, samples_from_legacy, samples_to_legacy, ImageDesc,
    MapRequest, NativeImage, SampleDesc, UnmapRequest, LOCK_DISCARD, LOCK_DONOTWAIT,
    LOCK_NOOVERWRITE, LOCK_READONLY, MAP_FLAG_DO_NOT_WAIT, MAP_READ, MAP_READ_WRITE, MAP_WRITE,
    MAP_WRITE_DISCARD, MAP_WRITE_NO_OVERWRITE, SIMULTANEOUS_RENDER_TARGET_COUNT,
    STATUS_WAS_STILL_DRAWING,
};
pub use surface::{Surface, SurfaceData, SurfaceDesc};
pub use texture::Texture;
pub use device::{
    CopyBox, CopyRequest, CreationParameters, Device, DeviceView, ImagePlan, OutputTargets, Point,
    PresentParameters, Rect, Unsupported, PRESENTFLAG_DISCARD_DEPTHSTENCIL,
};
pub use laws::{
    depth_stencil_single_sampled, device_bindings_well_formed, pool_lock_behavior,
    render_target_refusals, render_target_round_trip, surface_lock_maps_subresource,
    texture_lock_maps_level,
};
