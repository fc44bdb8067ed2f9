use vstd::prelude::*;

use crate::error::{Error, NativeCall, NativeFailure};
use crate::resource::{NativeUsage, MULTISAMPLE_NONE, POOL_MANAGED, POOL_SYSTEMMEM};

verus! {

// Legacy lock flags.
pub const LOCK_READONLY: u32 = 0x10;
pub const LOCK_NOOVERWRITE: u32 = 0x1000;
pub const LOCK_DISCARD: u32 = 0x2000;
pub const LOCK_DONOTWAIT: u32 = 0x4000;

// Native map types, and the one native map flag.
pub const MAP_READ: u32 = 1;
pub const MAP_WRITE: u32 = 2;
pub const MAP_READ_WRITE: u32 = 3;
pub const MAP_WRITE_DISCARD: u32 = 4;
pub const MAP_WRITE_NO_OVERWRITE: u32 = 5;
pub const MAP_FLAG_DO_NOT_WAIT: u32 = 0x100000;

/// The native status of a map that would have had to wait for the GPU.
pub const STATUS_WAS_STILL_DRAWING: i32 = -2005270518;

/// The number of render targets the native output merger binds at once.
pub const SIMULTANEOUS_RENDER_TARGET_COUNT: u32 = 8;

/// A native multisample description.
#[derive(Clone, Copy, Debug, PartialEq, Eq, Structural)]
pub struct SampleDesc {
    pub count: u32,
    pub quality: u32,
}

/// The description of a native 2D image. The format is kept as the legacy
/// pixel format; it is translated where the image is created.
#[derive(Clone, Copy, Debug, PartialEq, Eq, Structural)]
pub struct ImageDesc {
    pub width: u32,
    pub height: u32,
    pub mip_levels: u32,
    pub array_size: u32,
    pub format: u32,
    pub samples: SampleDesc,
    pub usage: NativeUsage,
    pub bind_flags: u32,
    pub cpu_access: u32,
}

/// A native 2D image: its handle and the description it was created with.
#[derive(Clone, Copy, Debug, PartialEq, Eq, Structural)]
pub struct NativeImage {
    pub handle: u64,
    pub desc: ImageDesc,
}

pub open spec fn samples_from_legacy_spec(ty: u32, quality: u32) -> SampleDesc {
    if ty == MULTISAMPLE_NONE {
        SampleDesc { count: 1, quality: 0 }
    } else if ty == 1 {
        SampleDesc { count: 1, quality }
    } else {
        SampleDesc { count: ty, quality }
    }
}

/// Translates a legacy multisample type and quality to a native description.
/// The two single-sample legacy types give one sample.
pub fn samples_from_legacy(ty: u32, quality: u32) -> (r: SampleDesc)
    ensures
        r == samples_from_legacy_spec(ty, quality),
{
    if ty == MULTISAMPLE_NONE {
        SampleDesc { count: 1, quality: 0 }
    } else if ty == 1 {
        SampleDesc { count: 1, quality }
    } else {
        SampleDesc { count: ty, quality }
    }
}

pub open spec fn samples_to_legacy_spec(s: SampleDesc) -> (u32, u32) {
    if s.count <= 1 {
        (MULTISAMPLE_NONE, 0)
    } else {
        (s.count, s.quality)
    }
}

/// Translates a native multisample description back to a legacy type and
/// quality; a single sample reads as not multisampled.
pub fn samples_to_legacy(s: SampleDesc) -> (r: (u32, u32))
    ensures
        r == samples_to_legacy_spec(s),
{
    if s.count <= 1 {
        (MULTISAMPLE_NONE, 0)
    } else {
        (s.count, s.quality)
    }
}

/// A request to map one subresource of a native image into CPU memory.
#[derive(Clone, Copy, Debug, PartialEq, Eq, Structural)]
pub struct MapRequest {
    pub resource: u64,
    pub subresource: u32,
    pub map_type: u32,
    pub map_flags: u32,
}

/// A request to unmap one subresource of a native image.
#[derive(Clone, Copy, Debug, PartialEq, Eq, Structural)]
pub struct UnmapRequest {
    pub resource: u64,
    pub subresource: u32,
}

pub open spec fn has_flag(flags: u32, flag: u32) -> bool {
    flags & flag != 0
}

/// The native write semantics that a legacy lock on a pool gets, without the
/// ones that the lock flags add; `None` where the pool cannot be written.
pub open spec fn pool_write_map(pool: u32) -> Option<u32> {
    if pool == POOL_MANAGED {
        Some(MAP_WRITE_DISCARD)
    } else if pool == POOL_SYSTEMMEM {
        Some(MAP_READ | MAP_WRITE)
    } else {
        None
    }
}

/// The native map type of a legacy lock: a read-only lock reads; any other
/// lock writes as its pool allows, with the discard and no-overwrite map types
/// added where the lock flags ask for them. `None` where the lock is refused.
pub open spec fn lock_map_type(pool: u32, flags: u32) -> Option<u32> {
    if has_flag(flags, LOCK_READONLY) {
        Some(MAP_READ)
    } else {
        match pool_write_map(pool) {
            Some(base) => Some(
                base | (if has_flag(flags, LOCK_DISCARD) { MAP_WRITE_DISCARD } else { 0 }) | (
                if has_flag(flags, LOCK_NOOVERWRITE) {
                    MAP_WRITE_NO_OVERWRITE
                } else {
                    0
                }),
            ),
            None => None,
        }
    }
}

pub open spec fn lock_map_flags(flags: u32) -> u32 {
    if has_flag(flags, LOCK_DONOTWAIT) {
        MAP_FLAG_DO_NOT_WAIT
    } else {
        0
    }
}

pub open spec fn map_request_spec(resource: u64, subresource: u32, pool: u32, flags: u32) -> Result<
    MapRequest,
    Error,
> {
    match lock_map_type(pool, flags) {
        Some(map_type) => Ok(
            MapRequest { resource, subresource, map_type, map_flags: lock_map_flags(flags) },
        ),
        None => Err(Error::InvalidCall),
    }
}

/// Decides how a legacy lock of a subresource in `pool` is mapped natively.
/// A lock that is not read-only is refused unless the pool is managed or
/// system memory.
pub fn map_request(resource: u64, subresource: u32, pool: u32, flags: u32) -> (r: Result<
    MapRequest,
    Error,
>)
    ensures
        r == map_request_spec(resource, subresource, pool, flags),
{
    let map_flags = if flags & LOCK_DONOTWAIT != 0 {
        MAP_FLAG_DO_NOT_WAIT
    } else {
        0
    };
    if flags & LOCK_READONLY != 0 {
        return Ok(MapRequest { resource, subresource, map_type: MAP_READ, map_flags });
    }
    let base = if pool == POOL_MANAGED {
        MAP_WRITE_DISCARD
    } else if pool == POOL_SYSTEMMEM {
        MAP_READ | MAP_WRITE
    } else {
        return Err(Error::InvalidCall);
    };
    let discard = if flags & LOCK_DISCARD != 0 {
        MAP_WRITE_DISCARD
    } else {
        0
    };
    let no_overwrite = if flags & LOCK_NOOVERWRITE != 0 {
        MAP_WRITE_NO_OVERWRITE
    } else {
        0
    };
    Ok(MapRequest { resource, subresource, map_type: base | discard | no_overwrite, map_flags })
}

pub open spec fn map_result_spec(status: i32, row_pitch: u32) -> Result<u32, Error> {
    if status == 0 {
        Ok(row_pitch)
    } else if status == STATUS_WAS_STILL_DRAWING {
        Err(Error::WasStillDrawing)
    } else {
        Err(Error::Native(NativeFailure { code: status, call: NativeCall::MapSubresource }))
    }
}

/// Interprets the status of a native map: success gives the row pitch of the
/// mapped memory, a map that would have waited asks the caller to retry, and
/// any other failure is reported as a native one.
pub fn map_result(status: i32, row_pitch: u32) -> (r: Result<u32, Error>)
    ensures
        r == map_result_spec(status, row_pitch),
{
    if status == 0 {
        Ok(row_pitch)
    } else if status == STATUS_WAS_STILL_DRAWING {
        Err(Error::WasStillDrawing)
    } else {
        Err(Error::Native(NativeFailure { code: status, call: NativeCall::MapSubresource }))
    }
}

/// Maps a native status to a result, naming the call that failed.
pub fn check_status(status: i32, call: NativeCall) -> (r: Result<(), Error>)
    ensures
        status == 0 ==> r == Ok::<(), Error>(()),
        status != 0 ==> r == Err::<(), Error>(Error::Native(NativeFailure { code: status, call })),
{
    if status == 0 {
        Ok(())
    } else {
        Err(Error::Native(NativeFailure { code: status, call }))
    }
}

} // verus!
