use vstd::prelude::*;

verus! {

// Legacy memory pools.
pub const POOL_DEFAULT: u32 = 0;
pub const POOL_MANAGED: u32 = 1;
pub const POOL_SYSTEMMEM: u32 = 2;
pub const POOL_SCRATCH: u32 = 3;

// Legacy usage flags.
pub const USAGE_RENDERTARGET: u32 = 0x1;
pub const USAGE_DEPTHSTENCIL: u32 = 0x2;
pub const USAGE_DYNAMIC: u32 = 0x200;
pub const USAGE_AUTOGENMIPMAP: u32 = 0x400;

// Legacy multisample type that means "not multisampled".
pub const MULTISAMPLE_NONE: u32 = 0;

// Native bind flags.
pub const BIND_SHADER_RESOURCE: u32 = 0x8;
pub const BIND_RENDER_TARGET: u32 = 0x20;
pub const BIND_DEPTH_STENCIL: u32 = 0x40;

// Native CPU access flags.
pub const CPU_ACCESS_WRITE: u32 = 0x10000;
pub const CPU_ACCESS_READ: u32 = 0x20000;

/// The kind of a legacy resource.
#[derive(Clone, Copy, Debug, PartialEq, Eq, Structural)]
pub enum ResourceKind {
    Surface,
    Volume,
    Texture,
    VolumeTexture,
    CubeTexture,
}

impl ResourceKind {
    /// The legacy numeric value of this kind.
    pub fn raw(&self) -> (r: u32)
        ensures
            r == self.raw_spec(),
    {
        match self {
            ResourceKind::Surface => 1,
            ResourceKind::Volume => 2,
            ResourceKind::Texture => 3,
            ResourceKind::VolumeTexture => 4,
            ResourceKind::CubeTexture => 5,
        }
    }

    pub open spec fn raw_spec(&self) -> u32 {
        match self {
            ResourceKind::Surface => 1,
            ResourceKind::Volume => 2,
            ResourceKind::Texture => 3,
            ResourceKind::VolumeTexture => 4,
            ResourceKind::CubeTexture => 5,
        }
    }
}

/// State shared by every bindable resource: the device that created it, its
/// usage flags, memory pool and kind. None of it changes after creation.
#[derive(Clone, Copy, Debug, PartialEq, Eq, Structural)]
pub struct Resource {
    /// The owning device's handle: a reference that does not keep it alive.
    pub device: u64,
    pub usage: u32,
    pub pool: u32,
    pub kind: ResourceKind,
}

impl Resource {
    pub fn new(device: u64, usage: u32, pool: u32, kind: ResourceKind) -> (r: Resource)
        ensures
            r == (Resource { device, usage, pool, kind }),
    {
        Resource { device, usage, pool, kind }
    }

    pub fn device(&self) -> (r: u64)
        ensures
            r == self.device,
    {
        self.device
    }

    pub fn usage(&self) -> (r: u32)
        ensures
            r == self.usage,
    {
        self.usage
    }

    pub fn pool(&self) -> (r: u32)
        ensures
            r == self.pool,
    {
        self.pool
    }

    pub fn kind(&self) -> (r: ResourceKind)
        ensures
            r == self.kind,
    {
        self.kind
    }
}

/// How the native API places an image in memory.
#[derive(Clone, Copy, Debug, PartialEq, Eq, Structural)]
pub enum NativeUsage {
    /// GPU-resident, no CPU access.
    Default,
    Immutable,
    /// GPU-resident, writable from the CPU.
    Dynamic,
    /// CPU-resident, never bound to the pipeline.
    Staging,
}

/// The native placement of an image created in a legacy pool.
#[derive(Clone, Copy, Debug, PartialEq, Eq, Structural)]
pub struct PoolMapping {
    pub usage: NativeUsage,
    pub cpu_access: u32,
    pub bind_flags: u32,
    /// False where the pool is not one that the mapping knows; defaults were
    /// applied.
    pub recognized: bool,
}

pub open spec fn is_known_pool(pool: u32) -> bool {
    pool == POOL_DEFAULT || pool == POOL_MANAGED || pool == POOL_SYSTEMMEM
}

/// The pool table: default-pool images are GPU-resident and bound as
/// requested, managed ones are dynamic, CPU-writable shader resources, and
/// system-memory ones are CPU readable and writable staging images that are
/// never bound. Any other pool gets the defaults.
pub open spec fn pool_mapping_spec(pool: u32, requested_bind: u32) -> PoolMapping {
    if pool == POOL_MANAGED {
        PoolMapping {
            usage: NativeUsage::Dynamic,
            cpu_access: CPU_ACCESS_WRITE,
            bind_flags: BIND_SHADER_RESOURCE,
            recognized: true,
        }
    } else if pool == POOL_SYSTEMMEM {
        PoolMapping {
            usage: NativeUsage::Staging,
            cpu_access: CPU_ACCESS_WRITE | CPU_ACCESS_READ,
            bind_flags: 0,
            recognized: true,
        }
    } else {
        PoolMapping {
            usage: NativeUsage::Default,
            cpu_access: 0,
            bind_flags: requested_bind,
            recognized: pool == POOL_DEFAULT,
        }
    }
}

/// Maps a legacy pool, and the bind flags that the caller asks for, to the
/// native placement of an image. Every creation path goes through here.
pub fn pool_mapping(pool: u32, requested_bind: u32) -> (r: PoolMapping)
    ensures
        r == pool_mapping_spec(pool, requested_bind),
        r.recognized == is_known_pool(pool),
{
    if pool == POOL_MANAGED {
        PoolMapping {
            usage: NativeUsage::Dynamic,
            cpu_access: CPU_ACCESS_WRITE,
            bind_flags: BIND_SHADER_RESOURCE,
            recognized: true,
        }
    } else if pool == POOL_SYSTEMMEM {
        PoolMapping {
            usage: NativeUsage::Staging,
            cpu_access: CPU_ACCESS_WRITE | CPU_ACCESS_READ,
            bind_flags: 0,
            recognized: true,
        }
    } else {
        PoolMapping {
            usage: NativeUsage::Default,
            cpu_access: 0,
            bind_flags: requested_bind,
            recognized: pool == POOL_DEFAULT,
        }
    }
}

} // verus!
