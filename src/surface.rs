use vstd::prelude::*;

use crate::error::Error;
use crate::native::{
    map_request, map_request_spec, samples_to_legacy, samples_to_legacy_spec, MapRequest,
    NativeImage, UnmapRequest,
};
use crate::resource::{Resource, ResourceKind};

verus! {

/// What a surface is, beyond the image it views.
#[derive(Clone, Copy, Debug, PartialEq, Eq, Structural)]
pub enum SurfaceData {
    /// An ordinary surface.
    Plain,
    /// The surface owns a render target view, by its native handle.
    RenderTarget(u64),
    /// The surface owns a depth / stencil view, by its native handle.
    DepthStencil(u64),
    /// The surface is one mip level of a texture's image.
    SubResource(u32),
}

/// The legacy description of a surface.
#[derive(Clone, Copy, Debug, PartialEq, Eq, Structural)]
pub struct SurfaceDesc {
    pub width: u32,
    pub height: u32,
    pub format: u32,
    pub kind: u32,
    pub usage: u32,
    pub pool: u32,
    pub multisample_type: u32,
    pub multisample_quality: u32,
}

/// The extent of mip level `level` of an image whose top level is `x` wide:
/// halved at each level, never below one.
pub open spec fn level_extent(x: u32, level: u32) -> u32 {
    if level == 0 {
        x
    } else if level >= 32 || x >> level == 0 {
        1
    } else {
        x >> level
    }
}

fn mip_extent(x: u32, level: u32) -> (r: u32)
    ensures
        r == level_extent(x, level),
{
    if level == 0 {
        x
    } else if level >= 32 {
        1
    } else {
        let e = x >> level;
        if e == 0 {
            1
        } else {
            e
        }
    }
}

/// A single 2D array of pixels: a view of a native image, in one of four roles.
#[derive(Clone, Copy, Debug, PartialEq, Eq, Structural)]
pub struct Surface {
    pub resource: Resource,
    /// The image this surface views; shared with the parent texture, if any.
    pub image: NativeImage,
    pub data: SurfaceData,
}

impl Surface {
    /// The subresource index this surface addresses in its image.
    pub open spec fn subresource_index(&self) -> u32 {
        match self.data {
            SurfaceData::SubResource(level) => level,
            _ => 0,
        }
    }

    pub open spec fn render_target_view_spec(&self) -> Option<u64> {
        match self.data {
            SurfaceData::RenderTarget(view) => Some(view),
            _ => None,
        }
    }

    pub open spec fn depth_stencil_view_spec(&self) -> Option<u64> {
        match self.data {
            SurfaceData::DepthStencil(view) => Some(view),
            _ => None,
        }
    }

    pub open spec fn desc_spec(&self) -> SurfaceDesc {
        let level = self.subresource_index();
        SurfaceDesc {
            width: level_extent(self.image.desc.width, level),
            height: level_extent(self.image.desc.height, level),
            format: self.image.desc.format,
            kind: ResourceKind::Surface.raw_spec(),
            usage: self.resource.usage,
            pool: self.resource.pool,
            multisample_type: samples_to_legacy_spec(self.image.desc.samples).0,
            multisample_quality: samples_to_legacy_spec(self.image.desc.samples).1,
        }
    }

    /// Creates a surface viewing `image` in the role that `data` gives.
    pub fn new(device: u64, image: NativeImage, usage: u32, pool: u32, data: SurfaceData) -> (r:
        Surface)
        ensures
            r.image == image,
            r.data == data,
            r.resource == (Resource { device, usage, pool, kind: ResourceKind::Surface }),
    {
        Surface { resource: Resource::new(device, usage, pool, ResourceKind::Surface), image, data }
    }

    /// The pool this surface was created in.
    pub fn pool(&self) -> (r: u32)
        ensures
            r == self.resource.pool,
    {
        self.resource.pool()
    }

    /// The native image and subresource index this surface addresses: the
    /// stored mip level for a texture's level, the first subresource otherwise.
    pub fn subresource(&self) -> (r: (u64, u32))
        ensures
            r == (self.image.handle, self.subresource_index()),
    {
        let index = match self.data {
            SurfaceData::SubResource(level) => level,
            _ => 0,
        };
        (self.image.handle, index)
    }

    /// The render target view, if this surface owns one.
    pub fn render_target_view(&self) -> (r: Option<u64>)
        ensures
            r == self.render_target_view_spec(),
    {
        match self.data {
            SurfaceData::RenderTarget(view) => Some(view),
            _ => None,
        }
    }

    /// The depth / stencil view, if this surface owns one.
    pub fn depth_stencil_view(&self) -> (r: Option<u64>)
        ensures
            r == self.depth_stencil_view_spec(),
    {
        match self.data {
            SurfaceData::DepthStencil(view) => Some(view),
            _ => None,
        }
    }

    /// The legacy description of this surface: the extent of the level it
    /// views, the image's format and multisampling, and its usage and pool.
    pub fn get_desc(&self) -> (r: SurfaceDesc)
        ensures
            r == self.desc_spec(),
    {
        let (_, level) = self.subresource();
        let (multisample_type, multisample_quality) = samples_to_legacy(self.image.desc.samples);
        SurfaceDesc {
            width: mip_extent(self.image.desc.width, level),
            height: mip_extent(self.image.desc.height, level),
            format: self.image.desc.format,
            kind: ResourceKind::Surface.raw(),
            usage: self.resource.usage(),
            pool: self.resource.pool(),
            multisample_type,
            multisample_quality,
        }
    }

    /// Decides how a lock of this surface is mapped natively.
    pub fn lock_rect(&self, flags: u32) -> (r: Result<MapRequest, Error>)
        ensures
            r == map_request_spec(
                self.image.handle,
                self.subresource_index(),
                self.resource.pool,
                flags,
            ),
    {
        let (resource, subresource) = self.subresource();
        map_request(resource, subresource, self.resource.pool(), flags)
    }

    /// Unmaps the subresource this surface addresses. Locks are not counted,
    /// so this is the same request whether or not a lock is outstanding.
    pub fn unlock_rect(&self) -> (r: UnmapRequest)
        ensures
            r == (UnmapRequest { resource: self.image.handle, subresource: self.subresource_index() }),
    {
        let (resource, subresource) = self.subresource();
        UnmapRequest { resource, subresource }
    }
}

} // verus!
