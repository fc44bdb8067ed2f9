use vstd::prelude::*;

use crate::error::Error;
use crate::native::{map_request, map_request_spec, MapRequest, NativeImage, UnmapRequest};
use crate::resource::{Resource, ResourceKind};
use crate::surface::{Surface, SurfaceData, SurfaceDesc};

verus! {

/// A native 2D image with its mip chain. Surfaces for its levels share the
/// image, so they stay valid whatever becomes of the texture.
#[derive(Clone, Copy, Debug, PartialEq, Eq, Structural)]
pub struct Texture {
    pub resource: Resource,
    pub image: NativeImage,
    /// The number of mip levels, fixed at creation.
    pub levels: u32,
}

impl Texture {
    /// The surface for mip level `level`, if the texture has that level.
    pub open spec fn surface_level_spec(&self, level: u32) -> Result<Surface, Error> {
        if level >= self.levels {
            Err(Error::InvalidCall)
        } else {
            Ok(
                Surface {
                    resource: Resource {
                        device: self.resource.device,
                        usage: self.resource.usage,
                        pool: self.resource.pool,
                        kind: ResourceKind::Surface,
                    },
                    image: self.image,
                    data: SurfaceData::SubResource(level),
                },
            )
        }
    }

    /// Creates a texture over `image`, allocated in `pool`, with `levels`
    /// mip levels.
    pub fn new(device: u64, pool: u32, image: NativeImage, levels: u32) -> (r: Texture)
        ensures
            r.resource == (Resource { device, usage: 0, pool, kind: ResourceKind::Texture }),
            r.image == image,
            r.levels == levels,
    {
        Texture { resource: Resource::new(device, 0, pool, ResourceKind::Texture), image, levels }
    }

    /// The pool in which this texture was allocated.
    pub fn pool(&self) -> (r: u32)
        ensures
            r == self.resource.pool,
    {
        self.resource.pool()
    }

    /// The number of mip levels of this texture.
    pub fn get_level_count(&self) -> (r: u32)
        ensures
            r == self.levels,
    {
        self.levels
    }

    /// A surface viewing mip level `level` of this texture's image; fails
    /// `InvalidCall` where the texture has no such level.
    pub fn get_surface_level(&self, level: u32) -> (r: Result<Surface, Error>)
        ensures
            r == self.surface_level_spec(level),
    {
        if level >= self.get_level_count() {
            return Err(Error::InvalidCall);
        }
        Ok(
            Surface::new(
                self.resource.device(),
                self.image,
                self.resource.usage(),
                self.resource.pool(),
                SurfaceData::SubResource(level),
            ),
        )
    }

    /// The description of mip level `level`, as its surface reports it.
    pub fn get_level_desc(&self, level: u32) -> (r: Result<SurfaceDesc, Error>)
        ensures
            match self.surface_level_spec(level) {
                Ok(s) => r == Ok::<SurfaceDesc, Error>(s.desc_spec()),
                Err(e) => r == Err::<SurfaceDesc, Error>(e),
            },
    {
        let surface = self.get_surface_level(level)?;
        Ok(surface.get_desc())
    }

    /// Decides how a lock of mip level `level` is mapped natively.
    pub fn lock_rect(&self, level: u32, flags: u32) -> (r: Result<MapRequest, Error>)
        ensures
            r == map_request_spec(self.image.handle, level, self.resource.pool, flags),
    {
        map_request(self.image.handle, level, self.pool(), flags)
    }

    /// Unmaps mip level `level`. Locks are not counted, so this is the same
    /// request whether or not a lock is outstanding.
    pub fn unlock_rect(&self, level: u32) -> (r: UnmapRequest)
        ensures
            r == (UnmapRequest { resource: self.image.handle, subresource: level }),
    {
        UnmapRequest { resource: self.image.handle, subresource: level }
    }
}

} // verus!
