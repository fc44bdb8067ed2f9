use d3d9_device::{
    map_result, pool_mapping, samples_from_legacy, samples_to_legacy, CreationParameters, Device,
    Error, ImageDesc, NativeCall, NativeFailure, NativeImage, NativeUsage, PresentParameters,
    SampleDesc, Texture, Unsupported, UnmapRequest, BIND_RENDER_TARGET, BIND_SHADER_RESOURCE,
    CPU_ACCESS_READ, CPU_ACCESS_WRITE, LOCK_DISCARD, LOCK_DONOTWAIT, LOCK_NOOVERWRITE,
    LOCK_READONLY, MAP_FLAG_DO_NOT_WAIT, MAP_READ, MAP_READ_WRITE, MAP_WRITE_DISCARD,
    MAP_WRITE_NO_OVERWRITE, POOL_DEFAULT, POOL_MANAGED, POOL_SCRATCH, POOL_SYSTEMMEM,
    STATUS_WAS_STILL_DRAWING,
};

const FMT_A8R8G8B8: u32 = 21;

fn device() -> Device {
    let cp = CreationParameters { adapter: 0, device_type: 1, focus_window: 1, behavior_flags: 0 };
    let pp = PresentParameters {
        back_buffer_width: 64,
        back_buffer_height: 64,
        back_buffer_format: FMT_A8R8G8B8,
        device_window: 0,
        enable_auto_depth_stencil: false,
        auto_depth_stencil_format: 0,
        flags: 0,
    };
    let image = NativeImage {
        handle: 1,
        desc: ImageDesc {
            width: 64,
            height: 64,
            mip_levels: 1,
            array_size: 1,
            format: FMT_A8R8G8B8,
            samples: SampleDesc { count: 1, quality: 0 },
            usage: NativeUsage::Default,
            bind_flags: BIND_RENDER_TARGET,
            cpu_access: 0,
        },
    };
    Device::new(8, 9, cp, &pp, 2, image, 3, None).unwrap()
}

fn texture(pool: u32, levels: u32) -> Texture {
    let plan = device().create_texture(256, 128, levels, 0, FMT_A8R8G8B8, pool, 0).unwrap();
    Texture::new(8, pool, NativeImage { handle: 0x900, desc: plan.desc }, levels)
}

#[test]
fn pool_table_places_images() {
    let d = pool_mapping(POOL_DEFAULT, BIND_SHADER_RESOURCE);
    assert_eq!((d.usage, d.cpu_access, d.bind_flags, d.recognized), (NativeUsage::Default, 0, BIND_SHADER_RESOURCE, true));
    let m = pool_mapping(POOL_MANAGED, BIND_RENDER_TARGET);
    assert_eq!((m.usage, m.cpu_access, m.bind_flags, m.recognized), (NativeUsage::Dynamic, CPU_ACCESS_WRITE, BIND_SHADER_RESOURCE, true));
    let s = pool_mapping(POOL_SYSTEMMEM, BIND_SHADER_RESOURCE);
    assert_eq!((s.usage, s.cpu_access, s.bind_flags, s.recognized), (NativeUsage::Staging, CPU_ACCESS_WRITE | CPU_ACCESS_READ, 0, true));
    let x = pool_mapping(POOL_SCRATCH, BIND_SHADER_RESOURCE);
    assert_eq!((x.usage, x.cpu_access, x.bind_flags, x.recognized), (NativeUsage::Default, 0, BIND_SHADER_RESOURCE, false));
}

#[test]
fn texture_plans_follow_pool_table() {
    let dev = device();
    let plan = dev.create_texture(256, 128, 4, 0, FMT_A8R8G8B8, POOL_MANAGED, 0).unwrap();
    assert_eq!(plan.desc.usage, NativeUsage::Dynamic);
    assert_eq!(plan.desc.cpu_access, CPU_ACCESS_WRITE);
    assert_eq!(plan.desc.bind_flags, BIND_SHADER_RESOURCE);
    assert_eq!(plan.desc.mip_levels, 4);
    assert_eq!(plan.desc.samples, SampleDesc { count: 1, quality: 0 });
    assert_eq!(plan.note, None);
    let plan = dev.create_texture(256, 128, 1, 0, FMT_A8R8G8B8, POOL_SYSTEMMEM, 0).unwrap();
    assert_eq!(plan.desc.usage, NativeUsage::Staging);
    assert_eq!(plan.desc.bind_flags, 0);
    let plan = dev.create_texture(256, 128, 1, 0, FMT_A8R8G8B8, 7, 0).unwrap();
    assert_eq!(plan.desc.usage, NativeUsage::Default);
    assert_eq!(plan.note, Some(Unsupported::MemoryPool(7)));
}

#[test]
fn default_pool_texture_cannot_be_locked_for_writing() {
    let t = texture(POOL_DEFAULT, 1);
    assert_eq!(t.pool(), POOL_DEFAULT);
    assert_eq!(t.lock_rect(0, 0), Err(Error::InvalidCall));
    assert_eq!(t.lock_rect(0, LOCK_DISCARD), Err(Error::InvalidCall));
    let read = t.lock_rect(0, LOCK_READONLY).unwrap();
    assert_eq!(read.map_type, MAP_READ);
}

#[test]
fn managed_texture_locks_write_discard() {
    let t = texture(POOL_MANAGED, 1);
    let m = t.lock_rect(0, 0).unwrap();
    assert_eq!((m.resource, m.subresource, m.map_type, m.map_flags), (0x900, 0, MAP_WRITE_DISCARD, 0));
    assert_eq!(t.lock_rect(0, LOCK_DISCARD).unwrap().map_type, MAP_WRITE_DISCARD);
    assert_eq!(t.lock_rect(0, LOCK_NOOVERWRITE).unwrap().map_type, MAP_WRITE_NO_OVERWRITE);
}

#[test]
fn system_memory_texture_locks_read_write() {
    let t = texture(POOL_SYSTEMMEM, 3);
    let m = t.lock_rect(2, 0).unwrap();
    assert_eq!((m.subresource, m.map_type), (2, MAP_READ_WRITE));
    assert_eq!(t.lock_rect(0, LOCK_READONLY).unwrap().map_type, MAP_READ);
}

#[test]
fn unknown_pool_cannot_be_locked_for_writing() {
    let t = texture(POOL_SCRATCH, 1);
    assert_eq!(t.lock_rect(0, 0), Err(Error::InvalidCall));
}

#[test]
fn do_not_wait_sets_native_flag() {
    let t = texture(POOL_MANAGED, 1);
    assert_eq!(t.lock_rect(0, LOCK_DONOTWAIT).unwrap().map_flags, MAP_FLAG_DO_NOT_WAIT);
    let r = texture(POOL_DEFAULT, 1).lock_rect(0, LOCK_READONLY | LOCK_DONOTWAIT).unwrap();
    assert_eq!((r.map_type, r.map_flags), (MAP_READ, MAP_FLAG_DO_NOT_WAIT));
}

#[test]
fn unlock_without_lock_leaves_lock_pair_intact() {
    let t = texture(POOL_MANAGED, 2);
    let fresh = t.lock_rect(1, 0);
    assert_eq!(t.unlock_rect(1), UnmapRequest { resource: 0x900, subresource: 1 });
    let after = t.lock_rect(1, 0);
    assert_eq!(after, fresh);
    assert_eq!(t.unlock_rect(1), UnmapRequest { resource: 0x900, subresource: 1 });
    let s = t.get_surface_level(1).unwrap();
    assert_eq!(s.unlock_rect(), UnmapRequest { resource: 0x900, subresource: 1 });
    let m = s.lock_rect(0).unwrap();
    assert_eq!((m.resource, m.subresource, m.map_type), (0x900, 1, MAP_WRITE_DISCARD));
    assert_eq!(s.unlock_rect(), UnmapRequest { resource: 0x900, subresource: 1 });
}

#[test]
fn surface_level_past_mip_chain_is_refused() {
    let t = texture(POOL_MANAGED, 4);
    assert_eq!(t.get_level_count(), 4);
    assert_eq!(t.get_surface_level(4), Err(Error::InvalidCall));
    assert_eq!(t.get_surface_level(100), Err(Error::InvalidCall));
    assert_eq!(t.get_level_desc(4), Err(Error::InvalidCall));
}

#[test]
fn surface_levels_share_texture_image() {
    let t = texture(POOL_MANAGED, 4);
    for level in 0..4 {
        let s = t.get_surface_level(level).unwrap();
        assert_eq!(s.subresource(), (0x900, level));
        assert_eq!(s.pool(), POOL_MANAGED);
        assert_eq!(s.resource.device(), 8);
        assert_eq!(s.render_target_view(), None);
        assert_eq!(s.depth_stencil_view(), None);
    }
    assert_eq!(t.get_surface_level(2), t.get_surface_level(2));
}

#[test]
fn level_descriptions_halve_extent() {
    let t = texture(POOL_MANAGED, 9);
    let d0 = t.get_level_desc(0).unwrap();
    assert_eq!((d0.width, d0.height, d0.format, d0.pool), (256, 128, FMT_A8R8G8B8, POOL_MANAGED));
    let d2 = t.get_level_desc(2).unwrap();
    assert_eq!((d2.width, d2.height), (64, 32));
    let d8 = t.get_level_desc(8).unwrap();
    assert_eq!((d8.width, d8.height), (1, 1));
}

#[test]
fn map_status_is_interpreted() {
    assert_eq!(map_result(0, 1024), Ok(1024));
    assert_eq!(map_result(STATUS_WAS_STILL_DRAWING, 1024), Err(Error::WasStillDrawing));
    let invalid_arg = -2147024809;
    assert_eq!(
        map_result(invalid_arg, 0),
        Err(Error::Native(NativeFailure { code: invalid_arg, call: NativeCall::MapSubresource }))
    );
    assert_eq!(NativeCall::MapSubresource.context(), "Failed to map surface");
}

#[test]
fn multisample_descriptions_translate() {
    assert_eq!(samples_from_legacy(0, 5), SampleDesc { count: 1, quality: 0 });
    assert_eq!(samples_from_legacy(1, 2), SampleDesc { count: 1, quality: 2 });
    assert_eq!(samples_from_legacy(4, 1), SampleDesc { count: 4, quality: 1 });
    assert_eq!(samples_to_legacy(SampleDesc { count: 1, quality: 3 }), (0, 0));
    assert_eq!(samples_to_legacy(SampleDesc { count: 8, quality: 1 }), (8, 1));
}
