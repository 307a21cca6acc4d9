use tweak_shader_wasm::bridge::{frame_outcome, RenderError, TweakShader};
use tweak_shader_wasm::surface::{SurfaceCache, SurfaceLookupError, SurfaceStep, TargetTag};
use tweak_shader_wasm::util::{
    adapter_request, after_adapter_request, after_device_request, full_view,
    surface_configuration, texture_desc, AdapterRequest, CompositeAlphaMode, GpuError, InitError,
    InitStep, PowerPreference, PresentMode, SurfaceAcquireError, TextureAspect, TextureFormat,
};

#[test]
fn first_use_of_a_target_asks_for_a_surface() {
    let cache: SurfaceCache<u32> = SurfaceCache::new();
    assert_eq!(cache.len(), 0);
    assert_eq!(cache.retrieve_surface(&TargetTag::Absent), Ok(SurfaceStep::Create));
}

#[test]
fn tags_are_the_cache_size_in_decimal() {
    let mut cache: SurfaceCache<u32> = SurfaceCache::new();
    for i in 0..12usize {
        let tag = cache.insert(100 + i as u32);
        assert_eq!(tag, i.to_string());
    }
    assert_eq!(cache.len(), 12);
    assert_eq!(
        cache.retrieve_surface(&TargetTag::Text("10".to_string())),
        Ok(SurfaceStep::Cached(10))
    );
    assert_eq!(*cache.get(10), 110);
    assert_eq!(
        cache.retrieve_surface(&TargetTag::Text("1".to_string())),
        Ok(SurfaceStep::Cached(1))
    );
}

#[test]
fn same_target_twice_is_the_same_surface() {
    let mut cache: SurfaceCache<&str> = SurfaceCache::new();
    let tag_a = cache.insert("surface a");
    assert_eq!(tag_a, "0");
    let first = cache.retrieve_surface(&TargetTag::Text(tag_a.clone()));
    let second = cache.retrieve_surface(&TargetTag::Text(tag_a.clone()));
    assert_eq!(first, Ok(SurfaceStep::Cached(0)));
    assert_eq!(first, second);
    assert_eq!(cache.len(), 1);

    let tag_b = cache.insert("surface b");
    assert_eq!(tag_b, "1");
    assert_eq!(cache.len(), 2);
    assert_eq!(cache.retrieve_surface(&TargetTag::Text(tag_b)), Ok(SurfaceStep::Cached(1)));
    assert_eq!(cache.retrieve_surface(&TargetTag::Text(tag_a)), Ok(SurfaceStep::Cached(0)));
    assert_eq!(*cache.get(0), "surface a");
    assert_eq!(*cache.get(1), "surface b");
}

#[test]
fn unknown_tag_is_a_lookup_error() {
    let mut cache: SurfaceCache<u8> = SurfaceCache::new();
    cache.insert(1);
    assert_eq!(
        cache.retrieve_surface(&TargetTag::Text("1".to_string())),
        Err(SurfaceLookupError::EntryNotFound)
    );
    assert_eq!(
        cache.retrieve_surface(&TargetTag::Text("00".to_string())),
        Err(SurfaceLookupError::EntryNotFound)
    );
    assert_eq!(
        cache.retrieve_surface(&TargetTag::Text("".to_string())),
        Err(SurfaceLookupError::EntryNotFound)
    );
    assert_eq!(
        cache.retrieve_surface(&TargetTag::NotText),
        Err(SurfaceLookupError::TagNotText)
    );
}

#[test]
fn lookup_error_messages() {
    assert_eq!(SurfaceLookupError::EntryNotFound.message(), "Surface entry not Found.");
    assert_eq!(SurfaceLookupError::TagNotText.message(), "Stored surface id was not a string.");
    assert_eq!(
        RenderError::Surface(SurfaceLookupError::EntryNotFound).message(),
        "Surface entry not Found."
    );
    assert_eq!(RenderError::Acquire(SurfaceAcquireError::Lost).message(), "Lost");
    assert_eq!(SurfaceAcquireError::Timeout.message(), "Timeout");
    assert_eq!(SurfaceAcquireError::Outdated.message(), "Outdated");
    assert_eq!(SurfaceAcquireError::OutOfMemory.message(), "OutOfMemory");
    assert_eq!(SurfaceAcquireError::Other.message(), "Other");
}

#[test]
fn bridge_is_made_only_from_a_built_engine() {
    let ok: Result<TweakShader<&str, u32>, &str> = TweakShader::new(Ok("engine"));
    let bridge = ok.unwrap();
    assert_eq!(*bridge.context(), "engine");
    assert_eq!(bridge.surface_count(), 0);
    let failed: Result<TweakShader<&str, u32>, &str> = TweakShader::new(Err("syntax error"));
    assert!(matches!(failed, Err("syntax error")));
}

#[test]
fn update_src_with_an_invalid_source_keeps_the_engine() {
    let mut bridge: TweakShader<String, u32> =
        TweakShader::new(Ok::<String, String>("first".to_string())).unwrap();
    let tag = bridge.insert_surface(5);
    let r = bridge.update_src(Err::<String, &str>("does not compile"));
    assert_eq!(r, Err("does not compile"));
    assert_eq!(bridge.context(), "first");
    assert_eq!(bridge.surface_count(), 1);
    assert_eq!(bridge.retrieve_surface(&TargetTag::Text(tag)), Ok(SurfaceStep::Cached(0)));
}

#[test]
fn update_src_with_a_valid_source_swaps_the_engine() {
    let mut bridge: TweakShader<String, u32> =
        TweakShader::new(Ok::<String, String>("first".to_string())).unwrap();
    let tag = bridge.insert_surface(5);
    let r = bridge.update_src(Ok::<String, &str>("second".to_string()));
    assert_eq!(r, Ok("first".to_string()));
    assert_eq!(bridge.context(), "second");
    assert_eq!(bridge.surface_count(), 1);
    assert_eq!(*bridge.surface(0), 5);
    assert_eq!(bridge.retrieve_surface(&TargetTag::Text(tag)), Ok(SurfaceStep::Cached(0)));
}

#[test]
fn bridge_resolves_targets_through_its_cache() {
    let mut bridge: TweakShader<u8, &str> = TweakShader::new(Ok::<u8, u8>(0)).unwrap();
    assert_eq!(bridge.retrieve_surface(&TargetTag::Absent), Ok(SurfaceStep::Create));
    let a = bridge.insert_surface("a");
    assert_eq!(bridge.retrieve_surface(&TargetTag::Absent), Ok(SurfaceStep::Create));
    let b = bridge.insert_surface("b");
    assert_eq!((a.as_str(), b.as_str()), ("0", "1"));
    assert_eq!(bridge.retrieve_surface(&TargetTag::Text(a)), Ok(SurfaceStep::Cached(0)));
    assert_eq!(bridge.retrieve_surface(&TargetTag::Text(b)), Ok(SurfaceStep::Cached(1)));
    assert_eq!(
        bridge.retrieve_surface(&TargetTag::Text("2".to_string())),
        Err(RenderError::Surface(SurfaceLookupError::EntryNotFound))
    );
    assert_eq!(
        bridge.retrieve_surface(&TargetTag::NotText),
        Err(RenderError::Surface(SurfaceLookupError::TagNotText))
    );
    *bridge.context_mut() = 9;
    assert_eq!(*bridge.context(), 9);
    assert_eq!(bridge.surface_count(), 2);
}

#[test]
fn frame_errors_are_handed_on() {
    assert_eq!(frame_outcome(Ok(())), Ok(()));
    assert_eq!(
        frame_outcome(Err(SurfaceAcquireError::Outdated)),
        Err(RenderError::Acquire(SurfaceAcquireError::Outdated))
    );
}

#[test]
fn surface_configuration_is_fixed_but_for_the_size() {
    let c = surface_configuration(800, 600);
    assert_eq!(c.usage, 16 | 8);
    assert_eq!(c.format, TextureFormat::Rgba8Unorm);
    assert_eq!(c.width, 800);
    assert_eq!(c.height, 600);
    assert_eq!(c.present_mode, PresentMode::Fifo);
    assert_eq!(c.alpha_mode, CompositeAlphaMode::Auto);
    assert_eq!(c.desired_maximum_frame_latency, 3);
    assert_eq!(surface_configuration(0, 0).width, 0);
}

#[test]
fn full_view_shows_everything() {
    let v = full_view();
    assert_eq!(v.aspect, TextureAspect::All);
    assert_eq!(v.base_mip_level, 0);
    assert_eq!(v.mip_level_count, None);
    assert_eq!(v.base_array_layer, 0);
    assert_eq!(v.array_layer_count, None);
}

#[test]
fn texture_desc_is_tightly_packed_rgba() {
    let d = texture_desc(2, 1, vec![255, 0, 0, 255, 0, 255, 0, 255]);
    assert_eq!(d.width, 2);
    assert_eq!(d.height, 1);
    assert_eq!(d.stride, None);
    assert_eq!(d.data, vec![255, 0, 0, 255, 0, 255, 0, 255]);
    assert_eq!(d.format, TextureFormat::Rgba8Unorm);
}

#[test]
fn gpu_errors_are_worded_for_the_log() {
    assert_eq!(GpuError::OutOfMemory.describe(), "GPU Out of Memory error occurred");
    let v = GpuError::Validation {
        description: "bad bind group".to_string(),
        source: "layout mismatch".to_string(),
    };
    assert_eq!(v.describe(), "GPU Validation error: bad bind group : layout mismatch");
    let i = GpuError::Internal { description: "lost".to_string(), source: "driver".to_string() };
    assert_eq!(i.describe(), "GPU Internal error: lost : driver");
    let empty = GpuError::Internal { description: String::new(), source: String::new() };
    assert_eq!(empty.describe(), "GPU Internal error:  : ");
}

#[test]
fn context_initialisation_steps() {
    assert_eq!(
        adapter_request(),
        AdapterRequest {
            power_preference: PowerPreference::NoPreference,
            force_fallback_adapter: false
        }
    );
    assert_eq!(after_adapter_request(true), Ok(InitStep::RequestDevice));
    assert_eq!(after_adapter_request(false), Err(InitError::AdapterNotFound));
    assert_eq!(after_device_request(true), Ok(InitStep::Finish));
    assert_eq!(after_device_request(false), Err(InitError::DeviceRequestFailed));
    assert_eq!(InitError::AdapterNotFound.message(), "Failed to find an appropriate adapter");
    assert_eq!(InitError::DeviceRequestFailed.message(), "Failed to create device");
}
