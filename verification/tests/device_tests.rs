use roast::device::{
    extensions_cover, features_cover, find_queue_families, get_device_extensions,
    get_device_features, is_physical_device_suitable, pick_physical_device, unique_queue_families,
    DeviceCaps, DeviceExtensions, DeviceFeatures, QueueFamilyIndices, QueueFamilyProps,
};
use roast::ffi::{int_to_color, is_aligned_and_not_null};
use roast::logger::{JavaLogger, JavaLoggerCallbacks, LogLevel, LoggerRegistry};

fn family(graphics: bool, present: bool) -> QueueFamilyProps {
    QueueFamilyProps { supports_graphics: graphics, supports_present: present }
}

fn good_device() -> DeviceCaps {
    DeviceCaps {
        families: vec![family(true, true), family(false, false)],
        extensions_supported: true,
        formats_nonempty: true,
        present_modes_nonempty: true,
        features_supported: true,
    }
}

#[test]
fn transfer_falls_back_to_graphics() {
    // One family that does everything: no distinct transfer family exists,
    // so transfer shares the graphics family.
    let indices = find_queue_families(&vec![family(true, true)]);
    assert_eq!(indices.graphics, Some(0));
    assert_eq!(indices.present, Some(0));
    assert_eq!(indices.transfer, Some(0));
    assert!(indices.is_complete());
}

#[test]
fn distinct_transfer_family_is_preferred() {
    let indices = find_queue_families(&vec![family(true, true), family(false, false)]);
    assert_eq!(indices.graphics, Some(0));
    assert_eq!(indices.present, Some(0));
    assert_eq!(indices.transfer, Some(1));
}

#[test]
fn incomplete_families_stay_incomplete() {
    let indices = find_queue_families(&vec![family(true, false)]);
    assert_eq!(indices.graphics, Some(0));
    assert_eq!(indices.present, None);
    assert!(!indices.is_complete());

    let indices = find_queue_families(&Vec::new());
    assert_eq!(indices, QueueFamilyIndices::default());
}

#[test]
fn suitability_needs_every_requirement() {
    assert!(is_physical_device_suitable(&good_device()));

    let mut d = good_device();
    d.extensions_supported = false;
    assert!(!is_physical_device_suitable(&d));

    let mut d = good_device();
    d.formats_nonempty = false;
    assert!(!is_physical_device_suitable(&d));

    let mut d = good_device();
    d.features_supported = false;
    assert!(!is_physical_device_suitable(&d));

    let mut d = good_device();
    d.families = vec![family(false, true)];
    assert!(!is_physical_device_suitable(&d));
}

#[test]
fn first_suitable_device_wins() {
    let mut bad = good_device();
    bad.features_supported = false;
    assert_eq!(pick_physical_device(&vec![bad, good_device(), good_device()]), Some(1));

    let mut bad = good_device();
    bad.extensions_supported = false;
    assert_eq!(pick_physical_device(&vec![bad]), None);
    assert_eq!(pick_physical_device(&Vec::new()), None);
}

#[test]
fn queue_family_dedup_keeps_order() {
    assert_eq!(unique_queue_families(0, 0, 0), vec![0]);
    assert_eq!(unique_queue_families(0, 0, 1), vec![0, 1]);
    assert_eq!(unique_queue_families(0, 1, 1), vec![0, 1]);
    assert_eq!(unique_queue_families(0, 1, 2), vec![0, 1, 2]);
    assert_eq!(unique_queue_families(2, 2, 0), vec![2, 0]);
}

#[test]
fn pointer_check_is_exact() {
    assert!(!is_aligned_and_not_null(0, 4));
    assert!(!is_aligned_and_not_null(2, 4));
    assert!(is_aligned_and_not_null(8, 4));
    assert!(is_aligned_and_not_null(1, 1));
}

#[test]
fn color_unpacking_is_exact() {
    // 0xAARRGGBB: alpha 0x12, red 0x34, green 0x56, blue 0x78.
    assert_eq!(int_to_color(0x12345678), (0x34, 0x56, 0x78, 0x12));
    assert_eq!(int_to_color(0), (0, 0, 0, 0));
    assert_eq!(int_to_color(0xFFFFFFFF), (0xFF, 0xFF, 0xFF, 0xFF));
}

#[test]
fn logger_initializes_once_and_routes_levels() {
    let callbacks = JavaLoggerCallbacks { error: 1, warn: 2, info: 3, debug: 4, trace: 5 };
    let logger = JavaLogger::new(callbacks);
    assert_eq!(logger.callback_for(LogLevel::Error), 1);
    assert_eq!(logger.callback_for(LogLevel::Warn), 2);
    assert_eq!(logger.callback_for(LogLevel::Info), 3);
    assert_eq!(logger.callback_for(LogLevel::Debug), 4);
    assert_eq!(logger.callback_for(LogLevel::Trace), 5);

    let mut registry = LoggerRegistry::new();
    logger.init(&mut registry).unwrap();
    assert!(JavaLogger::new(callbacks).init(&mut registry).is_err());
}

#[test]
fn required_feature_and_extension_sets() {
    let features = get_device_features();
    assert!(features.sampler_anisotropy);
    assert!(features.shader_int8);
    assert!(features.shader_int16);
    assert!(features.shader_int64);
    assert!(features_cover(&features, &features));
    let missing = DeviceFeatures { shader_int64: false, ..features };
    assert!(!features_cover(&missing, &features));
    assert!(features_cover(&features, &missing));

    let extensions = get_device_extensions();
    assert!(extensions.khr_swapchain);
    assert!(extensions.khr_storage_buffer_storage_class);
    assert!(extensions.khr_8bit_storage);
    assert!(extensions.khr_16bit_storage);
    assert!(extensions_cover(&extensions, &extensions));
    let missing = DeviceExtensions { khr_swapchain: false, ..extensions };
    assert!(!extensions_cover(&missing, &extensions));
}
