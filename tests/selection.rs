use vk_renderer::device::{
    check_extension_support, contains_name, is_device_suitable, missing_names, names_equal,
    pick_physical_device, unique_queue_families, DeviceProfile,
};
use vk_renderer::memory::{
    contains_flags, find_memory_type, MemoryError, MEMORY_PROPERTY_DEVICE_LOCAL,
    MEMORY_PROPERTY_HOST_COHERENT, MEMORY_PROPERTY_HOST_VISIBLE,
};
use vk_renderer::queue_family::{find_queue_families, QueueFamilyIndices, QueueFamilyProperties};
use vk_renderer::text::{c_string_to_bytes, read_vk_string};

fn family(queue_count: u32, queue_flags: u32, present_support: bool) -> QueueFamilyProperties {
    QueueFamilyProperties { queue_count, queue_flags, present_support }
}

fn name(s: &str) -> Vec<u8> {
    s.as_bytes().to_vec()
}

fn good_profile() -> DeviceProfile {
    DeviceProfile {
        geometry_shader: true,
        sampler_anisotropy: true,
        queue_families: vec![family(1, 1, true)],
        extensions: vec![name("VK_KHR_swapchain"), name("VK_KHR_maintenance1")],
        surface_format_count: 2,
        present_mode_count: 1,
    }
}

#[test]
fn is_complete_needs_both_families() {
    let both = QueueFamilyIndices { graphics_family: Some(0), present_family: Some(2) };
    let graphics_only = QueueFamilyIndices { graphics_family: Some(0), present_family: None };
    let neither = QueueFamilyIndices { graphics_family: None, present_family: None };
    assert!(both.is_complete());
    assert!(!graphics_only.is_complete());
    assert!(!neither.is_complete());
}

#[test]
fn queue_families_same_family() {
    let r = find_queue_families(&vec![family(4, 0b111, true)]);
    assert_eq!(r, QueueFamilyIndices { graphics_family: Some(0), present_family: Some(0) });
}

#[test]
fn queue_families_separate_families() {
    let fams = vec![family(0, 1, true), family(2, 2, true), family(1, 1, false), family(1, 1, true)];
    let r = find_queue_families(&fams);
    assert_eq!(r, QueueFamilyIndices { graphics_family: Some(2), present_family: Some(1) });
}

#[test]
fn queue_families_missing_present() {
    let r = find_queue_families(&vec![family(1, 1, false), family(1, 3, false)]);
    assert_eq!(r, QueueFamilyIndices { graphics_family: Some(1), present_family: None });
    let empty = find_queue_families(&vec![]);
    assert_eq!(empty, QueueFamilyIndices { graphics_family: None, present_family: None });
}

#[test]
fn memory_type_first_suitable() {
    let types = vec![
        MEMORY_PROPERTY_DEVICE_LOCAL,
        MEMORY_PROPERTY_HOST_VISIBLE,
        MEMORY_PROPERTY_HOST_VISIBLE | MEMORY_PROPERTY_HOST_COHERENT,
        MEMORY_PROPERTY_HOST_VISIBLE | MEMORY_PROPERTY_HOST_COHERENT | MEMORY_PROPERTY_DEVICE_LOCAL,
    ];
    let host = MEMORY_PROPERTY_HOST_VISIBLE | MEMORY_PROPERTY_HOST_COHERENT;
    assert_eq!(find_memory_type(0b1111, host, &types), Ok(2));
    assert_eq!(find_memory_type(0b1000, host, &types), Ok(3));
    assert_eq!(find_memory_type(0b1111, MEMORY_PROPERTY_DEVICE_LOCAL, &types), Ok(0));
    assert_eq!(find_memory_type(0b1110, MEMORY_PROPERTY_DEVICE_LOCAL, &types), Ok(3));
}

#[test]
fn memory_type_none_suitable() {
    let types = vec![MEMORY_PROPERTY_DEVICE_LOCAL, MEMORY_PROPERTY_HOST_VISIBLE];
    assert_eq!(
        find_memory_type(0b11, MEMORY_PROPERTY_HOST_COHERENT, &types),
        Err(MemoryError::NoSuitableMemoryType)
    );
    assert_eq!(
        find_memory_type(0, 0, &types),
        Err(MemoryError::NoSuitableMemoryType)
    );
    assert_eq!(find_memory_type(u32::MAX, 0, &vec![]), Err(MemoryError::NoSuitableMemoryType));
}

#[test]
fn memory_type_selection_is_deterministic() {
    let types = vec![6, 1, 7, 3, 6];
    let first = find_memory_type(0b11110, 6, &types);
    for _ in 0..5 {
        assert_eq!(find_memory_type(0b11110, 6, &types), first);
    }
    assert_eq!(first, Ok(2));
}

#[test]
fn memory_type_highest_bit() {
    let mut types = vec![0u32; 32];
    types[31] = MEMORY_PROPERTY_DEVICE_LOCAL;
    assert_eq!(find_memory_type(1 << 31, MEMORY_PROPERTY_DEVICE_LOCAL, &types), Ok(31));
    types.push(MEMORY_PROPERTY_DEVICE_LOCAL);
    assert_eq!(find_memory_type(0x7fff_ffff, MEMORY_PROPERTY_DEVICE_LOCAL, &types), Err(MemoryError::NoSuitableMemoryType));
}

#[test]
fn flags_containment() {
    assert!(contains_flags(0b111, 0b101));
    assert!(!contains_flags(0b011, 0b101));
    assert!(contains_flags(0, 0));
}

#[test]
fn name_comparison() {
    assert!(names_equal(&name("abc"), &name("abc")));
    assert!(!names_equal(&name("abc"), &name("abd")));
    assert!(!names_equal(&name("abc"), &name("ab")));
    let names = vec![name("one"), name("two")];
    assert!(contains_name(&names, &name("two")));
    assert!(!contains_name(&names, &name("three")));
}

#[test]
fn missing_names_keep_order() {
    let required = vec![name("a"), name("b"), name("c"), name("d")];
    let available = vec![name("c"), name("a")];
    assert_eq!(missing_names(&required, &available), vec![name("b"), name("d")]);
    assert!(missing_names(&vec![], &available).is_empty());
    assert!(!check_extension_support(&required, &available));
    assert!(check_extension_support(&vec![name("a"), name("c")], &available));
    assert!(check_extension_support(&vec![], &vec![]));
}

#[test]
fn device_suitability() {
    let required = vec![name("VK_KHR_swapchain")];
    assert!(is_device_suitable(&good_profile(), &required));

    let mut no_ext = good_profile();
    no_ext.extensions = vec![name("VK_KHR_maintenance1")];
    assert!(!is_device_suitable(&no_ext, &required));

    let mut no_formats = good_profile();
    no_formats.surface_format_count = 0;
    assert!(!is_device_suitable(&no_formats, &required));

    let mut no_modes = good_profile();
    no_modes.present_mode_count = 0;
    assert!(!is_device_suitable(&no_modes, &required));

    let mut no_geometry = good_profile();
    no_geometry.geometry_shader = false;
    assert!(!is_device_suitable(&no_geometry, &required));

    let mut no_aniso = good_profile();
    no_aniso.sampler_anisotropy = false;
    assert!(!is_device_suitable(&no_aniso, &required));

    let mut no_present = good_profile();
    no_present.queue_families = vec![family(1, 1, false)];
    assert!(!is_device_suitable(&no_present, &required));
}

#[test]
fn picks_first_suitable_device() {
    let required = vec![name("VK_KHR_swapchain")];
    let mut bad = good_profile();
    bad.sampler_anisotropy = false;
    assert_eq!(pick_physical_device(&vec![bad.clone(), good_profile(), good_profile()], &required), Some(1));
    assert_eq!(pick_physical_device(&vec![bad.clone()], &required), None);
    assert_eq!(pick_physical_device(&vec![], &required), None);
}

#[test]
fn unique_families_are_deduplicated() {
    let same = QueueFamilyIndices { graphics_family: Some(3), present_family: Some(3) };
    assert_eq!(unique_queue_families(&same), vec![3]);
    let split = QueueFamilyIndices { graphics_family: Some(0), present_family: Some(1) };
    assert_eq!(unique_queue_families(&split), vec![0, 1]);
}

fn c_chars(s: &str, width: usize) -> Vec<i8> {
    let mut v: Vec<i8> = s.bytes().map(|b| b as i8).collect();
    v.resize(width, 0);
    v
}

#[test]
fn reads_terminated_name() {
    let chars = c_chars("VK_LAYER_KHRONOS_validation", 256);
    assert_eq!(read_vk_string(&chars).unwrap(), "VK_LAYER_KHRONOS_validation");
    assert_eq!(read_vk_string(&c_chars("", 8)).unwrap(), "");
}

#[test]
fn reads_name_without_terminator() {
    let chars: Vec<i8> = "abc".bytes().map(|b| b as i8).collect();
    assert_eq!(c_string_to_bytes(&chars), b"abc".to_vec());
    assert_eq!(read_vk_string(&chars).unwrap(), "abc");
}

#[test]
fn stops_at_first_terminator() {
    let chars: Vec<i8> = vec![b'a' as i8, b'b' as i8, 0, b'c' as i8, 0];
    assert_eq!(c_string_to_bytes(&chars), b"ab".to_vec());
}

#[test]
fn rejects_invalid_utf8_name() {
    let chars: Vec<i8> = vec![b'a' as i8, -1, 0];
    assert!(read_vk_string(&chars).is_err());
    let multibyte: Vec<i8> = vec![0xC3u8 as i8, 0xA9u8 as i8, 0];
    assert_eq!(read_vk_string(&multibyte).unwrap(), "\u{e9}");
}
