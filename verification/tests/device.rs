use r_liv::device::create_device;
use r_liv::device::select_physical_device;
use r_liv::device::select_queue_family;
use r_liv::device::DeviceRequest;
use r_liv::device::PhysicalDeviceInfo;
use r_liv::device::QueueFamilyInfo;

fn devices(sizes: &[u32]) -> Vec<PhysicalDeviceInfo> {
    sizes
        .iter()
        .map(|&size| PhysicalDeviceInfo { max_compute_shared_memory_size: size })
        .collect()
}

fn family(graphics: bool, surface: Option<bool>) -> QueueFamilyInfo {
    QueueFamilyInfo { supports_graphics: graphics, supports_surface: surface }
}

#[test]
fn no_device_gives_none() {
    assert_eq!(select_physical_device(&devices(&[])), None);
}

#[test]
fn device_with_most_shared_memory_is_chosen() {
    assert_eq!(select_physical_device(&devices(&[16384])), Some(0));
    assert_eq!(select_physical_device(&devices(&[16384, 49152, 32768])), Some(1));
    assert_eq!(select_physical_device(&devices(&[0, 0, 1])), Some(2));
}

#[test]
fn first_of_equal_devices_is_chosen() {
    assert_eq!(select_physical_device(&devices(&[32768, 49152, 49152])), Some(1));
    assert_eq!(select_physical_device(&devices(&[7, 7, 7])), Some(0));
    assert_eq!(select_physical_device(&devices(&[u32::MAX, 1, u32::MAX])), Some(0));
}

#[test]
fn queue_family_needs_graphics_and_presentation() {
    assert!(family(true, Some(true)).is_suitable());
    assert!(!family(true, Some(false)).is_suitable());
    assert!(!family(true, None).is_suitable());
    assert!(!family(false, Some(true)).is_suitable());
    assert!(!family(false, None).is_suitable());
}

#[test]
fn first_suitable_queue_family_is_chosen() {
    let families = vec![
        family(false, Some(true)),
        family(true, None),
        family(true, Some(true)),
        family(true, Some(true)),
    ];
    assert_eq!(select_queue_family(&families), Some(2));
    assert_eq!(
        create_device(&families),
        DeviceRequest { queue_family: 2, khr_swapchain: true }
    );
}

#[test]
fn no_suitable_queue_family_is_found_where_there_is_none() {
    let families = vec![family(false, Some(true)), family(true, Some(false))];
    assert_eq!(select_queue_family(&families), None);
    assert_eq!(select_queue_family(&Vec::new()), None);
}

#[test]
fn device_takes_a_single_suitable_family() {
    let families = vec![family(true, Some(true))];
    assert_eq!(
        create_device(&families),
        DeviceRequest { queue_family: 0, khr_swapchain: true }
    );
    let families = vec![family(true, None), family(false, None), family(true, Some(true))];
    assert_eq!(create_device(&families).queue_family, 2);
}
