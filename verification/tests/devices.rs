use sands::heatwave::devices::{
    compatible_devices, find_device_id, graphics_queue_family, DeviceCandidate, DeviceKind,
    PhysicalDeviceInfo, QueueFamilyInfo,
};
use sands::heatwave::prelude::WindowBuilder;

fn family(graphics: bool, presentable: bool) -> QueueFamilyInfo {
    QueueFamilyInfo { graphics, presentable }
}

fn candidate(position: usize, device_id: u32, kind: DeviceKind) -> DeviceCandidate {
    DeviceCandidate { position, device_id, kind, queue_family_index: 0 }
}

#[test]
fn device_kind_priorities() {
    assert_eq!(DeviceKind::DiscreteGpu.priority(), 0);
    assert_eq!(DeviceKind::IntegratedGpu.priority(), 1);
    assert_eq!(DeviceKind::VirtualGpu.priority(), 2);
    assert_eq!(DeviceKind::Cpu.priority(), 3);
    assert_eq!(DeviceKind::Other.priority(), 4);
}

#[test]
fn first_family_that_draws_and_presents() {
    let families = vec![family(false, true), family(true, false), family(true, true), family(true, true)];
    assert_eq!(graphics_queue_family(&families), Some(2));
    assert_eq!(graphics_queue_family(&vec![family(true, false), family(false, true)]), None);
    assert_eq!(graphics_queue_family(&vec![]), None);
}

#[test]
fn compatible_devices_are_filtered_in_order() {
    let devices = vec![
        PhysicalDeviceInfo {
            device_id: 10,
            kind: DeviceKind::Cpu,
            supports_swapchain: true,
            queue_families: vec![family(true, true)],
        },
        PhysicalDeviceInfo {
            device_id: 11,
            kind: DeviceKind::DiscreteGpu,
            supports_swapchain: false,
            queue_families: vec![family(true, true)],
        },
        PhysicalDeviceInfo {
            device_id: 12,
            kind: DeviceKind::IntegratedGpu,
            supports_swapchain: true,
            queue_families: vec![family(false, false), family(true, false)],
        },
        PhysicalDeviceInfo {
            device_id: 13,
            kind: DeviceKind::VirtualGpu,
            supports_swapchain: true,
            queue_families: vec![family(false, true), family(true, true)],
        },
    ];
    let found = compatible_devices(&devices);
    assert_eq!(
        found,
        vec![
            DeviceCandidate { position: 0, device_id: 10, kind: DeviceKind::Cpu, queue_family_index: 0 },
            DeviceCandidate { position: 3, device_id: 13, kind: DeviceKind::VirtualGpu, queue_family_index: 1 },
        ]
    );
    assert!(compatible_devices(&vec![]).is_empty());
}

#[test]
fn scan_prefers_real_gpus() {
    let devices = vec![
        candidate(0, 1, DeviceKind::Cpu),
        candidate(1, 2, DeviceKind::IntegratedGpu),
        candidate(2, 3, DeviceKind::DiscreteGpu),
        candidate(3, 4, DeviceKind::VirtualGpu),
    ];
    assert_eq!(WindowBuilder::scan_for_device(&devices), 2);
    let no_discrete = vec![candidate(0, 1, DeviceKind::Other), candidate(1, 2, DeviceKind::VirtualGpu)];
    assert_eq!(WindowBuilder::scan_for_device(&no_discrete), 1);
}

#[test]
fn scan_takes_first_of_equal_kind() {
    let devices = vec![
        candidate(0, 1, DeviceKind::Cpu),
        candidate(1, 2, DeviceKind::IntegratedGpu),
        candidate(2, 3, DeviceKind::IntegratedGpu),
    ];
    assert_eq!(WindowBuilder::scan_for_device(&devices), 1);
}

#[test]
fn scan_of_one_device() {
    assert_eq!(WindowBuilder::scan_for_device(&vec![candidate(0, 1, DeviceKind::Other)]), 0);
}

#[test]
fn preferred_device_is_used_when_present() {
    let devices = vec![
        candidate(0, 5, DeviceKind::DiscreteGpu),
        candidate(1, 7, DeviceKind::Cpu),
        candidate(2, 7, DeviceKind::IntegratedGpu),
    ];
    let mut builder = WindowBuilder::new();
    builder.with_physical_device(7);
    assert_eq!(builder.choose_device(&devices), 1);
    assert_eq!(find_device_id(&devices, 7), Some(1));
    assert_eq!(find_device_id(&devices, 9), None);
}

#[test]
fn missing_preferred_device_falls_back_to_default() {
    let devices = vec![candidate(0, 5, DeviceKind::Cpu), candidate(1, 6, DeviceKind::DiscreteGpu)];
    let mut builder = WindowBuilder::new();
    builder.with_physical_device(99);
    assert_eq!(builder.choose_device(&devices), 1);
    assert_eq!(WindowBuilder::new().choose_device(&devices), 1);
}

#[test]
fn swapchain_image_counts() {
    let mut builder = WindowBuilder::new();
    builder.buffer_count(3);
    // min + 1 = 3, requested 3, cap 8
    assert_eq!(builder.swapchain_image_count(2, Some(8)), 3);
    // requested above min + 1
    assert_eq!(builder.swapchain_image_count(1, Some(8)), 3);
    // min + 1 above requested
    assert_eq!(builder.swapchain_image_count(4, Some(8)), 5);
    // capped by the surface
    assert_eq!(builder.swapchain_image_count(4, Some(2)), 2);
    // no maximum: capped at three
    assert_eq!(builder.swapchain_image_count(1, None), 3);
    assert_eq!(builder.swapchain_image_count(5, None), 3);
    // default builder asks for two
    assert_eq!(WindowBuilder::new().swapchain_image_count(0, None), 2);
    assert_eq!(WindowBuilder::new().swapchain_image_count(u32::MAX - 1, None), 3);
}
