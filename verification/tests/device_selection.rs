use sandcastle::device::{
    choose_device, find_queue_family, select_device, PhysicalDeviceInfo, Priority,
    QueueFamilyInfo, Selection, PRIORITY_HALF_BITS, PRIORITY_ONE_BITS,
};
use sandcastle::RenderError;
use vulkano::device::physical::PhysicalDeviceType;

fn family(graphics: bool, present: bool) -> QueueFamilyInfo {
    QueueFamilyInfo { supports_graphics: graphics, supports_present: present }
}

fn device(name: &str, ty: PhysicalDeviceType, families: Vec<QueueFamilyInfo>) -> PhysicalDeviceInfo {
    PhysicalDeviceInfo { name: name.to_string(), ty, queue_families: families }
}

#[test]
fn queue_family_must_draw_and_present() {
    let families = vec![family(true, false), family(false, true), family(true, true)];
    assert_eq!(find_queue_family(&families), Some(2));
}

#[test]
fn first_of_several_usable_families_is_taken() {
    let families = vec![family(false, false), family(true, true), family(true, true)];
    assert_eq!(find_queue_family(&families), Some(1));
}

#[test]
fn no_family_without_graphics_and_present() {
    let families = vec![family(true, false), family(false, true), family(false, false)];
    assert_eq!(find_queue_family(&families), None);
    assert_eq!(find_queue_family(&Vec::new()), None);
}

#[test]
fn first_device_with_a_usable_family_is_selected() {
    let devices = vec![
        device("compute only", PhysicalDeviceType::Other, vec![family(false, false)]),
        device("integrated", PhysicalDeviceType::IntegratedGpu, vec![family(true, false), family(true, true)]),
        device("discrete", PhysicalDeviceType::DiscreteGpu, vec![family(true, true)]),
    ];
    assert_eq!(select_device(&devices), Ok(Selection { device: 1, queue_family: 1 }));
}

#[test]
fn zero_devices_is_a_fatal_error() {
    let selected = select_device(&Vec::new());
    assert_eq!(selected, Err(RenderError::NoPhysicalDevice));
    assert!(RenderError::NoPhysicalDevice.is_fatal());
    assert!(!RenderError::NoPhysicalDevice.is_retryable());
}

#[test]
fn devices_without_usable_family_is_a_fatal_error() {
    let devices = vec![
        device("a", PhysicalDeviceType::Cpu, vec![family(true, false)]),
        device("b", PhysicalDeviceType::VirtualGpu, Vec::new()),
    ];
    assert_eq!(select_device(&devices), Err(RenderError::NoQueueFamily));
    assert!(RenderError::NoQueueFamily.is_fatal());
}

#[test]
fn selection_is_deterministic() {
    let make = || {
        vec![
            device("a", PhysicalDeviceType::Cpu, vec![family(true, false)]),
            device("b", PhysicalDeviceType::DiscreteGpu, vec![family(false, true), family(true, true)]),
            device("c", PhysicalDeviceType::DiscreteGpu, vec![family(true, true)]),
        ]
    };
    let first = select_device(&make());
    let second = select_device(&make());
    assert_eq!(first, second);
    assert_eq!(first, Ok(Selection { device: 1, queue_family: 1 }));
}

#[test]
fn selection_does_not_read_names_or_kinds() {
    let one = vec![
        device("a", PhysicalDeviceType::Cpu, vec![family(false, true)]),
        device("b", PhysicalDeviceType::DiscreteGpu, vec![family(true, true)]),
    ];
    let other = vec![
        device("x", PhysicalDeviceType::IntegratedGpu, vec![family(true, false)]),
        device("y", PhysicalDeviceType::Other, vec![family(true, true)]),
    ];
    assert_eq!(select_device(&one), select_device(&other));
}

#[test]
fn default_priority_is_one_half() {
    assert_eq!(PRIORITY_HALF_BITS, 0.5f32.to_bits());
    assert_eq!(PRIORITY_ONE_BITS, 1.0f32.to_bits());
    assert_eq!(Priority::half().bits(), 0.5f32.to_bits());
    assert_eq!(f32::from_bits(Priority::half().bits()), 0.5);
}

#[test]
fn priority_lies_between_zero_and_one() {
    for value in [0.0f32, 0.25, 0.5, 0.999, 1.0] {
        let priority = Priority::from_bits(value.to_bits());
        assert_eq!(priority.map(|p| f32::from_bits(p.bits())), Some(value));
    }
    for value in [1.0000001f32, 2.0, -0.5, -0.0, f32::INFINITY, f32::NEG_INFINITY, f32::NAN] {
        assert_eq!(Priority::from_bits(value.to_bits()), None);
    }
}

#[test]
fn priority_bits_order_as_the_numbers_do() {
    let mut bits: u32 = 0;
    let mut previous = f32::from_bits(0);
    while bits < PRIORITY_ONE_BITS {
        bits += 0x0001_0001;
        if bits > PRIORITY_ONE_BITS {
            bits = PRIORITY_ONE_BITS;
        }
        let value = f32::from_bits(bits);
        assert!(value > previous && value <= 1.0);
        previous = value;
    }
}

#[test]
fn choice_goes_by_the_preset_where_it_will_do() {
    let devices = vec![
        device("a", PhysicalDeviceType::Cpu, vec![family(true, true)]),
        device("b", PhysicalDeviceType::DiscreteGpu, vec![family(false, true), family(true, true)]),
    ];
    assert_eq!(choose_device(None, &devices), Ok(Selection { device: 0, queue_family: 0 }));
    let preset = Selection { device: 1, queue_family: 1 };
    assert_eq!(choose_device(Some(preset), &devices), Ok(preset));
    assert_eq!(
        choose_device(Some(Selection { device: 1, queue_family: 0 }), &devices),
        Err(RenderError::NoQueueFamily)
    );
    assert_eq!(
        choose_device(Some(Selection { device: 1, queue_family: 2 }), &devices),
        Err(RenderError::NoQueueFamily)
    );
    assert_eq!(
        choose_device(Some(Selection { device: 2, queue_family: 0 }), &devices),
        Err(RenderError::NoPhysicalDevice)
    );
    assert_eq!(choose_device(Some(preset), &Vec::new()), Err(RenderError::NoPhysicalDevice));
}
