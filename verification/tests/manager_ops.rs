use xrt_core::common::{ArgumentType, ScalarType};
use xrt_core::device_manager::DeviceManager;
use xrt_core::error::Error;
use xrt_core::kernel::XRTKernel;

/// An image with the magic string, the metadata marker, and one kernel
/// "add" taking two u32 buffers (memory group 0) and one scalar.
fn add_kernel_image() -> Vec<u8> {
    vec![
        0x78, 0x63, 0x6c, 0x62, 0x69, 0x6e, 0x32, // "xclbin2"
        0x4D, // metadata marker
        1,    // one kernel
        3, b'a', b'd', b'd', // name
        3,    // three arguments
        1, 0, 0, // buffer of u32, group 0
        1, 0, 0, // buffer of u32, group 0
        0, 0, 0, // scalar
    ]
}

#[test]
fn staged_build_succeeds() {
    let manager = DeviceManager::new(0)
        .unwrap()
        .with_image("add.xclbin".to_string(), add_kernel_image())
        .with_xclbin("add.xclbin")
        .unwrap()
        .with_kernel("add")
        .unwrap();
    let entry = manager.entry("add").unwrap();
    assert!(entry.kernel.handle.is_some());
    assert_eq!(
        entry.argument_mapping,
        vec![
            ArgumentType::Buffer(ScalarType::U32),
            ArgumentType::Buffer(ScalarType::U32),
            ArgumentType::Scalar,
        ]
    );
    assert_eq!(entry.kernel.get_memory_group_for_argument(0), Ok(0));
    assert_eq!(entry.kernel.get_memory_group_for_argument(1), Ok(0));
    assert_eq!(
        entry.kernel.get_memory_group_for_argument(3),
        Err(Error::KernelArgRtrvError)
    );
}

#[test]
fn bad_magic_reports_found_string() {
    let r = DeviceManager::new(0)
        .unwrap()
        .with_image("missing.xclbin".to_string(), b"garbage bytes".to_vec())
        .with_xclbin("missing.xclbin");
    match r {
        Err(Error::XclbinInvalidMagicString(found)) => assert_eq!(found, "garbage"),
        other => panic!("expected invalid magic, got {:?}", other.is_ok()),
    }
}

#[test]
fn short_image_reports_found_prefix() {
    let r = DeviceManager::new(0)
        .unwrap()
        .with_image("tiny.xclbin".to_string(), b"xcl".to_vec())
        .with_xclbin("tiny.xclbin");
    match r {
        Err(Error::XclbinInvalidMagicString(found)) => assert_eq!(found, "xcl"),
        other => panic!("expected invalid magic, got {:?}", other.is_ok()),
    }
}

#[test]
fn missing_kernel_fails() {
    let r = DeviceManager::new(0)
        .unwrap()
        .with_image("add.xclbin".to_string(), add_kernel_image())
        .with_xclbin("add.xclbin")
        .unwrap()
        .with_kernel("sub");
    assert!(matches!(r, Err(Error::NoSuchKernelError)));
}

#[test]
fn kernel_before_image_fails() {
    let r = DeviceManager::new(0).unwrap().with_kernel("add");
    assert!(matches!(r, Err(Error::KernelCreationError)));
}

#[test]
fn image_path_not_installed_fails() {
    let r = DeviceManager::new(0).unwrap().with_xclbin("absent.xclbin");
    assert!(matches!(r, Err(Error::XclbinFileAllocError)));
}

#[test]
fn missing_metadata_marker_fails() {
    let mut image = add_kernel_image();
    image[7] = 0;
    let r = DeviceManager::new(0)
        .unwrap()
        .with_image("a.xclbin".to_string(), image)
        .with_xclbin("a.xclbin");
    assert!(matches!(r, Err(Error::XclbinNoBuildMetadataSection)));
}

#[test]
fn truncated_images_report_byte_ranges() {
    // Only the magic string: the marker byte at offset 7 is missing.
    let r = DeviceManager::new(0)
        .unwrap()
        .with_image("a.xclbin".to_string(), b"xclbin2".to_vec())
        .with_xclbin("a.xclbin");
    assert!(matches!(r, Err(Error::XclbinByteReadingError(7, 7))));
    // Magic and marker, but no kernel count byte at offset 8.
    let mut image = b"xclbin2".to_vec();
    image.push(0x4D);
    let r = DeviceManager::new(0)
        .unwrap()
        .with_image("b.xclbin".to_string(), image.clone())
        .with_xclbin("b.xclbin");
    assert!(matches!(r, Err(Error::XclbinByteReadingError(8, 8))));
    // A kernel count of one with no kernel record following it.
    image.push(1);
    let r = DeviceManager::new(0)
        .unwrap()
        .with_image("c.xclbin".to_string(), image)
        .with_xclbin("c.xclbin");
    assert!(matches!(r, Err(Error::XclbinByteReadingError(9, 9))));
}

#[test]
fn unrecognized_descriptor_fails() {
    let mut image = add_kernel_image();
    // Corrupt the first argument's kind code.
    image[14] = 7;
    let r = DeviceManager::new(0)
        .unwrap()
        .with_image("a.xclbin".to_string(), image)
        .with_xclbin("a.xclbin");
    match r {
        Err(Error::XclbinJSONParseError(m)) => {
            assert_eq!(m, "unrecognized argument descriptor")
        },
        other => panic!("expected descriptor error, got {:?}", other.is_ok()),
    }
}

#[test]
fn validate_call_against_stored_mapping() {
    let manager = DeviceManager::new(0)
        .unwrap()
        .with_image("add.xclbin".to_string(), add_kernel_image())
        .with_xclbin("add.xclbin")
        .unwrap()
        .with_kernel("add")
        .unwrap();
    let good = vec![
        ArgumentType::Buffer(ScalarType::U32),
        ArgumentType::Buffer(ScalarType::U32),
        ArgumentType::Scalar,
    ];
    assert!(manager.validate_call("add", &good).is_ok());
    let short = vec![ArgumentType::Buffer(ScalarType::U32)];
    assert!(matches!(
        manager.validate_call("add", &short),
        Err(Error::ArgumentNumberMismatchError)
    ));
    let wrong_kind = vec![
        ArgumentType::Scalar,
        ArgumentType::Buffer(ScalarType::U32),
        ArgumentType::Scalar,
    ];
    assert!(matches!(
        manager.validate_call("add", &wrong_kind),
        Err(Error::PassVecToScalarArgumentError)
    ));
    assert!(matches!(
        manager.validate_call("sub", &good),
        Err(Error::NoSuchKernelError)
    ));
}

#[test]
fn reloading_a_kernel_shadows_the_prior_entry() {
    let manager = DeviceManager::new(0)
        .unwrap()
        .with_image("add.xclbin".to_string(), add_kernel_image())
        .with_xclbin("add.xclbin")
        .unwrap()
        .with_kernel("add")
        .unwrap()
        .with_kernel("add")
        .unwrap();
    assert_eq!(manager.kernels.len(), 2);
    assert!(manager.entry("add").is_some());
}

#[test]
fn kernel_without_handle_refuses_group_query() {
    let kernel = XRTKernel {
        handle: None,
        name: "add".to_string(),
        args: Vec::new(),
    };
    assert_eq!(
        kernel.get_memory_group_for_argument(0),
        Err(Error::KernelNotLoadedYetError)
    );
}

#[test]
fn manager_from_existing_device() {
    let device = xrt_core::device::XRTDevice::open(3);
    let manager = DeviceManager::from_device(device);
    assert!(manager.device.handle.is_some());
    assert!(manager.kernels.is_empty());
}

#[test]
fn device_close_is_idempotent() {
    let mut device = xrt_core::device::XRTDevice::open(0);
    device.close();
    assert!(device.handle.is_none());
    device.close();
    assert!(device.handle.is_none());
}

#[test]
fn reinstalling_an_image_shadows_the_prior_content() {
    // A broken image is installed first, then a good one under the same
    // path: loading must see the most recent content.
    let r = DeviceManager::new(0)
        .unwrap()
        .with_image("add.xclbin".to_string(), b"not an image".to_vec())
        .with_image("add.xclbin".to_string(), add_kernel_image())
        .with_xclbin("add.xclbin");
    assert!(r.is_ok());
}

#[test]
fn closed_device_refuses_image_load() {
    let mut manager = DeviceManager::new(0)
        .unwrap()
        .with_image("add.xclbin".to_string(), add_kernel_image());
    manager.device.close();
    let r = manager.with_xclbin("add.xclbin");
    assert!(matches!(r, Err(Error::UnopenedDeviceError)));
}
