use xrt_core::buffer::{SyncDirection, XRTBuffer};
use xrt_core::device::XRTDevice;
use xrt_core::error::Error;

#[test]
fn allocate_on_open_device() {
    let device = XRTDevice::open(0);
    let buffer = XRTBuffer::<u32>::new(&device, 16, 0, 0).unwrap();
    assert!(buffer.handle.is_some());
    assert_eq!(buffer.size, 16);
}

#[test]
fn allocate_on_closed_device_fails() {
    let mut device = XRTDevice::open(0);
    device.close();
    let r = XRTBuffer::<u32>::new(&device, 16, 0, 0);
    assert!(matches!(r, Err(Error::UnopenedDeviceError)));
}

#[test]
fn allocate_zero_elements_fails() {
    let device = XRTDevice::open(0);
    let r = XRTBuffer::<u32>::new(&device, 0, 0, 0);
    assert!(matches!(r, Err(Error::BOCreationError)));
}

#[test]
fn read_on_never_allocated_buffer() {
    let buffer = XRTBuffer::<u32> {
        handle: None,
        size: 0,
        host_mem: Vec::new(),
        device_mem: Vec::new(),
    };
    let mut out: Vec<u32> = vec![0; 4];
    let r = buffer.read(&mut out, 0);
    assert!(matches!(r, Err(Error::BONotCreatedYet)));
    assert_eq!(out, vec![0; 4]);
}

#[test]
fn guarded_operations_after_free() {
    let device = XRTDevice::open(0);
    let mut buffer = XRTBuffer::<u32>::new(&device, 8, 0, 0).unwrap();
    buffer.free();
    assert!(matches!(
        buffer.sync(SyncDirection::HostToDevice, None, 0),
        Err(Error::BONotCreatedYet)
    ));
    assert!(matches!(buffer.write(&[1, 2], 0), Err(Error::BONotCreatedYet)));
    let mut out: Vec<u32> = vec![0; 2];
    assert!(matches!(buffer.read(&mut out, 0), Err(Error::BONotCreatedYet)));
}

#[test]
fn free_is_idempotent() {
    let device = XRTDevice::open(0);
    let mut buffer = XRTBuffer::<u32>::new(&device, 8, 0, 0).unwrap();
    buffer.free();
    assert!(buffer.handle.is_none());
    let size_before = buffer.size;
    let host_before = buffer.host_mem.clone();
    buffer.free();
    assert!(buffer.handle.is_none());
    assert_eq!(buffer.size, size_before);
    assert_eq!(buffer.host_mem, host_before);
}

#[test]
fn write_sync_read_round_trip() {
    let device = XRTDevice::open(0);
    let mut buffer = XRTBuffer::<u32>::new(&device, 16, 0, 0).unwrap();
    let data: Vec<u32> = vec![11, 22, 33, 44];
    buffer.write(&data, 0).unwrap();
    buffer.sync(SyncDirection::HostToDevice, None, 0).unwrap();
    buffer.sync(SyncDirection::DeviceToHost, None, 0).unwrap();
    let mut out: Vec<u32> = vec![0; 4];
    buffer.read(&mut out, 0).unwrap();
    assert_eq!(out, data);
}

#[test]
fn read_reflects_only_synced_contents() {
    let device = XRTDevice::open(0);
    let mut buffer = XRTBuffer::<u32>::new(&device, 4, 0, 0).unwrap();
    buffer.write(&[1, 2, 3, 4], 0).unwrap();
    buffer.sync(SyncDirection::HostToDevice, None, 0).unwrap();
    // Stage new host contents without syncing them to the device.
    buffer.write(&[9, 9, 9, 9], 0).unwrap();
    buffer.sync(SyncDirection::DeviceToHost, None, 0).unwrap();
    let mut out: Vec<u32> = vec![0; 4];
    buffer.read(&mut out, 0).unwrap();
    assert_eq!(out, vec![1, 2, 3, 4]);
}

#[test]
fn sync_with_explicit_count_uses_element_byte_size() {
    let device = XRTDevice::open(0);
    let mut buffer = XRTBuffer::<u64>::new(&device, 8, 0, 0).unwrap();
    // 4 elements of 8 bytes at byte offset 32: 32 + 32 = 64 bytes, exactly
    // the allocated extent.
    assert!(buffer.sync(SyncDirection::HostToDevice, Some(4), 32).is_ok());
    // 5 elements would need 40 + 32 = 72 bytes: past the extent.
    assert!(matches!(
        buffer.sync(SyncDirection::HostToDevice, Some(5), 32),
        Err(Error::BOSyncError)
    ));
    // An omitted count covers the full allocated extent, so any non-zero
    // offset overruns it.
    assert!(buffer.sync(SyncDirection::HostToDevice, None, 0).is_ok());
    assert!(matches!(
        buffer.sync(SyncDirection::HostToDevice, None, 8),
        Err(Error::BOSyncError)
    ));
}

#[test]
fn sync_rejects_misaligned_offset() {
    let device = XRTDevice::open(0);
    let mut buffer = XRTBuffer::<u32>::new(&device, 4, 0, 0).unwrap();
    assert!(matches!(
        buffer.sync(SyncDirection::HostToDevice, Some(1), 2),
        Err(Error::BOSyncError)
    ));
}

#[test]
fn write_at_byte_offset() {
    let device = XRTDevice::open(0);
    let mut buffer = XRTBuffer::<u32>::new(&device, 4, 0, 0).unwrap();
    buffer.write(&[7, 8], 8).unwrap();
    buffer.sync(SyncDirection::HostToDevice, None, 0).unwrap();
    buffer.sync(SyncDirection::DeviceToHost, None, 0).unwrap();
    let mut out: Vec<u32> = vec![0; 4];
    buffer.read(&mut out, 0).unwrap();
    assert_eq!(out, vec![0, 0, 7, 8]);
}

#[test]
fn write_past_extent_fails() {
    let device = XRTDevice::open(0);
    let mut buffer = XRTBuffer::<u32>::new(&device, 4, 0, 0).unwrap();
    assert!(matches!(buffer.write(&[1, 2, 3], 8), Err(Error::BOWriteError)));
}

#[test]
fn read_past_extent_fails() {
    let device = XRTDevice::open(0);
    let buffer = XRTBuffer::<u32>::new(&device, 4, 0, 0).unwrap();
    let mut out: Vec<u32> = vec![0; 3];
    assert!(matches!(buffer.read(&mut out, 8), Err(Error::BOReadError)));
}

#[test]
fn signed_and_wide_element_types() {
    let device = XRTDevice::open(0);
    let mut buffer = XRTBuffer::<i64>::new(&device, 2, 0, 0).unwrap();
    buffer.write(&[-5, 7], 0).unwrap();
    buffer.sync(SyncDirection::HostToDevice, None, 0).unwrap();
    buffer.sync(SyncDirection::DeviceToHost, None, 0).unwrap();
    let mut out: Vec<i64> = vec![0; 2];
    buffer.read(&mut out, 0).unwrap();
    assert_eq!(out, vec![-5, 7]);
}

#[test]
fn sync_direction_driver_codes() {
    assert_eq!(SyncDirection::HostToDevice.driver_code(), 0);
    assert_eq!(SyncDirection::DeviceToHost.driver_code(), 1);
}
