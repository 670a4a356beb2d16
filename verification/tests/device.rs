use oidn_wgpu::buffer::BufferStorage;
use oidn_wgpu::buffer::ExternalMemoryTypeFlag;
use oidn_wgpu::buffer::OidnBuffer;
use oidn_wgpu::device::take_global_error;
use oidn_wgpu::device::DeviceCall;
use oidn_wgpu::device::DeviceStep;
use oidn_wgpu::device::OidnDevice;
use oidn_wgpu::device::OidnDeviceType;
use oidn_wgpu::engine::EngineFault;
use oidn_wgpu::engine::EngineReply;
use oidn_wgpu::error::Error;
use oidn_wgpu::filter::check_engine_name;
use oidn_wgpu::filter::Filter;
use oidn_wgpu::filter::Quality;
use oidn_wgpu::sys::OIDNDeviceType;
use oidn_wgpu::sys::OIDNError;
use oidn_wgpu::sys::OIDNExternalMemoryTypeFlag;
use oidn_wgpu::sys::OIDNFormat;
use oidn_wgpu::sys::OIDNQuality;
use oidn_wgpu::sys::OIDNStorage;
use oidn_wgpu::OIDN_LUID_SIZE;
use oidn_wgpu::OIDN_UUID_SIZE;

fn ready(setup: oidn_wgpu::device::DeviceSetup, handle: usize) -> OidnDevice {
    let setup = match setup.step(handle) {
        DeviceStep::Continue(setup, DeviceCall::Commit { device }) => {
            assert_eq!(device, handle);
            setup
        }
        other => panic!("unexpected {:?}", other),
    };
    match setup.step(0) {
        DeviceStep::Ready(device) => device,
        other => panic!("unexpected {:?}", other),
    }
}

#[test]
fn device_is_created_then_committed() {
    let (setup, call) = OidnDevice::new();
    assert!(matches!(call, DeviceCall::NewDevice { device_type: OIDNDeviceType::Default }));
    let device = ready(setup, 0x1000);
    assert_eq!(device.raw(), 0x1000);
}

#[test]
fn device_creation_fails_without_a_handle() {
    let (setup, _) = OidnDevice::cpu();
    assert!(matches!(setup.step(0), DeviceStep::Failed(Error::DeviceCreationFailed)));
}

#[test]
fn each_constructor_asks_for_its_device_type() {
    assert!(matches!(OidnDevice::cpu().1, DeviceCall::NewDevice { device_type: OIDNDeviceType::CPU }));
    assert!(matches!(OidnDevice::cuda().1, DeviceCall::NewDevice { device_type: OIDNDeviceType::CUDA }));
    assert!(matches!(OidnDevice::sycl().1, DeviceCall::NewDevice { device_type: OIDNDeviceType::SYCL }));
    assert!(matches!(OidnDevice::hip().1, DeviceCall::NewDevice { device_type: OIDNDeviceType::HIP }));
    assert!(matches!(OidnDevice::metal().1, DeviceCall::NewDevice { device_type: OIDNDeviceType::Metal }));
    assert!(matches!(
        OidnDevice::with_type(OidnDeviceType::Hip).1,
        DeviceCall::NewDevice { device_type: OIDNDeviceType::HIP }
    ));
    assert!(matches!(OidnDevice::new_by_id(3).1, DeviceCall::NewDeviceById { physical_device_id: 3 }));
    let uuid = [7u8; OIDN_UUID_SIZE];
    assert!(matches!(OidnDevice::new_by_uuid(&uuid).1, DeviceCall::NewDeviceByUuid { uuid: u } if u == uuid));
    let luid = [9u8; OIDN_LUID_SIZE];
    assert!(matches!(OidnDevice::new_by_luid(&luid).1, DeviceCall::NewDeviceByLuid { luid: l } if l == luid));
    assert!(matches!(
        OidnDevice::new_by_pci_address(1, 2, 3, 4).1,
        DeviceCall::NewDeviceByPciAddress { pci_domain: 1, pci_bus: 2, pci_device: 3, pci_function: 4 }
    ));
}

#[test]
fn unsigned_parameter_has_the_bits_of_the_signed_one() {
    assert_eq!(OidnDevice::get_uint(0), 0);
    assert_eq!(OidnDevice::get_uint(20400), 20400);
    assert_eq!(OidnDevice::get_uint(i32::MAX), 0x7fff_ffff);
    assert_eq!(OidnDevice::get_uint(-1), u32::MAX);
    assert_eq!(OidnDevice::get_uint(i32::MIN), 0x8000_0000);
    assert_eq!(OidnDevice::get_uint(-2), (-2i32) as u32);
}

#[test]
fn pending_error_has_the_engines_code_and_message() {
    let (setup, _) = OidnDevice::new();
    let device = ready(setup, 5);
    assert!(device.take_error(0, None).is_none());
    assert!(device.take_error(0, Some(String::from("ignored"))).is_none());
    match device.take_error(2, Some(String::from("invalid argument"))) {
        Some(Error::OidnError { code, message }) => {
            assert_eq!(code, 2);
            assert_eq!(message, "invalid argument");
        }
        other => panic!("unexpected {:?}", other),
    }
    match take_global_error(5, None) {
        Some(Error::OidnError { code, message }) => {
            assert_eq!(code, 5);
            assert_eq!(message, "");
        }
        other => panic!("unexpected {:?}", other),
    }
    assert!(take_global_error(0, None).is_none());
}

#[test]
fn codes_are_the_engines_own() {
    assert_eq!(OIDNDeviceType::Default.code(), 0);
    assert_eq!(OIDNDeviceType::CPU.code(), 1);
    assert_eq!(OIDNDeviceType::SYCL.code(), 2);
    assert_eq!(OIDNDeviceType::CUDA.code(), 3);
    assert_eq!(OIDNDeviceType::HIP.code(), 4);
    assert_eq!(OIDNDeviceType::Metal.code(), 5);
    assert_eq!(OIDNError::NoError.code(), 0);
    assert_eq!(OIDNError::Unknown.code(), 1);
    assert_eq!(OIDNError::InvalidArgument.code(), 2);
    assert_eq!(OIDNError::InvalidOperation.code(), 3);
    assert_eq!(OIDNError::OutOfMemory.code(), 4);
    assert_eq!(OIDNError::UnsupportedHardware.code(), 5);
    assert_eq!(OIDNError::Cancelled.code(), 6);
    assert_eq!(OIDNFormat::Undefined.code(), 0);
    assert_eq!(OIDNFormat::Float.code(), 1);
    assert_eq!(OIDNFormat::Float3.code(), 3);
    assert_eq!(OIDNFormat::Float4.code(), 4);
    assert_eq!(OIDNFormat::Half.code(), 257);
    assert_eq!(OIDNFormat::Half4.code(), 260);
    assert_eq!(OIDNStorage::Undefined.code(), 0);
    assert_eq!(OIDNStorage::Managed.code(), 3);
    assert_eq!(OIDNExternalMemoryTypeFlag::NoType.code(), 0);
    assert_eq!(OIDNExternalMemoryTypeFlag::OpaqueFD.code(), 1);
    assert_eq!(OIDNExternalMemoryTypeFlag::D3D11Texture.code(), 1 << 4);
    assert_eq!(OIDNExternalMemoryTypeFlag::D3D12Resource.code(), 1 << 9);
    assert_eq!(OIDNQuality::Default.code(), 0);
    assert_eq!(OIDNQuality::Fast.code(), 4);
    assert_eq!(OIDNQuality::Balanced.code(), 5);
    assert_eq!(OIDNQuality::High.code(), 6);
}

#[test]
fn enumerations_convert_to_the_engines_own() {
    assert_eq!(Quality::Default.to_raw(), OIDNQuality::Default);
    assert_eq!(Quality::Fast.to_raw(), OIDNQuality::Fast);
    assert_eq!(Quality::Balanced.to_raw(), OIDNQuality::Balanced);
    assert_eq!(Quality::High.to_raw(), OIDNQuality::High);
    assert_eq!(Quality::default(), Quality::Default);
    assert_eq!(OidnDeviceType::default(), OidnDeviceType::Default);
    assert_eq!(OidnDeviceType::Cpu.to_raw(), OIDNDeviceType::CPU);
    assert_eq!(OidnDeviceType::Sycl.to_raw(), OIDNDeviceType::SYCL);
    assert_eq!(OidnDeviceType::Cuda.to_raw(), OIDNDeviceType::CUDA);
    assert_eq!(OidnDeviceType::Metal.to_raw(), OIDNDeviceType::Metal);
    for (storage, raw) in [
        (BufferStorage::Undefined, OIDNStorage::Undefined),
        (BufferStorage::Host, OIDNStorage::Host),
        (BufferStorage::Device, OIDNStorage::Device),
        (BufferStorage::Managed, OIDNStorage::Managed),
    ] {
        assert_eq!(OIDNStorage::from(storage), raw);
        assert_eq!(BufferStorage::from(raw), storage);
    }
    assert_eq!(OIDNExternalMemoryTypeFlag::from(ExternalMemoryTypeFlag::NoType), OIDNExternalMemoryTypeFlag::NoType);
    assert_eq!(OIDNExternalMemoryTypeFlag::from(ExternalMemoryTypeFlag::DmaBuf), OIDNExternalMemoryTypeFlag::DmaBuf);
    assert_eq!(OIDNExternalMemoryTypeFlag::from(ExternalMemoryTypeFlag::D3D12Heap).code(), 256);
}

#[test]
fn buffer_is_what_the_engine_allocated() {
    let buffer = OidnBuffer::new(EngineReply { handle: 77, error: None }).expect("buffer");
    assert_eq!(buffer.raw(), 77);
    assert!(matches!(OidnBuffer::new(EngineReply { handle: 0, error: None }), Err(Error::OutOfMemory)));
    let reply = EngineReply { handle: 0, error: Some(EngineFault { code: 4, message: String::from("full") }) };
    assert!(matches!(OidnBuffer::new(reply), Err(Error::OidnError { code: 4, .. })));
}

#[test]
fn generic_filter_needs_a_name_without_nul() {
    let (setup, _) = OidnDevice::new();
    let device = ready(setup, 5);
    let filter = Filter::new(&device, "RT", EngineReply { handle: 31, error: None }).expect("filter");
    assert_eq!(filter.raw(), 31);
    assert_eq!(filter.device().raw(), 5);
    assert!(matches!(
        Filter::new(&device, "R\0T", EngineReply { handle: 31, error: None }),
        Err(Error::FilterCreationFailed)
    ));
    assert!(matches!(
        Filter::new(&device, "Unknown", EngineReply { handle: 0, error: None }),
        Err(Error::FilterCreationFailed)
    ));
    let reply = EngineReply { handle: 0, error: Some(EngineFault { code: 2, message: String::from("unknown filter") }) };
    assert!(matches!(Filter::new(&device, "Unknown", reply), Err(Error::OidnError { code: 2, .. })));
    assert!(check_engine_name(""));
    assert!(check_engine_name("RTLightmap"));
    assert!(check_engine_name("h\u{e9}llo"));
    assert!(!check_engine_name("\0"));
    assert!(!check_engine_name("abc\0"));
}

#[test]
fn messages_name_the_failure() {
    assert_eq!(Error::DeviceCreationFailed.message(), "OIDN device creation failed");
    assert_eq!(Error::FilterCreationFailed.message(), "OIDN filter creation failed");
    assert_eq!(Error::OutOfMemory.message(), "OIDN out of memory");
    assert_eq!(Error::InvalidDimensions.message(), "invalid image dimensions");
    assert_eq!(Error::UnsupportedFormat.message(), "unsupported texture format for denoising");
    assert_eq!(Error::BufferMapFailed(wgpu::BufferAsyncError).message(), "wgpu buffer map failed: BufferAsyncError");
    assert_eq!(
        Error::OidnError { code: 3, message: String::from("invalid operation") }.message(),
        "OIDN error (3): invalid operation"
    );
    assert_eq!(Error::OidnError { code: 0, message: String::new() }.message(), "OIDN error (0): ");
    assert_eq!(
        Error::OidnError { code: 4_294_967_295, message: String::from("x") }.message(),
        "OIDN error (4294967295): x"
    );
    assert_eq!(Error::OidnError { code: 1070, message: String::from("y") }.message(), "OIDN error (1070): y");
}

#[test]
fn sizes_of_device_identifiers() {
    assert_eq!(OIDN_UUID_SIZE, 16);
    assert_eq!(OIDN_LUID_SIZE, 8);
}
