//! Logical devices of the engine.
//!
//! A device is created by the engine and must be committed before it is
//! used. A [`DeviceSetup`] names the calls that this takes, one after the
//! other, and hands out the [`OidnDevice`] when they are made.

use crate::error::Error;
use crate::sys::OIDNDeviceType;
use vstd::prelude::*;

verus! {

/// Kind of device to create.
#[derive(Clone, Copy, Debug, PartialEq, Eq, Structural)]
pub enum OidnDeviceType {
    /// The best available.
    Default,
    /// The CPU.
    Cpu,
    /// An Intel GPU or CPU through SYCL.
    Sycl,
    /// An NVIDIA GPU through CUDA.
    Cuda,
    /// An AMD GPU through HIP.
    Hip,
    /// An Apple GPU through Metal.
    Metal,
}

impl OidnDeviceType {
    /// The engine's own value for this device type.
    pub open spec fn spec_to_raw(self) -> OIDNDeviceType {
        match self {
            OidnDeviceType::Default => OIDNDeviceType::Default,
            OidnDeviceType::Cpu => OIDNDeviceType::CPU,
            OidnDeviceType::Sycl => OIDNDeviceType::SYCL,
            OidnDeviceType::Cuda => OIDNDeviceType::CUDA,
            OidnDeviceType::Hip => OIDNDeviceType::HIP,
            OidnDeviceType::Metal => OIDNDeviceType::Metal,
        }
    }

    /// The engine's own value for this device type.
    pub fn to_raw(self) -> (r: OIDNDeviceType)
        ensures
            r == self.spec_to_raw(),
    {
        match self {
            OidnDeviceType::Default => OIDNDeviceType::Default,
            OidnDeviceType::Cpu => OIDNDeviceType::CPU,
            OidnDeviceType::Sycl => OIDNDeviceType::SYCL,
            OidnDeviceType::Cuda => OIDNDeviceType::CUDA,
            OidnDeviceType::Hip => OIDNDeviceType::HIP,
            OidnDeviceType::Metal => OIDNDeviceType::Metal,
        }
    }
}

impl Default for OidnDeviceType {
    fn default() -> (r: OidnDeviceType)
        ensures
            r == OidnDeviceType::Default,
    {
        OidnDeviceType::Default
    }
}

/// A call that creates or commits a device.
#[derive(Clone, Copy, Debug)]
pub enum DeviceCall {
    /// Create a device of this type. The answer is its handle, or zero.
    NewDevice { device_type: OIDNDeviceType },
    /// Create a device on the physical device with this number. The answer
    /// is its handle, or zero.
    NewDeviceById { physical_device_id: i32 },
    /// Create a device on the physical device with this UUID. The answer is
    /// its handle, or zero.
    NewDeviceByUuid { uuid: [u8; 16] },
    /// Create a device on the physical device with this LUID. The answer is
    /// its handle, or zero.
    NewDeviceByLuid { luid: [u8; 8] },
    /// Create a device on the physical device at this PCI address. The answer
    /// is its handle, or zero.
    NewDeviceByPciAddress { pci_domain: i32, pci_bus: i32, pci_device: i32, pci_function: i32 },
    /// Commit the parameters of the device with this handle.
    Commit { device: usize },
}

/// The error that the engine has pending for the calling thread, outside any
/// device, from its code and message as the engine gives them: none for the
/// code zero, else the error with that code and message, with an empty
/// message where the engine gave none.
pub fn take_global_error(code: u32, message: Option<String>) -> (r: Option<Error>)
    ensures
        code == 0 ==> r.is_none(),
        code != 0 ==> (r matches Some(Error::OidnError { code: c, message: m }) && c == code && m@
            == (match message {
            Some(text) => text@,
            None => Seq::empty(),
        })),
{
    Error::pending(code, message)
}

/// The creation of a device, under way.
#[derive(Debug)]
pub struct DeviceSetup {
    /// The handle of the device once it is created and while its commit is
    /// under way.
    created: Option<usize>,
}

/// What the caller of a device setup does next.
#[derive(Debug)]
pub enum DeviceStep {
    /// Make this call, and tell the setup what the engine answered.
    Continue(DeviceSetup, DeviceCall),
    /// Nothing: the device is ready.
    Ready(OidnDevice),
    /// Nothing: the device could not be created.
    Failed(Error),
}

impl DeviceSetup {
    /// The handle of the device, once it is created.
    pub closed spec fn created(self) -> Option<usize> {
        self.created
    }

    #[verifier::type_invariant]
    spec fn well_formed(self) -> bool {
        self.created matches Some(device) ==> device != 0
    }

    /// A setup that has its first call under way.
    fn fresh() -> (r: DeviceSetup)
        ensures
            r.created().is_none(),
    {
        DeviceSetup { created: None }
    }

    /// Takes the engine's answer to the call under way and says what to do
    /// next. The answer to a call that creates a device is the device's
    /// handle: zero means failure, any other handle is committed next. After
    /// the commit the device is ready.
    pub fn step(self, handle: usize) -> (r: DeviceStep)
        ensures
            match self.created() {
                None => if handle == 0 {
                    r == DeviceStep::Failed(Error::DeviceCreationFailed)
                } else {
                    &&& r matches DeviceStep::Continue(next, call)
                    &&& next.created() == Some(handle)
                    &&& call == (DeviceCall::Commit { device: handle })
                },
                Some(device) => r matches DeviceStep::Ready(ready) && ready.spec_raw() == device,
            },
    {
        proof {
            use_type_invariant(&self);
        }
        match self.created {
            None => if handle == 0 {
                DeviceStep::Failed(Error::DeviceCreationFailed)
            } else {
                DeviceStep::Continue(
                    DeviceSetup { created: Some(handle) },
                    DeviceCall::Commit { device: handle },
                )
            },
            Some(device) => DeviceStep::Ready(OidnDevice { raw: device }),
        }
    }
}

/// A logical device of the engine, created and committed.
#[derive(Debug)]
pub struct OidnDevice {
    raw: usize,
}

impl OidnDevice {
    /// The engine's handle of the device.
    pub closed spec fn spec_raw(self) -> usize {
        self.raw
    }

    /// Starts the creation of a device of the best available type.
    pub fn new() -> (r: (DeviceSetup, DeviceCall))
        ensures
            r.0.created().is_none(),
            r.1 == (DeviceCall::NewDevice { device_type: OIDNDeviceType::Default }),
    {
        OidnDevice::with_type(OidnDeviceType::Default)
    }

    /// Starts the creation of a device on the CPU.
    pub fn cpu() -> (r: (DeviceSetup, DeviceCall))
        ensures
            r.0.created().is_none(),
            r.1 == (DeviceCall::NewDevice { device_type: OIDNDeviceType::CPU }),
    {
        OidnDevice::with_type(OidnDeviceType::Cpu)
    }

    /// Starts the creation of a device on an NVIDIA GPU.
    pub fn cuda() -> (r: (DeviceSetup, DeviceCall))
        ensures
            r.0.created().is_none(),
            r.1 == (DeviceCall::NewDevice { device_type: OIDNDeviceType::CUDA }),
    {
        OidnDevice::with_type(OidnDeviceType::Cuda)
    }

    /// Starts the creation of a device through SYCL.
    pub fn sycl() -> (r: (DeviceSetup, DeviceCall))
        ensures
            r.0.created().is_none(),
            r.1 == (DeviceCall::NewDevice { device_type: OIDNDeviceType::SYCL }),
    {
        OidnDevice::with_type(OidnDeviceType::Sycl)
    }

    /// Starts the creation of a device on an AMD GPU.
    pub fn hip() -> (r: (DeviceSetup, DeviceCall))
        ensures
            r.0.created().is_none(),
            r.1 == (DeviceCall::NewDevice { device_type: OIDNDeviceType::HIP }),
    {
        OidnDevice::with_type(OidnDeviceType::Hip)
    }

    /// Starts the creation of a device on an Apple GPU.
    pub fn metal() -> (r: (DeviceSetup, DeviceCall))
        ensures
            r.0.created().is_none(),
            r.1 == (DeviceCall::NewDevice { device_type: OIDNDeviceType::Metal }),
    {
        OidnDevice::with_type(OidnDeviceType::Metal)
    }

    /// Starts the creation of a device of the given type.
    pub fn with_type(device_type: OidnDeviceType) -> (r: (DeviceSetup, DeviceCall))
        ensures
            r.0.created().is_none(),
            r.1 == (DeviceCall::NewDevice { device_type: device_type.spec_to_raw() }),
    {
        (DeviceSetup::fresh(), DeviceCall::NewDevice { device_type: device_type.to_raw() })
    }

    /// Starts the creation of a device on the physical device with this
    /// number.
    pub fn new_by_id(physical_device_id: i32) -> (r: (DeviceSetup, DeviceCall))
        ensures
            r.0.created().is_none(),
            r.1 == (DeviceCall::NewDeviceById { physical_device_id }),
    {
        (DeviceSetup::fresh(), DeviceCall::NewDeviceById { physical_device_id })
    }

    /// Starts the creation of a device on the physical device with this
    /// UUID.
    pub fn new_by_uuid(uuid: &[u8; 16]) -> (r: (DeviceSetup, DeviceCall))
        ensures
            r.0.created().is_none(),
            r.1 == (DeviceCall::NewDeviceByUuid { uuid: *uuid }),
    {
        (DeviceSetup::fresh(), DeviceCall::NewDeviceByUuid { uuid: *uuid })
    }

    /// Starts the creation of a device on the physical device with this
    /// LUID.
    pub fn new_by_luid(luid: &[u8; 8]) -> (r: (DeviceSetup, DeviceCall))
        ensures
            r.0.created().is_none(),
            r.1 == (DeviceCall::NewDeviceByLuid { luid: *luid }),
    {
        (DeviceSetup::fresh(), DeviceCall::NewDeviceByLuid { luid: *luid })
    }

    /// Starts the creation of a device on the physical device at this PCI
    /// address.
    pub fn new_by_pci_address(
        pci_domain: i32,
        pci_bus: i32,
        pci_device: i32,
        pci_function: i32,
    ) -> (r: (DeviceSetup, DeviceCall))
        ensures
            r.0.created().is_none(),
            r.1 == (DeviceCall::NewDeviceByPciAddress {
                pci_domain,
                pci_bus,
                pci_device,
                pci_function,
            }),
    {
        (
            DeviceSetup::fresh(),
            DeviceCall::NewDeviceByPciAddress { pci_domain, pci_bus, pci_device, pci_function },
        )
    }

    /// The unsigned reading of a device parameter that the engine gives as a
    /// signed integer: the same 32 bits.
    pub fn get_uint(value: i32) -> (r: u32)
        ensures
            r == if value >= 0 {
                value as int
            } else {
                value + 0x1_0000_0000
            },
    {
        if value >= 0 {
            value as u32
        } else {
            let below: u32 = (value + 1 + i32::MAX) as u32;
            below + 0x8000_0000u32
        }
    }

    /// The error that the engine has pending for this device, from its code
    /// and message as the engine gives them: none for the code zero, else the
    /// error with that code and message, with an empty message where the
    /// engine gave none.
    pub fn take_error(&self, code: u32, message: Option<String>) -> (r: Option<Error>)
        ensures
            code == 0 ==> r.is_none(),
            code != 0 ==> (r matches Some(Error::OidnError { code: c, message: m }) && c == code
                && m@ == (match message {
                Some(text) => text@,
                None => Seq::empty(),
            })),
    {
        Error::pending(code, message)
    }

    /// The engine's handle of the device, which is not zero.
    pub fn raw(&self) -> (r: usize)
        ensures
            r == self.spec_raw(),
            r != 0,
    {
        proof {
            use_type_invariant(self);
        }
        self.raw
    }

    #[verifier::type_invariant]
    spec fn well_formed(self) -> bool {
        self.raw != 0
    }
}

} // verus!
