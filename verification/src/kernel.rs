use vstd::prelude::*;

use crate::common::ArgumentType;
use crate::device::XRTDevice;
use crate::error::Error;
use crate::xclbin::{spec_find_kernel, KernelArgInfo};

verus! {

/// An element-for-element copy of an argument signature.
fn copy_args(args: &Vec<KernelArgInfo>) -> (r: Vec<KernelArgInfo>)
    ensures
        r@ == args@,
{
    let mut r: Vec<KernelArgInfo> = Vec::new();
    let n = args.len();
    for i in 0..n
        invariant
            n == args@.len(),
            r@ == args@.subrange(0, i as int),
    {
        r.push(args[i]);
        proof {
            assert(args@.subrange(0, i + 1) =~= args@.subrange(0, i as int).push(
                args@[i as int],
            ));
        }
    }
    proof {
        assert(args@.subrange(0, n as int) =~= args@);
    }
    r
}

/// A compiled hardware function discovered by name in the image loaded on a
/// device.  The native handle is optional; each argument position carries
/// the expected argument type and the memory group a buffer bound to that
/// position must be allocated in.
pub struct XRTKernel {
    pub handle: Option<u64>,
    pub name: String,
    pub args: Vec<KernelArgInfo>,
}

impl XRTKernel {
    /// Looks the kernel up by name against the image loaded on the device.
    /// Fails with `UnopenedDeviceError` if the device has no open session,
    /// with `KernelCreationError` if no image is loaded, and with
    /// `NoSuchKernelError` if the loaded image has no kernel of that name.
    pub fn new(name: &str, device: &XRTDevice) -> (r: Result<XRTKernel, Error>)
        ensures
            device.handle is None ==> r == Err::<XRTKernel, Error>(Error::UnopenedDeviceError),
            device.handle is Some && device.xclbin is None ==> r == Err::<XRTKernel, Error>(
                Error::KernelCreationError,
            ),
            device.handle is Some ==> (device.xclbin matches Some(x) ==> match spec_find_kernel(
                x.kernels@,
                name@,
            ) {
                None => r == Err::<XRTKernel, Error>(Error::NoSuchKernelError),
                Some(info) => r matches Ok(k) && k.handle == device.handle && k.name@ == name@
                    && k.args@ == info.args@,
            }),
    {
        let session = match device.handle {
            None => {
                return Err(Error::UnopenedDeviceError);
            },
            Some(s) => s,
        };
        let xclbin = match &device.xclbin {
            None => {
                return Err(Error::KernelCreationError);
            },
            Some(x) => x,
        };
        match xclbin.find_kernel(name) {
            None => Err(Error::NoSuchKernelError),
            Some(info) => Ok(
                XRTKernel {
                    handle: Some(session),
                    name: name.to_owned(),
                    args: copy_args(&info.args),
                },
            ),
        }
    }

    /// The memory group required for the argument position `index`, as the
    /// image's metadata recorded it.  Fails with `KernelNotLoadedYetError`
    /// if the kernel's handle is absent, and with `KernelArgRtrvError` if
    /// the kernel has no such argument position.
    pub fn get_memory_group_for_argument(&self, index: usize) -> (r: Result<i32, Error>)
        ensures
            self.handle is None ==> r == Err::<i32, Error>(Error::KernelNotLoadedYetError),
            self.handle is Some && index >= self.args@.len() ==> r == Err::<i32, Error>(
                Error::KernelArgRtrvError,
            ),
            self.handle is Some && index < self.args@.len() ==> r == Ok::<i32, Error>(
                self.args@[index as int].memory_group,
            ),
    {
        if self.handle.is_none() {
            return Err(Error::KernelNotLoadedYetError);
        }
        if index >= self.args.len() {
            return Err(Error::KernelArgRtrvError);
        }
        Ok(self.args[index].memory_group)
    }

    /// The ordered list of expected argument types for this kernel, one per
    /// call-site position, as fetched from the image's build metadata.
    pub fn argument_mapping(&self) -> (m: Vec<ArgumentType>)
        ensures
            m@ == self.args@.map_values(|a: KernelArgInfo| a.arg_type),
    {
        let mut m: Vec<ArgumentType> = Vec::new();
        let n = self.args.len();
        for i in 0..n
            invariant
                n == self.args@.len(),
                m@ == self.args@.subrange(0, i as int).map_values(|a: KernelArgInfo| a.arg_type),
        {
            m.push(self.args[i].arg_type);
            proof {
                assert(self.args@.subrange(0, i + 1).map_values(|a: KernelArgInfo| a.arg_type)
                    =~= self.args@.subrange(0, i as int).map_values(
                    |a: KernelArgInfo| a.arg_type,
                ).push(self.args@[i as int].arg_type));
            }
        }
        proof {
            assert(self.args@.subrange(0, n as int) =~= self.args@);
        }
        m
    }
}

} // verus!
