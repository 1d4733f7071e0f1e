use vstd::prelude::*;

use crate::common::{arguments_match, validate_arguments, ArgumentMapping, ArgumentType};
use crate::device::{spec_find_image, XRTDevice};
use crate::error::Error;
use crate::kernel::XRTKernel;
use crate::xclbin::{spec_find_kernel, KernelArgInfo};

verus! {

/// One kernel a manager has loaded: the lookup name, the kernel itself, and
/// the argument mapping fetched for it from the image's build metadata.
pub struct LoadedKernel {
    pub name: String,
    pub kernel: XRTKernel,
    pub argument_mapping: ArgumentMapping,
}

/// The most recently loaded kernel entry under `name`, if any: a later load
/// under the same name shadows an earlier one, so the last write wins.
pub open spec fn spec_lookup(entries: Seq<LoadedKernel>, name: Seq<char>) -> Option<LoadedKernel>
    decreases entries.len(),
{
    if entries.len() == 0 {
        None
    } else if entries.last().name@ == name {
        Some(entries.last())
    } else {
        spec_lookup(entries.drop_last(), name)
    }
}

/// Orchestrates one device, its loaded kernels, and their argument
/// mappings, built through a staged sequence: open the device, load an
/// image, then load kernels by name.  Every stage consumes the manager and
/// returns it only on success, so a failed stage discards the partial state
/// rather than leaving an inconsistent manager behind.
pub struct DeviceManager {
    pub device: XRTDevice,
    pub kernels: Vec<LoadedKernel>,
}

impl DeviceManager {
    /// Wraps an already-opened device in a manager with no kernels loaded
    /// yet.
    pub fn from_device(device: XRTDevice) -> (m: DeviceManager)
        ensures
            m.device == device,
            m.kernels@.len() == 0,
    {
        DeviceManager { device, kernels: Vec::new() }
    }

    /// Opens a session on the card with the given physical index and wraps
    /// it in a manager with no kernels loaded yet.
    pub fn new(index: u32) -> (r: Result<DeviceManager, Error>)
        ensures
            r matches Ok(m) && m.device.handle == Some(index as u64) && m.device.images@.len() == 0
                && m.device.xclbin is None && m.kernels@.len() == 0,
    {
        Ok(DeviceManager { device: XRTDevice::open(index), kernels: Vec::new() })
    }

    /// Makes an image loadable by path on the manager's device, for
    /// `with_xclbin` to find.  Installing a second image under the same
    /// path shadows the earlier one.
    pub fn with_image(self, path: String, content: Vec<u8>) -> (r: DeviceManager)
        ensures
            r.device.handle == self.device.handle,
            r.device.xclbin == self.device.xclbin,
            r.kernels@ == self.kernels@,
            spec_find_image(r.device.images@, path@) == Some(content@),
            forall|other: Seq<char>|
                other != path@ ==> spec_find_image(r.device.images@, other) == spec_find_image(
                    self.device.images@,
                    other,
                ),
    {
        let mut m = self;
        m.device.install_image(path, content);
        m
    }

    /// Loads the image installed under `xclbin_path` into the already-open
    /// device and returns the manager; on any failure the manager is
    /// dropped and only the error remains.  Fails with
    /// `UnopenedDeviceError` for a closed session, `XclbinFileAllocError`
    /// for a path with no installed image, and otherwise surfaces the image
    /// reader's verdict.
    pub fn with_xclbin(self, xclbin_path: &str) -> (r: Result<DeviceManager, Error>)
        ensures
            self.device.handle is None ==> r == Err::<DeviceManager, Error>(
                Error::UnopenedDeviceError,
            ),
            self.device.handle is Some && spec_find_image(self.device.images@, xclbin_path@)
                is None ==> r == Err::<DeviceManager, Error>(Error::XclbinFileAllocError),
            self.device.handle is Some ==> (spec_find_image(self.device.images@, xclbin_path@)
                matches Some(content) ==> match r {
                Ok(m) => {
                    &&& m.device.handle == self.device.handle
                    &&& m.device.images@ == self.device.images@
                    &&& m.kernels@ == self.kernels@
                    &&& m.device.xclbin matches Some(x) && crate::xclbin::parse_result_matches(
                        content,
                        Ok(x),
                    )
                },
                Err(e) => crate::xclbin::parse_result_matches(content, Err(e)),
            }),
    {
        let mut m = self;
        match m.device.load_xclbin(xclbin_path) {
            Ok(_) => Ok(m),
            Err(e) => Err(e),
        }
    }

    /// Looks up `kernel_name` in the loaded image, fetches its argument
    /// mapping from the image's build metadata, and stores both under that
    /// name; on any failure the manager is dropped and only the error
    /// remains.  Loading further names accumulates entries; loading the
    /// same name again shadows the prior entry, so the last write wins.
    /// Fails with `UnopenedDeviceError` for a closed session, with
    /// `KernelCreationError` when no image is loaded, and with
    /// `NoSuchKernelError` when the image has no kernel of that name.
    pub fn with_kernel(self, kernel_name: &str) -> (r: Result<DeviceManager, Error>)
        ensures
            self.device.handle is None ==> r == Err::<DeviceManager, Error>(
                Error::UnopenedDeviceError,
            ),
            self.device.handle is Some && self.device.xclbin is None ==> r == Err::<
                DeviceManager,
                Error,
            >(Error::KernelCreationError),
            self.device.handle is Some ==> (self.device.xclbin matches Some(x) ==> match
                spec_find_kernel(x.kernels@, kernel_name@) {
                None => r == Err::<DeviceManager, Error>(Error::NoSuchKernelError),
                Some(info) => r matches Ok(m) && {
                    &&& m.device == self.device
                    &&& m.kernels@.len() == self.kernels@.len() + 1
                    &&& m.kernels@.drop_last() == self.kernels@
                    &&& spec_lookup(m.kernels@, kernel_name@) matches Some(entry) && {
                        &&& entry.name@ == kernel_name@
                        &&& entry.kernel.handle == self.device.handle
                        &&& entry.kernel.args@ == info.args@
                        &&& entry.argument_mapping@ == info.args@.map_values(
                            |a: KernelArgInfo| a.arg_type,
                        )
                    }
                    &&& forall|other: Seq<char>|
                        other != kernel_name@ ==> spec_lookup(m.kernels@, other) == spec_lookup(
                            self.kernels@,
                            other,
                        )
                },
            }),
    {
        let kernel = match XRTKernel::new(kernel_name, &self.device) {
            Ok(k) => k,
            Err(e) => {
                return Err(e);
            },
        };
        let mapping = kernel.argument_mapping();
        let entry = LoadedKernel {
            name: kernel_name.to_owned(),
            kernel,
            argument_mapping: mapping,
        };
        let mut m = self;
        let ghost orig = m.kernels@;
        m.kernels.push(entry);
        proof {
            assert(m.kernels@.drop_last() =~= orig);
        }
        Ok(m)
    }

    /// The most recently loaded kernel entry under `name`, if any.
    pub fn entry(&self, name: &str) -> (r: Option<&LoadedKernel>)
        ensures
            match r {
                Some(entry) => spec_lookup(self.kernels@, name@) == Some(*entry),
                None => spec_lookup(self.kernels@, name@) is None,
            },
    {
        let wanted: String = name.to_owned();
        let mut i: usize = self.kernels.len();
        proof {
            assert(self.kernels@.subrange(0, self.kernels@.len() as int) =~= self.kernels@);
        }
        while i > 0
            invariant
                i <= self.kernels@.len(),
                wanted@ == name@,
                spec_lookup(self.kernels@.subrange(0, i as int), name@) == spec_lookup(
                    self.kernels@,
                    name@,
                ),
            decreases i,
        {
            i = i - 1;
            proof {
                assert(self.kernels@.subrange(0, i + 1).drop_last() =~= self.kernels@.subrange(
                    0,
                    i as int,
                ));
            }
            if self.kernels[i].name == wanted {
                return Some(&self.kernels[i]);
            }
        }
        proof {
            assert(self.kernels@.subrange(0, 0) =~= Seq::<LoadedKernel>::empty());
        }
        None
    }

    /// Type-checks a call's supplied argument shapes against the stored
    /// mapping of the named kernel: the validation performed before an
    /// invocation is created.  Fails with `NoSuchKernelError` for a name no
    /// kernel was loaded under; otherwise the length is checked first
    /// (`ArgumentNumberMismatchError`), then each position
    /// (`PassVecToScalarArgumentError`).
    pub fn validate_call(&self, kernel_name: &str, supplied: &Vec<ArgumentType>) -> (r: Result<
        (),
        Error,
    >)
        ensures
            spec_lookup(self.kernels@, kernel_name@) is None ==> r == Err::<(), Error>(
                Error::NoSuchKernelError,
            ),
            spec_lookup(self.kernels@, kernel_name@) matches Some(entry) ==> {
                &&& r is Ok <==> arguments_match(supplied@, entry.argument_mapping@)
                &&& (r == Err::<(), Error>(Error::ArgumentNumberMismatchError) <==> supplied@.len()
                    != entry.argument_mapping@.len())
                &&& (r == Err::<(), Error>(Error::PassVecToScalarArgumentError) <==> (
                supplied@.len() == entry.argument_mapping@.len() && exists|i: int|
                    0 <= i < supplied@.len() && supplied@[i] != entry.argument_mapping@[i]))
            },
    {
        match self.entry(kernel_name) {
            None => Err(Error::NoSuchKernelError),
            Some(entry) => validate_arguments(supplied, &entry.argument_mapping),
        }
    }
}

} // verus!
