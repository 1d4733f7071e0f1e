use vstd::prelude::*;

use crate::common::{scalar_size, scalar_size_exec, HardwareDatatype, ScalarType};
use crate::device::XRTDevice;
use crate::error::Error;

verus! {

/// The direction of one host/device transfer.
pub enum SyncDirection {
    HostToDevice,
    DeviceToHost,
}

impl SyncDirection {
    /// The driver's transfer-direction constant for this direction, mapped
    /// one to one: 0 requests a transfer to the device, 1 a transfer from
    /// the device.
    pub fn driver_code(&self) -> (c: u32)
        ensures
            c == (match *self {
                SyncDirection::HostToDevice => 0u32,
                SyncDirection::DeviceToHost => 1u32,
            }),
    {
        match self {
            SyncDirection::HostToDevice => 0,
            SyncDirection::DeviceToHost => 1,
        }
    }
}

/// `dst` with the elements starting at `start` replaced by `src`; every
/// position outside that window keeps its old value.
pub open spec fn overwrite<T>(dst: Seq<T>, start: int, src: Seq<T>) -> Seq<T> {
    Seq::new(
        dst.len(),
        |i: int|
            if start <= i < start + src.len() {
                src[i - start]
            } else {
                dst[i]
            },
    )
}

/// The element count a transfer covers: the explicit count when one is
/// given, else the buffer's full allocated extent.
pub open spec fn effective_count(count: Option<usize>, allocated: usize) -> usize {
    match count {
        None => allocated,
        Some(n) => n,
    }
}

/// The byte length of `n` elements of scalar type `t`.
pub open spec fn byte_length(n: usize, t: ScalarType) -> int {
    n * scalar_size(t)
}

/// Whether the modeled driver accepts a transfer of `n` elements at byte
/// offset `seek` into a region of `allocated` elements of type `t`: the
/// offset must fall on an element boundary and the transfer must stay
/// inside the allocated extent.
pub open spec fn transfer_accepted(allocated: usize, n: usize, seek: usize, t: ScalarType) -> bool {
    &&& (seek as int) % (scalar_size(t) as int) == 0
    &&& byte_length(n, t) + seek <= byte_length(allocated, t)
}

/// An allocated, sized, typed region of device-accessible memory.  The
/// native handle is optional: absent once freed or when allocation failed,
/// and every operation checks its presence before acting.  `size` is the
/// allocated element count, not a byte count.  The buffer carries both its
/// host-visible backing (`host_mem`, what `write` and `read` touch) and its
/// device-resident contents (`device_mem`, what a kernel would observe);
/// only `sync` moves data between the two.
pub struct XRTBuffer<T: HardwareDatatype> {
    pub handle: Option<u64>,
    pub size: usize,
    pub host_mem: Vec<T>,
    pub device_mem: Vec<T>,
}

impl<T: HardwareDatatype> XRTBuffer<T> {
    /// Well-formedness: while the handle is present, both memory views span
    /// exactly the allocated extent, and that extent's byte length fits the
    /// machine.
    pub open spec fn wf(&self) -> bool {
        self.handle is Some ==> {
            &&& self.host_mem@.len() == self.size
            &&& self.device_mem@.len() == self.size
            &&& self.size * scalar_size(T::spec_type_tag()) <= usize::MAX
        }
    }

    /// Create a new buffer of `size` elements on the given device.  Buffers
    /// are bound to devices, but not to kernels; if the buffer is later
    /// bound to a kernel argument, `memory_group` must match the group that
    /// argument position requires.  `flags` selects driver-defined
    /// allocation semantics; both are passed through uninterpreted.  Fails
    /// with `UnopenedDeviceError` if the device has no open session, and
    /// with `BOCreationError` if the allocation itself is rejected, which in
    /// this model happens exactly for an empty extent or one whose byte
    /// length does not fit the machine.
    pub fn new(device: &XRTDevice, size: usize, flags: u32, memory_group: i32) -> (r: Result<
        XRTBuffer<T>,
        Error,
    >)
        ensures
            device.handle is None ==> r == Err::<XRTBuffer<T>, Error>(Error::UnopenedDeviceError),
            device.handle is Some && (size == 0 || size * scalar_size(T::spec_type_tag())
                > usize::MAX) ==> r == Err::<XRTBuffer<T>, Error>(Error::BOCreationError),
            r is Ok <==> (device.handle is Some && size > 0 && size * scalar_size(
                T::spec_type_tag(),
            ) <= usize::MAX),
            r matches Ok(b) ==> {
                &&& b.wf()
                &&& b.handle == device.handle
                &&& b.size == size
                &&& b.host_mem@ == Seq::new(size as nat, |i: int| T::spec_zero())
                &&& b.device_mem@ == Seq::new(size as nat, |i: int| T::spec_zero())
            },
    {
        match device.handle {
            None => Err(Error::UnopenedDeviceError),
            Some(session) => {
                let elem = scalar_size_exec(T::type_tag());
                if size == 0 || size > usize::MAX / elem {
                    proof {
                        if size > usize::MAX / elem {
                            assert(size * elem > usize::MAX) by (nonlinear_arith)
                                requires
                                    size > usize::MAX / elem,
                                    elem >= 1,
                                    usize::MAX / elem == usize::MAX as int / elem as int,
                            ;
                        }
                    }
                    return Err(Error::BOCreationError);
                }
                proof {
                    assert(size * elem <= usize::MAX) by (nonlinear_arith)
                        requires
                            size <= usize::MAX / elem,
                            elem >= 1,
                            usize::MAX / elem == usize::MAX as int / elem as int,
                    ;
                }
                Ok(
                    XRTBuffer {
                        handle: Some(session),
                        size,
                        host_mem: zero_vec::<T>(size),
                        device_mem: zero_vec::<T>(size),
                    },
                )
            },
        }
    }

    /// Sync the buffer in the given direction.  The transferred extent is
    /// `size` elements when given, else the full allocated extent, and its
    /// byte length is the element count times the element size.  `seek` is a
    /// byte offset into the backing region.  Fails with `BONotCreatedYet` if
    /// the handle is absent, before anything else is examined, and with
    /// `BOSyncError` if the driver rejects the transfer, which in this model
    /// happens exactly when the offset or extent does not fit the allocated
    /// region; in every failure the buffer is left unchanged.
    pub fn sync(&mut self, sync_direction: SyncDirection, size: Option<usize>, seek: usize) -> (r:
        Result<(), Error>)
        requires
            old(self).wf(),
        ensures
            final(self).wf(),
            final(self).handle == old(self).handle,
            final(self).size == old(self).size,
            old(self).handle is None ==> (r == Err::<(), Error>(Error::BONotCreatedYet)
                && *final(self) == *old(self)),
            r is Ok <==> (old(self).handle is Some && transfer_accepted(
                old(self).size,
                effective_count(size, old(self).size),
                seek,
                T::spec_type_tag(),
            )),
            old(self).handle is Some && !transfer_accepted(
                old(self).size,
                effective_count(size, old(self).size),
                seek,
                T::spec_type_tag(),
            ) ==> r == Err::<(), Error>(Error::BOSyncError) && *final(self) == *old(self),
            r is Ok ==> {
                let elem = scalar_size(T::spec_type_tag()) as int;
                let n = effective_count(size, old(self).size) as int;
                let start = seek as int / elem;
                match sync_direction {
                    SyncDirection::HostToDevice => {
                        &&& final(self).host_mem@ == old(self).host_mem@
                        &&& final(self).device_mem@ == overwrite(
                            old(self).device_mem@,
                            start,
                            old(self).host_mem@.subrange(start, start + n),
                        )
                    },
                    SyncDirection::DeviceToHost => {
                        &&& final(self).device_mem@ == old(self).device_mem@
                        &&& final(self).host_mem@ == overwrite(
                            old(self).host_mem@,
                            start,
                            old(self).device_mem@.subrange(start, start + n),
                        )
                    },
                }
            },
    {
        if self.handle.is_none() {
            return Err(Error::BONotCreatedYet);
        }
        let elem = scalar_size_exec(T::type_tag());
        let n = match size {
            None => self.size,
            Some(s) => s,
        };
        if seek % elem != 0 {
            return Err(Error::BOSyncError);
        }
        let start = seek / elem;
        if n > self.size || start > self.size - n {
            proof {
                lemma_div_mul_bounds(seek as int, n as int, self.size as int, elem as int);
            }
            return Err(Error::BOSyncError);
        }
        proof {
            lemma_div_mul_bounds(seek as int, n as int, self.size as int, elem as int);
        }
        let ghost host0 = self.host_mem@;
        let ghost device0 = self.device_mem@;
        match sync_direction {
            SyncDirection::HostToDevice => {
                let mut i: usize = 0;
                while i < n
                    invariant
                        i <= n,
                        start + n <= self.size,
                        self.host_mem@ == host0,
                        self.device_mem@.len() == self.size,
                        host0.len() == self.size,
                        self.handle == old(self).handle,
                        self.size == old(self).size,
                        forall|j: int|
                            start <= j < start + i ==> self.device_mem@[j] == host0[j],
                        forall|j: int|
                            0 <= j < self.size && !(start <= j < start + i)
                                ==> self.device_mem@[j] == device0[j],
                    decreases n - i,
                {
                    let v = self.host_mem[start + i];
                    self.device_mem[start + i] = v;
                    i = i + 1;
                }
                proof {
                    assert(self.device_mem@ =~= overwrite(
                        device0,
                        start as int,
                        host0.subrange(start as int, start + n),
                    ));
                }
            },
            SyncDirection::DeviceToHost => {
                let mut i: usize = 0;
                while i < n
                    invariant
                        i <= n,
                        start + n <= self.size,
                        self.device_mem@ == device0,
                        self.host_mem@.len() == self.size,
                        device0.len() == self.size,
                        self.handle == old(self).handle,
                        self.size == old(self).size,
                        forall|j: int| start <= j < start + i ==> self.host_mem@[j] == device0[j],
                        forall|j: int|
                            0 <= j < self.size && !(start <= j < start + i) ==> self.host_mem@[j]
                                == host0[j],
                    decreases n - i,
                {
                    let v = self.device_mem[start + i];
                    self.host_mem[start + i] = v;
                    i = i + 1;
                }
                proof {
                    assert(self.host_mem@ =~= overwrite(
                        host0,
                        start as int,
                        device0.subrange(start as int, start + n),
                    ));
                }
            },
        }
        Ok(())
    }

    /// Write the given elements into the buffer's host-visible backing,
    /// starting at byte offset `seek`.  The backing still needs to be synced
    /// host-to-device for the data to become visible to a kernel.  Fails
    /// with `BONotCreatedYet` if the handle is absent, before anything else
    /// is examined, and with `BOWriteError` if the driver rejects the copy,
    /// which in this model happens exactly when the offset or extent does
    /// not fit the allocated region; in every failure the buffer is left
    /// unchanged.
    pub fn write(&mut self, data: &[T], seek: usize) -> (r: Result<(), Error>)
        requires
            old(self).wf(),
        ensures
            final(self).wf(),
            final(self).handle == old(self).handle,
            final(self).size == old(self).size,
            final(self).device_mem@ == old(self).device_mem@,
            old(self).handle is None ==> (r == Err::<(), Error>(Error::BONotCreatedYet)
                && *final(self) == *old(self)),
            r is Ok <==> (old(self).handle is Some && transfer_accepted(
                old(self).size,
                data@.len() as usize,
                seek,
                T::spec_type_tag(),
            )),
            old(self).handle is Some && !transfer_accepted(
                old(self).size,
                data@.len() as usize,
                seek,
                T::spec_type_tag(),
            ) ==> (r == Err::<(), Error>(Error::BOWriteError) && *final(self) == *old(self)),
            r is Ok ==> final(self).host_mem@ == overwrite(
                old(self).host_mem@,
                seek as int / (scalar_size(T::spec_type_tag()) as int),
                data@,
            ),
    {
        if self.handle.is_none() {
            return Err(Error::BONotCreatedYet);
        }
        let elem = scalar_size_exec(T::type_tag());
        let n = data.len();
        if seek % elem != 0 {
            return Err(Error::BOWriteError);
        }
        let start = seek / elem;
        if n > self.size || start > self.size - n {
            proof {
                lemma_div_mul_bounds(seek as int, n as int, self.size as int, elem as int);
            }
            return Err(Error::BOWriteError);
        }
        proof {
            lemma_div_mul_bounds(seek as int, n as int, self.size as int, elem as int);
        }
        let ghost host0 = self.host_mem@;
        let mut i: usize = 0;
        while i < n
            invariant
                i <= n,
                n == data@.len(),
                start + n <= self.size,
                self.host_mem@.len() == self.size,
                host0.len() == self.size,
                self.handle == old(self).handle,
                self.size == old(self).size,
                self.device_mem@ == old(self).device_mem@,
                forall|j: int| start <= j < start + i ==> self.host_mem@[j] == data@[j - start],
                forall|j: int|
                    0 <= j < self.size && !(start <= j < start + i) ==> self.host_mem@[j]
                        == host0[j],
            decreases n - i,
        {
            let v = *vstd::slice::slice_index_get(data, i);
            self.host_mem[start + i] = v;
            i = i + 1;
        }
        proof {
            assert(self.host_mem@ =~= overwrite(host0, start as int, data@));
        }
        Ok(())
    }

    /// Reads from the buffer's host-visible backing into the provided
    /// vector, starting at byte offset `seek` and filling the vector's full
    /// length; what is read reflects only what was last synced
    /// device-to-host.  Fails with `BONotCreatedYet` if the handle is
    /// absent, before anything else is examined, and with `BOReadError` if
    /// the driver rejects the copy, which in this model happens exactly when
    /// the offset or extent does not fit the allocated region; in every
    /// failure the vector is left unchanged.
    pub fn read(&self, data: &mut Vec<T>, seek: usize) -> (r: Result<(), Error>)
        requires
            self.wf(),
        ensures
            final(data)@.len() == old(data)@.len(),
            self.handle is None ==> (r == Err::<(), Error>(Error::BONotCreatedYet) && final(data)@
                == old(data)@),
            r is Ok <==> (self.handle is Some && transfer_accepted(
                self.size,
                old(data)@.len() as usize,
                seek,
                T::spec_type_tag(),
            )),
            self.handle is Some && !transfer_accepted(
                self.size,
                old(data)@.len() as usize,
                seek,
                T::spec_type_tag(),
            ) ==> (r == Err::<(), Error>(Error::BOReadError) && final(data)@ == old(data)@),
            r is Ok ==> {
                let start = seek as int / (scalar_size(T::spec_type_tag()) as int);
                final(data)@ == self.host_mem@.subrange(start, start + old(data)@.len())
            },
    {
        if self.handle.is_none() {
            return Err(Error::BONotCreatedYet);
        }
        let elem = scalar_size_exec(T::type_tag());
        let n = data.len();
        if seek % elem != 0 {
            return Err(Error::BOReadError);
        }
        let start = seek / elem;
        if n > self.size || start > self.size - n {
            proof {
                lemma_div_mul_bounds(seek as int, n as int, self.size as int, elem as int);
            }
            return Err(Error::BOReadError);
        }
        proof {
            lemma_div_mul_bounds(seek as int, n as int, self.size as int, elem as int);
        }
        let mut i: usize = 0;
        while i < n
            invariant
                i <= n,
                n == data@.len(),
                start + n <= self.size,
                self.wf(),
                self.handle is Some,
                forall|j: int| 0 <= j < i ==> data@[j] == self.host_mem@[start + j],
            decreases n - i,
        {
            let v = self.host_mem[start + i];
            data[i] = v;
            i = i + 1;
        }
        proof {
            assert(data@ =~= self.host_mem@.subrange(start as int, start + n));
        }
        Ok(())
    }

    /// Releases the native buffer.  If the handle is present it is cleared,
    /// exactly once; releasing a buffer whose handle is already absent is a
    /// no-op that leaves the buffer entirely unchanged.
    pub fn free(&mut self)
        ensures
            final(self).wf(),
            final(self).handle is None,
            final(self).size == old(self).size,
            final(self).host_mem@ == old(self).host_mem@,
            final(self).device_mem@ == old(self).device_mem@,
            old(self).handle is None ==> *final(self) == *old(self),
    {
        self.handle = None;
    }
}

/// The byte length a transfer hands to the driver: an explicit element
/// count gives that count times the element size, and an omitted count
/// covers the buffer's full allocated extent.
pub proof fn lemma_transfer_byte_length(count: Option<usize>, allocated: usize, t: ScalarType)
    ensures
        byte_length(effective_count(count, allocated), t) == (match count {
            Some(n) => n * scalar_size(t),
            None => allocated * scalar_size(t),
        }),
{
}

/// Round trip: writing a sequence of values at offset 0, synchronizing
/// host-to-device and then device-to-host over the buffer's full extent,
/// and then reading the same length back at offset 0 yields the original
/// sequence, provided nothing mutated the device-resident contents in
/// between.  The three intermediate states are exactly what the contracts
/// of `write`, `sync` and `read` return for those calls.
pub proof fn lemma_round_trip<T>(host0: Seq<T>, device0: Seq<T>, data: Seq<T>)
    requires
        host0.len() == device0.len(),
        data.len() <= host0.len(),
    ensures
        ({
            let host1 = overwrite(host0, 0, data);
            let device1 = overwrite(device0, 0, host1.subrange(0, host1.len() as int));
            let host2 = overwrite(host1, 0, device1.subrange(0, device1.len() as int));
            host2.subrange(0, data.len() as int) == data
        }),
{
    let host1 = overwrite(host0, 0, data);
    let device1 = overwrite(device0, 0, host1.subrange(0, host1.len() as int));
    let host2 = overwrite(host1, 0, device1.subrange(0, device1.len() as int));
    assert(device1 =~= host1);
    assert(host2 =~= host1);
    assert(host2.subrange(0, data.len() as int) =~= data);
}

/// A vector of `n` copies of the element type's fill value.
fn zero_vec<T: HardwareDatatype>(n: usize) -> (v: Vec<T>)
    ensures
        v@ == Seq::new(n as nat, |i: int| T::spec_zero()),
{
    let mut v: Vec<T> = Vec::new();
    while v.len() < n
        invariant
            v@.len() <= n,
            forall|i: int| 0 <= i < v@.len() ==> v@[i] == T::spec_zero(),
        decreases n - v.len(),
    {
        v.push(T::zero());
    }
    proof {
        assert(v@ =~= Seq::new(n as nat, |i: int| T::spec_zero()));
    }
    v
}

/// Relates the byte-level acceptance test to the element-level bounds the
/// copy loops need: with an element-aligned offset and an in-bounds byte
/// extent, the element window `[seek / elem, seek / elem + n)` lies inside
/// the allocated extent, and conversely.
proof fn lemma_div_mul_bounds(seek: int, n: int, allocated: int, elem: int)
    requires
        elem >= 1,
        seek >= 0,
        n >= 0,
        allocated >= 0,
        seek % elem == 0,
    ensures
        n * elem + seek <= allocated * elem <==> (n <= allocated && seek / elem <= allocated - n),
        seek == (seek / elem) * elem,
{
    assert(seek == (seek / elem) * elem + seek % elem) by (nonlinear_arith)
        requires
            elem >= 1,
    ;
    let start = seek / elem;
    assert(start >= 0) by (nonlinear_arith)
        requires
            elem >= 1,
            seek >= 0,
            start == seek / elem,
    ;
    assert((n + start) * elem == n * elem + start * elem) by (nonlinear_arith);
    assert(n + start <= allocated <==> (n + start) * elem <= allocated * elem)
        by (nonlinear_arith)
        requires
            elem >= 1,
    ;
}

} // verus!
