//! Address buses: what a read or a write is routed to, and what an owner of a
//! bus has to offer the processor.
use vstd::prelude::*;

pub mod cpu_memory_map;
pub mod ppu_memory_map;

verus! {

/// Outcome of a read that must not disturb the device.
#[derive(Debug, Clone, Copy, PartialEq, Eq, Structural)]
pub enum BusPeekResult {
    /// Nothing answers at the address.
    Unmapped,
    /// Something answers, but reading it would change it.
    MutableRead,
    /// The byte a read would return.
    Result(u8),
}

impl BusPeekResult {
    /// The peeked byte, or `last_bus_value` where the peek gave none.
    pub open spec fn unwrap_spec(&self, last_bus_value: u8) -> u8 {
        match *self {
            BusPeekResult::Result(val) => val,
            _ => last_bus_value,
        }
    }

    /// The peeked byte, if the peek gave one.
    pub open spec fn to_optional_spec(&self) -> Option<u8> {
        match *self {
            BusPeekResult::Result(val) => Some(val),
            _ => None,
        }
    }

    /// Turns a peek into the byte seen on the bus: the peeked byte, or the
    /// byte already on the bus where nothing could be peeked.
    #[verifier::when_used_as_spec(unwrap_spec)]
    pub fn unwrap(&self, last_bus_value: u8) -> (r: u8)
        ensures
            r == self.unwrap_spec(last_bus_value),
    {
        match self {
            BusPeekResult::Result(val) => *val,
            _ => last_bus_value,
        }
    }

    /// Turns a peek into an `Option`, dropping the reason for a failure.
    #[verifier::when_used_as_spec(to_optional_spec)]
    pub fn to_optional(&self) -> (r: Option<u8>)
        ensures
            r == self.to_optional_spec(),
    {
        match self {
            BusPeekResult::Result(val) => Some(*val),
            _ => None,
        }
    }
}

/// An owner of the processor's address bus.
///
/// The owner is a plain value.  `read_spec` and `write_spec` say which value
/// an access leaves behind, so that a processor step is a function of the
/// processor and the owner before it.
pub trait Motherboard: Sized {
    /// The byte a read at `addr` returns, and the owner after the read.
    spec fn read_spec(self, addr: u16) -> (u8, Self);

    /// The byte at `addr` where it can be had without changing anything.
    spec fn peek_spec(self, addr: u16) -> Option<u8>;

    /// The owner after `data` was written to `addr`.
    spec fn write_spec(self, addr: u16, data: u8) -> Self;

    /// Reads from the bus, with any side effect the read has.
    fn read(&mut self, addr: u16) -> (r: u8)
        ensures
            (r, *final(self)) == old(self).read_spec(addr),
    ;

    /// Reads from the bus without side effects; `None` where that cannot be
    /// done (open bus, ports that change when read).
    fn peek(&self, addr: u16) -> (r: Option<u8>)
        ensures
            r == self.peek_spec(addr),
    ;

    /// Writes to the bus.
    fn write(&mut self, addr: u16, data: u8)
        ensures
            *final(self) == old(self).write_spec(addr, data),
    ;
}

/// An inclusive range of bus addresses with a mirroring mask.
#[derive(Debug, Clone, Copy, PartialEq, Eq, Structural)]
pub struct Range {
    pub start: u16,
    pub end: u16,
    pub mask: u16,
}

impl Range {
    /// The range `start..=end`, whose local addresses are masked by `mask`.
    pub fn new(start: u16, end: u16, mask: u16) -> (r: Range)
        ensures
            r == (Range { start, end, mask }),
    {
        Range { start, end, mask }
    }

    /// The range `start..=end` without mirroring.
    pub fn new_unmasked(start: u16, end: u16) -> (r: Range)
        ensures
            r == (Range { start, end, mask: 0xFFFF }),
    {
        Range { start, end, mask: 0xFFFF }
    }

    /// Whether `addr` lies in the range.
    pub open spec fn contains(self, addr: u16) -> bool {
        self.start <= addr <= self.end
    }

    /// The address local to the range for a bus address inside it.
    pub open spec fn local(self, addr: u16) -> u16 {
        ((addr - self.start) as u16) & self.mask
    }

    /// The local address of `test_addr`, or `None` outside the range.
    pub open spec fn map_spec(&self, test_addr: u16) -> Option<u16> {
        if self.contains(test_addr) {
            Some(self.local(test_addr))
        } else {
            None
        }
    }

    /// Translates a bus address into the address local to this range, or
    /// `None` where the bus address is outside it.
    #[verifier::when_used_as_spec(map_spec)]
    pub fn map(&self, test_addr: u16) -> (r: Option<u16>)
        ensures
            r == self.map_spec(test_addr),
    {
        if test_addr < self.start || test_addr > self.end {
            None
        } else {
            Some((test_addr - self.start) & self.mask)
        }
    }
}

/// A device that can be mounted on a bus.
///
/// `read_post` and `write_post` say which byte and which device an access
/// may leave behind; a device that the same access can leave in several
/// ways admits each of them.
pub trait BusDevice: Sized {
    /// Whether a read at the local address `addr`, with `last_bus_value` on
    /// the bus, may return `value` and leave the device as `next`.  A device
    /// that says nothing admits everything.
    open spec fn read_post(self, addr: u16, last_bus_value: u8, value: u8, next: Self) -> bool {
        true
    }

    /// Whether a peek at the local address `addr` may return `result`.  A
    /// device that says nothing admits everything.
    open spec fn peek_post(self, addr: u16, result: BusPeekResult) -> bool {
        true
    }

    /// Whether a write of `value` to the local address `addr` may leave the
    /// device as `next`.  A device that says nothing admits everything.
    open spec fn write_post(self, addr: u16, value: u8, next: Self) -> bool {
        true
    }

    /// Reads from the device.  A device that does not drive every bit of
    /// the bus fills in from `last_bus_value`.
    fn read(&mut self, addr: u16, last_bus_value: u8) -> (r: u8)
        ensures
            old(self).read_post(addr, last_bus_value, r, *final(self)),
    ;

    /// Reads from the device without side effects.
    fn peek(&self, addr: u16) -> (r: BusPeekResult)
        ensures
            self.peek_post(addr, r),
    ;

    /// Writes to the device.
    fn write(&mut self, addr: u16, value: u8)
        ensures
            old(self).write_post(addr, value, *final(self)),
    ;
}

/// A device and the range of bus addresses that it answers.
pub struct MemoryMappedDevice<D> {
    /// The device
    pub dev: D,
    /// The addresses that reach it, and the mask applied to local addresses
    pub range: Range,
}

impl<D: BusDevice> MemoryMappedDevice<D> {
    /// Mounts `dev` at `addr_start..=addr_end`.  Local addresses count from
    /// `addr_start` and are masked by `addr_mask`.
    pub fn new(dev: D, addr_start: u16, addr_end: u16, addr_mask: u16) -> (r: Self)
        ensures
            r.dev == dev,
            r.range == (Range { start: addr_start, end: addr_end, mask: addr_mask }),
    {
        MemoryMappedDevice { dev, range: Range::new(addr_start, addr_end, addr_mask) }
    }

    /// Reads from the device if `addr` reaches it.
    pub fn mapped_read(&mut self, addr: u16, last_bus_value: u8) -> (r: Option<u8>)
        ensures
            final(self).range == old(self).range,
            match old(self).range.map(addr) {
                Some(local) => r is Some && old(self).dev.read_post(
                    local,
                    last_bus_value,
                    r->Some_0,
                    final(self).dev,
                ),
                None => r is None && final(self).dev == old(self).dev,
            },
    {
        match self.range.map(addr) {
            Some(local) => Some(self.dev.read(local, last_bus_value)),
            None => None,
        }
    }

    /// Writes to the device if `addr` reaches it, and says whether it did.
    pub fn mapped_write(&mut self, addr: u16, data: u8) -> (r: Option<()>)
        ensures
            final(self).range == old(self).range,
            match old(self).range.map(addr) {
                Some(local) => r is Some && old(self).dev.write_post(local, data, final(self).dev),
                None => r is None && final(self).dev == old(self).dev,
            },
    {
        match self.range.map(addr) {
            Some(local) => {
                self.dev.write(local, data);
                Some(())
            },
            None => None,
        }
    }
}

/// A bus for 16-bit addresses on which devices are mounted at run time.
pub struct Bus<D: BusDevice> {
    devices: Vec<MemoryMappedDevice<D>>,
    last_bus_val: u8,
}

/// What a bus is, seen from outside: the devices in the order in which they
/// are asked, and the byte that was last on the bus.
pub ghost struct BusView<D> {
    pub devices: Seq<MemoryMappedDevice<D>>,
    pub last_bus_val: u8,
}

/// The first device from `i` on whose range holds `addr`, if there is one.
pub open spec fn first_match_from<D>(devices: Seq<MemoryMappedDevice<D>>, addr: u16, i: int) -> Option<
    int,
>
    decreases devices.len() - i,
{
    if 0 <= i < devices.len() {
        if devices[i].range.contains(addr) {
            Some(i)
        } else {
            first_match_from(devices, addr, i + 1)
        }
    } else {
        None
    }
}

/// The device that answers at `addr`: the first mounted whose range holds
/// the address.
pub open spec fn first_match<D>(devices: Seq<MemoryMappedDevice<D>>, addr: u16) -> Option<int> {
    first_match_from(devices, addr, 0)
}

impl<D: BusDevice> View for Bus<D> {
    type V = BusView<D>;

    closed spec fn view(&self) -> BusView<D> {
        BusView { devices: self.devices@, last_bus_val: self.last_bus_val }
    }
}

impl<D: BusDevice> Bus<D> {
    /// A bus with nothing mounted and a zero on it.
    pub fn new() -> (bus: Bus<D>)
        ensures
            bus@.devices.len() == 0,
            bus@.last_bus_val == 0,
    {
        Bus { devices: Vec::new(), last_bus_val: 0 }
    }

    /// How many devices are mounted.
    pub fn device_count(&self) -> (r: usize)
        ensures
            r == self@.devices.len(),
    {
        self.devices.len()
    }

    /// The byte that was last on the bus.
    pub fn last_bus_value(&self) -> (r: u8)
        ensures
            r == self@.last_bus_val,
    {
        self.last_bus_val
    }

    /// Mounts a device behind those already mounted, at
    /// `addr_start..=addr_end`, and returns its place among them.
    pub fn map_device(&mut self, dev: D, addr_start: u16, addr_end: u16, addr_mask: u16) -> (index:
        usize)
        ensures
            index == old(self)@.devices.len(),
            final(self)@.devices.len() == index + 1,
            final(self)@.devices.subrange(0, index as int) == old(self)@.devices,
            final(self)@.devices[index as int].dev == dev,
            final(self)@.devices[index as int].range == (Range {
                start: addr_start,
                end: addr_end,
                mask: addr_mask,
            }),
            final(self)@.last_bus_val == old(self)@.last_bus_val,
    {
        let index: usize = self.devices.len();
        self.devices.push(MemoryMappedDevice::new(dev, addr_start, addr_end, addr_mask));
        assert(self.devices@.subrange(0, index as int) =~= old(self).devices@);
        index
    }

    /// Takes the device at place `index` off the bus and hands it back.
    /// The devices behind it move up by one place.
    pub fn unmap_device(&mut self, index: usize) -> (dev: D)
        requires
            index < old(self)@.devices.len(),
        ensures
            dev == old(self)@.devices[index as int].dev,
            final(self)@.devices == old(self)@.devices.remove(index as int),
            final(self)@.last_bus_val == old(self)@.last_bus_val,
    {
        let mapped = self.devices.remove(index);
        mapped.dev
    }

    /// Reads from the bus.  The first device whose range holds the address
    /// answers, and its byte stays on the bus; where none does, the read
    /// returns the byte that is on the bus, and nothing changes.
    pub fn read(&mut self, addr: u16) -> (r: u8)
        ensures
            final(self)@.last_bus_val == r,
            final(self)@.devices.len() == old(self)@.devices.len(),
            match first_match(old(self)@.devices, addr) {
                Some(i) => {
                    &&& old(self)@.devices[i].dev.read_post(
                        old(self)@.devices[i].range.local(addr),
                        old(self)@.last_bus_val,
                        r,
                        final(self)@.devices[i].dev,
                    )
                    &&& final(self)@.devices[i].range == old(self)@.devices[i].range
                    &&& forall|j: int|
                        0 <= j < old(self)@.devices.len() && j != i ==> final(self)@.devices[j]
                            == old(self)@.devices[j]
                },
                None => r == old(self)@.last_bus_val && final(self)@.devices == old(self)@.devices,
            },
    {
        let mut i: usize = 0;
        while i < self.devices.len()
            invariant
                i <= self.devices.len(),
                self.devices@ == old(self).devices@,
                self.last_bus_val == old(self).last_bus_val,
                first_match_from(self.devices@, addr, i as int) == first_match(self.devices@, addr),
            decreases self.devices.len() - i,
        {
            let last: u8 = self.last_bus_val;
            match self.devices[i].mapped_read(addr, last) {
                Some(data) => {
                    self.last_bus_val = data;
                    return data;
                },
                None => {
                    assert(self.devices@ =~= old(self).devices@);
                },
            }
            i += 1;
        }
        self.last_bus_val
    }

    /// Writes to the bus.  The byte stays on the bus, and the first device
    /// whose range holds the address takes it.
    pub fn write(&mut self, addr: u16, data: u8)
        ensures
            final(self)@.last_bus_val == data,
            final(self)@.devices.len() == old(self)@.devices.len(),
            match first_match(old(self)@.devices, addr) {
                Some(i) => {
                    &&& old(self)@.devices[i].dev.write_post(
                        old(self)@.devices[i].range.local(addr),
                        data,
                        final(self)@.devices[i].dev,
                    )
                    &&& final(self)@.devices[i].range == old(self)@.devices[i].range
                    &&& forall|j: int|
                        0 <= j < old(self)@.devices.len() && j != i ==> final(self)@.devices[j]
                            == old(self)@.devices[j]
                },
                None => final(self)@.devices == old(self)@.devices,
            },
    {
        self.last_bus_val = data;
        let mut i: usize = 0;
        while i < self.devices.len()
            invariant
                i <= self.devices.len(),
                self.devices@ == old(self).devices@,
                self.last_bus_val == data,
                first_match_from(self.devices@, addr, i as int) == first_match(self.devices@, addr),
            decreases self.devices.len() - i,
        {
            match self.devices[i].mapped_write(addr, data) {
                Some(_) => {
                    return ;
                },
                None => {
                    assert(self.devices@ =~= old(self).devices@);
                },
            }
            i += 1;
        }
    }
}

} // verus!
