//! The memory-mapped device interface and the bus that routes addresses to devices.
use crate::dram::Dram;
use crate::uart::Uart;
use vstd::prelude::*;

verus! {

#[derive(Debug, Clone, Copy, PartialEq, Eq, Structural)]
pub enum BusError {
    LoadAccessFault(u32),
    StoreAccessFault(u32),
}

/// Access widths that the CPU issues: a byte, a half-word or a word.
pub open spec fn valid_width(size: u8) -> bool {
    size == 1 || size == 2 || size == 4
}

/// The little-endian value of the `size` bytes of `m` from `off` on, zero-extended.
pub open spec fn le_value(m: Seq<u8>, off: int, size: u8) -> u32 {
    if size == 1 {
        m[off] as u32
    } else if size == 2 {
        m[off] as u32 | ((m[off + 1] as u32) << 8)
    } else {
        m[off] as u32 | ((m[off + 1] as u32) << 8) | ((m[off + 2] as u32) << 16) | ((m[off
            + 3] as u32) << 24)
    }
}

/// Byte `k` of `val`, counting from the least significant.
pub open spec fn byte_of(val: u32, k: int) -> u8 {
    ((val >> (8 * k) as u32) & 0xff) as u8
}

/// Byte `k` of `val`, counting from the least significant.
pub fn le_byte(val: u32, k: u32) -> (r: u8)
    requires
        k < 4,
    ensures
        r == byte_of(val, k as int),
{
    let sh = 8 * k;
    assert((val >> sh) & 0xff < 256) by (bit_vector);
    ((val >> sh) & 0xff) as u8
}

/// `m` with the low `size` bytes of `val` written from `off` on, least significant first.
pub open spec fn le_stored(m: Seq<u8>, off: int, size: u8, val: u32) -> Seq<u8> {
    Seq::new(
        m.len(),
        |j: int|
            if off <= j < off + size {
                byte_of(val, j - off)
            } else {
                m[j]
            },
    )
}

/// What a device holds, as far as loads and stores can tell.
pub enum DeviceState {
    /// Memory: its bytes.
    Ram(Seq<u8>),
    /// A console: the bytes written to it and not yet taken.
    Console(Seq<u8>),
}

/// Size in bytes of a console's register window.
pub const CONSOLE_SIZE: u32 = 0x1000;

impl DeviceState {
    pub open spec fn wf(self) -> bool {
        match self {
            DeviceState::Ram(m) => 0 < m.len() <= u32::MAX,
            DeviceState::Console(_) => true,
        }
    }

    /// The device's size in bytes.
    pub open spec fn extent(self) -> nat {
        match self {
            DeviceState::Ram(m) => m.len(),
            DeviceState::Console(_) => CONSOLE_SIZE as nat,
        }
    }

    /// What a load of `size` bytes at `offset` returns; one past the end fails.
    pub open spec fn load_result(self, offset: u32, size: u8) -> Result<u32, BusError> {
        if offset + size > self.extent() {
            Err(BusError::LoadAccessFault(offset))
        } else {
            match self {
                DeviceState::Ram(m) => Ok(le_value(m, offset as int, size)),
                DeviceState::Console(_) => Ok(0),
            }
        }
    }

    /// The state after a store of `size` bytes of `val` at `offset`.
    pub open spec fn after_store(self, offset: u32, size: u8, val: u32) -> DeviceState {
        if offset + size > self.extent() {
            self
        } else {
            match self {
                DeviceState::Ram(m) => DeviceState::Ram(le_stored(m, offset as int, size, val)),
                DeviceState::Console(out) => DeviceState::Console(out.push(byte_of(val, 0))),
            }
        }
    }

    /// What a store of `size` bytes at `offset` returns.
    pub open spec fn store_result(self, offset: u32, size: u8) -> Result<(), BusError> {
        if offset + size > self.extent() {
            Err(BusError::StoreAccessFault(offset))
        } else {
            Ok(())
        }
    }
}

/// A memory-mapped device: a size, and byte, half-word and word loads and stores at offsets
/// relative to its base. Values are little-endian.
pub trait Device {
    spec fn state(&self) -> DeviceState;

    /// A label for diagnostics.
    fn name(&self) -> &'static str;

    fn size(&self) -> (r: u32)
        requires
            self.state().wf(),
        ensures
            r as nat == self.state().extent(),
    ;

    fn load(&mut self, offset: u32, size: u8) -> (r: Result<u32, BusError>)
        requires
            old(self).state().wf(),
            valid_width(size),
        ensures
            final(self).state() == old(self).state(),
            r == old(self).state().load_result(offset, size),
    ;

    fn store(&mut self, offset: u32, size: u8, val: u32) -> (r: Result<(), BusError>)
        requires
            old(self).state().wf(),
            valid_width(size),
        ensures
            final(self).state() == old(self).state().after_store(offset, size, val),
            final(self).state().wf(),
            r == old(self).state().store_result(offset, size),
    ;
}

/// The devices that a bus can hold.
pub enum AnyDevice {
    Dram(Dram),
    Uart(Uart),
}

impl Device for AnyDevice {
    open spec fn state(&self) -> DeviceState {
        match self {
            AnyDevice::Dram(d) => d.state(),
            AnyDevice::Uart(u) => u.state(),
        }
    }

    fn name(&self) -> &'static str {
        match self {
            AnyDevice::Dram(d) => d.name(),
            AnyDevice::Uart(u) => u.name(),
        }
    }

    fn size(&self) -> (r: u32) {
        match self {
            AnyDevice::Dram(d) => d.size(),
            AnyDevice::Uart(u) => u.size(),
        }
    }

    fn load(&mut self, offset: u32, size: u8) -> (r: Result<u32, BusError>) {
        match self {
            AnyDevice::Dram(d) => d.load(offset, size),
            AnyDevice::Uart(u) => u.load(offset, size),
        }
    }

    fn store(&mut self, offset: u32, size: u8, val: u32) -> (r: Result<(), BusError>) {
        match self {
            AnyDevice::Dram(d) => d.store(offset, size, val),
            AnyDevice::Uart(u) => u.store(offset, size, val),
        }
    }
}


/// Whether the device mapped at `m.0` answers for `addr`: its range is half-open.
pub open spec fn covers(m: (u32, DeviceState), addr: u32) -> bool {
    m.0 <= addr && addr < m.0 + m.1.extent()
}

/// Mapping `i` is the first that covers `addr`.
pub open spec fn first_hit(maps: Seq<(u32, DeviceState)>, addr: u32, i: int) -> bool {
    0 <= i < maps.len() && covers(maps[i], addr) && forall|j: int|
        0 <= j < i ==> !covers(#[trigger] maps[j], addr)
}

/// The mapping that answers for `addr`: the first registered that covers it.
pub open spec fn probe(maps: Seq<(u32, DeviceState)>, addr: u32) -> Option<int> {
    if exists|i: int| first_hit(maps, addr, i) {
        Some(choose|i: int| first_hit(maps, addr, i))
    } else {
        None
    }
}

/// What a load of `size` bytes at `addr` returns: a fault at `addr` where no device answers,
/// or where the access runs past the end of the device that does.
pub open spec fn bus_load(maps: Seq<(u32, DeviceState)>, addr: u32, size: u8) -> Result<
    u32,
    BusError,
> {
    match probe(maps, addr) {
        Some(i) => match maps[i].1.load_result((addr - maps[i].0) as u32, size) {
            Ok(v) => Ok(v),
            Err(_) => Err(BusError::LoadAccessFault(addr)),
        },
        None => Err(BusError::LoadAccessFault(addr)),
    }
}

/// What a store of `size` bytes at `addr` returns.
pub open spec fn bus_store_result(maps: Seq<(u32, DeviceState)>, addr: u32, size: u8) -> Result<
    (),
    BusError,
> {
    match probe(maps, addr) {
        Some(i) => match maps[i].1.store_result((addr - maps[i].0) as u32, size) {
            Ok(v) => Ok(v),
            Err(_) => Err(BusError::StoreAccessFault(addr)),
        },
        None => Err(BusError::StoreAccessFault(addr)),
    }
}

/// The devices after a store of `size` bytes of `val` at `addr`.
pub open spec fn bus_after_store(
    maps: Seq<(u32, DeviceState)>,
    addr: u32,
    size: u8,
    val: u32,
) -> Seq<(u32, DeviceState)> {
    match probe(maps, addr) {
        Some(i) => maps.update(
            i,
            (maps[i].0, maps[i].1.after_store((addr - maps[i].0) as u32, size, val)),
        ),
        None => maps,
    }
}

/// The mapping that a probe picks is the first one that covers the address.
pub proof fn lemma_probe_is_first_hit(maps: Seq<(u32, DeviceState)>, addr: u32, i: int)
    requires
        first_hit(maps, addr, i),
    ensures
        probe(maps, addr) == Some(i),
{
    let k = choose|k: int| first_hit(maps, addr, k);
    assert(first_hit(maps, addr, k));
    if k < i {
        assert(!covers(maps[k], addr));
    } else if i < k {
        assert(!covers(maps[i], addr));
    }
}

/// A store keeps every device well formed.
pub(crate) proof fn lemma_bus_after_store_wf(maps: Seq<(u32, DeviceState)>, addr: u32, size: u8, val: u32)
    requires
        forall|i: int| 0 <= i < maps.len() ==> (#[trigger] maps[i]).1.wf(),
    ensures
        bus_after_store(maps, addr, size, val).len() == maps.len(),
        forall|i: int|
            0 <= i < maps.len() ==> (#[trigger] bus_after_store(maps, addr, size, val)[i]).1.wf(),
{
    match probe(maps, addr) {
        Some(k) => {
            assert(first_hit(maps, addr, k));
        },
        None => {},
    }
}

struct MappedDevice {
    base_addr: u32,
    device: AnyDevice,
}

/// Devices at base addresses; a probe answers with the first mapping that covers the address.
pub struct Bus {
    mappings: Vec<MappedDevice>,
}

impl View for Bus {
    type V = Seq<(u32, DeviceState)>;

    closed spec fn view(&self) -> Seq<(u32, DeviceState)> {
        self.mappings@.map_values(|m: MappedDevice| (m.base_addr, m.device.state()))
    }
}

impl Bus {
    /// Every device is well formed.
    pub open spec fn wf(&self) -> bool {
        forall|i: int| 0 <= i < self@.len() ==> (#[trigger] self@[i]).1.wf()
    }

    pub fn new() -> (r: Bus)
        ensures
            r@ == Seq::<(u32, DeviceState)>::empty(),
            r.wf(),
    {
        let r = Bus { mappings: Vec::new() };
        assert(r@ =~= Seq::<(u32, DeviceState)>::empty());
        r
    }

    /// Appends a mapping; overlaps are allowed, and the earlier mapping wins.
    pub fn map_to(&mut self, base_addr: u32, device: AnyDevice)
        requires
            old(self).wf(),
            device.state().wf(),
        ensures
            final(self).wf(),
            final(self)@ == old(self)@.push((base_addr, device.state())),
    {
        let ghost st = device.state();
        self.mappings.push(MappedDevice { base_addr, device });
        assert(self@ =~= old(self)@.push((base_addr, st)));
    }

    fn probe(&self, addr: u32) -> (r: Option<usize>)
        requires
            self.wf(),
        ensures
            r matches Some(i) ==> i < self@.len() && probe(self@, addr) == Some(i as int),
            r is None ==> probe(self@, addr) is None,
    {
        let mut i: usize = 0;
        while i < self.mappings.len()
            invariant
                self.wf(),
                i <= self@.len(),
                self@.len() == self.mappings@.len(),
                forall|j: int| 0 <= j < i ==> !covers(#[trigger] self@[j], addr),
            decreases self@.len() - i,
        {
            let m = &self.mappings[i];
            assert(self@[i as int] == (m.base_addr, m.device.state()));
            let size = m.device.size();
            if addr >= m.base_addr && addr - m.base_addr < size {
                proof {
                    lemma_probe_is_first_hit(self@, addr, i as int);
                }
                return Some(i);
            }
            i = i + 1;
        }
        assert forall|k: int| !first_hit(self@, addr, k) by {
            if 0 <= k < self@.len() {
                assert(!covers(self@[k], addr));
            }
        }
        None
    }

    pub fn load(&mut self, addr: u32, size: u8) -> (r: Result<u32, BusError>)
        requires
            old(self).wf(),
            valid_width(size),
        ensures
            final(self)@ == old(self)@,
            final(self).wf(),
            r == bus_load(old(self)@, addr, size),
    {
        match self.probe(addr) {
            Some(i) => {
                let ghost before = self@;
                let base = self.mappings[i].base_addr;
                assert(before[i as int].1 == self.mappings@[i as int].device.state());
                let r = self.mappings[i].device.load(addr - base, size);
                assert(self@ =~= before);
                match r {
                    Ok(v) => Ok(v),
                    Err(_) => Err(BusError::LoadAccessFault(addr)),
                }
            },
            None => Err(BusError::LoadAccessFault(addr)),
        }
    }

    pub fn store(&mut self, addr: u32, size: u8, val: u32) -> (r: Result<(), BusError>)
        requires
            old(self).wf(),
            valid_width(size),
        ensures
            final(self)@ == bus_after_store(old(self)@, addr, size, val),
            final(self).wf(),
            r == bus_store_result(old(self)@, addr, size),
            r is Err ==> final(self)@ == old(self)@,
    {
        match self.probe(addr) {
            Some(i) => {
                let ghost before = self@;
                let base = self.mappings[i].base_addr;
                assert(before[i as int].1 == self.mappings@[i as int].device.state());
                let r = self.mappings[i].device.store(addr - base, size, val);
                assert(self@ =~= bus_after_store(before, addr, size, val));
                match r {
                    Ok(v) => Ok(v),
                    Err(_) => {
                        assert(self@ =~= before);
                        Err(BusError::StoreAccessFault(addr))
                    },
                }
            },
            None => Err(BusError::StoreAccessFault(addr)),
        }
    }

    /// Takes the bytes that the console mapped at position `index` has emitted; a memory
    /// there gives none.
    pub fn take_console_output(&mut self, index: usize) -> (r: Vec<u8>)
        requires
            old(self).wf(),
            index < old(self)@.len(),
        ensures
            final(self).wf(),
            old(self)@[index as int].1 matches DeviceState::Console(out) ==> r@ == out
                && final(self)@ == old(self)@.update(
                index as int,
                (old(self)@[index as int].0, DeviceState::Console(Seq::empty())),
            ),
            old(self)@[index as int].1 is Ram ==> r@ == Seq::<u8>::empty() && final(self)@ == old(
                self,
            )@,
    {
        let ghost before = self@;
        match &mut self.mappings[index].device {
            AnyDevice::Uart(u) => {
                let out = u.take_output();
                assert(self@ =~= before.update(
                    index as int,
                    (before[index as int].0, DeviceState::Console(Seq::empty())),
                ));
                out
            },
            AnyDevice::Dram(_) => {
                assert(self@ =~= before);
                Vec::new()
            },
        }
    }
}

} // verus!
