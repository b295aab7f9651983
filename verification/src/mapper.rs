//! The address-space mapper: routes every 16-bit address to the device
//! that backs it.
//!
//! The mapper owns a list of regions, each binding an inclusive address
//! range to one device, with an optional remap flag (subtract the
//! region's start before indexing into the device). Lookup scans the
//! regions in mapping order and the first region whose range contains
//! the address wins; overlapping regions are therefore allowed, and the
//! earlier mapping shadows the later one. Word accesses are two
//! big-endian byte accesses through a single region.
//!
//! Every operation reports a structured error instead of failing: an
//! address no region contains, or a translated offset past the backing
//! device's end.

use vstd::prelude::*;

use crate::device::Device;
use crate::device::DeviceType;
use crate::device::DeviceView;
use crate::device::OutputAction;
use crate::device::output_action;
use crate::errors::VmError;
use crate::memory::zero_seq;
use crate::word::hi_byte;
use crate::word::lo_byte;
use crate::word::word_of;
use crate::word::word_from_bytes;
use crate::word::word_hi;
use crate::word::word_lo;

verus! {

/// One mapping: an inclusive address range bound to a device.
pub struct Region {
    device: Device,
    start: u16,
    end: u16,
    remap: bool,
}

/// A region as the specifications see it.
#[verifier::ext_equal]
pub struct RegionView {
    pub device: DeviceView,
    pub start: u16,
    pub end: u16,
    pub remap: bool,
}

impl View for Region {
    type V = RegionView;

    closed spec fn view(&self) -> RegionView {
        RegionView {
            device: self.device@,
            start: self.start,
            end: self.end,
            remap: self.remap,
        }
    }
}

/// The mapper as the specifications see it: the mapped regions in
/// mapping order, and the screen actions accumulated by writes to
/// output devices, oldest first.
#[verifier::ext_equal]
pub struct MapperView {
    pub regions: Seq<RegionView>,
    pub output: Seq<OutputAction>,
}

/// The address-space mapper.
pub struct MemoryMapper {
    regions: Vec<Region>,
    output: Vec<OutputAction>,
}

impl View for MemoryMapper {
    type V = MapperView;

    closed spec fn view(&self) -> MapperView {
        MapperView {
            regions: self.regions@.map_values(|r: Region| r@),
            output: self.output@,
        }
    }
}

/// Whether a region's inclusive range contains the address.
pub open spec fn region_contains(r: RegionView, address: u16) -> bool {
    r.start <= address && address <= r.end
}

/// The index of the first region whose range contains the address.
pub open spec fn region_index_of(regions: Seq<RegionView>, address: u16) -> Option<int>
    decreases regions.len(),
{
    if regions.len() == 0 {
        None
    } else if region_contains(regions[0], address) {
        Some(0int)
    } else {
        match region_index_of(regions.drop_first(), address) {
            Some(i) => Some(i + 1),
            None => None,
        }
    }
}

/// The device-relative offset a region turns an absolute address into.
pub open spec fn translate(r: RegionView, address: u16) -> int {
    if r.remap {
        address - r.start
    } else {
        address as int
    }
}

/// What reading one byte at an address yields: the byte the owning
/// region's device holds there (zero on an output device), or the fault.
pub open spec fn spec_get_byte(m: MapperView, address: u16) -> Result<u8, VmError> {
    match region_index_of(m.regions, address) {
        None => Err(VmError::UnmappedAddress(address)),
        Some(i) => {
            let r = m.regions[i];
            let a = translate(r, address);
            match r.device.kind {
                DeviceType::Memory => if a < r.device.bytes.len() {
                    Ok(r.device.bytes[a])
                } else {
                    Err(VmError::DeviceOverrun(address))
                },
                DeviceType::Stdout => Ok(0u8),
            }
        },
    }
}

/// What writing one byte at an address does: update the owning storage
/// device, or append the screen action an output device produces.
pub open spec fn spec_set_byte(m: MapperView, data: u8, address: u16) -> Result<
    MapperView,
    VmError,
> {
    match region_index_of(m.regions, address) {
        None => Err(VmError::UnmappedAddress(address)),
        Some(i) => {
            let r = m.regions[i];
            let a = translate(r, address);
            match r.device.kind {
                DeviceType::Memory => if a < r.device.bytes.len() {
                    Ok(
                        MapperView {
                            regions: m.regions.update(
                                i,
                                RegionView {
                                    device: DeviceView {
                                        kind: r.device.kind,
                                        bytes: r.device.bytes.update(a, data),
                                    },
                                    ..r
                                },
                            ),
                            output: m.output,
                        },
                    )
                } else {
                    Err(VmError::DeviceOverrun(address))
                },
                DeviceType::Stdout => Ok(
                    MapperView {
                        regions: m.regions,
                        output: m.output.push(output_action(data, a as u16)),
                    },
                ),
            }
        },
    }
}

/// What reading a 16-bit word at an address yields: two big-endian bytes
/// through the single region that owns `address`.
pub open spec fn spec_get_word(m: MapperView, address: u16) -> Result<u16, VmError> {
    match region_index_of(m.regions, address) {
        None => Err(VmError::UnmappedAddress(address)),
        Some(i) => {
            let r = m.regions[i];
            let a = translate(r, address);
            match r.device.kind {
                DeviceType::Memory => if a + 1 < r.device.bytes.len() {
                    Ok(word_of(r.device.bytes[a], r.device.bytes[a + 1]))
                } else {
                    Err(VmError::DeviceOverrun(address))
                },
                DeviceType::Stdout => if a < 0xFFFF {
                    Ok(0u16)
                } else {
                    Err(VmError::DeviceOverrun(address))
                },
            }
        },
    }
}

/// What writing a 16-bit word at an address does: two big-endian byte
/// writes through the single region that owns `address`.
pub open spec fn spec_set_word(m: MapperView, address: u16, value: u16) -> Result<
    MapperView,
    VmError,
> {
    match region_index_of(m.regions, address) {
        None => Err(VmError::UnmappedAddress(address)),
        Some(i) => {
            let r = m.regions[i];
            let a = translate(r, address);
            match r.device.kind {
                DeviceType::Memory => if a + 1 < r.device.bytes.len() {
                    Ok(
                        MapperView {
                            regions: m.regions.update(
                                i,
                                RegionView {
                                    device: DeviceView {
                                        kind: r.device.kind,
                                        bytes: r.device.bytes.update(a, hi_byte(value)).update(
                                            a + 1,
                                            lo_byte(value),
                                        ),
                                    },
                                    ..r
                                },
                            ),
                            output: m.output,
                        },
                    )
                } else {
                    Err(VmError::DeviceOverrun(address))
                },
                DeviceType::Stdout => if a < 0xFFFF {
                    Ok(
                        MapperView {
                            regions: m.regions,
                            output: m.output.push(output_action(hi_byte(value), a as u16)).push(
                                output_action(lo_byte(value), (a + 1) as u16),
                            ),
                        },
                    )
                } else {
                    Err(VmError::DeviceOverrun(address))
                },
            }
        },
    }
}

/// What viewing `size` bytes from `address` yields: the bytes the owning
/// region's device holds there, read without side effects.
pub open spec fn spec_view_memory(m: MapperView, address: u16, size: usize) -> Result<
    Seq<u8>,
    VmError,
> {
    match region_index_of(m.regions, address) {
        None => Err(VmError::UnmappedAddress(address)),
        Some(i) => {
            let r = m.regions[i];
            let a = translate(r, address);
            match r.device.kind {
                DeviceType::Memory => if a + size <= r.device.bytes.len() {
                    Ok(Seq::new(size as nat, |k: int| r.device.bytes[a + k]))
                } else {
                    Err(VmError::DeviceOverrun(address))
                },
                DeviceType::Stdout => Ok(zero_seq(size as nat)),
            }
        },
    }
}

/// An address is writable as plain storage: some region owns it and the
/// translated offset lands inside the region's storage device.
pub open spec fn writable(m: MapperView, address: u16) -> bool {
    match region_index_of(m.regions, address) {
        Some(i) => m.regions[i].device.kind == DeviceType::Memory && translate(
            m.regions[i],
            address,
        ) < m.regions[i].device.bytes.len(),
        None => false,
    }
}

/// Two mapper states have the same layout: the same regions at the same
/// ranges, with the same kinds and device sizes.
pub open spec fn same_layout(m1: MapperView, m2: MapperView) -> bool {
    &&& m1.regions.len() == m2.regions.len()
    &&& forall|i: int|
        0 <= i < m1.regions.len() ==> {
            &&& (#[trigger] m2.regions[i]).start == m1.regions[i].start
            &&& m2.regions[i].end == m1.regions[i].end
            &&& m2.regions[i].remap == m1.regions[i].remap
            &&& m2.regions[i].device.kind == m1.regions[i].device.kind
            &&& m2.regions[i].device.bytes.len() == m1.regions[i].device.bytes.len()
        }
}

/// `region_index_of` reports a region that really contains the address,
/// and none before it does; or that no region contains it.
pub proof fn lemma_region_index_props(regions: Seq<RegionView>, address: u16)
    ensures
        match region_index_of(regions, address) {
            Some(i) => 0 <= i < regions.len() && region_contains(regions[i], address) && forall|
                j: int,
            | 0 <= j < i ==> !region_contains(regions[j], address),
            None => forall|j: int|
                0 <= j < regions.len() ==> !region_contains(regions[j], address),
        },
    decreases regions.len(),
{
    if regions.len() > 0 && !region_contains(regions[0], address) {
        let rest = regions.drop_first();
        lemma_region_index_props(rest, address);
        match region_index_of(rest, address) {
            Some(i2) => {
                assert(regions[i2 + 1] == rest[i2]);
                assert forall|j: int| 0 <= j < i2 + 1 implies !region_contains(
                    regions[j],
                    address,
                ) by {
                    if j > 0 {
                        assert(regions[j] == rest[j - 1]);
                    }
                }
            },
            None => {
                assert forall|j: int| 0 <= j < regions.len() implies !region_contains(
                    regions[j],
                    address,
                ) by {
                    if j > 0 {
                        assert(regions[j] == rest[j - 1]);
                    }
                }
            },
        }
    }
}

/// If the first containing region is at index `i`, lookup returns `i`.
pub proof fn lemma_region_index_some(regions: Seq<RegionView>, address: u16, i: int)
    requires
        0 <= i < regions.len(),
        region_contains(regions[i], address),
        forall|j: int| 0 <= j < i ==> !region_contains(regions[j], address),
    ensures
        region_index_of(regions, address) == Some(i),
    decreases i,
{
    if i > 0 {
        lemma_region_index_some(regions.drop_first(), address, i - 1);
    }
}

/// If no region contains the address, lookup finds none.
pub proof fn lemma_region_index_none(regions: Seq<RegionView>, address: u16)
    requires
        forall|j: int| 0 <= j < regions.len() ==> !region_contains(regions[j], address),
    ensures
        region_index_of(regions, address) == None::<int>,
    decreases regions.len(),
{
    if regions.len() > 0 {
        lemma_region_index_none(regions.drop_first(), address);
    }
}

/// Region lookup depends only on the layout, not on device contents.
pub proof fn lemma_region_index_layout(m1: MapperView, m2: MapperView, address: u16)
    requires
        same_layout(m1, m2),
    ensures
        region_index_of(m1.regions, address) == region_index_of(m2.regions, address),
{
    lemma_region_index_props(m1.regions, address);
    lemma_region_index_props(m2.regions, address);
    match region_index_of(m1.regions, address) {
        Some(i) => {
            lemma_region_index_some(m2.regions, address, i);
        },
        None => {
            lemma_region_index_none(m2.regions, address);
        },
    }
}

/// Writing one byte to a writable (storage-backed) address succeeds,
/// leaves the layout and the accumulated output alone, makes the byte
/// readable at that address, and changes no other address.
pub proof fn lemma_set_byte_frame(m: MapperView, data: u8, address: u16)
    requires
        writable(m, address),
    ensures
        spec_set_byte(m, data, address) is Ok,
        ({
            let m2 = spec_set_byte(m, data, address)->Ok_0;
            &&& same_layout(m, m2)
            &&& m2.output == m.output
            &&& spec_get_byte(m2, address) == Ok::<u8, VmError>(data)
            &&& forall|b: u16| b != address ==> spec_get_byte(m2, b) == spec_get_byte(m, b)
            &&& forall|b: u16| writable(m2, b) == writable(m, b)
        }),
{
    lemma_region_index_props(m.regions, address);
    let i = region_index_of(m.regions, address)->Some_0;
    let m2 = spec_set_byte(m, data, address)->Ok_0;
    assert(same_layout(m, m2));
    lemma_region_index_layout(m, m2, address);
    assert forall|b: u16| b != address implies spec_get_byte(m2, b) == spec_get_byte(m, b) by {
        lemma_region_index_layout(m, m2, b);
        lemma_region_index_props(m.regions, b);
        match region_index_of(m.regions, b) {
            Some(j) => {
                if j == i {
                    assert(translate(m.regions[i], b) != translate(m.regions[i], address));
                }
            },
            None => {},
        }
    }
    assert forall|b: u16| writable(m2, b) == writable(m, b) by {
        lemma_region_index_layout(m, m2, b);
        lemma_region_index_props(m.regions, b);
    }
}

/// Writing a word to a storage-backed address and reading it back
/// through the same region yields the word written.
pub proof fn lemma_word_round_trip(m: MapperView, address: u16, value: u16)
    requires
        spec_set_word(m, address, value) is Ok,
        region_index_of(m.regions, address) is Some,
        m.regions[region_index_of(m.regions, address)->Some_0].device.kind == DeviceType::Memory,
    ensures
        spec_get_word(spec_set_word(m, address, value)->Ok_0, address) == Ok::<u16, VmError>(
            value,
        ),
{
    lemma_region_index_props(m.regions, address);
    let i = region_index_of(m.regions, address)->Some_0;
    let m2 = spec_set_word(m, address, value)->Ok_0;
    assert(same_layout(m, m2));
    lemma_region_index_layout(m, m2, address);
    let a = translate(m.regions[i], address);
    assert(m2.regions[i].device.bytes[a] == hi_byte(value));
    assert(m2.regions[i].device.bytes[a + 1] == lo_byte(value));
    crate::word::lemma_word_split_join(value);
}

/// A word write is big-endian: the high byte lands at the address, the
/// low byte at the address right after it.
pub proof fn lemma_word_write_big_endian(m: MapperView, address: u16, value: u16)
    requires
        address < 0xFFFF,
        spec_set_word(m, address, value) is Ok,
        region_index_of(m.regions, address) is Some,
        m.regions[region_index_of(m.regions, address)->Some_0].device.kind == DeviceType::Memory,
        region_index_of(m.regions, (address + 1) as u16) == region_index_of(m.regions, address),
    ensures
        ({
            let m2 = spec_set_word(m, address, value)->Ok_0;
            &&& spec_get_byte(m2, address) == Ok::<u8, VmError>(hi_byte(value))
            &&& spec_get_byte(m2, (address + 1) as u16) == Ok::<u8, VmError>(lo_byte(value))
        }),
{
    lemma_region_index_props(m.regions, address);
    let i = region_index_of(m.regions, address)->Some_0;
    let m2 = spec_set_word(m, address, value)->Ok_0;
    assert(same_layout(m, m2));
    lemma_region_index_layout(m, m2, address);
    lemma_region_index_layout(m, m2, (address + 1) as u16);
    let a = translate(m.regions[i], address);
    assert(translate(m.regions[i], (address + 1) as u16) == a + 1);
    assert(m2.regions[i].device.bytes[a] == hi_byte(value));
    assert(m2.regions[i].device.bytes[a + 1] == lo_byte(value));
}

impl MemoryMapper {
    /// Every mapped region's device is well formed.
    pub closed spec fn wf(&self) -> bool {
        forall|i: int| 0 <= i < self.regions@.len() ==> (#[trigger] self.regions@[i]).device.wf()
    }

    /// A mapper with nothing mapped.
    pub fn new() -> (m: MemoryMapper)
        ensures
            m.wf(),
            m@.regions == Seq::<RegionView>::empty(),
            m@.output == Seq::<OutputAction>::empty(),
    {
        let m = MemoryMapper { regions: Vec::new(), output: Vec::new() };
        proof {
            assert(m@.regions =~= Seq::<RegionView>::empty());
        }
        m
    }

    /// Binds `[start, end]` to a device, appending the region after all
    /// existing ones. Fails if the remapped range does not fit on the
    /// device; a later region never shadows an earlier one.
    pub fn map(&mut self, device: Device, start: u16, end: u16, remap: bool) -> (r: Result<
        (),
        VmError,
    >)
        requires
            old(self).wf(),
            device.wf(),
        ensures
            final(self).wf(),
            if remap && device@.bytes.len() < end - start + 1 {
                r == Err::<(), VmError>(VmError::RegionTooSmall) && final(self)@ == old(self)@
            } else {
                r is Ok && final(self)@ == (MapperView {
                    regions: old(self)@.regions.push(
                        RegionView { device: device@, start, end, remap },
                    ),
                    output: old(self)@.output,
                })
            },
    {
        if remap && end >= start {
            let span = (end - start) as usize + 1;
            if (device.len() as usize) < span {
                return Err(VmError::RegionTooSmall);
            }
        }
        let ghost dv = device@;
        self.regions.push(Region { device, start, end, remap });
        proof {
            assert(self@.regions =~= old(self)@.regions.push(
                RegionView { device: dv, start, end, remap },
            ));
            assert(self@ =~= (MapperView {
                regions: old(self)@.regions.push(RegionView { device: dv, start, end, remap }),
                output: old(self)@.output,
            }));
        }
        Ok(())
    }


    /// The index of the first region whose range contains the address.
    pub fn find_region(&self, address: u16) -> (r: Option<usize>)
        ensures
            match r {
                Some(i) => region_index_of(self@.regions, address) == Some(i as int),
                None => region_index_of(self@.regions, address) is None,
            },
    {
        let mut i: usize = 0;
        while i < self.regions.len()
            invariant
                i <= self.regions@.len(),
                self@.regions.len() == self.regions@.len(),
                forall|j: int| 0 <= j < i ==> !region_contains(self@.regions[j], address),
            decreases self.regions@.len() - i,
        {
            let region = &self.regions[i];
            if address >= region.start && address <= region.end {
                proof {
                    lemma_region_index_some(self@.regions, address, i as int);
                }
                return Some(i);
            }
            i = i + 1;
        }
        proof {
            lemma_region_index_none(self@.regions, address);
        }
        None
    }

    /// The index of the first region whose range contains the address;
    /// the mapper itself is left untouched.
    pub fn mut_find_region(&mut self, address: u16) -> (r: Option<usize>)
        ensures
            *final(self) == *old(self),
            match r {
                Some(i) => region_index_of(old(self)@.regions, address) == Some(i as int),
                None => region_index_of(old(self)@.regions, address) is None,
            },
    {
        self.find_region(address)
    }

    /// Reads one byte, routed through the owning region.
    pub fn get_byte(&self, address: u16) -> (r: Result<u8, VmError>)
        requires
            self.wf(),
        ensures
            r == spec_get_byte(self@, address),
    {
        match self.find_region(address) {
            None => Err(VmError::UnmappedAddress(address)),
            Some(i) => {
                proof {
                    lemma_region_index_props(self@.regions, address);
                    assert(self@.regions[i as int] == self.regions@[i as int]@);
                }
                let region = &self.regions[i];
                let fa: u16 = if region.remap {
                    address - region.start
                } else {
                    address
                };
                proof {
                    assert(fa as int == translate(self@.regions[i as int], address));
                }
                match region.device.kind() {
                    DeviceType::Memory => {
                        if fa < region.device.len() {
                            Ok(region.device.get_byte(fa))
                        } else {
                            Err(VmError::DeviceOverrun(address))
                        }
                    },
                    DeviceType::Stdout => Ok(region.device.get_byte(fa)),
                }
            },
        }
    }

    /// Writes one byte, routed through the owning region: into a storage
    /// device's buffer, or onto the output queue for an output device.
    pub fn set_byte(&mut self, data: u8, address: u16) -> (r: Result<(), VmError>)
        requires
            old(self).wf(),
        ensures
            final(self).wf(),
            match spec_set_byte(old(self)@, data, address) {
                Ok(m) => r is Ok && final(self)@ == m,
                Err(e) => r == Err::<(), VmError>(e) && final(self)@ == old(self)@,
            },
    {
        match self.find_region(address) {
            None => Err(VmError::UnmappedAddress(address)),
            Some(i) => {
                proof {
                    lemma_region_index_props(self@.regions, address);
                    assert(self@.regions[i as int] == self.regions@[i as int]@);
                }
                let region_start = self.regions[i].start;
                let region_remap = self.regions[i].remap;
                let fa: u16 = if region_remap {
                    address - region_start
                } else {
                    address
                };
                proof {
                    assert(fa as int == translate(self@.regions[i as int], address));
                }
                let is_memory = match self.regions[i].device.kind() {
                    DeviceType::Memory => true,
                    DeviceType::Stdout => false,
                };
                if is_memory {
                    if fa < self.regions[i].device.len() {
                        let region = &mut self.regions[i];
                        let act = region.device.set_byte(data, fa);
                        proof {
                            let si = i as int;
                            let oldv = old(self)@;
                            let newr = self.regions@[si]@;
                            assert(newr.device.bytes =~= oldv.regions[si].device.bytes.update(
                                fa as int,
                                data,
                            ));
                            assert(self@.regions =~= oldv.regions.update(si, newr));
                            assert(self@ =~~= spec_set_byte(oldv, data, address)->Ok_0);
                        }
                        Ok(())
                    } else {
                        Err(VmError::DeviceOverrun(address))
                    }
                } else {
                    let region = &mut self.regions[i];
                    let act = region.device.set_byte(data, fa);
                    match act {
                        Some(a) => {
                            self.output.push(a);
                        },
                        None => {},
                    }
                    proof {
                        let si = i as int;
                        let oldv = old(self)@;
                        assert(self@.regions =~= oldv.regions);
                        assert(self@ =~~= spec_set_byte(oldv, data, address)->Ok_0);
                    }
                    Ok(())
                }
            },
        }
    }

    /// Reads a 16-bit word: two big-endian bytes through one region.
    pub fn get_uint_16(&self, address: u16) -> (r: Result<u16, VmError>)
        requires
            self.wf(),
        ensures
            r == spec_get_word(self@, address),
    {
        match self.find_region(address) {
            None => Err(VmError::UnmappedAddress(address)),
            Some(i) => {
                proof {
                    lemma_region_index_props(self@.regions, address);
                    assert(self@.regions[i as int] == self.regions@[i as int]@);
                }
                let region = &self.regions[i];
                let fa: u16 = if region.remap {
                    address - region.start
                } else {
                    address
                };
                proof {
                    assert(fa as int == translate(self@.regions[i as int], address));
                }
                match region.device.kind() {
                    DeviceType::Memory => {
                        let len = region.device.len();
                        if fa < len && fa + 1 < len {
                            Ok(
                                word_from_bytes(
                                    region.device.get_byte(fa),
                                    region.device.get_byte(fa + 1),
                                ),
                            )
                        } else {
                            Err(VmError::DeviceOverrun(address))
                        }
                    },
                    DeviceType::Stdout => {
                        if fa < 0xFFFF {
                            Ok(0u16)
                        } else {
                            Err(VmError::DeviceOverrun(address))
                        }
                    },
                }
            },
        }
    }

    /// Reads one byte; the single-byte counterpart of `get_uint_16`.
    pub fn get_uint_8(&self, address: u16) -> (r: Result<u8, VmError>)
        requires
            self.wf(),
        ensures
            r == spec_get_byte(self@, address),
    {
        self.get_byte(address)
    }

    /// Writes a 16-bit word: two big-endian byte writes through one region.
    pub fn set_uint_16(&mut self, address: u16, value: u16) -> (r: Result<(), VmError>)
        requires
            old(self).wf(),
        ensures
            final(self).wf(),
            match spec_set_word(old(self)@, address, value) {
                Ok(m) => r is Ok && final(self)@ == m,
                Err(e) => r == Err::<(), VmError>(e) && final(self)@ == old(self)@,
            },
    {
        match self.find_region(address) {
            None => Err(VmError::UnmappedAddress(address)),
            Some(i) => {
                proof {
                    lemma_region_index_props(self@.regions, address);
                    assert(self@.regions[i as int] == self.regions@[i as int]@);
                }
                let region_start = self.regions[i].start;
                let region_remap = self.regions[i].remap;
                let fa: u16 = if region_remap {
                    address - region_start
                } else {
                    address
                };
                proof {
                    assert(fa as int == translate(self@.regions[i as int], address));
                }
                let hi = word_hi(value);
                let lo = word_lo(value);
                let is_memory = match self.regions[i].device.kind() {
                    DeviceType::Memory => true,
                    DeviceType::Stdout => false,
                };
                if is_memory {
                    let len = self.regions[i].device.len();
                    if fa < len && fa + 1 < len {
                        let region = &mut self.regions[i];
                        let act1 = region.device.set_byte(hi, fa);
                        let act2 = region.device.set_byte(lo, fa + 1);
                        proof {
                            let si = i as int;
                            let oldv = old(self)@;
                            let newr = self.regions@[si]@;
                            assert(newr.device.bytes =~= oldv.regions[si].device.bytes.update(
                                fa as int,
                                hi_byte(value),
                            ).update(fa + 1, lo_byte(value)));
                            assert(self@.regions =~= oldv.regions.update(si, newr));
                            assert(self@ =~~= spec_set_word(oldv, address, value)->Ok_0);
                        }
                        Ok(())
                    } else {
                        Err(VmError::DeviceOverrun(address))
                    }
                } else {
                    if fa < 0xFFFF {
                        let region = &mut self.regions[i];
                        let act1 = region.device.set_byte(hi, fa);
                        let act2 = region.device.set_byte(lo, fa + 1);
                        match act1 {
                            Some(a) => {
                                self.output.push(a);
                            },
                            None => {},
                        }
                        match act2 {
                            Some(a) => {
                                self.output.push(a);
                            },
                            None => {},
                        }
                        proof {
                            let oldv = old(self)@;
                            assert(self@.regions =~= oldv.regions);
                            assert(self@.output =~= oldv.output.push(
                                output_action(hi_byte(value), fa),
                            ).push(output_action(lo_byte(value), (fa + 1) as u16)));
                            assert(self@ =~~= spec_set_word(oldv, address, value)->Ok_0);
                        }
                        Ok(())
                    } else {
                        Err(VmError::DeviceOverrun(address))
                    }
                }
            },
        }
    }

    /// Writes one byte; the single-byte counterpart of `set_uint_16`.
    pub fn set_uint_8(&mut self, address: u16, value: u8) -> (r: Result<(), VmError>)
        requires
            old(self).wf(),
        ensures
            final(self).wf(),
            match spec_set_byte(old(self)@, value, address) {
                Ok(m) => r is Ok && final(self)@ == m,
                Err(e) => r == Err::<(), VmError>(e) && final(self)@ == old(self)@,
            },
    {
        self.set_byte(value, address)
    }

    /// Reads `size` bytes starting at `address` through the owning
    /// region, without side effects: the debug view of memory.
    pub fn view_memory(&self, address: u16, size: usize) -> (r: Result<Vec<u8>, VmError>)
        requires
            self.wf(),
        ensures
            match spec_view_memory(self@, address, size) {
                Ok(bytes) => r is Ok && r->Ok_0@ == bytes,
                Err(e) => r == Err::<Vec<u8>, VmError>(e),
            },
    {
        match self.find_region(address) {
            None => Err(VmError::UnmappedAddress(address)),
            Some(i) => {
                proof {
                    lemma_region_index_props(self@.regions, address);
                    assert(self@.regions[i as int] == self.regions@[i as int]@);
                }
                let region = &self.regions[i];
                let fa: u16 = if region.remap {
                    address - region.start
                } else {
                    address
                };
                proof {
                    assert(fa as int == translate(self@.regions[i as int], address));
                }
                let mut out: Vec<u8> = Vec::new();
                match region.device.kind() {
                    DeviceType::Memory => {
                        let len = region.device.len();
                        if size <= len as usize && fa as usize <= len as usize - size {
                            let mut k: usize = 0;
                            while k < size
                                invariant
                                    k <= size,
                                    size <= 0xFFFF,
                                    fa + size <= region.device@.bytes.len(),
                                    region.device@.bytes.len() <= 0xFFFF,
                                    region.device.wf(),
                                    region.device@.kind == DeviceType::Memory,
                                    out@ == Seq::new(
                                        k as nat,
                                        |j: int| region.device@.bytes[fa + j],
                                    ),
                                decreases size - k,
                            {
                                let b = region.device.get_byte(fa + (k as u16));
                                out.push(b);
                                k = k + 1;
                                proof {
                                    assert(out@ =~= Seq::new(
                                        k as nat,
                                        |j: int| region.device@.bytes[fa + j],
                                    ));
                                }
                            }
                            Ok(out)
                        } else {
                            Err(VmError::DeviceOverrun(address))
                        }
                    },
                    DeviceType::Stdout => {
                        let mut k: usize = 0;
                        while k < size
                            invariant
                                k <= size,
                                out@ == zero_seq(k as nat),
                            decreases size - k,
                        {
                            out.push(0x00);
                            k = k + 1;
                            proof {
                                assert(out@ =~= zero_seq(k as nat));
                            }
                        }
                        Ok(out)
                    },
                }
            },
        }
    }

    /// Hands over the screen actions accumulated so far, oldest first,
    /// and clears the queue.
    pub fn take_output(&mut self) -> (out: Vec<OutputAction>)
        requires
            old(self).wf(),
        ensures
            final(self).wf(),
            out@ == old(self)@.output,
            final(self)@ == (MapperView {
                regions: old(self)@.regions,
                output: Seq::<OutputAction>::empty(),
            }),
    {
        let mut out: Vec<OutputAction> = Vec::new();
        core::mem::swap(&mut out, &mut self.output);
        proof {
            assert(self@ =~~= (MapperView {
                regions: old(self)@.regions,
                output: Seq::<OutputAction>::empty(),
            }));
        }
        out
    }
}

} // verus!
