use vstd::prelude::*;

verus! {

/// The number of addresses on the bus.
pub const MAX_MEMORY_SIZE: usize = 0x10000;

/// The address whose low byte is `lo` and high byte is `hi` (little-endian).
pub open spec fn address_of(lo: u8, hi: u8) -> u16 {
    (lo as int + 256 * (hi as int)) as u16
}

/// The low byte of an address.
pub open spec fn low_byte(address: u16) -> u8 {
    (address as int % 256) as u8
}

/// The high byte of an address.
pub open spec fn high_byte(address: u16) -> u8 {
    (address as int / 256) as u8
}

/// An integer taken modulo the size of the address space.
pub open spec fn wrap16(x: int) -> u16 {
    (x % 0x10000) as u16
}

/// Combines a low and a high byte into an address, little-endian.
pub fn lo_hi_to_address(lo: u8, hi: u8) -> (r: u16)
    ensures
        r == address_of(lo, hi),
        r as int == lo as int + 256 * (hi as int),
{
    lo as u16 + (hi as u16) * 256
}

/// Combines the first two bytes of a slice into an address, little-endian.
pub fn bytes_to_address(bytes: &[u8]) -> (r: u16)
    requires
        bytes@.len() >= 2,
    ensures
        r == address_of(bytes@[0], bytes@[1]),
{
    lo_hi_to_address(bytes[0], bytes[1])
}

/// Splits an address into its low and its high byte, in that order.
pub fn address_to_bytes(address: u16) -> (r: [u8; 2])
    ensures
        r@ == seq![low_byte(address), high_byte(address)],
{
    [(address % 256) as u8, (address / 256) as u8]
}

/// Splitting an address into its bytes and combining them gives the address back.
pub proof fn lemma_address_round_trip(address: u16)
    ensures
        address_of(low_byte(address), high_byte(address)) == address,
{
}

/// Combining two bytes into an address and splitting it gives the bytes back.
pub proof fn lemma_bytes_round_trip(lo: u8, hi: u8)
    ensures
        low_byte(address_of(lo, hi)) == lo,
        high_byte(address_of(lo, hi)) == hi,
{
}

/// Something that serves 8-bit reads and writes at 16-bit addresses.
pub trait Addressable: Sized {
    /// The invariant of the device.
    spec fn wf(&self) -> bool;

    /// The size that the device reports.
    spec fn spec_size(&self) -> nat;

    /// Whether the device may be accessed at this address.
    spec fn serves(&self, address: u16) -> bool;

    /// The byte that a read at this address gives.
    spec fn byte_at(&self, address: u16) -> u8;

    /// Whether a write at this address is kept.
    spec fn keeps_write(&self, address: u16) -> bool;

    /// What a write of `byte` at `address` does inside the device, beyond what
    /// its reads show: `after` is the device after the write.
    spec fn write_effect(&self, after: Self, address: u16, byte: u8) -> bool;

    fn size(&self) -> (r: usize)
        requires
            self.wf(),
        ensures
            r == self.spec_size(),
    ;

    fn read_byte(&self, address: u16) -> (r: u8)
        requires
            self.wf(),
            self.serves(address),
        ensures
            r == self.byte_at(address),
    ;

    fn write_byte(&mut self, address: u16, byte: u8)
        requires
            old(self).wf(),
            old(self).serves(address),
        ensures
            final(self).wf(),
            final(self).spec_size() == old(self).spec_size(),
            forall|a: u16| #[trigger] final(self).serves(a) == old(self).serves(a),
            forall|a: u16| #[trigger] final(self).keeps_write(a) == old(self).keeps_write(a),
            forall|a: u16|
                #[trigger] final(self).byte_at(a) == if a == address && old(self).keeps_write(
                    address,
                ) {
                    byte
                } else {
                    old(self).byte_at(a)
                },
            old(self).write_effect(*final(self), address, byte),
    ;

    /// Reads the bytes at `address` and at the address after it (wrapping).
    fn read_two_bytes(&self, address: u16) -> (r: [u8; 2])
        requires
            self.wf(),
            self.serves(address),
            self.serves(address.wrapping_add(1)),
        ensures
            r@ == seq![self.byte_at(address), self.byte_at(address.wrapping_add(1))],
    {
        [self.read_byte(address), self.read_byte(address.wrapping_add(1))]
    }

    /// Reads the little-endian address stored at `address`.
    fn read_address(&self, address: u16) -> (r: u16)
        requires
            self.wf(),
            self.serves(address),
            self.serves(address.wrapping_add(1)),
        ensures
            r == address_of(self.byte_at(address), self.byte_at(address.wrapping_add(1))),
    {
        let b = self.read_two_bytes(address);
        lo_hi_to_address(b[0], b[1])
    }

    /// Writes the bytes one after the other from `start_address` on (wrapping).
    fn write_bytes(&mut self, start_address: u16, bytes: &[u8])
        requires
            old(self).wf(),
            bytes@.len() <= 0x10000,
            forall|i: int| 0 <= i < bytes@.len() ==> old(self).serves(#[trigger] wrap16(start_address + i)),
        ensures
            final(self).wf(),
            final(self).spec_size() == old(self).spec_size(),
            forall|a: u16| #[trigger] final(self).serves(a) == old(self).serves(a),
            forall|a: u16| #[trigger] final(self).keeps_write(a) == old(self).keeps_write(a),
            forall|a: u16|
                #[trigger] final(self).byte_at(a) == if (a - start_address) % 0x10000 < bytes@.len()
                    && old(self).keeps_write(a) {
                    bytes@[(a - start_address) % 0x10000]
                } else {
                    old(self).byte_at(a)
                },
    {
        let mut address: u16 = start_address;
        let mut i: usize = 0;
        while i < bytes.len()
            invariant
                i <= bytes@.len() <= 0x10000,
                address == wrap16(start_address + i),
                self.wf(),
                self.spec_size() == old(self).spec_size(),
                forall|i: int| 0 <= i < bytes@.len() ==> old(self).serves(#[trigger] wrap16(start_address + i)),
                forall|a: u16| #[trigger] self.serves(a) == old(self).serves(a),
                forall|a: u16| #[trigger] self.keeps_write(a) == old(self).keeps_write(a),
                forall|a: u16|
                    #[trigger] self.byte_at(a) == if (a - start_address) % 0x10000 < i
                        && old(self).keeps_write(a) {
                        bytes@[(a - start_address) % 0x10000]
                    } else {
                        old(self).byte_at(a)
                    },
            decreases bytes@.len() - i,
        {
            self.write_byte(address, bytes[i]);
            proof {
                assert forall|a: u16|
                    #[trigger] self.byte_at(a) == if (a - start_address) % 0x10000 < i + 1
                        && old(self).keeps_write(a) {
                        bytes@[(a - start_address) % 0x10000]
                    } else {
                        old(self).byte_at(a)
                    } by {
                    if a == address {
                        assert((a - start_address) % 0x10000 == i);
                    } else {
                        assert((a - start_address) % 0x10000 != i);
                    }
                }
            }
            address = address.wrapping_add(1);
            i = i + 1;
        }
    }
}

/// A block of bytes addressed from 0, used both as RAM and as ROM contents.
#[derive(Clone)]
pub struct Ram {
    data: Vec<u8>,
}

impl Ram {
    /// The bytes of the block.
    pub closed spec fn contents(&self) -> Seq<u8> {
        self.data@
    }

    /// A block of `size` zero bytes.
    pub fn new(size: usize) -> (r: Ram)
        ensures
            r.contents() == Seq::new(size as nat, |i: int| 0u8),
    {
        let data = vec![0u8; size];
        proof {
            assert(data@ =~= Seq::new(size as nat, |i: int| 0u8));
        }
        Ram { data }
    }

    /// A block holding a copy of `data`.
    pub fn from(data: &[u8]) -> (r: Ram)
        ensures
            r.contents() == data@,
    {
        let mut v: Vec<u8> = Vec::new();
        let mut i: usize = 0;
        while i < data.len()
            invariant
                i <= data@.len(),
                v@ == data@.subrange(0, i as int),
            decreases data@.len() - i,
        {
            v.push(data[i]);
            i = i + 1;
            proof {
                assert(v@ =~= data@.subrange(0, i as int));
            }
        }
        proof {
            assert(v@ =~= data@);
        }
        Ram { data: v }
    }
}

impl Ram {
    /// A block serves, and keeps writes at, every address below its size.
    pub proof fn lemma_serves_below_size(&self, address: u16)
        ensures
            self.wf(),
            self.spec_size() == self.contents().len(),
            self.serves(address) == (address < self.spec_size()),
            self.keeps_write(address) == (address < self.spec_size()),
            self.byte_at(address) == if address < self.spec_size() {
                self.contents()[address as int]
            } else {
                0
            },
    {
    }
}

impl Default for Ram {
    /// A block that covers the whole address space, all zero.
    fn default() -> (r: Ram)
        ensures
            r.contents() == Seq::new(MAX_MEMORY_SIZE as nat, |i: int| 0u8),
    {
        Ram::new(MAX_MEMORY_SIZE)
    }
}

impl Addressable for Ram {
    closed spec fn wf(&self) -> bool {
        true
    }

    closed spec fn spec_size(&self) -> nat {
        self.data@.len()
    }

    closed spec fn serves(&self, address: u16) -> bool {
        address < self.data@.len()
    }

    closed spec fn byte_at(&self, address: u16) -> u8 {
        if address < self.data@.len() {
            self.data@[address as int]
        } else {
            0
        }
    }

    closed spec fn keeps_write(&self, address: u16) -> bool {
        address < self.data@.len()
    }

    /// A block has nothing inside it besides its bytes.
    closed spec fn write_effect(&self, after: Self, address: u16, byte: u8) -> bool {
        true
    }

    fn size(&self) -> (r: usize) {
        self.data.len()
    }

    fn read_byte(&self, address: u16) -> (r: u8) {
        self.data[address as usize]
    }

    fn write_byte(&mut self, address: u16, byte: u8) {
        self.data.set(address as usize, byte);
        assert(old(self).write_effect(*self, address, byte));
    }
}

/// How a segment of the bus treats writes.
#[derive(Clone, Copy, Debug, PartialEq, Eq, Structural)]
pub enum SegmentKind {
    /// Writes are kept.
    Ram,
    /// Writes are dropped.
    Rom,
}

/// A block mapped at the addresses `start..=end` of the bus.
struct Segment {
    start: u16,
    end: u16,
    kind: SegmentKind,
    ram: Ram,
}

/// Whether a segment covers an address.
closed spec fn covers(seg: Segment, address: u16) -> bool {
    seg.start <= address <= seg.end
}

/// The index of the first segment, from `i` on, that covers an address.
closed spec fn owner_from(segs: Seq<Segment>, address: u16, i: int) -> Option<int>
    decreases segs.len() - i,
{
    if i < 0 || i >= segs.len() {
        None
    } else if covers(segs[i], address) {
        Some(i)
    } else {
        owner_from(segs, address, i + 1)
    }
}

/// A segment's range is aligned to pages and its block fills it exactly.
closed spec fn segment_wf(seg: Segment) -> bool {
    &&& seg.start <= seg.end
    &&& seg.start % 256 == 0
    &&& seg.end % 256 == 255
    &&& seg.ram.data@.len() == seg.end - seg.start + 1
}

/// The owner found from `i` on covers the address and lies in `i..len`.
proof fn lemma_owner_found(segs: Seq<Segment>, address: u16, i: int)
    requires
        0 <= i,
    ensures
        match owner_from(segs, address, i) {
            Some(j) => i <= j < segs.len() && covers(segs[j], address),
            None => true,
        },
    decreases segs.len() - i,
{
    if i < segs.len() && !covers(segs[i], address) {
        lemma_owner_found(segs, address, i + 1);
    }
}

/// Replacing a segment by one with the same range leaves every owner in place.
proof fn lemma_owner_update(segs: Seq<Segment>, k: int, seg: Segment, address: u16, i: int)
    requires
        0 <= k < segs.len(),
        seg.start == segs[k].start,
        seg.end == segs[k].end,
        0 <= i,
    ensures
        owner_from(segs.update(k, seg), address, i) == owner_from(segs, address, i),
    decreases segs.len() - i,
{
    if i < segs.len() {
        lemma_owner_update(segs, k, seg, address, i + 1);
    }
}

/// Putting a segment in front shifts the owners found in the rest by one.
proof fn lemma_owner_prepend(segs: Seq<Segment>, seg: Segment, address: u16, i: int)
    requires
        0 <= i,
    ensures
        owner_from(segs.insert(0, seg), address, i + 1) == match owner_from(segs, address, i) {
            Some(j) => Some(j + 1),
            None => None::<int>,
        },
    decreases segs.len() - i,
{
    if i < segs.len() {
        lemma_owner_prepend(segs, seg, address, i + 1);
    }
}

/// The address space as seen through a stack of RAM and ROM segments.
/// Where two segments overlap, the one added last serves the access.
pub struct Bus {
    segments: Vec<Segment>,
}

impl Bus {
    /// The index of the segment that serves an address: the first one, counting
    /// from the one added last, that covers it.
    pub closed spec fn owner(&self, address: u16) -> Option<int> {
        owner_from(self.segments@, address, 0)
    }

    /// Whether a segment serves this address.
    pub closed spec fn mapped(&self, address: u16) -> bool {
        self.owner(address) is Some
    }

    /// The number of segments on the bus.
    pub closed spec fn segment_count(&self) -> nat {
        self.segments@.len()
    }

    /// A bus with no segment: every read gives 0 and every write is dropped.
    pub fn new() -> (r: Bus)
        ensures
            r.wf(),
            r.segment_count() == 0,
            forall|a: u16| !(#[trigger] r.mapped(a)),
            forall|a: u16| #[trigger] r.byte_at(a) == 0,
            forall|a: u16| !(#[trigger] r.keeps_write(a)),
    {
        Bus { segments: Vec::new() }
    }

    /// Maps `ram` at `start`, over whatever was mapped there before.
    pub fn add_ram(self, ram: Ram, start: u16) -> (r: Result<Bus, String>)
        requires
            self.wf(),
        ensures
            match r {
                Ok(bus) => added(self, bus, start, ram.contents(), true),
                Err(_) => !placeable(start, ram.contents().len()),
            },
            r is Ok <==> placeable(start, ram.contents().len()),
    {
        self.add_addressable(ram, start, SegmentKind::Ram)
    }

    /// Maps a read-only copy of `rom_data` at `start`, over whatever was mapped
    /// there before.
    pub fn add_rom(self, rom_data: &[u8], start: u16) -> (r: Result<Bus, String>)
        requires
            self.wf(),
        ensures
            match r {
                Ok(bus) => added(self, bus, start, rom_data@, false),
                Err(_) => !placeable(start, rom_data@.len()),
            },
            r is Ok <==> placeable(start, rom_data@.len()),
    {
        let rom = Ram::from(rom_data);
        self.add_addressable(rom, start, SegmentKind::Rom)
    }

    /// Maps a read-only copy of `rom_data` so that its last byte is at `$FFFF`.
    pub fn add_rom_at_end(self, rom_data: &[u8]) -> (r: Result<Bus, String>)
        requires
            self.wf(),
        ensures
            match r {
                Ok(bus) => added(self, bus, (0x10000 - rom_data@.len()) as u16, rom_data@, false),
                Err(_) => !placeable_at_end(rom_data@.len()),
            },
            r is Ok <==> placeable_at_end(rom_data@.len()),
    {
        if rom_data.len() == 0 || rom_data.len() > MAX_MEMORY_SIZE {
            return Err(String::from_str("ROM does not fit in the address space"));
        }
        let start = (MAX_MEMORY_SIZE - rom_data.len()) as u16;
        self.add_rom(rom_data, start)
    }

    fn add_addressable(self, ram: Ram, start: u16, kind: SegmentKind) -> (r: Result<
        Bus,
        String,
    >)
        requires
            self.wf(),
        ensures
            match r {
                Ok(bus) => added(self, bus, start, ram.contents(), kind == SegmentKind::Ram),
                Err(_) => !placeable(start, ram.contents().len()),
            },
            r is Ok <==> placeable(start, ram.contents().len()),
    {
        let size = ram.size();
        if size == 0 || size - 1 > (0xffff - start) as usize {
            return Err(String::from_str("Start address is greater than end address"));
        }
        let end = start + (size - 1) as u16;
        if start % 0x100 != 0 || end % 0x100 != 0xff {
            return Err(String::from_str("Start and end must be aligned with page boundary"));
        }
        let segment = Segment { start, end, kind, ram };
        let ghost seg = segment;
        let ghost old_segs = self.segments@;
        let mut segments = self.segments;
        segments.insert(0, segment);
        let bus = Bus { segments };
        proof {
            assert(bus.segments@ == old_segs.insert(0, seg));
            assert forall|a: u16| #[trigger] bus.owner(a) == if start <= a <= end {
                Some(0int)
            } else {
                match owner_from(old_segs, a, 0) {
                    Some(j) => Some(j + 1),
                    None => None::<int>,
                }
            } by {
                lemma_owner_prepend(old_segs, seg, a, 0);
            }
            assert forall|i: int| 0 <= i < bus.segments@.len() implies segment_wf(
                #[trigger] bus.segments@[i],
            ) by {
                if i > 0 {
                    assert(bus.segments@[i] == old_segs[i - 1]);
                }
            }
            assert forall|a: u16| #[trigger]
                bus.byte_at(a) == if start <= a <= end {
                    ram.contents()[a - start]
                } else {
                    self.byte_at(a)
                } by {
                lemma_owner_found(old_segs, a, 0);
                if !(start <= a <= end) {
                    match owner_from(old_segs, a, 0) {
                        Some(j) => {
                            assert(bus.segments@[j + 1] == old_segs[j]);
                        },
                        None => {},
                    }
                }
            }
            assert forall|a: u16| #[trigger]
                bus.keeps_write(a) == if start <= a <= end {
                    kind == SegmentKind::Ram
                } else {
                    self.keeps_write(a)
                } by {
                lemma_owner_found(old_segs, a, 0);
                if !(start <= a <= end) {
                    match owner_from(old_segs, a, 0) {
                        Some(j) => {
                            assert(bus.segments@[j + 1] == old_segs[j]);
                        },
                        None => {},
                    }
                }
            }
        }
        Ok(bus)
    }

    /// The block of the first segment that starts at `address`, if any.
    pub fn get_segment_at_start_address(&self, address: u16) -> (r: Option<&Ram>)
        ensures
            r is Some ==> exists|i: int|
                0 <= i < self.segment_count() && self.segment_start(i) == address && r->0
                    == self.segment_block(i) && forall|j: int|
                    0 <= j < i ==> self.segment_start(j) != address,
            r is None ==> forall|i: int|
                0 <= i < self.segment_count() ==> self.segment_start(i) != address,
    {
        let mut i: usize = 0;
        while i < self.segments.len()
            invariant
                i <= self.segments@.len(),
                forall|j: int| 0 <= j < i ==> self.segment_start(j) != address,
            decreases self.segments@.len() - i,
        {
            if self.segments[i].start == address {
                assert(self.segment_start(i as int) == address);
                return Some(&self.segments[i].ram);
            }
            i = i + 1;
        }
        None
    }

    /// The first address of the `i`-th segment, counting from the one added last.
    pub closed spec fn segment_start(&self, i: int) -> u16 {
        self.segments@[i].start
    }

    /// The block of the `i`-th segment, counting from the one added last.
    pub closed spec fn segment_block(&self, i: int) -> Ram {
        self.segments@[i].ram
    }

    /// The last address of the `i`-th segment, counting from the one added last.
    pub closed spec fn segment_end(&self, i: int) -> u16 {
        self.segments@[i].end
    }

    /// Whether the `i`-th segment is the one that serves `address`: it covers
    /// the address and no segment added after it does.
    pub open spec fn serving_segment(&self, i: int, address: u16) -> bool {
        &&& 0 <= i < self.segment_count()
        &&& self.segment_start(i) <= address <= self.segment_end(i)
        &&& forall|j: int|
            0 <= j < i ==> !(#[trigger] self.segment_start(j) <= address <= self.segment_end(j))
    }

    /// The owner of an address is exactly its serving segment.
    proof fn lemma_owner_serving(&self, address: u16, i: int)
        ensures
            (self.owner(address) == Some(i)) == self.serving_segment(i, address),
    {
        let segs = self.segments@;
        lemma_owner_serving_from(segs, address, 0, i);
        if self.serving_segment(i, address) {
            assert forall|j: int| 0 <= j < i implies !covers(#[trigger] segs[j], address) by {
                assert(!(self.segment_start(j) <= address <= self.segment_end(j)));
            }
        }
        if self.owner(address) == Some(i) {
            assert forall|j: int| 0 <= j < i implies !(#[trigger] self.segment_start(j) <= address
                <= self.segment_end(j)) by {
                assert(!covers(segs[j], address));
            }
        }
    }
}

proof fn lemma_owner_serving_from(segs: Seq<Segment>, address: u16, k: int, i: int)
    requires
        0 <= k,
    ensures
        (owner_from(segs, address, k) == Some(i)) == (k <= i < segs.len() && covers(
            segs[i],
            address,
        ) && forall|j: int| k <= j < i ==> !covers(#[trigger] segs[j], address)),
    decreases segs.len() - k,
{
    if k < segs.len() && !covers(segs[k], address) {
        lemma_owner_serving_from(segs, address, k + 1, i);
        if k <= i < segs.len() && covers(segs[i], address) && forall|j: int|
            k + 1 <= j < i ==> !covers(#[trigger] segs[j], address) {
            assert forall|j: int| k <= j < i implies !covers(#[trigger] segs[j], address) by {
                if j != k {
                    assert(k + 1 <= j < i);
                }
            }
        }
    }
}

/// Whether a block of `len` bytes can be mapped at `start`: it is not empty,
/// ends within the address space, and starts and ends on page boundaries.
pub open spec fn placeable(start: u16, len: nat) -> bool {
    &&& len > 0
    &&& start + len <= 0x10000
    &&& start % 256 == 0
    &&& (start + len) % 256 == 0
}

/// Whether a block of `len` bytes can be mapped so that it ends at `$FFFF`.
pub open spec fn placeable_at_end(len: nat) -> bool {
    0 < len <= 0x10000 && len % 256 == 0
}

/// `bus` is `old` with a block holding `data` mapped on top at `start`,
/// keeping writes if `writable`.
pub open spec fn added(old: Bus, bus: Bus, start: u16, data: Seq<u8>, writable: bool) -> bool {
    &&& bus.wf()
    &&& bus.segment_count() == old.segment_count() + 1
    &&& bus.segment_start(0) == start
    &&& bus.segment_end(0) == start + data.len() - 1
    &&& bus.segment_block(0).contents() == data
    &&& forall|i: int|
        0 <= i < old.segment_count() ==> {
            &&& #[trigger] bus.segment_start(i + 1) == old.segment_start(i)
            &&& bus.segment_end(i + 1) == old.segment_end(i)
            &&& bus.segment_block(i + 1) == old.segment_block(i)
        }
    &&& forall|a: u16| #[trigger]
        bus.mapped(a) == (start <= a < start + data.len() || old.mapped(a))
    &&& forall|a: u16| #[trigger]
        bus.byte_at(a) == if start <= a < start + data.len() {
            data[a - start]
        } else {
            old.byte_at(a)
        }
    &&& forall|a: u16| #[trigger]
        bus.keeps_write(a) == if start <= a < start + data.len() {
            writable
        } else {
            old.keeps_write(a)
        }
}

impl Addressable for Bus {
    closed spec fn wf(&self) -> bool {
        forall|i: int| 0 <= i < self.segments@.len() ==> segment_wf(#[trigger] self.segments@[i])
    }

    open spec fn spec_size(&self) -> nat {
        MAX_MEMORY_SIZE as nat
    }

    open spec fn serves(&self, address: u16) -> bool {
        true
    }

    closed spec fn byte_at(&self, address: u16) -> u8 {
        match self.owner(address) {
            Some(i) => self.segments@[i].ram.byte_at((address - self.segments@[i].start) as u16),
            None => 0,
        }
    }

    closed spec fn keeps_write(&self, address: u16) -> bool {
        match self.owner(address) {
            Some(i) => self.segments@[i].kind == SegmentKind::Ram,
            None => false,
        }
    }

    /// A write reaches only the block of the segment that serves the address,
    /// at offset `address - start`, and only where that segment keeps writes;
    /// every other block, and every segment's start, stays as it was.
    closed spec fn write_effect(&self, after: Self, address: u16, byte: u8) -> bool {
        &&& after.segment_count() == self.segment_count()
        &&& forall|i: int|
            0 <= i < self.segment_count() ==> {
                &&& #[trigger] after.segment_start(i) == self.segment_start(i)
                &&& after.segment_end(i) == self.segment_end(i)
                &&& after.segment_block(i).contents() == if self.serving_segment(i, address)
                    && self.keeps_write(address) {
                    self.segment_block(i).contents().update(
                        address - self.segment_start(i),
                        byte,
                    )
                } else {
                    self.segment_block(i).contents()
                }
            }
    }

    fn size(&self) -> (r: usize) {
        MAX_MEMORY_SIZE
    }

    fn read_byte(&self, address: u16) -> (r: u8) {
        let mut i: usize = 0;
        while i < self.segments.len()
            invariant
                i <= self.segments@.len(),
                self.wf(),
                owner_from(self.segments@, address, 0) == owner_from(self.segments@, address, i as int),
            decreases self.segments@.len() - i,
        {
            let seg = &self.segments[i];
            if seg.start <= address && address <= seg.end {
                assert(segment_wf(self.segments@[i as int]));
                return seg.ram.read_byte(address - seg.start);
            }
            i = i + 1;
        }
        0
    }

    fn write_byte(&mut self, address: u16, byte: u8) {
        let n = self.segments.len();
        let mut i: usize = 0;
        while i < n
            invariant
                n == self.segments@.len(),
                i <= n,
                *self == *old(self),
                self.wf(),
                owner_from(self.segments@, address, 0) == owner_from(self.segments@, address, i as int),
            decreases n - i,
        {
            if self.segments[i].start <= address && address <= self.segments[i].end {
                if self.segments[i].kind == SegmentKind::Ram {
                    let ghost old_segs = self.segments@;
                    let mut seg = self.segments.remove(i);
                    assert(segment_wf(seg));
                    let offset = address - seg.start;
                    let ghost old_data = seg.ram.data@;
                    seg.ram.write_byte(offset, byte);
                    proof {
                        assert forall|k: int| 0 <= k < old_data.len() implies seg.ram.data@[k]
                            == old_data.update(offset as int, byte)[k] by {
                            let a = k as u16;
                            assert(seg.ram.byte_at(a) == seg.ram.data@[k]);
                        }
                        assert(seg.ram.data@ =~= old_data.update(offset as int, byte));
                    }
                    let ghost new_seg = seg;
                    self.segments.insert(i, seg);
                    proof {
                        assert(self.segments@ =~= old_segs.update(i as int, new_seg));
                        assert forall|j: int| 0 <= j < self.segments@.len() implies segment_wf(
                            #[trigger] self.segments@[j],
                        ) by {
                            if j != i {
                                assert(self.segments@[j] == old_segs[j]);
                            }
                        }
                        assert forall|a: u16| #[trigger]
                            self.owner(a) == owner_from(old_segs, a, 0) by {
                            lemma_owner_update(old_segs, i as int, new_seg, a, 0);
                        }
                        assert forall|a: u16| #[trigger]
                            self.byte_at(a) == if a == address { byte } else { old(self).byte_at(a) }
                            by {
                            lemma_owner_found(old_segs, a, 0);
                            if let Some(j) = owner_from(old_segs, a, 0) {
                                if j == i {
                                    let k = (a - new_seg.start) as u16;
                                    assert(new_seg.ram.byte_at(k) == if k == offset { byte } else {
                                        old_segs[j].ram.byte_at(k)
                                    });
                                }
                            }
                        }
                        assert forall|a: u16| #[trigger]
                            self.keeps_write(a) == old(self).keeps_write(a) by {
                            lemma_owner_found(old_segs, a, 0);
                        }
                        assert(old(self).owner(address) == Some(i as int));
                        assert forall|j: int| 0 <= j < old(self).segment_count() implies {
                            &&& #[trigger] self.segment_start(j) == old(self).segment_start(j)
                            &&& self.segment_end(j) == old(self).segment_end(j)
                            &&& self.segment_block(j).contents() == if old(self).serving_segment(
                                j,
                                address,
                            ) && old(self).keeps_write(address) {
                                old(self).segment_block(j).contents().update(
                                    address - old(self).segment_start(j),
                                    byte,
                                )
                            } else {
                                old(self).segment_block(j).contents()
                            }
                        } by {
                            old(self).lemma_owner_serving(address, j);
                            if j != i {
                                assert(self.segments@[j] == old_segs[j]);
                            }
                        }
                        assert(self.segment_count() == old(self).segment_count());
                    }
                } else {
                    assert(old(self).owner(address) == Some(i as int));
                    assert forall|j: int| #![trigger old(self).serving_segment(j, address)]
                        old(self).serving_segment(j, address) implies j == i by {
                        old(self).lemma_owner_serving(address, j);
                    }
                    assert(old(self).write_effect(*self, address, byte));
                }
                return;
            }
            i = i + 1;
        }
        assert(old(self).owner(address) is None);
        assert forall|j: int| !old(self).serving_segment(j, address) by {
            old(self).lemma_owner_serving(address, j);
        }
        assert(old(self).write_effect(*self, address, byte));
    }
}

/// A bus with nothing connected: reads give 0 and writes are dropped.
#[derive(Debug)]
pub struct UnconnectedBus {}

impl Addressable for UnconnectedBus {
    closed spec fn wf(&self) -> bool {
        true
    }

    closed spec fn spec_size(&self) -> nat {
        0
    }

    closed spec fn serves(&self, address: u16) -> bool {
        true
    }

    closed spec fn byte_at(&self, address: u16) -> u8 {
        0
    }

    closed spec fn keeps_write(&self, address: u16) -> bool {
        false
    }

    closed spec fn write_effect(&self, after: Self, address: u16, byte: u8) -> bool {
        true
    }

    fn size(&self) -> (r: usize) {
        0
    }

    fn read_byte(&self, address: u16) -> (r: u8) {
        0
    }

    fn write_byte(&mut self, address: u16, byte: u8) {
        assert(old(self).write_effect(*self, address, byte));
    }
}

} // verus!
