use vstd::prelude::*;

use crate::bytes::{field, read_le};
use crate::error::{error_for_raw, LoaderError};
use crate::status::{EfiStatusCode, ERROR_BIT};

verus! {

/// The declared size of one memory descriptor record, in bytes. Firmware
/// may report a larger stride between records.
pub const DESCRIPTOR_SIZE: usize = 40;

/// The platform page size, in bytes.
pub const PAGE_SIZE: u64 = 4096;

/// The classification of a region of physical memory.
#[derive(Debug, Clone, Copy, PartialEq, Eq, Structural)]
pub enum MemoryType {
    EfiReservedMemoryType,
    EfiLoaderCode,
    EfiLoaderData,
    EfiBootServicesCode,
    EfiBootServicesData,
    EfiRuntimeServicesCode,
    EfiRuntimeServicesData,
    EfiConventionalMemory,
    EfiUnusableMemory,
    EfiACPIRecaimMemory,
    EfiACPIMemoryNVS,
    EfiMemoryMappedIO,
    EfiMemoryMappedIOPortSpace,
    EfiPalCode,
    EfiPersistentMemory,
    EfiUnacceptedMemoryType,
    EfiMaxMemoryType,
}

impl MemoryType {
    /// The number firmware uses for this classification.
    pub open spec fn raw(self) -> u32 {
        match self {
            MemoryType::EfiReservedMemoryType => 0,
            MemoryType::EfiLoaderCode => 1,
            MemoryType::EfiLoaderData => 2,
            MemoryType::EfiBootServicesCode => 3,
            MemoryType::EfiBootServicesData => 4,
            MemoryType::EfiRuntimeServicesCode => 5,
            MemoryType::EfiRuntimeServicesData => 6,
            MemoryType::EfiConventionalMemory => 7,
            MemoryType::EfiUnusableMemory => 8,
            MemoryType::EfiACPIRecaimMemory => 9,
            MemoryType::EfiACPIMemoryNVS => 10,
            MemoryType::EfiMemoryMappedIO => 11,
            MemoryType::EfiMemoryMappedIOPortSpace => 12,
            MemoryType::EfiPalCode => 13,
            MemoryType::EfiPersistentMemory => 14,
            MemoryType::EfiUnacceptedMemoryType => 15,
            MemoryType::EfiMaxMemoryType => 16,
        }
    }

    pub fn to_raw(&self) -> (r: u32)
        ensures
            r == self.raw(),
    {
        match self {
            MemoryType::EfiReservedMemoryType => 0,
            MemoryType::EfiLoaderCode => 1,
            MemoryType::EfiLoaderData => 2,
            MemoryType::EfiBootServicesCode => 3,
            MemoryType::EfiBootServicesData => 4,
            MemoryType::EfiRuntimeServicesCode => 5,
            MemoryType::EfiRuntimeServicesData => 6,
            MemoryType::EfiConventionalMemory => 7,
            MemoryType::EfiUnusableMemory => 8,
            MemoryType::EfiACPIRecaimMemory => 9,
            MemoryType::EfiACPIMemoryNVS => 10,
            MemoryType::EfiMemoryMappedIO => 11,
            MemoryType::EfiMemoryMappedIOPortSpace => 12,
            MemoryType::EfiPalCode => 13,
            MemoryType::EfiPersistentMemory => 14,
            MemoryType::EfiUnacceptedMemoryType => 15,
            MemoryType::EfiMaxMemoryType => 16,
        }
    }

    /// Decodes a classification number; `None` for numbers past the last
    /// known classification.
    pub fn from_raw(value: u32) -> (r: Option<MemoryType>)
        ensures
            r matches Some(t) ==> t.raw() == value,
            r is None <==> value > 16,
    {
        match value {
            0 => Some(MemoryType::EfiReservedMemoryType),
            1 => Some(MemoryType::EfiLoaderCode),
            2 => Some(MemoryType::EfiLoaderData),
            3 => Some(MemoryType::EfiBootServicesCode),
            4 => Some(MemoryType::EfiBootServicesData),
            5 => Some(MemoryType::EfiRuntimeServicesCode),
            6 => Some(MemoryType::EfiRuntimeServicesData),
            7 => Some(MemoryType::EfiConventionalMemory),
            8 => Some(MemoryType::EfiUnusableMemory),
            9 => Some(MemoryType::EfiACPIRecaimMemory),
            10 => Some(MemoryType::EfiACPIMemoryNVS),
            11 => Some(MemoryType::EfiMemoryMappedIO),
            12 => Some(MemoryType::EfiMemoryMappedIOPortSpace),
            13 => Some(MemoryType::EfiPalCode),
            14 => Some(MemoryType::EfiPersistentMemory),
            15 => Some(MemoryType::EfiUnacceptedMemoryType),
            16 => Some(MemoryType::EfiMaxMemoryType),
            _ => None,
        }
    }
}

/// One record of the memory map.
#[derive(Debug, Clone, Copy, PartialEq, Eq, Structural)]
pub struct EfiMemoryDescriptor {
    pub type_: u32,
    pub physical_start: u64,
    pub virtual_start: u64,
    pub number_of_pages: u64,
    pub attribute: u64,
}

/// The descriptor whose record starts at `offset` in `s`.
pub open spec fn descriptor_at(s: Seq<u8>, offset: int) -> EfiMemoryDescriptor {
    EfiMemoryDescriptor {
        type_: field(s, offset, 4) as u32,
        physical_start: field(s, offset + 8, 8) as u64,
        virtual_start: field(s, offset + 16, 8) as u64,
        number_of_pages: field(s, offset + 24, 8) as u64,
        attribute: field(s, offset + 32, 8) as u64,
    }
}

impl EfiMemoryDescriptor {
    /// Decodes the record that starts at `offset`.
    pub fn decode(bytes: &[u8], offset: usize) -> (r: EfiMemoryDescriptor)
        requires
            offset + DESCRIPTOR_SIZE <= bytes@.len(),
        ensures
            r == descriptor_at(bytes@, offset as int),
    {
        let _len = bytes.len();
        EfiMemoryDescriptor {
            type_: read_le(bytes, offset, 4) as u32,
            physical_start: read_le(bytes, offset + 8, 8),
            virtual_start: read_le(bytes, offset + 16, 8),
            number_of_pages: read_le(bytes, offset + 24, 8),
            attribute: read_le(bytes, offset + 32, 8),
        }
    }

    /// The classification of the region, if its number is a known one.
    pub fn memory_type(&self) -> (r: Option<MemoryType>)
        ensures
            r matches Some(t) ==> t.raw() == self.type_,
            r is None <==> self.type_ > 16,
    {
        MemoryType::from_raw(self.type_)
    }

    /// True when the region is free for general use.
    pub fn is_conventional(&self) -> (r: bool)
        ensures
            r == (self.type_ == MemoryType::EfiConventionalMemory.raw()),
    {
        self.type_ == 7
    }

    /// The address of the last byte of the region; `None` for an empty
    /// region or one that runs past the end of the address space.
    pub fn last_address(&self) -> (r: Option<u64>)
        ensures
            r is Some <==> (self.number_of_pages >= 1 && self.physical_start + self.number_of_pages
                * PAGE_SIZE - 1 <= u64::MAX),
            r matches Some(a) ==> a == self.physical_start + self.number_of_pages * PAGE_SIZE - 1,
    {
        if self.number_of_pages == 0 {
            return None;
        }
        let ghost whole = self.physical_start + self.number_of_pages * PAGE_SIZE - 1;
        match (self.number_of_pages - 1).checked_mul(PAGE_SIZE) {
            Some(head) => {
                assert(head + (PAGE_SIZE - 1) <= u64::MAX) by (nonlinear_arith)
                    requires
                        head == (self.number_of_pages - 1) * PAGE_SIZE,
                        self.number_of_pages <= u64::MAX,
                ;
                let span = head + (PAGE_SIZE - 1);
                assert(span == self.number_of_pages * PAGE_SIZE - 1) by (nonlinear_arith)
                    requires
                        head == (self.number_of_pages - 1) * PAGE_SIZE,
                        span == head + (PAGE_SIZE - 1),
                ;
                self.physical_start.checked_add(span)
            },
            None => {
                assert(whole > u64::MAX) by (nonlinear_arith)
                    requires
                        (self.number_of_pages - 1) * PAGE_SIZE > u64::MAX,
                        whole == self.physical_start + self.number_of_pages * PAGE_SIZE - 1,
                        self.physical_start >= 0,
                ;
                None
            },
        }
    }
}

/// What a memory descriptor array holds: the buffer that firmware filled,
/// the stride between records, the number of bytes of records, and the
/// map key of the snapshot.
pub struct DescriptorArrayView {
    pub bytes: Seq<u8>,
    pub stride: nat,
    pub size: nat,
    pub map_key: nat,
}

impl DescriptorArrayView {
    pub open spec fn wf(self) -> bool {
        &&& self.stride >= DESCRIPTOR_SIZE
        &&& self.size <= self.bytes.len()
    }

    /// The number of whole records in the map.
    pub open spec fn count(self) -> nat {
        self.size / self.stride
    }

    /// The records, each read at a multiple of the stride.
    pub open spec fn descriptors(self) -> Seq<EfiMemoryDescriptor> {
        Seq::new(self.count(), |i: int| descriptor_at(self.bytes, i * self.stride))
    }
}

/// Checks whether a record has the conventional classification.
pub open spec fn conventional(d: EfiMemoryDescriptor) -> bool {
    d.type_ == MemoryType::EfiConventionalMemory.raw()
}

proof fn lemma_record_in_bounds(index: nat, stride: nat, size: nat)
    requires
        stride > 0,
        index < size / stride,
    ensures
        index * stride + stride <= (size / stride) * stride,
        (size / stride) * stride <= size,
{
    assert(index * stride + stride <= (size / stride) * stride) by (nonlinear_arith)
        requires
            index + 1 <= size / stride,
            stride > 0,
    ;
    assert((size / stride) * stride <= size) by (nonlinear_arith)
        requires
            stride > 0,
    ;
}

/// A memory map snapshot: records of a runtime stride in a byte buffer,
/// with the map key that the snapshot was taken under.
pub struct MemoryDescriptorArray {
    mem_desc_head: Vec<u8>,
    mem_desc_size: usize,
    mem_map_size: usize,
    map_key: usize,
}

impl View for MemoryDescriptorArray {
    type V = DescriptorArrayView;

    closed spec fn view(&self) -> DescriptorArrayView {
        DescriptorArrayView {
            bytes: self.mem_desc_head@,
            stride: self.mem_desc_size as nat,
            size: self.mem_map_size as nat,
            map_key: self.map_key as nat,
        }
    }
}

impl MemoryDescriptorArray {
    #[verifier::type_invariant]
    spec fn inv(self) -> bool {
        &&& self.mem_desc_size >= DESCRIPTOR_SIZE
        &&& self.mem_map_size <= self.mem_desc_head@.len()
    }

    /// Wraps `mem_map_size` bytes of records at stride `mem_desc_size`.
    pub fn new(
        mem_desc_head: Vec<u8>,
        mem_desc_size: usize,
        mem_map_size: usize,
        map_key: usize,
    ) -> (r: MemoryDescriptorArray)
        requires
            mem_desc_size >= DESCRIPTOR_SIZE,
            mem_map_size <= mem_desc_head@.len(),
        ensures
            r@ == (DescriptorArrayView {
                bytes: mem_desc_head@,
                stride: mem_desc_size as nat,
                size: mem_map_size as nat,
                map_key: map_key as nat,
            }),
    {
        MemoryDescriptorArray { mem_desc_head, mem_desc_size, mem_map_size, map_key }
    }

    /// The map key of the snapshot, to be handed to the surrender call.
    pub fn map_key(&self) -> (r: usize)
        ensures
            r == self@.map_key,
    {
        self.map_key
    }

    /// The number of whole records.
    pub fn len(&self) -> (r: usize)
        ensures
            r == self@.count(),
    {
        proof {
            use_type_invariant(self);
        }
        self.mem_map_size / self.mem_desc_size
    }

    /// The record at `index`, read at `index` times the stride; `None` past
    /// the last whole record.
    pub fn get(&self, index: usize) -> (r: Option<EfiMemoryDescriptor>)
        ensures
            r == (if index < self@.count() {
                Some(self@.descriptors()[index as int])
            } else {
                None
            }),
    {
        proof {
            use_type_invariant(self);
        }
        if index >= self.mem_map_size / self.mem_desc_size {
            return None;
        }
        proof {
            lemma_record_in_bounds(index as nat, self.mem_desc_size as nat, self.mem_map_size as nat);
        }
        let offset = index * self.mem_desc_size;
        Some(EfiMemoryDescriptor::decode(self.mem_desc_head.as_slice(), offset))
    }

    /// All records, in map order.
    pub fn descriptors(&self) -> (r: Vec<EfiMemoryDescriptor>)
        ensures
            r@ == self@.descriptors(),
    {
        let n = self.len();
        let mut r: Vec<EfiMemoryDescriptor> = Vec::new();
        let mut i: usize = 0;
        while i < n
            invariant
                n == self@.count(),
                i <= n,
                r@ == self@.descriptors().take(i as int),
            decreases n - i,
        {
            let d = self.get(i);
            r.push(d.unwrap());
            proof {
                assert(r@ =~= self@.descriptors().take(i + 1));
            }
            i = i + 1;
        }
        proof {
            assert(self@.descriptors().take(n as int) =~= self@.descriptors());
        }
        r
    }

    /// The records of conventional memory, in map order.
    pub fn conventional_memory(&self) -> (r: Vec<EfiMemoryDescriptor>)
        ensures
            r@ == self@.descriptors().filter(|d: EfiMemoryDescriptor| conventional(d)),
    {
        let n = self.len();
        let ghost all = self@.descriptors();
        let ghost pred = |d: EfiMemoryDescriptor| conventional(d);
        let mut r: Vec<EfiMemoryDescriptor> = Vec::new();
        let mut i: usize = 0;
        while i < n
            invariant
                n == all.len(),
                all == self@.descriptors(),
                pred == (|d: EfiMemoryDescriptor| conventional(d)),
                i <= n,
                r@ == all.take(i as int).filter(pred),
            decreases n - i,
        {
            let d = self.get(i).unwrap();
            proof {
                assert(all.take(i + 1).drop_last() =~= all.take(i as int));
                assert(all.take(i + 1).last() == d);
                reveal(Seq::filter);
            }
            if d.is_conventional() {
                r.push(d);
            }
            i = i + 1;
        }
        proof {
            assert(all.take(n as int) =~= all);
        }
        r
    }

    /// A forward iterator over the records, from the first.
    pub fn iter(self) -> (r: MemoryDescriptorIterator)
        ensures
            r@ == (self@, 0nat),
    {
        MemoryDescriptorIterator { mem_desc_array: self, index: 0 }
    }
}

proof fn lemma_window(x: Seq<u8>, y: Seq<u8>, extent: int, lo: int, n: int)
    requires
        0 <= lo,
        0 <= n,
        lo + n <= extent,
        extent <= x.len(),
        extent <= y.len(),
        x.subrange(0, extent) == y.subrange(0, extent),
    ensures
        x.subrange(lo, lo + n) == y.subrange(lo, lo + n),
{
    assert(x.subrange(lo, lo + n) =~= x.subrange(0, extent).subrange(lo, lo + n));
    assert(y.subrange(lo, lo + n) =~= y.subrange(0, extent).subrange(lo, lo + n));
}

/// What a memory map's iteration yields is fixed by the first
/// `count * stride` bytes of its buffer: two snapshots with the same stride
/// and size whose buffers agree on those bytes yield the same records, and
/// every record lies within them.
pub proof fn lemma_iteration_within_extent(a: DescriptorArrayView, b: DescriptorArrayView)
    requires
        a.wf(),
        b.wf(),
        a.stride == b.stride,
        a.size == b.size,
        a.bytes.subrange(0, (a.count() * a.stride) as int) == b.bytes.subrange(
            0,
            (b.count() * b.stride) as int,
        ),
    ensures
        a.descriptors() == b.descriptors(),
        forall|i: int|
            0 <= i < a.count() ==> #[trigger] (i * a.stride) + DESCRIPTOR_SIZE <= a.count()
                * a.stride,
{
    let extent = (a.count() * a.stride) as int;
    assert forall|i: int| 0 <= i < a.count() implies #[trigger] (i * a.stride) + DESCRIPTOR_SIZE
        <= a.count() * a.stride by {
        lemma_record_in_bounds(i as nat, a.stride, a.size);
    }
    assert forall|i: int| 0 <= i < a.count() implies a.descriptors()[i] == b.descriptors()[i] by {
        lemma_record_in_bounds(i as nat, a.stride, a.size);
        let off = i * a.stride;
        lemma_window(a.bytes, b.bytes, extent, off, 4);
        lemma_window(a.bytes, b.bytes, extent, off + 8, 8);
        lemma_window(a.bytes, b.bytes, extent, off + 16, 8);
        lemma_window(a.bytes, b.bytes, extent, off + 24, 8);
        lemma_window(a.bytes, b.bytes, extent, off + 32, 8);
    }
    assert(a.descriptors() =~= b.descriptors());
}

/// A forward-only pass over a snapshot's records. Starting again takes a
/// fresh snapshot.
pub struct MemoryDescriptorIterator {
    mem_desc_array: MemoryDescriptorArray,
    index: usize,
}

impl View for MemoryDescriptorIterator {
    type V = (DescriptorArrayView, nat);

    closed spec fn view(&self) -> (DescriptorArrayView, nat) {
        (self.mem_desc_array@, self.index as nat)
    }
}

impl MemoryDescriptorIterator {
    /// The snapshot being walked, handed back whole.
    pub fn into_array(self) -> (r: MemoryDescriptorArray)
        ensures
            r@ == self@.0,
    {
        self.mem_desc_array
    }

    /// The next record, or `None` once every record has been yielded.
    pub fn next(&mut self) -> (r: Option<EfiMemoryDescriptor>)
        ensures
            final(self)@.0 == old(self)@.0,
            old(self)@.1 < old(self)@.0.count() ==> r == Some(old(self)@.0.descriptors()[old(
                self,
            )@.1 as int]) && final(self)@.1 == old(self)@.1 + 1,
            old(self)@.1 >= old(self)@.0.count() ==> r is None && final(self)@.1 == old(self)@.1,
    {
        let r = self.mem_desc_array.get(self.index);
        proof {
            use_type_invariant(&self.mem_desc_array);
            let v = self.mem_desc_array@;
            assert(v.size / v.stride <= v.size) by (nonlinear_arith)
                requires
                    v.stride >= 1,
            ;
        }
        if r.is_some() {
            self.index = self.index + 1;
        }
        r
    }
}

/// The buffer and the values that a memory-map query writes back: on
/// success the records, their stride, their total size and the map key; on
/// `EfiBufferTooSmall` the size the map needs, in `memory_map_size`.
pub struct MemoryMap {
    pub memory_map_size: usize,
    pub memory_map: Vec<u8>,
    pub map_key: usize,
    pub descriptor_size: usize,
    pub descriptor_version: u32,
}

impl MemoryMap {
    /// True when the written-back values describe records inside the buffer.
    pub open spec fn wf(&self) -> bool {
        &&& self.descriptor_size >= DESCRIPTOR_SIZE
        &&& self.memory_map_size <= self.memory_map@.len()
    }

    /// The snapshot that the written-back values describe.
    pub open spec fn array_view(&self) -> DescriptorArrayView {
        DescriptorArrayView {
            bytes: self.memory_map@,
            stride: self.descriptor_size as nat,
            size: self.memory_map_size as nat,
            map_key: self.map_key as nat,
        }
    }

    /// A query over `memory_map`, offering the whole buffer to firmware.
    pub fn new(memory_map: Vec<u8>) -> (r: MemoryMap)
        ensures
            r.memory_map@ == memory_map@,
            r.memory_map_size == memory_map@.len(),
            r.map_key == 0,
            r.descriptor_size == 0,
            r.descriptor_version == 0,
    {
        let size = memory_map.len();
        MemoryMap {
            memory_map_size: size,
            memory_map,
            map_key: 0,
            descriptor_size: 0,
            descriptor_version: 0,
        }
    }

    /// A copy of the records as a descriptor array.
    pub fn array(&self) -> (r: MemoryDescriptorArray)
        requires
            self.wf(),
        ensures
            r@ == self.array_view(),
    {
        MemoryDescriptorArray::new(
            self.memory_map.clone(),
            self.descriptor_size,
            self.memory_map_size,
            self.map_key,
        )
    }

    /// A forward iterator over the records.
    pub fn iter(self) -> (r: MemoryDescriptorIterator)
        requires
            self.wf(),
        ensures
            r@ == (self.array_view(), 0nat),
    {
        let MemoryMap { memory_map_size, memory_map, map_key, descriptor_size, .. } = self;
        MemoryDescriptorArray::new(memory_map, descriptor_size, memory_map_size, map_key).iter()
    }

    /// Interprets the status of the query that filled this map: the
    /// snapshot on success; the size firmware asked for when the buffer was
    /// too small; `InvalidParameter` when firmware reported success with
    /// values that do not fit the buffer; otherwise the classified error.
    pub fn snapshot(self, status: u64) -> (r: Result<MemoryDescriptorArray, LoaderError>)
        ensures
            status == EfiStatusCode::EfiSuccess.raw() && self.wf() ==> (r matches Ok(a) && a@
                == self.array_view()),
            status == EfiStatusCode::EfiSuccess.raw() && !self.wf() ==> r == Err::<
                MemoryDescriptorArray,
                LoaderError,
            >(LoaderError::InvalidParameter),
            status == EfiStatusCode::EfiBufferTooSmall.raw() ==> r == Err::<
                MemoryDescriptorArray,
                LoaderError,
            >(LoaderError::BufferTooSmall { required: self.memory_map_size }),
            status != EfiStatusCode::EfiSuccess.raw() && status
                != EfiStatusCode::EfiBufferTooSmall.raw() ==> r == Err::<
                MemoryDescriptorArray,
                LoaderError,
            >(error_for_raw(status)),
    {
        if status == 0 {
            if self.descriptor_size >= DESCRIPTOR_SIZE && self.memory_map_size
                <= self.memory_map.len() {
                Ok(self.iter().into_array())
            } else {
                Err(LoaderError::InvalidParameter)
            }
        } else if status == ERROR_BIT + 5 {
            Err(LoaderError::BufferTooSmall { required: self.memory_map_size })
        } else {
            Err(LoaderError::from_status(status))
        }
    }
}

} // verus!
