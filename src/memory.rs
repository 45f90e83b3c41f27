use vstd::prelude::*;

verus! {

/// Bytes of the descriptor record that this crate reads; the firmware's
/// stride between records is at least this.
pub const DESCRIPTOR_BYTES: usize = 40;

/// Classification of a memory region, or of a pool allocation.
#[derive(Clone, Copy, Debug, PartialEq, Eq, Structural)]
pub enum MemoryType {
    ReservedMemoryType,
    LoaderCode,
    LoaderData,
    BootServicesCode,
    BootServicesData,
    RuntimeServicesCode,
    RuntimeServicesData,
    ConventionalMemory,
    UnusableMemory,
    AcpiReclaimMemory,
    AcpiMemoryNvs,
    MemoryMappedIo,
    MemoryMappedIoPortSpace,
    PalCode,
    PersistentMemory,
    UnacceptedMemory,
    /// A type this crate has no name for (vendor or loader ranges), kept as read.
    Other(u32),
}

/// The named memory type for a raw code, if there is one.
pub open spec fn named_memory_type(code: u32) -> Option<MemoryType> {
    if code == 0 { Some(MemoryType::ReservedMemoryType) }
    else if code == 1 { Some(MemoryType::LoaderCode) }
    else if code == 2 { Some(MemoryType::LoaderData) }
    else if code == 3 { Some(MemoryType::BootServicesCode) }
    else if code == 4 { Some(MemoryType::BootServicesData) }
    else if code == 5 { Some(MemoryType::RuntimeServicesCode) }
    else if code == 6 { Some(MemoryType::RuntimeServicesData) }
    else if code == 7 { Some(MemoryType::ConventionalMemory) }
    else if code == 8 { Some(MemoryType::UnusableMemory) }
    else if code == 9 { Some(MemoryType::AcpiReclaimMemory) }
    else if code == 10 { Some(MemoryType::AcpiMemoryNvs) }
    else if code == 11 { Some(MemoryType::MemoryMappedIo) }
    else if code == 12 { Some(MemoryType::MemoryMappedIoPortSpace) }
    else if code == 13 { Some(MemoryType::PalCode) }
    else if code == 14 { Some(MemoryType::PersistentMemory) }
    else if code == 15 { Some(MemoryType::UnacceptedMemory) }
    else { None }
}

/// The memory type that a raw code denotes.
pub open spec fn memory_type_of(code: u32) -> MemoryType {
    match named_memory_type(code) {
        Some(t) => t,
        None => MemoryType::Other(code),
    }
}

impl MemoryType {
    /// The raw code of this memory type.
    pub open spec fn spec_code(self) -> u32 {
        match self {
            MemoryType::ReservedMemoryType => 0,
            MemoryType::LoaderCode => 1,
            MemoryType::LoaderData => 2,
            MemoryType::BootServicesCode => 3,
            MemoryType::BootServicesData => 4,
            MemoryType::RuntimeServicesCode => 5,
            MemoryType::RuntimeServicesData => 6,
            MemoryType::ConventionalMemory => 7,
            MemoryType::UnusableMemory => 8,
            MemoryType::AcpiReclaimMemory => 9,
            MemoryType::AcpiMemoryNvs => 10,
            MemoryType::MemoryMappedIo => 11,
            MemoryType::MemoryMappedIoPortSpace => 12,
            MemoryType::PalCode => 13,
            MemoryType::PersistentMemory => 14,
            MemoryType::UnacceptedMemory => 15,
            MemoryType::Other(c) => c,
        }
    }

    /// Reads a raw code as a memory type.
    pub fn from_code(code: u32) -> (r: MemoryType)
        ensures
            r == memory_type_of(code),
            r.spec_code() == code,
    {
        match code {
            0 => MemoryType::ReservedMemoryType,
            1 => MemoryType::LoaderCode,
            2 => MemoryType::LoaderData,
            3 => MemoryType::BootServicesCode,
            4 => MemoryType::BootServicesData,
            5 => MemoryType::RuntimeServicesCode,
            6 => MemoryType::RuntimeServicesData,
            7 => MemoryType::ConventionalMemory,
            8 => MemoryType::UnusableMemory,
            9 => MemoryType::AcpiReclaimMemory,
            10 => MemoryType::AcpiMemoryNvs,
            11 => MemoryType::MemoryMappedIo,
            12 => MemoryType::MemoryMappedIoPortSpace,
            13 => MemoryType::PalCode,
            14 => MemoryType::PersistentMemory,
            15 => MemoryType::UnacceptedMemory,
            _ => MemoryType::Other(code),
        }
    }

    /// The raw code of this memory type, as the firmware expects it.
    pub fn code(&self) -> (r: u32)
        ensures
            r == self.spec_code(),
    {
        match *self {
            MemoryType::ReservedMemoryType => 0,
            MemoryType::LoaderCode => 1,
            MemoryType::LoaderData => 2,
            MemoryType::BootServicesCode => 3,
            MemoryType::BootServicesData => 4,
            MemoryType::RuntimeServicesCode => 5,
            MemoryType::RuntimeServicesData => 6,
            MemoryType::ConventionalMemory => 7,
            MemoryType::UnusableMemory => 8,
            MemoryType::AcpiReclaimMemory => 9,
            MemoryType::AcpiMemoryNvs => 10,
            MemoryType::MemoryMappedIo => 11,
            MemoryType::MemoryMappedIoPortSpace => 12,
            MemoryType::PalCode => 13,
            MemoryType::PersistentMemory => 14,
            MemoryType::UnacceptedMemory => 15,
            MemoryType::Other(c) => c,
        }
    }
}

/// One region of memory as the memory map describes it.
#[derive(Clone, Copy, Debug, PartialEq, Eq, Structural)]
pub struct MemoryDescriptor {
    pub memory_type: MemoryType,
    pub physical_start: u64,
    pub virtual_start: u64,
    pub number_of_pages: u64,
    pub attribute: u64,
}

/// 256 to the power `k`.
pub open spec fn pow256(k: nat) -> nat
    decreases k,
{
    if k == 0 { 1 } else { 256 * pow256((k - 1) as nat) }
}

/// The unsigned number whose little-endian bytes are `s`.
pub open spec fn le_value(s: Seq<u8>) -> nat
    decreases s.len(),
{
    if s.len() == 0 {
        0
    } else {
        s[0] as nat + 256 * le_value(s.drop_first())
    }
}

/// The little-endian number held in `n` bytes of `s` from `off`.
pub open spec fn le_at(s: Seq<u8>, off: int, n: int) -> nat {
    le_value(s.subrange(off, off + n))
}

/// The descriptor whose record starts at byte `off` of `s`.
pub open spec fn descriptor_at(s: Seq<u8>, off: int) -> MemoryDescriptor {
    MemoryDescriptor {
        memory_type: memory_type_of(le_at(s, off, 4) as u32),
        physical_start: le_at(s, off + 8, 8) as u64,
        virtual_start: le_at(s, off + 16, 8) as u64,
        number_of_pages: le_at(s, off + 24, 8) as u64,
        attribute: le_at(s, off + 32, 8) as u64,
    }
}

/// The descriptors of a memory map held in `s`, one record every `stride` bytes.
pub open spec fn descriptors_of(s: Seq<u8>, stride: nat) -> Seq<MemoryDescriptor>
    recommends
        stride > 0,
{
    Seq::new(s.len() / stride, |i: int| descriptor_at(s, i * stride))
}

proof fn lemma_le_value_bound(s: Seq<u8>)
    ensures
        le_value(s) < pow256(s.len()),
    decreases s.len(),
{
    if s.len() > 0 {
        lemma_le_value_bound(s.drop_first());
        let r = le_value(s.drop_first());
        let p = pow256((s.len() - 1) as nat);
        let b = s[0] as nat;
        assert(b + 256 * r < 256 * p) by (nonlinear_arith)
            requires
                b < 256,
                r < p,
        ;
    }
}

/// Reads the little-endian number held in `n` bytes of `bytes` from `off`.
fn read_le(bytes: &[u8], off: usize, n: usize) -> (r: u64)
    requires
        off + n <= bytes@.len(),
        n <= 8,
    ensures
        r as nat == le_at(bytes@, off as int, n as int),
{
    let total: usize = bytes.len();
    assert(off + n <= total);
    let end: usize = off + n;
    let mut j: usize = end;
    let mut acc: u64 = 0;
    proof {
        assert(bytes@.subrange(end as int, end as int).len() == 0);
        lemma_pow256_values();
    }
    while j > off
        invariant
            off <= j <= end,
            end == off + n,
            end <= bytes@.len(),
            n <= 8,
            pow256(8) == 0x1_0000_0000_0000_0000,
            acc as nat == le_value(bytes@.subrange(j as int, end as int)),
        decreases j,
    {
        let ghost rest = bytes@.subrange(j as int, end as int);
        let ghost longer = bytes@.subrange(j - 1, end as int);
        proof {
            assert(longer.drop_first() =~= rest);
            assert(longer[0] == bytes@[j - 1]);
            lemma_le_value_bound(longer);
            lemma_pow256_mono(longer.len(), 8);
        }
        let b: u8 = bytes[j - 1];
        acc = acc * 256 + b as u64;
        j = j - 1;
    }
    acc
}

proof fn lemma_pow256_values()
    ensures
        pow256(4) == 0x1_0000_0000,
        pow256(8) == 0x1_0000_0000_0000_0000,
{
    reveal_with_fuel(pow256, 9);
}

proof fn lemma_pow256_mono(a: nat, b: nat)
    requires
        a <= b,
    ensures
        pow256(a) <= pow256(b),
    decreases b,
{
    if a < b {
        lemma_pow256_mono(a, (b - 1) as nat);
    }
}

/// Decodes the descriptor record that starts at byte `off`.
fn read_descriptor(bytes: &[u8], off: usize) -> (r: MemoryDescriptor)
    requires
        off + DESCRIPTOR_BYTES <= bytes@.len(),
    ensures
        r == descriptor_at(bytes@, off as int),
{
    let total: usize = bytes.len();
    assert(off + DESCRIPTOR_BYTES <= total);
    let code = read_le(bytes, off, 4);
    proof {
        lemma_le_value_bound(bytes@.subrange(off as int, off + 4));
        lemma_pow256_values();
    }
    MemoryDescriptor {
        memory_type: MemoryType::from_code(code as u32),
        physical_start: read_le(bytes, off + 8, 8),
        virtual_start: read_le(bytes, off + 16, 8),
        number_of_pages: read_le(bytes, off + 24, 8),
        attribute: read_le(bytes, off + 32, 8),
    }
}

/// Splits the bytes of a memory map into descriptors, stepping by the stride
/// the firmware reported rather than by the size of the record read here.
///
/// A stride shorter than the record cannot describe a map: `None`.
pub fn decode_descriptors(bytes: &[u8], descriptor_size: usize) -> (r: Option<Vec<MemoryDescriptor>>)
    ensures
        descriptor_size < DESCRIPTOR_BYTES <==> r.is_none(),
        r matches Some(v) ==> v@ == descriptors_of(bytes@, descriptor_size as nat),
{
    if descriptor_size < DESCRIPTOR_BYTES {
        return None;
    }
    let stride = descriptor_size;
    let len = bytes.len();
    let mut out: Vec<MemoryDescriptor> = Vec::new();
    let mut off: usize = 0;
    while len - off >= stride
        invariant
            len == bytes@.len(),
            stride >= DESCRIPTOR_BYTES,
            off <= len,
            off == out@.len() * stride,
            forall|i: int| 0 <= i < out@.len() ==> out@[i] == descriptor_at(bytes@, i * stride),
        decreases len - off,
    {
        let d = read_descriptor(bytes, off);
        proof {
            assert((out@.len() + 1) * stride == out@.len() * stride + stride) by (nonlinear_arith);
        }
        out.push(d);
        off = off + stride;
    }
    proof {
        let k = out@.len();
        let l = len as int;
        let st = stride as int;
        assert(k == l / st) by (nonlinear_arith)
            requires
                k * st <= l,
                l < k * st + st,
                st > 0,
        ;
        assert(out@ =~= descriptors_of(bytes@, stride as nat));
    }
    Some(out)
}

} // verus!
