use vstd::prelude::*;

use crate::memory::{decode_descriptors, descriptors_of, MemoryDescriptor, MemoryType, DESCRIPTOR_BYTES};
use crate::status::Status;

verus! {

/// Which handles a handle search returns. Only the search by protocol is
/// issued by this crate.
#[derive(Clone, Copy, Debug, PartialEq, Eq, Structural)]
pub enum LocateSearchType {
    AllHandles,
    ByRegisterNotify,
    ByProtocol,
}

impl LocateSearchType {
    /// The raw value the firmware expects for this search type.
    pub open spec fn spec_code(self) -> u32 {
        match self {
            LocateSearchType::AllHandles => 0,
            LocateSearchType::ByRegisterNotify => 1,
            LocateSearchType::ByProtocol => 2,
        }
    }

    /// The raw value the firmware expects for this search type.
    pub fn code(&self) -> (r: u32)
        ensures
            r == self.spec_code(),
    {
        match *self {
            LocateSearchType::AllHandles => 0,
            LocateSearchType::ByRegisterNotify => 1,
            LocateSearchType::ByProtocol => 2,
        }
    }
}

/// Opaque identifier of a firmware-managed object.
#[derive(Clone, Copy, Debug, PartialEq, Eq, Structural)]
pub struct Handle(pub usize);

/// Opaque identifier of a firmware event.
#[derive(Clone, Copy, Debug, PartialEq, Eq, Structural)]
pub struct Event(pub usize);

/// A protocol interface owned by the firmware, by its address. The caller
/// borrows it for as long as boot services are available.
#[derive(Clone, Copy, Debug, PartialEq, Eq, Structural)]
pub struct Interface {
    pub address: usize,
}

/// A block of pool memory obtained from the firmware. It has exactly one
/// owner, cannot be copied, and goes back through `BootServices::free_pool`.
#[derive(Debug)]
pub struct PoolBlock {
    address: usize,
}

impl View for PoolBlock {
    type V = usize;

    /// The block's address.
    closed spec fn view(&self) -> usize {
        self.address
    }
}

impl PoolBlock {
    /// Where the block starts.
    pub fn address(&self) -> (r: usize)
        ensures
            r == self@,
    {
        self.address
    }
}

/// A failed operation that had to give back a block of pool memory: the
/// firmware's status, and the address that must be handed to the firmware's
/// pool release.
#[derive(Clone, Copy, Debug, PartialEq, Eq, Structural)]
pub struct Released {
    pub status: Status,
    pub address: usize,
}

/// What the firmware answered to a memory-map query.
#[derive(Clone, Copy, Debug, PartialEq, Eq, Structural)]
pub struct MapReply {
    pub status: Status,
    /// The size the firmware wrote back: the bytes used on success, the
    /// bytes needed when the buffer was too small.
    pub map_size: usize,
    pub map_key: usize,
    pub descriptor_size: usize,
    pub descriptor_version: u32,
}

/// A memory map read from the firmware, held in a pool block that the
/// caller owns.
#[derive(Debug)]
pub struct MemoryMap {
    /// The pool block that holds the map.
    pub buffer: PoolBlock,
    /// Bytes of the buffer that the map fills.
    pub map_size: usize,
    /// Token that exiting boot services asks for.
    pub map_key: usize,
    /// Stride between descriptors; may exceed the record read here.
    pub descriptor_size: usize,
    pub descriptor_version: u32,
}

impl MemoryMap {
    /// The descriptors held in `bytes`, the contents of the map's buffer.
    /// `None` when `bytes` is not as long as the map, or when the stride is
    /// shorter than a descriptor record.
    pub fn descriptors(&self, bytes: &[u8]) -> (r: Option<Vec<MemoryDescriptor>>)
        ensures
            r.is_none() <==> (bytes@.len() != self.map_size || self.descriptor_size < DESCRIPTOR_BYTES),
            r matches Some(v) ==> v@ == descriptors_of(bytes@, self.descriptor_size as nat),
    {
        if bytes.len() != self.map_size {
            return None;
        }
        decode_descriptors(bytes, self.descriptor_size)
    }
}

/// The handles found by a search, in a pool block that the firmware filled
/// and the caller owns.
#[derive(Debug)]
pub struct Handles {
    /// The pool block that holds the handles.
    pub buffer: PoolBlock,
    /// How many handles the buffer holds.
    pub count: usize,
}


/// Leave to wait on a non-empty set of events; it carries how many.
#[derive(Debug)]
pub struct WaitRequest {
    count: usize,
}

impl View for WaitRequest {
    type V = usize;

    /// The number of events to wait on.
    closed spec fn view(&self) -> usize {
        self.count
    }
}

impl WaitRequest {
    /// The number of events to hand the firmware.
    pub fn count(&self) -> (r: usize)
        ensures
            r == self@,
    {
        self.count
    }

    /// Takes the firmware's reply to the wait: on `Success`, the index of
    /// the event that was signalled.
    pub fn finish(self, status: Status, index: usize) -> (r: Result<usize, Status>)
        ensures
            status == Status::Success ==> r == Ok::<usize, Status>(index),
            status != Status::Success ==> r == Err::<usize, Status>(status),
    {
        if status.is_success() {
            Ok(index)
        } else {
            Err(status)
        }
    }
}

/// Leave to ask the firmware to exit boot services with a current map key.
#[derive(Debug)]
pub struct ExitRequest {
    image_handle: Handle,
    map_key: usize,
}

impl View for ExitRequest {
    type V = (Handle, usize);

    /// The image handle and the map key to hand the firmware.
    closed spec fn view(&self) -> (Handle, usize) {
        (self.image_handle, self.map_key)
    }
}

impl ExitRequest {
    /// The image handle to hand the firmware.
    pub fn image_handle(&self) -> (r: Handle)
        ensures
            r == self@.0,
    {
        self.image_handle
    }

    /// The map key to hand the firmware.
    pub fn map_key(&self) -> (r: usize)
        ensures
            r == self@.1,
    {
        self.map_key
    }
}

/// Whether the firmware's boot services may still be used.
#[derive(Clone, Copy, Debug, PartialEq, Eq, Structural)]
pub enum Phase {
    Available,
    Retired,
}

/// The index of the last occurrence of `a` in `s`, or -1.
pub open spec fn last_index_of(s: Seq<usize>, a: usize) -> int
    decreases s.len(),
{
    if s.len() == 0 {
        -1
    } else if s.last() == a {
        s.len() - 1
    } else {
        last_index_of(s.drop_last(), a)
    }
}

/// `s` without the last occurrence of `a`; `s` itself if there is none.
pub open spec fn without_last(s: Seq<usize>, a: usize) -> Seq<usize> {
    let i = last_index_of(s, a);
    if i < 0 {
        s
    } else {
        s.remove(i)
    }
}

/// What this crate knows of the firmware's boot services.
pub ghost struct BootView {
    /// The pool from which this crate allocates.
    pub pool_type: MemoryType,
    pub phase: Phase,
    /// The key of the memory map last read, while nothing has changed the
    /// map since.
    pub map_key: Option<usize>,
    /// Addresses of the pool blocks handed out and not yet released, oldest first.
    pub pool: Seq<usize>,
}

impl BootView {
    /// A block was obtained from the pool: it is outstanding, and the memory
    /// map has changed.
    pub open spec fn allocated(self, address: usize) -> BootView {
        BootView { pool: self.pool.push(address), map_key: None, ..self }
    }

    /// A block was given back: it is no longer outstanding, and the memory
    /// map has changed.
    pub open spec fn released(self, address: usize) -> BootView {
        BootView { pool: without_last(self.pool, address), map_key: None, ..self }
    }

    /// The memory map was read and gave `key`.
    pub open spec fn mapped(self, key: usize) -> BootView {
        BootView { map_key: Some(key), ..self }
    }

    /// Boot services were exited.
    pub open spec fn retired(self) -> BootView {
        BootView { phase: Phase::Retired, map_key: None, ..self }
    }

    /// Exiting boot services with `key` may be asked of the firmware: they are
    /// still available and `key` is that of the current memory map.
    pub open spec fn exit_allowed(self, key: usize) -> bool {
        self.phase == Phase::Available && self.map_key == Some(key)
    }
}

/// The facade over the firmware's boot services: it turns each raw reply of
/// the firmware into a typed result and keeps the state that spans calls.
pub struct BootServices {
    pool_type: MemoryType,
    phase: Phase,
    map_key: Option<usize>,
    pool: Vec<usize>,
}

impl View for BootServices {
    type V = BootView;

    closed spec fn view(&self) -> BootView {
        BootView {
            pool_type: self.pool_type,
            phase: self.phase,
            map_key: self.map_key,
            pool: self.pool@,
        }
    }
}

proof fn lemma_last_index(s: Seq<usize>, a: usize, i: int)
    requires
        -1 <= i < s.len(),
        i >= 0 ==> s[i] == a,
        forall|k: int| i < k < s.len() ==> s[k] != a,
    ensures
        last_index_of(s, a) == i,
    decreases s.len(),
{
    if s.len() > 0 && s.last() != a {
        lemma_last_index(s.drop_last(), a, i);
    }
}

impl BootServices {
    /// The state at hand-over: boot services available, no memory map read,
    /// no pool memory outstanding.
    pub fn new(pool_type: MemoryType) -> (r: BootServices)
        ensures
            r@ == (BootView {
                pool_type,
                phase: Phase::Available,
                map_key: None,
                pool: Seq::empty(),
            }),
    {
        BootServices { pool_type, phase: Phase::Available, map_key: None, pool: Vec::new() }
    }

    /// Takes the firmware's reply to a pool allocation: on `Success` the block
    /// at `address` now belongs to the caller; any other status is the failure.
    pub fn allocate_pool(&mut self, status: Status, address: usize) -> (r: Result<PoolBlock, Status>)
        ensures
            status == Status::Success ==> (r matches Ok(b) && b@ == address),
            status == Status::Success ==> final(self)@ == old(self)@.allocated(address),
            status != Status::Success ==> r == Err::<PoolBlock, Status>(status)
                && final(self)@ == old(self)@,
    {
        if status.is_success() {
            self.pool.push(address);
            self.map_key = None;
            Ok(PoolBlock { address })
        } else {
            Err(status)
        }
    }

    /// Gives a block back: returns the address to hand to the firmware's pool
    /// release.
    pub fn free_pool(&mut self, block: PoolBlock) -> (r: usize)
        ensures
            r == block@,
            final(self)@ == old(self)@.released(block@),
    {
        let address = block.address;
        let mut j: usize = self.pool.len();
        while j > 0 && self.pool[j - 1] != address
            invariant
                j <= self.pool@.len(),
                self.pool@ == old(self).pool@,
                self.map_key == old(self).map_key,
                self.phase == old(self).phase,
                self.pool_type == old(self).pool_type,
                forall|k: int| j <= k < self.pool@.len() ==> self.pool@[k] != address,
            decreases j,
        {
            j = j - 1;
        }
        proof {
            lemma_last_index(self.pool@, address, j - 1);
        }
        if j > 0 {
            self.pool.remove(j - 1);
        }
        self.map_key = None;
        proof {
            assert(self@ =~= old(self)@.released(address));
        }
        address
    }
    /// Takes the firmware's reply to a memory-map query into `buffer`. The
    /// size the firmware wrote back always replaces the estimate, so that a
    /// query that found the buffer too small can be retried with it. On
    /// `Success` the map owns the buffer and its key becomes the current one;
    /// otherwise the buffer is released and the failure reported.
    pub fn get_memory_map(&mut self, memory_map_size: &mut usize, buffer: PoolBlock, reply: MapReply)
        -> (r: Result<MemoryMap, Released>)
        ensures
            *final(memory_map_size) == reply.map_size,
            reply.status == Status::Success ==> (r matches Ok(m) && m.buffer@ == buffer@
                && m.map_size == reply.map_size && m.map_key == reply.map_key
                && m.descriptor_size == reply.descriptor_size
                && m.descriptor_version == reply.descriptor_version),
            reply.status == Status::Success ==> final(self)@ == old(self)@.mapped(reply.map_key),
            reply.status != Status::Success ==> r == Err::<MemoryMap, Released>(
                Released { status: reply.status, address: buffer@ },
            ),
            reply.status != Status::Success ==> final(self)@ == old(self)@.released(buffer@),
    {
        *memory_map_size = reply.map_size;
        if reply.status.is_success() {
            self.map_key = Some(reply.map_key);
            Ok(MemoryMap {
                buffer,
                map_size: reply.map_size,
                map_key: reply.map_key,
                descriptor_size: reply.descriptor_size,
                descriptor_version: reply.descriptor_version,
            })
        } else {
            let address = self.free_pool(buffer);
            Err(Released { status: reply.status, address })
        }
    }

    /// Takes the firmware's reply to a protocol lookup on one handle: the
    /// interface it reported on `Success`, borrowed, with no memory changing
    /// hands.
    pub fn handle_protocol(&self, status: Status, interface: usize) -> (r: Result<Interface, Status>)
        ensures
            status == Status::Success ==> r == Ok::<Interface, Status>(Interface { address: interface }),
            status != Status::Success ==> r == Err::<Interface, Status>(status),
    {
        if status.is_success() {
            Ok(Interface { address: interface })
        } else {
            Err(status)
        }
    }

    /// Takes the firmware's reply to a protocol lookup over all handles,
    /// made with the pool block `slot` to receive the interface. On
    /// `Success` the interface is returned and the caller keeps the slot;
    /// otherwise the slot is released and the failure reported.
    pub fn locate_protocol(&mut self, slot: PoolBlock, status: Status, interface: usize)
        -> (r: Result<(Interface, PoolBlock), Released>)
        ensures
            status == Status::Success ==> (r matches Ok((i, b)) && i == Interface { address: interface }
                && b@ == slot@),
            status == Status::Success ==> final(self)@ == old(self)@,
            status != Status::Success ==> r == Err::<(Interface, PoolBlock), Released>(
                Released { status, address: slot@ },
            ),
            status != Status::Success ==> final(self)@ == old(self)@.released(slot@),
    {
        if status.is_success() {
            Ok((Interface { address: interface }, slot))
        } else {
            let address = self.free_pool(slot);
            Err(Released { status, address })
        }
    }

    /// Takes the firmware's reply to a search for the handles that carry a
    /// protocol. On `Success` the firmware has allocated the buffer at
    /// `address` holding `count` handles, which the caller now owns.
    pub fn locate_handle_by_protocol(&mut self, status: Status, count: usize, address: usize)
        -> (r: Result<Handles, Status>)
        ensures
            status == Status::Success ==> (r matches Ok(h) && h.buffer@ == address
                && h.count == count),
            status == Status::Success ==> final(self)@ == old(self)@.allocated(address),
            status != Status::Success ==> r == Err::<Handles, Status>(status),
            status != Status::Success ==> final(self)@ == old(self)@,
    {
        if status.is_success() {
            self.pool.push(address);
            self.map_key = None;
            Ok(Handles { buffer: PoolBlock { address }, count })
        } else {
            Err(status)
        }
    }
    /// Decides whether a wait may be handed to the firmware. An empty set of
    /// events could never be signalled: it fails at once with
    /// `InvalidParameter` instead of blocking.
    pub fn wait_for_event(&self, events: &[Event]) -> (r: Result<WaitRequest, Status>)
        ensures
            events@.len() == 0 ==> r == Err::<WaitRequest, Status>(Status::InvalidParameter),
            events@.len() > 0 ==> (r matches Ok(w) && w@ == events@.len()),
    {
        if events.len() == 0 {
            Err(Status::InvalidParameter)
        } else {
            Ok(WaitRequest { count: events.len() })
        }
    }

    /// Decides whether exiting boot services may be asked of the firmware:
    /// only while they are available, and only with the key of the memory
    /// map read last, with nothing allocated or released since. Otherwise the
    /// firmware would refuse the key, and this fails at once with
    /// `InvalidParameter`.
    pub fn exit_boot_services(&self, image_handle: &Handle, map_key: &usize)
        -> (r: Result<ExitRequest, Status>)
        ensures
            self@.exit_allowed(*map_key) ==> (r matches Ok(q) && q@ == (*image_handle, *map_key)),
            !self@.exit_allowed(*map_key) ==> r == Err::<ExitRequest, Status>(Status::InvalidParameter),
    {
        let current = match self.phase {
            Phase::Available => match self.map_key {
                Some(k) => k == *map_key,
                None => false,
            },
            Phase::Retired => false,
        };
        if current {
            Ok(ExitRequest { image_handle: *image_handle, map_key: *map_key })
        } else {
            Err(Status::InvalidParameter)
        }
    }

    /// Takes the firmware's reply to exiting boot services. On `Success`
    /// the table is retired for good; any other status leaves it as it was.
    pub fn finish_exit(&mut self, request: ExitRequest, status: Status) -> (r: Status)
        ensures
            r == status,
            status == Status::Success ==> final(self)@ == old(self)@.retired(),
            status != Status::Success ==> final(self)@ == old(self)@,
    {
        if status.is_success() {
            self.phase = Phase::Retired;
            self.map_key = None;
        }
        status
    }

    /// Copies the first `n` bytes of `src` over those of `dest`. The two
    /// cannot overlap: one is borrowed mutably.
    pub fn copy_mem(&self, dest: &mut Vec<u8>, src: &[u8], n: usize)
        requires
            n <= old(dest)@.len(),
            n <= src@.len(),
        ensures
            final(dest)@ == src@.subrange(0, n as int) + old(dest)@.subrange(n as int, old(dest)@.len() as int),
    {
        let mut i: usize = 0;
        while i < n
            invariant
                i <= n,
                n <= dest@.len(),
                n <= src@.len(),
                dest@.len() == old(dest)@.len(),
                forall|k: int| 0 <= k < i ==> dest@[k] == src@[k],
                forall|k: int| i <= k < dest@.len() ==> dest@[k] == old(dest)@[k],
            decreases n - i,
        {
            dest.set(i, src[i]);
            i = i + 1;
        }
        assert(dest@ =~= src@.subrange(0, n as int) + old(dest)@.subrange(n as int, old(dest)@.len() as int));
    }

    /// Sets the first `n` bytes of `s` to `c`.
    pub fn set_mem(&self, s: &mut Vec<u8>, c: u8, n: usize)
        requires
            n <= old(s)@.len(),
        ensures
            final(s)@ == Seq::new(n as nat, |k: int| c) + old(s)@.subrange(n as int, old(s)@.len() as int),
    {
        let mut i: usize = 0;
        while i < n
            invariant
                i <= n,
                n <= s@.len(),
                s@.len() == old(s)@.len(),
                forall|k: int| 0 <= k < i ==> s@[k] == c,
                forall|k: int| i <= k < s@.len() ==> s@[k] == old(s)@[k],
            decreases n - i,
        {
            s.set(i, c);
            i = i + 1;
        }
        assert(s@ =~= Seq::new(n as nat, |k: int| c) + old(s)@.subrange(n as int, old(s)@.len() as int));
    }

    /// The pool this crate allocates from.
    pub fn pool_type(&self) -> (r: MemoryType)
        ensures
            r == self@.pool_type,
    {
        self.pool_type
    }

    /// Whether boot services may still be used.
    pub fn phase(&self) -> (r: Phase)
        ensures
            r == self@.phase,
    {
        self.phase
    }

    /// How many pool blocks are handed out and not yet released.
    pub fn outstanding(&self) -> (r: usize)
        ensures
            r == self@.pool.len(),
    {
        self.pool.len()
    }
}

} // verus!
