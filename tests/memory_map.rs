use uefi::boot::{BootServices, MapReply, Released};
use uefi::memory::{decode_descriptors, MemoryDescriptor, MemoryType, DESCRIPTOR_BYTES};
use uefi::status::Status;

fn record(ty: u32, phys: u64, virt: u64, pages: u64, attr: u64, stride: usize) -> Vec<u8> {
    let mut v = Vec::new();
    v.extend_from_slice(&ty.to_le_bytes());
    v.extend_from_slice(&[0xAA; 4]);
    v.extend_from_slice(&phys.to_le_bytes());
    v.extend_from_slice(&virt.to_le_bytes());
    v.extend_from_slice(&pages.to_le_bytes());
    v.extend_from_slice(&attr.to_le_bytes());
    while v.len() < stride {
        v.push(0xEE);
    }
    v
}

#[test]
fn descriptors_step_by_the_reported_stride() {
    let mut bytes = record(7, 0x10_0000, 0, 256, 0xF, 48);
    bytes.extend(record(3, 0x20_0000, 0x1234_5678_9ABC_DEF0, 16, 1 << 63, 48));
    let ds = decode_descriptors(&bytes, 48).unwrap();
    assert_eq!(ds.len(), 2);
    assert_eq!(
        ds[0],
        MemoryDescriptor {
            memory_type: MemoryType::ConventionalMemory,
            physical_start: 0x10_0000,
            virtual_start: 0,
            number_of_pages: 256,
            attribute: 0xF,
        }
    );
    assert_eq!(ds[1].memory_type, MemoryType::BootServicesCode);
    assert_eq!(ds[1].virtual_start, 0x1234_5678_9ABC_DEF0);
    assert_eq!(ds[1].attribute, 1 << 63);
}

#[test]
fn trailing_partial_record_is_not_a_descriptor() {
    let mut bytes = record(1, 1, 2, 3, 4, DESCRIPTOR_BYTES);
    bytes.extend_from_slice(&[0; 20]);
    let ds = decode_descriptors(&bytes, DESCRIPTOR_BYTES).unwrap();
    assert_eq!(ds.len(), 1);
    assert_eq!(ds[0].memory_type, MemoryType::LoaderCode);
}

#[test]
fn stride_shorter_than_a_record_is_refused() {
    let bytes = record(1, 1, 2, 3, 4, 48);
    assert!(decode_descriptors(&bytes, 39).is_none());
    assert!(decode_descriptors(&bytes, 0).is_none());
    assert_eq!(decode_descriptors(&[], 48).unwrap().len(), 0);
}

#[test]
fn too_small_estimate_reports_and_updates_the_size() {
    let mut bs = BootServices::new(MemoryType::LoaderData);
    let mut size: usize = 16;
    let buffer = bs.allocate_pool(Status::Success, 0x4000).unwrap();
    let reply = MapReply {
        status: Status::BufferTooSmall,
        map_size: 960,
        map_key: 0,
        descriptor_size: 48,
        descriptor_version: 1,
    };
    let r = bs.get_memory_map(&mut size, buffer, reply);
    assert_eq!(r.unwrap_err(), Released { status: Status::BufferTooSmall, address: 0x4000 });
    assert_eq!(size, 960);
    assert_eq!(bs.outstanding(), 0);

    let buffer = bs.allocate_pool(Status::Success, 0x8000).unwrap();
    let reply = MapReply { status: Status::Success, map_size: 960, map_key: 42, descriptor_size: 48, descriptor_version: 1 };
    let map = bs.get_memory_map(&mut size, buffer, reply).unwrap();
    assert_eq!(size, 960);
    assert_eq!(map.map_key, 42);
    assert_eq!(map.descriptor_size, 48);
    assert_eq!(map.descriptor_version, 1);
    assert_eq!(map.buffer.address(), 0x8000);
    assert_eq!(bs.outstanding(), 1);
}

#[test]
fn map_descriptors_need_the_whole_map() {
    let mut bs = BootServices::new(MemoryType::LoaderData);
    let mut size: usize = 96;
    let buffer = bs.allocate_pool(Status::Success, 0x1000).unwrap();
    let reply = MapReply { status: Status::Success, map_size: 96, map_key: 5, descriptor_size: 48, descriptor_version: 1 };
    let map = bs.get_memory_map(&mut size, buffer, reply).unwrap();
    let mut bytes = record(7, 0, 0, 1, 0, 48);
    assert!(map.descriptors(&bytes).is_none());
    bytes.extend(record(4, 0x1000, 0, 2, 0, 48));
    let ds = map.descriptors(&bytes).unwrap();
    assert_eq!(ds.len(), 2);
    assert_eq!(ds[1].memory_type, MemoryType::BootServicesData);
    assert_eq!(ds[1].number_of_pages, 2);
}
