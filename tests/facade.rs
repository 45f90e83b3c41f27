use uefi::boot::{BootServices, Event, Handle, Interface, LocateSearchType, MapReply, Phase, Released};
use uefi::memory::MemoryType;
use uefi::status::Status;

fn fresh_map(bs: &mut BootServices, key: usize) {
    let mut size: usize = 4096;
    let buffer = bs.allocate_pool(Status::Success, 0x9000).unwrap();
    let reply = MapReply { status: Status::Success, map_size: 2400, map_key: key, descriptor_size: 48, descriptor_version: 1 };
    bs.get_memory_map(&mut size, buffer, reply).unwrap();
}

#[test]
fn allocate_then_release_leaves_nothing_outstanding() {
    let mut bs = BootServices::new(MemoryType::LoaderData);
    let kept = bs.allocate_pool(Status::Success, 0x100).unwrap();
    assert_eq!(bs.outstanding(), 1);
    let block = bs.allocate_pool(Status::Success, 0x200).unwrap();
    assert_eq!(block.address(), 0x200);
    assert_eq!(bs.outstanding(), 2);
    assert_eq!(bs.free_pool(block), 0x200);
    assert_eq!(bs.outstanding(), 1);
    assert_eq!(bs.free_pool(kept), 0x100);
    assert_eq!(bs.outstanding(), 0);
}

#[test]
fn failed_allocation_reports_status_and_records_nothing() {
    let mut bs = BootServices::new(MemoryType::BootServicesData);
    let r = bs.allocate_pool(Status::OutOfResources, 0);
    assert_eq!(r.unwrap_err(), Status::OutOfResources);
    assert_eq!(bs.outstanding(), 0);
    assert_eq!(bs.pool_type(), MemoryType::BootServicesData);
}

#[test]
fn waiting_on_no_events_fails_at_once() {
    let bs = BootServices::new(MemoryType::LoaderData);
    let r = bs.wait_for_event(&[]);
    assert_eq!(r.unwrap_err(), Status::InvalidParameter);
}

#[test]
fn waiting_reports_the_signalled_index() {
    let bs = BootServices::new(MemoryType::LoaderData);
    let events = [Event(0x10), Event(0x20), Event(0x30)];
    let w = bs.wait_for_event(&events).unwrap();
    assert_eq!(w.count(), 3);
    assert_eq!(w.finish(Status::Success, 2), Ok(2));
    let w = bs.wait_for_event(&events).unwrap();
    assert_eq!(w.finish(Status::Unsupported, 0), Err(Status::Unsupported));
}

#[test]
fn protocol_lookups_agree_on_the_interface() {
    let mut bs = BootServices::new(MemoryType::LoaderData);
    let by_handle = bs.handle_protocol(Status::Success, 0xDEAD_0000).unwrap();
    let slot = bs.allocate_pool(Status::Success, 0x700).unwrap();
    let (located, slot) = bs.locate_protocol(slot, Status::Success, 0xDEAD_0000).unwrap();
    assert_eq!(by_handle, located);
    assert_eq!(located, Interface { address: 0xDEAD_0000 });
    assert_eq!(slot.address(), 0x700);
    assert_eq!(bs.outstanding(), 1);
}

#[test]
fn failed_locate_releases_its_slot() {
    let mut bs = BootServices::new(MemoryType::LoaderData);
    let slot = bs.allocate_pool(Status::Success, 0x700).unwrap();
    let r = bs.locate_protocol(slot, Status::NotFound, 0);
    assert_eq!(r.unwrap_err(), Released { status: Status::NotFound, address: 0x700 });
    assert_eq!(bs.outstanding(), 0);
    assert_eq!(bs.handle_protocol(Status::Unsupported, 0), Err(Status::Unsupported));
}

#[test]
fn handle_search_hands_over_the_buffer() {
    let mut bs = BootServices::new(MemoryType::LoaderData);
    let hs = bs.locate_handle_by_protocol(Status::Success, 3, 0x5000).unwrap();
    assert_eq!(hs.count, 3);
    assert_eq!(hs.buffer.address(), 0x5000);
    assert_eq!(bs.outstanding(), 1);
    assert_eq!(bs.free_pool(hs.buffer), 0x5000);
    assert_eq!(bs.outstanding(), 0);
    assert_eq!(bs.locate_handle_by_protocol(Status::NotFound, 0, 0).unwrap_err(), Status::NotFound);
    assert_eq!(bs.outstanding(), 0);
    assert_eq!(LocateSearchType::ByProtocol.code(), 2);
    assert_eq!(LocateSearchType::AllHandles.code(), 0);
    assert_eq!(LocateSearchType::ByRegisterNotify.code(), 1);
}

#[test]
fn exit_with_stale_key_is_refused() {
    let mut bs = BootServices::new(MemoryType::LoaderData);
    let image = Handle(0xABC);
    assert_eq!(bs.exit_boot_services(&image, &7).unwrap_err(), Status::InvalidParameter);
    fresh_map(&mut bs, 7);
    assert_eq!(bs.exit_boot_services(&image, &6).unwrap_err(), Status::InvalidParameter);
    let _scratch = bs.allocate_pool(Status::Success, 0x300).unwrap();
    assert_eq!(bs.exit_boot_services(&image, &7).unwrap_err(), Status::InvalidParameter);
}

#[test]
fn exit_with_fresh_key_succeeds_once() {
    let mut bs = BootServices::new(MemoryType::LoaderData);
    let image = Handle(0xABC);
    fresh_map(&mut bs, 11);
    let q = bs.exit_boot_services(&image, &11).unwrap();
    assert_eq!(q.image_handle(), image);
    assert_eq!(q.map_key(), 11);
    assert_eq!(bs.finish_exit(q, Status::Success), Status::Success);
    assert_eq!(bs.phase(), Phase::Retired);
    assert_eq!(bs.exit_boot_services(&image, &11).unwrap_err(), Status::InvalidParameter);
}

#[test]
fn exit_refused_by_firmware_keeps_services() {
    let mut bs = BootServices::new(MemoryType::LoaderData);
    let image = Handle(1);
    fresh_map(&mut bs, 3);
    let q = bs.exit_boot_services(&image, &3).unwrap();
    assert_eq!(bs.finish_exit(q, Status::InvalidParameter), Status::InvalidParameter);
    assert_eq!(bs.phase(), Phase::Available);
    assert!(bs.exit_boot_services(&image, &3).is_ok());
}

#[test]
fn copy_makes_the_prefix_equal() {
    let bs = BootServices::new(MemoryType::LoaderData);
    let src = [1u8, 2, 3, 4, 5];
    let mut dest = vec![9u8; 8];
    bs.copy_mem(&mut dest, &src, 4);
    assert_eq!(&dest[0..4], &src[0..4]);
    assert_eq!(dest, vec![1, 2, 3, 4, 9, 9, 9, 9]);
    bs.copy_mem(&mut dest, &src, 0);
    assert_eq!(dest, vec![1, 2, 3, 4, 9, 9, 9, 9]);
}

#[test]
fn fill_sets_every_byte_of_the_prefix() {
    let bs = BootServices::new(MemoryType::LoaderData);
    let mut s = vec![0u8; 6];
    bs.set_mem(&mut s, 0x5A, 5);
    assert_eq!(s, vec![0x5A, 0x5A, 0x5A, 0x5A, 0x5A, 0]);
    bs.set_mem(&mut s, 7, 6);
    assert!(s.iter().all(|&b| b == 7));
}
