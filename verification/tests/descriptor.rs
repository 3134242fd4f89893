//! Shape and field values of the generated device descriptor table.

use flash_algorithm::{FlashDevice, Sector};

#[test]
fn sector_array_has_declared_count_plus_sentinel() {
    let sectors = vec![
        Sector { size: 0x1000, address: 0x0 },
        Sector { size: 0x1000, address: 0x1000 },
    ];
    let d = FlashDevice::new(0x0, 0x2000, 0x400, 0xff, sectors);
    assert_eq!(d.flash_sectors.len(), 3);
    assert_eq!(d.flash_sectors[0], Sector { size: 0x1000, address: 0x0 });
    assert_eq!(d.flash_sectors[1], Sector { size: 0x1000, address: 0x1000 });
    assert_eq!(d.flash_sectors[2], Sector { size: 0xffff_ffff, address: 0xffff_ffff });
}

#[test]
fn empty_geometry_still_carries_the_sentinel() {
    let d = FlashDevice::new(0x0, 0x0, 0x100, 0x00, Vec::new());
    assert_eq!(d.flash_sectors.len(), 1);
    assert_eq!(d.flash_sectors[0], Sector { size: 0xffff_ffff, address: 0xffff_ffff });
}

#[test]
fn single_sector_geometry() {
    let sectors = vec![Sector { size: 0x800, address: 0x0800_0000 }];
    let d = FlashDevice::new(0x0800_0000, 0x8000, 0x200, 0xff, sectors);
    assert_eq!(d.flash_sectors.len(), 2);
    assert_eq!(d.flash_sectors[0], Sector { size: 0x800, address: 0x0800_0000 });
    assert_eq!(d.flash_sectors[1], Sector { size: 0xffff_ffff, address: 0xffff_ffff });
}

#[test]
fn fixed_fields_hold_their_contractual_values() {
    let d = FlashDevice::new(0x0, 0x2000, 0x400, 0xff, Vec::new());
    assert_eq!(d.vers, 0);
    assert_eq!(d.dev_type, 5);
    assert_eq!(d.reserved, 0);
    assert_eq!(d.program_time_out, 1000);
    assert_eq!(d.erase_time_out, 2000);
    assert_eq!(d.dev_name.len(), 128);
    assert!(d.dev_name.iter().all(|b| *b == 0));
}

#[test]
fn configured_fields_come_through() {
    let d = FlashDevice::new(0x0800_0000, 0x0010_0000, 0x400, 0xa5, Vec::new());
    assert_eq!(d.dev_addr, 0x0800_0000);
    assert_eq!(d.device_size, 0x0010_0000);
    assert_eq!(d.page_size, 0x400);
    assert_eq!(d.empty, 0xa5);
}
