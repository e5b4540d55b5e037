use image_cache::{BindGroup, Entry, Error, Handle, Memory, Size};

fn handle(id: u64, width: u32, height: u32, len: usize) -> Handle {
    Handle { id, width, height, pixels: (0..len).map(|i| i as u8).collect() }
}

#[test]
fn load_valid_rgba_gives_host_pixels() {
    let h = handle(7, 2, 3, 24);
    match Memory::load(&h) {
        Memory::Host(image) => {
            assert_eq!(image.dimensions(), (2, 3));
            assert_eq!(image.pixels, h.pixels);
        }
        other => panic!("expected host pixels, got {:?}", other),
    }
}

#[test]
fn load_zero_width_is_empty() {
    assert!(matches!(Memory::load(&handle(1, 0, 3, 0)), Memory::Error(Error::Empty)));
}

#[test]
fn load_zero_height_is_empty() {
    assert!(matches!(Memory::load(&handle(1, 4, 0, 0)), Memory::Error(Error::Empty)));
}

#[test]
fn load_short_pixels_is_invalid() {
    assert!(matches!(Memory::load(&handle(1, 2, 2, 15)), Memory::Error(Error::Invalid)));
}

#[test]
fn load_long_pixels_is_invalid() {
    assert!(matches!(Memory::load(&handle(1, 2, 2, 17)), Memory::Error(Error::Invalid)));
}

#[test]
fn dimensions_of_host_record() {
    let m = Memory::load(&handle(1, 5, 1, 20));
    assert_eq!(m.dimensions(), Size { width: 5, height: 1 });
}

#[test]
fn dimensions_of_device_record_come_from_its_slot() {
    let m = Memory::Device {
        entry: Entry { slot: 3, size: Size::new(64, 32) },
        bind_group: Some(BindGroup { id: 9 }),
        allocation: None,
    };
    assert_eq!(m.dimensions(), Size::new(64, 32));
}

#[test]
fn failed_record_reports_unit_size() {
    // A failed load of what was meant to be a 300 by 200 image.
    let m = Memory::load(&handle(1, 300, 200, 10));
    assert!(matches!(m, Memory::Error(Error::Invalid)));
    assert_eq!(m.dimensions(), Size::new(1, 1));
    assert_eq!(Memory::Error(Error::Empty).dimensions(), Size::new(1, 1));
}

#[test]
fn host_copies_pixels_only_from_host_records() {
    let h = handle(1, 1, 1, 4);
    let copy = Memory::load(&h).host().expect("host pixels");
    assert_eq!(copy.width, 1);
    assert_eq!(copy.height, 1);
    assert_eq!(copy.pixels, vec![0, 1, 2, 3]);

    let device = Memory::Device {
        entry: Entry { slot: 0, size: Size::new(1, 1) },
        bind_group: None,
        allocation: None,
    };
    assert!(device.host().is_none());
    assert!(Memory::Error(Error::Invalid).host().is_none());
}

#[test]
fn handle_id_is_its_identity() {
    assert_eq!(handle(42, 1, 1, 4).id(), 42);
}
