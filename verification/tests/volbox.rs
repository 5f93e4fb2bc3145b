use mmio::Allow;
use mmio::Deny;
use mmio::VolBox;
use mmio::Warn;

#[test]
fn acquire_then_release_returns_address() {
    let b = VolBox::<u32, Allow, Allow>::new(0x1000_0000, 7);
    assert_eq!(b.into_raw(), 0x1000_0000);
}

#[test]
fn acquire_then_release_without_access() {
    let b = VolBox::<u8, Deny, Deny>::new(0x1000_0005, 0);
    assert_eq!(b.into_raw(), 0x1000_0005);
}

#[test]
fn write_then_read() {
    let mut b = VolBox::<u32, Allow, Allow>::new(0x1000_0000, 0);
    b.write(0xdead_beef);
    assert_eq!(b.read(), 0xdead_beef);
}

#[test]
fn write_then_read_warn() {
    let mut b = VolBox::<u8, Warn, Warn>::new(0x1000_0000, 0);
    b.write(0x20);
    assert_eq!(b.read(), 0x20);
}

#[test]
fn read_initial_value() {
    let b = VolBox::<u16, Allow, Deny>::new(0x4000, 0x55aa);
    assert_eq!(b.read(), 0x55aa);
}

#[test]
fn range_addresses_are_spaced_and_distinct() {
    let boxes = VolBox::<u32, Allow, Allow>::new_range(0x2000, vec![1, 2, 3]);
    assert_eq!(boxes.len(), 3);
    let mut addrs = Vec::new();
    for b in boxes {
        addrs.push(b.into_raw());
    }
    assert_eq!(addrs, vec![0x2000, 0x2004, 0x2008]);
    assert_ne!(addrs[0], addrs[1]);
    assert_ne!(addrs[0], addrs[2]);
    assert_ne!(addrs[1], addrs[2]);
}

#[test]
fn range_keeps_initial_values() {
    let boxes = VolBox::<u8, Allow, Allow>::new_range(0x3000, vec![10, 20, 30, 40]);
    assert_eq!(boxes.len(), 4);
    for (i, b) in boxes.into_iter().enumerate() {
        assert_eq!(b.read(), 10 * (i as u8 + 1));
    }
}

#[test]
fn range_of_nothing() {
    let boxes = VolBox::<u64, Allow, Allow>::new_range(0x8000, Vec::new());
    assert_eq!(boxes.len(), 0);
}

#[test]
fn write_only_handle() {
    let mut b = VolBox::<u32, Deny, Allow>::new(0x5000, 0);
    b.write(42);
    assert_eq!(b.into_raw(), 0x5000);
}

#[test]
fn whole_run_read_and_write() {
    let mut b = VolBox::<[u32; 2], Allow, Allow>::new(0xa000, [1, 2]);
    assert_eq!(b.read(), [1, 2]);
    b.write([3, 4]);
    assert_eq!(b.read(), [3, 4]);
}

#[test]
fn indexed_write_then_read() {
    let mut b = VolBox::<[u16; 4], Allow, Allow>::new(0x6000, [0, 0, 0, 0]);
    b.write_at(2, 9);
    assert_eq!(b.read_at(2), 9);
    assert_eq!(b.read_at(0), 0);
    assert_eq!(b.read_at(1), 0);
    assert_eq!(b.read_at(3), 0);
}

#[test]
fn indexed_access_matches_element_handle() {
    let mut run = VolBox::<[u32; 3], Allow, Allow>::new(0x7000, [5, 6, 7]);
    run.write_at(1, 99);
    // A single-element handle over the slot at offset 1 * size behaves the same.
    let elem = VolBox::<u32, Allow, Allow>::new(0x7000 + 4, 99);
    assert_eq!(run.read_at(1), elem.read());
    assert_eq!(elem.into_raw(), 0x7004);
}

#[test]
fn indexed_access_at_last_slot() {
    let mut b = VolBox::<[u8; 2], Warn, Warn>::new(0x9000, [1, 2]);
    assert_eq!(b.read_at(1), 2);
    b.write_at(1, 3);
    assert_eq!(b.read_at(1), 3);
}
