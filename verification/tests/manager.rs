use driver_cp2130::connect::DeviceDescriptor;
use driver_cp2130::prelude::{Cp2130Error, Filter, Manager};

fn device(vendor_id: u16, product_id: u16) -> DeviceDescriptor {
    DeviceDescriptor { vendor_id, product_id, num_configurations: 1 }
}

fn attached() -> Vec<DeviceDescriptor> {
    vec![
        device(0x1d6b, 0x0002),
        device(0x10c4, 0x87a0),
        device(0x10c4, 0xea60),
        device(0x10c4, 0x87a0),
        device(0x0483, 0x87a0),
        device(0x10c4, 0x87a0),
    ]
}

#[test]
fn the_default_filter_is_the_chip() {
    assert_eq!(Filter::default(), Filter { vid: 0x10c4, pid: 0x87a0 });
}

#[test]
fn a_filter_asks_for_both_ids() {
    let filter = Filter::default();
    assert!(filter.matches(&device(0x10c4, 0x87a0)));
    assert!(!filter.matches(&device(0x10c4, 0x87a1)));
    assert!(!filter.matches(&device(0x10c5, 0x87a0)));
}

#[test]
fn devices_filtered_gives_the_positions_of_the_matches() {
    assert_eq!(Manager::devices_filtered(Filter::default(), &attached()), vec![1, 3, 5]);
    assert_eq!(
        Manager::devices_filtered(Filter { vid: 0x1d6b, pid: 0x0002 }, &attached()),
        vec![0]
    );
    assert!(Manager::devices_filtered(Filter { vid: 1, pid: 2 }, &attached()).is_empty());
    assert!(Manager::devices_filtered(Filter::default(), &Vec::new()).is_empty());
}

#[test]
fn device_picks_a_match_by_its_index() {
    assert_eq!(Manager::device(Filter::default(), 0, &attached()), Ok(1));
    assert_eq!(Manager::device(Filter::default(), 1, &attached()), Ok(3));
    assert_eq!(Manager::device(Filter::default(), 2, &attached()), Ok(5));
}

#[test]
fn device_beyond_the_matches_is_an_invalid_index() {
    assert_eq!(
        Manager::device(Filter::default(), 3, &attached()),
        Err(Cp2130Error::InvalidIndex)
    );
    assert_eq!(
        Manager::device(Filter::default(), 0, &Vec::new()),
        Err(Cp2130Error::InvalidIndex)
    );
    assert_eq!(
        Manager::device(Filter { vid: 1, pid: 2 }, 0, &attached()),
        Err(Cp2130Error::InvalidIndex)
    );
}
