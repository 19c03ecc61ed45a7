use driver_cp2130::connect::{
    resolve, Answer, ConfigDescriptor, Connect, ConnectRequest, Connecting, DeviceDescriptor,
    Direction, EndpointDescriptor, Interface, InterfaceDescriptor, TransferType,
};
use driver_cp2130::device::{Endpoint, Endpoints, Info, Inner, SpiClock};
use driver_cp2130::usb::UsbError;
use driver_cp2130::Error;

fn endpoint(address: u8, transfer_type: TransferType, direction: Direction) -> EndpointDescriptor {
    EndpointDescriptor { address, transfer_type, direction }
}

fn setting(interface_number: u8, setting_number: u8, endpoints: Vec<EndpointDescriptor>) -> InterfaceDescriptor {
    InterfaceDescriptor { interface_number, setting_number, endpoints }
}

fn chip() -> ConfigDescriptor {
    ConfigDescriptor {
        number: 1,
        interfaces: vec![Interface {
            descriptors: vec![setting(
                0,
                0,
                vec![
                    endpoint(0x01, TransferType::Bulk, Direction::Out),
                    endpoint(0x82, TransferType::Bulk, Direction::In),
                ],
            )],
        }],
    }
}

fn without_bulk_in() -> ConfigDescriptor {
    ConfigDescriptor {
        number: 1,
        interfaces: vec![Interface {
            descriptors: vec![setting(
                0,
                0,
                vec![
                    endpoint(0x01, TransferType::Bulk, Direction::Out),
                    endpoint(0x82, TransferType::Interrupt, Direction::In),
                ],
            )],
        }],
    }
}

fn descriptor(num_configurations: u8) -> DeviceDescriptor {
    DeviceDescriptor { vendor_id: 0x10c4, product_id: 0x87a0, num_configurations }
}

const CONTROL: Endpoint = Endpoint { config: 1, iface: 0, setting: 0, address: 0 };

/// Runs a connection. Each request is answered by `answer`; the requests
/// made are returned with the outcome.
fn run(
    descriptor: &DeviceDescriptor,
    answer: &dyn Fn(usize, &ConnectRequest) -> Result<Answer, UsbError>,
) -> (Result<(Inner, Info), Error>, Vec<ConnectRequest>) {
    let mut log = Vec::new();
    let mut step = Inner::new(descriptor);
    loop {
        match step {
            Connecting::Perform(request, connect) => {
                let a = answer(log.len(), &request);
                log.push(request);
                step = connect.step(a);
            }
            Connecting::Done(outcome) => return (outcome, log),
        }
    }
}

fn host(languages: usize, config: ConfigDescriptor, driver: bool) -> impl Fn(usize, &ConnectRequest) -> Result<Answer, UsbError> {
    move |_, request| {
        Ok(match request {
            ConnectRequest::ReadLanguages => Answer::Languages(languages),
            ConnectRequest::ActiveConfiguration => Answer::Configuration(1),
            ConnectRequest::ReadManufacturer(_) => Answer::Text(String::from("Silicon Labs")),
            ConnectRequest::ReadProduct(_) => Answer::Text(String::from("CP2130")),
            ConnectRequest::ReadSerialNumber(_) => Answer::Text(String::from("0042")),
            ConnectRequest::ReadConfigDescriptor(_) => Answer::Descriptor(config.clone()),
            ConnectRequest::KernelDriverActive(_) => Answer::Active(driver),
            _ => Answer::Done,
        })
    }
}

#[test]
fn resolve_finds_the_bulk_endpoints() {
    assert_eq!(
        resolve(&chip()),
        Ok(Endpoints {
            control: CONTROL,
            read: Endpoint { config: 1, iface: 0, setting: 0, address: 0x82 },
            write: Endpoint { config: 1, iface: 0, setting: 0, address: 0x01 },
        })
    );
}

#[test]
fn resolve_without_a_bulk_in_endpoint_fails_with_endpoint() {
    assert_eq!(resolve(&without_bulk_in()), Err(Error::Endpoint));
}

#[test]
fn resolve_without_a_bulk_out_endpoint_fails_with_endpoint() {
    let config = ConfigDescriptor {
        number: 1,
        interfaces: vec![Interface {
            descriptors: vec![setting(
                0,
                0,
                vec![
                    endpoint(0x82, TransferType::Bulk, Direction::In),
                    endpoint(0x03, TransferType::Isochronous, Direction::Out),
                    endpoint(0x04, TransferType::Control, Direction::Out),
                ],
            )],
        }],
    };
    assert_eq!(resolve(&config), Err(Error::Endpoint));
    let empty = ConfigDescriptor { number: 1, interfaces: Vec::new() };
    assert_eq!(resolve(&empty), Err(Error::Endpoint));
}

#[test]
fn resolve_takes_the_last_bulk_endpoint_of_each_direction() {
    let config = ConfigDescriptor {
        number: 3,
        interfaces: vec![
            Interface {
                descriptors: vec![
                    setting(0, 0, vec![endpoint(0x01, TransferType::Bulk, Direction::Out)]),
                    setting(
                        0,
                        1,
                        vec![
                            endpoint(0x81, TransferType::Bulk, Direction::In),
                            endpoint(0x02, TransferType::Bulk, Direction::Out),
                        ],
                    ),
                ],
            },
            Interface { descriptors: Vec::new() },
            Interface {
                descriptors: vec![
                    setting(2, 0, vec![endpoint(0x83, TransferType::Bulk, Direction::In)]),
                    setting(2, 1, vec![endpoint(0x84, TransferType::Interrupt, Direction::In)]),
                ],
            },
        ],
    };
    assert_eq!(
        resolve(&config),
        Ok(Endpoints {
            control: CONTROL,
            read: Endpoint { config: 3, iface: 2, setting: 0, address: 0x83 },
            write: Endpoint { config: 3, iface: 0, setting: 1, address: 0x02 },
        })
    );
}

#[test]
fn a_connection_reads_the_device_and_activates_its_configuration() {
    let (outcome, log) = run(&descriptor(1), &host(1, chip(), false));
    let (inner, info) = outcome.unwrap();
    assert_eq!(
        log,
        vec![
            ConnectRequest::Open,
            ConnectRequest::Reset,
            ConnectRequest::ReadLanguages,
            ConnectRequest::ActiveConfiguration,
            ConnectRequest::ReadManufacturer(0),
            ConnectRequest::ReadProduct(0),
            ConnectRequest::ReadSerialNumber(0),
            ConnectRequest::ReadConfigDescriptor(0),
            ConnectRequest::KernelDriverActive(0),
            ConnectRequest::SetActiveConfiguration(1),
            ConnectRequest::SetActiveConfiguration(1),
        ]
    );
    assert_eq!(info.manufacturer(), "Silicon Labs");
    assert_eq!(info.product(), "CP2130");
    assert_eq!(info.serial(), "0042");
    assert_eq!(inner.endpoints().write.address, 0x01);
    assert_eq!(inner.endpoints().read.address, 0x82);
    assert_eq!(inner.endpoints().control, CONTROL);
    assert_eq!(inner.spi_clock(), SpiClock::Clock12Mhz);
    for pin in 0..=10u8 {
        assert!(!inner.is_allocated(pin));
    }
}

#[test]
fn a_kernel_driver_is_detached_before_the_configuration_is_activated() {
    let (outcome, log) = run(&descriptor(1), &host(2, chip(), true));
    assert!(outcome.is_ok());
    assert_eq!(
        &log[8..],
        &[
            ConnectRequest::KernelDriverActive(0),
            ConnectRequest::DetachKernelDriver(0),
            ConnectRequest::SetActiveConfiguration(1),
            ConnectRequest::SetActiveConfiguration(1),
        ]
    );
}

#[test]
fn a_descriptor_without_a_bulk_in_endpoint_ends_the_connection() {
    let (outcome, log) = run(&descriptor(1), &host(1, without_bulk_in(), true));
    assert_eq!(outcome.err(), Some(Error::Endpoint));
    assert_eq!(log.last(), Some(&ConnectRequest::ReadConfigDescriptor(0)));
    assert_eq!(log.len(), 8);
}

#[test]
fn a_device_without_languages_ends_the_connection() {
    let (outcome, log) = run(&descriptor(1), &host(0, chip(), false));
    assert_eq!(outcome.err(), Some(Error::NoLanguages));
    assert_eq!(log.last(), Some(&ConnectRequest::ActiveConfiguration));
    assert_eq!(log.len(), 4);
}

#[test]
fn a_device_with_two_configurations_ends_the_connection() {
    for count in [0u8, 2, 255] {
        let (outcome, log) = run(&descriptor(count), &host(1, chip(), false));
        assert_eq!(outcome.err(), Some(Error::Configurations));
        assert_eq!(log.last(), Some(&ConnectRequest::ReadSerialNumber(0)));
    }
}

#[test]
fn a_failure_of_the_host_ends_the_connection_at_any_request() {
    let good = host(1, chip(), true);
    for at in 0..12usize {
        let failing = |n: usize, request: &ConnectRequest| {
            if n == at {
                Err(UsbError::Access)
            } else {
                good(n, request)
            }
        };
        let (outcome, log) = run(&descriptor(1), &failing);
        assert_eq!(outcome.err(), Some(Error::Usb(UsbError::Access)));
        assert_eq!(log.len(), at + 1);
    }
}

#[test]
fn an_answer_of_the_wrong_kind_ends_the_connection() {
    let good = host(1, chip(), false);
    for at in [2usize, 4, 5, 6, 7, 8] {
        let confused = |n: usize, request: &ConnectRequest| {
            if n == at {
                Ok(Answer::Done)
            } else {
                good(n, request)
            }
        };
        let (outcome, log) = run(&descriptor(1), &confused);
        assert_eq!(outcome.err(), Some(Error::Usb(UsbError::Other)));
        assert_eq!(log.len(), at + 1);
    }
}

#[test]
fn connect_begins_by_opening_the_device() {
    match Connect::begin(&descriptor(1)) {
        Connecting::Perform(request, _) => assert_eq!(request, ConnectRequest::Open),
        Connecting::Done(_) => panic!("nothing was asked"),
    }
}

#[test]
fn the_reading_of_strings_is_allowed_200_milliseconds() {
    assert_eq!(ConnectRequest::ReadLanguages.timeout_ms(), Some(200));
    assert_eq!(ConnectRequest::ReadManufacturer(0).timeout_ms(), Some(200));
    assert_eq!(ConnectRequest::ReadProduct(0).timeout_ms(), Some(200));
    assert_eq!(ConnectRequest::ReadSerialNumber(0).timeout_ms(), Some(200));
    assert_eq!(ConnectRequest::Open.timeout_ms(), None);
    assert_eq!(ConnectRequest::SetActiveConfiguration(1).timeout_ms(), None);
}
