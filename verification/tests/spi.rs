use driver_cp2130::device::{Endpoint, Endpoints, Inner, SpiClock, SpiConfig};
use driver_cp2130::spi::SpiTransfer;
use driver_cp2130::usb::{Request, Response, Step, UsbError, MAX_PACKET, TIMEOUT_MS};
use driver_cp2130::Error;

fn endpoints() -> Endpoints {
    Endpoints {
        control: Endpoint { config: 1, iface: 0, setting: 0, address: 0 },
        read: Endpoint { config: 1, iface: 0, setting: 0, address: 0x82 },
        write: Endpoint { config: 1, iface: 0, setting: 0, address: 0x01 },
    }
}

/// A device that sends back what it is sent, handing over at most `most`
/// bytes for each bulk read.
struct Loopback {
    most: usize,
    pending: Vec<u8>,
    log: Vec<Request>,
}

impl Loopback {
    fn new(most: usize) -> Loopback {
        Loopback { most, pending: Vec::new(), log: Vec::new() }
    }

    fn answer(&mut self, request: &Request) -> Response {
        self.log.push(request.clone());
        match request {
            Request::BulkWrite { data, .. } => {
                self.pending.extend_from_slice(&data[8..]);
                Ok(Vec::new())
            }
            Request::BulkRead { len, .. } => {
                let n = (*len).min(self.most).min(self.pending.len());
                Ok(self.pending.drain(..n).collect())
            }
            _ => Ok(Vec::new()),
        }
    }
}

fn run(mut step: Step<SpiTransfer, Vec<u8>>, host: &mut Loopback) -> Result<Vec<u8>, Error> {
    loop {
        match step {
            Step::Perform(request, transfer) => {
                let answer = host.answer(&request);
                step = transfer.step(answer);
            }
            Step::Done(outcome) => return outcome,
        }
    }
}

fn pattern(n: usize) -> Vec<u8> {
    (0..n).map(|i| (i * 7 + 3) as u8).collect()
}

fn read_lengths(log: &[Request]) -> Vec<usize> {
    log.iter()
        .filter_map(|r| match r {
            Request::BulkRead { len, .. } => Some(*len),
            _ => None,
        })
        .collect()
}

fn sleeps(log: &[Request]) -> Vec<u64> {
    log.iter()
        .filter_map(|r| match r {
            Request::Sleep { micros } => Some(*micros),
            _ => None,
        })
        .collect()
}

#[test]
fn limits() {
    assert_eq!(MAX_PACKET, 64);
    assert_eq!(TIMEOUT_MS, 200);
}

#[test]
fn every_transfer_is_allowed_200_milliseconds() {
    let transfers = [
        Request::ControlWrite { request_type: 0x40, request: 0x10, data: vec![] },
        Request::ControlRead { request_type: 0xC0, request: 0x11, len: 2 },
        Request::BulkWrite { endpoint: 1, data: vec![0; 8] },
        Request::BulkRead { endpoint: 0x82, len: 64 },
    ];
    for request in transfers {
        assert_eq!(request.timeout_ms(), Some(200));
    }
    assert_eq!(Request::Sleep { micros: 800 }.timeout_ms(), None);
    assert_eq!(Request::BusyWait { nanos: 10 }.timeout_ms(), None);
}

#[test]
fn transfer_time_of_300_bytes_at_3mhz_is_800_microseconds() {
    assert_eq!(SpiClock::Clock3MHz.transfer_time(300), 800);
}

#[test]
fn transfer_time_scales_with_the_length() {
    assert_eq!(SpiClock::Clock3MHz.transfer_time(0), 0);
    assert_eq!(SpiClock::Clock3MHz.transfer_time(3), 8);
    assert_eq!(SpiClock::Clock3MHz.transfer_time(600), 1600);
    assert_eq!(SpiClock::Clock3MHz.transfer_time(900), 2400);
    assert_eq!(SpiClock::Clock3MHz.transfer_time(1), 2);
    assert_eq!(SpiClock::Clock3MHz.transfer_time(34), 90);
}

#[test]
fn transfer_time_at_each_clock() {
    assert_eq!(SpiClock::Clock12Mhz.transfer_time(300), 200);
    assert_eq!(SpiClock::Clock6MHz.transfer_time(300), 400);
    assert_eq!(SpiClock::Clock1_5MHz.transfer_time(300), 1600);
    assert_eq!(SpiClock::Clock750KHz.transfer_time(300), 3200);
    assert_eq!(SpiClock::Clock375MHz.transfer_time(300), 6400);
    assert_eq!(SpiClock::Clock375MHz.transfer_time(1), 21);
    assert_eq!(SpiClock::Clock12Mhz.transfer_time(u64::MAX / 8_000_000), 1_537_228_672_808);
}

#[test]
fn write_sends_one_frame_and_sleeps_for_the_transfer_time() {
    let data = pattern(300);
    let mut host = Loopback::new(64);
    let step = SpiTransfer::write(&endpoints(), SpiClock::Clock3MHz, &data);
    assert_eq!(run(step, &mut host), Ok(Vec::new()));
    let mut frame = vec![0, 0, 1, 0, 0x2C, 0x01, 0, 0];
    frame.extend_from_slice(&data);
    assert_eq!(
        host.log,
        vec![
            Request::BulkWrite { endpoint: 0x01, data: frame },
            Request::Sleep { micros: 800 },
        ]
    );
}

#[test]
fn write_pacing_follows_the_clock_of_the_device() {
    let inner = Inner::with_endpoints(endpoints());
    assert_eq!(inner.spi_clock(), SpiClock::Clock12Mhz);
    let mut host = Loopback::new(64);
    assert_eq!(run(inner.spi_write(&pattern(300)), &mut host), Ok(Vec::new()));
    assert_eq!(sleeps(&host.log), vec![200]);
    let mut host = Loopback::new(64);
    assert_eq!(run(inner.spi_write(&pattern(600)), &mut host), Ok(Vec::new()));
    assert_eq!(sleeps(&host.log), vec![400]);
}

#[test]
fn write_read_of_34_bytes_round_trips() {
    let data = pattern(34);
    let mut host = Loopback::new(64);
    let step = SpiTransfer::write_read(&endpoints(), SpiClock::Clock3MHz, &data, data.len());
    assert_eq!(run(step, &mut host), Ok(data.clone()));
    assert_eq!(read_lengths(&host.log), vec![34]);
    assert_eq!(sleeps(&host.log), vec![90]);
    let mut frame = vec![0, 0, 2, 0, 34, 0, 0, 0];
    frame.extend_from_slice(&data);
    assert_eq!(host.log[0], Request::BulkWrite { endpoint: 0x01, data: frame });
    assert_eq!(host.log[1], Request::BulkRead { endpoint: 0x82, len: 34 });
}

#[test]
fn write_read_of_300_bytes_round_trips() {
    let data = pattern(300);
    let mut host = Loopback::new(64);
    let step = SpiTransfer::write_read(&endpoints(), SpiClock::Clock3MHz, &data, data.len());
    assert_eq!(run(step, &mut host), Ok(data.clone()));
    assert_eq!(read_lengths(&host.log), vec![64, 64, 64, 64, 44]);
    assert_eq!(sleeps(&host.log), vec![800; 5]);
    assert_eq!(host.log.len(), 11);
}

#[test]
fn write_read_round_trips_when_the_host_hands_over_short_pieces() {
    for most in [1usize, 7, 10, 63] {
        for n in [34usize, 300] {
            let data = pattern(n);
            let mut host = Loopback::new(most);
            let inner = Inner::with_endpoints(endpoints());
            assert_eq!(run(inner.spi_write_read(&data, n), &mut host), Ok(data.clone()));
            let reads = read_lengths(&host.log);
            assert_eq!(reads.len(), n.div_ceil(most));
            assert_eq!(reads[0], n.min(64));
        }
    }
}

#[test]
fn write_read_of_a_multiple_of_the_packet_size() {
    let data = pattern(128);
    let mut host = Loopback::new(64);
    let step = SpiTransfer::write_read(&endpoints(), SpiClock::Clock6MHz, &data, 128);
    assert_eq!(run(step, &mut host), Ok(data));
    assert_eq!(read_lengths(&host.log), vec![64, 64]);
}

#[test]
fn write_read_that_expects_nothing_reads_nothing() {
    let data = pattern(5);
    let mut host = Loopback::new(64);
    let step = SpiTransfer::write_read(&endpoints(), SpiClock::Clock3MHz, &data, 0);
    assert_eq!(run(step, &mut host), Ok(Vec::new()));
    assert_eq!(host.log.len(), 1);
}

#[test]
fn read_asks_in_packets_and_does_not_sleep() {
    let mut host = Loopback::new(64);
    host.pending = pattern(150);
    let inner = Inner::with_endpoints(endpoints());
    assert_eq!(run(inner.spi_read(150), &mut host), Ok(pattern(150)));
    assert_eq!(
        host.log[0],
        Request::BulkWrite { endpoint: 0x01, data: vec![0, 0, 0, 0, 150, 0, 0, 0] }
    );
    assert_eq!(read_lengths(&host.log), vec![64, 64, 22]);
    assert!(sleeps(&host.log).is_empty());
}

#[test]
fn a_failure_of_the_command_ends_the_transfer() {
    let step = SpiTransfer::write(&endpoints(), SpiClock::Clock3MHz, &[1, 2, 3]);
    match step {
        Step::Perform(_, transfer) => match transfer.step(Err(UsbError::Timeout)) {
            Step::Done(outcome) => assert_eq!(outcome, Err(Error::Usb(UsbError::Timeout))),
            Step::Perform(..) => panic!("the transfer went on"),
        },
        Step::Done(_) => panic!("the transfer sent nothing"),
    }
}

#[test]
fn a_failure_of_a_read_ends_the_transfer() {
    let data = pattern(200);
    let mut step = SpiTransfer::write_read(&endpoints(), SpiClock::Clock3MHz, &data, 200);
    let mut asked = 0;
    let outcome = loop {
        match step {
            Step::Perform(request, transfer) => {
                asked += 1;
                let answer = match request {
                    Request::BulkRead { len, .. } if asked > 4 => {
                        assert_eq!(len, 64);
                        Err(UsbError::Pipe)
                    }
                    Request::BulkRead { len, .. } => Ok(vec![0u8; len]),
                    _ => Ok(Vec::new()),
                };
                step = transfer.step(answer);
            }
            Step::Done(outcome) => break outcome,
        }
    };
    assert_eq!(outcome, Err(Error::Usb(UsbError::Pipe)));
    assert_eq!(asked, 6);
}

#[test]
fn an_answer_longer_than_asked_for_is_an_overflow() {
    let step = SpiTransfer::read(&endpoints(), SpiClock::Clock3MHz, 10);
    let transfer = match step {
        Step::Perform(_, transfer) => transfer,
        Step::Done(_) => panic!("the transfer sent nothing"),
    };
    let transfer = match transfer.step(Ok(Vec::new())) {
        Step::Perform(request, transfer) => {
            assert_eq!(request, Request::BulkRead { endpoint: 0x82, len: 10 });
            transfer
        }
        Step::Done(_) => panic!("the transfer read nothing"),
    };
    match transfer.step(Ok(vec![0u8; 11])) {
        Step::Done(outcome) => assert_eq!(outcome, Err(Error::Usb(UsbError::Overflow))),
        Step::Perform(..) => panic!("the transfer went on"),
    }
}

#[test]
fn an_empty_answer_is_asked_for_again() {
    let step = SpiTransfer::read(&endpoints(), SpiClock::Clock3MHz, 4);
    let transfer = match step {
        Step::Perform(_, transfer) => transfer,
        Step::Done(_) => panic!("the transfer sent nothing"),
    };
    let mut step = transfer.step(Ok(Vec::new()));
    for _ in 0..3 {
        step = match step {
            Step::Perform(request, transfer) => {
                assert_eq!(request, Request::BulkRead { endpoint: 0x82, len: 4 });
                transfer.step(Ok(Vec::new()))
            }
            Step::Done(_) => panic!("the transfer ended early"),
        };
    }
    match step {
        Step::Perform(_, transfer) => match transfer.step(Ok(vec![9, 8, 7, 6])) {
            Step::Done(outcome) => assert_eq!(outcome, Ok(vec![9, 8, 7, 6])),
            Step::Perform(..) => panic!("the transfer went on"),
        },
        Step::Done(_) => panic!("the transfer ended early"),
    }
}

#[test]
fn default_config_clock_paces_like_3mhz() {
    assert_eq!(SpiConfig::default().clock.transfer_time(300), 800);
}
