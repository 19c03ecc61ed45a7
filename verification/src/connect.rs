//! Connecting to a chip: reading what it says about itself, finding its bulk
//! endpoints and activating its configuration.

use crate::device::{Endpoint, Endpoints, Info, InfoView, Inner, SpiClock};
use crate::usb::{UsbError, TIMEOUT_MS};
use crate::Error;
use vstd::prelude::*;

verus! {

/// Transfer type of an endpoint.
#[derive(Debug, PartialEq, Eq, Structural, Clone, Copy)]
pub enum TransferType {
    Control,
    Isochronous,
    Bulk,
    Interrupt,
}

/// Direction of an endpoint, seen from the host.
#[derive(Debug, PartialEq, Eq, Structural, Clone, Copy)]
pub enum Direction {
    In,
    Out,
}

/// What a device descriptor says of the device.
#[derive(Debug, PartialEq, Eq, Structural, Clone, Copy)]
pub struct DeviceDescriptor {
    pub vendor_id: u16,
    pub product_id: u16,
    pub num_configurations: u8,
}

/// Descriptor of one endpoint.
#[derive(Debug, PartialEq, Eq, Structural, Clone, Copy)]
pub struct EndpointDescriptor {
    pub address: u8,
    pub transfer_type: TransferType,
    pub direction: Direction,
}

/// Descriptor of one alternate setting of an interface.
#[derive(Debug, Clone, PartialEq, Eq)]
pub struct InterfaceDescriptor {
    pub interface_number: u8,
    pub setting_number: u8,
    pub endpoints: Vec<EndpointDescriptor>,
}

/// An interface: its alternate settings.
#[derive(Debug, Clone, PartialEq, Eq)]
pub struct Interface {
    pub descriptors: Vec<InterfaceDescriptor>,
}

/// Descriptor of a configuration.
#[derive(Debug, Clone, PartialEq, Eq)]
pub struct ConfigDescriptor {
    pub number: u8,
    pub interfaces: Vec<Interface>,
}

/// An endpoint found in a configuration, with its kind.
pub struct Candidate {
    pub endpoint: Endpoint,
    pub transfer_type: TransferType,
    pub direction: Direction,
}

impl Candidate {
    /// Whether this is a bulk endpoint of the given direction.
    pub open spec fn is_bulk(self, direction: Direction) -> bool {
        self.transfer_type == TransferType::Bulk && self.direction == direction
    }
}

/// The endpoints of one alternate setting, in the order of its descriptor.
pub open spec fn setting_candidates(number: u8, setting: InterfaceDescriptor) -> Seq<Candidate> {
    setting.endpoints@.map_values(
        |e: EndpointDescriptor|
            Candidate {
                endpoint: Endpoint {
                    config: number,
                    iface: setting.interface_number,
                    setting: setting.setting_number,
                    address: e.address,
                },
                transfer_type: e.transfer_type,
                direction: e.direction,
            },
    )
}

/// The endpoints of one interface, setting after setting.
pub open spec fn interface_candidates(number: u8, interface: Interface) -> Seq<Candidate> {
    interface.descriptors@.map_values(
        |d: InterfaceDescriptor| setting_candidates(number, d),
    ).flatten()
}

impl View for ConfigDescriptor {
    type V = Seq<Candidate>;

    /// All endpoints of the configuration in the order in which its
    /// interfaces, their settings and the settings' endpoints are listed.
    open spec fn view(&self) -> Seq<Candidate> {
        self.interfaces@.map_values(|i: Interface| interface_candidates(self.number, i)).flatten()
    }
}

/// The last bulk endpoint of the given direction among the candidates.
pub open spec fn last_bulk(candidates: Seq<Candidate>, direction: Direction) -> Option<Endpoint>
    decreases candidates.len(),
{
    if candidates.len() == 0 {
        None
    } else if candidates.last().is_bulk(direction) {
        Some(candidates.last().endpoint)
    } else {
        last_bulk(candidates.drop_last(), direction)
    }
}

/// The control endpoint, which every device has.
pub open spec fn control_endpoint() -> Endpoint {
    Endpoint { config: 1, iface: 0, setting: 0, address: 0 }
}

/// The endpoints the driver uses on a device with the given candidates:
/// the last bulk-out endpoint to write to and the last bulk-in endpoint to
/// read from; `Endpoint` where either is missing.
pub open spec fn spec_resolve(candidates: Seq<Candidate>) -> Result<Endpoints, Error> {
    match (last_bulk(candidates, Direction::Out), last_bulk(candidates, Direction::In)) {
        (Some(write), Some(read)) => Ok(Endpoints { control: control_endpoint(), read, write }),
        _ => Err(Error::Endpoint),
    }
}

/// What [`last_bulk`] finds is the bulk endpoint of the direction that no
/// other such endpoint follows; it finds none exactly where there is none.
pub proof fn lemma_last_bulk(candidates: Seq<Candidate>, direction: Direction)
    ensures
        match last_bulk(candidates, direction) {
            None => forall|k: int|
                0 <= k < candidates.len() ==> !(#[trigger] candidates[k]).is_bulk(direction),
            Some(endpoint) => exists|k: int|
                {
                    &&& 0 <= k < candidates.len()
                    &&& (#[trigger] candidates[k]).is_bulk(direction)
                    &&& candidates[k].endpoint == endpoint
                    &&& forall|j: int|
                        k < j < candidates.len() ==> !(#[trigger] candidates[j]).is_bulk(direction)
                },
        },
    decreases candidates.len(),
{
    if candidates.len() > 0 {
        let shorter = candidates.drop_last();
        let last = candidates.len() - 1;
        if candidates.last().is_bulk(direction) {
            assert(candidates[last].is_bulk(direction));
        } else {
            lemma_last_bulk(shorter, direction);
            match last_bulk(shorter, direction) {
                None => {
                    assert forall|k: int| 0 <= k < candidates.len() implies !(
                    #[trigger] candidates[k]).is_bulk(direction) by {
                        if k < last {
                            assert(shorter[k] == candidates[k]);
                        }
                    }
                },
                Some(endpoint) => {
                    let k = choose|k: int|
                        {
                            &&& 0 <= k < shorter.len()
                            &&& (#[trigger] shorter[k]).is_bulk(direction)
                            &&& shorter[k].endpoint == endpoint
                            &&& forall|j: int|
                                k < j < shorter.len() ==> !(#[trigger] shorter[j]).is_bulk(
                                    direction,
                                )
                        };
                    assert(candidates[k] == shorter[k]);
                    assert forall|j: int| k < j < candidates.len() implies !(
                    #[trigger] candidates[j]).is_bulk(direction) by {
                        if j < last {
                            assert(shorter[j] == candidates[j]);
                        }
                    }
                },
            }
        }
    }
}

/// Endpoints are found exactly where the configuration has a bulk endpoint
/// of each direction; where either is missing the outcome is `Endpoint`.
pub proof fn lemma_resolve_needs_both(candidates: Seq<Candidate>)
    ensures
        spec_resolve(candidates) is Ok <==> (exists|k: int|
            0 <= k < candidates.len() && (#[trigger] candidates[k]).is_bulk(Direction::Out)) && (
        exists|k: int|
            0 <= k < candidates.len() && (#[trigger] candidates[k]).is_bulk(Direction::In)),
        spec_resolve(candidates) is Err ==> spec_resolve(candidates) == Err::<Endpoints, Error>(
            Error::Endpoint,
        ),
{
    lemma_last_bulk(candidates, Direction::Out);
    lemma_last_bulk(candidates, Direction::In);
}

/// What was found so far while walking a configuration.
struct Found {
    write: Option<Endpoint>,
    read: Option<Endpoint>,
}

impl Found {
    /// Whether this is what the candidates hold.
    spec fn of(self, candidates: Seq<Candidate>) -> bool {
        &&& self.write == last_bulk(candidates, Direction::Out)
        &&& self.read == last_bulk(candidates, Direction::In)
    }
}

/// Looks at the endpoints of one alternate setting.
fn scan_setting(number: u8, setting: &InterfaceDescriptor, found: Found, Ghost(seen): Ghost<
    Seq<Candidate>,
>) -> (next: Found)
    requires
        found.of(seen),
    ensures
        next.of(seen + setting_candidates(number, *setting)),
{
    let mut found = found;
    let ghost all = setting_candidates(number, *setting);
    let mut k: usize = 0;
    assert(seen + all.take(0) =~= seen);
    while k < setting.endpoints.len()
        invariant
            k <= setting.endpoints@.len(),
            all == setting_candidates(number, *setting),
            found.of(seen + all.take(k as int)),
        decreases setting.endpoints@.len() - k,
    {
        let descriptor = &setting.endpoints[k];
        let e = Endpoint {
            config: number,
            iface: setting.interface_number,
            setting: setting.setting_number,
            address: descriptor.address,
        };
        proof {
            let before = seen + all.take(k as int);
            let after = seen + all.take(k as int + 1);
            assert(after =~= before.push(all[k as int]));
            assert(after.last() == all[k as int]);
            assert(after.drop_last() =~= before);
        }
        match (descriptor.transfer_type, descriptor.direction) {
            (TransferType::Bulk, Direction::In) => {
                found.read = Some(e);
            },
            (TransferType::Bulk, Direction::Out) => {
                found.write = Some(e);
            },
            _ => {},
        }
        k += 1;
    }
    assert(all.take(k as int) =~= all);
    found
}

/// Looks at the endpoints of one interface.
fn scan_interface(number: u8, interface: &Interface, found: Found, Ghost(seen): Ghost<
    Seq<Candidate>,
>) -> (next: Found)
    requires
        found.of(seen),
    ensures
        next.of(seen + interface_candidates(number, *interface)),
{
    let mut found = found;
    let ghost parts = interface.descriptors@.map_values(
        |d: InterfaceDescriptor| setting_candidates(number, d),
    );
    let mut j: usize = 0;
    assert(parts.take(0) =~= Seq::<Seq<Candidate>>::empty());
    assert(seen + parts.take(0).flatten() =~= seen);
    while j < interface.descriptors.len()
        invariant
            j <= interface.descriptors@.len(),
            parts == interface.descriptors@.map_values(
                |d: InterfaceDescriptor| setting_candidates(number, d),
            ),
            found.of(seen + parts.take(j as int).flatten()),
        decreases interface.descriptors@.len() - j,
    {
        let ghost before = seen + parts.take(j as int).flatten();
        found = scan_setting(number, &interface.descriptors[j], found, Ghost(before));
        proof {
            broadcast use Seq::lemma_flatten_push;

            assert(parts.take(j as int + 1) =~= parts.take(j as int).push(parts[j as int]));
            assert(seen + parts.take(j as int + 1).flatten() =~= before + parts[j as int]);
        }
        j += 1;
    }
    assert(parts.take(j as int) =~= parts);
    found
}

/// Finds the endpoints the driver uses in a configuration.
pub fn resolve(config: &ConfigDescriptor) -> (endpoints: Result<Endpoints, Error>)
    ensures
        endpoints == spec_resolve(config@),
{
    let mut found = Found { write: None, read: None };
    let ghost parts = config.interfaces@.map_values(
        |i: Interface| interface_candidates(config.number, i),
    );
    let mut i: usize = 0;
    assert(parts.take(0) =~= Seq::<Seq<Candidate>>::empty());
    assert(parts.take(0).flatten() =~= Seq::<Candidate>::empty());
    while i < config.interfaces.len()
        invariant
            i <= config.interfaces@.len(),
            parts == config.interfaces@.map_values(
                |i: Interface| interface_candidates(config.number, i),
            ),
            found.of(parts.take(i as int).flatten()),
        decreases config.interfaces@.len() - i,
    {
        let ghost before = parts.take(i as int).flatten();
        found = scan_interface(config.number, &config.interfaces[i], found, Ghost(before));
        proof {
            broadcast use Seq::lemma_flatten_push;

            assert(parts.take(i as int + 1) =~= parts.take(i as int).push(parts[i as int]));
            assert(parts.take(i as int + 1).flatten() =~= before + parts[i as int]);
        }
        i += 1;
    }
    assert(parts.take(i as int) =~= parts);
    let control = Endpoint { config: 1, iface: 0, setting: 0, address: 0 };
    match (found.write, found.read) {
        (Some(write), Some(read)) => Ok(Endpoints { control, read, write }),
        _ => Err(Error::Endpoint),
    }
}

/// One action for the host to perform while connecting.
#[derive(Debug, PartialEq, Eq, Structural, Clone, Copy)]
pub enum ConnectRequest {
    /// Open the device.
    Open,
    /// Reset the device.
    Reset,
    /// Read the languages of the string descriptors.
    ReadLanguages,
    /// Read the number of the active configuration.
    ActiveConfiguration,
    /// Read the manufacturer string in the language with the given
    /// position among those read.
    ReadManufacturer(usize),
    /// Read the product string in the language with the given position
    /// among those read.
    ReadProduct(usize),
    /// Read the serial number string in the language with the given
    /// position among those read.
    ReadSerialNumber(usize),
    /// Read the descriptor of the configuration with the given index.
    ReadConfigDescriptor(u8),
    /// Ask whether a kernel driver is bound to the interface.
    KernelDriverActive(u8),
    /// Detach the kernel driver from the interface.
    DetachKernelDriver(u8),
    /// Activate the configuration with the given number.
    SetActiveConfiguration(u8),
}

impl ConnectRequest {
    /// The time allowed for the request, in milliseconds, where it is a
    /// transfer that the driver bounds: the reading of the languages and of
    /// the strings.
    pub open spec fn spec_timeout_ms(self) -> Option<u64> {
        match self {
            ConnectRequest::ReadLanguages => Some(TIMEOUT_MS),
            ConnectRequest::ReadManufacturer(_) => Some(TIMEOUT_MS),
            ConnectRequest::ReadProduct(_) => Some(TIMEOUT_MS),
            ConnectRequest::ReadSerialNumber(_) => Some(TIMEOUT_MS),
            _ => None,
        }
    }

    /// The time allowed for the request, in milliseconds.
    pub fn timeout_ms(&self) -> (timeout: Option<u64>)
        ensures
            timeout == self.spec_timeout_ms(),
    {
        match self {
            ConnectRequest::ReadLanguages => Some(TIMEOUT_MS),
            ConnectRequest::ReadManufacturer(_) => Some(TIMEOUT_MS),
            ConnectRequest::ReadProduct(_) => Some(TIMEOUT_MS),
            ConnectRequest::ReadSerialNumber(_) => Some(TIMEOUT_MS),
            _ => None,
        }
    }
}

/// What the host hands back for a [`ConnectRequest`] that succeeded.
#[derive(Debug, Clone, PartialEq, Eq)]
pub enum Answer {
    /// The action was carried out; it yields nothing.
    Done,
    /// The number of languages read.
    Languages(usize),
    /// The number of the active configuration.
    Configuration(u8),
    /// The string read.
    Text(String),
    /// The configuration descriptor read.
    Descriptor(ConfigDescriptor),
    /// Whether a kernel driver is bound.
    Active(bool),
}

/// Mathematical value of an [`Answer`].
pub enum AnswerView {
    Done,
    Languages(nat),
    Configuration(u8),
    Text(Seq<char>),
    Descriptor(Seq<Candidate>),
    Active(bool),
}

impl View for Answer {
    type V = AnswerView;

    open spec fn view(&self) -> AnswerView {
        match *self {
            Answer::Done => AnswerView::Done,
            Answer::Languages(count) => AnswerView::Languages(count as nat),
            Answer::Configuration(number) => AnswerView::Configuration(number),
            Answer::Text(text) => AnswerView::Text(text@),
            Answer::Descriptor(config) => AnswerView::Descriptor(config@),
            Answer::Active(active) => AnswerView::Active(active),
        }
    }
}

/// Mathematical value of the host's answer to a [`ConnectRequest`].
pub open spec fn answer_view(answer: Result<Answer, UsbError>) -> Result<AnswerView, UsbError> {
    match answer {
        Ok(a) => Ok(a@),
        Err(e) => Err(e),
    }
}

/// What a connection waits for.
#[derive(Debug, PartialEq, Eq, Structural, Clone, Copy)]
pub enum ConnectStage {
    Opening,
    Resetting,
    Languages,
    Configuration,
    Manufacturer,
    Product,
    SerialNumber,
    Descriptor,
    KernelDriver,
    Detaching,
    ActivatingWrite,
    ActivatingRead,
}

/// Mathematical value of a [`Connect`].
pub struct ConnectView {
    /// Number of configurations that the device descriptor gives.
    pub num_configurations: u8,
    /// What the connection waits for.
    pub stage: ConnectStage,
    /// Number of languages read.
    pub languages: nat,
    /// The strings read so far.
    pub info: InfoView,
    /// The endpoints found, from the stage `KernelDriver` on.
    pub endpoints: Endpoints,
}

/// Mathematical value of a step of a connection.
pub enum ConnectStep {
    Perform(ConnectRequest, ConnectView),
    Done(Result<(Endpoints, InfoView), Error>),
}

impl ConnectView {
    /// The request, and the state that waits for its answer.
    pub open spec fn ask(self, request: ConnectRequest, stage: ConnectStage) -> ConnectStep {
        ConnectStep::Perform(request, ConnectView { stage, ..self })
    }

    /// The step that follows an answer that does not belong to the request
    /// made: the connection ends with the failure `Other`.
    pub open spec fn unexpected() -> ConnectStep {
        ConnectStep::Done(Err(Error::Usb(UsbError::Other)))
    }

    /// The step that follows an answer of the host.
    ///
    /// Any failure of the host ends the connection with that failure. The
    /// device is opened and reset, its languages and active configuration
    /// are read; without a language the connection ends with `NoLanguages`.
    /// The three strings are read in the first language; a device that has not exactly one
    /// configuration then ends the connection with `Configurations`. The
    /// configuration descriptor is read; where a bulk endpoint is missing
    /// the connection ends with `Endpoint` and nothing more is asked of the
    /// host. Else a kernel driver bound to the control interface is
    /// detached, and the configurations of the two endpoints are
    /// activated.
    pub open spec fn step(self, answer: Result<AnswerView, UsbError>) -> ConnectStep {
        match answer {
            Err(e) => ConnectStep::Done(Err(Error::Usb(e))),
            Ok(a) => match self.stage {
                ConnectStage::Opening => self.ask(ConnectRequest::Reset, ConnectStage::Resetting),
                ConnectStage::Resetting => self.ask(
                    ConnectRequest::ReadLanguages,
                    ConnectStage::Languages,
                ),
                ConnectStage::Languages => match a {
                    AnswerView::Languages(count) => ConnectView { languages: count, ..self }.ask(
                        ConnectRequest::ActiveConfiguration,
                        ConnectStage::Configuration,
                    ),
                    _ => Self::unexpected(),
                },
                ConnectStage::Configuration => if self.languages == 0 {
                    ConnectStep::Done(Err(Error::NoLanguages))
                } else {
                    self.ask(ConnectRequest::ReadManufacturer(0), ConnectStage::Manufacturer)
                },
                ConnectStage::Manufacturer => match a {
                    AnswerView::Text(text) => ConnectView {
                        info: InfoView { manufacturer: text, ..self.info },
                        ..self
                    }.ask(ConnectRequest::ReadProduct(0), ConnectStage::Product),
                    _ => Self::unexpected(),
                },
                ConnectStage::Product => match a {
                    AnswerView::Text(text) => ConnectView {
                        info: InfoView { product: text, ..self.info },
                        ..self
                    }.ask(ConnectRequest::ReadSerialNumber(0), ConnectStage::SerialNumber),
                    _ => Self::unexpected(),
                },
                ConnectStage::SerialNumber => match a {
                    AnswerView::Text(text) => if self.num_configurations != 1 {
                        ConnectStep::Done(Err(Error::Configurations))
                    } else {
                        ConnectView { info: InfoView { serial: text, ..self.info }, ..self }.ask(
                            ConnectRequest::ReadConfigDescriptor(0),
                            ConnectStage::Descriptor,
                        )
                    },
                    _ => Self::unexpected(),
                },
                ConnectStage::Descriptor => match a {
                    AnswerView::Descriptor(candidates) => match spec_resolve(candidates) {
                        Err(e) => ConnectStep::Done(Err(e)),
                        Ok(endpoints) => ConnectView { endpoints, ..self }.ask(
                            ConnectRequest::KernelDriverActive(endpoints.control.iface),
                            ConnectStage::KernelDriver,
                        ),
                    },
                    _ => Self::unexpected(),
                },
                ConnectStage::KernelDriver => match a {
                    AnswerView::Active(true) => self.ask(
                        ConnectRequest::DetachKernelDriver(self.endpoints.control.iface),
                        ConnectStage::Detaching,
                    ),
                    AnswerView::Active(false) => self.ask(
                        ConnectRequest::SetActiveConfiguration(self.endpoints.write.config),
                        ConnectStage::ActivatingWrite,
                    ),
                    _ => Self::unexpected(),
                },
                ConnectStage::Detaching => self.ask(
                    ConnectRequest::SetActiveConfiguration(self.endpoints.write.config),
                    ConnectStage::ActivatingWrite,
                ),
                ConnectStage::ActivatingWrite => self.ask(
                    ConnectRequest::SetActiveConfiguration(self.endpoints.read.config),
                    ConnectStage::ActivatingRead,
                ),
                ConnectStage::ActivatingRead => ConnectStep::Done(Ok((self.endpoints, self.info))),
            },
        }
    }
}

/// The first step of a connection: the request to open the device.
pub open spec fn spec_connect(descriptor: DeviceDescriptor) -> ConnectStep {
    ConnectStep::Perform(
        ConnectRequest::Open,
        ConnectView {
            num_configurations: descriptor.num_configurations,
            stage: ConnectStage::Opening,
            languages: 0,
            info: InfoView {
                manufacturer: Seq::empty(),
                product: Seq::empty(),
                serial: Seq::empty(),
            },
            endpoints: Endpoints {
                control: control_endpoint(),
                read: control_endpoint(),
                write: control_endpoint(),
            },
        },
    )
}

/// A connection under way, between two requests to the host.
pub struct Connect {
    num_configurations: u8,
    stage: ConnectStage,
    languages: usize,
    manufacturer: String,
    product: String,
    serial: String,
    endpoints: Endpoints,
}

impl View for Connect {
    type V = ConnectView;

    closed spec fn view(&self) -> ConnectView {
        ConnectView {
            num_configurations: self.num_configurations,
            stage: self.stage,
            languages: self.languages as nat,
            info: InfoView {
                manufacturer: self.manufacturer@,
                product: self.product@,
                serial: self.serial@,
            },
            endpoints: self.endpoints,
        }
    }
}

/// Where a connection stands after it was started or resumed.
pub enum Connecting {
    /// The host performs the request and resumes the connection with the
    /// answer.
    Perform(ConnectRequest, Connect),
    /// The connection has ended: with the state of the connected chip and
    /// what it reported about itself, or with a failure.
    Done(Result<(Inner, Info), Error>),
}

impl View for Connecting {
    type V = ConnectStep;

    open spec fn view(&self) -> ConnectStep {
        match *self {
            Connecting::Perform(request, connect) => ConnectStep::Perform(request, connect@),
            Connecting::Done(Ok((inner, info))) => ConnectStep::Done(Ok((inner.ends(), info@))),
            Connecting::Done(Err(e)) => ConnectStep::Done(Err(e)),
        }
    }
}

impl Connecting {
    /// Whether a chip that was connected is in its initial state: no pin
    /// claimed, the clock at 12 MHz.
    pub open spec fn fresh(self) -> bool {
        match self {
            Connecting::Done(Ok((inner, info))) => inner.clock() == SpiClock::Clock12Mhz
                && forall|pin: u8| !inner.allocated(pin),
            _ => true,
        }
    }
}

impl Connect {
    /// Starts a connection to the device with the given descriptor.
    pub fn begin(descriptor: &DeviceDescriptor) -> (step: Connecting)
        ensures
            step@ == spec_connect(*descriptor),
    {
        let control = Endpoint { config: 1, iface: 0, setting: 0, address: 0 };
        Connecting::Perform(
            ConnectRequest::Open,
            Connect {
                num_configurations: descriptor.num_configurations,
                stage: ConnectStage::Opening,
                languages: 0,
                manufacturer: String::new(),
                product: String::new(),
                serial: String::new(),
                endpoints: Endpoints { control, read: control, write: control },
            },
        )
    }

    /// The request, and the state that waits for its answer.
    fn ask(self, request: ConnectRequest, stage: ConnectStage) -> (step: Connecting)
        ensures
            step@ == self@.ask(request, stage),
    {
        Connecting::Perform(
            request,
            Connect {
                num_configurations: self.num_configurations,
                stage,
                languages: self.languages,
                manufacturer: self.manufacturer,
                product: self.product,
                serial: self.serial,
                endpoints: self.endpoints,
            },
        )
    }

    /// Resumes the connection with the host's answer to the last request.
    pub fn step(self, answer: Result<Answer, UsbError>) -> (step: Connecting)
        ensures
            step@ == self@.step(answer_view(answer)),
            step.fresh(),
    {
        let answer = match answer {
            Err(e) => {
                return Connecting::Done(Err(Error::Usb(e)));
            },
            Ok(answer) => answer,
        };
        let mut state = self;
        match state.stage {
            ConnectStage::Opening => state.ask(ConnectRequest::Reset, ConnectStage::Resetting),
            ConnectStage::Resetting => state.ask(
                ConnectRequest::ReadLanguages,
                ConnectStage::Languages,
            ),
            ConnectStage::Languages => match answer {
                Answer::Languages(count) => {
                    state.languages = count;
                    state.ask(ConnectRequest::ActiveConfiguration, ConnectStage::Configuration)
                },
                _ => Connecting::Done(Err(Error::Usb(UsbError::Other))),
            },
            ConnectStage::Configuration => {
                if state.languages == 0 {
                    Connecting::Done(Err(Error::NoLanguages))
                } else {
                    state.ask(ConnectRequest::ReadManufacturer(0), ConnectStage::Manufacturer)
                }
            },
            ConnectStage::Manufacturer => match answer {
                Answer::Text(text) => {
                    state.manufacturer = text;
                    state.ask(ConnectRequest::ReadProduct(0), ConnectStage::Product)
                },
                _ => Connecting::Done(Err(Error::Usb(UsbError::Other))),
            },
            ConnectStage::Product => match answer {
                Answer::Text(text) => {
                    state.product = text;
                    state.ask(ConnectRequest::ReadSerialNumber(0), ConnectStage::SerialNumber)
                },
                _ => Connecting::Done(Err(Error::Usb(UsbError::Other))),
            },
            ConnectStage::SerialNumber => match answer {
                Answer::Text(text) => {
                    if state.num_configurations != 1 {
                        Connecting::Done(Err(Error::Configurations))
                    } else {
                        state.serial = text;
                        state.ask(
                            ConnectRequest::ReadConfigDescriptor(0),
                            ConnectStage::Descriptor,
                        )
                    }
                },
                _ => Connecting::Done(Err(Error::Usb(UsbError::Other))),
            },
            ConnectStage::Descriptor => match answer {
                Answer::Descriptor(config) => match resolve(&config) {
                    Err(e) => Connecting::Done(Err(e)),
                    Ok(endpoints) => {
                        state.endpoints = endpoints;
                        state.ask(
                            ConnectRequest::KernelDriverActive(endpoints.control.iface),
                            ConnectStage::KernelDriver,
                        )
                    },
                },
                _ => Connecting::Done(Err(Error::Usb(UsbError::Other))),
            },
            ConnectStage::KernelDriver => match answer {
                Answer::Active(active) => {
                    if active {
                        let iface = state.endpoints.control.iface;
                        state.ask(ConnectRequest::DetachKernelDriver(iface), ConnectStage::Detaching)
                    } else {
                        let config = state.endpoints.write.config;
                        state.ask(
                            ConnectRequest::SetActiveConfiguration(config),
                            ConnectStage::ActivatingWrite,
                        )
                    }
                },
                _ => Connecting::Done(Err(Error::Usb(UsbError::Other))),
            },
            ConnectStage::Detaching => {
                let config = state.endpoints.write.config;
                state.ask(
                    ConnectRequest::SetActiveConfiguration(config),
                    ConnectStage::ActivatingWrite,
                )
            },
            ConnectStage::ActivatingWrite => {
                let config = state.endpoints.read.config;
                state.ask(
                    ConnectRequest::SetActiveConfiguration(config),
                    ConnectStage::ActivatingRead,
                )
            },
            ConnectStage::ActivatingRead => Connecting::Done(
                Ok(
                    (
                        Inner::with_endpoints(state.endpoints),
                        Info::new(state.manufacturer, state.product, state.serial),
                    ),
                ),
            ),
        }
    }
}

/// A configuration without a bulk-in endpoint ends the connection with
/// `Endpoint` as soon as its descriptor was read: nothing more is asked of
/// the host, no transfer and no change of the device's configuration.
pub proof fn lemma_missing_bulk_in_ends_connection(connect: ConnectView, candidates: Seq<Candidate>)
    requires
        connect.stage == ConnectStage::Descriptor,
        forall|k: int|
            0 <= k < candidates.len() ==> !(#[trigger] candidates[k]).is_bulk(Direction::In),
    ensures
        spec_resolve(candidates) == Err::<Endpoints, Error>(Error::Endpoint),
        connect.step(Ok(AnswerView::Descriptor(candidates))) == ConnectStep::Done(
            Err(Error::Endpoint),
        ),
{
    lemma_resolve_needs_both(candidates);
}

} // verus!
