//! Composite SPI transactions, framed by a chip-select pin.
//!
//! A transaction drives the chip-select pin low where one is configured,
//! runs its operations in order and drives the pin high again, whether the
//! operations succeeded or one of them failed. The first failure ends the
//! run of operations.

use crate::codec::{spec_gpio_mode_level_payload, FRAME_HEADER};
use crate::device::{
    control_write, mode_level_request, Commands, Endpoints, GpioLevel, GpioMode, SpiClock,
    TransferCommand,
};
use crate::spi::{spec_begin, SpiTransfer, TransferStep, TransferView};
use crate::usb::{response_view, Request, RequestView, Response, Step, UsbError};
use crate::Error;
use vstd::prelude::*;

verus! {

/// One operation of a transaction.
#[derive(Debug, Clone, PartialEq, Eq)]
pub enum Operation {
    /// Write the bytes.
    Write(Vec<u8>),
    /// Write the bytes of `write` and read `read` bytes back.
    Transfer { read: usize, write: Vec<u8> },
    /// Write the bytes and read as many back.
    TransferInPlace(Vec<u8>),
    /// Read the given number of bytes while writing zeros.
    Read(usize),
    /// Wait for the given number of nanoseconds.
    DelayNs(u32),
}

/// Mathematical value of an [`Operation`].
pub enum OperationView {
    Write(Seq<u8>),
    Transfer { read: nat, write: Seq<u8> },
    TransferInPlace(Seq<u8>),
    Read(nat),
    DelayNs(nat),
}

impl View for Operation {
    type V = OperationView;

    open spec fn view(&self) -> OperationView {
        match *self {
            Operation::Write(data) => OperationView::Write(data@),
            Operation::Transfer { read, write } => OperationView::Transfer {
                read: read as nat,
                write: write@,
            },
            Operation::TransferInPlace(data) => OperationView::TransferInPlace(data@),
            Operation::Read(len) => OperationView::Read(len as nat),
            Operation::DelayNs(nanos) => OperationView::DelayNs(nanos as nat),
        }
    }
}

impl OperationView {
    /// The bytes the operation writes to the SPI device.
    pub open spec fn written(self) -> Seq<u8> {
        match self {
            OperationView::Write(data) => data,
            OperationView::Transfer { read, write } => write,
            OperationView::TransferInPlace(data) => data,
            OperationView::Read(len) => Seq::new(len, |i: int| 0u8),
            OperationView::DelayNs(_) => Seq::empty(),
        }
    }

    /// The number of bytes the operation reads from the SPI device.
    pub open spec fn expected(self) -> nat {
        match self {
            OperationView::Write(_) => 0,
            OperationView::Transfer { read, write } => read,
            OperationView::TransferInPlace(data) => data.len(),
            OperationView::Read(len) => len,
            OperationView::DelayNs(_) => 0,
        }
    }

    /// Whether the bytes written fit into one frame.
    pub open spec fn fits(self) -> bool {
        self.written().len() <= u32::MAX && self.written().len() + FRAME_HEADER <= usize::MAX
    }

    /// The first step of the transfer that carries the operation out; a
    /// delay has none.
    pub open spec fn first(self, endpoints: Endpoints, clock: SpiClock) -> TransferStep
        recommends
            !(self is DelayNs),
    {
        let command = if self is Write {
            TransferCommand::Write
        } else {
            TransferCommand::WriteRead
        };
        spec_begin(endpoints, clock, command, self.written(), self.written().len(), self.expected())
    }
}

impl Operation {
    /// Whether the bytes written fit into one frame.
    pub fn fits(&self) -> (fits: bool)
        ensures
            fits == self@.fits(),
    {
        let len = match self {
            Operation::Write(data) => data.len(),
            Operation::Transfer { read, write } => write.len(),
            Operation::TransferInPlace(data) => data.len(),
            Operation::Read(len) => *len,
            Operation::DelayNs(_) => 0,
        };
        len <= u32::MAX as usize && len <= usize::MAX - FRAME_HEADER
    }
}

/// Whether every operation fits into a frame.
pub open spec fn all_fit(operations: Seq<OperationView>) -> bool {
    forall|i: int| 0 <= i < operations.len() ==> (#[trigger] operations[i]).fits()
}

/// Whether every operation fits into a frame.
pub fn operations_fit(operations: &Vec<Operation>) -> (fit: bool)
    ensures
        fit == all_fit(operations_view(operations@)),
{
    let mut i: usize = 0;
    while i < operations.len()
        invariant
            i <= operations@.len(),
            forall|k: int| 0 <= k < i ==> (#[trigger] operations_view(operations@)[k]).fits(),
        decreases operations@.len() - i,
    {
        if !operations[i].fits() {
            assert(!operations_view(operations@)[i as int].fits());
            return false;
        }
        i += 1;
    }
    true
}

/// The views of a list of operations.
pub open spec fn operations_view(operations: Seq<Operation>) -> Seq<OperationView> {
    operations.map_values(|o: Operation| o@)
}

/// The bytes of each list.
pub open spec fn results_view(results: Seq<Vec<u8>>) -> Seq<Seq<u8>> {
    results.map_values(|r: Vec<u8>| r@)
}

/// The request that drives a chip-select pin to `level`.
pub open spec fn select_request(pin: u8, level: GpioLevel) -> RequestView {
    control_write(
        Commands::SetGpioModeAndLevel,
        spec_gpio_mode_level_payload(pin, GpioMode::PushPull, level),
    )
}

/// What a transaction waits for.
pub enum ProgressView {
    /// The answer to the request that asserts chip select.
    Asserting,
    /// An answer for the transfer of the current operation.
    Running(TransferView),
    /// The end of the current delay.
    Delaying,
    /// The answer to the request that releases chip select, with the
    /// failure that ended the operations, if any.
    Releasing(Option<Error>),
}

/// Mathematical value of a [`Transaction`].
pub struct TransactionView {
    /// Endpoints of the device.
    pub endpoints: Endpoints,
    /// Clock that paces the transfers.
    pub clock: SpiClock,
    /// The chip-select pin, if any.
    pub cs: Option<u8>,
    /// The operations, in order.
    pub operations: Seq<OperationView>,
    /// Index of the current operation.
    pub position: nat,
    /// The bytes read by each operation before the current one.
    pub results: Seq<Seq<u8>>,
    /// What the transaction waits for.
    pub progress: ProgressView,
}

/// Mathematical value of a step of a transaction.
pub enum TransactionStep {
    Perform(RequestView, TransactionView),
    Done(Result<Seq<Seq<u8>>, Error>),
}

impl TransactionView {
    /// What the transaction yields once chip select is released.
    pub open spec fn outcome(self, failure: Option<Error>) -> Result<Seq<Seq<u8>>, Error> {
        match failure {
            None => Ok(self.results),
            Some(e) => Err(e),
        }
    }

    /// Ends the operations: releases chip select where there is one, and
    /// yields the outcome at once where there is none.
    pub open spec fn release(self, failure: Option<Error>) -> TransactionStep {
        match self.cs {
            Some(pin) => TransactionStep::Perform(
                select_request(pin, GpioLevel::High),
                TransactionView { progress: ProgressView::Releasing(failure), ..self },
            ),
            None => TransactionStep::Done(self.outcome(failure)),
        }
    }

    /// Starts the operation at `position`, or ends the operations when none
    /// is left.
    pub open spec fn start(self) -> TransactionStep {
        if self.position >= self.operations.len() {
            self.release(None)
        } else {
            let operation = self.operations[self.position as int];
            match operation {
                OperationView::DelayNs(nanos) => TransactionStep::Perform(
                    RequestView::BusyWait { nanos },
                    TransactionView { progress: ProgressView::Delaying, ..self },
                ),
                _ => {
                    let first = operation.first(self.endpoints, self.clock);
                    TransactionStep::Perform(
                        first->Perform_0,
                        TransactionView {
                            progress: ProgressView::Running(first->Perform_1),
                            ..self
                        },
                    )
                },
            }
        }
    }

    /// Records what the current operation read and starts the next one.
    pub open spec fn advance(self, data: Seq<u8>) -> TransactionStep {
        TransactionView {
            position: self.position + 1,
            results: self.results.push(data),
            ..self
        }.start()
    }

    /// The step that follows an answer of the host.
    ///
    /// A failure to assert or to release chip select ends the transaction
    /// with that failure. A failure of an operation releases chip select
    /// first; no later operation is started.
    pub open spec fn step(self, response: Result<Seq<u8>, UsbError>) -> TransactionStep {
        match self.progress {
            ProgressView::Asserting => match response {
                Err(e) => TransactionStep::Done(Err(Error::Usb(e))),
                Ok(_) => self.start(),
            },
            ProgressView::Running(transfer) => match transfer.step(response) {
                TransferStep::Perform(request, next) => TransactionStep::Perform(
                    request,
                    TransactionView { progress: ProgressView::Running(next), ..self },
                ),
                TransferStep::Done(Ok(data)) => self.advance(data),
                TransferStep::Done(Err(e)) => self.release(Some(e)),
            },
            ProgressView::Delaying => match response {
                Err(e) => self.release(Some(Error::Usb(e))),
                Ok(_) => self.advance(Seq::empty()),
            },
            ProgressView::Releasing(failure) => match response {
                Err(e) => TransactionStep::Done(Err(Error::Usb(e))),
                Ok(_) => TransactionStep::Done(self.outcome(failure)),
            },
        }
    }
}

/// The first step of a transaction: the request that asserts chip select
/// where there is one, else the start of the first operation.
pub open spec fn spec_transaction(
    endpoints: Endpoints,
    clock: SpiClock,
    cs: Option<u8>,
    operations: Seq<OperationView>,
) -> TransactionStep {
    let initial = TransactionView {
        endpoints,
        clock,
        cs,
        operations,
        position: 0,
        results: Seq::empty(),
        progress: ProgressView::Asserting,
    };
    match cs {
        Some(pin) => TransactionStep::Perform(select_request(pin, GpioLevel::Low), initial),
        None => initial.start(),
    }
}

impl TransactionView {
    /// The failure with which the current operation ends at this answer, if
    /// it does.
    pub open spec fn failure(self, response: Result<Seq<u8>, UsbError>) -> Option<Error> {
        match self.progress {
            ProgressView::Running(transfer) => match transfer.step(response) {
                TransferStep::Done(Err(e)) => Some(e),
                _ => None,
            },
            ProgressView::Delaying => match response {
                Err(e) => Some(Error::Usb(e)),
                Ok(_) => None,
            },
            _ => None,
        }
    }
}

/// When an operation fails, chip select is released before the failure is
/// handed on, and no later operation is started.
///
/// With a chip-select pin, the step at the failing answer is the request
/// that drives the pin high, and whatever the host answers to it ends the
/// transaction: with the operation's failure where the pin was driven,
/// else with the failure to drive it. Without a pin the transaction ends
/// with the operation's failure at once.
pub proof fn lemma_failure_releases_chip_select(
    transaction: TransactionView,
    response: Result<Seq<u8>, UsbError>,
    released: Result<Seq<u8>, UsbError>,
)
    requires
        transaction.failure(response) is Some,
    ensures
        match transaction.cs {
            Some(pin) => {
                &&& transaction.step(response) is Perform
                &&& transaction.step(response)->Perform_0 == select_request(pin, GpioLevel::High)
                &&& transaction.step(response)->Perform_1.step(released) == TransactionStep::Done(
                    match released {
                        Ok(_) => Err(transaction.failure(response)->Some_0),
                        Err(e) => Err(Error::Usb(e)),
                    },
                )
            },
            None => transaction.step(response) == TransactionStep::Done(
                Err(transaction.failure(response)->Some_0),
            ),
        },
{
}

/// When the last operation has succeeded, chip select is released before
/// the results are handed on: with a chip-select pin, the step after the
/// last operation is the request that drives the pin high, and the
/// transaction yields what the operations read once the host has driven it.
pub proof fn lemma_completion_releases_chip_select(
    transaction: TransactionView,
    data: Seq<u8>,
    released: Result<Seq<u8>, UsbError>,
)
    requires
        transaction.position + 1 == transaction.operations.len(),
    ensures
        match transaction.cs {
            Some(pin) => {
                &&& transaction.advance(data) is Perform
                &&& transaction.advance(data)->Perform_0 == select_request(pin, GpioLevel::High)
                &&& transaction.advance(data)->Perform_1.step(released) == TransactionStep::Done(
                    match released {
                        Ok(_) => Ok(transaction.results.push(data)),
                        Err(e) => Err(Error::Usb(e)),
                    },
                )
            },
            None => transaction.advance(data) == TransactionStep::Done(
                Ok(transaction.results.push(data)),
            ),
        },
{
}

/// Where a transaction stands once the host has given the answers, one for
/// each request in turn. Answers that are left when the transaction has
/// ended are not looked at.
pub open spec fn spec_run(step: TransactionStep, answers: Seq<Result<Seq<u8>, UsbError>>) -> TransactionStep
    decreases answers.len(),
{
    match step {
        TransactionStep::Done(_) => step,
        TransactionStep::Perform(_, transaction) => if answers.len() == 0 {
            step
        } else {
            spec_run(transaction.step(answers[0]), answers.drop_first())
        },
    }
}

/// The requests that a transaction makes of the host, in order, while the
/// host gives the answers.
pub open spec fn spec_requests(step: TransactionStep, answers: Seq<Result<Seq<u8>, UsbError>>) -> Seq<
    RequestView,
>
    decreases answers.len(),
{
    match step {
        TransactionStep::Done(_) => Seq::empty(),
        TransactionStep::Perform(request, transaction) => if answers.len() == 0 {
            seq![request]
        } else {
            seq![request] + spec_requests(transaction.step(answers[0]), answers.drop_first())
        },
    }
}

/// A transaction that is past the assertion of chip select and has ended
/// made the release of chip select its last request.
proof fn lemma_ends_with_release(
    request: RequestView,
    transaction: TransactionView,
    answers: Seq<Result<Seq<u8>, UsbError>>,
    pin: u8,
)
    requires
        transaction.cs == Some(pin),
        !(transaction.progress is Asserting),
        transaction.progress is Releasing ==> request == select_request(pin, GpioLevel::High),
        spec_run(TransactionStep::Perform(request, transaction), answers) is Done,
    ensures
        spec_requests(TransactionStep::Perform(request, transaction), answers).last()
            == select_request(pin, GpioLevel::High),
    decreases answers.len(),
{
    let here = TransactionStep::Perform(request, transaction);
    if answers.len() > 0 {
        let next = transaction.step(answers[0]);
        let rest = answers.drop_first();
        assert(spec_run(here, answers) == spec_run(next, rest));
        assert(spec_requests(here, answers) == seq![request] + spec_requests(next, rest));
        match next {
            TransactionStep::Done(_) => {
                assert(transaction.progress is Releasing);
                assert(spec_requests(next, rest) =~= Seq::<RequestView>::empty());
                assert(spec_requests(here, answers) =~= seq![request]);
            },
            TransactionStep::Perform(later, state) => {
                assert(state.cs == Some(pin));
                assert(!(state.progress is Asserting));
                lemma_ends_with_release(later, state, rest, pin);
                let tail = spec_requests(next, rest);
                assert(tail.len() > 0);
                assert((seq![request] + tail).last() == tail.last());
            },
        }
    }
}

/// A transaction never ends with chip select asserted.
///
/// On a device with a chip-select pin, the first request of a transaction
/// drives the pin low. Whatever the host answers, and whether the
/// operations succeed or fail: if the transaction has ended and has made
/// any further request, its last request drove the pin high. It has made no
/// further request only where the pin could not be driven low.
pub proof fn lemma_chip_select_is_released(
    endpoints: Endpoints,
    clock: SpiClock,
    pin: u8,
    operations: Seq<OperationView>,
    answers: Seq<Result<Seq<u8>, UsbError>>,
)
    requires
        spec_run(spec_transaction(endpoints, clock, Some(pin), operations), answers) is Done,
    ensures
        ({
            let requests = spec_requests(
                spec_transaction(endpoints, clock, Some(pin), operations),
                answers,
            );
            &&& requests.len() >= 1
            &&& requests[0] == select_request(pin, GpioLevel::Low)
            &&& requests.len() == 1 ==> answers[0] is Err
            &&& requests.len() > 1 ==> requests.last() == select_request(pin, GpioLevel::High)
        }),
{
    let first = spec_transaction(endpoints, clock, Some(pin), operations);
    let initial = first->Perform_1;
    let request = first->Perform_0;
    assert(answers.len() > 0);
    let next = initial.step(answers[0]);
    let rest = answers.drop_first();
    assert(spec_run(first, answers) == spec_run(next, rest));
    assert(spec_requests(first, answers) == seq![request] + spec_requests(next, rest));
    match next {
        TransactionStep::Done(_) => {
            assert(spec_requests(next, rest) =~= Seq::<RequestView>::empty());
            assert(spec_requests(first, answers) =~= seq![request]);
        },
        TransactionStep::Perform(later, state) => {
            lemma_ends_with_release(later, state, rest, pin);
            let tail = spec_requests(next, rest);
            assert(tail.len() > 0);
            assert((seq![request] + tail).last() == tail.last());
            assert((seq![request] + tail)[0] == request);
        },
    }
}

/// What a [`Transaction`] waits for.
enum Progress {
    Asserting,
    Running(SpiTransfer),
    Delaying,
    Releasing(Option<Error>),
}

impl View for Progress {
    type V = ProgressView;

    closed spec fn view(&self) -> ProgressView {
        match *self {
            Progress::Asserting => ProgressView::Asserting,
            Progress::Running(transfer) => ProgressView::Running(transfer@),
            Progress::Delaying => ProgressView::Delaying,
            Progress::Releasing(failure) => ProgressView::Releasing(failure),
        }
    }
}

/// A transaction under way, between two requests to the host.
pub struct Transaction {
    endpoints: Endpoints,
    clock: SpiClock,
    cs: Option<u8>,
    operations: Vec<Operation>,
    position: usize,
    results: Vec<Vec<u8>>,
    progress: Progress,
}

impl View for Transaction {
    type V = TransactionView;

    closed spec fn view(&self) -> TransactionView {
        TransactionView {
            endpoints: self.endpoints,
            clock: self.clock,
            cs: self.cs,
            operations: operations_view(self.operations@),
            position: self.position as nat,
            results: results_view(self.results@),
            progress: self.progress@,
        }
    }
}

/// Mathematical value of a step of a [`Transaction`].
pub open spec fn transaction_step_view(step: Step<Transaction, Vec<Vec<u8>>>) -> TransactionStep {
    match step {
        Step::Perform(request, transaction) => TransactionStep::Perform(request@, transaction@),
        Step::Done(Ok(results)) => TransactionStep::Done(Ok(results_view(results@))),
        Step::Done(Err(e)) => TransactionStep::Done(Err(e)),
    }
}

/// Builds the request that drives a chip-select pin to `level`.
fn select(pin: u8, level: GpioLevel) -> (request: Request)
    ensures
        request@ == select_request(pin, level),
{
    mode_level_request(pin, GpioMode::PushPull, level)
}

impl Transaction {
    #[verifier::type_invariant]
    spec fn inv(self) -> bool {
        &&& all_fit(operations_view(self.operations@))
        &&& self.position <= self.operations@.len()
        &&& (self.progress is Running || self.progress is Delaying) ==> self.position
            < self.operations@.len()
    }

    /// Ends the operations.
    fn release(self, failure: Option<Error>) -> (step: Step<Transaction, Vec<Vec<u8>>>)
        ensures
            transaction_step_view(step) == self@.release(failure),
    {
        proof {
            use_type_invariant(&self);
        }
        match self.cs {
            Some(pin) => Step::Perform(
                select(pin, GpioLevel::High),
                Transaction {
                    endpoints: self.endpoints,
                    clock: self.clock,
                    cs: self.cs,
                    operations: self.operations,
                    position: self.position,
                    results: self.results,
                    progress: Progress::Releasing(failure),
                },
            ),
            None => match failure {
                None => Step::Done(Ok(self.results)),
                Some(e) => Step::Done(Err(e)),
            },
        }
    }

    /// Starts the operation at `position`, or ends the operations.
    fn start(self) -> (step: Step<Transaction, Vec<Vec<u8>>>)
        ensures
            transaction_step_view(step) == self@.start(),
    {
        proof {
            use_type_invariant(&self);
        }
        if self.position >= self.operations.len() {
            return self.release(None);
        }
        let ghost operation = operations_view(self.operations@)[self.position as int];
        assert(operation == self.operations@[self.position as int]@);
        assert(operation.fits());
        let (request, progress) = match &self.operations[self.position] {
            Operation::Write(data) => {
                let (request, transfer) = SpiTransfer::begin(
                    &self.endpoints,
                    self.clock,
                    TransferCommand::Write,
                    data.as_slice(),
                    data.len(),
                    0,
                );
                (request, Progress::Running(transfer))
            },
            Operation::Transfer { read, write } => {
                let (request, transfer) = SpiTransfer::begin(
                    &self.endpoints,
                    self.clock,
                    TransferCommand::WriteRead,
                    write.as_slice(),
                    write.len(),
                    *read,
                );
                (request, Progress::Running(transfer))
            },
            Operation::TransferInPlace(data) => {
                let (request, transfer) = SpiTransfer::begin(
                    &self.endpoints,
                    self.clock,
                    TransferCommand::WriteRead,
                    data.as_slice(),
                    data.len(),
                    data.len(),
                );
                (request, Progress::Running(transfer))
            },
            Operation::Read(len) => {
                let zeros: Vec<u8> = vec![0u8; *len];
                assert(zeros@ =~= operation.written());
                let (request, transfer) = SpiTransfer::begin(
                    &self.endpoints,
                    self.clock,
                    TransferCommand::WriteRead,
                    zeros.as_slice(),
                    *len,
                    *len,
                );
                (request, Progress::Running(transfer))
            },
            Operation::DelayNs(nanos) => (
                Request::BusyWait { nanos: *nanos as u64 },
                Progress::Delaying,
            ),
        };
        Step::Perform(
            request,
            Transaction {
                endpoints: self.endpoints,
                clock: self.clock,
                cs: self.cs,
                operations: self.operations,
                position: self.position,
                results: self.results,
                progress,
            },
        )
    }

    /// Records what the current operation read and starts the next one.
    fn advance(self, data: Vec<u8>) -> (step: Step<Transaction, Vec<Vec<u8>>>)
        requires
            self.progress is Running || self.progress is Delaying,
        ensures
            transaction_step_view(step) == self@.advance(data@),
    {
        proof {
            use_type_invariant(&self);
        }
        let count = self.operations.len();
        assert(self.position < count);
        let mut results = self.results;
        let ghost before = results@;
        results.push(data);
        assert(results_view(results@) =~= results_view(before).push(data@));
        let next = Transaction {
            endpoints: self.endpoints,
            clock: self.clock,
            cs: self.cs,
            operations: self.operations,
            position: self.position + 1,
            results,
            progress: Progress::Asserting,
        };
        next.start()
    }

    /// Starts a transaction on the device with the given endpoints and
    /// clock.
    pub(crate) fn begin(
        endpoints: Endpoints,
        clock: SpiClock,
        cs: Option<u8>,
        operations: Vec<Operation>,
    ) -> (step: Step<Transaction, Vec<Vec<u8>>>)
        requires
            all_fit(operations_view(operations@)),
        ensures
            transaction_step_view(step) == spec_transaction(
                endpoints,
                clock,
                cs,
                operations_view(operations@),
            ),
    {
        let initial = Transaction {
            endpoints,
            clock,
            cs,
            operations,
            position: 0,
            results: Vec::new(),
            progress: Progress::Asserting,
        };
        assert(results_view(initial.results@) =~= Seq::empty());
        match cs {
            Some(pin) => Step::Perform(select(pin, GpioLevel::Low), initial),
            None => initial.start(),
        }
    }

    /// Resumes the transaction with the host's answer to the last request.
    pub fn step(self, response: Response) -> (step: Step<Transaction, Vec<Vec<u8>>>)
        ensures
            transaction_step_view(step) == self@.step(response_view(response)),
    {
        proof {
            use_type_invariant(&self);
        }
        match self.progress {
            Progress::Asserting => match response {
                Err(e) => Step::Done(Err(Error::Usb(e))),
                Ok(_) => Transaction {
                    endpoints: self.endpoints,
                    clock: self.clock,
                    cs: self.cs,
                    operations: self.operations,
                    position: self.position,
                    results: self.results,
                    progress: Progress::Asserting,
                }.start(),
            },
            Progress::Running(transfer) => match transfer.step(response) {
                Step::Perform(request, next) => Step::Perform(
                    request,
                    Transaction {
                        endpoints: self.endpoints,
                        clock: self.clock,
                        cs: self.cs,
                        operations: self.operations,
                        position: self.position,
                        results: self.results,
                        progress: Progress::Running(next),
                    },
                ),
                Step::Done(Ok(data)) => Transaction {
                    endpoints: self.endpoints,
                    clock: self.clock,
                    cs: self.cs,
                    operations: self.operations,
                    position: self.position,
                    results: self.results,
                    progress: Progress::Delaying,
                }.advance(data),
                Step::Done(Err(e)) => Transaction {
                    endpoints: self.endpoints,
                    clock: self.clock,
                    cs: self.cs,
                    operations: self.operations,
                    position: self.position,
                    results: self.results,
                    progress: Progress::Asserting,
                }.release(Some(e)),
            },
            Progress::Delaying => match response {
                Err(e) => Transaction {
                    endpoints: self.endpoints,
                    clock: self.clock,
                    cs: self.cs,
                    operations: self.operations,
                    position: self.position,
                    results: self.results,
                    progress: Progress::Asserting,
                }.release(Some(Error::Usb(e))),
                Ok(_) => Transaction {
                    endpoints: self.endpoints,
                    clock: self.clock,
                    cs: self.cs,
                    operations: self.operations,
                    position: self.position,
                    results: self.results,
                    progress: Progress::Delaying,
                }.advance(Vec::new()),
            },
            Progress::Releasing(failure) => match response {
                Err(e) => Step::Done(Err(Error::Usb(e))),
                Ok(_) => match failure {
                    None => Step::Done(Ok(self.results)),
                    Some(e) => Step::Done(Err(e)),
                },
            },
        }
    }
}

} // verus!
