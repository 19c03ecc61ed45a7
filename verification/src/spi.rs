//! SPI transfers over the chip's bulk endpoints.
//!
//! A transfer starts with one bulk write that carries the command frame.
//! Data that comes back is read in pieces of at most [`MAX_PACKET`] bytes
//! until the expected number of bytes has arrived. After a write, and after
//! every piece of a write-read, the host sleeps for the time the chip needs
//! to clock the written bytes out.

use crate::codec::{frame, spec_frame, FRAME_HEADER};
use crate::device::{Endpoints, SpiClock, TransferCommand};
use crate::usb::{Request, RequestView, Response, Step, UsbError, MAX_PACKET};
use crate::Error;
use vstd::prelude::*;

verus! {

/// What a transfer waits for.
#[derive(Debug, PartialEq, Eq, Structural, Clone, Copy)]
pub enum Stage {
    /// The answer to the bulk write of the command frame.
    Command,
    /// The answer to a bulk read.
    Receiving,
    /// The end of a pacing sleep.
    Pausing,
}

/// Mathematical value of a [`SpiTransfer`].
pub struct TransferView {
    /// Kind of the transfer.
    pub command: TransferCommand,
    /// Address of the endpoint that data is read from.
    pub read_endpoint: u8,
    /// Length of each pacing sleep, in microseconds.
    pub pace: nat,
    /// Number of bytes to read in all.
    pub expect: nat,
    /// The bytes read so far.
    pub received: Seq<u8>,
    /// What the transfer waits for.
    pub stage: Stage,
}

/// Mathematical value of a step of a transfer.
pub enum TransferStep {
    Perform(RequestView, TransferView),
    Done(Result<Seq<u8>, Error>),
}

impl TransferView {
    /// No more bytes were read than expected.
    pub open spec fn wf(self) -> bool {
        self.received.len() <= self.expect
    }

    /// Number of bytes the next bulk read asks for: what is still missing,
    /// but no more than one packet.
    pub open spec fn chunk(self) -> nat {
        if self.expect - self.received.len() > MAX_PACKET {
            MAX_PACKET as nat
        } else {
            (self.expect - self.received.len()) as nat
        }
    }

    /// Whether the host sleeps after the command alone, and reads nothing.
    pub open spec fn writes_only(self) -> bool {
        self.command == TransferCommand::Write
    }

    /// Whether the host sleeps after every piece read.
    pub open spec fn paces_reads(self) -> bool {
        self.command == TransferCommand::WriteRead
    }

    /// The pacing sleep, after which the transfer goes on.
    pub open spec fn pause(self) -> TransferStep {
        TransferStep::Perform(
            RequestView::Sleep { micros: self.pace },
            TransferView { stage: Stage::Pausing, ..self },
        )
    }

    /// The next bulk read, or the end of the transfer once every expected
    /// byte has arrived.
    pub open spec fn proceed(self) -> TransferStep {
        if self.received.len() < self.expect {
            TransferStep::Perform(
                RequestView::BulkRead { endpoint: self.read_endpoint, len: self.chunk() },
                TransferView { stage: Stage::Receiving, ..self },
            )
        } else {
            TransferStep::Done(Ok(self.received))
        }
    }

    /// The step that follows an answer of the host.
    ///
    /// Any failure ends the transfer with that failure. An answer to a bulk
    /// read that holds more bytes than were asked for ends it with
    /// `Overflow`.
    pub open spec fn step(self, response: Result<Seq<u8>, UsbError>) -> TransferStep {
        match response {
            Err(e) => TransferStep::Done(Err(Error::Usb(e))),
            Ok(data) => match self.stage {
                Stage::Command => if self.writes_only() {
                    self.pause()
                } else {
                    self.proceed()
                },
                Stage::Receiving => if data.len() > self.chunk() {
                    TransferStep::Done(Err(Error::Usb(UsbError::Overflow)))
                } else {
                    let grown = TransferView { received: self.received + data, ..self };
                    if self.paces_reads() {
                        grown.pause()
                    } else {
                        grown.proceed()
                    }
                },
                Stage::Pausing => if self.writes_only() {
                    TransferStep::Done(Ok(self.received))
                } else {
                    self.proceed()
                },
            },
        }
    }
}

/// The first step of a transfer: the bulk write of its command frame.
pub open spec fn spec_begin(
    endpoints: Endpoints,
    clock: SpiClock,
    command: TransferCommand,
    payload: Seq<u8>,
    length: nat,
    expect: nat,
) -> TransferStep {
    TransferStep::Perform(
        RequestView::BulkWrite {
            endpoint: endpoints.write.address,
            data: spec_frame(command, length as u32, payload),
        },
        TransferView {
            command,
            read_endpoint: endpoints.read.address,
            pace: clock.spec_transfer_time(payload.len()),
            expect,
            received: Seq::empty(),
            stage: Stage::Command,
        },
    )
}

/// The first step of a read of `len` bytes.
pub open spec fn spec_spi_read(endpoints: Endpoints, clock: SpiClock, len: nat) -> TransferStep {
    spec_begin(endpoints, clock, TransferCommand::Read, Seq::empty(), len, len)
}

/// The first step of a write of `data`.
pub open spec fn spec_spi_write(endpoints: Endpoints, clock: SpiClock, data: Seq<u8>) -> TransferStep {
    spec_begin(endpoints, clock, TransferCommand::Write, data, data.len(), 0)
}

/// The first step of a write of `data` with `len` bytes read back.
pub open spec fn spec_spi_write_read(
    endpoints: Endpoints,
    clock: SpiClock,
    data: Seq<u8>,
    len: nat,
) -> TransferStep {
    spec_begin(endpoints, clock, TransferCommand::WriteRead, data, data.len(), len)
}

/// An SPI transfer under way, between two requests to the host.
pub struct SpiTransfer {
    command: TransferCommand,
    read_endpoint: u8,
    pace: u64,
    expect: usize,
    received: Vec<u8>,
    stage: Stage,
}

/// Mathematical value of a step of an [`SpiTransfer`].
pub open spec fn step_view(step: Step<SpiTransfer, Vec<u8>>) -> TransferStep {
    match step {
        Step::Perform(request, transfer) => TransferStep::Perform(request@, transfer@),
        Step::Done(Ok(data)) => TransferStep::Done(Ok(data@)),
        Step::Done(Err(e)) => TransferStep::Done(Err(e)),
    }
}

impl View for SpiTransfer {
    type V = TransferView;

    closed spec fn view(&self) -> TransferView {
        TransferView {
            command: self.command,
            read_endpoint: self.read_endpoint,
            pace: self.pace as nat,
            expect: self.expect as nat,
            received: self.received@,
            stage: self.stage,
        }
    }
}

impl SpiTransfer {
    #[verifier::type_invariant]
    spec fn inv(self) -> bool {
        self.received@.len() <= self.expect
    }

    /// Starts a transfer: builds the command frame and the state that waits
    /// for its bulk write.
    pub(crate) fn begin(
        endpoints: &Endpoints,
        clock: SpiClock,
        command: TransferCommand,
        payload: &[u8],
        length: usize,
        expect: usize,
    ) -> (first: (Request, SpiTransfer))
        requires
            payload@.len() <= u32::MAX,
            length <= u32::MAX,
            payload@.len() + FRAME_HEADER <= usize::MAX,
        ensures
            TransferStep::Perform(first.0@, first.1@) == spec_begin(
                *endpoints,
                clock,
                command,
                payload@,
                length as nat,
                expect as nat,
            ),
    {
        let data = frame(command, length as u32, payload);
        let pace = clock.transfer_time(payload.len() as u64);
        (
            Request::BulkWrite { endpoint: endpoints.write.address, data },
            SpiTransfer {
                command,
                read_endpoint: endpoints.read.address,
                pace,
                expect,
                received: Vec::new(),
                stage: Stage::Command,
            },
        )
    }

    /// Starts a read of `len` bytes.
    pub fn read(endpoints: &Endpoints, clock: SpiClock, len: usize) -> (step: Step<
        SpiTransfer,
        Vec<u8>,
    >)
        requires
            len <= u32::MAX,
        ensures
            step_view(step) == spec_spi_read(*endpoints, clock, len as nat),
    {
        let none: Vec<u8> = Vec::new();
        let (request, transfer) = Self::begin(
            endpoints,
            clock,
            TransferCommand::Read,
            none.as_slice(),
            len,
            len,
        );
        Step::Perform(request, transfer)
    }

    /// Starts a write of `data`.
    pub fn write(endpoints: &Endpoints, clock: SpiClock, data: &[u8]) -> (step: Step<
        SpiTransfer,
        Vec<u8>,
    >)
        requires
            data@.len() <= u32::MAX,
            data@.len() + FRAME_HEADER <= usize::MAX,
        ensures
            step_view(step) == spec_spi_write(*endpoints, clock, data@),
    {
        let (request, transfer) = Self::begin(
            endpoints,
            clock,
            TransferCommand::Write,
            data,
            data.len(),
            0,
        );
        Step::Perform(request, transfer)
    }

    /// Starts a write of `data` with `len` bytes read back.
    pub fn write_read(endpoints: &Endpoints, clock: SpiClock, data: &[u8], len: usize) -> (step:
        Step<SpiTransfer, Vec<u8>>)
        requires
            data@.len() <= u32::MAX,
            data@.len() + FRAME_HEADER <= usize::MAX,
        ensures
            step_view(step) == spec_spi_write_read(*endpoints, clock, data@, len as nat),
    {
        let (request, transfer) = Self::begin(
            endpoints,
            clock,
            TransferCommand::WriteRead,
            data,
            data.len(),
            len,
        );
        Step::Perform(request, transfer)
    }

    /// The pacing sleep.
    fn pause(self) -> (step: Step<SpiTransfer, Vec<u8>>)
        ensures
            step_view(step) == self@.pause(),
    {
        proof {
            use_type_invariant(&self);
        }
        let micros = self.pace;
        Step::Perform(
            Request::Sleep { micros },
            SpiTransfer {
                command: self.command,
                read_endpoint: self.read_endpoint,
                pace: self.pace,
                expect: self.expect,
                received: self.received,
                stage: Stage::Pausing,
            },
        )
    }

    /// The next bulk read, or the end of the transfer.
    fn proceed(self) -> (step: Step<SpiTransfer, Vec<u8>>)
        ensures
            step_view(step) == self@.proceed(),
    {
        proof {
            use_type_invariant(&self);
        }
        let have = self.received.len();
        if have < self.expect {
            let missing = self.expect - have;
            let len = if missing > MAX_PACKET {
                MAX_PACKET
            } else {
                missing
            };
            Step::Perform(
                Request::BulkRead { endpoint: self.read_endpoint, len },
                SpiTransfer {
                    command: self.command,
                    read_endpoint: self.read_endpoint,
                    pace: self.pace,
                    expect: self.expect,
                    received: self.received,
                    stage: Stage::Receiving,
                },
            )
        } else {
            Step::Done(Ok(self.received))
        }
    }

    /// Resumes the transfer with the host's answer to the last request.
    pub fn step(self, response: Response) -> (step: Step<SpiTransfer, Vec<u8>>)
        ensures
            step_view(step) == self@.step(crate::usb::response_view(response)),
    {
        proof {
            use_type_invariant(&self);
        }
        let data = match response {
            Err(e) => {
                return Step::Done(Err(Error::Usb(e)));
            },
            Ok(data) => data,
        };
        let writes_only = match self.command {
            TransferCommand::Write => true,
            _ => false,
        };
        let paces_reads = match self.command {
            TransferCommand::WriteRead => true,
            _ => false,
        };
        match self.stage {
            Stage::Command => {
                if writes_only {
                    self.pause()
                } else {
                    self.proceed()
                }
            },
            Stage::Receiving => {
                let missing = self.expect - self.received.len();
                let asked = if missing > MAX_PACKET {
                    MAX_PACKET
                } else {
                    missing
                };
                if data.len() > asked {
                    return Step::Done(Err(Error::Usb(UsbError::Overflow)));
                }
                let mut received = self.received;
                let ghost before = received@;
                received.extend_from_slice(data.as_slice());
                assert(received@ =~= before + data@);
                let grown = SpiTransfer {
                    command: self.command,
                    read_endpoint: self.read_endpoint,
                    pace: self.pace,
                    expect: self.expect,
                    received,
                    stage: self.stage,
                };
                if paces_reads {
                    grown.pause()
                } else {
                    grown.proceed()
                }
            },
            Stage::Pausing => {
                if writes_only {
                    Step::Done(Ok(self.received))
                } else {
                    self.proceed()
                }
            },
        }
    }
}

/// Where a transfer stands once the host has given the answers, one for
/// each request in turn. Answers that are left when the transfer has ended
/// are not looked at.
pub open spec fn spec_run(step: TransferStep, answers: Seq<Result<Seq<u8>, UsbError>>) -> TransferStep
    decreases answers.len(),
{
    match step {
        TransferStep::Done(_) => step,
        TransferStep::Perform(_, transfer) => if answers.len() == 0 {
            step
        } else {
            spec_run(transfer.step(answers[0]), answers.drop_first())
        },
    }
}

/// The answers of a host that hands back the given pieces, one for each
/// bulk read, and that ends each pacing sleep where the transfer is paced.
pub open spec fn piecewise(pieces: Seq<Seq<u8>>, paced: bool) -> Seq<Result<Seq<u8>, UsbError>>
    decreases pieces.len(),
{
    if pieces.len() == 0 {
        Seq::empty()
    } else {
        let rest = piecewise(pieces.drop_first(), paced);
        if paced {
            seq![Ok(pieces.first()), Ok(Seq::empty())] + rest
        } else {
            seq![Ok(pieces.first())] + rest
        }
    }
}

/// Whether no piece is longer than one packet.
pub open spec fn packet_sized(pieces: Seq<Seq<u8>>) -> bool {
    forall|i: int| 0 <= i < pieces.len() ==> (#[trigger] pieces[i]).len() <= MAX_PACKET
}

/// A transfer that is about to read, and that still expects as many bytes
/// as the pieces hold, ends with what it had followed by the pieces in
/// their order.
proof fn lemma_proceed_reassembles(transfer: TransferView, pieces: Seq<Seq<u8>>)
    requires
        !transfer.writes_only(),
        transfer.expect == transfer.received.len() + pieces.flatten().len(),
        packet_sized(pieces),
    ensures
        spec_run(transfer.proceed(), piecewise(pieces, transfer.paces_reads()))
            == TransferStep::Done(Ok(transfer.received + pieces.flatten())),
    decreases pieces.len(),
{
    let paced = transfer.paces_reads();
    let answers = piecewise(pieces, paced);
    let goal = TransferStep::Done(Ok(transfer.received + pieces.flatten()));
    if pieces.len() == 0 {
        assert(pieces.flatten() =~= Seq::<u8>::empty());
        assert(transfer.received + pieces.flatten() =~= transfer.received);
        assert(transfer.proceed() == goal);
    } else {
        let piece = pieces.first();
        let rest = pieces.drop_first();
        assert(pieces.flatten() =~= piece + rest.flatten());
        assert(packet_sized(rest)) by {
            assert forall|i: int| 0 <= i < rest.len() implies (#[trigger] rest[i]).len()
                <= MAX_PACKET by {
                assert(rest[i] == pieces[i + 1]);
            }
        }
        if transfer.received.len() == transfer.expect {
            assert(pieces.flatten() =~= Seq::<u8>::empty());
            assert(transfer.received + pieces.flatten() =~= transfer.received);
            assert(transfer.proceed() == goal);
        } else {
            let reading = TransferView { stage: Stage::Receiving, ..transfer };
            let grown = TransferView { received: transfer.received + piece, ..reading };
            assert(transfer.proceed() is Perform);
            assert(transfer.proceed()->Perform_1 == reading);
            assert(piece.len() <= reading.chunk());
            assert(answers[0] == Ok::<Seq<u8>, UsbError>(piece));
            assert(spec_run(transfer.proceed(), answers) == spec_run(
                reading.step(answers[0]),
                answers.drop_first(),
            ));
            if paced {
                let paused = TransferView { stage: Stage::Pausing, ..grown };
                let later = answers.drop_first();
                assert(reading.step(answers[0]) == grown.pause());
                assert(grown.pause()->Perform_1 == paused);
                assert(later[0] == Ok::<Seq<u8>, UsbError>(Seq::empty()));
                assert(later.drop_first() =~= piecewise(rest, paced));
                assert(paused.step(later[0]) == paused.proceed());
                assert(spec_run(grown.pause(), later) == spec_run(
                    paused.step(later[0]),
                    later.drop_first(),
                ));
                lemma_proceed_reassembles(paused, rest);
                assert(paused.received + rest.flatten() =~= transfer.received + pieces.flatten());
            } else {
                let next = TransferView { stage: transfer.stage, ..grown };
                assert(reading.step(answers[0]) == grown.proceed());
                assert(answers.drop_first() =~= piecewise(rest, paced));
                assert(grown.proceed() == next.proceed());
                lemma_proceed_reassembles(grown, rest);
                assert(grown.received + rest.flatten() =~= transfer.received + pieces.flatten());
            }
        }
    }
}

/// A write-read gives back what the device sent, whole and in order.
///
/// Let the device send `pieces.flatten()` in answer to the bytes written,
/// and let the host hand it over in the given pieces, each of at most one
/// packet, however the bytes are cut. Then the transfer that expects as
/// many bytes ends with exactly these bytes. With a device that echoes what
/// it is sent, the bytes read are the bytes written.
pub proof fn lemma_write_read_reassembles(
    endpoints: Endpoints,
    clock: SpiClock,
    data: Seq<u8>,
    pieces: Seq<Seq<u8>>,
    written: Seq<u8>,
)
    requires
        packet_sized(pieces),
    ensures
        spec_run(
            spec_spi_write_read(endpoints, clock, data, pieces.flatten().len()),
            seq![Ok(written)] + piecewise(pieces, true),
        ) == TransferStep::Done(Ok(pieces.flatten())),
{
    let first = spec_spi_write_read(endpoints, clock, data, pieces.flatten().len());
    let transfer = first->Perform_1;
    let answers = seq![Ok::<Seq<u8>, UsbError>(written)] + piecewise(pieces, true);
    assert(answers[0] == Ok::<Seq<u8>, UsbError>(written));
    assert(answers.drop_first() =~= piecewise(pieces, true));
    assert(transfer.step(answers[0]) == transfer.proceed());
    lemma_proceed_reassembles(transfer, pieces);
    assert(transfer.received + pieces.flatten() =~= pieces.flatten());
}

/// A read gives back what the device sent, whole and in order, however the
/// host cuts it into pieces of at most one packet.
pub proof fn lemma_read_reassembles(
    endpoints: Endpoints,
    clock: SpiClock,
    pieces: Seq<Seq<u8>>,
    written: Seq<u8>,
)
    requires
        packet_sized(pieces),
    ensures
        spec_run(
            spec_spi_read(endpoints, clock, pieces.flatten().len()),
            seq![Ok(written)] + piecewise(pieces, false),
        ) == TransferStep::Done(Ok(pieces.flatten())),
{
    let first = spec_spi_read(endpoints, clock, pieces.flatten().len());
    let transfer = first->Perform_1;
    let answers = seq![Ok::<Seq<u8>, UsbError>(written)] + piecewise(pieces, false);
    assert(answers[0] == Ok::<Seq<u8>, UsbError>(written));
    assert(answers.drop_first() =~= piecewise(pieces, false));
    assert(transfer.step(answers[0]) == transfer.proceed());
    lemma_proceed_reassembles(transfer, pieces);
    assert(transfer.received + pieces.flatten() =~= pieces.flatten());
}

/// A write is paced by the time the chip needs for its bytes: once the
/// frame is sent the host sleeps for eight million microseconds per byte
/// divided by the clock frequency, rounded down, and the write has ended
/// when the sleep has.
pub proof fn lemma_write_is_paced(
    endpoints: Endpoints,
    clock: SpiClock,
    data: Seq<u8>,
    written: Seq<u8>,
    slept: Seq<u8>,
)
    ensures
        spec_spi_write(endpoints, clock, data) is Perform,
        spec_spi_write(endpoints, clock, data)->Perform_0 == (RequestView::BulkWrite {
            endpoint: endpoints.write.address,
            data: spec_frame(TransferCommand::Write, data.len() as u32, data),
        }),
        spec_run(spec_spi_write(endpoints, clock, data), seq![Ok(written)]) is Perform,
        spec_run(spec_spi_write(endpoints, clock, data), seq![Ok(written)])->Perform_0
            == (RequestView::Sleep { micros: data.len() * 8 * 1_000_000 / clock.spec_freq() }),
        spec_run(spec_spi_write(endpoints, clock, data), seq![Ok(written), Ok(slept)])
            == TransferStep::Done(Ok(Seq::empty())),
{
    let first = spec_spi_write(endpoints, clock, data);
    let transfer = first->Perform_1;
    let one = seq![Ok::<Seq<u8>, UsbError>(written)];
    let two = seq![Ok::<Seq<u8>, UsbError>(written), Ok::<Seq<u8>, UsbError>(slept)];
    assert(one.drop_first() =~= Seq::empty());
    assert(two.drop_first() =~= seq![Ok::<Seq<u8>, UsbError>(slept)]);
    assert(two.drop_first().drop_first() =~= Seq::empty());
    let paused = transfer.step(one[0]);
    assert(paused == transfer.pause());
    assert(spec_run(paused, one.drop_first()) == paused);
    assert(spec_run(first, one) == paused);
    let ended = paused->Perform_1.step(two.drop_first()[0]);
    assert(ended == TransferStep::Done(Ok(Seq::<u8>::empty())));
    assert(spec_run(paused, two.drop_first()) == spec_run(ended, two.drop_first().drop_first()));
    assert(spec_run(first, two) == spec_run(paused, two.drop_first()));
}

} // verus!
