//! The device as its users see it: the chip's state together with the
//! claims on its pins, and the SPI and GPIO objects derived from it.

use crate::codec::{
    spec_chip_select_payload, spec_gpio_mode_level_payload, spec_spi_delay_payload,
    spec_spi_word_payload, FRAME_HEADER,
};
use crate::device::{
    control_read, control_write, mode_level_request, spec_get_gpio_level, spec_get_gpio_values,
    spec_set_gpio_mode_level, spec_version, Commands, GpioLevel, GpioLevels, GpioMode, Info, Inner,
    RequestType, SpiConfig, GPIO_MAX,
};
use crate::spi::{spec_spi_read, spec_spi_write, spec_spi_write_read, step_view, SpiTransfer};
use crate::transaction::{
    all_fit, operations_view, select_request, spec_transaction, transaction_step_view, Operation,
    Transaction,
};
use crate::usb::{Request, RequestView, Response, Step, UsbError};
use crate::Error;
use vstd::prelude::*;

verus! {

/// A GPIO pin claimed as an output.
#[derive(Debug)]
pub struct OutputPin {
    index: u8,
    mode: GpioMode,
}

impl OutputPin {
    #[verifier::type_invariant]
    spec fn inv(self) -> bool {
        self.index <= GPIO_MAX
    }

    /// Index of the pin.
    pub closed spec fn pin(self) -> u8 {
        self.index
    }

    /// Drive mode that the pin was claimed with.
    pub closed spec fn drive(self) -> GpioMode {
        self.mode
    }

    /// Index of the pin.
    pub fn index(&self) -> (index: u8)
        ensures
            index == self.pin(),
            index <= GPIO_MAX,
    {
        proof {
            use_type_invariant(self);
        }
        self.index
    }

    /// Drive mode that the pin was claimed with.
    pub fn mode(&self) -> (mode: GpioMode)
        ensures
            mode == self.drive(),
    {
        self.mode
    }

    /// The request that drives the pin to `level` in its own drive mode.
    fn drive_to(&self, level: GpioLevel) -> (request: Request)
        ensures
            request@ == control_write(
                Commands::SetGpioModeAndLevel,
                spec_gpio_mode_level_payload(self.pin(), self.drive(), level),
            ),
    {
        mode_level_request(self.index, self.mode, level)
    }

    /// The request that drives the pin high.
    pub fn set_high(&self) -> (request: Request)
        ensures
            request@ == control_write(
                Commands::SetGpioModeAndLevel,
                spec_gpio_mode_level_payload(self.pin(), self.drive(), GpioLevel::High),
            ),
    {
        self.drive_to(GpioLevel::High)
    }

    /// The request that drives the pin low.
    pub fn set_low(&self) -> (request: Request)
        ensures
            request@ == control_write(
                Commands::SetGpioModeAndLevel,
                spec_gpio_mode_level_payload(self.pin(), self.drive(), GpioLevel::Low),
            ),
    {
        self.drive_to(GpioLevel::Low)
    }
}

/// A GPIO pin claimed as an input.
#[derive(Debug)]
pub struct InputPin {
    index: u8,
}

impl InputPin {
    #[verifier::type_invariant]
    spec fn inv(self) -> bool {
        self.index <= GPIO_MAX
    }

    /// Index of the pin.
    pub closed spec fn pin(self) -> u8 {
        self.index
    }

    /// Index of the pin.
    pub fn index(&self) -> (index: u8)
        ensures
            index == self.pin(),
            index <= GPIO_MAX,
    {
        proof {
            use_type_invariant(self);
        }
        self.index
    }

    /// The request whose answer holds the level of the pin.
    pub fn read(&self) -> (request: Request)
        ensures
            request@ == control_read(Commands::GetGpioValues, 2),
    {
        Request::ControlRead {
            request_type: RequestType::vendor_in().bits(),
            request: Commands::GetGpioValues.code(),
            len: 2,
        }
    }

    /// Whether the pin is high, from the answer to [`InputPin::read`].
    pub fn is_high(&self, response: &Response) -> (high: Result<bool, Error>)
        ensures
            high == spec_get_gpio_level(self.pin(), *response),
            self.pin() <= GPIO_MAX,
    {
        proof {
            use_type_invariant(self);
        }
        Inner::get_gpio_level(self.index, response)
    }

    /// Whether the pin is low, from the answer to [`InputPin::read`].
    pub fn is_low(&self, response: &Response) -> (low: Result<bool, Error>)
        ensures
            low == match spec_get_gpio_level(self.pin(), *response) {
                Ok(high) => Ok::<bool, Error>(!high),
                Err(e) => Err(e),
            },
    {
        match self.is_high(response) {
            Ok(high) => Ok(!high),
            Err(e) => Err(e),
        }
    }
}

/// An SPI channel of the chip, with the pin that frames its transactions.
#[derive(Debug)]
pub struct Spi {
    channel: u8,
    cs: Option<u8>,
}

impl Spi {
    #[verifier::type_invariant]
    spec fn inv(self) -> bool {
        self.cs is Some ==> self.cs->Some_0 <= GPIO_MAX
    }

    /// The channel.
    pub closed spec fn channel_id(self) -> u8 {
        self.channel
    }

    /// The chip-select pin, if any.
    pub closed spec fn select_pin(self) -> Option<u8> {
        self.cs
    }

    /// The channel.
    pub fn channel(&self) -> (channel: u8)
        ensures
            channel == self.channel_id(),
    {
        self.channel
    }

    /// The chip-select pin, if any.
    pub fn cs(&self) -> (cs: Option<u8>)
        ensures
            cs == self.select_pin(),
            cs is Some ==> cs->Some_0 <= GPIO_MAX,
    {
        proof {
            use_type_invariant(self);
        }
        self.cs
    }

    /// Starts a transaction of the given operations on the device.
    pub fn transaction(&self, inner: &Inner, operations: Vec<Operation>) -> (step: Step<
        Transaction,
        Vec<Vec<u8>>,
    >)
        requires
            all_fit(operations_view(operations@)),
        ensures
            transaction_step_view(step) == spec_transaction(
                inner.ends(),
                inner.clock(),
                self.select_pin(),
                operations_view(operations@),
            ),
            self.select_pin() is Some ==> self.select_pin()->Some_0 <= GPIO_MAX,
    {
        proof {
            use_type_invariant(self);
        }
        Transaction::begin(inner.endpoints(), inner.spi_clock(), self.cs, operations)
    }
}

/// What the configuration of a channel waits for.
#[derive(Debug, PartialEq, Eq, Structural, Clone, Copy)]
pub enum ConfigureStage {
    /// The answer to the request that drives the chip-select pin high.
    Pin,
    /// The answer to the request that sets the SPI word.
    Word,
    /// The answer to the request that sets the chip-select mode.
    ChipSelect,
    /// The answer to the request that sets the delays.
    Delay,
}

/// Mathematical value of a [`Configure`].
pub struct ConfigureView {
    /// The channel that is configured.
    pub channel: u8,
    /// The configuration to apply.
    pub config: SpiConfig,
    /// The chip-select pin of the SPI object to come, if any.
    pub cs: Option<u8>,
    /// What the configuration waits for.
    pub stage: ConfigureStage,
}

/// Mathematical value of a step of a configuration: either the next
/// request and state, or the outcome with the channel and chip-select pin
/// of the SPI object.
pub enum ConfigureStep {
    Perform(RequestView, ConfigureView),
    Done(Result<(u8, Option<u8>), Error>),
}

impl ConfigureView {
    /// The request that sets the SPI word, with which the three
    /// configuration commands begin.
    pub open spec fn word(self) -> ConfigureStep {
        ConfigureStep::Perform(
            control_write(
                Commands::SetSpiWord,
                spec_spi_word_payload(
                    self.channel,
                    self.config.clock,
                    self.config.spi_mode,
                    self.config.cs_pin_mode,
                ),
            ),
            ConfigureView { stage: ConfigureStage::Word, ..self },
        )
    }

    /// The step that follows an answer of the host. Any failure ends the
    /// configuration with that failure.
    pub open spec fn step(self, response: Result<Seq<u8>, UsbError>) -> ConfigureStep {
        match response {
            Err(e) => ConfigureStep::Done(Err(Error::Usb(e))),
            Ok(_) => match self.stage {
                ConfigureStage::Pin => self.word(),
                ConfigureStage::Word => ConfigureStep::Perform(
                    control_write(
                        Commands::SetGpioChipSelect,
                        spec_chip_select_payload(self.channel, self.config.cs_mode),
                    ),
                    ConfigureView { stage: ConfigureStage::ChipSelect, ..self },
                ),
                ConfigureStage::ChipSelect => ConfigureStep::Perform(
                    control_write(
                        Commands::SetSpiDelay,
                        spec_spi_delay_payload(self.channel, self.config.delays),
                    ),
                    ConfigureView { stage: ConfigureStage::Delay, ..self },
                ),
                ConfigureStage::Delay => ConfigureStep::Done(Ok((self.channel, self.cs))),
            },
        }
    }

    /// Whether the answer makes the chip's clock the configured one: the
    /// SPI word was accepted.
    pub open spec fn accepts_clock(self, response: Result<Seq<u8>, UsbError>) -> bool {
        response is Ok && self.stage == ConfigureStage::Word
    }
}

/// The first step of the configuration of a channel without a chip-select
/// pin.
pub open spec fn spec_spi_configure(channel: u8, config: SpiConfig) -> ConfigureStep {
    ConfigureView { channel, config, cs: None, stage: ConfigureStage::Word }.word()
}

/// The first step towards an SPI object: `InvalidIndex` for a chip-select
/// pin that the chip does not have, the request that drives the pin high
/// where one is given, else the request that sets the SPI word.
pub open spec fn spec_spi(channel: u8, config: SpiConfig, cs: Option<u8>) -> ConfigureStep {
    match cs {
        Some(pin) => if pin > GPIO_MAX {
            ConfigureStep::Done(Err(Error::InvalidIndex))
        } else {
            ConfigureStep::Perform(
                select_request(pin, GpioLevel::High),
                ConfigureView { channel, config, cs, stage: ConfigureStage::Pin },
            )
        },
        None => ConfigureView { channel, config, cs, stage: ConfigureStage::Word }.word(),
    }
}

/// The configuration of an SPI channel under way, between two requests to
/// the host.
pub struct Configure {
    channel: u8,
    config: SpiConfig,
    cs: Option<u8>,
    stage: ConfigureStage,
}

impl View for Configure {
    type V = ConfigureView;

    closed spec fn view(&self) -> ConfigureView {
        ConfigureView { channel: self.channel, config: self.config, cs: self.cs, stage: self.stage }
    }
}

/// Mathematical value of a step of a [`Configure`].
pub open spec fn configure_step_view(step: Step<Configure, Spi>) -> ConfigureStep {
    match step {
        Step::Perform(request, configure) => ConfigureStep::Perform(request@, configure@),
        Step::Done(Ok(spi)) => ConfigureStep::Done(Ok((spi.channel_id(), spi.select_pin()))),
        Step::Done(Err(e)) => ConfigureStep::Done(Err(e)),
    }
}

impl Configure {
    #[verifier::type_invariant]
    spec fn inv(self) -> bool {
        self.cs is Some ==> self.cs->Some_0 <= GPIO_MAX
    }

    /// The request that sets the SPI word.
    fn word(self, inner: &Inner) -> (step: Step<Configure, Spi>)
        ensures
            configure_step_view(step) == self@.word(),
    {
        proof {
            use_type_invariant(&self);
        }
        Step::Perform(
            inner.set_spi_word(
                self.channel,
                self.config.clock,
                self.config.spi_mode,
                self.config.cs_pin_mode,
            ),
            Configure {
                channel: self.channel,
                config: self.config,
                cs: self.cs,
                stage: ConfigureStage::Word,
            },
        )
    }

    /// Starts the configuration of a channel.
    pub(crate) fn begin(inner: &Inner, channel: u8, config: SpiConfig, cs: Option<u8>) -> (step:
        Step<Configure, Spi>)
        ensures
            configure_step_view(step) == spec_spi(channel, config, cs),
    {
        match cs {
            Some(pin) => {
                match inner.set_gpio_mode_level(pin, GpioMode::PushPull, GpioLevel::High) {
                    Err(e) => Step::Done(Err(e)),
                    Ok(request) => Step::Perform(
                        request,
                        Configure { channel, config, cs, stage: ConfigureStage::Pin },
                    ),
                }
            },
            None => Configure { channel, config, cs, stage: ConfigureStage::Word }.word(inner),
        }
    }

    /// Resumes the configuration with the host's answer to the last
    /// request. The device's clock becomes the configured one as soon as the
    /// chip has accepted the SPI word; nothing else of the device changes.
    pub fn step(self, inner: &mut Inner, response: Response) -> (step: Step<Configure, Spi>)
        ensures
            configure_step_view(step) == self@.step(crate::usb::response_view(response)),
            final(inner).clock() == if self@.accepts_clock(crate::usb::response_view(response)) {
                self@.config.clock
            } else {
                old(inner).clock()
            },
            final(inner).ends() == old(inner).ends(),
            forall|pin: u8| final(inner).allocated(pin) == old(inner).allocated(pin),
            keeps_claims(*old(inner), *final(inner)),
    {
        proof {
            use_type_invariant(&self);
        }
        if let Err(e) = response {
            return Step::Done(Err(Error::Usb(e)));
        }
        match self.stage {
            ConfigureStage::Pin => self.word(inner),
            ConfigureStage::Word => {
                inner.record_clock(self.config.clock);
                Step::Perform(
                    inner.set_gpio_chip_select(self.channel, self.config.cs_mode),
                    Configure {
                        channel: self.channel,
                        config: self.config,
                        cs: self.cs,
                        stage: ConfigureStage::ChipSelect,
                    },
                )
            },
            ConfigureStage::ChipSelect => Step::Perform(
                inner.set_spi_delay(self.channel, self.config.delays),
                Configure {
                    channel: self.channel,
                    config: self.config,
                    cs: self.cs,
                    stage: ConfigureStage::Delay,
                },
            ),
            ConfigureStage::Delay => Step::Done(Ok(Spi { channel: self.channel, cs: self.cs })),
        }
    }
}

/// Whether a pin can be claimed: `InvalidIndex` for a pin the chip does not
/// have, `GpioInUse` for one that is claimed already.
pub open spec fn spec_claimable(inner: Inner, index: u8) -> Result<(), Error> {
    if index > GPIO_MAX {
        Err(Error::InvalidIndex)
    } else if inner.allocated(index) {
        Err(Error::GpioInUse)
    } else {
        Ok(())
    }
}

/// Whether `after` is `before` with the pin claimed and nothing else
/// changed.
pub open spec fn claims(before: Inner, after: Inner, pin: u8) -> bool {
    &&& after.ends() == before.ends()
    &&& after.clock() == before.clock()
    &&& forall|other: u8| after.allocated(other) == (other == pin || before.allocated(other))
}

/// Whether every pin claimed in `before` is claimed in `after`.
pub open spec fn keeps_claims(before: Inner, after: Inner) -> bool {
    forall|pin: u8| before.allocated(pin) ==> after.allocated(pin)
}

/// A pin that was claimed cannot be claimed again, as an output or as an
/// input, whatever is done with the device in between: nothing releases a
/// claim.
pub proof fn lemma_claimed_pin_stays_in_use(before: Inner, after: Inner, later: Inner, pin: u8)
    requires
        pin <= GPIO_MAX,
        claims(before, after, pin),
        keeps_claims(after, later),
    ensures
        spec_claimable(later, pin) == Err::<(), Error>(Error::GpioInUse),
{
    assert(after.allocated(pin));
}

/// A claim on a pin as an output, made once the chip has accepted the pin's
/// mode and level.
pub struct OutputClaim {
    index: u8,
    mode: GpioMode,
}

impl OutputClaim {
    #[verifier::type_invariant]
    spec fn inv(self) -> bool {
        self.index <= GPIO_MAX
    }

    /// Index of the pin.
    pub closed spec fn pin(self) -> u8 {
        self.index
    }

    /// Drive mode of the pin.
    pub closed spec fn drive(self) -> GpioMode {
        self.mode
    }

    /// Makes the claim, given the host's answer to the request that set the
    /// pin's mode and level.
    ///
    /// A failure of the host is handed on and a pin claimed in the meantime
    /// gives `GpioInUse`; both leave the device as it was. Otherwise the pin
    /// becomes claimed, and nothing else of the device changes.
    pub fn finish(self, inner: &mut Inner, response: Response) -> (pin: Result<OutputPin, Error>)
        ensures
            self.pin() <= GPIO_MAX,
            match response {
                Err(e) => pin == Err::<OutputPin, Error>(Error::Usb(e)) && *final(inner) == *old(
                    inner,
                ),
                Ok(_) => if old(inner).allocated(self.pin()) {
                    pin == Err::<OutputPin, Error>(Error::GpioInUse) && *final(inner) == *old(inner)
                } else {
                    &&& pin is Ok
                    &&& pin->Ok_0.pin() == self.pin()
                    &&& pin->Ok_0.drive() == self.drive()
                    &&& claims(*old(inner), *final(inner), self.pin())
                },
            },
    {
        proof {
            use_type_invariant(&self);
        }
        if let Err(e) = response {
            return Err(Error::Usb(e));
        }
        if inner.is_allocated(self.index) {
            return Err(Error::GpioInUse);
        }
        inner.allocate(self.index);
        Ok(OutputPin { index: self.index, mode: self.mode })
    }
}

/// A claim on a pin as an input, made once the chip has accepted the pin's
/// mode.
pub struct InputClaim {
    index: u8,
}

impl InputClaim {
    #[verifier::type_invariant]
    spec fn inv(self) -> bool {
        self.index <= GPIO_MAX
    }

    /// Index of the pin.
    pub closed spec fn pin(self) -> u8 {
        self.index
    }

    /// Makes the claim, given the host's answer to the request that made
    /// the pin an input.
    ///
    /// A failure of the host is handed on and a pin claimed in the meantime
    /// gives `GpioInUse`; both leave the device as it was. Otherwise the pin
    /// becomes claimed, and nothing else of the device changes.
    pub fn finish(self, inner: &mut Inner, response: Response) -> (pin: Result<InputPin, Error>)
        ensures
            self.pin() <= GPIO_MAX,
            match response {
                Err(e) => pin == Err::<InputPin, Error>(Error::Usb(e)) && *final(inner) == *old(
                    inner,
                ),
                Ok(_) => if old(inner).allocated(self.pin()) {
                    pin == Err::<InputPin, Error>(Error::GpioInUse) && *final(inner) == *old(inner)
                } else {
                    &&& pin is Ok
                    &&& pin->Ok_0.pin() == self.pin()
                    &&& claims(*old(inner), *final(inner), self.pin())
                },
            },
    {
        proof {
            use_type_invariant(&self);
        }
        if let Err(e) = response {
            return Err(Error::Usb(e));
        }
        if inner.is_allocated(self.index) {
            return Err(Error::GpioInUse);
        }
        inner.allocate(self.index);
        Ok(InputPin { index: self.index })
    }
}

/// One connected chip: its state and what it reported about itself.
pub struct Cp2130 {
    pub inner: Inner,
    pub info: Info,
}

impl Cp2130 {
    /// Wraps the state and the information of a chip that was connected.
    pub fn new(inner: Inner, info: Info) -> (device: Cp2130)
        ensures
            device.inner == inner,
            device.info == info,
    {
        Cp2130 { inner, info }
    }

    /// What the chip reported about itself.
    pub fn info(&self) -> (info: Info)
        ensures
            info@ == self.info@,
    {
        self.info.copy()
    }

    /// The request that resets the chip.
    pub fn reset(&self) -> (request: Request)
        ensures
            request@ == control_write(Commands::ResetDevice, Seq::empty()),
    {
        self.inner.reset()
    }

    /// Starts the creation of an SPI object for a channel, with an optional
    /// chip-select pin.
    pub fn spi(&self, channel: u8, config: SpiConfig, cs_pin: Option<u8>) -> (step: Step<
        Configure,
        Spi,
    >)
        ensures
            configure_step_view(step) == spec_spi(channel, config, cs_pin),
    {
        Configure::begin(&self.inner, channel, config, cs_pin)
    }

    /// Starts the claim of a pin as an output with the given drive mode and
    /// initial level: the request to send and the claim to make once it was
    /// answered.
    pub fn gpio_out(&self, index: u8, mode: GpioMode, level: GpioLevel) -> (start: Result<
        (Request, OutputClaim),
        Error,
    >)
        ensures
            match start {
                Err(e) => spec_claimable(self.inner, index) == Err::<(), Error>(e),
                Ok((request, claim)) => {
                    &&& spec_claimable(self.inner, index) is Ok
                    &&& request@ == control_write(
                        Commands::SetGpioModeAndLevel,
                        spec_gpio_mode_level_payload(index, mode, level),
                    )
                    &&& claim.pin() == index
                    &&& claim.drive() == mode
                },
            },
    {
        if index > GPIO_MAX {
            return Err(Error::InvalidIndex);
        }
        if self.inner.is_allocated(index) {
            return Err(Error::GpioInUse);
        }
        match self.inner.set_gpio_mode_level(index, mode, level) {
            Err(e) => Err(e),
            Ok(request) => Ok((request, OutputClaim { index, mode })),
        }
    }

    /// Starts the claim of a pin as an input: the request to send and the
    /// claim to make once it was answered.
    pub fn gpio_in(&self, index: u8) -> (start: Result<(Request, InputClaim), Error>)
        ensures
            match start {
                Err(e) => spec_claimable(self.inner, index) == Err::<(), Error>(e),
                Ok((request, claim)) => {
                    &&& spec_claimable(self.inner, index) is Ok
                    &&& request@ == control_write(
                        Commands::SetGpioModeAndLevel,
                        spec_gpio_mode_level_payload(index, GpioMode::Input, GpioLevel::Low),
                    )
                    &&& claim.pin() == index
                },
            },
    {
        if index > GPIO_MAX {
            return Err(Error::InvalidIndex);
        }
        if self.inner.is_allocated(index) {
            return Err(Error::GpioInUse);
        }
        match self.inner.set_gpio_mode_level(index, GpioMode::Input, GpioLevel::Low) {
            Err(e) => Err(e),
            Ok(request) => Ok((request, InputClaim { index })),
        }
    }
}

/// The operations of the chip itself, each as the request to make of the
/// host or as the reading of the host's answer.
pub trait Device {
    /// The state of the chip that the operations go by.
    spec fn chip(&self) -> Inner;

    /// Starts a read of `len` bytes from the SPI device.
    fn spi_read(&self, len: usize) -> (step: Step<SpiTransfer, Vec<u8>>)
        requires
            len <= u32::MAX,
        ensures
            step_view(step) == spec_spi_read(self.chip().ends(), self.chip().clock(), len as nat),
    ;

    /// Starts a write of `data` to the SPI device.
    fn spi_write(&self, data: &[u8]) -> (step: Step<SpiTransfer, Vec<u8>>)
        requires
            data@.len() <= u32::MAX,
            data@.len() + FRAME_HEADER <= usize::MAX,
        ensures
            step_view(step) == spec_spi_write(self.chip().ends(), self.chip().clock(), data@),
    ;

    /// Starts a transfer that writes `data` to the SPI device and reads
    /// `len` bytes back.
    fn spi_write_read(&self, data: &[u8], len: usize) -> (step: Step<SpiTransfer, Vec<u8>>)
        requires
            data@.len() <= u32::MAX,
            data@.len() + FRAME_HEADER <= usize::MAX,
        ensures
            step_view(step) == spec_spi_write_read(
                self.chip().ends(),
                self.chip().clock(),
                data@,
                len as nat,
            ),
    ;

    /// The request that asks for the chip version.
    fn version_request(&self) -> (request: Request)
        ensures
            request@ == control_read(Commands::GetReadOnlyVersion, 2),
    ;

    /// The chip version in the answer to [`Device::version_request`].
    fn version(&self, response: &Response) -> (version: Result<u16, Error>)
        ensures
            version == spec_version(*response),
    ;

    /// The request that sets the mode and level of a pin.
    fn set_gpio_mode_level(&self, pin: u8, mode: GpioMode, level: GpioLevel) -> (request: Result<
        Request,
        Error,
    >)
        ensures
            match request {
                Ok(r) => Ok::<RequestView, Error>(r@),
                Err(e) => Err(e),
            } == spec_set_gpio_mode_level(pin, mode, level),
    ;

    /// The request that asks for the levels of all pins.
    fn gpio_values_request(&self) -> (request: Request)
        ensures
            request@ == control_read(Commands::GetGpioValues, 2),
    ;

    /// The levels of all pins in the answer to
    /// [`Device::gpio_values_request`].
    fn get_gpio_values(&self, response: &Response) -> (levels: Result<GpioLevels, Error>)
        ensures
            levels == spec_get_gpio_values(*response),
    ;

    /// The level of one pin in the answer to
    /// [`Device::gpio_values_request`].
    fn get_gpio_level(&self, pin: u8, response: &Response) -> (level: Result<bool, Error>)
        ensures
            level == spec_get_gpio_level(pin, *response),
    ;
}

impl Device for Cp2130 {
    open spec fn chip(&self) -> Inner {
        self.inner
    }

    fn spi_read(&self, len: usize) -> (step: Step<SpiTransfer, Vec<u8>>) {
        self.inner.spi_read(len)
    }

    fn spi_write(&self, data: &[u8]) -> (step: Step<SpiTransfer, Vec<u8>>) {
        self.inner.spi_write(data)
    }

    fn spi_write_read(&self, data: &[u8], len: usize) -> (step: Step<SpiTransfer, Vec<u8>>) {
        self.inner.spi_write_read(data, len)
    }

    fn version_request(&self) -> (request: Request) {
        self.inner.version_request()
    }

    fn version(&self, response: &Response) -> (version: Result<u16, Error>) {
        Inner::version(response)
    }

    fn set_gpio_mode_level(&self, pin: u8, mode: GpioMode, level: GpioLevel) -> (request: Result<
        Request,
        Error,
    >) {
        self.inner.set_gpio_mode_level(pin, mode, level)
    }

    fn gpio_values_request(&self) -> (request: Request) {
        self.inner.gpio_values_request()
    }

    fn get_gpio_values(&self, response: &Response) -> (levels: Result<GpioLevels, Error>) {
        Inner::get_gpio_values(response)
    }

    fn get_gpio_level(&self, pin: u8, response: &Response) -> (level: Result<bool, Error>) {
        Inner::get_gpio_level(pin, response)
    }
}

} // verus!
