//! The switch driver: the bus handle it owns, its address, and the guard
//! that lets one operation at a time reach the bus.
//!
//! The driver never runs a transaction itself. An operation that is let
//! start hands back the one transaction that performs it, together with the
//! bus handle to run it on; the caller runs it and ends the operation with
//! the outcome. Until then the driver is taken, and every other start is
//! refused.

use vstd::prelude::*;
use crate::address::lemma_base_address_range;
use crate::address::lemma_pins_low_is_default;
use crate::address::SlaveAddr;
use crate::address::DEVICE_BASE_ADDRESS;
use crate::error::Error;
use crate::error::forwarded;
use crate::transaction::ReadTransaction;
use crate::transaction::WriteReadTransaction;
use crate::transaction::WriteTransaction;

verus! {

/// What a driver holds, as its contracts see it.
pub struct DeviceState<I2C> {
    /// The bus handle that the driver owns.
    pub i2c: I2C,
    /// The bus address of the switch.
    pub address: u8,
    /// Whether an operation has started and not yet ended.
    pub acquired: bool,
}

/// What an operation does to the driver: it starts, and later it ends.
pub enum Step<I2C> {
    /// An operation is to start. Where it is let start, the bus handle is
    /// lent to the caller, who leaves it as the value given here.
    Start(I2C),
    /// The operation under way ends.
    End,
}

impl<I2C> DeviceState<I2C> {
    /// The state of a driver made from `i2c` for a switch strapped as
    /// `address` says.
    pub open spec fn new(i2c: I2C, address: SlaveAddr) -> Self {
        DeviceState { i2c, address: address.spec_addr(DEVICE_BASE_ADDRESS), acquired: false }
    }

    /// The state once an operation has started and the caller has left the
    /// bus handle lent to it as `i2c`.
    pub open spec fn acquire(self, i2c: I2C) -> Self {
        DeviceState { i2c, acquired: true, ..self }
    }

    /// The state once the operation has ended.
    pub open spec fn release(self) -> Self {
        DeviceState { acquired: false, ..self }
    }

    /// A start is refused: the caller gets [`Error::CouldNotAcquireDevice`]
    /// and the driver stays as it is.
    pub open spec fn refuses<T, E>(self, after: Self, r: Result<T, Error<E>>) -> bool {
        r matches Err(Error::CouldNotAcquireDevice) && after == self
    }

    /// A start is accepted: the caller is lent the driver's own bus handle,
    /// `lent`, and the driver is taken, holding the handle as the caller
    /// leaves it, `left`.
    pub open spec fn lends(self, after: Self, lent: I2C, left: I2C) -> bool {
        lent == self.i2c && after == self.acquire(left)
    }

    /// The state after one step. A start is refused while an operation is
    /// under way.
    pub open spec fn step(self, step: Step<I2C>) -> Self {
        match step {
            Step::Start(i2c) => if self.acquired {
                self
            } else {
                self.acquire(i2c)
            },
            Step::End => self.release(),
        }
    }

    /// The state after `steps`, taken in order.
    pub open spec fn run(self, steps: Seq<Step<I2C>>) -> Self
        decreases steps.len(),
    {
        if steps.len() == 0 {
            self
        } else {
            self.run(steps.drop_last()).step(steps.last())
        }
    }
}

/// While one operation is under way a second start is refused: it gets
/// [`Error::CouldNotAcquireDevice`], no bus handle and no transaction, and
/// leaves the driver as it is. Here the first start was accepted, taking
/// the driver from `before` to `between`, and the second was answered as
/// every operation answers a taken driver.
pub proof fn lemma_second_start_refused<I2C, T, E>(
    before: DeviceState<I2C>,
    between: DeviceState<I2C>,
    after: DeviceState<I2C>,
    lent: I2C,
    left: I2C,
    second: Result<T, Error<E>>,
)
    requires
        before.lends(between, lent, left),
        between.acquired ==> between.refuses(after, second),
    ensures
        second matches Err(Error::CouldNotAcquireDevice),
        after == between,
{
}

/// The end of an operation sets the driver free, whatever went before: the
/// next start is accepted, and the one after that refused again.
pub proof fn lemma_free_after_end<I2C>(state: DeviceState<I2C>, left: I2C, other: I2C)
    ensures
        !state.release().acquired,
        state.release().step(Step::Start(left)) == state.release().acquire(left),
        state.release().step(Step::Start(left)).step(Step::Start(other)) == state.release().acquire(
            left,
        ),
{
}

/// However many operations start and end on a driver, its address stays,
/// and the driver never puts another bus handle in the place of its own:
/// as long as the callers leave the handle lent to them as they got it, the
/// driver holds the handle it was made with, which `destroy` then returns.
pub proof fn lemma_run_keeps_address_and_bus<I2C>(state: DeviceState<I2C>, steps: Seq<Step<I2C>>)
    ensures
        state.run(steps).address == state.address,
        (forall|i: int|
            0 <= i < steps.len() ==> (#[trigger] steps[i] matches Step::Start(left) ==> left
                == state.i2c)) ==> state.run(steps).i2c == state.i2c,
    decreases steps.len(),
{
    if steps.len() > 0 {
        lemma_run_keeps_address_and_bus(state, steps.drop_last());
    }
}

/// A switch with all its address pins low is addressed at `0b111_0000`
/// for as long as its driver lives: there the channel mask is written and
/// the channel status read.
pub proof fn lemma_pins_low_stays_at_base<I2C>(
    i2c: I2C,
    address: SlaveAddr,
    steps: Seq<Step<I2C>>,
)
    requires
        address == SlaveAddr::Default || address == SlaveAddr::Alternative(false, false, false),
    ensures
        DeviceState::new(i2c, address).run(steps).address == 0b111_0000u8,
{
    lemma_pins_low_is_default(DEVICE_BASE_ADDRESS);
    lemma_run_keeps_address_and_bus(DeviceState::new(i2c, address), steps);
}

/// Wherever the pins are, the switch is addressed within its eight
/// addresses for as long as its driver lives.
pub proof fn lemma_address_stays_in_range<I2C>(
    i2c: I2C,
    address: SlaveAddr,
    steps: Seq<Step<I2C>>,
)
    ensures
        DEVICE_BASE_ADDRESS <= DeviceState::new(i2c, address).run(steps).address
            <= DEVICE_BASE_ADDRESS + 7,
{
    lemma_base_address_range(address);
    lemma_run_keeps_address_and_bus(DeviceState::new(i2c, address), steps);
}

/// An address that the switch can be strapped to.
#[derive(Debug)]
struct PhysicalAddress {
    value: u8,
}

impl PhysicalAddress {
    /// The address is the base address with nothing but its low three bits
    /// changed.
    #[verifier::type_invariant]
    spec fn in_range(self) -> bool {
        DEVICE_BASE_ADDRESS <= self.value <= DEVICE_BASE_ADDRESS + 7
    }
}

/// Driver state shared by the TCA9548A and the PCA9548A, which speak the
/// same protocol at the same addresses.
#[derive(Debug)]
pub struct Xca9548a<I2C> {
    /// The concrete I²C device implementation.
    i2c: I2C,
    /// The I²C device address.
    address: PhysicalAddress,
    /// Set from the start of an operation to its end.
    acquired: bool,
}

impl<I2C> View for Xca9548a<I2C> {
    type V = DeviceState<I2C>;

    closed spec fn view(&self) -> DeviceState<I2C> {
        DeviceState { i2c: self.i2c, address: self.address.value, acquired: self.acquired }
    }
}

impl<I2C> Xca9548a<I2C> {
    /// Create new instance of the device
    pub fn new(i2c: I2C, address: SlaveAddr) -> (device: Self)
        ensures
            device@ == DeviceState::new(i2c, address),
    {
        proof {
            lemma_base_address_range(address);
        }
        let address = PhysicalAddress { value: address.addr(DEVICE_BASE_ADDRESS) };
        Xca9548a { i2c, address, acquired: false }
    }

    /// Destroy driver instance, return I²C bus instance.
    pub fn destroy(self) -> (i2c: I2C)
        ensures
            i2c == self@.i2c,
    {
        self.i2c
    }

    /// The bus address of the switch.
    pub fn address(&self) -> (address: u8)
        ensures
            address == self@.address,
            DEVICE_BASE_ADDRESS <= address <= DEVICE_BASE_ADDRESS + 7,
    {
        proof {
            use_type_invariant(&self.address);
        }
        self.address.value
    }

    /// Takes the driver for one operation and lends its bus handle, unless
    /// an operation is under way.
    pub fn acquire<E>(&mut self) -> (r: Result<&mut I2C, Error<E>>)
        ensures
            old(self)@.acquired ==> old(self)@.refuses(final(self)@, r),
            !old(self)@.acquired ==> (r matches Ok(bus) && old(self)@.lends(
                final(self)@,
                *bus,
                *final(bus),
            )),
    {
        if self.acquired {
            Err(Error::CouldNotAcquireDevice)
        } else {
            self.acquired = true;
            Ok(&mut self.i2c)
        }
    }

    /// Gives the driver back at the end of an operation.
    pub fn release(&mut self)
        ensures
            final(self)@ == old(self)@.release(),
    {
        self.acquired = false;
    }

    /// Select which channels are enabled.
    ///
    /// Each bit corresponds to a channel.
    /// Bit 0 corresponds to channel 0 and so on up to bit 7 which
    /// corresponds to channel 7.
    /// A `0` disables the channel and a `1` enables it.
    /// Several channels can be enabled at the same time
    ///
    /// Starts the operation and hands back the one transaction that
    /// performs it, a write of the mask, alone, to the switch itself, with
    /// the bus handle to run it on. [`Xca9548a::finish`] ends the operation.
    pub fn select_channels<E>(&mut self, channels: u8) -> (r: Result<
        (WriteTransaction<[u8; 1]>, &mut I2C),
        Error<E>,
    >)
        ensures
            old(self)@.acquired ==> old(self)@.refuses(final(self)@, r),
            !old(self)@.acquired ==> (r matches Ok((write, bus)) && {
                &&& old(self)@.lends(final(self)@, *bus, *final(bus))
                &&& write.address == old(self)@.address
                &&& DEVICE_BASE_ADDRESS <= write.address <= DEVICE_BASE_ADDRESS + 7
                &&& write.bytes@ == seq![channels]
            }),
    {
        let address = self.address();
        let bus = self.acquire()?;
        Ok((WriteTransaction { address, bytes: [channels] }, bus))
    }

    /// Get status of channels.
    ///
    /// Each bit corresponds to a channel.
    /// Bit 0 corresponds to channel 0 and so on up to bit 7 which
    /// corresponds to channel 7.
    /// A `0` means the channel is disabled and a `1` that the channel is enabled.
    ///
    /// Starts the operation and hands back the one transaction that
    /// performs it, a read of a single byte from the switch itself, with
    /// the bus handle to run it on. [`Xca9548a::finish_channel_status`]
    /// ends the operation.
    pub fn get_channel_status<E>(&mut self) -> (r: Result<(ReadTransaction, &mut I2C), Error<E>>)
        ensures
            old(self)@.acquired ==> old(self)@.refuses(final(self)@, r),
            !old(self)@.acquired ==> (r matches Ok((read, bus)) && {
                &&& old(self)@.lends(final(self)@, *bus, *final(bus))
                &&& read.address == old(self)@.address
                &&& DEVICE_BASE_ADDRESS <= read.address <= DEVICE_BASE_ADDRESS + 7
                &&& read.len == 1
            }),
    {
        let address = self.address();
        let bus = self.acquire()?;
        Ok((ReadTransaction { address, len: 1 }, bus))
    }

    /// Starts a write of `bytes` to the slave at `address` behind the
    /// switch, and hands back that very write with the bus handle to run it
    /// on. [`Xca9548a::finish`] ends the operation.
    pub fn write<'a, E>(&mut self, address: u8, bytes: &'a [u8]) -> (r: Result<
        (WriteTransaction<&'a [u8]>, &mut I2C),
        Error<E>,
    >)
        ensures
            old(self)@.acquired ==> old(self)@.refuses(final(self)@, r),
            !old(self)@.acquired ==> (r matches Ok((write, bus)) && {
                &&& old(self)@.lends(final(self)@, *bus, *final(bus))
                &&& write.address == address
                &&& write.bytes == bytes
            }),
    {
        let bus = self.acquire()?;
        Ok((WriteTransaction { address, bytes }, bus))
    }

    /// Starts a read of `len` bytes from the slave at `address` behind the
    /// switch, and hands back that very read with the bus handle to run it
    /// on. [`Xca9548a::finish`] ends the operation.
    pub fn read<E>(&mut self, address: u8, len: usize) -> (r: Result<
        (ReadTransaction, &mut I2C),
        Error<E>,
    >)
        ensures
            old(self)@.acquired ==> old(self)@.refuses(final(self)@, r),
            !old(self)@.acquired ==> (r matches Ok((read, bus)) && {
                &&& old(self)@.lends(final(self)@, *bus, *final(bus))
                &&& read.address == address
                &&& read.len == len
            }),
    {
        let bus = self.acquire()?;
        Ok((ReadTransaction { address, len }, bus))
    }

    /// Starts a write of `bytes` to the slave at `address` behind the
    /// switch with a read of `len` bytes from it in the same transaction,
    /// and hands back that very transaction with the bus handle to run it
    /// on. [`Xca9548a::finish`] ends the operation.
    pub fn write_read<'a, E>(&mut self, address: u8, bytes: &'a [u8], len: usize) -> (r: Result<
        (WriteReadTransaction<&'a [u8]>, &mut I2C),
        Error<E>,
    >)
        ensures
            old(self)@.acquired ==> old(self)@.refuses(final(self)@, r),
            !old(self)@.acquired ==> (r matches Ok((both, bus)) && {
                &&& old(self)@.lends(final(self)@, *bus, *final(bus))
                &&& both.address == address
                &&& both.bytes == bytes
                &&& both.len == len
            }),
    {
        let bus = self.acquire()?;
        Ok((WriteReadTransaction { address, bytes, len }, bus))
    }

    /// Ends the operation whose transaction ended in `outcome`, and says
    /// what the caller is told.
    pub fn finish<E>(&mut self, outcome: Result<(), E>) -> (r: Result<(), Error<E>>)
        ensures
            final(self)@ == old(self)@.release(),
            r == forwarded(outcome),
    {
        self.release();
        match outcome {
            Ok(()) => Ok(()),
            Err(e) => Err(Error::I2C(e)),
        }
    }

    /// Ends a reading of the channel status whose transaction ended in
    /// `outcome` with `data` in its buffer, and says what the caller is
    /// told: on success the byte read, as it is.
    pub fn finish_channel_status<E>(&mut self, outcome: Result<(), E>, data: [u8; 1]) -> (r:
        Result<u8, Error<E>>)
        ensures
            final(self)@ == old(self)@.release(),
            outcome is Ok ==> r == Ok::<u8, Error<E>>(data@[0]),
            outcome matches Err(e) ==> r == Err::<u8, Error<E>>(Error::I2C(e)),
    {
        self.release();
        match outcome {
            Ok(()) => Ok(data[0]),
            Err(e) => Err(Error::I2C(e)),
        }
    }
}

} // verus!
