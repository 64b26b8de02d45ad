//! Configuration of a TMC2209 stepper driver over its UART interface: the
//! register values the driver is set up with and the write datagrams that
//! carry them. The register fields and the datagram framing come from the
//! `tmc2209` crate; sending the bytes is the caller's part.

use vstd::prelude::*;
use tmc2209::reg;
use tmc2209::data::MicroStepResolution;
use tmc2209::WriteRequest;

verus! {

/// Address of the GCONF register
pub const GCONF_ADDR: u8 = 0x00;
/// Address of the IHOLD_IRUN register
pub const IHOLD_IRUN_ADDR: u8 = 0x10;
/// Address of the CHOPCONF register
pub const CHOPCONF_ADDR: u8 = 0x6C;
/// Address of the PWMCONF register
pub const PWMCONF_ADDR: u8 = 0x70;

/// Slow decay off time the chopper is configured with
pub const CHOPPER_TOFF: u32 = 5;
/// Microstep resolution field value for 1/16 microsteps
pub const MRES_16_MICROSTEPS: u32 = 4;
/// Standstill current scale
pub const HOLD_CURRENT: u8 = 0;
/// Power-down delay after standstill
pub const HOLD_DELAY: u8 = 1;

/// `bits` with the field of `mask` (already shifted to `lsb`) replaced by the
/// low bits of `value`, as the register setters of the `tmc2209` crate do.
pub open spec fn set_field(bits: u32, lsb: u32, mask: u32, value: u32) -> u32 {
    (bits & !(mask << lsb)) | ((value << lsb) & (mask << lsb))
}

/// The bytes of a write datagram to register `register` of the driver at
/// `slave_addr` carrying `data`, as the `tmc2209` crate frames it (its last
/// byte is a CRC of the first seven).
pub uninterp spec fn tmc2209_write_request(slave_addr: u8, register: u8, data: u32) -> Seq<u8>;

/// Reset value of `reg::CHOPCONF::default()`: TOFF 3, HSTRT 5, interpolation on.
#[verifier::external_body]
fn chopconf_default() -> (r: u32)
    ensures
        r == 0x1000_0053,
{
    u32::from(reg::CHOPCONF::default())
}

/// `reg::CHOPCONF::set_toff`: bits 0-3.
#[verifier::external_body]
fn chopconf_set_toff(bits: u32, toff: u32) -> (r: u32)
    ensures
        r == set_field(bits, 0, 0xF, toff),
{
    let mut c = reg::CHOPCONF::from(bits);
    c.set_toff(toff);
    u32::from(c)
}

/// `reg::CHOPCONF::set_mres` with `MicroStepResolution::from_driver`: bits 24-27
/// take the driver value.
#[verifier::external_body]
fn chopconf_set_mres(bits: u32, driver_value: u32) -> (r: u32)
    requires
        driver_value <= 8,
    ensures
        r == set_field(bits, 24, 0xF, driver_value),
{
    let mut c = reg::CHOPCONF::from(bits);
    c.set_mres(MicroStepResolution::from_driver(driver_value));
    u32::from(c)
}

/// `reg::CHOPCONF::set_vsense`: bit 17.
#[verifier::external_body]
fn chopconf_set_vsense(bits: u32, vsense: bool) -> (r: u32)
    ensures
        r == set_field(bits, 17, 1, if vsense { 1 } else { 0 }),
{
    let mut c = reg::CHOPCONF::from(bits);
    c.set_vsense(vsense);
    u32::from(c)
}

/// Reset value of `reg::IHOLD_IRUN::default()`: IRUN 31.
#[verifier::external_body]
fn ihold_irun_default() -> (r: u32)
    ensures
        r == 0x1F00,
{
    u32::from(reg::IHOLD_IRUN::default())
}

/// `reg::IHOLD_IRUN::set_irun`: bits 8-12.
#[verifier::external_body]
fn ihold_irun_set_irun(bits: u32, irun: u8) -> (r: u32)
    ensures
        r == set_field(bits, 8, 0x1F, irun as u32),
{
    let mut c = reg::IHOLD_IRUN::from(bits);
    c.set_irun(irun);
    u32::from(c)
}

/// `reg::IHOLD_IRUN::set_ihold`: bits 0-4.
#[verifier::external_body]
fn ihold_irun_set_ihold(bits: u32, ihold: u8) -> (r: u32)
    ensures
        r == set_field(bits, 0, 0x1F, ihold as u32),
{
    let mut c = reg::IHOLD_IRUN::from(bits);
    c.set_ihold(ihold);
    u32::from(c)
}

/// `reg::IHOLD_IRUN::set_ihold_delay`: bits 16-19.
#[verifier::external_body]
fn ihold_irun_set_ihold_delay(bits: u32, delay: u8) -> (r: u32)
    ensures
        r == set_field(bits, 16, 0xF, delay as u32),
{
    let mut c = reg::IHOLD_IRUN::from(bits);
    c.set_ihold_delay(delay);
    u32::from(c)
}

/// Reset value of `reg::PWMCONF::default()`: PWM_OFS 36, PWM_FREQ 1, autoscale
/// and autograd on, PWM_REG 1, PWM_LIM 12.
#[verifier::external_body]
fn pwmconf_default() -> (r: u32)
    ensures
        r == 0xC10D_0024,
{
    u32::from(reg::PWMCONF::default())
}

/// `reg::PWMCONF::set_pwm_autoscale`: bit 18.
#[verifier::external_body]
fn pwmconf_set_pwm_autoscale(bits: u32, on: bool) -> (r: u32)
    ensures
        r == set_field(bits, 18, 1, if on { 1 } else { 0 }),
{
    let mut c = reg::PWMCONF::from(bits);
    c.set_pwm_autoscale(on);
    u32::from(c)
}

/// Reset value of `reg::GCONF::default()`: analog current scaling and PDN
/// disable set.
#[verifier::external_body]
fn gconf_default() -> (r: u32)
    ensures
        r == 0x41,
{
    u32::from(reg::GCONF::default())
}

/// `reg::GCONF::set_shaft`: bit 3.
#[verifier::external_body]
fn gconf_set_shaft(bits: u32, shaft: bool) -> (r: u32)
    ensures
        r == set_field(bits, 3, 1, if shaft { 1 } else { 0 }),
{
    let mut c = reg::GCONF::from(bits);
    c.set_shaft(shaft);
    u32::from(c)
}

/// The framing facts of a write datagram that the `tmc2209` crate's
/// `WriteRequest::from_raw_data` shows: sync byte, slave address, register
/// address with the write bit, then the data big-endian.
pub open spec fn datagram_layout(d: Seq<u8>, slave_addr: u8, register: u8, data: u32) -> bool {
    &&& d.len() == 8
    &&& d[0] == 0x05
    &&& d[1] == slave_addr
    &&& d[2] == register | 0x80
    &&& d[3] == (data >> 24u32) as u8
    &&& d[4] == (data >> 16u32) as u8
    &&& d[5] == (data >> 8u32) as u8
    &&& d[6] == data as u8
}

/// `WriteRequest::new` for a CHOPCONF value, as bytes.
#[verifier::external_body]
fn chopconf_request(slave_addr: u8, bits: u32) -> (r: [u8; 8])
    ensures
        r@ == tmc2209_write_request(slave_addr, CHOPCONF_ADDR, bits),
        datagram_layout(r@, slave_addr, CHOPCONF_ADDR, bits),
{
    <[u8; 8]>::from(WriteRequest::new(slave_addr, reg::CHOPCONF::from(bits)))
}

/// `WriteRequest::new` for an IHOLD_IRUN value, as bytes.
#[verifier::external_body]
fn ihold_irun_request(slave_addr: u8, bits: u32) -> (r: [u8; 8])
    ensures
        r@ == tmc2209_write_request(slave_addr, IHOLD_IRUN_ADDR, bits),
        datagram_layout(r@, slave_addr, IHOLD_IRUN_ADDR, bits),
{
    <[u8; 8]>::from(WriteRequest::new(slave_addr, reg::IHOLD_IRUN::from(bits)))
}

/// `WriteRequest::new` for a PWMCONF value, as bytes.
#[verifier::external_body]
fn pwmconf_request(slave_addr: u8, bits: u32) -> (r: [u8; 8])
    ensures
        r@ == tmc2209_write_request(slave_addr, PWMCONF_ADDR, bits),
        datagram_layout(r@, slave_addr, PWMCONF_ADDR, bits),
{
    <[u8; 8]>::from(WriteRequest::new(slave_addr, reg::PWMCONF::from(bits)))
}

/// `WriteRequest::new` for a GCONF value, as bytes.
#[verifier::external_body]
fn gconf_request(slave_addr: u8, bits: u32) -> (r: [u8; 8])
    ensures
        r@ == tmc2209_write_request(slave_addr, GCONF_ADDR, bits),
        datagram_layout(r@, slave_addr, GCONF_ADDR, bits),
{
    <[u8; 8]>::from(WriteRequest::new(slave_addr, reg::GCONF::from(bits)))
}

/// CHOPCONF as configured: the reset value with TOFF 5, 1/16 microsteps and
/// the given sense voltage range.
pub open spec fn spec_chopconf(vsense: bool) -> u32 {
    set_field(
        set_field(set_field(0x1000_0053, 0, 0xF, CHOPPER_TOFF), 24, 0xF, MRES_16_MICROSTEPS),
        17,
        1,
        if vsense { 1 } else { 0 },
    )
}

/// IHOLD_IRUN as configured: run current `cs`, no standstill current, power-down delay 1.
pub open spec fn spec_ihold_irun(cs: u8) -> u32 {
    set_field(
        set_field(set_field(0x1F00, 8, 0x1F, cs as u32), 0, 0x1F, HOLD_CURRENT as u32),
        16,
        0xF,
        HOLD_DELAY as u32,
    )
}

/// PWMCONF as configured: the reset value with automatic amplitude scaling on.
pub open spec fn spec_pwmconf() -> u32 {
    set_field(0xC10D_0024, 18, 1, 1)
}

/// GCONF as configured for a shaft direction: the reset value with the shaft bit.
pub open spec fn spec_gconf(dir: bool) -> u32 {
    set_field(0x41, 3, 1, if dir { 1 } else { 0 })
}

/// The chopper configuration: TOFF 5, 1/16 microsteps, sense voltage range `vsense`.
pub fn chopconf_value(vsense: bool) -> (r: u32)
    ensures
        r == spec_chopconf(vsense),
{
    let mut chop = chopconf_default();
    chop = chopconf_set_toff(chop, CHOPPER_TOFF);
    chop = chopconf_set_mres(chop, MRES_16_MICROSTEPS);
    chopconf_set_vsense(chop, vsense)
}

/// The current control: run current scale `cs`, standstill current 0, delay 1.
pub fn ihold_irun_value(cs: u8) -> (r: u32)
    ensures
        r == spec_ihold_irun(cs),
{
    let mut ihold_irun = ihold_irun_default();
    ihold_irun = ihold_irun_set_irun(ihold_irun, cs);
    ihold_irun = ihold_irun_set_ihold(ihold_irun, HOLD_CURRENT);
    ihold_irun_set_ihold_delay(ihold_irun, HOLD_DELAY)
}

/// The StealthChop configuration with automatic amplitude scaling.
pub fn pwmconf_value() -> (r: u32)
    ensures
        r == spec_pwmconf(),
{
    pwmconf_set_pwm_autoscale(pwmconf_default(), true)
}

/// The global configuration with the shaft direction bit `dir`.
pub fn gconf_value(dir: bool) -> (r: u32)
    ensures
        r == spec_gconf(dir),
{
    gconf_set_shaft(gconf_default(), dir)
}

/// The datagrams that initialise the driver at `slave_addr`, in the order they
/// are sent: chopper configuration, current control, StealthChop
/// configuration. `vsense` and `cs` are the sense range and current scale for
/// the motor current.
pub fn init_datagrams(slave_addr: u8, vsense: bool, cs: u8) -> (r: Vec<[u8; 8]>)
    ensures
        r@.len() == 3,
        r@[0]@ == tmc2209_write_request(slave_addr, CHOPCONF_ADDR, spec_chopconf(vsense)),
        r@[1]@ == tmc2209_write_request(slave_addr, IHOLD_IRUN_ADDR, spec_ihold_irun(cs)),
        r@[2]@ == tmc2209_write_request(slave_addr, PWMCONF_ADDR, spec_pwmconf()),
        datagram_layout(r@[0]@, slave_addr, CHOPCONF_ADDR, spec_chopconf(vsense)),
        datagram_layout(r@[1]@, slave_addr, IHOLD_IRUN_ADDR, spec_ihold_irun(cs)),
        datagram_layout(r@[2]@, slave_addr, PWMCONF_ADDR, spec_pwmconf()),
{
    let mut out: Vec<[u8; 8]> = Vec::new();
    out.push(chopconf_request(slave_addr, chopconf_value(vsense)));
    out.push(ihold_irun_request(slave_addr, ihold_irun_value(cs)));
    out.push(pwmconf_request(slave_addr, pwmconf_value()));
    out
}

/// The datagram that sets the shaft direction bit of the driver at `slave_addr`.
pub fn direction_datagram(slave_addr: u8, dir: bool) -> (r: [u8; 8])
    ensures
        r@ == tmc2209_write_request(slave_addr, GCONF_ADDR, spec_gconf(dir)),
        datagram_layout(r@, slave_addr, GCONF_ADDR, spec_gconf(dir)),
{
    gconf_request(slave_addr, gconf_value(dir))
}

/// Step pulses run in each direction by the back-and-forth test task.
pub const SWEEP_STEPS: u32 = 5000;

/// What the back-and-forth task does next.
#[derive(Debug, Clone, Copy, PartialEq, Eq, Structural)]
pub enum SweepAction {
    /// Drive the direction pin and the driver's shaft bit to this direction
    SetDirection(bool),
    /// Send one step pulse
    Pulse,
}

/// Progress of the task that turns the motor `SWEEP_STEPS` steps one way,
/// then the same number the other way, and so on, starting with direction `false`.
#[derive(Debug, Clone, Copy, PartialEq, Eq, Structural)]
pub struct Sweep {
    /// Direction of the current (or next) run
    pub forward: bool,
    /// Pulses left in the current run; zero when the direction is to be set
    pub remaining: u32,
}

impl Sweep {
    /// A sweep that first sets the direction to `false`.
    pub fn new() -> (r: Self)
        ensures
            r == (Sweep { forward: false, remaining: 0 }),
    {
        Sweep { forward: false, remaining: 0 }
    }

    /// The next action: set the direction at the start of a run, then one
    /// pulse at a time; after the last pulse of a run the direction flips.
    pub fn next(&mut self) -> (r: SweepAction)
        requires
            old(self).remaining <= SWEEP_STEPS,
        ensures
            final(self).remaining <= SWEEP_STEPS,
            old(self).remaining == 0 ==> r == SweepAction::SetDirection(old(self).forward)
                && *final(self) == (Sweep { forward: old(self).forward, remaining: SWEEP_STEPS }),
            old(self).remaining == 1 ==> r == SweepAction::Pulse
                && *final(self) == (Sweep { forward: !old(self).forward, remaining: 0 }),
            old(self).remaining > 1 ==> r == SweepAction::Pulse
                && *final(self) == (Sweep { forward: old(self).forward, remaining: (old(self).remaining - 1) as u32 }),
    {
        if self.remaining == 0 {
            self.remaining = SWEEP_STEPS;
            SweepAction::SetDirection(self.forward)
        } else {
            self.remaining = self.remaining - 1;
            if self.remaining == 0 {
                self.forward = !self.forward;
            }
            SweepAction::Pulse
        }
    }
}

} // verus!
