//! The command vocabulary: each configuration choice maps to one fixed
//! AT command line, sent to the module verbatim.

use vstd::prelude::*;

verus! {

/// Baud-rate choices supported by the module.
#[derive(Debug, Clone, Copy, PartialEq, Eq, Structural)]
pub enum JdySpeed {
    Bods1200,
    Bods2400,
    Bods4800,
    Bods9600,
    Bods14400,
    Bods19200,
}

/// The exact wire bytes of the AT command selecting the given baud rate:
/// `AT+BAUD<index>\r\n`, indices 1 through 6.
pub open spec fn speed_bytes(s: JdySpeed) -> Seq<u8> {
    match s {
        JdySpeed::Bods1200 => seq![65u8, 84, 43, 66, 65, 85, 68, 49, 13, 10],
        JdySpeed::Bods2400 => seq![65u8, 84, 43, 66, 65, 85, 68, 50, 13, 10],
        JdySpeed::Bods4800 => seq![65u8, 84, 43, 66, 65, 85, 68, 51, 13, 10],
        JdySpeed::Bods9600 => seq![65u8, 84, 43, 66, 65, 85, 68, 52, 13, 10],
        JdySpeed::Bods14400 => seq![65u8, 84, 43, 66, 65, 85, 68, 53, 13, 10],
        JdySpeed::Bods19200 => seq![65u8, 84, 43, 66, 65, 85, 68, 54, 13, 10],
    }
}

impl JdySpeed {
    /// The command bytes for this baud-rate choice: `AT+BAUD<index>\r\n`.
    pub fn get_value(&self) -> (r: [u8; 10])
        ensures
            r@ == speed_bytes(*self),
    {
        match self {
            JdySpeed::Bods1200 => [65u8, 84, 43, 66, 65, 85, 68, 49, 13, 10],
            JdySpeed::Bods2400 => [65u8, 84, 43, 66, 65, 85, 68, 50, 13, 10],
            JdySpeed::Bods4800 => [65u8, 84, 43, 66, 65, 85, 68, 51, 13, 10],
            JdySpeed::Bods9600 => [65u8, 84, 43, 66, 65, 85, 68, 52, 13, 10],
            JdySpeed::Bods14400 => [65u8, 84, 43, 66, 65, 85, 68, 53, 13, 10],
            JdySpeed::Bods19200 => [65u8, 84, 43, 66, 65, 85, 68, 54, 13, 10],
        }
    }
}

/// Transmit power levels supported by the module.
#[derive(Debug, Clone, Copy, PartialEq, Eq, Structural)]
pub enum JdyPower {
    /// -25 dB
    PowerSuperLow,
    /// -15 dB
    PowerLowest,
    /// -5 dB
    PowerLow,
    Power0db,
    Power3db,
    Power6db,
    Power9db,
    Power10db,
    Power12db,
}

/// The exact wire bytes of the AT command selecting the given power level:
/// `AT+POWE<index>\r\n`.  The 12 dB level maps to index 9 (index 8 is
/// skipped), as the hardware's command table demands.
pub open spec fn power_bytes(p: JdyPower) -> Seq<u8> {
    match p {
        JdyPower::PowerSuperLow => seq![65u8, 84, 43, 80, 79, 87, 69, 48, 13, 10],
        JdyPower::PowerLowest => seq![65u8, 84, 43, 80, 79, 87, 69, 49, 13, 10],
        JdyPower::PowerLow => seq![65u8, 84, 43, 80, 79, 87, 69, 50, 13, 10],
        JdyPower::Power0db => seq![65u8, 84, 43, 80, 79, 87, 69, 51, 13, 10],
        JdyPower::Power3db => seq![65u8, 84, 43, 80, 79, 87, 69, 52, 13, 10],
        JdyPower::Power6db => seq![65u8, 84, 43, 80, 79, 87, 69, 53, 13, 10],
        JdyPower::Power9db => seq![65u8, 84, 43, 80, 79, 87, 69, 54, 13, 10],
        JdyPower::Power10db => seq![65u8, 84, 43, 80, 79, 87, 69, 55, 13, 10],
        JdyPower::Power12db => seq![65u8, 84, 43, 80, 79, 87, 69, 57, 13, 10],
    }
}

impl JdyPower {
    /// The command bytes for this power level: `AT+POWE<index>\r\n`.
    pub fn get_value(&self) -> (r: [u8; 10])
        ensures
            r@ == power_bytes(*self),
    {
        match self {
            JdyPower::PowerSuperLow => [65u8, 84, 43, 80, 79, 87, 69, 48, 13, 10],
            JdyPower::PowerLowest => [65u8, 84, 43, 80, 79, 87, 69, 49, 13, 10],
            JdyPower::PowerLow => [65u8, 84, 43, 80, 79, 87, 69, 50, 13, 10],
            JdyPower::Power0db => [65u8, 84, 43, 80, 79, 87, 69, 51, 13, 10],
            JdyPower::Power3db => [65u8, 84, 43, 80, 79, 87, 69, 52, 13, 10],
            JdyPower::Power6db => [65u8, 84, 43, 80, 79, 87, 69, 53, 13, 10],
            JdyPower::Power9db => [65u8, 84, 43, 80, 79, 87, 69, 54, 13, 10],
            JdyPower::Power10db => [65u8, 84, 43, 80, 79, 87, 69, 55, 13, 10],
            JdyPower::Power12db => [65u8, 84, 43, 80, 79, 87, 69, 57, 13, 10],
        }
    }
}

/// Operating modes of the module (`CLSS` command family).
#[derive(Debug, Clone, Copy, PartialEq, Eq, Structural)]
pub enum JdyMode {
    /// Transparent serial port transceiver.
    ModeA0,
    /// Remote controller or IO key, with indicator light (transmitting end).
    ModeCO,
    /// Remote controller or IO key, without indicator light (transmitting end).
    ModeC1,
    /// IO normally low; high on signal, low again after a 30 ms delay.
    ModeC2,
    /// IO normally high; low on signal, high again after a 30 ms delay.
    ModeC3,
    /// IO normally low; high while the key is pressed, low on release.
    ModeC4,
    /// IO level toggles each time the pressed signal is received.
    ModeC5,
}

/// The exact wire bytes of the AT command selecting the given operating
/// mode: `AT+CLSSA0\r\n` for transparent mode, `AT+CLSS C0..C5` otherwise.
pub open spec fn mode_bytes(m: JdyMode) -> Seq<u8> {
    match m {
        JdyMode::ModeA0 => seq![65u8, 84, 43, 67, 76, 83, 83, 65, 48, 13, 10],
        JdyMode::ModeCO => seq![65u8, 84, 43, 67, 76, 83, 83, 67, 48, 13, 10],
        JdyMode::ModeC1 => seq![65u8, 84, 43, 67, 76, 83, 83, 67, 49, 13, 10],
        JdyMode::ModeC2 => seq![65u8, 84, 43, 67, 76, 83, 83, 67, 50, 13, 10],
        JdyMode::ModeC3 => seq![65u8, 84, 43, 67, 76, 83, 83, 67, 51, 13, 10],
        JdyMode::ModeC4 => seq![65u8, 84, 43, 67, 76, 83, 83, 67, 52, 13, 10],
        JdyMode::ModeC5 => seq![65u8, 84, 43, 67, 76, 83, 83, 67, 53, 13, 10],
    }
}

impl JdyMode {
    /// The command bytes for this operating mode.
    pub fn get_value(&self) -> (r: [u8; 11])
        ensures
            r@ == mode_bytes(*self),
    {
        match self {
            JdyMode::ModeA0 => [65u8, 84, 43, 67, 76, 83, 83, 65, 48, 13, 10],
            JdyMode::ModeCO => [65u8, 84, 43, 67, 76, 83, 83, 67, 48, 13, 10],
            JdyMode::ModeC1 => [65u8, 84, 43, 67, 76, 83, 83, 67, 49, 13, 10],
            JdyMode::ModeC2 => [65u8, 84, 43, 67, 76, 83, 83, 67, 50, 13, 10],
            JdyMode::ModeC3 => [65u8, 84, 43, 67, 76, 83, 83, 67, 51, 13, 10],
            JdyMode::ModeC4 => [65u8, 84, 43, 67, 76, 83, 83, 67, 52, 13, 10],
            JdyMode::ModeC5 => [65u8, 84, 43, 67, 76, 83, 83, 67, 53, 13, 10],
        }
    }
}

} // verus!
