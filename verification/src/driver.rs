//! The driver core: owns the transport, the two control lines and the
//! delay source, and runs the blocking configuration handshake and the
//! raw buffer transfers.

use vstd::prelude::*;
use crate::capabilities::DelayMs;
use crate::capabilities::OutputPin;
use crate::capabilities::SerialPort;
use crate::commands::mode_bytes;
use crate::commands::power_bytes;
use crate::commands::speed_bytes;
use crate::config::Config;
use crate::config::default_config;

verus! {

/// Failures of the driver's operations.
#[derive(Debug, Copy, Clone, PartialEq, Eq, Structural)]
pub enum Error {
    /// A byte could not be obtained from the transport.
    Read,
    /// A command was sent but not acknowledged, a byte could not be
    /// transmitted, or a control line could not be driven.
    Write,
    /// Invalid baud rate (reserved; produced by no current operation).
    InvalidBaudRate,
    /// Invalid channel (reserved; produced by no current operation).
    InvalidChannel,
}

/// The 4-byte acknowledgment `OK\r\n` the module emits after accepting
/// a command.
pub open spec fn ok_response() -> Seq<u8> {
    seq![79u8, 75u8, 13u8, 10u8]
}

/// The six command payloads of one configuration handshake, in the
/// fixed order the module's AT-mode parser expects: power, speed, mode,
/// then the raw network, device and channel address bytes.  The last
/// three are sent raw and unframed, not as textual AT commands; that is
/// a quirk of the hardware's wire protocol and is reproduced bit-exact.
pub open spec fn config_commands(c: Config) -> Seq<Seq<u8>> {
    seq![
        power_bytes(c.power),
        speed_bytes(c.speed),
        mode_bytes(c.mode),
        c.network@,
        c.device@,
        c.channel@,
    ]
}

/// The concatenation of the first `k` command payloads of the
/// handshake for `c`.
pub open spec fn commands_flat(c: Config, k: int) -> Seq<u8>
    decreases k,
{
    if k <= 0 {
        Seq::empty()
    } else {
        commands_flat(c, k - 1) + config_commands(c)[k - 1]
    }
}

/// The `i`-th four-byte acknowledgment slot at the head of `p`.
pub open spec fn ack_slot(p: Seq<u8>, i: int) -> Seq<u8> {
    p.subrange(4 * i, 4 * i + 4)
}

/// The first `k` four-byte acknowledgment slots at the head of `p` all
/// hold `OK\r\n`.
pub open spec fn acks_ok(p: Seq<u8>, k: int) -> bool {
    forall|i: int| 0 <= i < k ==> #[trigger] ack_slot(p, i) == ok_response()
}

/// One send-and-acknowledge exchange of `val` succeeded, turning the
/// transport streams (`t0`, `p0`) into (`t1`, `p1`): the command went
/// out whole, and the next four pending bytes were `OK\r\n` and were
/// consumed.
pub open spec fn exchange_passed(
    t0: Seq<u8>,
    p0: Seq<u8>,
    t1: Seq<u8>,
    p1: Seq<u8>,
    val: Seq<u8>,
) -> bool {
    &&& p0.len() >= 4
    &&& p0.take(4) == ok_response()
    &&& t1 == t0 + val
    &&& p1 == p0.skip(4)
}

/// One send-and-acknowledge exchange of `val` failed: either some byte
/// of the command was not accepted (a strict prefix went out and
/// nothing was read), or the command went out whole and the four bytes
/// read back were not `OK\r\n`.
pub open spec fn exchange_failed(
    t0: Seq<u8>,
    p0: Seq<u8>,
    t1: Seq<u8>,
    p1: Seq<u8>,
    val: Seq<u8>,
) -> bool {
    ||| (p1 == p0 && (exists|i: int| 0 <= i < val.len() && t1 == t0 + val.take(i)))
    ||| (p0.len() >= 4
        && p0.take(4) != ok_response()
        && t1 == t0 + val
        && p1 == p0.skip(4))
}

/// Exchange `j` of the handshake for `c` failed after the first `j`
/// exchanges were acknowledged; no later command was sent.
pub open spec fn handshake_step_failed(
    t0: Seq<u8>,
    p0: Seq<u8>,
    t1: Seq<u8>,
    p1: Seq<u8>,
    c: Config,
    j: int,
) -> bool {
    &&& 0 <= j < 6
    &&& p0.len() >= 4 * j
    &&& acks_ok(p0, j)
    &&& exchange_failed(t0 + commands_flat(c, j), p0.skip(4 * j), t1, p1, config_commands(c)[j])
}

/// The whole handshake for `c` was acknowledged: the six commands went
/// out in the fixed order, and the six `OK\r\n` acknowledgment slots at
/// the head of the pending stream were consumed.
pub open spec fn config_applied(
    t0: Seq<u8>,
    p0: Seq<u8>,
    t1: Seq<u8>,
    p1: Seq<u8>,
    c: Config,
) -> bool {
    &&& p0.len() >= 24
    &&& acks_ok(p0, 6)
    &&& t1 == t0 + commands_flat(c, 6)
    &&& p1 == p0.skip(24)
}

/// What holds of the transport streams after a configuration attempt
/// for `c` that failed.
pub open spec fn config_failed(
    t0: Seq<u8>,
    p0: Seq<u8>,
    t1: Seq<u8>,
    p1: Seq<u8>,
    c: Config,
) -> bool {
    ||| // a control line could not be driven while entering config
        // mode; nothing was exchanged
        (t1 == t0 && p1 == p0)
    ||| // one of the six exchanges failed, fail-fast
        (exists|j: int| #[trigger] handshake_step_failed(t0, p0, t1, p1, c, j))
    ||| // all six exchanges were acknowledged, but a control line could
        // not be driven while leaving config mode
        config_applied(t0, p0, t1, p1, c)
}

/// Stepping the handshake: an acknowledged exchange at step `j`,
/// stated against the streams as they stood before step `j`, extends
/// the whole handshake's progress to step `j + 1`.
proof fn lemma_handshake_step(
    t0: Seq<u8>,
    p0: Seq<u8>,
    t1: Seq<u8>,
    p1: Seq<u8>,
    c: Config,
    j: int,
)
    requires
        0 <= j < 6,
        p0.len() >= 4 * j,
        acks_ok(p0, j),
        exchange_passed(t0 + commands_flat(c, j), p0.skip(4 * j), t1, p1, config_commands(c)[j]),
    ensures
        p0.len() >= 4 * j + 4,
        acks_ok(p0, j + 1),
        t1 == t0 + commands_flat(c, j + 1),
        p1 == p0.skip(4 * j + 4),
{
    assert(p0.skip(4 * j).take(4) =~= ack_slot(p0, j));
    assert(ack_slot(p0, j) == ok_response());
    assert forall|i: int| 0 <= i < j + 1 implies #[trigger] ack_slot(p0, i) == ok_response() by {
        if i < j {
            assert(ack_slot(p0, i) == ok_response());
        }
    }
    assert(commands_flat(c, j + 1) == commands_flat(c, j) + config_commands(c)[j]);
    assert((t0 + commands_flat(c, j)) + config_commands(c)[j]
        =~= t0 + (commands_flat(c, j) + config_commands(c)[j]));
    assert(p0.skip(4 * j).skip(4) =~= p0.skip(4 * j + 4));
}

/// Driver for the module: one transport, two control lines (`cs` and
/// `set`), one delay source, and the stored default configuration.
/// Each driver instance exclusively owns its capabilities for its whole
/// lifetime.
pub struct Jdy40AT<UART, D, CS, SET> {
    serial: UART,
    config: Config,
    cs: CS,
    set: SET,
    delay: D,
}

impl<UART, CS, SET, D> Jdy40AT<UART, D, CS, SET> where
    UART: SerialPort,
    CS: OutputPin,
    SET: OutputPin,
    D: DelayMs,
{
    /// The transport, as contracts speak of it.
    pub closed spec fn transport(&self) -> UART {
        self.serial
    }

    /// The stored configuration record.
    pub closed spec fn stored_config(&self) -> Config {
        self.config
    }

    /// The chip-select control line.
    pub closed spec fn cs_pin(&self) -> CS {
        self.cs
    }

    /// The SET control line.
    pub closed spec fn set_pin(&self) -> SET {
        self.set
    }

    /// The delay source.
    pub closed spec fn delay_source(&self) -> D {
        self.delay
    }

    /// Everything of the driver but the transport is as it was.
    pub open spec fn same_frame(pre: Self, post: Self) -> bool {
        &&& post.stored_config() == pre.stored_config()
        &&& post.cs_pin() == pre.cs_pin()
        &&& post.set_pin() == pre.set_pin()
        &&& post.delay_source() == pre.delay_source()
    }

    /// Build a driver over the given capabilities, holding the factory
    /// baseline configuration.
    pub fn new(serial: UART, delay: D, cs: CS, set: SET) -> (r: Result<Self, Error>)
        ensures
            r is Ok,
            r->Ok_0.transport() == serial,
            r->Ok_0.stored_config() == default_config(),
            r->Ok_0.cs_pin() == cs,
            r->Ok_0.set_pin() == set,
            r->Ok_0.delay_source() == delay,
    {
        Ok(Jdy40AT {
            serial,
            config: Config::default(),
            cs,
            set,
            delay,
        })
    }

    /// Block reading exactly four bytes from the transport and compare
    /// them against the acknowledgment signature `OK\r\n`.  True only on
    /// an exact match.
    pub fn is_ok(&mut self) -> (r: bool)
        ensures
            old(self).transport().pending().len() >= 4,
            final(self).transport().pending() == old(self).transport().pending().skip(4),
            final(self).transport().transmitted() == old(self).transport().transmitted(),
            Self::same_frame(*old(self), *final(self)),
            r == (old(self).transport().pending().take(4) == ok_response()),
    {
        let b0 = self.serial.read_byte();
        let b1 = self.serial.read_byte();
        let b2 = self.serial.read_byte();
        let b3 = self.serial.read_byte();
        let r = b0 == 79 && b1 == 75 && b2 == 13 && b3 == 10;
        proof {
            let p = old(self).transport().pending();
            assert(p.skip(1).skip(1) =~= p.skip(2));
            assert(p.skip(2).skip(1) =~= p.skip(3));
            assert(p.skip(3).skip(1) =~= p.skip(4));
            assert(b1 == p[1] && b2 == p[2] && b3 == p[3]);
            if r {
                assert(p.take(4) =~= ok_response());
            } else {
                assert(p.take(4)[0] == p[0] && p.take(4)[1] == p[1] && p.take(4)[2] == p[2]
                    && p.take(4)[3] == p[3]);
            }
        }
        r
    }

    /// Write the whole buffer to the transport, in order, with no
    /// acknowledgment expected; used for payload traffic outside the
    /// configuration handshake.  Fails fast with `Error::Write` on the
    /// first byte the transport does not accept, leaving the remainder
    /// unsent.
    pub fn write_buffer(&mut self, buffer: &[u8]) -> (r: Result<(), Error>)
        ensures
            final(self).transport().pending() == old(self).transport().pending(),
            Self::same_frame(*old(self), *final(self)),
            r is Ok ==> final(self).transport().transmitted()
                == old(self).transport().transmitted() + buffer@,
            r is Err ==> r->Err_0 == Error::Write
                && (exists|i: int| 0 <= i < buffer@.len()
                    && final(self).transport().transmitted()
                        == old(self).transport().transmitted() + buffer@.take(i)),
    {
        proof {
            assert(old(self).transport().transmitted() + buffer@.take(0)
                =~= old(self).transport().transmitted());
        }
        let mut n: usize = 0;
        while n < buffer.len()
            invariant
                n <= buffer@.len(),
                self.transport().pending() == old(self).transport().pending(),
                self.transport().transmitted()
                    == old(self).transport().transmitted() + buffer@.take(n as int),
                Self::same_frame(*old(self), *self),
            decreases buffer@.len() - n,
        {
            let ghost pre_t = self.transport().transmitted();
            match self.serial.write_byte(buffer[n]) {
                Ok(_) => {
                    proof {
                        assert(pre_t.push(buffer@[n as int])
                            =~= old(self).transport().transmitted() + buffer@.take(n + 1));
                    }
                    n = n + 1;
                },
                Err(_) => {
                    return Err(Error::Write);
                },
            }
        }
        proof {
            assert(buffer@.take(buffer@.len() as int) =~= buffer@);
        }
        Ok(())
    }

    /// Fill the whole caller-supplied buffer from the transport, one
    /// byte at a time.  Blocking: each byte is awaited indefinitely, so
    /// the caller must size the buffer to the number of bytes actually
    /// expected from the module; an oversized buffer blocks until the
    /// extra bytes arrive.
    pub fn read_buffer(&mut self, buffer: &mut [u8]) -> (r: Result<(), Error>)
        ensures
            r is Ok,
            final(buffer)@.len() == old(buffer)@.len(),
            old(self).transport().pending().len() >= old(buffer)@.len(),
            final(buffer)@ == old(self).transport().pending().take(old(buffer)@.len() as int),
            final(self).transport().pending()
                == old(self).transport().pending().skip(old(buffer)@.len() as int),
            final(self).transport().transmitted() == old(self).transport().transmitted(),
            Self::same_frame(*old(self), *final(self)),
    {
        let mut n: usize = 0;
        while n < buffer.len()
            invariant
                n <= buffer@.len(),
                buffer@.len() == old(buffer)@.len(),
                old(self).transport().pending().len() >= n,
                self.transport().pending() == old(self).transport().pending().skip(n as int),
                self.transport().transmitted() == old(self).transport().transmitted(),
                forall|i: int| 0 <= i < n ==> buffer@[i] == old(self).transport().pending()[i],
                Self::same_frame(*old(self), *self),
            decreases buffer@.len() - n,
        {
            let ghost pre_p = self.transport().pending();
            let ch = self.serial.read_byte();
            buffer[n] = ch;
            proof {
                assert(pre_p[0] == old(self).transport().pending()[n as int]);
                assert(pre_p.skip(1) =~= old(self).transport().pending().skip(n + 1));
            }
            n = n + 1;
        }
        proof {
            assert(buffer@ =~= old(self).transport().pending().take(old(buffer)@.len() as int));
        }
        Ok(())
    }

    /// One send-and-acknowledge exchange: write every byte of `val` to
    /// the transport, then block reading the 4-byte acknowledgment and
    /// demand the exact signature `OK\r\n`.  The first unaccepted byte
    /// aborts the exchange; a missing or mismatched acknowledgment is a
    /// `Write` error.
    pub fn send_command(&mut self, val: &[u8]) -> (r: Result<(), Error>)
        ensures
            Self::same_frame(*old(self), *final(self)),
            r is Ok ==> exchange_passed(
                old(self).transport().transmitted(),
                old(self).transport().pending(),
                final(self).transport().transmitted(),
                final(self).transport().pending(),
                val@,
            ),
            r is Err ==> r->Err_0 == Error::Write && exchange_failed(
                old(self).transport().transmitted(),
                old(self).transport().pending(),
                final(self).transport().transmitted(),
                final(self).transport().pending(),
                val@,
            ),
    {
        match self.write_buffer(val) {
            Ok(_) => {},
            Err(e) => {
                return Err(e);
            },
        }
        if !self.is_ok() {
            return Err(Error::Write);
        }
        Ok(())
    }

    /// Exchange step `j` of the handshake for `c`, stated against the
    /// ghost streams (`t0`, `p0`) as they stood when the handshake
    /// began.
    fn handshake_step(
        &mut self,
        val: &[u8],
        Ghost(t0): Ghost<Seq<u8>>,
        Ghost(p0): Ghost<Seq<u8>>,
        Ghost(c): Ghost<Config>,
        Ghost(j): Ghost<int>,
    ) -> (r: Result<(), Error>)
        requires
            0 <= j < 6,
            old(self).transport().transmitted() == t0 + commands_flat(c, j),
            old(self).transport().pending() == p0.skip(4 * j),
            p0.len() >= 4 * j,
            acks_ok(p0, j),
            val@ == config_commands(c)[j],
        ensures
            Self::same_frame(*old(self), *final(self)),
            r is Ok ==> p0.len() >= 4 * j + 4
                && acks_ok(p0, j + 1)
                && final(self).transport().transmitted() == t0 + commands_flat(c, j + 1)
                && final(self).transport().pending() == p0.skip(4 * j + 4),
            r is Err ==> r->Err_0 == Error::Write && handshake_step_failed(
                t0,
                p0,
                final(self).transport().transmitted(),
                final(self).transport().pending(),
                c,
                j,
            ),
    {
        let res = self.send_command(val);
        match res {
            Ok(_) => {
                proof {
                    lemma_handshake_step(
                        t0,
                        p0,
                        self.transport().transmitted(),
                        self.transport().pending(),
                        c,
                        j,
                    );
                }
                Ok(())
            },
            Err(e) => Err(e),
        }
    }

    /// Push the whole configuration `config` into the module.
    ///
    /// Drives both control lines low to enter config mode, waits the
    /// 2 ms settling delay, performs the six send-and-acknowledge
    /// exchanges in the fixed order power, speed, mode, network,
    /// device, channel, then drives both lines high and waits the
    /// settling delay again.  The first failure — a control line that
    /// could not be driven, a byte the transport did not accept, or a
    /// missing `OK\r\n` acknowledgment — aborts the rest of the
    /// sequence and is returned as a `Write` error.
    pub fn set_config(&mut self, config: Config) -> (r: Result<(), Error>)
        ensures
            final(self).stored_config() == old(self).stored_config(),
            r is Ok ==> config_applied(
                old(self).transport().transmitted(),
                old(self).transport().pending(),
                final(self).transport().transmitted(),
                final(self).transport().pending(),
                config,
            ) && final(self).cs_pin().is_high() && final(self).set_pin().is_high(),
            r is Err ==> r->Err_0 == Error::Write && config_failed(
                old(self).transport().transmitted(),
                old(self).transport().pending(),
                final(self).transport().transmitted(),
                final(self).transport().pending(),
                config,
            ),
    {
        let ghost t0 = self.transport().transmitted();
        let ghost p0 = self.transport().pending();

        if self.cs.set_low().is_err() {
            return Err(Error::Write);
        }
        if self.set.set_low().is_err() {
            return Err(Error::Write);
        }
        self.delay.delay_ms(2);

        proof {
            assert(t0 + commands_flat(config, 0) =~= t0);
            assert(p0.skip(0) =~= p0);
        }

        let power_cmd = config.power.get_value();
        match self.handshake_step(power_cmd.as_slice(), Ghost(t0), Ghost(p0), Ghost(config),
            Ghost(0int)) {
            Ok(_) => {},
            Err(e) => {
                return Err(e);
            },
        }
        let speed_cmd = config.speed.get_value();
        match self.handshake_step(speed_cmd.as_slice(), Ghost(t0), Ghost(p0), Ghost(config),
            Ghost(1int)) {
            Ok(_) => {},
            Err(e) => {
                return Err(e);
            },
        }
        let mode_cmd = config.mode.get_value();
        match self.handshake_step(mode_cmd.as_slice(), Ghost(t0), Ghost(p0), Ghost(config),
            Ghost(2int)) {
            Ok(_) => {},
            Err(e) => {
                return Err(e);
            },
        }
        match self.handshake_step(config.network.as_slice(), Ghost(t0), Ghost(p0), Ghost(config),
            Ghost(3int)) {
            Ok(_) => {},
            Err(e) => {
                return Err(e);
            },
        }
        match self.handshake_step(config.device.as_slice(), Ghost(t0), Ghost(p0), Ghost(config),
            Ghost(4int)) {
            Ok(_) => {},
            Err(e) => {
                return Err(e);
            },
        }
        match self.handshake_step(config.channel.as_slice(), Ghost(t0), Ghost(p0), Ghost(config),
            Ghost(5int)) {
            Ok(_) => {},
            Err(e) => {
                return Err(e);
            },
        }

        if self.cs.set_high().is_err() {
            return Err(Error::Write);
        }
        if self.set.set_high().is_err() {
            return Err(Error::Write);
        }
        self.delay.delay_ms(2);
        Ok(())
    }

    /// Enter config mode and apply the stored factory baseline
    /// configuration.
    pub fn init(&mut self) -> (r: Result<(), Error>)
        ensures
            final(self).stored_config() == old(self).stored_config(),
            r is Ok ==> config_applied(
                old(self).transport().transmitted(),
                old(self).transport().pending(),
                final(self).transport().transmitted(),
                final(self).transport().pending(),
                old(self).stored_config(),
            ) && final(self).cs_pin().is_high() && final(self).set_pin().is_high(),
            r is Err ==> r->Err_0 == Error::Write && config_failed(
                old(self).transport().transmitted(),
                old(self).transport().pending(),
                final(self).transport().transmitted(),
                final(self).transport().pending(),
                old(self).stored_config(),
            ),
    {
        let c = self.config;
        self.set_config(c)
    }
}

} // verus!
