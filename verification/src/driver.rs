//! The driver operations: mode configuration, conversion control,
//! temperature read, and threshold programming.
use vstd::prelude::*;

use crate::bus::{I2cBus, Transaction};
use crate::registers::{
    ADDR_DEFAULT, CFG_ONE_SHOT, REG_ACCESS_TH, REG_ACCESS_TL, REG_START_CONVERT,
    REG_STOP_CONVERT, REG_TEMPERATURE,
};
use crate::temperature::{
    decode_temperature, encode_threshold, spec_decode_temperature, spec_threshold_bytes,
    Temperature,
};

verus! {

/// The driver's error taxonomy: a wrapped transport failure, or an invalid
/// caller-supplied parameter (raised only by the threshold write when the
/// register opcode is not one of the two threshold registers).
#[derive(Debug)]
pub enum Error<E> {
    I2C(E),
    INVALID_PARAMETER,
}

/// The chip's conversion mode: free-running, or one conversion per trigger.
#[derive(Debug, Clone, Copy)]
pub enum MODE {
    CONTINOUS,
    ONE_SHOT,
}

/// The configuration byte written for a requested mode, given the byte
/// `conf` just read from the chip. Requesting `CONTINOUS` sets the one-shot
/// bit and `ONE_SHOT` clears every bit but the one-shot bit; this mirrors
/// the device's observed protocol even though the bit names suggest the
/// opposite — consult the chip's datasheet before changing it.
pub open spec fn spec_config_for_mode(conf: u8, mode: MODE) -> u8 {
    match mode {
        MODE::CONTINOUS => conf | CFG_ONE_SHOT,
        MODE::ONE_SHOT => conf & 0xFE,
    }
}

/// The wire behaviour of a successful `set_convert_mode`: exactly one
/// single-byte configuration read followed by exactly one single-byte
/// configuration write, whose payload is the mode computation applied to
/// the byte that was read — whatever that byte was.
pub open spec fn spec_set_mode_ok(
    pre: Seq<Transaction>,
    post: Seq<Transaction>,
    addr: u8,
    mode: MODE,
) -> bool {
    &&& post.len() == pre.len() + 2
    &&& post.subrange(0, pre.len() as int) == pre
    &&& post[pre.len() as int] matches Transaction::Read { addr: read_addr, data }
        && read_addr == addr
        && data.len() == 1
        && post[pre.len() as int + 1] == (Transaction::Write {
            addr,
            data: seq![spec_config_for_mode(data[0], mode)],
        })
}

/// The wire behaviour of a `set_convert_mode` whose configuration write
/// failed: the single-byte configuration read alone.
pub open spec fn spec_read_one_byte(pre: Seq<Transaction>, post: Seq<Transaction>, addr: u8) -> bool {
    &&& post.len() == pre.len() + 1
    &&& post.subrange(0, pre.len() as int) == pre
    &&& post.last() matches Transaction::Read { addr: read_addr, data }
        && read_addr == addr
        && data.len() == 1
}

/// The wire behaviour of a successful `read_temperature`: exactly one
/// combined write-then-read that writes the temperature opcode and reads
/// two bytes, and the returned value is their decoding.
pub open spec fn spec_read_temperature_ok(
    pre: Seq<Transaction>,
    post: Seq<Transaction>,
    addr: u8,
    t: Temperature,
) -> bool {
    &&& post.len() == pre.len() + 1
    &&& post.subrange(0, pre.len() as int) == pre
    &&& post.last() matches Transaction::WriteRead { addr: wr_addr, written, data }
        && wr_addr == addr
        && written == seq![REG_TEMPERATURE]
        && data.len() == 2
        && t == spec_decode_temperature(data[0], data[1])
}

/// The device handle: exclusive owner of its bus transport, the device's
/// bus address, and the conversion mode assumed at construction.
///
/// The stored `mode` is only the constructor-time assumption: no operation
/// re-reads it from the chip and `set_convert_mode` does not update it —
/// every operation's contract states `final(self).mode == old(self).mode`,
/// so the field never tracks the chip once a different mode is written.
#[derive(Debug)]
pub struct ds1621<I2C> {
    /// The bus transport, owned exclusively by this handle.
    pub i2c: I2C,
    /// The device's bus address.
    pub addr: u8,
    /// The conversion mode assumed at construction; never re-synchronized.
    pub mode: MODE,
}

impl<I2C: I2cBus> ds1621<I2C> {
    /// Create a handle at the default bus address, assuming continuous
    /// mode. No bus traffic occurs.
    pub fn new_default(i2c: I2C) -> (r: Self)
        ensures
            r.i2c == i2c,
            r.addr == ADDR_DEFAULT,
            r.mode is CONTINOUS,
    {
        ds1621 { i2c, addr: ADDR_DEFAULT, mode: MODE::CONTINOUS }
    }

    /// Create a handle at the given bus address, assuming continuous mode.
    /// No bus traffic occurs.
    pub fn new(i2c: I2C, a_addr: u8) -> (r: Self)
        ensures
            r.i2c == i2c,
            r.addr == a_addr,
            r.mode is CONTINOUS,
    {
        ds1621 { i2c, addr: a_addr, mode: MODE::CONTINOUS }
    }

    /// Read the configuration register: one single-byte bus read, whose
    /// byte is returned. A transport failure is returned verbatim.
    pub fn read_config(&mut self) -> (r: Result<u8, I2C::BusError>)
        ensures
            final(self).addr == old(self).addr,
            final(self).mode == old(self).mode,
            match r {
                Ok(conf) => final(self).i2c.history() == old(self).i2c.history().push(
                    (Transaction::Read { addr: old(self).addr, data: seq![conf] }),
                ),
                Err(_) => final(self).i2c.history() == old(self).i2c.history(),
            },
    {
        let addr = self.addr;
        match self.i2c.read(addr, 1) {
            Ok(data) => {
                let conf = data[0];
                proof {
                    assert(data@ =~= seq![conf]);
                }
                Ok(conf)
            },
            Err(e) => Err(e),
        }
    }

    /// Write the configuration register: one single-byte bus write of
    /// `a_config`. A transport failure is wrapped in the driver's error.
    pub fn write_config(&mut self, a_config: u8) -> (r: Result<(), Error<I2C::BusError>>)
        ensures
            final(self).addr == old(self).addr,
            final(self).mode == old(self).mode,
            match r {
                Ok(_) => final(self).i2c.history() == old(self).i2c.history().push(
                    (Transaction::Write { addr: old(self).addr, data: seq![a_config] }),
                ),
                Err(e) => e is I2C && final(self).i2c.history() == old(self).i2c.history(),
            },
    {
        let addr = self.addr;
        let mut data: Vec<u8> = Vec::new();
        data.push(a_config);
        proof {
            assert(data@ =~= seq![a_config]);
        }
        match self.i2c.write(addr, data) {
            Ok(_) => Ok(()),
            Err(e) => Err(Error::I2C(e)),
        }
    }

    /// Set the chip's conversion mode: read the configuration register,
    /// apply the mode's bit computation to the byte read, and write the
    /// result back — exactly one read followed by exactly one write,
    /// whatever the bit computation yields. The handle's stored mode is
    /// not updated. Failures of either transaction are wrapped.
    pub fn set_convert_mode(&mut self, a_mode: MODE) -> (r: Result<(), Error<I2C::BusError>>)
        ensures
            final(self).addr == old(self).addr,
            final(self).mode == old(self).mode,
            match r {
                Ok(_) => spec_set_mode_ok(
                    old(self).i2c.history(),
                    final(self).i2c.history(),
                    old(self).addr,
                    a_mode,
                ),
                Err(e) => e is I2C && (final(self).i2c.history() == old(self).i2c.history()
                    || spec_read_one_byte(
                    old(self).i2c.history(),
                    final(self).i2c.history(),
                    old(self).addr,
                )),
            },
    {
        let ghost pre = self.i2c.history();
        match self.read_config() {
            Ok(conf_val) => {
                let new_conf = match a_mode {
                    MODE::CONTINOUS => conf_val | CFG_ONE_SHOT,
                    MODE::ONE_SHOT => conf_val & 0xFE,
                };
                let ghost mid = self.i2c.history();
                let r = self.write_config(new_conf);
                proof {
                    let post = self.i2c.history();
                    if r is Ok {
                        assert(post.subrange(0, pre.len() as int) =~= pre);
                        assert(post[pre.len() as int] == (Transaction::Read {
                            addr: old(self).addr,
                            data: seq![conf_val],
                        }));
                    } else {
                        assert(post.subrange(0, pre.len() as int) =~= pre);
                    }
                }
                match r {
                    Ok(_) => Ok(()),
                    Err(e) => Err(e),
                }
            },
            Err(e) => Err(Error::I2C(e)),
        }
    }

    /// Start a conversion: one single-byte write of the start-convert
    /// opcode and nothing else. In continuous mode this begins free-running
    /// conversion, in one-shot mode a single conversion. A transport
    /// failure is returned verbatim.
    pub fn start_convert(&mut self) -> (r: Result<(), I2C::BusError>)
        ensures
            final(self).addr == old(self).addr,
            final(self).mode == old(self).mode,
            match r {
                Ok(_) => final(self).i2c.history() == old(self).i2c.history().push(
                    (Transaction::Write { addr: old(self).addr, data: seq![REG_START_CONVERT] }),
                ),
                Err(_) => final(self).i2c.history() == old(self).i2c.history(),
            },
    {
        self.write_command(REG_START_CONVERT)
    }

    /// Stop a continuous conversion: one single-byte write of the
    /// stop-convert opcode and nothing else. A transport failure is
    /// returned verbatim.
    pub fn stop_convert(&mut self) -> (r: Result<(), I2C::BusError>)
        ensures
            final(self).addr == old(self).addr,
            final(self).mode == old(self).mode,
            match r {
                Ok(_) => final(self).i2c.history() == old(self).i2c.history().push(
                    (Transaction::Write { addr: old(self).addr, data: seq![REG_STOP_CONVERT] }),
                ),
                Err(_) => final(self).i2c.history() == old(self).i2c.history(),
            },
    {
        self.write_command(REG_STOP_CONVERT)
    }

    /// Issue a single-byte command write of `opcode`.
    fn write_command(&mut self, opcode: u8) -> (r: Result<(), I2C::BusError>)
        ensures
            final(self).addr == old(self).addr,
            final(self).mode == old(self).mode,
            match r {
                Ok(_) => final(self).i2c.history() == old(self).i2c.history().push(
                    (Transaction::Write { addr: old(self).addr, data: seq![opcode] }),
                ),
                Err(_) => final(self).i2c.history() == old(self).i2c.history(),
            },
    {
        let addr = self.addr;
        let mut data: Vec<u8> = Vec::new();
        data.push(opcode);
        proof {
            assert(data@ =~= seq![opcode]);
        }
        self.i2c.write(addr, data)
    }

    /// Program the high-alarm threshold register with `a_temp`.
    pub fn write_high_temperature(&mut self, a_temp: Temperature) -> (r: Result<
        (),
        Error<I2C::BusError>,
    >)
        ensures
            final(self).addr == old(self).addr,
            final(self).mode == old(self).mode,
            match r {
                Ok(_) => final(self).i2c.history() == old(self).i2c.history().push(
                    (Transaction::Write {
                        addr: old(self).addr,
                        data: spec_threshold_bytes(REG_ACCESS_TH, a_temp),
                    }),
                ),
                Err(e) => e is I2C && final(self).i2c.history() == old(self).i2c.history(),
            },
    {
        match self.write_threshold_temperature(a_temp, REG_ACCESS_TH) {
            Ok(_) => Ok(()),
            Err(e) => Err(e),
        }
    }

    /// Program the low-alarm threshold register with `a_temp`.
    pub fn write_low_temperature(&mut self, a_temp: Temperature) -> (r: Result<
        (),
        Error<I2C::BusError>,
    >)
        ensures
            final(self).addr == old(self).addr,
            final(self).mode == old(self).mode,
            match r {
                Ok(_) => final(self).i2c.history() == old(self).i2c.history().push(
                    (Transaction::Write {
                        addr: old(self).addr,
                        data: spec_threshold_bytes(REG_ACCESS_TL, a_temp),
                    }),
                ),
                Err(e) => e is I2C && final(self).i2c.history() == old(self).i2c.history(),
            },
    {
        match self.write_threshold_temperature(a_temp, REG_ACCESS_TL) {
            Ok(_) => Ok(()),
            Err(e) => Err(e),
        }
    }

    /// Program a threshold register: `reg` must be one of the two
    /// threshold opcodes, otherwise the call fails with
    /// `INVALID_PARAMETER` and no bus traffic occurs. On a legal opcode it
    /// issues exactly one three-byte write — opcode, signed integer part,
    /// half-degree flag — and wraps any transport failure.
    pub fn write_threshold_temperature(&mut self, a_temp: Temperature, reg: u8) -> (r: Result<
        (),
        Error<I2C::BusError>,
    >)
        ensures
            final(self).addr == old(self).addr,
            final(self).mode == old(self).mode,
            reg != REG_ACCESS_TL && reg != REG_ACCESS_TH ==> (r matches Err(
                Error::INVALID_PARAMETER,
            )) && final(self).i2c.history() == old(self).i2c.history(),
            reg == REG_ACCESS_TL || reg == REG_ACCESS_TH ==> match r {
                Ok(_) => final(self).i2c.history() == old(self).i2c.history().push(
                    (Transaction::Write {
                        addr: old(self).addr,
                        data: spec_threshold_bytes(reg, a_temp),
                    }),
                ),
                Err(e) => e is I2C && final(self).i2c.history() == old(self).i2c.history(),
            },
    {
        if reg != REG_ACCESS_TL && reg != REG_ACCESS_TH {
            return Err(Error::INVALID_PARAMETER);
        }
        let addr = self.addr;
        let wr_buff = encode_threshold(reg, a_temp);
        match self.i2c.write(addr, wr_buff) {
            Ok(_) => Ok(()),
            Err(e) => Err(Error::I2C(e)),
        }
    }

    /// Read the current temperature: exactly one combined write-then-read
    /// that writes the temperature opcode and reads two bytes, returning
    /// their decoding — signed integer part plus half a degree when the
    /// second byte is nonzero. A transport failure is returned verbatim.
    pub fn read_temperature(&mut self) -> (r: Result<Temperature, I2C::BusError>)
        ensures
            final(self).addr == old(self).addr,
            final(self).mode == old(self).mode,
            match r {
                Ok(t) => spec_read_temperature_ok(
                    old(self).i2c.history(),
                    final(self).i2c.history(),
                    old(self).addr,
                    t,
                ),
                Err(_) => final(self).i2c.history() == old(self).i2c.history(),
            },
    {
        let addr = self.addr;
        let mut written: Vec<u8> = Vec::new();
        written.push(REG_TEMPERATURE);
        proof {
            assert(written@ =~= seq![REG_TEMPERATURE]);
        }
        let ghost pre = self.i2c.history();
        match self.i2c.write_read(addr, written, 2) {
            Ok(raw_read) => {
                let t = decode_temperature(raw_read[0], raw_read[1]);
                proof {
                    let post = self.i2c.history();
                    assert(post.subrange(0, pre.len() as int) =~= pre);
                }
                Ok(t)
            },
            Err(e) => Err(e),
        }
    }
}

} // verus!
