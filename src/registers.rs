//! The peripheral's table of readable registers and the bytes each answers.
use vstd::prelude::*;

verus! {

/// The status value that means the peripheral is ready ("OK" in ASCII).
pub const STATUS_READY: u16 = 0x4F4B;

/// What register 1 answers while no buttons are wired to the peripheral.
pub const BUTTON_PLACEHOLDER: u8 = 0;

/// The registers that the peripheral serves.
#[derive(Clone, Copy, Debug, PartialEq, Eq, Structural)]
pub enum Register {
    /// Address 0: the analog reading, two bytes.
    AdcReading,
    /// Address 1: the button bitmask, one byte.
    ButtonMask,
    /// Address 2: the status token, two bytes.
    StatusToken,
    /// Address 3: the estimated maximum sampling rate in Hz, two bytes.
    SampleRateEstimate,
}

/// The register at `address`, if the table has one there.
pub open spec fn register_at(address: u8) -> Option<Register> {
    if address == 0 {
        Some(Register::AdcReading)
    } else if address == 1 {
        Some(Register::ButtonMask)
    } else if address == 2 {
        Some(Register::StatusToken)
    } else if address == 3 {
        Some(Register::SampleRateEstimate)
    } else {
        None
    }
}

/// Looks `address` up in the register table.
pub fn lookup_register(address: u8) -> (r: Option<Register>)
    ensures
        r == register_at(address),
{
    match address {
        0 => Some(Register::AdcReading),
        1 => Some(Register::ButtonMask),
        2 => Some(Register::StatusToken),
        3 => Some(Register::SampleRateEstimate),
        _ => None,
    }
}

impl Register {
    /// The number of bytes a read of this register answers.
    pub open spec fn width_spec(self) -> nat {
        match self {
            Register::ButtonMask => 1,
            _ => 2,
        }
    }

    /// The register's address on the wire.
    pub open spec fn address_spec(self) -> u8 {
        match self {
            Register::AdcReading => 0,
            Register::ButtonMask => 1,
            Register::StatusToken => 2,
            Register::SampleRateEstimate => 3,
        }
    }

    /// The number of bytes a read of this register answers.
    pub fn width(&self) -> (r: usize)
        ensures
            r == self.width_spec(),
    {
        match self {
            Register::ButtonMask => 1,
            _ => 2,
        }
    }

    /// The register's address on the wire.
    pub fn address(&self) -> (r: u8)
        ensures
            r == self.address_spec(),
            register_at(r) == Some(*self),
    {
        match self {
            Register::AdcReading => 0,
            Register::ButtonMask => 1,
            Register::StatusToken => 2,
            Register::SampleRateEstimate => 3,
        }
    }
}

/// The live values that the register handlers report.
#[derive(Clone, Copy, Debug, PartialEq, Eq, Structural)]
pub struct RegisterInputs {
    /// The latest analog reading.
    pub adc: u16,
    /// The current estimate of the maximum sampling rate, in Hz.
    pub sample_rate: u16,
}

/// A register value as it goes on the wire: one byte, or two bytes.
#[derive(Clone, Copy, Debug, PartialEq, Eq, Structural)]
pub enum Response {
    Byte(u8),
    Word(u16),
}

/// The big-endian bytes of a 16-bit value.
pub open spec fn be_bytes(w: u16) -> Seq<u8> {
    seq![(w / 256) as u8, (w % 256) as u8]
}

/// The value of a big-endian pair of bytes.
pub open spec fn be_value(hi: u8, lo: u8) -> u16 {
    (hi as int * 256 + lo as int) as u16
}

impl Response {
    /// The bytes that go on the wire.
    pub open spec fn bytes_spec(self) -> Seq<u8> {
        match self {
            Response::Byte(b) => seq![b],
            Response::Word(w) => be_bytes(w),
        }
    }

    /// The bytes that go on the wire, most significant first.
    pub fn to_bytes(&self) -> (r: Vec<u8>)
        ensures
            r@ == self.bytes_spec(),
    {
        match self {
            Response::Byte(b) => {
                let mut r: Vec<u8> = Vec::new();
                r.push(*b);
                proof {
                    assert(r@ =~= seq![*b]);
                }
                r
            },
            Response::Word(w) => {
                let mut r: Vec<u8> = Vec::new();
                r.push((*w / 256) as u8);
                r.push((*w % 256) as u8);
                proof {
                    assert(r@ =~= be_bytes(*w));
                }
                r
            },
        }
    }
}

/// What a read of `register` answers, given the live values.
pub open spec fn response_for(register: Register, inputs: RegisterInputs) -> Response {
    match register {
        Register::AdcReading => Response::Word(inputs.adc),
        Register::ButtonMask => Response::Byte(BUTTON_PLACEHOLDER),
        Register::StatusToken => Response::Word(STATUS_READY),
        Register::SampleRateEstimate => Response::Word(inputs.sample_rate),
    }
}

/// Runs the handler of `register`.
pub fn respond(register: Register, inputs: &RegisterInputs) -> (r: Response)
    ensures
        r == response_for(register, *inputs),
        r.bytes_spec().len() == register.width_spec(),
{
    match register {
        Register::AdcReading => Response::Word(inputs.adc),
        Register::ButtonMask => Response::Byte(BUTTON_PLACEHOLDER),
        Register::StatusToken => Response::Word(STATUS_READY),
        Register::SampleRateEstimate => Response::Word(inputs.sample_rate),
    }
}

} // verus!
