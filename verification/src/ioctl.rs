//! Control codes: the 32-bit numbers that name one device-control operation.
//!
//! A control code packs four fields into one 32-bit value:
//!
//! | bits     | field                                   |
//! |----------|-----------------------------------------|
//! | 0 – 1    | how the data crosses the privilege line |
//! | 2 – 13   | the function number, below 4096         |
//! | 14 – 15  | the access the caller must hold         |
//! | 16 – 31  | the category of the device             |
//!
//! [`ControlCode`] is the unpacked form. Packing keeps the low twelve bits of
//! the function number and drops the rest; unpacking reads a category number
//! that names no known category as [`DeviceType::Unknown`]. Within these two
//! limits packing and unpacking are inverse to each other.

use vstd::prelude::*;
use vstd::std_specs::convert::FromSpecImpl;
use crate::device_type::DeviceType;

verus! {

/// The caller needs no particular access to the device.
pub const FILE_ANY_ACCESS: u32 = 0;

/// The caller must be allowed to read from the device.
pub const FILE_READ_DATA: u32 = 1;

/// The caller must be allowed to write to the device.
pub const FILE_WRITE_DATA: u32 = 2;

/// The caller must be allowed to read and to write: both bits.
pub const FILE_READ_WRITE_DATA: u32 = 3;

/// One buffer, owned by the host, carries the data in both directions.
pub const METHOD_BUFFERED: u32 = 0;

/// The caller's output buffer is mapped, and read by the device as more input.
pub const METHOD_IN_DIRECT: u32 = 1;

/// The caller's output buffer is mapped, and written by the device.
pub const METHOD_OUT_DIRECT: u32 = 2;

/// The host maps and copies nothing.
pub const METHOD_NEITHER: u32 = 3;

/// The position of the lowest bit of the transfer method.
pub const METHOD_SHIFT: u32 = 0;

/// The position of the lowest bit of the function number.
pub const NUM_SHIFT: u32 = 2;

/// The position of the lowest bit of the required access.
pub const ACCESS_SHIFT: u32 = 14;

/// The position of the lowest bit of the device category.
pub const TYPE_SHIFT: u32 = 16;

/// The bits of a transfer method.
pub const METHOD_MASK: u32 = 0x3;

/// The bits of a function number. The largest function number.
pub const NUM_MASK: u32 = 0xfff;

/// The bits of a required access.
pub const ACCESS_MASK: u32 = 0x3;

/// The bits of a device category.
pub const TYPE_MASK: u32 = 0xffff;

/// The access to the device that a caller must hold to issue a control code.
#[derive(Clone, Copy, Debug, PartialEq, Eq, Structural)]
pub enum RequiredAccess {
    /// Any caller may issue the code.
    AnyAccess,
    /// The caller must be allowed to read.
    ReadData,
    /// The caller must be allowed to write.
    WriteData,
    /// The caller must be allowed to read and to write.
    ReadWriteData,
}

impl RequiredAccess {
    /// The two bits that stand for this access in a control code.
    pub open spec fn spec_bits(&self) -> u32 {
        match self {
            RequiredAccess::AnyAccess => FILE_ANY_ACCESS,
            RequiredAccess::ReadData => FILE_READ_DATA,
            RequiredAccess::WriteData => FILE_WRITE_DATA,
            RequiredAccess::ReadWriteData => FILE_READ_WRITE_DATA,
        }
    }

    /// The access that a bit pattern stands for, if it stands for one.
    pub open spec fn spec_from_bits(bits: u32) -> Option<RequiredAccess> {
        if bits == FILE_ANY_ACCESS {
            Some(RequiredAccess::AnyAccess)
        } else if bits == FILE_READ_DATA {
            Some(RequiredAccess::ReadData)
        } else if bits == FILE_WRITE_DATA {
            Some(RequiredAccess::WriteData)
        } else if bits == FILE_READ_WRITE_DATA {
            Some(RequiredAccess::ReadWriteData)
        } else {
            None
        }
    }

    /// The two bits that stand for this access in a control code: the read
    /// bit, the write bit, both or none.
    #[verifier::when_used_as_spec(spec_bits)]
    pub fn bits(&self) -> (bits: u32)
        ensures
            bits == self.spec_bits(),
            bits <= ACCESS_MASK,
    {
        match self {
            RequiredAccess::AnyAccess => FILE_ANY_ACCESS,
            RequiredAccess::ReadData => FILE_READ_DATA,
            RequiredAccess::WriteData => FILE_WRITE_DATA,
            RequiredAccess::ReadWriteData => FILE_READ_WRITE_DATA,
        }
    }

    /// The access that a bit pattern stands for. `None` when a bit other than
    /// the read bit and the write bit is set.
    #[verifier::when_used_as_spec(spec_from_bits)]
    pub fn from_bits(bits: u32) -> (access: Option<RequiredAccess>)
        ensures
            access == RequiredAccess::spec_from_bits(bits),
            access is Some <==> bits <= ACCESS_MASK,
            access matches Some(a) ==> a.spec_bits() == bits,
    {
        match bits {
            FILE_ANY_ACCESS => Some(RequiredAccess::AnyAccess),
            FILE_READ_DATA => Some(RequiredAccess::ReadData),
            FILE_WRITE_DATA => Some(RequiredAccess::WriteData),
            FILE_READ_WRITE_DATA => Some(RequiredAccess::ReadWriteData),
            _ => None,
        }
    }
}

/// How the data of a request crosses the line between caller and device.
#[derive(Clone, Copy, Debug, PartialEq, Eq, Structural)]
pub enum TransferMethod {
    /// No buffer is handed over.
    Neither,
    /// The caller's output buffer is mapped and serves as further input.
    InputDirect,
    /// The caller's output buffer is mapped and receives the output.
    OutputDirect,
    /// One buffer of the host carries input and output.
    Buffered,
}

impl TransferMethod {
    /// The two bits that stand for this method in a control code.
    pub open spec fn code(self) -> u32 {
        match self {
            TransferMethod::Neither => METHOD_NEITHER,
            TransferMethod::InputDirect => METHOD_IN_DIRECT,
            TransferMethod::OutputDirect => METHOD_OUT_DIRECT,
            TransferMethod::Buffered => METHOD_BUFFERED,
        }
    }

    /// The method that the two low bits of a value stand for.
    pub open spec fn from_code(value: u32) -> TransferMethod {
        let low = value & METHOD_MASK;
        if low == METHOD_NEITHER {
            TransferMethod::Neither
        } else if low == METHOD_IN_DIRECT {
            TransferMethod::InputDirect
        } else if low == METHOD_OUT_DIRECT {
            TransferMethod::OutputDirect
        } else {
            TransferMethod::Buffered
        }
    }
}

impl From<u32> for TransferMethod {
    /// Reads the two low bits of `value`; the other bits are ignored.
    fn from(value: u32) -> (method: TransferMethod) {
        let low = value & METHOD_MASK;
        assert(low <= 3) by (bit_vector)
            requires
                low == value & 0x3,
        ;
        if low == METHOD_NEITHER {
            TransferMethod::Neither
        } else if low == METHOD_IN_DIRECT {
            TransferMethod::InputDirect
        } else if low == METHOD_OUT_DIRECT {
            TransferMethod::OutputDirect
        } else {
            TransferMethod::Buffered
        }
    }
}

impl FromSpecImpl<u32> for TransferMethod {
    open spec fn obeys_from_spec() -> bool {
        true
    }

    open spec fn from_spec(value: u32) -> TransferMethod {
        TransferMethod::from_code(value)
    }
}

impl From<TransferMethod> for u32 {
    fn from(value: TransferMethod) -> (code: u32) {
        match value {
            TransferMethod::Neither => METHOD_NEITHER,
            TransferMethod::InputDirect => METHOD_IN_DIRECT,
            TransferMethod::OutputDirect => METHOD_OUT_DIRECT,
            TransferMethod::Buffered => METHOD_BUFFERED,
        }
    }
}

impl FromSpecImpl<TransferMethod> for u32 {
    open spec fn obeys_from_spec() -> bool {
        true
    }

    open spec fn from_spec(value: TransferMethod) -> u32 {
        value.code()
    }
}

/// A control code in unpacked form: the category of the device it is meant
/// for, the access its caller must hold, the function number, and the
/// transfer method.
#[derive(Clone, Copy, Debug, PartialEq, Eq, Structural)]
pub struct ControlCode(pub DeviceType, pub RequiredAccess, pub u32, pub TransferMethod);

impl ControlCode {
    /// The function number fits its twelve bits.
    pub open spec fn wf(self) -> bool {
        self.2 <= NUM_MASK
    }

    /// The 32-bit value that this control code packs into. Of the function
    /// number only the low twelve bits are kept.
    pub open spec fn encode(self) -> u32 {
        (self.0.code() << TYPE_SHIFT) | (self.1.spec_bits() << ACCESS_SHIFT) | ((self.2
            & NUM_MASK) << NUM_SHIFT) | (self.3.code() << METHOD_SHIFT)
    }

    /// The control code that a 32-bit value unpacks to.
    pub open spec fn decode(value: u32) -> ControlCode {
        ControlCode(
            DeviceType::from_code((value >> TYPE_SHIFT) & TYPE_MASK),
            RequiredAccess::spec_from_bits((value >> ACCESS_SHIFT) & ACCESS_MASK).unwrap(),
            (value >> NUM_SHIFT) & NUM_MASK,
            TransferMethod::from_code((value >> METHOD_SHIFT) & METHOD_MASK),
        )
    }

    /// The category of device that the code is meant for.
    pub fn device_type(&self) -> (device_type: DeviceType)
        ensures
            device_type == self.0,
    {
        self.0
    }

    /// The access that the caller must hold.
    pub fn required_access(&self) -> (access: RequiredAccess)
        ensures
            access == self.1,
    {
        self.1
    }

    /// The function number.
    pub fn number(&self) -> (number: u32)
        ensures
            number == self.2,
    {
        self.2
    }

    /// How the data crosses between caller and device.
    pub fn transfer_method(&self) -> (method: TransferMethod)
        ensures
            method == self.3,
    {
        self.3
    }

    /// Unpacking what was packed gives the control code back, with the
    /// function number cut to its low twelve bits.
    pub proof fn lemma_decode_encode_truncates(self)
        ensures
            ControlCode::decode(self.encode()) == ControlCode(
                self.0,
                self.1,
                self.2 & NUM_MASK,
                self.3,
            ),
    {
        let t = self.0.code();
        let a = self.1.spec_bits();
        let n = self.2;
        let m = self.3.code();
        let v = self.encode();
        self.0.lemma_from_code_of_code();
        assert((((t << 16) | (a << 14) | ((n & 0xfff) << 2) | (m << 0)) >> 16) & 0xffff == t
            && (((t << 16) | (a << 14) | ((n & 0xfff) << 2) | (m << 0)) >> 14) & 0x3 == a
            && (((t << 16) | (a << 14) | ((n & 0xfff) << 2) | (m << 0)) >> 2) & 0xfff == n & 0xfff
            && ((((t << 16) | (a << 14) | ((n & 0xfff) << 2) | (m << 0)) >> 0) & 0x3) & 0x3 == m)
            by (bit_vector)
            requires
                t <= 58u32,
                a <= 3u32,
                m <= 3u32,
        ;
    }

    /// Unpacking what was packed gives the same control code back, for every
    /// control code whose function number is below 4096.
    pub proof fn lemma_decode_encode(self)
        requires
            self.wf(),
        ensures
            ControlCode::decode(self.encode()) == self,
    {
        self.lemma_decode_encode_truncates();
        let n = self.2;
        assert(n & 0xfff == n) by (bit_vector)
            requires
                n <= 0xfffu32,
        ;
    }

    /// Packing what was unpacked gives the same value back, for every value
    /// whose category bits name a known category.
    pub proof fn lemma_encode_decode(value: u32)
        requires
            1 <= (value >> TYPE_SHIFT) & TYPE_MASK <= 58,
        ensures
            ControlCode::decode(value).encode() == value,
            ControlCode::decode(value).wf(),
    {
        let t = (value >> 16) & 0xffff;
        let a = (value >> 14) & 0x3;
        let n = (value >> 2) & 0xfff;
        let m = (value >> 0) & 0x3;
        DeviceType::lemma_code_of_from_code(t);
        assert(a <= 3 && n <= 0xfff && m <= 3 && m & 0x3 == m) by (bit_vector)
            requires
                a == (value >> 14) & 0x3,
                n == (value >> 2) & 0xfff,
                m == (value >> 0) & 0x3,
        ;
        assert((t << 16) | (a << 14) | ((n & 0xfff) << 2) | (m << 0) == value) by (bit_vector)
            requires
                t == (value >> 16) & 0xffff,
                a == (value >> 14) & 0x3,
                n == (value >> 2) & 0xfff,
                m == (value >> 0) & 0x3,
        ;
    }
}

impl From<u32> for ControlCode {
    /// Unpacks a 32-bit value. Every value unpacks to some control code.
    fn from(value: u32) -> (code: ControlCode) {
        let method = (value >> METHOD_SHIFT) & METHOD_MASK;
        let num = (value >> NUM_SHIFT) & NUM_MASK;
        let access = (value >> ACCESS_SHIFT) & ACCESS_MASK;
        let ty = (value >> TYPE_SHIFT) & TYPE_MASK;
        assert(access <= 3) by (bit_vector)
            requires
                access == (value >> 14) & 0x3,
        ;
        let required_access = match RequiredAccess::from_bits(access) {
            Some(required_access) => required_access,
            None => RequiredAccess::ReadData,
        };
        ControlCode(DeviceType::from(ty), required_access, num, TransferMethod::from(method))
    }
}

impl FromSpecImpl<u32> for ControlCode {
    open spec fn obeys_from_spec() -> bool {
        true
    }

    open spec fn from_spec(value: u32) -> ControlCode {
        ControlCode::decode(value)
    }
}

impl From<ControlCode> for u32 {
    /// Packs the control code. Bits of the function number above the twelfth
    /// are dropped.
    fn from(code: ControlCode) -> (value: u32) {
        let method = u32::from(code.3) << METHOD_SHIFT;
        let num = (code.2 & NUM_MASK) << NUM_SHIFT;
        let access = code.1.bits() << ACCESS_SHIFT;
        let ty = u32::from(code.0) << TYPE_SHIFT;
        ty | access | num | method
    }
}

impl FromSpecImpl<ControlCode> for u32 {
    open spec fn obeys_from_spec() -> bool {
        true
    }

    open spec fn from_spec(code: ControlCode) -> u32 {
        code.encode()
    }
}

} // verus!
