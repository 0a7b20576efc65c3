//! Packed 32-bit resource handles.
//!
//! A handle is exchanged with the native hardware interface as an `i32`. Read
//! as four bytes from the least significant one upwards, it holds:
//!
//! | Byte | Meaning                                             |
//! |------|-----------------------------------------------------|
//! | 0    | type byte: error flag (top bit) and kind (7 bits)   |
//! | 1    | unused                                              |
//! | 2-3  | payload: a 16-bit index, or a module and a channel  |
//!
//! All contracts are stated arithmetically over the unsigned reading of the
//! raw value, see [`raw_bits`].

use vstd::prelude::*;

verus! {

/// The highest code that names a resource kind.
pub const MAX_TYPE_CODE: u8 = 17;

/// The kind of resource that a handle addresses.
#[derive(Copy, Clone, Debug, PartialEq, Eq, Structural, Hash)]
pub enum HandleType {
    Undefined,
    DIO,
    Port,
    Notifier,
    Interrupt,
    AnalogOutput,
    AnalogInput,
    AnalogTrigger,
    Relay,
    PWM,
    DigitalPWM,
    Counter,
    FPGAEncoder,
    Encoder,
    Compressor,
    Solenoid,
    AnalogGyro,
    Vendor,
}

impl HandleType {
    /// The stable numeric code of this kind, between 0 and 17.
    pub open spec fn code(self) -> u8 {
        match self {
            HandleType::Undefined => 0,
            HandleType::DIO => 1,
            HandleType::Port => 2,
            HandleType::Notifier => 3,
            HandleType::Interrupt => 4,
            HandleType::AnalogOutput => 5,
            HandleType::AnalogInput => 6,
            HandleType::AnalogTrigger => 7,
            HandleType::Relay => 8,
            HandleType::PWM => 9,
            HandleType::DigitalPWM => 10,
            HandleType::Counter => 11,
            HandleType::FPGAEncoder => 12,
            HandleType::Encoder => 13,
            HandleType::Compressor => 14,
            HandleType::Solenoid => 15,
            HandleType::AnalogGyro => 16,
            HandleType::Vendor => 17,
        }
    }

    /// The kind that a code names. Codes above 17 name no kind and are read
    /// as `Undefined`.
    pub open spec fn of_code(code: int) -> HandleType {
        if code == 1 {
            HandleType::DIO
        } else if code == 2 {
            HandleType::Port
        } else if code == 3 {
            HandleType::Notifier
        } else if code == 4 {
            HandleType::Interrupt
        } else if code == 5 {
            HandleType::AnalogOutput
        } else if code == 6 {
            HandleType::AnalogInput
        } else if code == 7 {
            HandleType::AnalogTrigger
        } else if code == 8 {
            HandleType::Relay
        } else if code == 9 {
            HandleType::PWM
        } else if code == 10 {
            HandleType::DigitalPWM
        } else if code == 11 {
            HandleType::Counter
        } else if code == 12 {
            HandleType::FPGAEncoder
        } else if code == 13 {
            HandleType::Encoder
        } else if code == 14 {
            HandleType::Compressor
        } else if code == 15 {
            HandleType::Solenoid
        } else if code == 16 {
            HandleType::AnalogGyro
        } else if code == 17 {
            HandleType::Vendor
        } else {
            HandleType::Undefined
        }
    }

    /// The numeric code of this kind.
    pub fn to_u8(self) -> (code: u8)
        ensures
            code == self.code(),
            code <= MAX_TYPE_CODE,
    {
        match self {
            HandleType::Undefined => 0,
            HandleType::DIO => 1,
            HandleType::Port => 2,
            HandleType::Notifier => 3,
            HandleType::Interrupt => 4,
            HandleType::AnalogOutput => 5,
            HandleType::AnalogInput => 6,
            HandleType::AnalogTrigger => 7,
            HandleType::Relay => 8,
            HandleType::PWM => 9,
            HandleType::DigitalPWM => 10,
            HandleType::Counter => 11,
            HandleType::FPGAEncoder => 12,
            HandleType::Encoder => 13,
            HandleType::Compressor => 14,
            HandleType::Solenoid => 15,
            HandleType::AnalogGyro => 16,
            HandleType::Vendor => 17,
        }
    }

    /// Converts a code to the kind it names without reporting a code that
    /// names none: for `num` above 17 the result is left open.
    pub fn from_u8_unchecked(num: u8) -> (kind: HandleType)
        ensures
            num <= MAX_TYPE_CODE ==> kind == HandleType::of_code(num as int),
    {
        match num {
            1 => HandleType::DIO,
            2 => HandleType::Port,
            3 => HandleType::Notifier,
            4 => HandleType::Interrupt,
            5 => HandleType::AnalogOutput,
            6 => HandleType::AnalogInput,
            7 => HandleType::AnalogTrigger,
            8 => HandleType::Relay,
            9 => HandleType::PWM,
            10 => HandleType::DigitalPWM,
            11 => HandleType::Counter,
            12 => HandleType::FPGAEncoder,
            13 => HandleType::Encoder,
            14 => HandleType::Compressor,
            15 => HandleType::Solenoid,
            16 => HandleType::AnalogGyro,
            17 => HandleType::Vendor,
            _ => HandleType::Undefined,
        }
    }

    /// Converts a code to the kind it names, or `None` where it names none.
    pub fn from_u8(num: u8) -> (kind: Option<HandleType>)
        ensures
            num <= MAX_TYPE_CODE ==> kind == Some(HandleType::of_code(num as int)),
            num > MAX_TYPE_CODE ==> kind is None,
    {
        if num <= MAX_TYPE_CODE {
            Some(HandleType::from_u8_unchecked(num))
        } else {
            None
        }
    }
}

/// Every kind is the one that its own code names.
pub proof fn lemma_of_code_inverts_code(kind: HandleType)
    ensures
        kind.code() <= MAX_TYPE_CODE,
        HandleType::of_code(kind.code() as int) == kind,
{
}

/// Every code up to 17 is the code of the kind it names.
pub proof fn lemma_code_inverts_of_code(code: u8)
    requires
        code <= MAX_TYPE_CODE,
    ensures
        HandleType::of_code(code as int).code() == code,
{
}

/// Whether a byte is a type byte: with the error flag masked off, it is the
/// code of a kind.
pub open spec fn valid_type_byte(byte: u8) -> bool {
    byte % 128 <= MAX_TYPE_CODE
}

/// One byte that holds an error flag in its top bit and the code of a kind in
/// its low seven bits.
#[derive(Copy, Clone, Debug, PartialEq, Eq, Structural, Hash)]
pub struct TypeByte(u8);

impl TypeByte {
    /// The byte as it is stored.
    pub closed spec fn raw(self) -> u8 {
        self.0
    }

    /// The type byte that is stored as `byte`.
    pub closed spec fn from_raw(byte: u8) -> TypeByte {
        TypeByte(byte)
    }

    /// Holds of every type byte that executable code can have: the low seven
    /// bits name a kind.
    #[verifier::type_invariant]
    pub open spec fn wf(self) -> bool {
        valid_type_byte(self.raw())
    }

    /// The error flag.
    pub open spec fn error(self) -> bool {
        self.raw() >= 128
    }

    /// The code in the low seven bits.
    pub open spec fn code(self) -> u8 {
        (self.raw() % 128) as u8
    }

    /// The kind that the low seven bits name.
    pub open spec fn kind(self) -> HandleType {
        HandleType::of_code(self.code() as int)
    }

    /// This type byte with the error flag set to `error`.
    pub open spec fn with_error(self, error: bool) -> TypeByte {
        TypeByte::from_raw(
            if error {
                (self.code() + 128) as u8
            } else {
                self.code()
            },
        )
    }

    /// Reads `byte` as a type byte, or gives `None` where its low seven bits
    /// name no kind. The error flag plays no part in that test.
    pub fn new(byte: u8) -> (type_byte: Option<TypeByte>)
        ensures
            type_byte is Some <==> valid_type_byte(byte),
            type_byte matches Some(tb) ==> tb == TypeByte::from_raw(byte) && tb.raw() == byte
                && tb.wf(),
    {
        assert(byte & 0x7f == byte % 128) by (bit_vector);
        if byte & 0x7f <= MAX_TYPE_CODE {
            Some(TypeByte(byte))
        } else {
            None
        }
    }

    /// Sets or clears the error flag and leaves the kind as it is.
    pub fn set_error_bit(&mut self, error: bool)
        ensures
            *final(self) == old(self).with_error(error),
            final(self).error() == error,
            final(self).code() == old(self).code(),
            final(self).kind() == old(self).kind(),
            final(self).wf(),
    {
        proof {
            use_type_invariant(&*self);
        }
        let flag: u8 = if error { 0x80 } else { 0 };
        let byte: u8 = self.0;
        let next: u8 = (byte & 0x7f) | flag;
        assert(((byte & 0x7f) | flag) % 128 == byte % 128 && (((byte & 0x7f) | flag) >= 128 <==> flag
            == 0x80)) by (bit_vector)
            requires
                flag == 0x80 || flag == 0,
        ;
        self.0 = next;
    }

    /// Whether the error flag is set.
    pub fn error_bit(&self) -> (error: bool)
        ensures
            error == self.error(),
    {
        let byte: u8 = self.0;
        assert(((byte >> 7) & 1 != 0) == (byte >= 128)) by (bit_vector);
        (byte >> 7) & 1 != 0
    }

    /// The kind, whatever the error flag says.
    pub fn get_type(&self) -> (kind: HandleType)
        ensures
            kind == self.kind(),
            kind.code() == self.code(),
    {
        proof {
            use_type_invariant(self);
        }
        let byte: u8 = self.0;
        assert(byte & 0x7f == byte % 128) by (bit_vector);
        HandleType::from_u8_unchecked(byte & 0x7f)
    }

    /// The byte as it is stored: the error flag and the code together.
    pub fn to_u8(&self) -> (byte: u8)
        ensures
            byte == self.raw(),
            valid_type_byte(byte),
    {
        proof {
            use_type_invariant(self);
        }
        self.0
    }
}

impl From<HandleType> for TypeByte {
    /// The type byte of a kind: its code, with the error flag clear.
    fn from(handle_type: HandleType) -> (type_byte: TypeByte)
        ensures
            type_byte.raw() == handle_type.code(),
            !type_byte.error(),
            type_byte.kind() == handle_type,
    {
        TypeByte(handle_type.to_u8())
    }
}

impl vstd::std_specs::convert::FromSpecImpl<HandleType> for TypeByte {
    open spec fn obeys_from_spec() -> bool {
        true
    }

    open spec fn from_spec(handle_type: HandleType) -> TypeByte {
        TypeByte::from_raw(handle_type.code())
    }
}

/// A type byte is what it stores: `from_raw` and `raw` invert each other, so
/// two type bytes that store the same byte are equal.
pub proof fn lemma_type_byte_raw(byte: u8, type_byte: TypeByte)
    ensures
        TypeByte::from_raw(byte).raw() == byte,
        TypeByte::from_raw(type_byte.raw()) == type_byte,
{
}

/// The unsigned reading of a raw handle: the 32 bits of `raw` as a number
/// between 0 and 2^32 - 1.
pub open spec fn raw_bits(raw: i32) -> int {
    if raw < 0 {
        raw + 0x1_0000_0000
    } else {
        raw as int
    }
}

/// The type byte of a raw handle: its least significant byte.
pub open spec fn raw_type_byte(raw: i32) -> u8 {
    (raw_bits(raw) % 256) as u8
}

/// The unused byte of a raw handle: the second byte from below.
pub open spec fn raw_padding(raw: i32) -> u8 {
    ((raw_bits(raw) / 256) % 256) as u8
}

/// The payload of a raw handle: its upper sixteen bits.
pub open spec fn raw_payload(raw: i32) -> u16 {
    (raw_bits(raw) / 65536) as u16
}

/// The raw handle made of a type byte, an unused byte and a payload.
pub open spec fn pack(type_byte: u8, padding: u8, payload: u16) -> i32 {
    let bits = type_byte + 256 * padding + 65536 * payload;
    if bits >= 0x8000_0000 {
        (bits - 0x1_0000_0000) as i32
    } else {
        bits as i32
    }
}

/// The payload that holds `module` in its low byte and `channel` in its high
/// byte.
pub open spec fn port_payload(module: u8, channel: u8) -> u16 {
    (module + 256 * channel) as u16
}

/// The 32 bits of a raw handle as an unsigned number.
pub(crate) fn bits_of(num: i32) -> (bits: u32)
    ensures
        bits == raw_bits(num),
{
    let bits: u32 = #[verifier::truncate] (num as u32);
    assert(bits as int == raw_bits(num)) by (bit_vector)
        requires
            bits == num as u32,
    ;
    bits
}

/// Splits a raw handle into its type byte, unused byte and payload.
fn split_raw(num: i32) -> (parts: (u8, u8, u16))
    ensures
        parts.0 == raw_type_byte(num),
        parts.1 == raw_padding(num),
        parts.2 == raw_payload(num),
{
    let bits: u32 = bits_of(num);
    assert(bits & 0xff == bits % 256 && (bits >> 8) & 0xff == (bits / 256) % 256 && bits >> 16
        == bits / 65536) by (bit_vector);
    ((bits & 0xff) as u8, ((bits >> 8) & 0xff) as u8, (bits >> 16) as u16)
}

/// Joins a type byte, an unused byte and a payload into a raw handle.
fn join_raw(type_byte: u8, padding: u8, payload: u16) -> (raw: i32)
    ensures
        raw == pack(type_byte, padding, payload),
{
    let bits: u32 = (type_byte as u32) | ((padding as u32) << 8) | ((payload as u32) << 16);
    assert(bits == type_byte + 256 * padding + 65536 * payload) by (bit_vector)
        requires
            bits == (type_byte as u32) | ((padding as u32) << 8) | ((payload as u32) << 16),
    ;
    let raw: i32 = #[verifier::truncate] (bits as i32);
    assert(raw_bits(raw) == bits as int) by (bit_vector)
        requires
            raw == bits as i32,
    ;
    raw
}

/// What every handle type offers beside its type byte: the payload, read in
/// the form that suits the kind of handle.
pub trait HandleProtocol: Sized {
    /// The form in which the payload is handed out.
    type Data;

    /// The payload of this handle.
    spec fn data(&self) -> Self::Data;

    /// Reads the payload.
    fn to_data(&self) -> (data: Self::Data)
        ensures
            data == self.data(),
    ;
}

/// A handle whose payload is one 16-bit index.
#[derive(Copy, Clone, Debug, PartialEq, Eq, Structural, Hash)]
pub struct Handle {
    /// The kind of resource, with the error flag in the top bit.
    pub type_byte: TypeByte,
    /// The unused byte, kept as it was read; zero in a handle made by `new`.
    pub padding: u8,
    /// The index of the resource among those of its kind.
    pub index: u16,
}

impl Handle {
    /// Holds of every handle that executable code can have: the type byte
    /// names a kind.
    pub open spec fn wf(self) -> bool {
        self.type_byte.wf()
    }

    /// The handle that `new` makes.
    pub open spec fn spec_new(kind: HandleType, index: u16) -> Handle {
        Handle { type_byte: TypeByte::from_raw(kind.code()), padding: 0, index }
    }

    /// The raw value of this handle.
    pub open spec fn encoded(self) -> i32 {
        pack(self.type_byte.raw(), self.padding, self.index)
    }

    /// The handle that a raw value stands for, if its type byte names a kind.
    pub open spec fn decoded(raw: i32) -> Option<Handle> {
        if valid_type_byte(raw_type_byte(raw)) {
            Some(
                Handle {
                    type_byte: TypeByte::from_raw(raw_type_byte(raw)),
                    padding: raw_padding(raw),
                    index: raw_payload(raw),
                },
            )
        } else {
            None
        }
    }

    /// Creates the handle of the resource of kind `type_byte` at `index`,
    /// with the error flag clear.
    pub fn new(type_byte: HandleType, index: u16) -> (handle: Handle)
        ensures
            handle == Handle::spec_new(type_byte, index),
            handle.type_byte.raw() == type_byte.code(),
            handle.type_byte.kind() == type_byte,
            !handle.type_byte.error(),
            handle.padding == 0,
            handle.index == index,
    {
        Handle { type_byte: TypeByte::from(type_byte), padding: 0, index }
    }

    /// Reads a raw value as a handle without reporting a type byte that
    /// names no kind: for such a value the result is left open.
    pub fn from_i32_unchecked(num: i32) -> (handle: Handle)
        ensures
            Handle::decoded(num) matches Some(h) ==> handle == h,
    {
        let (type_byte, padding, index) = split_raw(num);
        match TypeByte::new(type_byte) {
            Some(type_byte) => Handle { type_byte, padding, index },
            None => Handle { type_byte: TypeByte::from(HandleType::Undefined), padding, index },
        }
    }

    /// Reads a raw value as a handle. The result is `None` exactly where the
    /// type byte, with the error flag masked off, is above 17; otherwise the
    /// handle holds the three parts of `num` as they are.
    pub fn from_i32(num: i32) -> (handle: Option<Handle>)
        ensures
            handle == Handle::decoded(num),
            handle is Some <==> raw_type_byte(num) % 128 <= MAX_TYPE_CODE,
            handle matches Some(h) ==> h.type_byte.raw() == raw_type_byte(num) && h.padding
                == raw_padding(num) && h.index == raw_payload(num) && h.wf(),
    {
        let (type_byte, padding, index) = split_raw(num);
        match TypeByte::new(type_byte) {
            Some(type_byte) => Some(Handle { type_byte, padding, index }),
            None => None,
        }
    }

    /// The raw value of this handle: the inverse of `from_i32`.
    pub fn to_i32(&self) -> (raw: i32)
        ensures
            raw == self.encoded(),
    {
        join_raw(self.type_byte.to_u8(), self.padding, self.index)
    }
}

impl HandleProtocol for Handle {
    type Data = u16;

    open spec fn data(&self) -> u16 {
        self.index
    }

    fn to_data(&self) -> (data: u16) {
        self.index
    }
}

impl From<Handle> for i32 {
    /// The raw value of a handle.
    fn from(handle: Handle) -> (raw: i32) {
        handle.to_i32()
    }
}

impl vstd::std_specs::convert::FromSpecImpl<Handle> for i32 {
    open spec fn obeys_from_spec() -> bool {
        true
    }

    open spec fn from_spec(handle: Handle) -> i32 {
        handle.encoded()
    }
}

/// A handle that addresses a channel of a module. Its payload holds the
/// module in the low byte and the channel in the high byte.
#[derive(Copy, Clone, Debug, PartialEq, Eq, Structural, Hash)]
pub struct PortHandle {
    /// The kind of resource, with the error flag in the top bit. `new` sets
    /// it to `Port`; reading a raw value keeps whatever kind it names.
    pub type_byte: TypeByte,
    /// The unused byte, kept as it was read; zero in a handle made by `new`.
    pub padding: u8,
    /// The module.
    pub module: u8,
    /// The channel on that module.
    pub channel: u8,
}

impl PortHandle {
    /// Holds of every port handle that executable code can have: the type
    /// byte names a kind. The kind need not be `Port`.
    pub open spec fn wf(self) -> bool {
        self.type_byte.wf()
    }

    /// The port handle that `new` makes.
    pub open spec fn spec_new(module: u8, channel: u8) -> PortHandle {
        PortHandle {
            type_byte: TypeByte::from_raw(HandleType::Port.code()),
            padding: 0,
            module,
            channel,
        }
    }

    /// The raw value of this port handle.
    pub open spec fn encoded(self) -> i32 {
        pack(self.type_byte.raw(), self.padding, port_payload(self.module, self.channel))
    }

    /// The port handle that a raw value stands for, if its type byte names a
    /// kind, whichever kind that is.
    pub open spec fn decoded(raw: i32) -> Option<PortHandle> {
        if valid_type_byte(raw_type_byte(raw)) {
            Some(
                PortHandle {
                    type_byte: TypeByte::from_raw(raw_type_byte(raw)),
                    padding: raw_padding(raw),
                    module: (raw_payload(raw) % 256) as u8,
                    channel: (raw_payload(raw) / 256) as u8,
                },
            )
        } else {
            None
        }
    }

    /// Creates the handle of `channel` on `module`. Its kind is `Port` and
    /// its error flag is clear.
    pub fn new(module: u8, channel: u8) -> (handle: PortHandle)
        ensures
            handle == PortHandle::spec_new(module, channel),
            handle.type_byte.raw() == HandleType::Port.code(),
            handle.type_byte.kind() == HandleType::Port,
            !handle.type_byte.error(),
            handle.padding == 0,
            handle.module == module,
            handle.channel == channel,
    {
        PortHandle { type_byte: TypeByte::from(HandleType::Port), padding: 0, module, channel }
    }

    /// Reads a raw value as a port handle without reporting a type byte that
    /// names no kind: for such a value the result is left open.
    pub fn from_i32_unchecked(num: i32) -> (handle: PortHandle)
        ensures
            PortHandle::decoded(num) matches Some(h) ==> handle == h,
    {
        let (type_byte, padding, payload) = split_raw(num);
        let (module, channel) = split_payload(payload);
        match TypeByte::new(type_byte) {
            Some(type_byte) => PortHandle { type_byte, padding, module, channel },
            None => PortHandle {
                type_byte: TypeByte::from(HandleType::Undefined),
                padding,
                module,
                channel,
            },
        }
    }

    /// Reads a raw value as a port handle. The result is `None` exactly where
    /// the type byte, with the error flag masked off, is above 17. The kind
    /// is not compared with `Port`: a caller that relies on the module and
    /// the channel tests the kind first.
    pub fn from_i32(num: i32) -> (handle: Option<PortHandle>)
        ensures
            handle == PortHandle::decoded(num),
            handle is Some <==> raw_type_byte(num) % 128 <= MAX_TYPE_CODE,
            handle matches Some(h) ==> h.type_byte.raw() == raw_type_byte(num) && h.padding
                == raw_padding(num) && h.module == raw_payload(num) % 256 && h.channel
                == raw_payload(num) / 256 && h.wf(),
    {
        let (type_byte, padding, payload) = split_raw(num);
        let (module, channel) = split_payload(payload);
        match TypeByte::new(type_byte) {
            Some(type_byte) => Some(PortHandle { type_byte, padding, module, channel }),
            None => None,
        }
    }

    /// The raw value of this port handle: the inverse of `from_i32`.
    pub fn to_i32(&self) -> (raw: i32)
        ensures
            raw == self.encoded(),
    {
        let module: u8 = self.module;
        let channel: u8 = self.channel;
        let payload: u16 = (module as u16) | ((channel as u16) << 8);
        assert(payload == module + 256 * channel) by (bit_vector)
            requires
                payload == (module as u16) | ((channel as u16) << 8),
        ;
        join_raw(self.type_byte.to_u8(), self.padding, payload)
    }
}

/// Splits a payload into the module and the channel of a port handle.
fn split_payload(payload: u16) -> (parts: (u8, u8))
    ensures
        parts.0 == payload % 256,
        parts.1 == payload / 256,
{
    assert(payload & 0xff == payload % 256 && payload >> 8 == payload / 256 && (payload >> 8)
        < 256) by (bit_vector);
    ((payload & 0xff) as u8, (payload >> 8) as u8)
}

impl HandleProtocol for PortHandle {
    type Data = (u8, u8);

    open spec fn data(&self) -> (u8, u8) {
        (self.module, self.channel)
    }

    fn to_data(&self) -> (data: (u8, u8)) {
        (self.module, self.channel)
    }
}

impl From<PortHandle> for i32 {
    /// The raw value of a port handle.
    fn from(handle: PortHandle) -> (raw: i32) {
        handle.to_i32()
    }
}

impl vstd::std_specs::convert::FromSpecImpl<PortHandle> for i32 {
    open spec fn obeys_from_spec() -> bool {
        true
    }

    open spec fn from_spec(handle: PortHandle) -> i32 {
        handle.encoded()
    }
}

/// Each code from 0 to 17 is a type byte by itself: it has the error flag
/// clear and names the kind with that code.
pub proof fn lemma_code_is_type_byte(code: u8)
    requires
        code <= MAX_TYPE_CODE,
    ensures
        valid_type_byte(code),
        TypeByte::from_raw(code).wf(),
        !TypeByte::from_raw(code).error(),
        TypeByte::from_raw(code).kind().code() == code,
        TypeByte::from_raw(code).kind() == HandleType::of_code(code as int),
{
}

/// Setting the error flag of a type byte gives a type byte with that flag
/// and the same kind; setting it to what it was changes nothing.
pub proof fn lemma_with_error(type_byte: TypeByte, error: bool)
    requires
        type_byte.wf(),
    ensures
        type_byte.with_error(error).wf(),
        type_byte.with_error(error).error() == error,
        type_byte.with_error(error).kind() == type_byte.kind(),
        type_byte.with_error(type_byte.error()) == type_byte,
        type_byte.with_error(!error).with_error(error) == type_byte.with_error(error),
{
}

/// The three parts of a raw value make that raw value again, and a raw value
/// made of three parts has those parts.
pub proof fn lemma_pack_inverts_parts(raw: i32, type_byte: u8, padding: u8, payload: u16)
    ensures
        pack(raw_type_byte(raw), raw_padding(raw), raw_payload(raw)) == raw,
        raw_type_byte(pack(type_byte, padding, payload)) == type_byte,
        raw_padding(pack(type_byte, padding, payload)) == padding,
        raw_payload(pack(type_byte, padding, payload)) == payload,
{
}

/// Decoding inverts encoding: every well-formed handle is what its raw value
/// decodes to.
pub proof fn lemma_handle_decode_encode(handle: Handle)
    requires
        handle.wf(),
    ensures
        Handle::decoded(handle.encoded()) == Some(handle),
{
    lemma_pack_inverts_parts(0, handle.type_byte.raw(), handle.padding, handle.index);
}

/// Encoding inverts decoding: a raw value that decodes to a handle is the
/// raw value of that handle.
pub proof fn lemma_handle_encode_decode(raw: i32)
    requires
        Handle::decoded(raw) is Some,
    ensures
        Handle::decoded(raw)->0.encoded() == raw,
        Handle::decoded(raw)->0.wf(),
{
    lemma_pack_inverts_parts(raw, 0, 0, 0);
}

/// A handle made from a kind and an index survives encoding and decoding,
/// and comes back with that kind, that index and the error flag clear.
pub proof fn lemma_handle_new_round_trip(kind: HandleType, index: u16)
    ensures
        Handle::decoded(Handle::spec_new(kind, index).encoded()) == Some(
            Handle::spec_new(kind, index),
        ),
        Handle::spec_new(kind, index).wf(),
        Handle::spec_new(kind, index).type_byte.kind() == kind,
        !Handle::spec_new(kind, index).type_byte.error(),
        Handle::spec_new(kind, index).data() == index,
{
    lemma_handle_decode_encode(Handle::spec_new(kind, index));
}

/// Decoding inverts encoding: every well-formed port handle is what its raw
/// value decodes to.
pub proof fn lemma_port_handle_decode_encode(handle: PortHandle)
    requires
        handle.wf(),
    ensures
        PortHandle::decoded(handle.encoded()) == Some(handle),
{
    lemma_pack_inverts_parts(
        0,
        handle.type_byte.raw(),
        handle.padding,
        port_payload(handle.module, handle.channel),
    );
}

/// Encoding inverts decoding: a raw value that decodes to a port handle is
/// the raw value of that port handle.
pub proof fn lemma_port_handle_encode_decode(raw: i32)
    requires
        PortHandle::decoded(raw) is Some,
    ensures
        PortHandle::decoded(raw)->0.encoded() == raw,
        PortHandle::decoded(raw)->0.wf(),
{
    lemma_pack_inverts_parts(raw, 0, 0, 0);
}

/// A port handle made from a module and a channel survives encoding and
/// decoding, and comes back as kind `Port` with that module and channel.
pub proof fn lemma_port_handle_new_round_trip(module: u8, channel: u8)
    ensures
        PortHandle::decoded(PortHandle::spec_new(module, channel).encoded()) == Some(
            PortHandle::spec_new(module, channel),
        ),
        PortHandle::spec_new(module, channel).wf(),
        PortHandle::spec_new(module, channel).type_byte.kind() == HandleType::Port,
        !PortHandle::spec_new(module, channel).type_byte.error(),
        PortHandle::spec_new(module, channel).data() == (module, channel),
{
    lemma_port_handle_decode_encode(PortHandle::spec_new(module, channel));
}

/// The error flag is independent of the rest: two raw values that agree but
/// for the error flag are either both rejected or decode to handles of the
/// same kind with the same payload, read as a handle or as a port handle.
pub proof fn lemma_error_bit_keeps_kind_and_payload(a: i32, b: i32)
    requires
        raw_type_byte(a) % 128 == raw_type_byte(b) % 128,
        raw_padding(a) == raw_padding(b),
        raw_payload(a) == raw_payload(b),
    ensures
        Handle::decoded(a) is Some <==> Handle::decoded(b) is Some,
        PortHandle::decoded(a) is Some <==> PortHandle::decoded(b) is Some,
        Handle::decoded(a) is Some ==> {
            &&& Handle::decoded(a)->0.type_byte.kind() == Handle::decoded(b)->0.type_byte.kind()
            &&& Handle::decoded(a)->0.padding == Handle::decoded(b)->0.padding
            &&& Handle::decoded(a)->0.data() == Handle::decoded(b)->0.data()
        },
        PortHandle::decoded(a) is Some ==> {
            &&& PortHandle::decoded(a)->0.type_byte.kind() == PortHandle::decoded(
                b,
            )->0.type_byte.kind()
            &&& PortHandle::decoded(a)->0.padding == PortHandle::decoded(b)->0.padding
            &&& PortHandle::decoded(a)->0.data() == PortHandle::decoded(b)->0.data()
        },
{
}

/// Setting the error flag of a handle changes neither the kind nor the
/// payload that its raw value decodes to.
pub proof fn lemma_set_error_bit_keeps_decoding(handle: Handle, error: bool)
    requires
        handle.wf(),
    ensures
        ({
            let flagged = Handle { type_byte: handle.type_byte.with_error(error), ..handle };
            &&& Handle::decoded(flagged.encoded()) == Some(flagged)
            &&& flagged.type_byte.error() == error
            &&& flagged.type_byte.kind() == handle.type_byte.kind()
            &&& flagged.data() == handle.data()
            &&& raw_payload(flagged.encoded()) == raw_payload(handle.encoded())
            &&& raw_padding(flagged.encoded()) == raw_padding(handle.encoded())
        }),
{
    let flagged = Handle { type_byte: handle.type_byte.with_error(error), ..handle };
    lemma_with_error(handle.type_byte, error);
    lemma_handle_decode_encode(flagged);
    lemma_pack_inverts_parts(0, flagged.type_byte.raw(), flagged.padding, flagged.index);
    lemma_pack_inverts_parts(0, handle.type_byte.raw(), handle.padding, handle.index);
}

} // verus!
