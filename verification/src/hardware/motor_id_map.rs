//! The two kinds of local channel and their encoding in one byte.

use vstd::prelude::*;
use crate::components::motor::{GenericMotorId, MotorRawSignalRange};

verus! {

/// Number of channels of the PWM chip.
pub const PWM_CHANNELS: u8 = 16;

/// Number of channels of the DC motor controller.
pub const DC_CHANNELS: u8 = 4;

/// A channel of the PWM chip, `0..16`.
#[derive(Clone, Copy, Debug, PartialEq, Eq, Structural, PartialOrd, Ord, Hash)]
pub struct PwmChannel(u8);

/// A channel of the DC motor controller, `0..4`.
#[derive(Clone, Copy, Debug, PartialEq, Eq, Structural, PartialOrd, Ord, Hash)]
pub struct DcChannel(u8);

/// A channel of either kind.
#[derive(Clone, Copy, Debug, PartialEq, Eq, Structural, PartialOrd, Ord, Hash)]
pub enum LocalMotorId {
    PwmChannel(PwmChannel),
    DcChannel(DcChannel),
}

impl PwmChannel {
    /// The channel number.
    pub closed spec fn view(&self) -> u8 {
        self.0
    }

    #[verifier::type_invariant]
    spec fn inv(self) -> bool {
        self.0 < PWM_CHANNELS
    }

    /// The channel numbered `id`.
    pub fn new(id: u8) -> (r: Self)
        requires
            id < PWM_CHANNELS,
        ensures
            r@ == id,
    {
        PwmChannel(id)
    }

    /// The channel numbered `id`, where there is one.
    pub fn try_new(id: u8) -> (r: Option<Self>)
        ensures
            r is Some <==> id < PWM_CHANNELS,
            r matches Some(c) ==> c@ == id,
    {
        if id < PWM_CHANNELS {
            Some(PwmChannel(id))
        } else {
            None
        }
    }

    /// The channel number, always below sixteen.
    pub fn id(&self) -> (r: u8)
        ensures
            r == self@,
            r < PWM_CHANNELS,
    {
        proof {
            use_type_invariant(self);
        }
        self.0
    }

    /// Pulse widths in microseconds that a servo or speed controller accepts.
    pub fn default_signal_range(&self) -> (r: MotorRawSignalRange)
        ensures
            r.min == 1100 && r.center == 1500 && r.max == 1900,
            r.wf(),
    {
        MotorRawSignalRange { min: 1100, center: 1500, max: 1900 }
    }
}

impl DcChannel {
    /// The channel number.
    pub closed spec fn view(&self) -> u8 {
        self.0
    }

    #[verifier::type_invariant]
    spec fn inv(self) -> bool {
        self.0 < DC_CHANNELS
    }

    /// The channel numbered `id`.
    pub fn new(id: u8) -> (r: Self)
        requires
            id < DC_CHANNELS,
        ensures
            r@ == id,
    {
        DcChannel(id)
    }

    /// The channel numbered `id`, where there is one.
    pub fn try_new(id: u8) -> (r: Option<Self>)
        ensures
            r is Some <==> id < DC_CHANNELS,
            r matches Some(c) ==> c@ == id,
    {
        if id < DC_CHANNELS {
            Some(DcChannel(id))
        } else {
            None
        }
    }

    /// The channel number, always below four.
    pub fn id(&self) -> (r: u8)
        ensures
            r == self@,
            r < DC_CHANNELS,
    {
        proof {
            use_type_invariant(self);
        }
        self.0
    }

    /// Signed sixteen-bit speeds, zero at rest.
    pub fn default_signal_range(&self) -> (r: MotorRawSignalRange)
        ensures
            r.min == -32768 && r.center == 0 && r.max == 32767,
            r.wf(),
    {
        MotorRawSignalRange { min: -32768, center: 0, max: 32767 }
    }
}

impl PwmChannel {
    /// The number names a channel of the chip.
    pub open spec fn valid(&self) -> bool {
        self@ < PWM_CHANNELS
    }

    /// A channel is its number: two channels with one number are equal.
    pub proof fn lemma_view_injective(a: PwmChannel, b: PwmChannel)
        requires
            a@ == b@,
        ensures
            a == b,
    {
    }
}

impl DcChannel {
    /// The number names a channel of the controller.
    pub open spec fn valid(&self) -> bool {
        self@ < DC_CHANNELS
    }

    /// A channel is its number: two channels with one number are equal.
    pub proof fn lemma_view_injective(a: DcChannel, b: DcChannel)
        requires
            a@ == b@,
        ensures
            a == b,
    {
    }
}

/// Offset of the DC channels in the one-byte encoding: the top bit.
pub const DC_CHANNEL_FLAG: u8 = 0x80;

impl LocalMotorId {
    /// The channel number is in range for its kind.
    pub open spec fn valid(&self) -> bool {
        match self {
            LocalMotorId::PwmChannel(c) => c.valid(),
            LocalMotorId::DcChannel(c) => c.valid(),
        }
    }

    /// The byte that stands for this channel: the number itself for a PWM
    /// channel, the number plus 128 for a DC channel.
    pub open spec fn encoded(&self) -> int {
        match self {
            LocalMotorId::PwmChannel(c) => c@ as int,
            LocalMotorId::DcChannel(c) => c@ + 128,
        }
    }

    /// The byte `id` stands for a channel: `0..16` or `128..132`.
    pub open spec fn decodable(id: GenericMotorId) -> bool {
        id.0 < PWM_CHANNELS || (128 <= id.0 && id.0 < 128 + DC_CHANNELS)
    }

    /// The signal range that a channel of this kind accepts by default.
    pub fn default_signal_range(&self) -> (r: MotorRawSignalRange)
        ensures
            r.wf(),
            self is PwmChannel ==> r.min == 1100 && r.center == 1500 && r.max == 1900,
            self is DcChannel ==> r.min == -32768 && r.center == 0 && r.max == 32767,
    {
        match self {
            LocalMotorId::PwmChannel(pwm_channel) => pwm_channel.default_signal_range(),
            LocalMotorId::DcChannel(dc_channel) => dc_channel.default_signal_range(),
        }
    }

    /// The byte that stands for this channel.
    pub fn to_generic(&self) -> (r: GenericMotorId)
        ensures
            r.0 == self.encoded(),
            Self::decodable(r),
    {
        match self {
            LocalMotorId::PwmChannel(pwm_channel) => GenericMotorId(pwm_channel.id()),
            LocalMotorId::DcChannel(dc_channel) => {
                let id: u8 = dc_channel.id();
                assert(id | 0x80 == id + 128) by (bit_vector)
                    requires
                        id < 4,
                ;
                GenericMotorId(id | DC_CHANNEL_FLAG)
            },
        }
    }

    /// The channel that the byte `value` stands for, where it stands for
    /// one: `Some` exactly on `0..16` and `128..132`.
    pub fn try_from_generic(value: GenericMotorId) -> (r: Option<LocalMotorId>)
        ensures
            r is Some <==> Self::decodable(value),
            r matches Some(id) ==> id.valid() && id.encoded() == value.0 && (id is PwmChannel
                <==> value.0 < 128),
    {
        let byte: u8 = value.0;
        let motor_type: u8 = byte >> 7;
        let id: u8 = byte & 0x7F;
        assert(byte >> 7 == 0 <==> byte < 128) by (bit_vector);
        assert(byte & 0x7F == byte % 128) by (bit_vector);
        if motor_type == 0 {
            match PwmChannel::try_new(id) {
                Some(c) => Some(LocalMotorId::PwmChannel(c)),
                None => None,
            }
        } else {
            match DcChannel::try_new(id) {
                Some(c) => Some(LocalMotorId::DcChannel(c)),
                None => None,
            }
        }
    }

    /// The channel that the byte `value` stands for.
    pub fn from_generic(value: GenericMotorId) -> (r: LocalMotorId)
        requires
            Self::decodable(value),
        ensures
            r.valid(),
            r.encoded() == value.0,
            r is PwmChannel <==> value.0 < 128,
    {
        match Self::try_from_generic(value) {
            Some(id) => id,
            None => {
                proof {
                    assert(false);
                }
                LocalMotorId::PwmChannel(PwmChannel(0))
            },
        }
    }

    /// A channel is its encoding: two valid channels that encode to one
    /// byte are equal.
    pub proof fn lemma_encoding_injective(a: LocalMotorId, b: LocalMotorId)
        requires
            a.valid(),
            b.valid(),
            a.encoded() == b.encoded(),
        ensures
            a == b,
    {
    }
}

impl From<LocalMotorId> for GenericMotorId {
    fn from(value: LocalMotorId) -> (r: Self) {
        value.to_generic()
    }
}

impl vstd::std_specs::convert::FromSpecImpl<LocalMotorId> for GenericMotorId {
    open spec fn obeys_from_spec() -> bool {
        true
    }

    open spec fn from_spec(v: LocalMotorId) -> Self {
        GenericMotorId(v.encoded() as u8)
    }
}

} // verus!
