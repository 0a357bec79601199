//! Sample formats: how one sample of one channel is laid out in memory.

use vstd::prelude::*;

verus! {

/// The memory format of a single sample. In most cases you will want
/// `S16LE` or one of the float formats.
#[derive(Debug, Copy, Clone, PartialEq, Eq, Structural)]
pub enum Format {
    /// Invalid format.
    Invalid,
    /// Signed 8 bit.
    S8,
    /// Unsigned 8 bit.
    U8,
    /// Signed 16 bit little endian.
    S16LE,
    /// Signed 16 bit big endian.
    S16BE,
    /// Unsigned 16 bit little endian.
    U16LE,
    /// Unsigned 16 bit big endian.
    U16BE,
    /// Signed 24 bit little endian, low three bytes of a 32-bit word.
    S24LE,
    /// Signed 24 bit big endian, low three bytes of a 32-bit word.
    S24BE,
    /// Unsigned 24 bit little endian, low three bytes of a 32-bit word.
    U24LE,
    /// Unsigned 24 bit big endian, low three bytes of a 32-bit word.
    U24BE,
    /// Signed 32 bit little endian.
    S32LE,
    /// Signed 32 bit big endian.
    S32BE,
    /// Unsigned 32 bit little endian.
    U32LE,
    /// Unsigned 32 bit big endian.
    U32BE,
    /// Float 32 bit little endian, range -1.0 to 1.0.
    Float32LE,
    /// Float 32 bit big endian, range -1.0 to 1.0.
    Float32BE,
    /// Float 64 bit little endian, range -1.0 to 1.0.
    Float64LE,
    /// Float 64 bit big endian, range -1.0 to 1.0.
    Float64BE,
}

/// The format denoted by a native engine code; out-of-table codes denote
/// [`Format::Invalid`].
pub open spec fn format_of_code(code: int) -> Format {
    if code == 1 {
        Format::S8
    } else if code == 2 {
        Format::U8
    } else if code == 3 {
        Format::S16LE
    } else if code == 4 {
        Format::S16BE
    } else if code == 5 {
        Format::U16LE
    } else if code == 6 {
        Format::U16BE
    } else if code == 7 {
        Format::S24LE
    } else if code == 8 {
        Format::S24BE
    } else if code == 9 {
        Format::U24LE
    } else if code == 10 {
        Format::U24BE
    } else if code == 11 {
        Format::S32LE
    } else if code == 12 {
        Format::S32BE
    } else if code == 13 {
        Format::U32LE
    } else if code == 14 {
        Format::U32BE
    } else if code == 15 {
        Format::Float32LE
    } else if code == 16 {
        Format::Float32BE
    } else if code == 17 {
        Format::Float64LE
    } else if code == 18 {
        Format::Float64BE
    } else {
        Format::Invalid
    }
}

/// The native engine code of a format.
pub open spec fn code_of_format(format: Format) -> int {
    match format {
        Format::Invalid => 0,
        Format::S8 => 1,
        Format::U8 => 2,
        Format::S16LE => 3,
        Format::S16BE => 4,
        Format::U16LE => 5,
        Format::U16BE => 6,
        Format::S24LE => 7,
        Format::S24BE => 8,
        Format::U24LE => 9,
        Format::U24BE => 10,
        Format::S32LE => 11,
        Format::S32BE => 12,
        Format::U32LE => 13,
        Format::U32BE => 14,
        Format::Float32LE => 15,
        Format::Float32BE => 16,
        Format::Float64LE => 17,
        Format::Float64BE => 18,
    }
}

/// The storage size of one sample of this format, in bytes. The 24-bit
/// formats occupy a full 32-bit word. [`Format::Invalid`] has size zero.
pub open spec fn spec_bytes_per_sample(format: Format) -> int {
    match format {
        Format::Invalid => 0,
        Format::S8 => 1,
        Format::U8 => 1,
        Format::S16LE => 2,
        Format::S16BE => 2,
        Format::U16LE => 2,
        Format::U16BE => 2,
        Format::S24LE => 4,
        Format::S24BE => 4,
        Format::U24LE => 4,
        Format::U24BE => 4,
        Format::S32LE => 4,
        Format::S32BE => 4,
        Format::U32LE => 4,
        Format::U32BE => 4,
        Format::Float32LE => 4,
        Format::Float32BE => 4,
        Format::Float64LE => 8,
        Format::Float64BE => 8,
    }
}

impl Format {
    /// Decode a native engine format code; out-of-range codes decode to
    /// [`Format::Invalid`].
    pub fn from_native(code: i32) -> (f: Format)
        ensures
            f == format_of_code(code as int),
    {
        match code {
            1 => Format::S8,
            2 => Format::U8,
            3 => Format::S16LE,
            4 => Format::S16BE,
            5 => Format::U16LE,
            6 => Format::U16BE,
            7 => Format::S24LE,
            8 => Format::S24BE,
            9 => Format::U24LE,
            10 => Format::U24BE,
            11 => Format::S32LE,
            12 => Format::S32BE,
            13 => Format::U32LE,
            14 => Format::U32BE,
            15 => Format::Float32LE,
            16 => Format::Float32BE,
            17 => Format::Float64LE,
            18 => Format::Float64BE,
            _ => Format::Invalid,
        }
    }

    /// Encode this format as a native engine code.
    pub fn to_native(self) -> (code: i32)
        ensures
            code as int == code_of_format(self),
    {
        match self {
            Format::Invalid => 0,
            Format::S8 => 1,
            Format::U8 => 2,
            Format::S16LE => 3,
            Format::S16BE => 4,
            Format::U16LE => 5,
            Format::U16BE => 6,
            Format::S24LE => 7,
            Format::S24BE => 8,
            Format::U24LE => 9,
            Format::U24BE => 10,
            Format::S32LE => 11,
            Format::S32BE => 12,
            Format::U32LE => 13,
            Format::U32BE => 14,
            Format::Float32LE => 15,
            Format::Float32BE => 16,
            Format::Float64LE => 17,
            Format::Float64BE => 18,
        }
    }

    /// The number of bytes used to store one sample. Note that this is the
    /// storage size, not the number of significant bits: `S24LE` returns 4.
    /// [`Format::Invalid`] returns 0.
    pub fn bytes_per_sample(&self) -> (n: usize)
        ensures
            n as int == spec_bytes_per_sample(*self),
    {
        match self {
            Format::Invalid => 0,
            Format::S8 => 1,
            Format::U8 => 1,
            Format::S16LE => 2,
            Format::S16BE => 2,
            Format::U16LE => 2,
            Format::U16BE => 2,
            Format::S24LE => 4,
            Format::S24BE => 4,
            Format::U24LE => 4,
            Format::U24BE => 4,
            Format::S32LE => 4,
            Format::S32BE => 4,
            Format::U32LE => 4,
            Format::U32BE => 4,
            Format::Float32LE => 4,
            Format::Float32BE => 4,
            Format::Float64LE => 8,
            Format::Float64BE => 8,
        }
    }

    /// The number of bytes per frame: one sample for every channel, so the
    /// sample size multiplied by the channel count.
    pub fn bytes_per_frame(&self, channel_count: usize) -> (n: usize)
        requires
            spec_bytes_per_sample(*self) * channel_count <= usize::MAX,
        ensures
            n as int == spec_bytes_per_sample(*self) * channel_count,
    {
        self.bytes_per_sample() * channel_count
    }

    /// The number of bytes per second: the bytes per frame multiplied by
    /// the number of frames per second (the sample rate).
    pub fn bytes_per_second(&self, channel_count: usize, sample_rate: usize) -> (n: usize)
        requires
            spec_bytes_per_sample(*self) * channel_count <= usize::MAX,
            spec_bytes_per_sample(*self) * channel_count * sample_rate <= usize::MAX,
        ensures
            n as int == spec_bytes_per_sample(*self) * channel_count * sample_rate,
    {
        self.bytes_per_frame(channel_count) * sample_rate
    }
}

/// Decoding the native code of any format yields that format again.
pub proof fn lemma_format_code_round_trip(format: Format)
    ensures
        format_of_code(code_of_format(format)) == format,
{
}

} // verus!
