//! Audio sample formats: the one-to-one mapping between the typed format
//! values and the native framework's sample-format codes, with the small
//! documented lookup tables that hang off it (packed/planar counterparts,
//! bytes per sample, registry name).
//!
//! The native codes are fixed by the framework's public header: the unset
//! format is -1 and the ten concrete formats count up from 0 in the order
//! unsigned 8-bit, signed 16-bit, signed 32-bit, float, double, then the
//! same five again in planar layout.

use vstd::prelude::*;

verus! {

/// An audio sample format. The first five are interleaved (packed), the
/// last five are the planar layout of the same sample types.
#[derive(Clone, Copy, PartialEq, Eq, Structural, Debug)]
pub enum SampleFormat {
    /// No format set; the native code -1.
    Unset,
    U8,
    S16,
    S32,
    FLT,
    DBL,
    U8P,
    S16P,
    S32P,
    FLTP,
    DBLP,
}

/// The native code of a sample format.
pub open spec fn native_code(f: SampleFormat) -> i32 {
    match f {
        SampleFormat::Unset => -1i32,
        SampleFormat::U8 => 0i32,
        SampleFormat::S16 => 1i32,
        SampleFormat::S32 => 2i32,
        SampleFormat::FLT => 3i32,
        SampleFormat::DBL => 4i32,
        SampleFormat::U8P => 5i32,
        SampleFormat::S16P => 6i32,
        SampleFormat::S32P => 7i32,
        SampleFormat::FLTP => 8i32,
        SampleFormat::DBLP => 9i32,
    }
}

/// The sample format a native code stands for; every code outside the
/// table, the "number of formats" marker included, is the unset format.
pub open spec fn format_of_code(code: i32) -> SampleFormat {
    if code == 0 {
        SampleFormat::U8
    } else if code == 1 {
        SampleFormat::S16
    } else if code == 2 {
        SampleFormat::S32
    } else if code == 3 {
        SampleFormat::FLT
    } else if code == 4 {
        SampleFormat::DBL
    } else if code == 5 {
        SampleFormat::U8P
    } else if code == 6 {
        SampleFormat::S16P
    } else if code == 7 {
        SampleFormat::S32P
    } else if code == 8 {
        SampleFormat::FLTP
    } else if code == 9 {
        SampleFormat::DBLP
    } else {
        SampleFormat::Unset
    }
}

/// Whether a format lays its samples out one plane per channel.
pub open spec fn spec_is_planar(f: SampleFormat) -> bool {
    match f {
        SampleFormat::U8P => true,
        SampleFormat::S16P => true,
        SampleFormat::S32P => true,
        SampleFormat::FLTP => true,
        SampleFormat::DBLP => true,
        _ => false,
    }
}

/// The interleaved counterpart of a format (the format itself when it is
/// already interleaved or unset).
pub open spec fn spec_packed(f: SampleFormat) -> SampleFormat {
    match f {
        SampleFormat::U8P => SampleFormat::U8,
        SampleFormat::S16P => SampleFormat::S16,
        SampleFormat::S32P => SampleFormat::S32,
        SampleFormat::FLTP => SampleFormat::FLT,
        SampleFormat::DBLP => SampleFormat::DBL,
        other => other,
    }
}

/// The planar counterpart of a format (the format itself when it is
/// already planar or unset).
pub open spec fn spec_planar(f: SampleFormat) -> SampleFormat {
    match f {
        SampleFormat::U8 => SampleFormat::U8P,
        SampleFormat::S16 => SampleFormat::S16P,
        SampleFormat::S32 => SampleFormat::S32P,
        SampleFormat::FLT => SampleFormat::FLTP,
        SampleFormat::DBL => SampleFormat::DBLP,
        other => other,
    }
}

/// The size of one sample of the format, in bytes; zero for the unset
/// format.
pub open spec fn spec_bytes(f: SampleFormat) -> usize {
    match f {
        SampleFormat::Unset => 0usize,
        SampleFormat::U8 => 1usize,
        SampleFormat::S16 => 2usize,
        SampleFormat::S32 => 4usize,
        SampleFormat::FLT => 4usize,
        SampleFormat::DBL => 8usize,
        SampleFormat::U8P => 1usize,
        SampleFormat::S16P => 2usize,
        SampleFormat::S32P => 4usize,
        SampleFormat::FLTP => 4usize,
        SampleFormat::DBLP => 8usize,
    }
}

impl SampleFormat {
    /// The format a native sample-format code stands for.
    pub fn from_native(code: i32) -> (f: SampleFormat)
        ensures
            f == format_of_code(code),
    {
        if code == 0 {
            SampleFormat::U8
        } else if code == 1 {
            SampleFormat::S16
        } else if code == 2 {
            SampleFormat::S32
        } else if code == 3 {
            SampleFormat::FLT
        } else if code == 4 {
            SampleFormat::DBL
        } else if code == 5 {
            SampleFormat::U8P
        } else if code == 6 {
            SampleFormat::S16P
        } else if code == 7 {
            SampleFormat::S32P
        } else if code == 8 {
            SampleFormat::FLTP
        } else if code == 9 {
            SampleFormat::DBLP
        } else {
            SampleFormat::Unset
        }
    }

    /// The native code of this format.
    pub fn into_native(self) -> (code: i32)
        ensures
            code == native_code(self),
    {
        match self {
            SampleFormat::Unset => -1,
            SampleFormat::U8 => 0,
            SampleFormat::S16 => 1,
            SampleFormat::S32 => 2,
            SampleFormat::FLT => 3,
            SampleFormat::DBL => 4,
            SampleFormat::U8P => 5,
            SampleFormat::S16P => 6,
            SampleFormat::S32P => 7,
            SampleFormat::FLTP => 8,
            SampleFormat::DBLP => 9,
        }
    }

    /// Whether this format lays its samples out one plane per channel.
    pub fn is_planar(&self) -> (b: bool)
        ensures
            b == spec_is_planar(*self),
    {
        match *self {
            SampleFormat::U8P => true,
            SampleFormat::S16P => true,
            SampleFormat::S32P => true,
            SampleFormat::FLTP => true,
            SampleFormat::DBLP => true,
            _ => false,
        }
    }

    /// The interleaved counterpart of this format.
    pub fn packed(&self) -> (f: SampleFormat)
        ensures
            f == spec_packed(*self),
    {
        match *self {
            SampleFormat::U8P => SampleFormat::U8,
            SampleFormat::S16P => SampleFormat::S16,
            SampleFormat::S32P => SampleFormat::S32,
            SampleFormat::FLTP => SampleFormat::FLT,
            SampleFormat::DBLP => SampleFormat::DBL,
            other => other,
        }
    }

    /// The planar counterpart of this format.
    pub fn planar(&self) -> (f: SampleFormat)
        ensures
            f == spec_planar(*self),
    {
        match *self {
            SampleFormat::U8 => SampleFormat::U8P,
            SampleFormat::S16 => SampleFormat::S16P,
            SampleFormat::S32 => SampleFormat::S32P,
            SampleFormat::FLT => SampleFormat::FLTP,
            SampleFormat::DBL => SampleFormat::DBLP,
            other => other,
        }
    }

    /// The size of one sample of this format, in bytes.
    pub fn bytes(&self) -> (n: usize)
        ensures
            n == spec_bytes(*self),
    {
        match *self {
            SampleFormat::Unset => 0,
            SampleFormat::U8 => 1,
            SampleFormat::S16 => 2,
            SampleFormat::S32 => 4,
            SampleFormat::FLT => 4,
            SampleFormat::DBL => 8,
            SampleFormat::U8P => 1,
            SampleFormat::S16P => 2,
            SampleFormat::S32P => 4,
            SampleFormat::FLTP => 4,
            SampleFormat::DBLP => 8,
        }
    }

    /// The registry name of this format; the unset format has none.
    pub fn name(&self) -> (r: Option<&'static str>)
        ensures
            *self == SampleFormat::Unset <==> r is None,
            r matches Some(s) ==> s@ == spec_name(*self),
    {
        match *self {
            SampleFormat::Unset => None,
            SampleFormat::U8 => Some("u8"),
            SampleFormat::S16 => Some("s16"),
            SampleFormat::S32 => Some("s32"),
            SampleFormat::FLT => Some("flt"),
            SampleFormat::DBL => Some("dbl"),
            SampleFormat::U8P => Some("u8p"),
            SampleFormat::S16P => Some("s16p"),
            SampleFormat::S32P => Some("s32p"),
            SampleFormat::FLTP => Some("fltp"),
            SampleFormat::DBLP => Some("dblp"),
        }
    }
}

/// The registry name of a sample format, as the native framework spells it.
pub open spec fn spec_name(f: SampleFormat) -> Seq<char> {
    match f {
        SampleFormat::Unset => Seq::<char>::empty(),
        SampleFormat::U8 => "u8"@,
        SampleFormat::S16 => "s16"@,
        SampleFormat::S32 => "s32"@,
        SampleFormat::FLT => "flt"@,
        SampleFormat::DBL => "dbl"@,
        SampleFormat::U8P => "u8p"@,
        SampleFormat::S16P => "s16p"@,
        SampleFormat::S32P => "s32p"@,
        SampleFormat::FLTP => "fltp"@,
        SampleFormat::DBLP => "dblp"@,
    }
}

} // verus!
