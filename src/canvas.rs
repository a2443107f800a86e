//! The canvas: the pixel dimensions of every frame, read from configuration.
use vstd::prelude::*;
use vstd::string::StringSliceAdditionalSpecFns;

verus! {

/// The width used when none is configured.
pub const DEFAULT_WIDTH: u32 = 600;

/// The height used when none is configured.
pub const DEFAULT_HEIGHT: u32 = 500;

/// Why a configured canvas was refused.
#[derive(Clone, Copy, Debug, PartialEq, Eq, Structural)]
pub enum ConfigError {
    /// A dimension is not an optional `+` followed by decimal digits.
    Malformed,
    /// A dimension does not fit in a `u32`, or the frame buffer would not fit
    /// in memory.
    TooLarge,
    /// A dimension is zero.
    Zero,
}

/// The pixel dimensions of the frames.
#[derive(Clone, Copy, Debug, PartialEq, Eq, Structural)]
pub struct Canvas {
    pub width: u32,
    pub height: u32,
}

pub open spec fn is_digit(b: u8) -> bool {
    48 <= b <= 57
}

/// The bytes after an optional leading `+`.
pub open spec fn unsigned_part(s: Seq<u8>) -> Seq<u8> {
    if s.len() > 0 && s[0] == 43 {
        s.drop_first()
    } else {
        s
    }
}

/// An optional `+` followed by at least one decimal digit.
pub open spec fn is_decimal(s: Seq<u8>) -> bool {
    let d = unsigned_part(s);
    d.len() > 0 && forall|i: int| 0 <= i < d.len() ==> is_digit(#[trigger] d[i])
}

/// The number that a sequence of decimal digits writes.
pub open spec fn digits_value(d: Seq<u8>) -> nat
    decreases d.len(),
{
    if d.len() == 0 {
        0
    } else {
        digits_value(d.drop_last()) * 10 + (d.last() - 48) as nat
    }
}

/// What `parse_dimension` gives for the bytes `s`.
pub open spec fn dimension_of(s: Seq<u8>) -> Result<u32, ConfigError> {
    if !is_decimal(s) {
        Err(ConfigError::Malformed)
    } else if digits_value(unsigned_part(s)) > u32::MAX {
        Err(ConfigError::TooLarge)
    } else {
        Ok(digits_value(unsigned_part(s)) as u32)
    }
}

/// Reads one dimension written in decimal.
pub fn parse_dimension(s: &str) -> (r: Result<u32, ConfigError>)
    ensures
        r == dimension_of(s.spec_bytes()),
{
    let bytes = s.as_bytes();
    let n = bytes.len();
    let start: usize = if n > 0 && bytes[0] == 43 { 1 } else { 0 };
    let ghost d = unsigned_part(bytes@);
    assert(d =~= bytes@.subrange(start as int, n as int));
    if start == n {
        return Err(ConfigError::Malformed);
    }
    let mut i: usize = start;
    while i < n
        invariant
            start <= i <= n,
            n == bytes@.len(),
            bytes@ == s.spec_bytes(),
            d =~= bytes@.subrange(start as int, n as int),
            d == unsigned_part(bytes@),
            forall|j: int| start <= j < i ==> is_digit(#[trigger] bytes@[j]),
        decreases n - i,
    {
        if !(48 <= bytes[i] && bytes[i] <= 57) {
            assert(!is_digit(d[i - start]));
            assert(!is_decimal(bytes@));
            return Err(ConfigError::Malformed);
        }
        i = i + 1;
    }
    assert forall|j: int| 0 <= j < d.len() implies is_digit(#[trigger] d[j]) by {
        assert(d[j] == bytes@[j + start]);
    }
    let limit: u64 = u32::MAX as u64 + 1;
    let mut value: u64 = 0;
    let mut i: usize = start;
    while i < n
        invariant
            start <= i <= n,
            n == bytes@.len(),
            bytes@ == s.spec_bytes(),
            d =~= bytes@.subrange(start as int, n as int),
            d == unsigned_part(bytes@),
            forall|j: int| 0 <= j < d.len() ==> is_digit(#[trigger] d[j]),
            limit == u32::MAX + 1,
            digits_value(d.take(i - start)) <= u32::MAX ==> value == digits_value(
                d.take(i - start),
            ),
            digits_value(d.take(i - start)) > u32::MAX ==> value == limit,
        decreases n - i,
    {
        let ghost k = i - start;
        assert(d.take(k + 1).drop_last() =~= d.take(k));
        assert(d.take(k + 1).last() == d[k]);
        assert(is_digit(d[k]));
        if value < limit {
            let next = value * 10 + (bytes[i] - 48) as u64;
            value = if next > u32::MAX as u64 { limit } else { next };
        }
        i = i + 1;
    }
    assert(d.take(d.len() as int) =~= d);
    if value == limit {
        Err(ConfigError::TooLarge)
    } else {
        Ok(value as u32)
    }
}

/// The frame buffer of a canvas fits in memory.
pub open spec fn fits(width: u32, height: u32) -> bool {
    4 * width * height <= usize::MAX
}

/// What `Canvas::new` gives for two dimensions.
pub open spec fn canvas_of(width: u32, height: u32) -> Result<Canvas, ConfigError> {
    if width == 0 || height == 0 {
        Err(ConfigError::Zero)
    } else if !fits(width, height) {
        Err(ConfigError::TooLarge)
    } else {
        Ok(Canvas { width, height })
    }
}

/// What `canvas_from_config` gives for the configured text of each dimension.
pub open spec fn configured_canvas(width: Option<Seq<u8>>, height: Option<Seq<u8>>) -> Result<
    Canvas,
    ConfigError,
> {
    let w = match width {
        Some(s) => dimension_of(s),
        None => Ok(DEFAULT_WIDTH),
    };
    let h = match height {
        Some(s) => dimension_of(s),
        None => Ok(DEFAULT_HEIGHT),
    };
    match w {
        Err(e) => Err(e),
        Ok(wv) => match h {
            Err(e) => Err(e),
            Ok(hv) => canvas_of(wv, hv),
        },
    }
}

pub open spec fn opt_bytes(s: Option<&str>) -> Option<Seq<u8>> {
    match s {
        Some(t) => Some(t.spec_bytes()),
        None => None,
    }
}

impl Canvas {
    /// Both dimensions are positive and the frame buffer fits in memory.
    pub open spec fn wf(&self) -> bool {
        self.width >= 1 && self.height >= 1 && fits(self.width, self.height)
    }

    pub open spec fn pixels(&self) -> nat {
        (self.width * self.height) as nat
    }

    pub fn new(width: u32, height: u32) -> (r: Result<Canvas, ConfigError>)
        ensures
            r == canvas_of(width, height),
            r is Ok ==> r->Ok_0.wf(),
    {
        if width == 0 || height == 0 {
            return Err(ConfigError::Zero);
        }
        let w = width as u64;
        let h = height as u64;
        assert(4 * w * h <= 4 * u32::MAX * u32::MAX) by (nonlinear_arith)
            requires
                w <= u32::MAX,
                h <= u32::MAX,
        ;
        let p: u128 = 4 * (w as u128) * (h as u128);
        assert(p == 4 * width * height);
        if p > usize::MAX as u128 {
            Err(ConfigError::TooLarge)
        } else {
            Ok(Canvas { width, height })
        }
    }

    /// The number of pixels.
    pub fn pixel_count(&self) -> (r: usize)
        requires
            self.wf(),
        ensures
            r == self.pixels(),
    {
        assert(self.width * self.height <= 4 * self.width * self.height) by (nonlinear_arith);
        (self.width as usize) * (self.height as usize)
    }

    /// The number of bytes in a frame: four per pixel.
    pub fn buffer_len(&self) -> (r: usize)
        requires
            self.wf(),
        ensures
            r == 4 * self.pixels(),
    {
        assert(4 * self.width <= 4 * self.width * self.height && 4 * self.width * self.height == 4
            * (self.width * self.height)) by (nonlinear_arith)
            requires
                self.height >= 1,
        ;
        4 * (self.width as usize) * (self.height as usize)
    }
}

/// The canvas for the configured text of each dimension, where a missing one
/// takes its default.
pub fn canvas_from_config(width: Option<&str>, height: Option<&str>) -> (r: Result<
    Canvas,
    ConfigError,
>)
    ensures
        r == configured_canvas(opt_bytes(width), opt_bytes(height)),
        r is Ok ==> r->Ok_0.wf(),
{
    let w = match width {
        Some(s) => parse_dimension(s),
        None => Ok(DEFAULT_WIDTH),
    };
    let h = match height {
        Some(s) => parse_dimension(s),
        None => Ok(DEFAULT_HEIGHT),
    };
    match w {
        Err(e) => Err(e),
        Ok(wv) => match h {
            Err(e) => Err(e),
            Ok(hv) => Canvas::new(wv, hv),
        },
    }
}

} // verus!
