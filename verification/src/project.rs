use vstd::prelude::*;
use crate::text::{
    contains_str, decimal, has_substring, spec_to_lowercase, spec_trim, str_eq, to_lowercase_str,
    trim_str, u64_to_string, chars_of, ascii_lower, spec_ascii_lower, ascii_lowered, is_ascii_text,
    lemma_trim_keeps_ascii,
};

verus! {

/// The resolution reported for the primary display: the standard 1920x1080 fallback that is
/// used when no platform query is available.
pub fn get_device_screen_resolution() -> (r: (u32, u32))
    ensures
        r == (1920u32, 1080u32),
{
    (1920, 1080)
}

/// Greatest common divisor by Euclid's algorithm.
pub open spec fn spec_gcd(a: nat, b: nat) -> nat
    decreases b,
{
    if b == 0 { a } else { spec_gcd(b, a % b) }
}

/// The greatest common divisor divides both arguments.
pub proof fn lemma_gcd_divides(a: nat, b: nat)
    ensures
        spec_gcd(a, b) == 0 <==> (a == 0 && b == 0),
        spec_gcd(a, b) > 0 ==> a % spec_gcd(a, b) == 0 && b % spec_gcd(a, b) == 0,
    decreases b,
{
    if b != 0 {
        lemma_gcd_divides(b, a % b);
        let g = spec_gcd(b, a % b);
        if g > 0 {
            assert(a == b * (a / b) + a % b) by (nonlinear_arith)
                requires b != 0;
            assert(a % g == 0) by {
                vstd::arithmetic::div_mod::lemma_fundamental_div_mod(b as int, g as int);
                vstd::arithmetic::div_mod::lemma_fundamental_div_mod((a % b) as int, g as int);
                let qb = b / g;
                let qr = (a % b) / g;
                assert(b == g * qb);
                assert((a % b) == g * qr);
                assert(a == g * (qb * (a / b) + qr)) by (nonlinear_arith)
                    requires a == b * (a / b) + a % b, b == g * qb, (a % b) == g * qr;
                vstd::arithmetic::div_mod::lemma_mod_multiples_basic((qb * (a / b) + qr) as int, g as int);
            }
        }
    }
}

fn gcd(a: u32, b: u32) -> (g: u32)
    ensures
        g == spec_gcd(a as nat, b as nat),
{
    let mut x = a;
    let mut y = b;
    while y != 0
        invariant
            spec_gcd(x as nat, y as nat) == spec_gcd(a as nat, b as nat),
        decreases y,
    {
        let t = y;
        y = x % y;
        x = t;
    }
    x
}

/// Whether `w/h` lies strictly within `en/ed` of `p/q` (all positive).
pub open spec fn near(w: nat, h: nat, p: nat, q: nat, en: nat, ed: nat) -> bool {
    let lhs = if w * q >= p * h { (w * q - p * h) as nat } else { (p * h - w * q) as nat };
    lhs * ed < en * h * q
}

/// `w/h` rounded to hundredths, half up.
pub open spec fn hundredths(w: nat, h: nat) -> nat {
    (200 * w + h) / (2 * h)
}

/// The two-decimal rendering `I.FF` of a count of hundredths.
pub open spec fn two_decimals(x: nat) -> Seq<char> {
    decimal(x / 100) + seq!['.', digit_of(((x % 100) / 10) as nat), digit_of((x % 10) as nat)]
}

pub open spec fn digit_of(d: nat) -> char {
    crate::text::digit_char(d)
}

/// The human-readable aspect ratio of `w` by `h`: a named ratio when `w/h` is close to it
/// (16:9, 16:10, 4:3, 21:9, 3:2, 1:1, tried in this order), else the reduced fraction when
/// both its terms are below 50, else the ratio to one, rounded to two decimals.
pub open spec fn spec_format_aspect_ratio(w: nat, h: nat) -> Seq<char> {
    if w == 0 || h == 0 {
        "16:9"@
    } else if near(w, h, 16, 9, 3, 100) {
        "16:9"@
    } else if near(w, h, 16, 10, 3, 100) || near(w, h, 8, 5, 3, 100) {
        "16:10"@
    } else if near(w, h, 4, 3, 3, 100) {
        "4:3"@
    } else if near(w, h, 21, 9, 5, 100) {
        "21:9"@
    } else if near(w, h, 3, 2, 3, 100) {
        "3:2"@
    } else if near(w, h, 1, 1, 2, 100) {
        "1:1"@
    } else {
        let g = spec_gcd(w, h);
        if w / g < 50 && h / g < 50 {
            decimal(w / g) + ":"@ + decimal(h / g)
        } else {
            two_decimals(hundredths(w, h)) + ":1"@
        }
    }
}

/// Scaling dividend and divisor by the same positive factor keeps the quotient and scales
/// the remainder.
proof fn lemma_div_mod_scaled(a: nat, b: nat, k: nat)
    requires
        b > 0,
        k > 0,
    ensures
        (k * a) / (k * b) == a / b,
        (k * a) % (k * b) == k * (a % b),
{
    let q: int = (a / b) as int;
    let r: int = (a % b) as int;
    vstd::arithmetic::div_mod::lemma_fundamental_div_mod(a as int, b as int);
    assert(a == b * q + r);
    assert(k * a == q * (k * b) + k * r) by (nonlinear_arith)
        requires
            a == b * q + r,
    ;
    assert(0 <= k * r < k * b) by (nonlinear_arith)
        requires
            0 <= r < b,
            k > 0,
    ;
    assert(k * b > 0) by (nonlinear_arith)
        requires
            k > 0,
            b > 0,
    ;
    vstd::arithmetic::div_mod::lemma_fundamental_div_mod_converse(
        (k * a) as int,
        (k * b) as int,
        q,
        k * r,
    );
}

/// The greatest common divisor of scaled numbers is the scaled greatest common divisor.
proof fn lemma_gcd_scaled(a: nat, b: nat, k: nat)
    requires
        k > 0,
    ensures
        spec_gcd(k * a, k * b) == k * spec_gcd(a, b),
    decreases b,
{
    if b == 0 {
        assert(k * b == 0);
    } else {
        assert(k * b > 0) by (nonlinear_arith)
            requires
                k > 0,
                b > 0,
        ;
        lemma_div_mod_scaled(a, b, k);
        lemma_gcd_scaled(b, a % b, k);
        assert(spec_gcd(k * a, k * b) == spec_gcd(k * b, (k * a) % (k * b)));
    }
}

/// Closeness of `w/h` to a ratio does not change when both terms are scaled.
proof fn lemma_near_scaled(w: nat, h: nat, p: nat, q: nat, en: nat, ed: nat, k: nat)
    requires
        k > 0,
    ensures
        near(k * w, k * h, p, q, en, ed) == near(w, h, p, q, en, ed),
{
    let a: int = (w * q) as int;
    let b: int = (p * h) as int;
    let lhs: int = if a >= b { a - b } else { b - a };
    assert((k * w) * q == k * a && p * (k * h) == k * b) by (nonlinear_arith)
        requires
            a == w * q,
            b == p * h,
    ;
    let klhs: int = if k * a >= k * b { k * a - k * b } else { k * b - k * a };
    assert(klhs == k * lhs) by (nonlinear_arith)
        requires
            k > 0,
            lhs == if a >= b { a - b } else { b - a },
            klhs == if k * a >= k * b { k * a - k * b } else { k * b - k * a },
    ;
    let rhs: int = (en * h * q) as int;
    assert(en * (k * h) * q == k * rhs) by (nonlinear_arith)
        requires
            rhs == en * h * q,
    ;
    assert((k * lhs) * ed < k * rhs <==> lhs * ed < rhs) by (nonlinear_arith)
        requires
            k > 0,
    ;
    assert((k * lhs) * ed == k * (lhs * ed)) by (nonlinear_arith);
}

/// The label depends only on the ratio of the two sides: scaling both by the same positive
/// factor gives the same label.
pub proof fn law_aspect_ratio_scaling(w: nat, h: nat, k: nat)
    requires
        k >= 1,
    ensures
        spec_format_aspect_ratio(k * w, k * h) == spec_format_aspect_ratio(w, h),
{
    if w == 0 || h == 0 {
        assert(k * w == 0 || k * h == 0) by (nonlinear_arith)
            requires
                w == 0 || h == 0,
        ;
    } else {
        assert(k * w > 0 && k * h > 0) by (nonlinear_arith)
            requires
                k > 0,
                w > 0,
                h > 0,
        ;
        lemma_near_scaled(w, h, 16, 9, 3, 100, k);
        lemma_near_scaled(w, h, 16, 10, 3, 100, k);
        lemma_near_scaled(w, h, 8, 5, 3, 100, k);
        lemma_near_scaled(w, h, 4, 3, 3, 100, k);
        lemma_near_scaled(w, h, 21, 9, 5, 100, k);
        lemma_near_scaled(w, h, 3, 2, 3, 100, k);
        lemma_near_scaled(w, h, 1, 1, 2, 100, k);
        let g = spec_gcd(w, h);
        lemma_gcd_divides(w, h);
        lemma_gcd_scaled(w, h, k);
        lemma_div_mod_scaled(w, g, k);
        lemma_div_mod_scaled(h, g, k);
        assert(200 * (k * w) + k * h == k * (200 * w + h) && 2 * (k * h) == k * (2 * h))
            by (nonlinear_arith);
        lemma_div_mod_scaled((200 * w + h) as nat, (2 * h) as nat, k);
        assert(hundredths(k * w, k * h) == hundredths(w, h));
    }
}

fn near_exec(w: u32, h: u32, p: u64, q: u64, en: u64, ed: u64) -> (r: bool)
    requires
        p <= 21,
        q <= 10,
        en <= 5,
        ed <= 100,
    ensures
        r == near(w as nat, h as nat, p as nat, q as nat, en as nat, ed as nat),
{
    assert((w as u64) * q <= 0xffff_ffff * 21) by (nonlinear_arith)
        requires w <= 0xffff_ffff, q <= 10;
    assert(p * (h as u64) <= 0xffff_ffff * 21) by (nonlinear_arith)
        requires h <= 0xffff_ffff, p <= 21;
    let wq: u64 = (w as u64) * q;
    let ph: u64 = p * (h as u64);
    let lhs: u64 = if wq >= ph { wq - ph } else { ph - wq };
    assert(lhs <= 0xffff_ffff * 21);
    assert(lhs * ed <= 0xffff_ffff * 21 * 100) by (nonlinear_arith)
        requires lhs <= 0xffff_ffff * 21, ed <= 100;
    assert(en * (h as u64) <= 5 * 0xffff_ffff) by (nonlinear_arith)
        requires en <= 5, h <= 0xffff_ffff;
    assert(en * (h as u64) * q <= 5 * 0xffff_ffff * 10) by (nonlinear_arith)
        requires en * (h as u64) <= 5 * 0xffff_ffff, q <= 10;
    lhs * ed < en * (h as u64) * q
}

fn two_decimals_exec(x: u64) -> (s: String)
    ensures
        s@ == two_decimals(x as nat),
{
    let mut s = u64_to_string(x / 100);
    s.append(".");
    let d1 = ((x % 100) / 10) as u8;
    let d2 = (x % 10) as u8;
    crate::text::push_char(&mut s, (d1 + 48) as char);
    crate::text::push_char(&mut s, (d2 + 48) as char);
    proof {
        reveal_strlit(".");
    }
    assert(s@ =~= two_decimals(x as nat));
    s
}

/// Human-readable aspect ratio string (e.g. "16:9", "16:10", "4:3", "21:9").
pub fn format_aspect_ratio(w: u32, h: u32) -> (s: String)
    ensures
        s@ == spec_format_aspect_ratio(w as nat, h as nat),
{
    if w == 0 || h == 0 {
        return String::from_str("16:9");
    }
    if near_exec(w, h, 16, 9, 3, 100) {
        String::from_str("16:9")
    } else if near_exec(w, h, 16, 10, 3, 100) || near_exec(w, h, 8, 5, 3, 100) {
        String::from_str("16:10")
    } else if near_exec(w, h, 4, 3, 3, 100) {
        String::from_str("4:3")
    } else if near_exec(w, h, 21, 9, 5, 100) {
        String::from_str("21:9")
    } else if near_exec(w, h, 3, 2, 3, 100) {
        String::from_str("3:2")
    } else if near_exec(w, h, 1, 1, 2, 100) {
        String::from_str("1:1")
    } else {
        let g = gcd(w, h);
        proof {
            lemma_gcd_divides(w as nat, h as nat);
        }
        let sw = w / g;
        let sh = h / g;
        if sw < 50 && sh < 50 {
            let mut s = u64_to_string(sw as u64);
            s.append(":");
            let t = u64_to_string(sh as u64);
            s.append(t.as_str());
            s
        } else {
            let x: u64 = (200 * (w as u64) + (h as u64)) / (2 * (h as u64));
            let mut s = two_decimals_exec(x);
            s.append(":1");
            s
        }
    }
}

/// Standard game ratio picker options.
#[derive(Debug, Clone, Copy, PartialEq, Eq, Structural)]
pub enum AspectRatioPreset {
    Ratio16x9,
    Ratio4x3,
    Device,
}

/// Which preset a cleaned-up (trimmed, lower-cased) name selects, given the device
/// resolution.
pub open spec fn spec_preset_of(clean: Seq<char>, dw: nat, dh: nat) -> Option<AspectRatioPreset> {
    if has_substring(clean, "16:9"@) || has_substring(clean, "16/9"@) || has_substring(clean, "16x9"@)
        || clean == "widescreen"@ || clean == "wide"@ {
        Some(AspectRatioPreset::Ratio16x9)
    } else if has_substring(clean, "4:3"@) || has_substring(clean, "4/3"@) || has_substring(clean, "4x3"@)
        || clean == "classic"@ || clean == "retro"@ {
        Some(AspectRatioPreset::Ratio4x3)
    } else if has_substring(clean, "device"@) || clean == "screen"@ || clean == "native"@
        || clean == "display"@ || clean == "current"@ {
        Some(AspectRatioPreset::Device)
    } else if clean == spec_format_aspect_ratio(dw, dh) {
        Some(AspectRatioPreset::Device)
    } else {
        None
    }
}

/// Rounds `num/den` to the nearest integer (halves up), saturating at `u32::MAX`, then clears
/// the lowest bit so that the result is even.
pub open spec fn even_scaled(num: nat, den: nat) -> nat {
    let x = (2 * num + den) / (2 * den);
    let y = if x > 0xffff_ffff { 0xffff_ffffnat } else { x };
    (y - y % 2) as nat
}

/// The viewport resolution of a preset for a device of `dw` by `dh` pixels: a 720-pixel short
/// side with the device's ratio, made even.
pub open spec fn spec_resolution(p: AspectRatioPreset, dw: nat, dh: nat) -> (nat, nat) {
    match p {
        AspectRatioPreset::Ratio16x9 => (1280, 720),
        AspectRatioPreset::Ratio4x3 => (960, 720),
        AspectRatioPreset::Device => if dw >= dh {
            (even_scaled(720 * dw, dh), 720)
        } else {
            (720, even_scaled(720 * dh, dw))
        },
    }
}

fn even_scaled_exec(num: u64, den: u64) -> (r: u32)
    requires
        0 < den <= 0xffff_ffff,
        num <= 720 * 0xffff_ffff,
    ensures
        r == even_scaled(num as nat, den as nat),
{
    let x: u64 = (2 * num + den) / (2 * den);
    let y: u64 = if x > 0xffff_ffff { 0xffff_ffff } else { x };
    (y - y % 2) as u32
}

impl AspectRatioPreset {
    /// Picks the preset named by an already trimmed, lower-cased string.
    pub fn from_clean_name(clean: &str, dw: u32, dh: u32) -> (r: Option<Self>)
        ensures
            r == spec_preset_of(clean@, dw as nat, dh as nat),
    {
        if contains_str(clean, "16:9") || contains_str(clean, "16/9") || contains_str(clean, "16x9")
            || str_eq(clean, "widescreen") || str_eq(clean, "wide") {
            Some(AspectRatioPreset::Ratio16x9)
        } else if contains_str(clean, "4:3") || contains_str(clean, "4/3") || contains_str(clean, "4x3")
            || str_eq(clean, "classic") || str_eq(clean, "retro") {
            Some(AspectRatioPreset::Ratio4x3)
        } else if contains_str(clean, "device") || str_eq(clean, "screen") || str_eq(clean, "native")
            || str_eq(clean, "display") || str_eq(clean, "current") {
            Some(AspectRatioPreset::Device)
        } else {
            let dev = format_aspect_ratio(dw, dh);
            if str_eq(clean, dev.as_str()) {
                Some(AspectRatioPreset::Device)
            } else {
                None
            }
        }
    }

    /// Parses a preset name such as `16:9`, `retro` or `device`, ignoring surrounding white
    /// space and letter case.
    pub fn parse_str(s: &str) -> (r: Option<Self>)
        ensures
            r == spec_preset_of(spec_to_lowercase(spec_trim(s@)), 1920, 1080),
            is_ascii_text(s@) ==> r == spec_preset_of(ascii_lowered(spec_trim(s@)), 1920, 1080),
    {
        let (dw, dh) = get_device_screen_resolution();
        Self::parse_str_for_device(s, dw, dh)
    }

    /// Parses a preset name as `parse_str` does, on a device of `dw` by `dh` pixels: the
    /// device's own ratio label also names the device preset.
    pub fn parse_str_for_device(s: &str, dw: u32, dh: u32) -> (r: Option<Self>)
        ensures
            r == spec_preset_of(spec_to_lowercase(spec_trim(s@)), dw as nat, dh as nat),
            is_ascii_text(s@) ==> r == spec_preset_of(ascii_lowered(spec_trim(s@)), dw as nat, dh as nat),
    {
        let t = trim_str(s);
        proof {
            if is_ascii_text(s@) {
                lemma_trim_keeps_ascii(s@);
            }
        }
        let clean = to_lowercase_str(t.as_str());
        Self::from_clean_name(clean.as_str(), dw, dh)
    }

    /// The preset's viewport resolution for a device of `dw` by `dh` pixels.
    pub fn to_resolution_for_device(&self, dw: u32, dh: u32) -> (r: (u32, u32))
        requires
            dw > 0,
            dh > 0,
        ensures
            (r.0 as nat, r.1 as nat) == spec_resolution(*self, dw as nat, dh as nat),
    {
        match self {
            AspectRatioPreset::Ratio16x9 => (1280, 720),
            AspectRatioPreset::Ratio4x3 => (960, 720),
            AspectRatioPreset::Device => {
                if dw >= dh {
                    (even_scaled_exec(720 * (dw as u64), dh as u64), 720)
                } else {
                    (720, even_scaled_exec(720 * (dh as u64), dw as u64))
                }
            },
        }
    }

    /// The preset's viewport resolution on this device.
    pub fn to_resolution(&self) -> (r: (u32, u32))
        ensures
            (r.0 as nat, r.1 as nat) == spec_resolution(*self, 1920, 1080),
    {
        let (dw, dh) = get_device_screen_resolution();
        self.to_resolution_for_device(dw, dh)
    }

    /// The picker label, as `16:9 (1280x720)` or `Device: 16:9 (1920x1080)`.
    pub fn label_for_device(&self, dw: u32, dh: u32) -> (s: String)
        ensures
            s@ == match *self {
                AspectRatioPreset::Ratio16x9 => "16:9 (1280x720)"@,
                AspectRatioPreset::Ratio4x3 => "4:3 (960x720)"@,
                AspectRatioPreset::Device => "Device: "@ + spec_format_aspect_ratio(dw as nat, dh as nat)
                    + " ("@ + decimal(dw as nat) + "x"@ + decimal(dh as nat) + ")"@,
            },
    {
        match self {
            AspectRatioPreset::Ratio16x9 => String::from_str("16:9 (1280x720)"),
            AspectRatioPreset::Ratio4x3 => String::from_str("4:3 (960x720)"),
            AspectRatioPreset::Device => {
                let ratio = format_aspect_ratio(dw, dh);
                let mut s = String::from_str("Device: ");
                s.append(ratio.as_str());
                s.append(" (");
                let a = u64_to_string(dw as u64);
                s.append(a.as_str());
                s.append("x");
                let b = u64_to_string(dh as u64);
                s.append(b.as_str());
                s.append(")");
                s
            },
        }
    }

    /// The picker label on this device.
    pub fn label(&self) -> (s: String)
        ensures
            s@ == match *self {
                AspectRatioPreset::Ratio16x9 => "16:9 (1280x720)"@,
                AspectRatioPreset::Ratio4x3 => "4:3 (960x720)"@,
                AspectRatioPreset::Device => "Device: "@ + spec_format_aspect_ratio(1920, 1080)
                    + " ("@ + decimal(1920) + "x"@ + decimal(1080) + ")"@,
            },
    {
        let (dw, dh) = get_device_screen_resolution();
        self.label_for_device(dw, dh)
    }

    /// The short label, as `16:9` or `Device (16:9)`.
    pub fn short_label_for_device(&self, dw: u32, dh: u32) -> (s: String)
        ensures
            s@ == match *self {
                AspectRatioPreset::Ratio16x9 => "16:9"@,
                AspectRatioPreset::Ratio4x3 => "4:3"@,
                AspectRatioPreset::Device => "Device ("@ + spec_format_aspect_ratio(dw as nat, dh as nat) + ")"@,
            },
    {
        match self {
            AspectRatioPreset::Ratio16x9 => String::from_str("16:9"),
            AspectRatioPreset::Ratio4x3 => String::from_str("4:3"),
            AspectRatioPreset::Device => {
                let ratio = format_aspect_ratio(dw, dh);
                let mut s = String::from_str("Device (");
                s.append(ratio.as_str());
                s.append(")");
                s
            },
        }
    }

    /// The short label on this device.
    pub fn short_label(&self) -> (s: String)
        ensures
            s@ == match *self {
                AspectRatioPreset::Ratio16x9 => "16:9"@,
                AspectRatioPreset::Ratio4x3 => "4:3"@,
                AspectRatioPreset::Device => "Device ("@ + spec_format_aspect_ratio(1920, 1080) + ")"@,
            },
    {
        let (dw, dh) = get_device_screen_resolution();
        self.short_label_for_device(dw, dh)
    }
}

/// Window resolution of a project.
#[derive(Debug, Clone, Copy, PartialEq, Eq)]
pub struct ResolutionConfig {
    pub width: u32,
    pub height: u32,
}

impl ResolutionConfig {
    /// 1280x720.
    pub fn default() -> (r: Self)
        ensures
            r.width == 1280 && r.height == 720,
    {
        ResolutionConfig { width: 1280, height: 720 }
    }
}

/// The contents of a project file.
#[derive(Debug, Clone)]
pub struct ProjectConfig {
    pub name: String,
    pub entry: String,
    pub resolution: ResolutionConfig,
    pub background: String,
    pub ratio: String,
}

/// Background used when a project file names none.
pub fn default_background() -> (s: String)
    ensures
        s@ == "white"@,
{
    String::from_str("white")
}

/// Ratio used when a project file names none.
pub fn default_ratio() -> (s: String)
    ensures
        s@ == "16:9"@,
{
    String::from_str("16:9")
}

impl ProjectConfig {
    /// "My Game", entry `src/main.sch`, 1280x720, white background, 16:9.
    pub fn default() -> (r: Self)
        ensures
            r.name@ == "My Game"@,
            r.entry@ == "src/main.sch"@,
            r.resolution.width == 1280,
            r.resolution.height == 720,
            r.background@ == "white"@,
            r.ratio@ == "16:9"@,
    {
        ProjectConfig {
            name: String::from_str("My Game"),
            entry: String::from_str("src/main.sch"),
            resolution: ResolutionConfig::default(),
            background: default_background(),
            ratio: default_ratio(),
        }
    }

    /// Sets the resolution and ratio label from a preset, for a device of `dw` by `dh`.
    pub fn apply_ratio_preset_for_device(&mut self, preset: AspectRatioPreset, dw: u32, dh: u32)
        requires
            dw > 0,
            dh > 0,
        ensures
            (final(self).resolution.width as nat, final(self).resolution.height as nat)
                == spec_resolution(preset, dw as nat, dh as nat),
            final(self).ratio@ == match preset {
                AspectRatioPreset::Ratio16x9 => "16:9"@,
                AspectRatioPreset::Ratio4x3 => "4:3"@,
                AspectRatioPreset::Device => "Device ("@ + spec_format_aspect_ratio(dw as nat, dh as nat) + ")"@,
            },
            final(self).name == old(self).name,
            final(self).entry == old(self).entry,
            final(self).background == old(self).background,
    {
        let (w, h) = preset.to_resolution_for_device(dw, dh);
        self.resolution.width = w;
        self.resolution.height = h;
        self.ratio = preset.short_label_for_device(dw, dh);
    }

    /// Sets the resolution and ratio label from a preset, on this device.
    pub fn apply_ratio_preset(&mut self, preset: AspectRatioPreset)
        ensures
            (final(self).resolution.width as nat, final(self).resolution.height as nat)
                == spec_resolution(preset, 1920, 1080),
            final(self).ratio@ == match preset {
                AspectRatioPreset::Ratio16x9 => "16:9"@,
                AspectRatioPreset::Ratio4x3 => "4:3"@,
                AspectRatioPreset::Device => "Device ("@ + spec_format_aspect_ratio(1920, 1080) + ")"@,
            },
            final(self).name == old(self).name,
            final(self).entry == old(self).entry,
            final(self).background == old(self).background,
    {
        let (dw, dh) = get_device_screen_resolution();
        self.apply_ratio_preset_for_device(preset, dw, dh);
    }
}

/// Whether a stage background is the named colour asked for: the same text up to ASCII case.
pub open spec fn same_ignoring_ascii_case(a: Seq<char>, b: Seq<char>) -> bool {
    a.len() == b.len() && forall|i: int| 0 <= i < a.len() ==> spec_ascii_lower(#[trigger] a[i]) == spec_ascii_lower(b[i])
}

/// Whether a stage background matches a colour name (`str::eq_ignore_ascii_case`).
pub fn color_matches_named(background: &str, query: &str) -> (r: bool)
    ensures
        r == same_ignoring_ascii_case(background@, query@),
{
    let a = chars_of(background);
    let b = chars_of(query);
    if a.len() != b.len() {
        return false;
    }
    for i in 0..a.len()
        invariant
            a@ == background@,
            b@ == query@,
            a@.len() == b@.len(),
            forall|k: int| 0 <= k < i ==> spec_ascii_lower(#[trigger] a@[k]) == spec_ascii_lower(b@[k]),
    {
        if ascii_lower(a[i]) != ascii_lower(b[i]) {
            return false;
        }
    }
    true
}

} // verus!
