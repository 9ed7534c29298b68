//! Configuration: the INI-style configuration file names one kind of media to
//! paint and its parameters. A missing or invalid configuration falls back to
//! a default solid white, fully opaque descriptor and is never fatal.

use vstd::prelude::*;
use crate::render::Color;

verus! {

/// Which kind of media the configuration names.
#[derive(Clone, Copy, Debug, PartialEq, Eq, Structural)]
pub enum MediaType {
    Shader,
    Image,
    Solid,
    Video,
}

impl Default for MediaType {
    /// The default media kind is a solid fill.
    fn default() -> (r: Self)
        ensures
            r == MediaType::Solid,
    {
        MediaType::Solid
    }
}

/// Equality of two strings, decided by their character sequences.
pub fn str_eq(a: &str, b: &str) -> (r: bool)
    ensures
        r == (a@ == b@),
{
    let sa: String = a.to_owned();
    let sb: String = b.to_owned();
    sa == sb
}

/// Whether a character is a decimal digit.
pub open spec fn is_digit_char(c: char) -> bool {
    48 <= c as u32 <= 57
}

/// The numeric value of one decimal digit.
pub open spec fn digit_of(c: char) -> int {
    c as u32 - 48
}

/// The numeric value of a digit sequence, most significant digit first.
pub open spec fn digits_val(s: Seq<char>) -> int
    decreases s.len(),
{
    if s.len() == 0 {
        0
    } else {
        digits_val(s.drop_last()) * 10 + digit_of(s.last())
    }
}

/// Whether every character of the sequence is a decimal digit.
pub open spec fn all_digits(s: Seq<char>) -> bool {
    forall|i: int| 0 <= i < s.len() ==> is_digit_char(#[trigger] s[i])
}

/// What parsing an unsigned decimal number yields: the value where the text
/// is one or more digits and the value fits in u32; nothing otherwise.
pub open spec fn spec_parse_u32(s: Seq<char>) -> Option<u32> {
    if s.len() > 0 && all_digits(s) && digits_val(s) <= u32::MAX as int {
        Some(digits_val(s) as u32)
    } else {
        None
    }
}

/// A digit sequence has a non-negative value.
proof fn lemma_digits_val_nonneg(s: Seq<char>)
    requires
        all_digits(s),
    ensures
        digits_val(s) >= 0,
    decreases s.len(),
{
    if s.len() > 0 {
        lemma_digits_val_nonneg(s.drop_last());
    }
}

/// Extending a digit sequence never shrinks its value.
proof fn lemma_digits_val_mono(s: Seq<char>, i: int)
    requires
        0 <= i <= s.len(),
        all_digits(s),
    ensures
        digits_val(s.take(i)) <= digits_val(s),
    decreases s.len() - i,
{
    if i < s.len() {
        assert(all_digits(s.take(i))) by {
            assert(forall|j: int| 0 <= j < i ==> s.take(i)[j] == s[j]);
        }
        lemma_digits_val_nonneg(s.take(i));
        assert(s.take(i + 1).drop_last() =~= s.take(i));
        assert(s.take(i + 1).last() == s[i]);
        assert(digits_val(s.take(i + 1)) == digits_val(s.take(i)) * 10 + digit_of(s[i]));
        lemma_digits_val_mono(s, i + 1);
    } else {
        assert(s.take(i) =~= s);
    }
}

/// Parse an unsigned decimal number, as configuration values are written.
pub fn parse_u32(s: &str) -> (r: Option<u32>)
    ensures
        r == spec_parse_u32(s@),
{
    let n: usize = s.unicode_len();
    if n == 0 {
        return None;
    }
    let mut acc: u64 = 0;
    let mut i: usize = 0;
    while i < n
        invariant
            0 < n == s@.len(),
            i <= n,
            acc <= u32::MAX as u64,
            acc as int == digits_val(s@.take(i as int)),
            all_digits(s@.take(i as int)),
        decreases n - i,
    {
        let c = s.get_char(i);
        let d: u32 = c as u32;
        proof {
            assert(s@.take(i + 1).drop_last() =~= s@.take(i as int));
            assert(s@.take(i + 1).last() == s@[i as int]);
        }
        if d < 48 || d > 57 {
            proof {
                assert(!is_digit_char(s@[i as int]));
                assert(!all_digits(s@));
            }
            return None;
        }
        let acc2: u64 = acc * 10 + ((d - 48) as u64);
        proof {
            assert(acc2 as int == digits_val(s@.take(i + 1)));
            assert(all_digits(s@.take(i + 1))) by {
                assert(forall|j: int|
                    0 <= j < i + 1 ==> s@.take(i + 1)[j] == s@.take(i as int).push(s@[i as int])[
                    j]);
            }
        }
        if acc2 > u32::MAX as u64 {
            proof {
                if all_digits(s@) {
                    lemma_digits_val_mono(s@, i + 1);
                }
            }
            return None;
        }
        acc = acc2;
        i = i + 1;
    }
    proof {
        assert(s@.take(n as int) =~= s@);
    }
    Some(acc as u32)
}

/// The mathematical content of a configuration.
pub struct ConfigV {
    pub media_type: Option<MediaType>,
    pub media_path: Option<Seq<char>>,
    pub color: Option<Color>,
    pub blur_size: Option<u32>,
    pub blur_type: Option<Seq<char>>,
}

/// The configured media descriptor source, as read from the file.
pub struct Config {
    pub media_type: Option<MediaType>,
    pub media_path: Option<String>,
    pub color: Option<Color>,
    pub blur_size: Option<u32>,
    pub blur_type: Option<String>,
}

impl View for Config {
    type V = ConfigV;

    open spec fn view(&self) -> ConfigV {
        ConfigV {
            media_type: self.media_type,
            media_path: match self.media_path {
                Some(p) => Some(p@),
                None => None,
            },
            color: self.color,
            blur_size: self.blur_size,
            blur_type: match self.blur_type {
                Some(b) => Some(b@),
                None => None,
            },
        }
    }
}

/// A configuration with nothing set.
pub open spec fn spec_empty_config() -> ConfigV {
    ConfigV {
        media_type: None,
        media_path: None,
        color: None,
        blur_size: None,
        blur_type: None,
    }
}

/// The fallback used when the file is missing or invalid: a solid white,
/// fully opaque descriptor.
pub open spec fn spec_default_config() -> ConfigV {
    ConfigV {
        media_type: Some(MediaType::Solid),
        media_path: None,
        color: Some(Color { r: 255, g: 255, b: 255, a: 255 }),
        blur_size: None,
        blur_type: None,
    }
}

/// A colour channel read from a section: a decimal value clamped to 255;
/// missing or unparsable values mean full intensity.
pub open spec fn spec_channel(section: Map<Seq<char>, Seq<char>>, key: Seq<char>) -> u8 {
    if section.contains_key(key) {
        match spec_parse_u32(section[key]) {
            Some(v) => if v >= 255 {
                255
            } else {
                v as u8
            },
            None => 255,
        }
    } else {
        255
    }
}

/// The blur radius read from the image section; missing or unparsable
/// values mean no blur.
pub open spec fn spec_blur_size(section: Map<Seq<char>, Seq<char>>) -> u32 {
    if section.contains_key("blur_size"@) {
        match spec_parse_u32(section["blur_size"@]) {
            Some(v) => v,
            None => 0,
        }
    } else {
        0
    }
}

/// The blur kind read from the image section; a box blur when unset.
pub open spec fn spec_blur_type(section: Map<Seq<char>, Seq<char>>) -> Seq<char> {
    if section.contains_key("blur_type"@) {
        section["blur_type"@]
    } else {
        "box"@
    }
}

/// The configuration an `image` entry yields.
pub open spec fn spec_image_config(m: Map<Seq<char>, Map<Seq<char>, Seq<char>>>) -> ConfigV {
    if m.contains_key("image"@) && m["image"@].contains_key("path"@) {
        ConfigV {
            media_type: Some(MediaType::Image),
            media_path: Some(m["image"@]["path"@]),
            color: None,
            blur_size: Some(spec_blur_size(m["image"@])),
            blur_type: Some(spec_blur_type(m["image"@])),
        }
    } else {
        spec_default_config()
    }
}

/// The configuration a `solid` entry yields.
pub open spec fn spec_solid_config(m: Map<Seq<char>, Map<Seq<char>, Seq<char>>>) -> ConfigV {
    if m.contains_key("solid"@) {
        ConfigV {
            media_type: Some(MediaType::Solid),
            media_path: None,
            color: Some(
                Color {
                    r: spec_channel(m["solid"@], "red"@),
                    g: spec_channel(m["solid"@], "green"@),
                    b: spec_channel(m["solid"@], "blue"@),
                    a: spec_channel(m["solid"@], "alpha"@),
                },
            ),
            blur_size: None,
            blur_type: None,
        }
    } else {
        spec_default_config()
    }
}

/// The configuration a `shader` entry yields.
pub open spec fn spec_shader_config(m: Map<Seq<char>, Map<Seq<char>, Seq<char>>>) -> ConfigV {
    if m.contains_key("shader"@) && m["shader"@].contains_key("path"@) {
        ConfigV {
            media_type: Some(MediaType::Shader),
            media_path: Some(m["shader"@]["path"@]),
            color: None,
            blur_size: None,
            blur_type: None,
        }
    } else {
        spec_default_config()
    }
}

/// The configuration a parsed document yields. The recognized media kinds are
/// `image`, `solid` and `shader`; anything missing or unrecognized falls back
/// to the default descriptor.
pub open spec fn spec_config_of(doc: Option<Map<Seq<char>, Map<Seq<char>, Seq<char>>>>) -> ConfigV {
    match doc {
        None => spec_default_config(),
        Some(m) => {
            if !m.contains_key("main"@) {
                spec_default_config()
            } else if !m["main"@].contains_key("type"@) {
                spec_default_config()
            } else {
                let ty = m["main"@]["type"@];
                if ty == "image"@ {
                    spec_image_config(m)
                } else if ty == "solid"@ {
                    spec_solid_config(m)
                } else if ty == "shader"@ {
                    spec_shader_config(m)
                } else {
                    spec_default_config()
                }
            }
        },
    }
}

/// The sections of the INI text, or nothing where the text does not parse.
pub uninterp spec fn ini_doc_of(text: Seq<char>) -> Option<
    Map<Seq<char>, Map<Seq<char>, Seq<char>>>,
>;

/// The named sections a parsed document holds, each mapped to its
/// key-to-first-value table.
pub uninterp spec fn ini_sections(doc: ini::Ini) -> Map<Seq<char>, Map<Seq<char>, Seq<char>>>;

/// The key-to-first-value table of one section.
pub uninterp spec fn ini_props(p: ini::Properties) -> Map<Seq<char>, Seq<char>>;

#[verifier::external_type_specification]
#[verifier::external_body]
pub struct ExIni(ini::Ini);

#[verifier::external_type_specification]
#[verifier::external_body]
pub struct ExProperties(ini::Properties);

/// Relies on ini's Ini::load_from_str: parses the INI text; the result is a
/// function of the text alone.
#[verifier::external_body]
fn parse_ini(text: &str) -> (r: Option<ini::Ini>)
    ensures
        r is Some <==> ini_doc_of(text@) is Some,
        r matches Some(doc) ==> Some(ini_sections(doc)) == ini_doc_of(text@),
{
    ini::Ini::load_from_str(text).ok()
}

/// Relies on ini's Ini::section: looks a named section up.
#[verifier::external_body]
fn ini_section<'a>(doc: &'a ini::Ini, name: &str) -> (r: Option<&'a ini::Properties>)
    ensures
        r is Some <==> ini_sections(*doc).contains_key(name@),
        r matches Some(p) ==> ini_sections(*doc).contains_key(name@) && ini_props(*p)
            == ini_sections(*doc)[name@],
{
    doc.section(Some(name))
}

/// Relies on ini's Properties::get: the first value stored under the key.
#[verifier::external_body]
fn ini_get(p: &ini::Properties, key: &str) -> (r: Option<String>)
    ensures
        r is Some <==> ini_props(*p).contains_key(key@),
        r matches Some(v) ==> ini_props(*p).contains_key(key@) && v@ == ini_props(*p)[key@],
{
    match p.get(key) {
        Some(v) => Some(v.to_string()),
        None => None,
    }
}

impl Config {
    /// A configuration with nothing set.
    pub fn empty() -> (c: Self)
        ensures
            c@ == spec_empty_config(),
    {
        Config {
            media_type: None,
            media_path: None,
            color: None,
            blur_size: None,
            blur_type: None,
        }
    }

    /// The fallback configuration: a default solid white, fully opaque fill.
    fn default_white() -> (c: Self)
        ensures
            c@ == spec_default_config(),
    {
        Config {
            media_type: Some(MediaType::Solid),
            media_path: None,
            color: Some(Color { r: 255, g: 255, b: 255, a: 255 }),
            blur_size: None,
            blur_type: None,
        }
    }

    /// One colour channel of the `solid` section.
    fn read_channel(sec: &ini::Properties, key: &str) -> (v: u8)
        ensures
            v == spec_channel(ini_props(*sec), key@),
    {
        match ini_get(sec, key) {
            Some(raw) => match parse_u32(raw.as_str()) {
                Some(n) => if n >= 255 {
                    255
                } else {
                    n as u8
                },
                None => 255,
            },
            None => 255,
        }
    }

    /// Build the configuration from the text of the configuration file.
    pub fn from_config_str(text: &str) -> (c: Self)
        ensures
            c@ == spec_config_of(ini_doc_of(text@)),
    {
        let doc = match parse_ini(text) {
            Some(d) => d,
            None => {
                return Self::default_white();
            },
        };
        let main = match ini_section(&doc, "main") {
            Some(p) => p,
            None => {
                return Self::default_white();
            },
        };
        let ty = match ini_get(main, "type") {
            Some(t) => t,
            None => {
                return Self::default_white();
            },
        };
        if str_eq(ty.as_str(), "image") {
            let sec = match ini_section(&doc, "image") {
                Some(p) => p,
                None => {
                    return Self::default_white();
                },
            };
            let path = match ini_get(sec, "path") {
                Some(p) => p,
                None => {
                    return Self::default_white();
                },
            };
            let blur_size: u32 = match ini_get(sec, "blur_size") {
                Some(raw) => match parse_u32(raw.as_str()) {
                    Some(n) => n,
                    None => 0,
                },
                None => 0,
            };
            let blur_type: String = match ini_get(sec, "blur_type") {
                Some(t) => t,
                None => "box".to_owned(),
            };
            Config {
                media_type: Some(MediaType::Image),
                media_path: Some(path),
                color: None,
                blur_size: Some(blur_size),
                blur_type: Some(blur_type),
            }
        } else if str_eq(ty.as_str(), "solid") {
            let sec = match ini_section(&doc, "solid") {
                Some(p) => p,
                None => {
                    return Self::default_white();
                },
            };
            Config {
                media_type: Some(MediaType::Solid),
                media_path: None,
                color: Some(
                    Color {
                        r: Self::read_channel(sec, "red"),
                        g: Self::read_channel(sec, "green"),
                        b: Self::read_channel(sec, "blue"),
                        a: Self::read_channel(sec, "alpha"),
                    },
                ),
                blur_size: None,
                blur_type: None,
            }
        } else if str_eq(ty.as_str(), "shader") {
            let sec = match ini_section(&doc, "shader") {
                Some(p) => p,
                None => {
                    return Self::default_white();
                },
            };
            let path = match ini_get(sec, "path") {
                Some(p) => p,
                None => {
                    return Self::default_white();
                },
            };
            Config {
                media_type: Some(MediaType::Shader),
                media_path: Some(path),
                color: None,
                blur_size: None,
                blur_type: None,
            }
        } else {
            Self::default_white()
        }
    }
}

} // verus!
