//! The sixteen-slot base16 palette and its hex-color validation.

use vstd::prelude::*;

verus! {

/// Number of named slots in a base16 palette.
pub const FIELD_COUNT: usize = 16;

/// The pattern of a CSS-style hex color: `#` and 3, 4, 6 or 8 hex digits.
pub const HEX_COLOR_PATTERN: &'static str = "^#(?:[0-9a-fA-F]{3}){1,2}$|^#(?:[0-9a-fA-F]{4}){1,2}$";

/// Name of slot `i`, in the fixed enumeration order `base00` .. `base0F`.
pub open spec fn spec_field_name(i: int) -> Seq<char> {
    if i == 0 { "base00"@ }
    else if i == 1 { "base01"@ }
    else if i == 2 { "base02"@ }
    else if i == 3 { "base03"@ }
    else if i == 4 { "base04"@ }
    else if i == 5 { "base05"@ }
    else if i == 6 { "base06"@ }
    else if i == 7 { "base07"@ }
    else if i == 8 { "base08"@ }
    else if i == 9 { "base09"@ }
    else if i == 10 { "base0A"@ }
    else if i == 11 { "base0B"@ }
    else if i == 12 { "base0C"@ }
    else if i == 13 { "base0D"@ }
    else if i == 14 { "base0E"@ }
    else { "base0F"@ }
}

/// Every slot name has six characters.
pub proof fn lemma_field_name_len(i: int)
    requires
        0 <= i < FIELD_COUNT,
    ensures
        spec_field_name(i).len() == 6,
{
    reveal_strlit("base00");
    reveal_strlit("base01");
    reveal_strlit("base02");
    reveal_strlit("base03");
    reveal_strlit("base04");
    reveal_strlit("base05");
    reveal_strlit("base06");
    reveal_strlit("base07");
    reveal_strlit("base08");
    reveal_strlit("base09");
    reveal_strlit("base0A");
    reveal_strlit("base0B");
    reveal_strlit("base0C");
    reveal_strlit("base0D");
    reveal_strlit("base0E");
    reveal_strlit("base0F");
}

/// The names of all slots, in enumeration order.
pub open spec fn spec_field_names() -> Seq<Seq<char>> {
    Seq::new(FIELD_COUNT as nat, |i: int| spec_field_name(i))
}

pub open spec fn is_hex_digit(c: char) -> bool {
    ('0' <= c && c <= '9') || ('a' <= c && c <= 'f') || ('A' <= c && c <= 'F')
}

/// `s` is `#` followed by 3, 4, 6 or 8 hex digits (either case).
pub open spec fn is_hex_color(s: Seq<char>) -> bool {
    let n = s.len() - 1;
    &&& s.len() >= 1
    &&& s[0] == '#'
    &&& (n == 3 || n == 4 || n == 6 || n == 8)
    &&& forall|i: int| 1 <= i < s.len() ==> is_hex_digit(#[trigger] s[i])
}

/// Relies on regex::Regex::new and regex::Regex::is_match. The one pattern
/// this library uses compiles, and it is anchored at both ends of the text
/// (`^`, `$`) with two alternatives that together accept `#` followed by 3, 6,
/// 4 or 8 ASCII hex digits and nothing else.
#[verifier::external_body]
fn regex_is_match(pattern: &str, text: &str) -> (r: bool)
    requires
        pattern@ == HEX_COLOR_PATTERN@,
    ensures
        r == is_hex_color(text@),
{
    regex::Regex::new(pattern).unwrap().is_match(text)
}

/// Whether `s` is a well-formed hex color.
pub fn is_valid_hex_color(s: &str) -> (r: bool)
    ensures
        r == is_hex_color(s@),
{
    regex_is_match(HEX_COLOR_PATTERN, s)
}

/// A base16 color scheme: sixteen named color strings.
#[allow(non_snake_case)]
#[derive(Clone, Debug)]
pub struct Colors {
    pub base00: String,
    pub base01: String,
    pub base02: String,
    pub base03: String,
    pub base04: String,
    pub base05: String,
    pub base06: String,
    pub base07: String,
    pub base08: String,
    pub base09: String,
    pub base0A: String,
    pub base0B: String,
    pub base0C: String,
    pub base0D: String,
    pub base0E: String,
    pub base0F: String,
}

impl Colors {
    /// The sixteen values, in enumeration order.
    pub open spec fn values(&self) -> Seq<Seq<char>> {
        seq![
            self.base00@, self.base01@, self.base02@, self.base03@,
            self.base04@, self.base05@, self.base06@, self.base07@,
            self.base08@, self.base09@, self.base0A@, self.base0B@,
            self.base0C@, self.base0D@, self.base0E@, self.base0F@,
        ]
    }

    /// The palette whose slots hold `v`, in enumeration order.
    pub fn from_values(v: Vec<String>) -> (r: Colors)
        requires
            v@.len() == FIELD_COUNT,
        ensures
            forall|i: int| 0 <= i < FIELD_COUNT ==> #[trigger] r.values()[i] == v@[i]@,
    {
        Colors {
            base00: v[0].clone(),
            base01: v[1].clone(),
            base02: v[2].clone(),
            base03: v[3].clone(),
            base04: v[4].clone(),
            base05: v[5].clone(),
            base06: v[6].clone(),
            base07: v[7].clone(),
            base08: v[8].clone(),
            base09: v[9].clone(),
            base0A: v[10].clone(),
            base0B: v[11].clone(),
            base0C: v[12].clone(),
            base0D: v[13].clone(),
            base0E: v[14].clone(),
            base0F: v[15].clone(),
        }
    }

    /// The value of slot `i`.
    pub fn field(&self, i: usize) -> (r: &String)
        requires
            i < FIELD_COUNT,
        ensures
            r@ == self.values()[i as int],
    {
        match i {
            0 => &self.base00,
            1 => &self.base01,
            2 => &self.base02,
            3 => &self.base03,
            4 => &self.base04,
            5 => &self.base05,
            6 => &self.base06,
            7 => &self.base07,
            8 => &self.base08,
            9 => &self.base09,
            10 => &self.base0A,
            11 => &self.base0B,
            12 => &self.base0C,
            13 => &self.base0D,
            14 => &self.base0E,
            _ => &self.base0F,
        }
    }
}

/// Name of slot `i`.
pub fn field_name(i: usize) -> (r: &'static str)
    requires
        i < FIELD_COUNT,
    ensures
        r@ == spec_field_name(i as int),
{
    match i {
        0 => "base00",
        1 => "base01",
        2 => "base02",
        3 => "base03",
        4 => "base04",
        5 => "base05",
        6 => "base06",
        7 => "base07",
        8 => "base08",
        9 => "base09",
        10 => "base0A",
        11 => "base0B",
        12 => "base0C",
        13 => "base0D",
        14 => "base0E",
        _ => "base0F",
    }
}

/// A palette slot whose value is not a hex color.
#[derive(Clone, Debug)]
pub struct ValidationError {
    pub field: String,
    pub value: String,
}

/// Every one of the sixteen values is a hex color.
pub open spec fn all_hex(values: Seq<Seq<char>>) -> bool {
    forall|i: int| 0 <= i < FIELD_COUNT ==> is_hex_color(#[trigger] values[i])
}

/// `e` names the first slot of `values`, in enumeration order, that is not a
/// hex color, with its raw value.
pub open spec fn names_first_invalid(values: Seq<Seq<char>>, e: ValidationError) -> bool {
    exists|i: int|
        0 <= i < FIELD_COUNT
        && !is_hex_color(#[trigger] values[i])
        && (forall|j: int| 0 <= j < i ==> is_hex_color(#[trigger] values[j]))
        && e.field@ == spec_field_name(i)
        && e.value@ == values[i]
}

/// Checks every slot in enumeration order and stops at the first that is not
/// a hex color, naming it and its raw value.
pub fn validate_hex_colors(colors: &Colors) -> (r: Result<(), ValidationError>)
    ensures
        r is Ok <==> all_hex(colors.values()),
        r matches Err(e) ==> names_first_invalid(colors.values(), e),
{
    let mut i: usize = 0;
    while i < FIELD_COUNT
        invariant
            i <= FIELD_COUNT,
            forall|j: int| 0 <= j < i ==> is_hex_color(#[trigger] colors.values()[j]),
        decreases FIELD_COUNT - i,
    {
        let value = colors.field(i);
        if !is_valid_hex_color(value.as_str()) {
            return Err(ValidationError { field: field_name(i).to_string(), value: value.clone() });
        }
        i = i + 1;
    }
    Ok(())
}

} // verus!
