use vstd::prelude::*;

verus! {

/// Error produced when a command-line value cannot be parsed.
#[derive(Clone, Debug)]
pub struct ParseError {
    description: String,
}

impl ParseError {
    pub closed spec fn view(&self) -> Seq<char> {
        self.description@
    }

    pub fn new(description: &str) -> (r: Self)
        ensures
            r@ == description@,
    {
        ParseError { description: description.to_owned() }
    }

    /// The text that describes the error.
    pub fn description(&self) -> (r: String)
        ensures
            r@ == self@,
    {
        self.description.clone()
    }

    /// Error for an integer value outside `0..=max_value`.
    pub fn from_integer_value(max_value: u64) -> (r: Self)
        ensures
            r@ == integer_value_message(max_value as nat),
    {
        let mut s = String::from_str("The value must be an integer between 0 and ");
        let digits = decimal_string(max_value);
        s.append(digits.as_str());
        s.append(" and can have '-' or '+' as prefix.");
        proof {
            assert(s@ =~= integer_value_message(max_value as nat));
        }
        ParseError { description: s }
    }
}

pub open spec fn integer_value_message(max_value: nat) -> Seq<char> {
    "The value must be an integer between 0 and "@ + decimal_text(max_value)
        + " and can have '-' or '+' as prefix."@
}

/// The character of a decimal digit.
pub open spec fn digit_char(d: nat) -> char {
    (('0' as u8) + d) as char
}

/// Decimal text of a natural number, without leading zeros.
pub open spec fn decimal_text(n: nat) -> Seq<char>
    decreases n,
{
    if n < 10 {
        seq![digit_char(n)]
    } else {
        decimal_text(n / 10).push(digit_char(n % 10))
    }
}

fn digit_string(d: u64) -> (r: &'static str)
    requires
        d < 10,
    ensures
        r@ == seq![digit_char(d as nat)],
{
    proof {
        reveal_strlit("0");
        reveal_strlit("1");
        reveal_strlit("2");
        reveal_strlit("3");
        reveal_strlit("4");
        reveal_strlit("5");
        reveal_strlit("6");
        reveal_strlit("7");
        reveal_strlit("8");
        reveal_strlit("9");
    }
    if d == 0 { "0" }
    else if d == 1 { "1" }
    else if d == 2 { "2" }
    else if d == 3 { "3" }
    else if d == 4 { "4" }
    else if d == 5 { "5" }
    else if d == 6 { "6" }
    else if d == 7 { "7" }
    else if d == 8 { "8" }
    else { "9" }
}

/// Writes `n` in decimal.
pub fn decimal_string(n: u64) -> (r: String)
    ensures
        r@ == decimal_text(n as nat),
    decreases n,
{
    if n < 10 {
        String::from_str(digit_string(n))
    } else {
        let mut s = decimal_string(n / 10);
        s.append(digit_string(n % 10));
        s
    }
}

/// How a value changes the current value of an attribute.
#[derive(Clone, Copy, Debug, PartialEq, Eq, Structural)]
pub enum Adjust {
    /// Replaces the current value.
    Override,
    /// Adds to the current value.
    Increment,
    /// Subtracts from the current value.
    Decrement,
}

pub open spec fn is_digit(c: char) -> bool {
    '0' <= c && c <= '9'
}

pub open spec fn all_digits(s: Seq<char>) -> bool {
    s.len() > 0 && forall|i: int| 0 <= i < s.len() ==> is_digit(#[trigger] s[i])
}

/// Value of a sequence of decimal digits.
pub open spec fn digits_value(s: Seq<char>) -> nat
    decreases s.len(),
{
    if s.len() == 0 {
        0
    } else {
        digits_value(s.drop_last()) * 10 + (s.last() as nat - '0' as nat) as nat
    }
}

/// The adjustment that a leading `+` or `-` selects.
pub open spec fn prefix_adjust(s: Seq<char>) -> Adjust {
    if s.len() > 0 && s[0] == '+' {
        Adjust::Increment
    } else if s.len() > 0 && s[0] == '-' {
        Adjust::Decrement
    } else {
        Adjust::Override
    }
}

/// The text after the sign prefix, if any.
pub open spec fn unsigned_part(s: Seq<char>) -> Seq<char> {
    if prefix_adjust(s) == Adjust::Override {
        s
    } else {
        s.drop_first()
    }
}

/// Result of reading `s` as an optionally signed integer in `0..=max`.
pub open spec fn adjusted_value(s: Seq<char>, max: nat) -> Option<(nat, Adjust)> {
    let body = unsigned_part(s);
    if all_digits(body) && digits_value(body) <= max {
        Some((digits_value(body), prefix_adjust(s)))
    } else {
        None
    }
}

pub open spec fn min_nat(a: nat, b: nat) -> nat {
    if a <= b { a } else { b }
}

/// Reads `s` as an integer between 0 and `max`, with an optional `+` or `-` prefix that
/// makes the value relative.
pub fn parse_adjusted(s: &str, max: u64) -> (r: Result<(u64, Adjust), ParseError>)
    requires
        max < 0x1_0000_0000,
    ensures
        match adjusted_value(s@, max as nat) {
            Some(v) => r == Ok::<(u64, Adjust), ParseError>((v.0 as u64, v.1)),
            None => r is Err && r->Err_0@ == integer_value_message(max as nat),
        },
{
    let len = s.unicode_len();
    let mut adjust = Adjust::Override;
    let mut start: usize = 0;
    if len > 0 {
        let c = s.get_char(0);
        if c == '+' {
            adjust = Adjust::Increment;
            start = 1;
        } else if c == '-' {
            adjust = Adjust::Decrement;
            start = 1;
        }
    }
    let ghost body = unsigned_part(s@);
    assert(body =~= s@.subrange(start as int, len as int));
    if start >= len {
        assert(body.len() == 0);
        return Err(ParseError::from_integer_value(max));
    }
    let cap = max + 1;
    let mut v: u64 = 0;
    let mut i: usize = start;
    while i < len
        invariant
            start <= i <= len,
            len == s@.len(),
            start < len,
            body =~= s@.subrange(start as int, len as int),
            body == unsigned_part(s@),
            adjust == prefix_adjust(s@),
            cap == max + 1,
            max < 0x1_0000_0000,
            forall|k: int| 0 <= k < i - start ==> is_digit(#[trigger] body[k]),
            v as nat == min_nat(digits_value(body.take(i - start)), cap as nat),
        decreases len - i,
    {
        let c = s.get_char(i);
        if c < '0' || c > '9' {
            assert(!is_digit(body[i - start]));
            return Err(ParseError::from_integer_value(max));
        }
        let d = (c as u32 - '0' as u32) as u64;
        proof {
            let t = body.take(i - start + 1);
            assert(t.drop_last() =~= body.take(i - start));
            let a = digits_value(body.take(i - start));
            assert(digits_value(t) == a * 10 + d);
            assert(a * 10 >= a) by (nonlinear_arith);
            if a > max {
                assert(v * 10 >= v) by (nonlinear_arith);
            }
        }
        let w = v * 10 + d;
        v = if w > cap { cap } else { w };
        i = i + 1;
    }
    assert(body.take(len - start) =~= body);
    if v > max {
        Err(ParseError::from_integer_value(max))
    } else {
        Ok((v, adjust))
    }
}

/// Largest percentage.
pub const PERCENT_MAX: u64 = 100;

/// Largest hue.
pub const HUE_MAX: u64 = 65535;

/// Largest color temperature, in mired.
pub const COLOR_TEMPERATURE_MAX: u64 = 500;

/// Brightness in percent, with its adjustment.
#[derive(Clone, Copy, Debug, PartialEq, Eq, Structural)]
pub struct Brightness(pub u8, pub Adjust);

/// Saturation in percent, with its adjustment.
#[derive(Clone, Copy, Debug, PartialEq, Eq, Structural)]
pub struct Saturation(pub u8, pub Adjust);

/// Hue, with its adjustment.
#[derive(Clone, Copy, Debug, PartialEq, Eq, Structural)]
pub struct Hue(pub u16, pub Adjust);

/// Color temperature in mired, with its adjustment.
#[derive(Clone, Copy, Debug, PartialEq, Eq, Structural)]
pub struct ColorTemperature(pub u16, pub Adjust);

impl Brightness {
    pub fn parse(s: &str) -> (r: Result<Self, ParseError>)
        ensures
            match adjusted_value(s@, PERCENT_MAX as nat) {
                Some(v) => r == Ok::<Self, ParseError>(Brightness(v.0 as u8, v.1)),
                None => r is Err && r->Err_0@ == integer_value_message(PERCENT_MAX as nat),
            },
    {
        match parse_adjusted(s, PERCENT_MAX) {
            Ok((v, a)) => Ok(Brightness(v as u8, a)),
            Err(e) => Err(e),
        }
    }
}

impl Saturation {
    pub fn parse(s: &str) -> (r: Result<Self, ParseError>)
        ensures
            match adjusted_value(s@, PERCENT_MAX as nat) {
                Some(v) => r == Ok::<Self, ParseError>(Saturation(v.0 as u8, v.1)),
                None => r is Err && r->Err_0@ == integer_value_message(PERCENT_MAX as nat),
            },
    {
        match parse_adjusted(s, PERCENT_MAX) {
            Ok((v, a)) => Ok(Saturation(v as u8, a)),
            Err(e) => Err(e),
        }
    }
}

impl Hue {
    pub fn parse(s: &str) -> (r: Result<Self, ParseError>)
        ensures
            match adjusted_value(s@, HUE_MAX as nat) {
                Some(v) => r == Ok::<Self, ParseError>(Hue(v.0 as u16, v.1)),
                None => r is Err && r->Err_0@ == integer_value_message(HUE_MAX as nat),
            },
    {
        match parse_adjusted(s, HUE_MAX) {
            Ok((v, a)) => Ok(Hue(v as u16, a)),
            Err(e) => Err(e),
        }
    }
}

impl ColorTemperature {
    pub fn parse(s: &str) -> (r: Result<Self, ParseError>)
        ensures
            match adjusted_value(s@, COLOR_TEMPERATURE_MAX as nat) {
                Some(v) => r == Ok::<Self, ParseError>(ColorTemperature(v.0 as u16, v.1)),
                None => r is Err && r->Err_0@ == integer_value_message(
                    COLOR_TEMPERATURE_MAX as nat,
                ),
            },
    {
        match parse_adjusted(s, COLOR_TEMPERATURE_MAX) {
            Ok((v, a)) => Ok(ColorTemperature(v as u16, a)),
            Err(e) => Err(e),
        }
    }
}

/// A percentage on the bridge's scale of 0 to 254.
pub open spec fn bridge_level_of(percent: nat) -> nat {
    percent * 254 / 100
}

/// Converts a percentage (0 to 100) to the bridge's scale.
pub fn bridge_level(percent: u8) -> (r: u8)
    requires
        percent <= 100,
    ensures
        r as nat == bridge_level_of(percent as nat),
{
    assert(percent as nat * 254 / 100 <= 254) by (nonlinear_arith)
        requires percent <= 100;
    ((percent as u32 * 254) / 100) as u8
}

pub open spec fn is_hex_digit(c: char) -> bool {
    ('0' <= c && c <= '9') || ('a' <= c && c <= 'f') || ('A' <= c && c <= 'F')
}

/// Value of a hexadecimal digit, either case.
pub open spec fn hex_value(c: char) -> nat {
    if '0' <= c && c <= '9' {
        (c as nat - '0' as nat) as nat
    } else if 'a' <= c && c <= 'f' {
        (c as nat - 'a' as nat + 10) as nat
    } else {
        (c as nat - 'A' as nat + 10) as nat
    }
}

pub open spec fn is_hex_color(s: Seq<char>) -> bool {
    s.len() == 6 && forall|i: int| 0 <= i < 6 ==> is_hex_digit(#[trigger] s[i])
}

/// The byte that the two digits starting at `i` stand for.
pub open spec fn hex_byte(s: Seq<char>, i: int) -> nat {
    hex_value(s[i]) * 16 + hex_value(s[i + 1])
}

fn hex_digit(c: char) -> (r: Option<u8>)
    ensures
        is_hex_digit(c) ==> r == Some(hex_value(c) as u8),
        !is_hex_digit(c) ==> r is None,
{
    if '0' <= c && c <= '9' {
        Some((c as u32 - '0' as u32) as u8)
    } else if 'a' <= c && c <= 'f' {
        Some((c as u32 - 'a' as u32 + 10) as u8)
    } else if 'A' <= c && c <= 'F' {
        Some((c as u32 - 'A' as u32 + 10) as u8)
    } else {
        None
    }
}

/// A color given as six hexadecimal digits.
#[derive(Clone, Copy, Debug, PartialEq, Eq, Structural)]
pub struct ColorHex {
    pub red: u8,
    pub green: u8,
    pub blue: u8,
}

pub open spec fn hex_color_message() -> Seq<char> {
    "The value must be a hex color of 6 digits, for example 'ff00aa'."@
}

impl ColorHex {
    /// Reads exactly six hexadecimal digits, in either case.
    pub fn parse(s: &str) -> (r: Result<Self, ParseError>)
        ensures
            is_hex_color(s@) ==> r == Ok::<Self, ParseError>(
                ColorHex {
                    red: hex_byte(s@, 0) as u8,
                    green: hex_byte(s@, 2) as u8,
                    blue: hex_byte(s@, 4) as u8,
                },
            ),
            !is_hex_color(s@) ==> r is Err && r->Err_0@ == hex_color_message(),
    {
        let len = s.unicode_len();
        if len != 6 {
            return Err(ParseError::new(
                "The value must be a hex color of 6 digits, for example 'ff00aa'.",
            ));
        }
        let mut bytes: Vec<u8> = Vec::new();
        let mut i: usize = 0;
        while i < 6
            invariant
                len == s@.len() == 6,
                i % 2 == 0,
                i <= 6,
                bytes@.len() == i / 2,
                forall|k: int| 0 <= k < i ==> is_hex_digit(#[trigger] s@[k]),
                forall|k: int| 0 <= k < i / 2 ==> #[trigger] bytes@[k] == hex_byte(s@, 2 * k),
            decreases 6 - i,
        {
            let hi = hex_digit(s.get_char(i));
            let lo = hex_digit(s.get_char(i + 1));
            match (hi, lo) {
                (Some(h), Some(l)) => {
                    assert(h * 16 + l < 256);
                    bytes.push(h * 16 + l);
                },
                _ => {
                    return Err(ParseError::new(
                        "The value must be a hex color of 6 digits, for example 'ff00aa'.",
                    ));
                },
            }
            i = i + 2;
        }
        Ok(ColorHex { red: bytes[0], green: bytes[1], blue: bytes[2] })
    }
}

/// Alert effect of a light.
#[derive(Clone, Copy, Debug, PartialEq, Eq, Structural)]
pub enum Alert {
    Select,
    LSelect,
    Off,
}

/// Dynamic effect of a light.
#[derive(Clone, Copy, Debug, PartialEq, Eq, Structural)]
pub enum Effect {
    Colorloop,
    Off,
}

/// ASCII lower case of a character.
pub open spec fn lower(c: char) -> char {
    if 'A' <= c && c <= 'Z' {
        ((c as u8) + 32) as char
    } else {
        c
    }
}

/// Whether `s` equals `t` when ASCII letters are compared without case.
pub open spec fn equal_ignoring_case(s: Seq<char>, t: Seq<char>) -> bool {
    s.len() == t.len() && forall|i: int| 0 <= i < s.len() ==> lower(#[trigger] s[i]) == lower(t[i])
}

fn lower_char(c: char) -> (r: char)
    ensures
        r == lower(c),
{
    if 'A' <= c && c <= 'Z' {
        ((c as u8) + 32) as char
    } else {
        c
    }
}

fn eq_ignore_case(s: &str, t: &str) -> (r: bool)
    ensures
        r == equal_ignoring_case(s@, t@),
{
    let n = s.unicode_len();
    if n != t.unicode_len() {
        return false;
    }
    let mut i: usize = 0;
    while i < n
        invariant
            n == s@.len() == t@.len(),
            i <= n,
            forall|k: int| 0 <= k < i ==> lower(#[trigger] s@[k]) == lower(t@[k]),
        decreases n - i,
    {
        if lower_char(s.get_char(i)) != lower_char(t.get_char(i)) {
            return false;
        }
        i = i + 1;
    }
    true
}

pub open spec fn alert_message() -> Seq<char> {
    "The value must be one of 'select', 'lselect' or 'none'."@
}

pub open spec fn effect_message() -> Seq<char> {
    "The value must be one of 'colorloop' or 'none'."@
}

impl Alert {
    /// Names of the variants, in lower case.
    pub fn variants() -> (r: Vec<&'static str>)
        ensures
            r@.len() == 3,
            r@[0]@ == "select"@,
            r@[1]@ == "lselect"@,
            r@[2]@ == "none"@,
    {
        vec!["select", "lselect", "none"]
    }

    /// Reads a variant by name, ignoring case.
    pub fn parse(s: &str) -> (r: Result<Self, ParseError>)
        ensures
            equal_ignoring_case(s@, "select"@) ==> r == Ok::<Self, ParseError>(Alert::Select),
            equal_ignoring_case(s@, "lselect"@) ==> r == Ok::<Self, ParseError>(Alert::LSelect),
            equal_ignoring_case(s@, "none"@) ==> r == Ok::<Self, ParseError>(Alert::Off),
            !equal_ignoring_case(s@, "select"@) && !equal_ignoring_case(s@, "lselect"@)
                && !equal_ignoring_case(s@, "none"@) ==> r is Err && r->Err_0@
                == alert_message(),
    {
        proof {
            reveal_strlit("select");
            reveal_strlit("lselect");
            reveal_strlit("none");
        }
        if eq_ignore_case(s, "select") {
            Ok(Alert::Select)
        } else if eq_ignore_case(s, "lselect") {
            Ok(Alert::LSelect)
        } else if eq_ignore_case(s, "none") {
            Ok(Alert::Off)
        } else {
            Err(ParseError::new("The value must be one of 'select', 'lselect' or 'none'."))
        }
    }
}

impl Effect {
    /// Names of the variants, in lower case.
    pub fn variants() -> (r: Vec<&'static str>)
        ensures
            r@.len() == 2,
            r@[0]@ == "colorloop"@,
            r@[1]@ == "none"@,
    {
        vec!["colorloop", "none"]
    }

    /// Reads a variant by name, ignoring case.
    pub fn parse(s: &str) -> (r: Result<Self, ParseError>)
        ensures
            equal_ignoring_case(s@, "colorloop"@) ==> r == Ok::<Self, ParseError>(
                Effect::Colorloop,
            ),
            equal_ignoring_case(s@, "none"@) ==> r == Ok::<Self, ParseError>(Effect::Off),
            !equal_ignoring_case(s@, "colorloop"@) && !equal_ignoring_case(s@, "none"@) ==> r is Err
                && r->Err_0@ == effect_message(),
    {
        proof {
            reveal_strlit("colorloop");
            reveal_strlit("none");
        }
        if eq_ignore_case(s, "colorloop") {
            Ok(Effect::Colorloop)
        } else if eq_ignore_case(s, "none") {
            Ok(Effect::Off)
        } else {
            Err(ParseError::new("The value must be one of 'colorloop' or 'none'."))
        }
    }
}

/// A point of the color space, each coordinate as written on the command line.
#[derive(Clone, Debug)]
pub struct ColorCoordinates {
    pub x: String,
    pub y: String,
}

pub open spec fn coordinates_message() -> Seq<char> {
    "Exactly two color space coordinates must be given."@
}

pub open spec fn rgb_message() -> Seq<char> {
    "Exactly three values (red, green and blue) must be given."@
}

impl ColorCoordinates {
    /// Takes the two coordinates x and y; any other number of values is an error.
    pub fn from_values(values: &Vec<String>) -> (r: Result<Self, ParseError>)
        ensures
            values@.len() == 2 ==> r is Ok && r->Ok_0.x@ == values@[0]@ && r->Ok_0.y@
                == values@[1]@,
            values@.len() != 2 ==> r is Err && r->Err_0@ == coordinates_message(),
    {
        if values.len() != 2 {
            return Err(ParseError::new("Exactly two color space coordinates must be given."));
        }
        Ok(ColorCoordinates { x: values[0].clone(), y: values[1].clone() })
    }
}

/// A color given by its red, green and blue values.
#[derive(Clone, Copy, Debug, PartialEq, Eq, Structural)]
pub struct ColorRgb {
    pub red: u8,
    pub green: u8,
    pub blue: u8,
}

impl ColorRgb {
    /// Takes the three values red, green and blue; any other number of values is an error.
    pub fn from_values(values: &Vec<u8>) -> (r: Result<Self, ParseError>)
        ensures
            values@.len() == 3 ==> r == Ok::<Self, ParseError>(
                ColorRgb { red: values@[0], green: values@[1], blue: values@[2] },
            ),
            values@.len() != 3 ==> r is Err && r->Err_0@ == rgb_message(),
    {
        if values.len() != 3 {
            return Err(
                ParseError::new("Exactly three values (red, green and blue) must be given."),
            );
        }
        Ok(ColorRgb { red: values[0], green: values[1], blue: values[2] })
    }
}

/// Without a sign an integer in range is an absolute value; with `+` or `-` in front it is
/// the same magnitude, added or subtracted.
pub proof fn sign_selects_adjustment(digits: Seq<char>, max: nat)
    requires
        all_digits(digits),
        digits_value(digits) <= max,
    ensures
        adjusted_value(digits, max) == Some((digits_value(digits), Adjust::Override)),
        adjusted_value(seq!['+'] + digits, max) == Some(
            (digits_value(digits), Adjust::Increment),
        ),
        adjusted_value(seq!['-'] + digits, max) == Some(
            (digits_value(digits), Adjust::Decrement),
        ),
{
    assert((seq!['+'] + digits).drop_first() =~= digits);
    assert((seq!['-'] + digits).drop_first() =~= digits);
}

/// An integer above the maximum is rejected, with or without a sign.
pub proof fn out_of_range_rejected(digits: Seq<char>, max: nat)
    requires
        all_digits(digits),
        digits_value(digits) > max,
    ensures
        adjusted_value(digits, max) is None,
        adjusted_value(seq!['+'] + digits, max) is None,
        adjusted_value(seq!['-'] + digits, max) is None,
{
    assert((seq!['+'] + digits).drop_first() =~= digits);
    assert((seq!['-'] + digits).drop_first() =~= digits);
}

/// Text that starts with neither a sign nor a digit is rejected.
pub proof fn non_numeric_rejected(s: Seq<char>, max: nat)
    requires
        s.len() > 0,
        !is_digit(s[0]),
        s[0] != '+',
        s[0] != '-',
    ensures
        adjusted_value(s, max) is None,
{
}

proof fn lower_keeps_hex(c: char)
    ensures
        is_hex_digit(c) == is_hex_digit(lower(c)),
        is_hex_digit(c) ==> hex_value(c) == hex_value(lower(c)),
{
}

/// Hex colors that differ only in the case of their letters are read alike.
pub proof fn hex_color_ignores_case(s: Seq<char>, t: Seq<char>)
    requires
        equal_ignoring_case(s, t),
    ensures
        is_hex_color(s) == is_hex_color(t),
        is_hex_color(s) ==> hex_byte(s, 0) == hex_byte(t, 0) && hex_byte(s, 2) == hex_byte(t, 2)
            && hex_byte(s, 4) == hex_byte(t, 4),
{
    assert forall|i: int| 0 <= i < s.len() implies (is_hex_digit(s[i]) == is_hex_digit(t[i]))
        && (is_hex_digit(s[i]) ==> hex_value(s[i]) == hex_value(t[i])) by {
        lower_keeps_hex(s[i]);
        lower_keeps_hex(t[i]);
        assert(lower(s[i]) == lower(t[i]));
    }
    if is_hex_color(s) {
        assert forall|i: int| 0 <= i < 6 implies is_hex_digit(#[trigger] t[i]) by {
            assert(is_hex_digit(s[i]));
        }
    }
    if is_hex_color(t) {
        assert forall|i: int| 0 <= i < 6 implies is_hex_digit(#[trigger] s[i]) by {
            assert(is_hex_digit(t[i]));
        }
    }
    if is_hex_color(s) {
        assert(is_hex_digit(s[0]) && is_hex_digit(s[1]) && is_hex_digit(s[2]));
        assert(is_hex_digit(s[3]) && is_hex_digit(s[4]) && is_hex_digit(s[5]));
    }
}

} // verus!
