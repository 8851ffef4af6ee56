//! The values a lighting request is made of, and how they are read from text.

use vstd::prelude::*;
use vstd::string::*;
use vstd::utf8::is_ascii_chars;

use crate::hex::{
    hex_byte, hex_digits, hex_pair, hex_value, is_hex_digit, lemma_hex_digits, push_hex,
};
use crate::text::{ascii_lowercase, is_word, is_word_in_any_case, lowercase};

verus! {

/// Why a value was turned down.
#[derive(Clone, Copy, Debug, PartialEq, Eq)]
pub enum ValueError {
    /// The effect is not one of the seven names.
    Effect,
    /// The brightness is not one of the levels 1 to 5.
    Brightness,
    /// The color is neither a known name nor `#RRGGBB`.
    Color,
    /// The direction is neither `left` nor `right`.
    Direction,
    /// The speed is not one of the levels 1 to 5.
    Speed,
}

/// A color, as its red, green and blue parts.
#[derive(Clone, Copy, Debug, PartialEq, Eq)]
pub struct Color(pub u8, pub u8, pub u8);

/// Whether `text` is `#` followed by exactly six hexadecimal digits.
pub open spec fn is_hex_color(text: Seq<char>) -> bool {
    &&& text.len() == 7
    &&& text[0] == '#'
    &&& forall|i: int| 1 <= i < 7 ==> is_hex_digit(#[trigger] text[i])
}

/// The color that `text` names, whatever the case of its letters.
pub open spec fn named_color(text: Seq<char>) -> Option<Color> {
    let name = lowercase(text);
    if name == "red"@ {
        Some(Color(0xff, 0x00, 0x00))
    } else if name == "green"@ {
        Some(Color(0x00, 0xff, 0x00))
    } else if name == "blue"@ {
        Some(Color(0x00, 0x00, 0xff))
    } else {
        None
    }
}

impl Color {
    /// The color that `text` writes: text that begins with `#` must be
    /// `#RRGGBB`, other text must be the name of a color.
    pub open spec fn spec_parse(text: Seq<char>) -> Result<Color, ValueError> {
        if text.len() > 0 && text[0] == '#' {
            if is_hex_color(text) {
                Ok(
                    Color(
                        hex_byte(text[1], text[2]),
                        hex_byte(text[3], text[4]),
                        hex_byte(text[5], text[6]),
                    ),
                )
            } else {
                Err(ValueError::Color)
            }
        } else {
            match named_color(text) {
                Some(color) => Ok(color),
                None => Err(ValueError::Color),
            }
        }
    }

    /// Reads a color from `text`: `#RRGGBB` in hexadecimal, or one of the
    /// names `red`, `green` and `blue` in any case.
    pub fn parse(text: &str) -> (result: Result<Color, ValueError>)
        ensures
            result == Color::spec_parse(text@),
    {
        if text.is_ascii() {
            let bytes = text.as_bytes();
            proof {
                is_ascii_spec_bytes(text);
            }
            if bytes.len() > 0 && bytes[0] == '#' as u8 {
                if bytes.len() != 7 {
                    return Err(ValueError::Color);
                }
                return match (
                    hex_pair(bytes[1], bytes[2]),
                    hex_pair(bytes[3], bytes[4]),
                    hex_pair(bytes[5], bytes[6]),
                ) {
                    (Some(red), Some(green), Some(blue)) => Ok(Color(red, green, blue)),
                    _ => Err(ValueError::Color),
                };
            }
        }
        proof {
            reveal_strlit("red");
            reveal_strlit("green");
            reveal_strlit("blue");
            if text@.len() > 0 && text@[0] == '#' {
                // not ASCII, so not a color in hexadecimal; and not a name
                assert(is_hex_color(text@) ==> is_ascii_chars(text@));
                assert(lowercase(text@)[0] == '#');
            }
        }
        if is_word_in_any_case(text, "red") {
            Ok(Color(0xff, 0x00, 0x00))
        } else if is_word_in_any_case(text, "green") {
            Ok(Color(0x00, 0xff, 0x00))
        } else if is_word_in_any_case(text, "blue") {
            Ok(Color(0x00, 0x00, 0xff))
        } else {
            Err(ValueError::Color)
        }
    }

    /// The color written as `#RRGGBB`, in capital hexadecimal digits.
    pub open spec fn spec_hex(self) -> Seq<char> {
        seq!['#'] + hex_digits(self.0) + hex_digits(self.1) + hex_digits(self.2)
    }

    /// Writes the color as `#RRGGBB`, in capital hexadecimal digits.
    pub fn to_hex(&self) -> (text: String)
        ensures
            text@ == self.spec_hex(),
    {
        let mut text = "#".to_owned();
        proof {
            reveal_strlit("#");
        }
        push_hex(&mut text, self.0);
        push_hex(&mut text, self.1);
        push_hex(&mut text, self.2);
        text
    }
}

/// Text that begins with `#` writes a color exactly when it is `#` and six
/// hexadecimal digits. The digits then give, two by two, the red, the green
/// and the blue part: sixteen times the first digit plus the second.
pub proof fn lemma_hex_color(text: Seq<char>)
    requires
        text.len() > 0,
        text[0] == '#',
    ensures
        Color::spec_parse(text) is Ok <==> text.len() == 7 && forall|i: int|
            1 <= i < 7 ==> is_hex_digit(#[trigger] text[i]),
        Color::spec_parse(text) matches Ok(color) ==> {
            &&& color.0 == 16 * hex_value(text[1]) + hex_value(text[2])
            &&& color.1 == 16 * hex_value(text[3]) + hex_value(text[4])
            &&& color.2 == 16 * hex_value(text[5]) + hex_value(text[6])
        },
        Color::spec_parse(text) matches Err(error) ==> error == ValueError::Color,
{
}

/// Text that spells `red`, `green` or `blue`, in whatever case, writes that
/// color at its full strength and nothing of the other two.
pub proof fn lemma_named_colors(text: Seq<char>)
    ensures
        lowercase(text) == "red"@ ==> Color::spec_parse(text) == Ok::<Color, ValueError>(
            Color(255, 0, 0),
        ),
        lowercase(text) == "green"@ ==> Color::spec_parse(text) == Ok::<Color, ValueError>(
            Color(0, 255, 0),
        ),
        lowercase(text) == "blue"@ ==> Color::spec_parse(text) == Ok::<Color, ValueError>(
            Color(0, 0, 255),
        ),
{
    reveal_strlit("red");
    reveal_strlit("green");
    reveal_strlit("blue");
    assert("red"@.len() == 3 && "green"@.len() == 5 && "blue"@.len() == 4);
    if text.len() > 0 {
        assert(lowercase(text)[0] == ascii_lowercase(text[0]));
    }
}

/// The case of letters never matters: two texts that are the same but for
/// the case of their letters write the same color, or neither writes one.
pub proof fn lemma_color_ignores_case(a: Seq<char>, b: Seq<char>)
    requires
        lowercase(a) == lowercase(b),
    ensures
        Color::spec_parse(a) == Color::spec_parse(b),
{
    assert(a.len() == lowercase(a).len() == b.len());
    assert forall|i: int| 0 <= i < a.len() implies {
        &&& #[trigger] a[i] == '#' <==> b[i] == '#'
        &&& is_hex_digit(a[i]) <==> is_hex_digit(b[i])
        &&& is_hex_digit(a[i]) ==> hex_value(a[i]) == hex_value(b[i])
    } by {
        assert(lowercase(b)[i] == ascii_lowercase(b[i]));
    }
}

/// A color that is written out and read back is the same color.
pub proof fn lemma_color_round_trip(color: Color)
    ensures
        Color::spec_parse(color.spec_hex()) == Ok::<Color, ValueError>(color),
{
    let text = color.spec_hex();
    lemma_hex_digits(color.0);
    lemma_hex_digits(color.1);
    lemma_hex_digits(color.2);
    assert(text =~= seq![
        '#',
        hex_digits(color.0)[0],
        hex_digits(color.0)[1],
        hex_digits(color.1)[0],
        hex_digits(color.1)[1],
        hex_digits(color.2)[0],
        hex_digits(color.2)[1],
    ]);
}

/// What `clap`'s parser of whole numbers in a range makes of `text`, for the
/// range from `low` to `high`.
pub uninterp spec fn ranged_level(text: Seq<char>, low: u8, high: u8) -> Option<u8>;

/// Reads a whole number from `low` to `high` out of `text`.
///
/// The reading is done by `clap::builder::RangedI64ValueParser::<u8>`, through
/// its `parse_ref`. Assumed of it: the same text and bounds always give the
/// same answer, and a number that it hands back lies within the bounds.
#[verifier::external_body]
fn parse_level(text: &str, low: u8, high: u8) -> (level: Option<u8>)
    ensures
        level == ranged_level(text@, low, high),
        level matches Some(l) ==> low <= l <= high,
{
    let parser = clap::builder::RangedI64ValueParser::<u8>::new().range(
        i64::from(low)..=i64::from(high),
    );
    let command = clap::Command::new("");
    clap::builder::TypedValueParser::parse_ref(&parser, &command, None, text.as_ref()).ok()
}

/// The bytes that stand for the brightness levels 1 to 5, the dimmest first.
pub open spec fn brightness_table() -> Seq<u8> {
    seq![0x00, 0x08, 0x16, 0x24, 0x32]
}

/// How bright the backlight is: one of the levels 1 to 5, the dimmest first.
/// Where no brightness is given, the middle level stands in.
#[derive(Clone, Copy, Debug, PartialEq, Eq)]
pub struct Brightness {
    index: usize,
}

impl View for Brightness {
    type V = int;

    /// The level.
    closed spec fn view(&self) -> int {
        self.index + 1
    }
}

impl Brightness {
    #[verifier::type_invariant]
    spec fn in_table(self) -> bool {
        self.index < 5
    }

    /// The byte that stands for this brightness in a packet.
    pub open spec fn spec_value(self) -> u8 {
        brightness_table()[self@ - 1]
    }

    /// The brightness of level `level`, which must be one of 1 to 5.
    pub fn new(level: u8) -> (result: Result<Brightness, ValueError>)
        ensures
            match result {
                Ok(brightness) => {
                    &&& 1 <= level <= 5
                    &&& brightness@ == level
                    &&& brightness.spec_value() == brightness_table()[level - 1]
                },
                Err(error) => !(1 <= level <= 5) && error == ValueError::Brightness,
            },
    {
        if 1 <= level && level <= 5 {
            Ok(Brightness { index: (level - 1) as usize })
        } else {
            Err(ValueError::Brightness)
        }
    }

    /// Reads a brightness from `text`, which must write one of the levels 1
    /// to 5 as a whole number.
    pub fn parse(text: &str) -> (result: Result<Brightness, ValueError>)
        ensures
            match result {
                Ok(brightness) => ranged_level(text@, 1, 5) matches Some(level) && brightness@
                    == level,
                Err(error) => ranged_level(text@, 1, 5) is None && error == ValueError::Brightness,
            },
    {
        match parse_level(text, 1, 5) {
            Some(level) => Brightness::new(level),
            None => Err(ValueError::Brightness),
        }
    }

    /// The level of this brightness.
    pub fn level(&self) -> (level: u8)
        ensures
            level == self@,
            1 <= level <= 5,
    {
        proof {
            use_type_invariant(self);
        }
        (self.index + 1) as u8
    }

    /// The byte that stands for this brightness in a packet.
    pub fn value(&self) -> (byte: u8)
        ensures
            byte == self.spec_value(),
    {
        proof {
            use_type_invariant(self);
        }
        let values: [u8; 5] = [0x00, 0x08, 0x16, 0x24, 0x32];
        values[self.index]
    }

    /// The byte of this brightness written as `0x` and two capital hexadecimal
    /// digits.
    pub open spec fn spec_hex(self) -> Seq<char> {
        seq!['0', 'x'] + hex_digits(self.spec_value())
    }

    /// Writes the byte of this brightness as `0x` and two capital hexadecimal
    /// digits.
    pub fn to_hex(&self) -> (text: String)
        ensures
            text@ == self.spec_hex(),
    {
        let mut text = "0x".to_owned();
        proof {
            reveal_strlit("0x");
        }
        push_hex(&mut text, self.value());
        text
    }
}

impl Default for Brightness {
    /// The middle level, 3.
    fn default() -> (brightness: Brightness)
        ensures
            brightness@ == 3,
    {
        Brightness { index: 2 }
    }
}

/// The levels 1 to 5 of brightness stand for the bytes 0x00, 0x08, 0x16, 0x24
/// and 0x32, in this order.
pub proof fn lemma_brightness_bytes(brightness: Brightness)
    requires
        1 <= brightness@ <= 5,
    ensures
        brightness@ == 1 ==> brightness.spec_value() == 0x00,
        brightness@ == 2 ==> brightness.spec_value() == 0x08,
        brightness@ == 3 ==> brightness.spec_value() == 0x16,
        brightness@ == 4 ==> brightness.spec_value() == 0x24,
        brightness@ == 5 ==> brightness.spec_value() == 0x32,
{
}

/// The bytes that stand for the speed levels 1 to 5, the slowest first.
pub open spec fn speed_table() -> Seq<u8> {
    seq![0x0a, 0x07, 0x05, 0x03, 0x01]
}

/// How fast an effect runs: one of the levels 1 to 5, the slowest first.
#[derive(Clone, Copy, Debug, PartialEq, Eq)]
pub struct Speed {
    index: usize,
}

impl View for Speed {
    type V = int;

    /// The level.
    closed spec fn view(&self) -> int {
        self.index + 1
    }
}

impl Speed {
    #[verifier::type_invariant]
    spec fn in_table(self) -> bool {
        self.index < 5
    }

    /// The byte that stands for this speed in a packet.
    pub open spec fn spec_value(self) -> u8 {
        speed_table()[self@ - 1]
    }

    /// The speed of level `level`, which must be one of 1 to 5.
    pub fn new(level: u8) -> (result: Result<Speed, ValueError>)
        ensures
            match result {
                Ok(speed) => {
                    &&& 1 <= level <= 5
                    &&& speed@ == level
                    &&& speed.spec_value() == speed_table()[level - 1]
                },
                Err(error) => !(1 <= level <= 5) && error == ValueError::Speed,
            },
    {
        if 1 <= level && level <= 5 {
            Ok(Speed { index: (level - 1) as usize })
        } else {
            Err(ValueError::Speed)
        }
    }

    /// Reads a speed from `text`, which must write one of the levels 1 to 5
    /// as a whole number.
    pub fn parse(text: &str) -> (result: Result<Speed, ValueError>)
        ensures
            match result {
                Ok(speed) => ranged_level(text@, 1, 5) matches Some(level) && speed@ == level,
                Err(error) => ranged_level(text@, 1, 5) is None && error == ValueError::Speed,
            },
    {
        match parse_level(text, 1, 5) {
            Some(level) => Speed::new(level),
            None => Err(ValueError::Speed),
        }
    }

    /// The level of this speed.
    pub fn level(&self) -> (level: u8)
        ensures
            level == self@,
            1 <= level <= 5,
    {
        proof {
            use_type_invariant(self);
        }
        (self.index + 1) as u8
    }

    /// The byte that stands for this speed in a packet.
    pub fn value(&self) -> (byte: u8)
        ensures
            byte == self.spec_value(),
    {
        proof {
            use_type_invariant(self);
        }
        let values: [u8; 5] = [0x0a, 0x07, 0x05, 0x03, 0x01];
        values[self.index]
    }

    /// The byte of this speed written as `0x` and two capital hexadecimal
    /// digits.
    pub open spec fn spec_hex(self) -> Seq<char> {
        seq!['0', 'x'] + hex_digits(self.spec_value())
    }

    /// Writes the byte of this speed as `0x` and two capital hexadecimal
    /// digits.
    pub fn to_hex(&self) -> (text: String)
        ensures
            text@ == self.spec_hex(),
    {
        let mut text = "0x".to_owned();
        proof {
            reveal_strlit("0x");
        }
        push_hex(&mut text, self.value());
        text
    }
}

/// The levels 1 to 5 of speed stand for the bytes 0x0a, 0x07, 0x05, 0x03 and
/// 0x01, in this order.
pub proof fn lemma_speed_bytes(speed: Speed)
    requires
        1 <= speed@ <= 5,
    ensures
        speed@ == 1 ==> speed.spec_value() == 0x0a,
        speed@ == 2 ==> speed.spec_value() == 0x07,
        speed@ == 3 ==> speed.spec_value() == 0x05,
        speed@ == 4 ==> speed.spec_value() == 0x03,
        speed@ == 5 ==> speed.spec_value() == 0x01,
{
}

/// The higher the level of a speed, the lower its byte.
pub proof fn lemma_faster_is_lower(slower: Speed, faster: Speed)
    requires
        1 <= slower@ < faster@ <= 5,
    ensures
        faster.spec_value() < slower.spec_value(),
{
}

/// The way a moving effect travels across the keyboard.
#[derive(Clone, Copy, Debug, PartialEq, Eq)]
pub enum Direction {
    Left,
    Right,
}

impl Direction {
    /// The direction that `text` names: `left` or `right`, in small letters.
    pub open spec fn spec_parse(text: Seq<char>) -> Result<Direction, ValueError> {
        if text == "left"@ {
            Ok(Direction::Left)
        } else if text == "right"@ {
            Ok(Direction::Right)
        } else {
            Err(ValueError::Direction)
        }
    }

    /// The name of this direction.
    pub open spec fn spec_name(self) -> Seq<char> {
        match self {
            Direction::Left => "left"@,
            Direction::Right => "right"@,
        }
    }

    /// The name of this direction.
    pub fn name(&self) -> (name: &'static str)
        ensures
            name@ == self.spec_name(),
    {
        match self {
            Direction::Left => "left",
            Direction::Right => "right",
        }
    }

    /// Reads a direction from `text`, which must be `left` or `right`.
    pub fn parse(text: &str) -> (result: Result<Direction, ValueError>)
        ensures
            result == Direction::spec_parse(text@),
    {
        proof {
            reveal_strlit("left");
            reveal_strlit("right");
        }
        if is_word(text, "left") {
            Ok(Direction::Left)
        } else if is_word(text, "right") {
            Ok(Direction::Right)
        } else {
            Err(ValueError::Direction)
        }
    }

    /// The byte that stands for this direction in a packet.
    pub open spec fn spec_value(self) -> u8 {
        match self {
            Direction::Left => 0x01,
            Direction::Right => 0x02,
        }
    }

    /// The byte that stands for this direction in a packet.
    pub fn value(&self) -> (byte: u8)
        ensures
            byte == self.spec_value(),
    {
        match self {
            Direction::Left => 0x01,
            Direction::Right => 0x02,
        }
    }
}

/// The name of a direction is read as that direction.
pub proof fn lemma_direction_name_round_trip(direction: Direction)
    ensures
        Direction::spec_parse(direction.spec_name()) == Ok::<Direction, ValueError>(direction),
{
    reveal_strlit("left");
    reveal_strlit("right");
    assert("left"@.len() == 4 && "right"@.len() == 5);
}

/// The lighting effects of the keyboard.
#[derive(Clone, Copy, Debug, PartialEq, Eq)]
pub enum Effects {
    Mono,
    Breath,
    Wave,
    Rainbow,
    Flash,
    Mix,
    Disable,
}

impl Effects {
    /// The effect that `text` names: `mono`, `breath`, `wave`, `rainbow`,
    /// `flash`, `mix` or `disable`, in small letters.
    pub open spec fn spec_parse(text: Seq<char>) -> Result<Effects, ValueError> {
        if text == "mono"@ {
            Ok(Effects::Mono)
        } else if text == "breath"@ {
            Ok(Effects::Breath)
        } else if text == "wave"@ {
            Ok(Effects::Wave)
        } else if text == "rainbow"@ {
            Ok(Effects::Rainbow)
        } else if text == "flash"@ {
            Ok(Effects::Flash)
        } else if text == "mix"@ {
            Ok(Effects::Mix)
        } else if text == "disable"@ {
            Ok(Effects::Disable)
        } else {
            Err(ValueError::Effect)
        }
    }

    /// The name of this effect.
    pub open spec fn spec_name(self) -> Seq<char> {
        match self {
            Effects::Mono => "mono"@,
            Effects::Breath => "breath"@,
            Effects::Wave => "wave"@,
            Effects::Rainbow => "rainbow"@,
            Effects::Flash => "flash"@,
            Effects::Mix => "mix"@,
            Effects::Disable => "disable"@,
        }
    }

    /// The name of this effect.
    pub fn name(&self) -> (name: &'static str)
        ensures
            name@ == self.spec_name(),
    {
        match self {
            Effects::Mono => "mono",
            Effects::Breath => "breath",
            Effects::Wave => "wave",
            Effects::Rainbow => "rainbow",
            Effects::Flash => "flash",
            Effects::Mix => "mix",
            Effects::Disable => "disable",
        }
    }

    /// Reads an effect from `text`, which must be one of the seven names.
    pub fn parse(text: &str) -> (result: Result<Effects, ValueError>)
        ensures
            result == Effects::spec_parse(text@),
    {
        proof {
            reveal_strlit("mono");
            reveal_strlit("breath");
            reveal_strlit("wave");
            reveal_strlit("rainbow");
            reveal_strlit("flash");
            reveal_strlit("mix");
            reveal_strlit("disable");
        }
        if is_word(text, "mono") {
            Ok(Effects::Mono)
        } else if is_word(text, "breath") {
            Ok(Effects::Breath)
        } else if is_word(text, "wave") {
            Ok(Effects::Wave)
        } else if is_word(text, "rainbow") {
            Ok(Effects::Rainbow)
        } else if is_word(text, "flash") {
            Ok(Effects::Flash)
        } else if is_word(text, "mix") {
            Ok(Effects::Mix)
        } else if is_word(text, "disable") {
            Ok(Effects::Disable)
        } else {
            Err(ValueError::Effect)
        }
    }

    /// Whether the effect is shown in a color that must be given.
    pub open spec fn spec_needs_color(self) -> bool {
        self is Mono
    }

    /// Whether the effect travels in a direction that must be given.
    pub open spec fn spec_needs_direction(self) -> bool {
        self is Wave || self is Flash
    }

    /// Whether the effect runs at a speed that must be given.
    pub open spec fn spec_needs_speed(self) -> bool {
        self is Breath || self is Wave || self is Flash || self is Mix
    }

    /// Whether the effect is shown in a color that must be given.
    pub fn needs_color(&self) -> (needed: bool)
        ensures
            needed == self.spec_needs_color(),
    {
        match self {
            Effects::Mono => true,
            _ => false,
        }
    }

    /// Whether the effect travels in a direction that must be given.
    pub fn needs_direction(&self) -> (needed: bool)
        ensures
            needed == self.spec_needs_direction(),
    {
        match self {
            Effects::Wave | Effects::Flash => true,
            _ => false,
        }
    }

    /// Whether the effect runs at a speed that must be given.
    pub fn needs_speed(&self) -> (needed: bool)
        ensures
            needed == self.spec_needs_speed(),
    {
        match self {
            Effects::Breath | Effects::Wave | Effects::Flash | Effects::Mix => true,
            _ => false,
        }
    }
}

/// The name of an effect is read as that effect.
pub proof fn lemma_effect_name_round_trip(effect: Effects)
    ensures
        Effects::spec_parse(effect.spec_name()) == Ok::<Effects, ValueError>(effect),
{
    reveal_strlit("mono");
    reveal_strlit("breath");
    reveal_strlit("wave");
    reveal_strlit("rainbow");
    reveal_strlit("flash");
    reveal_strlit("mix");
    reveal_strlit("disable");
    assert("mono"@.len() == 4 && "mono"@[0] == 'm');
    assert("breath"@.len() == 6 && "breath"@[0] == 'b');
    assert("wave"@.len() == 4 && "wave"@[0] == 'w');
    assert("rainbow"@.len() == 7 && "rainbow"@[0] == 'r');
    assert("flash"@.len() == 5 && "flash"@[0] == 'f');
    assert("mix"@.len() == 3 && "mix"@[0] == 'm');
    assert("disable"@.len() == 7 && "disable"@[0] == 'd');
}

/// What a lighting request lacks for its effect.
#[derive(Clone, Copy, Debug, PartialEq, Eq)]
pub enum ValidationError {
    /// The effect needs a color and none was given.
    MissingColor,
    /// The effect needs a direction and none was given.
    MissingDirection,
    /// The effect needs a speed and none was given.
    MissingSpeed,
}

/// A lighting request: the effect, and what was given along with it.
#[derive(Clone, Copy, Debug, PartialEq, Eq)]
pub struct Arg {
    /// The effect to show.
    pub effect: Effects,
    /// Whether the controller is to keep the setting.
    pub save: bool,
    /// The brightness of the backlight.
    pub brightness: Brightness,
    /// The color, needed by `Mono`.
    pub color: Option<Color>,
    /// The direction, needed by `Wave` and `Flash`.
    pub direction: Option<Direction>,
    /// The speed, needed by `Breath`, `Wave`, `Flash` and `Mix`.
    pub speed: Option<Speed>,
}

impl Arg {
    /// The first thing that the request lacks for its effect: the color
    /// before the direction, the direction before the speed.
    pub open spec fn missing(self) -> Option<ValidationError> {
        if self.effect.spec_needs_color() && self.color is None {
            Some(ValidationError::MissingColor)
        } else if self.effect.spec_needs_direction() && self.direction is None {
            Some(ValidationError::MissingDirection)
        } else if self.effect.spec_needs_speed() && self.speed is None {
            Some(ValidationError::MissingSpeed)
        } else {
            None
        }
    }

    /// Tells whether everything the effect needs was given, and if not, what
    /// is missing. What the effect does not need may be given or not.
    pub fn validate(&self) -> (result: Result<(), ValidationError>)
        ensures
            match result {
                Ok(_) => self.missing() is None,
                Err(error) => self.missing() == Some(error),
            },
    {
        if self.effect.needs_color() && self.color.is_none() {
            Err(ValidationError::MissingColor)
        } else if self.effect.needs_direction() && self.direction.is_none() {
            Err(ValidationError::MissingDirection)
        } else if self.effect.needs_speed() && self.speed.is_none() {
            Err(ValidationError::MissingSpeed)
        } else {
            Ok(())
        }
    }
}

/// What each effect needs, and that it needs no more: `Mono` a color;
/// `Wave` and `Flash` a direction and a speed; `Breath` and `Mix` a speed;
/// `Rainbow` and `Disable` nothing.
pub proof fn lemma_needed_values(args: Arg)
    ensures
        args.effect is Mono ==> (args.missing() is None <==> args.color is Some),
        args.effect is Wave || args.effect is Flash ==> (args.missing() is None
            <==> args.direction is Some && args.speed is Some),
        args.effect is Breath || args.effect is Mix ==> (args.missing() is None
            <==> args.speed is Some),
        args.effect is Rainbow || args.effect is Disable ==> args.missing() is None,
{
}

} // verus!
