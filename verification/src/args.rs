use vstd::prelude::*;

use crate::duration::{Duration, MAX_SECONDS};
use crate::text::{
    all_ascii, all_ascii_digits, ascii_lower, ascii_lowered, ascii_upper, ascii_uppered,
    chars_eq_ignore_ascii_case, chars_equal, chars_of, digits_value,
    eq_ignore_ascii_case, is_ascii_digit, string_from_chars, trim_chars, trimmed,
};

verus! {

/// Seconds in one unit of a duration suffix: `s`, `m`, `h` or `d`, in either
/// case; 0 for any other character.
pub open spec fn unit_seconds(c: char) -> int {
    if c == 's' || c == 'S' {
        1
    } else if c == 'm' || c == 'M' {
        60
    } else if c == 'h' || c == 'H' {
        3600
    } else if c == 'd' || c == 'D' {
        86400
    } else {
        0
    }
}

/// Whether a text has the shape of a duration: one or more ASCII digits
/// followed by a unit suffix.
pub open spec fn duration_syntax(s: Seq<char>) -> bool {
    &&& s.len() >= 2
    &&& all_ascii_digits(s.drop_last())
    &&& unit_seconds(s.last()) > 0
}

/// The number written before the unit suffix of a duration.
pub open spec fn duration_count(s: Seq<char>) -> nat {
    digits_value(s.drop_last())
}

/// What a duration text means: its length in milliseconds, or the error text.
/// A text that is not digits and a unit is invalid; one whose number does
/// not fit an `i64`, or whose span exceeds the range of a `Duration`, is too
/// large.
pub open spec fn duration_meaning(s: Seq<char>) -> Result<int, Seq<char>> {
    if !duration_syntax(s) {
        Err(s + " is not a valid duration"@)
    } else if duration_count(s) > i64::MAX || duration_count(s) * unit_seconds(s.last())
        > MAX_SECONDS {
        Err("Duration is too large: "@ + s)
    } else {
        Ok(duration_count(s) * unit_seconds(s.last()) * 1000)
    }
}

fn unit_seconds_of(c: char) -> (r: i64)
    ensures
        r == unit_seconds(c),
{
    if c == 's' || c == 'S' {
        1
    } else if c == 'm' || c == 'M' {
        60
    } else if c == 'h' || c == 'H' {
        3600
    } else if c == 'd' || c == 'D' {
        86400
    } else {
        0
    }
}

fn is_ascii_digit_char(c: char) -> (r: bool)
    ensures
        r == is_ascii_digit(c),
{
    '0' <= c && c <= '9'
}

/// The value of a run of ASCII digits, or `None` when it exceeds `i64::MAX`.
fn digits_to_i64(v: &Vec<char>, end: usize) -> (r: Option<i64>)
    requires
        end <= v@.len(),
        all_ascii_digits(v@.take(end as int)),
    ensures
        r is Some <==> digits_value(v@.take(end as int)) <= i64::MAX,
        r matches Some(n) ==> n == digits_value(v@.take(end as int)),
{
    let mut num: i64 = 0;
    let mut overflow = false;
    let mut i: usize = 0;
    while i < end
        invariant
            end <= v@.len(),
            i <= end,
            all_ascii_digits(v@.take(end as int)),
            overflow ==> digits_value(v@.take(i as int)) > i64::MAX,
            !overflow ==> num == digits_value(v@.take(i as int)),
            num >= 0,
        decreases end - i,
    {
        assert(v@.take(i + 1).drop_last() =~= v@.take(i as int));
        assert(v@.take(end as int)[i as int] == v@[i as int]);
        let d = (v[i] as u32 - 48) as i64;
        assert(0 <= d <= 9);
        if !overflow {
            if num > (i64::MAX - d) / 10 {
                assert(num * 10 + d > i64::MAX) by (nonlinear_arith)
                    requires
                        num > (i64::MAX - d) / 10,
                        0 <= d <= 9,
                ;
                overflow = true;
            } else {
                assert(num * 10 + d <= i64::MAX) by (nonlinear_arith)
                    requires
                        num <= (i64::MAX - d) / 10,
                        0 <= d <= 9,
                        num >= 0,
                ;
                num = num * 10 + d;
            }
        }
        i += 1;
    }
    if overflow {
        None
    } else {
        Some(num)
    }
}

/// Parse a duration such as `10s`, `5m`, `2h` or `1d` (the unit in either case).
pub fn parse_duration(s: &str) -> (r: Result<Duration, String>)
    ensures
        r is Ok <==> duration_meaning(s@) is Ok,
        r matches Ok(d) ==> d@ == duration_meaning(s@)->Ok_0,
        r matches Err(e) ==> e@ == duration_meaning(s@)->Err_0,
{
    let v = chars_of(s);
    let n = v.len();
    let unit = if n >= 2 {
        unit_seconds_of(v[n - 1])
    } else {
        0
    };
    let mut digits_ok = n >= 2;
    let mut i: usize = 0;
    while digits_ok && i < n - 1
        invariant
            v@ == s@,
            n == v@.len(),
            digits_ok ==> n >= 2 && i <= n - 1 && all_ascii_digits(v@.take(i as int)),
            !digits_ok ==> !duration_syntax(s@),
        decreases (if digits_ok { n - i + 1 } else { 0 }),
    {
        assert(v@.take(i + 1) =~= v@.take(i as int).push(v@[i as int]));
        if !is_ascii_digit_char(v[i]) {
            assert(v@.drop_last()[i as int] == v@[i as int]);
            digits_ok = false;
        } else {
            i += 1;
        }
    }
    if !digits_ok || unit == 0 {
        let mut e = String::from_str(s);
        e.append(" is not a valid duration");
        return Err(e);
    }
    assert(v@.take(n - 1) =~= v@.drop_last());
    let too_large = {
        let mut e = String::from_str("Duration is too large: ");
        e.append(s);
        e
    };
    let num = match digits_to_i64(&v, n - 1) {
        Some(num) => num,
        None => {
            return Err(too_large);
        },
    };
    let last = v[n - 1];
    let duration = if last == 's' || last == 'S' {
        Duration::try_seconds(num)
    } else if last == 'm' || last == 'M' {
        Duration::try_minutes(num)
    } else if last == 'h' || last == 'H' {
        Duration::try_hours(num)
    } else {
        Duration::try_days(num)
    };
    match duration {
        Some(d) => Ok(d),
        None => Err(too_large),
    }
}

/// The digits of an unsigned number as `str::parse` reads them: an optional
/// leading `+`, then the rest.
pub open spec fn unsigned_digits(s: Seq<char>) -> Seq<char> {
    if s.len() > 0 && s[0] == '+' {
        s.drop_first()
    } else {
        s
    }
}

/// Whether `str::parse::<u16>` accepts a text: one or more ASCII digits,
/// after an optional `+`, whose value fits a `u16`.
pub open spec fn parses_as_u16(s: Seq<char>) -> bool {
    &&& unsigned_digits(s).len() > 0
    &&& all_ascii_digits(unsigned_digits(s))
    &&& digits_value(unsigned_digits(s)) <= u16::MAX
}

/// What a clock size text means: the size, or the error text.
pub open spec fn size_meaning(s: Seq<char>) -> Result<int, Seq<char>> {
    if !parses_as_u16(s) {
        Err("Invalid clock size: "@ + s)
    } else if digits_value(unsigned_digits(s)) == 0 {
        Err("Clock size must be at least 1"@)
    } else {
        Ok(digits_value(unsigned_digits(s)) as int)
    }
}

/// Parse the clock size, a positive integer.
pub fn parse_size(s: &str) -> (r: Result<u16, String>)
    ensures
        r is Ok <==> size_meaning(s@) is Ok,
        r matches Ok(n) ==> n == size_meaning(s@)->Ok_0,
        r matches Err(e) ==> e@ == size_meaning(s@)->Err_0,
{
    let v = chars_of(s);
    let n = v.len();
    let start: usize = if n > 0 && v[0] == '+' {
        1
    } else {
        0
    };
    let ghost digits = unsigned_digits(s@);
    assert(digits =~= v@.subrange(start as int, n as int));
    let mut ok = start < n;
    let mut value: u32 = 0;
    let mut i: usize = start;
    while ok && i < n
        invariant
            v@ == s@,
            n == v@.len(),
            start <= i <= n,
            digits == v@.subrange(start as int, n as int),
            digits == unsigned_digits(s@),
            ok ==> start < n && value == digits_value(v@.subrange(start as int, i as int))
                && all_ascii_digits(v@.subrange(start as int, i as int)) && value <= u16::MAX,
            !ok ==> !parses_as_u16(s@),
        decreases n - i,
    {
        let c = v[i];
        assert(v@.subrange(start as int, i + 1).drop_last() =~= v@.subrange(start as int, i as int));
        assert(digits[i - start] == c);
        if !is_ascii_digit_char(c) {
            assert(!all_ascii_digits(digits));
            ok = false;
        } else {
            let d = (c as u32) - 48;
            let next = value * 10 + d;
            if next > 65535 {
                proof {
                    let sub = v@.subrange(start as int, i + 1);
                    assert(sub.drop_last() =~= v@.subrange(start as int, i as int));
                    assert(sub.last() == c);
                    assert(digits_value(sub) == value * 10 + d);
                    if all_ascii_digits(digits) {
                        lemma_digits_value_prefix_le(digits, (i + 1 - start) as int);
                        assert(digits.take((i + 1 - start) as int) =~= sub);
                        assert(digits_value(digits) > u16::MAX);
                    }
                }
                ok = false;
            } else {
                value = next;
            }
        }
        i += 1;
    }
    let prefix = String::from_str("Invalid clock size: ");
    if !ok {
        let mut e = prefix;
        e.append(s);
        return Err(e);
    }
    assert(v@.subrange(start as int, n as int) =~= digits);
    if value == 0 {
        Err(String::from_str("Clock size must be at least 1"))
    } else {
        Ok(value as u16)
    }
}

/// The value of a run of digits is at least the value of any prefix of it.
proof fn lemma_digits_value_prefix_le(s: Seq<char>, k: int)
    requires
        0 <= k <= s.len(),
        all_ascii_digits(s),
    ensures
        digits_value(s.take(k)) <= digits_value(s),
    decreases s.len() - k,
{
    if k < s.len() {
        lemma_digits_value_prefix_le(s, k + 1);
        assert(s.take(k + 1).drop_last() =~= s.take(k));
        assert(s.take(k + 1).last() == s[k]);
    } else {
        assert(s.take(k) =~= s);
    }
}

/// Parse a theme name: the trimmed text, which must not be empty.
pub fn parse_theme_name(value: &str) -> (r: Result<String, String>)
    ensures
        trimmed(value@).len() > 0 ==> (r matches Ok(t) && t@ == trimmed(value@)),
        trimmed(value@).len() == 0 ==> (r matches Err(e) && e@ == "theme must not be empty"@),
{
    let theme = trim_chars(&chars_of(value));
    if theme.len() == 0 {
        Err(String::from_str("theme must not be empty"))
    } else {
        Ok(string_from_chars(&theme))
    }
}

/// The theme asked for first: the command line's, else the environment's,
/// trimmed; none when the one chosen is blank.
pub open spec fn requested_theme(cli: Option<Seq<char>>, env: Option<Seq<char>>) -> Option<Seq<char>> {
    let chosen = match cli {
        Some(c) => Some(c),
        None => env,
    };
    match chosen {
        Some(c) => if trimmed(c).len() > 0 {
            Some(trimmed(c))
        } else {
            None
        },
        None => None,
    }
}

/// The view of an optional string slice.
pub open spec fn str_view(s: Option<&str>) -> Option<Seq<char>> {
    match s {
        Some(s) => Some(s@),
        None => None,
    }
}

/// Whether a configured theme stays in the cycle behind the requested one:
/// it does unless it names the same theme, trimmed and compared without
/// ASCII case.
pub open spec fn keeps_theme(requested: Seq<char>) -> spec_fn(String) -> bool {
    |t: String| !eq_ignore_ascii_case(trimmed(t@), requested)
}

/// The theme cycle with the requested theme first: the configured themes
/// unchanged when none is requested; otherwise the requested name, then the
/// configured themes that do not name it, in their order.
pub open spec fn themes_in_order(requested: Option<Seq<char>>, configured: Seq<String>, r: Seq<String>) -> bool {
    &&& requested is None ==> r == configured
    &&& requested matches Some(q) ==> {
        &&& r.len() >= 1
        &&& r[0]@ == q
        &&& r.drop_first() == configured.filter(keeps_theme(q))
    }
    &&& requested matches Some(q) ==> forall|i: int|
        1 <= i < r.len() ==> !eq_ignore_ascii_case(trimmed(#[trigger] r[i]@), q)
}

/// Put the requested theme (command line, then environment) first in the
/// theme cycle, followed by the configured themes without it.
pub fn resolve_widget_themes(
    cli_theme: Option<&str>,
    env_theme: Option<&str>,
    configured_themes: Vec<String>,
) -> (r: Vec<String>)
    ensures
        themes_in_order(requested_theme(str_view(cli_theme), str_view(env_theme)), configured_themes@, r@),
{
    let chosen = match cli_theme {
        Some(c) => Some(c),
        None => env_theme,
    };
    let requested = match chosen {
        Some(c) => {
            let t = trim_chars(&chars_of(c));
            if t.len() > 0 {
                Some(t)
            } else {
                None
            }
        },
        None => None,
    };
    let requested = match requested {
        Some(q) => q,
        None => {
            return configured_themes;
        },
    };
    let ghost q = requested@;
    let ghost keep = keeps_theme(q);
    let mut themes: Vec<String> = Vec::new();
    themes.push(string_from_chars(&requested));
    let mut i: usize = 0;
    while i < configured_themes.len()
        invariant
            requested@ == q,
            keep == keeps_theme(q),
            i <= configured_themes@.len(),
            themes@.len() >= 1,
            themes@[0]@ == q,
            themes@.drop_first() == configured_themes@.take(i as int).filter(keep),
        decreases configured_themes.len() - i,
    {
        let theme = &configured_themes[i];
        let trimmed_theme = trim_chars(&chars_of(theme.as_str()));
        let same = chars_eq_ignore_ascii_case(&trimmed_theme, &requested);
        let ghost before = themes@;
        proof {
            reveal(Seq::filter);
            assert(configured_themes@.take(i + 1).drop_last() =~= configured_themes@.take(i as int));
            assert(configured_themes@.take(i + 1).last() == configured_themes@[i as int]);
        }
        if !same {
            themes.push(theme.clone());
            assert(themes@.drop_first() =~= before.drop_first().push(configured_themes@[i as int]));
        }
        i += 1;
    }
    assert(configured_themes@.take(configured_themes@.len() as int) =~= configured_themes@);
    proof {
        assert forall|i: int| 1 <= i < themes@.len() implies !eq_ignore_ascii_case(
            trimmed(#[trigger] themes@[i]@),
            q,
        ) by {
            configured_themes@.lemma_filter_pred(keep, i - 1);
            assert(themes@.drop_first()[i - 1] == themes@[i]);
        }
    }
    themes
}

/// A terminal color: one of the sixteen named colors, or a 24-bit color.
#[derive(Debug, Clone, Copy, PartialEq, Eq, Structural)]
pub enum Color {
    Black,
    Red,
    Green,
    Yellow,
    Blue,
    Magenta,
    Cyan,
    Gray,
    DarkGray,
    LightRed,
    LightGreen,
    LightYellow,
    LightBlue,
    LightMagenta,
    LightCyan,
    White,
    Rgb(u8, u8, u8),
}

/// The color a lowercase name stands for, if it is one of the sixteen names.
pub open spec fn named_color(s: Seq<char>) -> Option<Color> {
    if s == "black"@ {
        Some(Color::Black)
    } else if s == "red"@ {
        Some(Color::Red)
    } else if s == "green"@ {
        Some(Color::Green)
    } else if s == "yellow"@ {
        Some(Color::Yellow)
    } else if s == "blue"@ {
        Some(Color::Blue)
    } else if s == "magenta"@ {
        Some(Color::Magenta)
    } else if s == "cyan"@ {
        Some(Color::Cyan)
    } else if s == "gray"@ {
        Some(Color::Gray)
    } else if s == "darkgray"@ {
        Some(Color::DarkGray)
    } else if s == "lightred"@ {
        Some(Color::LightRed)
    } else if s == "lightgreen"@ {
        Some(Color::LightGreen)
    } else if s == "lightyellow"@ {
        Some(Color::LightYellow)
    } else if s == "lightblue"@ {
        Some(Color::LightBlue)
    } else if s == "lightmagenta"@ {
        Some(Color::LightMagenta)
    } else if s == "lightcyan"@ {
        Some(Color::LightCyan)
    } else if s == "white"@ {
        Some(Color::White)
    } else {
        None
    }
}

/// Whether a character is a lowercase hexadecimal digit.
pub open spec fn is_lower_hex(c: char) -> bool {
    ('0' <= c <= '9') || ('a' <= c <= 'f')
}

/// The value of a lowercase hexadecimal digit.
pub open spec fn hex_value(c: char) -> int {
    if '0' <= c <= '9' {
        c as int - 48
    } else {
        c as int - 87
    }
}

/// The color a `#rrggbb` text (lowercase hexadecimal) stands for.
pub open spec fn hex_color(s: Seq<char>) -> Option<Color> {
    if s.len() == 7 && s[0] == '#' && (forall|i: int| 1 <= i < 7 ==> is_lower_hex(#[trigger] s[i])) {
        Some(
            Color::Rgb(
                (hex_value(s[1]) * 16 + hex_value(s[2])) as u8,
                (hex_value(s[3]) * 16 + hex_value(s[4])) as u8,
                (hex_value(s[5]) * 16 + hex_value(s[6])) as u8,
            ),
        )
    } else {
        None
    }
}

/// What a lowercased color text means: a named color, a `#rrggbb` color, or
/// the error text.
pub open spec fn color_meaning(s: Seq<char>) -> Result<Color, Seq<char>> {
    match named_color(s) {
        Some(c) => Ok(c),
        None => match hex_color(s) {
            Some(c) => Ok(c),
            None => Err("Invalid color: "@ + s),
        },
    }
}

/// The lowercase form of a text as `str::to_lowercase` gives it (Unicode
/// lowercase mapping).
pub uninterp spec fn lowercase(s: Seq<char>) -> Seq<char>;

/// `str::to_lowercase`, whose result is named `lowercase`. On ASCII text
/// the Unicode lowercase mapping makes the capital letters `A` to `Z`
/// small and leaves every other character as it is.
#[verifier::external_body]
fn to_lowercase(s: &str) -> (r: String)
    ensures
        r@ == lowercase(s@),
        all_ascii(s@) ==> r@ == ascii_lowered(s@),
{
    s.to_lowercase()
}

fn hex_digit_value(c: char) -> (r: u8)
    requires
        is_lower_hex(c),
    ensures
        r == hex_value(c),
{
    if '0' <= c && c <= '9' {
        (c as u32 - 48) as u8
    } else {
        (c as u32 - 87) as u8
    }
}

fn is_lower_hex_char(c: char) -> (r: bool)
    ensures
        r == is_lower_hex(c),
{
    ('0' <= c && c <= '9') || ('a' <= c && c <= 'f')
}

/// The color a lowercased text names: one of the sixteen color names, or
/// `#rrggbb` in lowercase hexadecimal.
pub fn color_from_lowercase(s: &str) -> (r: Result<Color, String>)
    ensures
        r is Ok <==> color_meaning(s@) is Ok,
        r matches Ok(c) ==> c == color_meaning(s@)->Ok_0,
        r matches Err(e) ==> e@ == color_meaning(s@)->Err_0,
        s@ == "black"@ ==> r == Ok::<Color, String>(Color::Black),
        s@ == "red"@ ==> r == Ok::<Color, String>(Color::Red),
        s@ == "green"@ ==> r == Ok::<Color, String>(Color::Green),
        s@ == "yellow"@ ==> r == Ok::<Color, String>(Color::Yellow),
        s@ == "blue"@ ==> r == Ok::<Color, String>(Color::Blue),
        s@ == "magenta"@ ==> r == Ok::<Color, String>(Color::Magenta),
        s@ == "cyan"@ ==> r == Ok::<Color, String>(Color::Cyan),
        s@ == "gray"@ ==> r == Ok::<Color, String>(Color::Gray),
        s@ == "darkgray"@ ==> r == Ok::<Color, String>(Color::DarkGray),
        s@ == "lightred"@ ==> r == Ok::<Color, String>(Color::LightRed),
        s@ == "lightgreen"@ ==> r == Ok::<Color, String>(Color::LightGreen),
        s@ == "lightyellow"@ ==> r == Ok::<Color, String>(Color::LightYellow),
        s@ == "lightblue"@ ==> r == Ok::<Color, String>(Color::LightBlue),
        s@ == "lightmagenta"@ ==> r == Ok::<Color, String>(Color::LightMagenta),
        s@ == "lightcyan"@ ==> r == Ok::<Color, String>(Color::LightCyan),
        s@ == "white"@ ==> r == Ok::<Color, String>(Color::White),
{
    proof {
        lemma_color_name_letters();
    }
    let v = chars_of(s);
    if chars_equal(&v, "black") {
        return Ok(Color::Black);
    }
    if chars_equal(&v, "red") {
        return Ok(Color::Red);
    }
    if chars_equal(&v, "green") {
        return Ok(Color::Green);
    }
    if chars_equal(&v, "yellow") {
        return Ok(Color::Yellow);
    }
    if chars_equal(&v, "blue") {
        return Ok(Color::Blue);
    }
    if chars_equal(&v, "magenta") {
        return Ok(Color::Magenta);
    }
    if chars_equal(&v, "cyan") {
        return Ok(Color::Cyan);
    }
    if chars_equal(&v, "gray") {
        return Ok(Color::Gray);
    }
    if chars_equal(&v, "darkgray") {
        return Ok(Color::DarkGray);
    }
    if chars_equal(&v, "lightred") {
        return Ok(Color::LightRed);
    }
    if chars_equal(&v, "lightgreen") {
        return Ok(Color::LightGreen);
    }
    if chars_equal(&v, "lightyellow") {
        return Ok(Color::LightYellow);
    }
    if chars_equal(&v, "lightblue") {
        return Ok(Color::LightBlue);
    }
    if chars_equal(&v, "lightmagenta") {
        return Ok(Color::LightMagenta);
    }
    if chars_equal(&v, "lightcyan") {
        return Ok(Color::LightCyan);
    }
    if chars_equal(&v, "white") {
        return Ok(Color::White);
    }
    assert(named_color(s@) is None);
    if v.len() == 7 && v[0] == '#' {
        let mut all_hex = true;
        let mut i: usize = 1;
        while i < 7
            invariant
                v@ == s@,
                v@.len() == 7,
                1 <= i <= 7,
                all_hex ==> forall|j: int| 1 <= j < i ==> is_lower_hex(#[trigger] v@[j]),
                !all_hex ==> exists|j: int| 1 <= j < 7 && !is_lower_hex(#[trigger] v@[j]),
            decreases 7 - i,
        {
            if !is_lower_hex_char(v[i]) {
                all_hex = false;
            }
            i += 1;
        }
        if all_hex {
            let r = hex_digit_value(v[1]) * 16 + hex_digit_value(v[2]);
            let g = hex_digit_value(v[3]) * 16 + hex_digit_value(v[4]);
            let b = hex_digit_value(v[5]) * 16 + hex_digit_value(v[6]);
            return Ok(Color::Rgb(r, g, b));
        }
    }
    let mut e = String::from_str("Invalid color: ");
    e.append(s);
    Err(e)
}

/// Parse a color: one of the sixteen names in any case (`Black`, `Red`,
/// `Green`, `Yellow`, `Blue`, `Magenta`, `Cyan`, `Gray`, `DarkGray`,
/// `LightRed`, `LightGreen`, `LightYellow`, `LightBlue`, `LightMagenta`,
/// `LightCyan`, `White`), or a hexadecimal code `#RRGGBB`.
pub fn parse_color(s: &str) -> (r: Result<Color, String>)
    ensures
        r is Ok <==> color_meaning(lowercase(s@)) is Ok,
        r matches Ok(c) ==> c == color_meaning(lowercase(s@))->Ok_0,
        r matches Err(e) ==> e@ == color_meaning(lowercase(s@))->Err_0,
        all_ascii(s@) ==> (r is Ok <==> color_meaning(ascii_lowered(s@)) is Ok),
        all_ascii(s@) ==> (r matches Ok(c) ==> c == color_meaning(ascii_lowered(s@))->Ok_0),
        all_ascii(s@) ==> (r matches Err(e) ==> e@ == color_meaning(ascii_lowered(s@))->Err_0),
{
    let lower = to_lowercase(s);
    color_from_lowercase(lower.as_str())
}

/// The lengths and first letters that tell the color names apart.
proof fn lemma_color_name_letters()
    ensures
        "black"@.len() == 5 && "black"@[0] == 'b',
        "red"@.len() == 3 && "red"@[0] == 'r',
        "green"@.len() == 5 && "green"@[0] == 'g',
        "yellow"@.len() == 6 && "yellow"@[0] == 'y',
        "blue"@.len() == 4 && "blue"@[0] == 'b',
        "magenta"@.len() == 7 && "magenta"@[0] == 'm',
        "cyan"@.len() == 4 && "cyan"@[0] == 'c',
        "gray"@.len() == 4 && "gray"@[0] == 'g',
        "darkgray"@.len() == 8 && "darkgray"@[0] == 'd',
        "lightred"@.len() == 8 && "lightred"@[0] == 'l',
        "lightgreen"@.len() == 10 && "lightgreen"@[0] == 'l',
        "lightyellow"@.len() == 11 && "lightyellow"@[0] == 'l',
        "lightblue"@.len() == 9 && "lightblue"@[0] == 'l',
        "lightmagenta"@.len() == 12 && "lightmagenta"@[0] == 'l',
        "lightcyan"@.len() == 9 && "lightcyan"@[0] == 'l',
        "white"@.len() == 5 && "white"@[0] == 'w',
        "lightblue"@[5] == 'b' && "lightcyan"@[5] == 'c',
{
    reveal_strlit("black");
    reveal_strlit("red");
    reveal_strlit("green");
    reveal_strlit("yellow");
    reveal_strlit("blue");
    reveal_strlit("magenta");
    reveal_strlit("cyan");
    reveal_strlit("gray");
    reveal_strlit("darkgray");
    reveal_strlit("lightred");
    reveal_strlit("lightgreen");
    reveal_strlit("lightyellow");
    reveal_strlit("lightblue");
    reveal_strlit("lightmagenta");
    reveal_strlit("lightcyan");
    reveal_strlit("white");
}

/// Each of the sixteen color names reads as the color it names.
pub proof fn lemma_color_names()
    ensures
        color_meaning("black"@) == Ok::<Color, Seq<char>>(Color::Black),
        color_meaning("red"@) == Ok::<Color, Seq<char>>(Color::Red),
        color_meaning("green"@) == Ok::<Color, Seq<char>>(Color::Green),
        color_meaning("yellow"@) == Ok::<Color, Seq<char>>(Color::Yellow),
        color_meaning("blue"@) == Ok::<Color, Seq<char>>(Color::Blue),
        color_meaning("magenta"@) == Ok::<Color, Seq<char>>(Color::Magenta),
        color_meaning("cyan"@) == Ok::<Color, Seq<char>>(Color::Cyan),
        color_meaning("gray"@) == Ok::<Color, Seq<char>>(Color::Gray),
        color_meaning("darkgray"@) == Ok::<Color, Seq<char>>(Color::DarkGray),
        color_meaning("lightred"@) == Ok::<Color, Seq<char>>(Color::LightRed),
        color_meaning("lightgreen"@) == Ok::<Color, Seq<char>>(Color::LightGreen),
        color_meaning("lightyellow"@) == Ok::<Color, Seq<char>>(Color::LightYellow),
        color_meaning("lightblue"@) == Ok::<Color, Seq<char>>(Color::LightBlue),
        color_meaning("lightmagenta"@) == Ok::<Color, Seq<char>>(Color::LightMagenta),
        color_meaning("lightcyan"@) == Ok::<Color, Seq<char>>(Color::LightCyan),
        color_meaning("white"@) == Ok::<Color, Seq<char>>(Color::White),
{
    lemma_color_name_letters();
}

/// An ASCII color text means the same whatever the case of its letters:
/// its small-letter and its capital-letter forms are ASCII too and lower to
/// the same text, so `parse_color` gives the same result for all three.
pub proof fn lemma_color_case_insensitive(s: Seq<char>)
    requires
        all_ascii(s),
    ensures
        all_ascii(ascii_lowered(s)),
        all_ascii(ascii_uppered(s)),
        ascii_lowered(ascii_lowered(s)) == ascii_lowered(s),
        ascii_lowered(ascii_uppered(s)) == ascii_lowered(s),
{
    assert forall|i: int| 0 <= i < s.len() implies ascii_lower(ascii_lower(s[i])) == ascii_lower(
        s[i],
    ) && ascii_lower(ascii_upper(s[i])) == ascii_lower(s[i]) && (ascii_lower(s[i]) as u32) <= 127
        && (ascii_upper(s[i]) as u32) <= 127 by {
        let c = s[i];
        assert((c as u32) <= 127);
    }
    assert(ascii_lowered(ascii_lowered(s)) =~= ascii_lowered(s));
    assert(ascii_lowered(ascii_uppered(s)) =~= ascii_lowered(s));
}

/// A hexadecimal digit for a value below sixteen, the letters in capitals
/// or small.
pub open spec fn hex_char(v: int, upper: bool) -> char {
    if v < 10 {
        (v + 48) as char
    } else if upper {
        (v + 55) as char
    } else {
        (v + 87) as char
    }
}

/// The `#RRGGBB` text of a color, in capitals or small letters.
pub open spec fn hex_text(r: u8, g: u8, b: u8, upper: bool) -> Seq<char> {
    seq![
        '#',
        hex_char((r / 16) as int, upper),
        hex_char((r % 16) as int, upper),
        hex_char((g / 16) as int, upper),
        hex_char((g % 16) as int, upper),
        hex_char((b / 16) as int, upper),
        hex_char((b % 16) as int, upper),
    ]
}

proof fn lemma_hex_char(v: int, upper: bool)
    requires
        0 <= v < 16,
    ensures
        ascii_lower(hex_char(v, upper)) == hex_char(v, false),
        is_lower_hex(hex_char(v, false)),
        hex_value(hex_char(v, false)) == v,
        (hex_char(v, upper) as u32) <= 127,
{
}

/// Any `#RRGGBB` code reads back as its color, whether its letters are
/// capitals or small.
pub proof fn lemma_hex_color_round_trip(r: u8, g: u8, b: u8, upper: bool)
    ensures
        all_ascii(hex_text(r, g, b, upper)),
        color_meaning(ascii_lowered(hex_text(r, g, b, upper))) == Ok::<Color, Seq<char>>(
            Color::Rgb(r, g, b),
        ),
{
    let t = hex_text(r, g, b, upper);
    let low = ascii_lowered(t);
    lemma_hex_char((r / 16) as int, upper);
    lemma_hex_char((r % 16) as int, upper);
    lemma_hex_char((g / 16) as int, upper);
    lemma_hex_char((g % 16) as int, upper);
    lemma_hex_char((b / 16) as int, upper);
    lemma_hex_char((b % 16) as int, upper);
    assert(low == hex_text(r, g, b, false));
    assert(low.len() == 7 && low[0] == '#');
    reveal_strlit("black");
    reveal_strlit("red");
    reveal_strlit("green");
    reveal_strlit("yellow");
    reveal_strlit("blue");
    reveal_strlit("magenta");
    reveal_strlit("cyan");
    reveal_strlit("gray");
    reveal_strlit("darkgray");
    reveal_strlit("lightred");
    reveal_strlit("lightgreen");
    reveal_strlit("lightyellow");
    reveal_strlit("lightblue");
    reveal_strlit("lightmagenta");
    reveal_strlit("lightcyan");
    reveal_strlit("white");
    assert(low != "magenta"@) by {
        assert("magenta"@[0] == 'm');
    }
    assert(named_color(low) is None);
    assert(forall|i: int| 1 <= i < 7 ==> is_lower_hex(#[trigger] low[i]));
    assert(hex_value(low[1]) * 16 + hex_value(low[2]) == r as int);
    assert(hex_value(low[3]) * 16 + hex_value(low[4]) == g as int);
    assert(hex_value(low[5]) * 16 + hex_value(low[6]) == b as int);
}

} // verus!
