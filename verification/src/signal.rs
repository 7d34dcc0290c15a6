use vstd::prelude::*;
use vstd::utf8::is_ascii_chars;

use crate::error::{AppError, AppErrorView};
use crate::text::{joined, same_text};

verus! {

/// What `str::to_uppercase` gives for a string: its uppercase equivalent
/// under the Unicode `Uppercase` mapping (a character may expand into several).
pub uninterp spec fn uppercase_of(s: Seq<char>) -> Seq<char>;

/// The ASCII upper case of a character: `a` to `z` become `A` to `Z`;
/// every other character stays as it is.
pub open spec fn ascii_upper_char(c: char) -> char {
    if 'a' <= c && c <= 'z' {
        ((c as u32) - 32) as char
    } else {
        c
    }
}

/// The ASCII upper case of a text, character by character.
pub open spec fn ascii_upper(s: Seq<char>) -> Seq<char> {
    s.map_values(|c: char| ascii_upper_char(c))
}

/// Calls `str::to_uppercase`. Its result is named: the Unicode case tables
/// are too large to write down here. Of ASCII text it states what the
/// documentation of `to_uppercase` and `to_ascii_uppercase` gives: the
/// result is the text's ASCII upper case. Nothing is stated of other text.
#[verifier::external_body]
fn to_uppercase(s: &str) -> (r: String)
    ensures
        r@ == uppercase_of(s@),
        is_ascii_chars(s@) ==> r@ == ascii_upper(s@),
{
    s.to_uppercase()
}

pub open spec fn is_ascii_digit(c: char) -> bool {
    '0' <= c && c <= '9'
}

pub open spec fn all_ascii_digits(s: Seq<char>) -> bool {
    forall|i: int| 0 <= i < s.len() ==> is_ascii_digit(#[trigger] s[i])
}

/// The value of a string of decimal digits, most significant first.
pub open spec fn digits_value(s: Seq<char>) -> int
    decreases s.len(),
{
    if s.len() == 0 {
        0
    } else {
        digits_value(s.drop_last()) * 10 + (s.last() as int - '0' as int)
    }
}

/// The digits after an optional leading `+` or `-`.
pub open spec fn unsigned_part(s: Seq<char>) -> Seq<char> {
    if s.len() > 0 && (s[0] == '+' || s[0] == '-') {
        s.drop_first()
    } else {
        s
    }
}

/// What `i32::from_str` accepts: an optional `+` or `-`, then one or more
/// ASCII digits, whose value fits in an `i32`. Anything else is an error.
pub open spec fn parse_i32_spec(s: Seq<char>) -> Option<i32> {
    let body = unsigned_part(s);
    let magnitude = digits_value(body);
    let value = if s.len() > 0 && s[0] == '-' {
        -magnitude
    } else {
        magnitude
    };
    if body.len() > 0 && all_ascii_digits(body) && i32::MIN <= value <= i32::MAX {
        Some(value as i32)
    } else {
        None
    }
}

/// Calls `str::parse::<i32>` and keeps whether it succeeded and its value.
/// Contract: exactly `i32::from_str` as its documentation states it
/// (optional sign, ASCII digits only, no whitespace, overflow is an error).
#[verifier::external_body]
fn parse_i32(s: &str) -> (r: Option<i32>)
    ensures
        r == parse_i32_spec(s@),
{
    s.parse::<i32>().ok()
}

/// The signals known by name (with or without the `SIG` prefix) or by
/// their number, in upper case.
pub open spec fn named_signal(s: Seq<char>) -> Option<i32> {
    if s == "SIGHUP"@ || s == "HUP"@ || s == "1"@ {
        Some(1i32)
    } else if s == "SIGINT"@ || s == "INT"@ || s == "2"@ {
        Some(2i32)
    } else if s == "SIGQUIT"@ || s == "QUIT"@ || s == "3"@ {
        Some(3i32)
    } else if s == "SIGKILL"@ || s == "KILL"@ || s == "9"@ {
        Some(9i32)
    } else if s == "SIGTERM"@ || s == "TERM"@ || s == "15"@ {
        Some(15i32)
    } else if s == "SIGUSR1"@ || s == "USR1"@ || s == "10"@ {
        Some(10i32)
    } else if s == "SIGUSR2"@ || s == "USR2"@ || s == "12"@ {
        Some(12i32)
    } else {
        None
    }
}

/// The signal number that an upper-case signal text denotes: a known name,
/// or else any text that parses as an `i32`.
pub open spec fn signal_number(s: Seq<char>) -> Option<i32> {
    match named_signal(s) {
        Some(n) => Some(n),
        None => parse_i32_spec(s),
    }
}

/// Resolves an already upper-cased signal text to its number, or rejects it
/// with `BadRequest("invalid signal: <text>")`.
pub fn signal_from_upper(upper: &str) -> (r: Result<i32, AppError>)
    ensures
        r is Ok <==> signal_number(upper@) is Some,
        r matches Ok(n) ==> signal_number(upper@) == Some(n),
        r matches Err(e) ==> e@ == AppErrorView::BadRequest("invalid signal: "@ + upper@),
{
    if same_text(upper, "SIGHUP") || same_text(upper, "HUP") || same_text(upper, "1") {
        Ok(1)
    } else if same_text(upper, "SIGINT") || same_text(upper, "INT") || same_text(upper, "2") {
        Ok(2)
    } else if same_text(upper, "SIGQUIT") || same_text(upper, "QUIT") || same_text(upper, "3") {
        Ok(3)
    } else if same_text(upper, "SIGKILL") || same_text(upper, "KILL") || same_text(upper, "9") {
        Ok(9)
    } else if same_text(upper, "SIGTERM") || same_text(upper, "TERM") || same_text(upper, "15") {
        Ok(15)
    } else if same_text(upper, "SIGUSR1") || same_text(upper, "USR1") || same_text(upper, "10") {
        Ok(10)
    } else if same_text(upper, "SIGUSR2") || same_text(upper, "USR2") || same_text(upper, "12") {
        Ok(12)
    } else {
        match parse_i32(upper) {
            Some(n) => Ok(n),
            None => Err(AppError::BadRequest(joined("invalid signal: ", upper))),
        }
    }
}

/// Parses a signal given by name (`SIGTERM`, `term`, ...) or by number,
/// in any letter case: the text is upper-cased first, then resolved as
/// [`signal_from_upper`] does.
pub fn parse_signal(name: &str) -> (r: Result<i32, AppError>)
    ensures
        r is Ok <==> signal_number(uppercase_of(name@)) is Some,
        r matches Ok(n) ==> signal_number(uppercase_of(name@)) == Some(n),
        r matches Err(e) ==> e@ == AppErrorView::BadRequest(
            "invalid signal: "@ + uppercase_of(name@),
        ),
        is_ascii_chars(name@) ==> (r is Ok <==> signal_number(ascii_upper(name@)) is Some),
        is_ascii_chars(name@) ==> (r matches Ok(n) ==> signal_number(ascii_upper(name@)) == Some(
            n,
        )),
        is_ascii_chars(name@) ==> (r matches Err(e) ==> e@ == AppErrorView::BadRequest(
            "invalid signal: "@ + ascii_upper(name@),
        )),
{
    let upper = to_uppercase(name);
    signal_from_upper(upper.as_str())
}

/// A text that parses as an `i32` always denotes that very number: the
/// table of names never gives a number another meaning.
pub proof fn numbers_denote_themselves(s: Seq<char>)
    requires
        parse_i32_spec(s) is Some,
    ensures
        signal_number(s) == parse_i32_spec(s),
{
    reveal_strlit("SIGHUP");
    reveal_strlit("HUP");
    reveal_strlit("1");
    reveal_strlit("SIGINT");
    reveal_strlit("INT");
    reveal_strlit("2");
    reveal_strlit("SIGQUIT");
    reveal_strlit("QUIT");
    reveal_strlit("3");
    reveal_strlit("SIGKILL");
    reveal_strlit("KILL");
    reveal_strlit("9");
    reveal_strlit("SIGTERM");
    reveal_strlit("TERM");
    reveal_strlit("15");
    reveal_strlit("SIGUSR1");
    reveal_strlit("USR1");
    reveal_strlit("10");
    reveal_strlit("SIGUSR2");
    reveal_strlit("USR2");
    reveal_strlit("12");
    if named_signal(s) is Some {
        assert(unsigned_part(s) == s);
        reveal_with_fuel(digits_value, 3);
        if s.len() == 1 {
            assert(s.drop_last() =~= Seq::<char>::empty());
        } else {
            assert(s.drop_last().drop_last() =~= Seq::<char>::empty());
        }
    }
}

/// Upper-casing an ASCII text twice is upper-casing it once, and keeps it
/// ASCII: so an ASCII signal name denotes the same signal whatever the case
/// of its letters (see [`parse_signal`]).
pub proof fn ascii_upper_is_idempotent(s: Seq<char>)
    requires
        is_ascii_chars(s),
    ensures
        is_ascii_chars(ascii_upper(s)),
        ascii_upper(ascii_upper(s)) == ascii_upper(s),
{
    assert(ascii_upper(ascii_upper(s)) =~= ascii_upper(s));
}

/// Each signal name, with or without its `SIG` prefix, denotes the number
/// of the signal of that name: HUP 1, INT 2, QUIT 3, KILL 9, TERM 15,
/// USR1 10, USR2 12.
pub proof fn signal_names_denote_their_numbers()
    ensures
        signal_number("SIGHUP"@) == Some(1i32),
        signal_number("HUP"@) == Some(1i32),
        signal_number("SIGINT"@) == Some(2i32),
        signal_number("INT"@) == Some(2i32),
        signal_number("SIGQUIT"@) == Some(3i32),
        signal_number("QUIT"@) == Some(3i32),
        signal_number("SIGKILL"@) == Some(9i32),
        signal_number("KILL"@) == Some(9i32),
        signal_number("SIGTERM"@) == Some(15i32),
        signal_number("TERM"@) == Some(15i32),
        signal_number("SIGUSR1"@) == Some(10i32),
        signal_number("USR1"@) == Some(10i32),
        signal_number("SIGUSR2"@) == Some(12i32),
        signal_number("USR2"@) == Some(12i32),
{
    reveal_strlit("SIGHUP");
    reveal_strlit("HUP");
    reveal_strlit("1");
    reveal_strlit("SIGINT");
    reveal_strlit("INT");
    reveal_strlit("2");
    reveal_strlit("SIGQUIT");
    reveal_strlit("QUIT");
    reveal_strlit("3");
    reveal_strlit("SIGKILL");
    reveal_strlit("KILL");
    reveal_strlit("9");
    reveal_strlit("SIGTERM");
    reveal_strlit("TERM");
    reveal_strlit("15");
    reveal_strlit("SIGUSR1");
    reveal_strlit("USR1");
    reveal_strlit("10");
    reveal_strlit("SIGUSR2");
    reveal_strlit("USR2");
    reveal_strlit("12");
    assert("SIGINT"@[3] != "SIGHUP"@[3]);
    assert("INT"@[0] != "HUP"@[0]);
    assert("2"@[0] != "1"@[0]);
    assert("3"@[0] != "1"@[0]);
    assert("3"@[0] != "2"@[0]);
    assert("SIGKILL"@[3] != "SIGQUIT"@[3]);
    assert("KILL"@[0] != "QUIT"@[0]);
    assert("9"@[0] != "1"@[0]);
    assert("9"@[0] != "2"@[0]);
    assert("9"@[0] != "3"@[0]);
    assert("SIGTERM"@[3] != "SIGQUIT"@[3]);
    assert("SIGTERM"@[3] != "SIGKILL"@[3]);
    assert("TERM"@[0] != "QUIT"@[0]);
    assert("TERM"@[0] != "KILL"@[0]);
    assert("SIGUSR1"@[3] != "SIGQUIT"@[3]);
    assert("SIGUSR1"@[3] != "SIGKILL"@[3]);
    assert("SIGUSR1"@[3] != "SIGTERM"@[3]);
    assert("USR1"@[0] != "QUIT"@[0]);
    assert("USR1"@[0] != "KILL"@[0]);
    assert("USR1"@[0] != "TERM"@[0]);
    assert("10"@[1] != "15"@[1]);
    assert("SIGUSR2"@[3] != "SIGQUIT"@[3]);
    assert("SIGUSR2"@[3] != "SIGKILL"@[3]);
    assert("SIGUSR2"@[3] != "SIGTERM"@[3]);
    assert("SIGUSR2"@[6] != "SIGUSR1"@[6]);
    assert("USR2"@[0] != "QUIT"@[0]);
    assert("USR2"@[0] != "KILL"@[0]);
    assert("USR2"@[0] != "TERM"@[0]);
    assert("USR2"@[3] != "USR1"@[3]);
    assert("12"@[1] != "15"@[1]);
    assert("12"@[1] != "10"@[1]);
}

} // verus!
