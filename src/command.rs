//! The interactive shell's command language: one command per line, words
//! separated by whitespace.
//!
//! ```text
//! pause | resume | stop | quit | q | exit | help | h
//! + <seconds> | - <seconds>      skip forward or back
//! ```
use vstd::prelude::*;
use vstd::string::{StrSliceExecFns, StringExecFns};

verus! {

/// A command typed at the shell.
#[derive(Clone, Copy, Debug, PartialEq, Eq, Structural)]
pub enum Command {
    Pause,
    Resume,
    Stop,
    /// Skip by this many seconds (back when negative).
    Advance { seconds: i64 },
    Quit,
    Help,
}

/// Whether `c` has the Unicode White_Space property, as `char::is_whitespace`
/// decides it.
pub open spec fn is_space(c: char) -> bool {
    let u = c as u32;
    (9 <= u <= 13) || u == 0x20 || u == 0x85 || u == 0xA0 || u == 0x1680 || (0x2000 <= u <= 0x200A)
        || u == 0x2028 || u == 0x2029 || u == 0x202F || u == 0x205F || u == 0x3000
}

/// First index at or after `i` that is not whitespace (or the length).
pub open spec fn skip_space(s: Seq<char>, i: int) -> int
    decreases s.len() - i,
{
    if i < 0 || i >= s.len() || !is_space(s[i]) {
        i
    } else {
        skip_space(s, i + 1)
    }
}

/// First index at or after `i` that is whitespace (or the length).
pub open spec fn word_end(s: Seq<char>, i: int) -> int
    decreases s.len() - i,
{
    if i < 0 || i >= s.len() || is_space(s[i]) {
        i
    } else {
        word_end(s, i + 1)
    }
}

pub open spec fn is_digit(c: char) -> bool {
    '0' <= c <= '9'
}

/// Decimal value of a string of digits.
pub open spec fn digits_value(d: Seq<char>) -> nat
    decreases d.len(),
{
    if d.len() == 0 {
        0
    } else {
        digits_value(d.drop_last()) * 10 + ((d.last() as u32) - ('0' as u32)) as nat
    }
}

/// The `i64` written as a sign (`negative`) followed by `d`: `d` must be a
/// non-empty string of decimal digits and the value must fit.
pub open spec fn signed_value(negative: bool, d: Seq<char>) -> Option<i64> {
    if d.len() > 0 && (forall|i: int| 0 <= i < d.len() ==> is_digit(#[trigger] d[i])) {
        let v: int = if negative {
            -(digits_value(d) as int)
        } else {
            digits_value(d) as int
        };
        if i64::MIN <= v <= i64::MAX {
            Some(v as i64)
        } else {
            None
        }
    } else {
        None
    }
}

/// The meaning of the line `s`: its first word names the command; `+` and
/// `-` take the second word as a number of seconds.
pub open spec fn parse_spec(s: Seq<char>) -> Result<Command, Seq<char>> {
    let a = skip_space(s, 0);
    let b = word_end(s, a);
    let w = s.subrange(a, b);
    if a >= s.len() {
        Err("Empty command"@)
    } else if w == "pause"@ {
        Ok(Command::Pause)
    } else if w == "resume"@ {
        Ok(Command::Resume)
    } else if w == "stop"@ {
        Ok(Command::Stop)
    } else if w == "+"@ || w == "-"@ {
        let c = skip_space(s, b);
        let d = word_end(s, c);
        if c >= s.len() {
            Err("Usage: +/- <seconds>. Enter a number after +/-"@)
        } else {
            match signed_value(w == "-"@, s.subrange(c, d)) {
                Some(v) => Ok(Command::Advance { seconds: v }),
                None => Err("Invalid number: "@ + s.subrange(c, d)),
            }
        }
    } else if w == "quit"@ || w == "q"@ || w == "exit"@ {
        Ok(Command::Quit)
    } else if w == "help"@ || w == "h"@ {
        Ok(Command::Help)
    } else {
        Err("Unknown command: "@ + w + ". Type 'help' for commands."@)
    }
}

fn is_space_char(c: char) -> (r: bool)
    ensures
        r == is_space(c),
{
    let u = c as u32;
    (9 <= u && u <= 13) || u == 0x20 || u == 0x85 || u == 0xA0 || u == 0x1680 || (0x2000 <= u && u
        <= 0x200A) || u == 0x2028 || u == 0x2029 || u == 0x202F || u == 0x205F || u == 0x3000
}

fn skip_space_from(s: &str, n: usize, i: usize) -> (r: usize)
    requires
        n == s@.len(),
        i <= n,
    ensures
        r as int == skip_space(s@, i as int),
        i <= r <= n,
{
    let mut j = i;
    while j < n && is_space_char(s.get_char(j))
        invariant
            i <= j <= n,
            n == s@.len(),
            skip_space(s@, i as int) == skip_space(s@, j as int),
        decreases n - j,
    {
        j = j + 1;
    }
    j
}

fn word_end_from(s: &str, n: usize, i: usize) -> (r: usize)
    requires
        n == s@.len(),
        i <= n,
    ensures
        r as int == word_end(s@, i as int),
        i <= r <= n,
{
    let mut j = i;
    while j < n && !is_space_char(s.get_char(j))
        invariant
            i <= j <= n,
            n == s@.len(),
            word_end(s@, i as int) == word_end(s@, j as int),
        decreases n - j,
    {
        j = j + 1;
    }
    j
}

/// Whether the characters of `s` from `from` to `to` spell `w`.
fn word_is(s: &str, from: usize, to: usize, w: &str) -> (r: bool)
    requires
        from <= to <= s@.len(),
    ensures
        r == (s@.subrange(from as int, to as int) == w@),
{
    let len = w.unicode_len();
    if to - from != len {
        return false;
    }
    let mut k: usize = 0;
    while k < len
        invariant
            from <= to <= s@.len(),
            to - from == len,
            len == w@.len(),
            0 <= k <= len,
            forall|j: int| 0 <= j < k ==> s@[from + j] == w@[j],
        decreases len - k,
    {
        if s.get_char(from + k) != w.get_char(k) {
            assert(s@.subrange(from as int, to as int)[k as int] != w@[k as int]);
            return false;
        }
        k = k + 1;
    }
    assert(s@.subrange(from as int, to as int) =~= w@);
    true
}

proof fn lemma_digits_value_prefix(d: Seq<char>, i: int, j: int)
    requires
        0 <= i <= j <= d.len(),
    ensures
        digits_value(d.subrange(0, i)) <= digits_value(d.subrange(0, j)),
    decreases j - i,
{
    if i < j {
        lemma_digits_value_prefix(d, i, j - 1);
        assert(d.subrange(0, j).drop_last() =~= d.subrange(0, j - 1));
    }
}

/// Reads `d` as a signed decimal (see `signed_value`).
fn parse_signed(negative: bool, d: &str) -> (r: Option<i64>)
    ensures
        r == signed_value(negative, d@),
{
    let n = d.unicode_len();
    if n == 0 {
        return None;
    }
    let limit: u64 = if negative {
        (i64::MAX as u64) + 1
    } else {
        i64::MAX as u64
    };
    let mut acc: u64 = 0;
    let mut k: usize = 0;
    while k < n
        invariant
            n == d@.len(),
            0 <= k <= n,
            limit == (if negative { 0x8000_0000_0000_0000u64 } else { 0x7fff_ffff_ffff_ffffu64 }),
            acc <= limit,
            acc as nat == digits_value(d@.subrange(0, k as int)),
            forall|j: int| 0 <= j < k ==> is_digit(#[trigger] d@[j]),
        decreases n - k,
    {
        let c = d.get_char(k);
        assert(d@.subrange(0, k + 1).drop_last() =~= d@.subrange(0, k as int));
        if !('0' <= c && c <= '9') {
            assert(!is_digit(d@[k as int]));
            return None;
        }
        let digit: u64 = (c as u32 - '0' as u32) as u64;
        if acc > (limit - digit) / 10 {
            proof {
                assert(acc * 10 + digit > limit) by (nonlinear_arith)
                    requires
                        acc > (limit - digit) / 10,
                        digit <= limit,
                ;
                lemma_digits_value_prefix(d@, k + 1, n as int);
                assert(d@.subrange(0, n as int) =~= d@);
            }
            return None;
        }
        assert(acc * 10 + digit <= limit) by (nonlinear_arith)
            requires
                acc <= (limit - digit) / 10,
                digit <= 9,
                limit >= 9,
        ;
        acc = acc * 10 + digit;
        k = k + 1;
    }
    assert(d@.subrange(0, n as int) =~= d@);
    if negative {
        if acc == limit {
            Some(i64::MIN)
        } else {
            Some(-(acc as i64))
        }
    } else {
        Some(acc as i64)
    }
}

impl Command {
    /// Parses one line typed at the shell.
    pub fn parse(input: &str) -> (r: Result<Command, String>)
        ensures
            match (r, parse_spec(input@)) {
                (Ok(c), Ok(e)) => c == e,
                (Err(m), Err(e)) => m@ == e,
                _ => false,
            },
    {
        let n = input.unicode_len();
        let a = skip_space_from(input, n, 0);
        let b = word_end_from(input, n, a);
        if a >= n {
            return Err("Empty command".to_string());
        }
        if word_is(input, a, b, "pause") {
            Ok(Command::Pause)
        } else if word_is(input, a, b, "resume") {
            Ok(Command::Resume)
        } else if word_is(input, a, b, "stop") {
            Ok(Command::Stop)
        } else if word_is(input, a, b, "+") || word_is(input, a, b, "-") {
            let c = skip_space_from(input, n, b);
            let d = word_end_from(input, n, c);
            if c >= n {
                Err("Usage: +/- <seconds>. Enter a number after +/-".to_string())
            } else {
                let number = input.substring_char(c, d);
                match parse_signed(word_is(input, a, b, "-"), number) {
                    Some(v) => Ok(Command::Advance { seconds: v }),
                    None => {
                        let mut m = "Invalid number: ".to_string();
                        m.append(number);
                        Err(m)
                    },
                }
            }
        } else if word_is(input, a, b, "quit") || word_is(input, a, b, "q") || word_is(
            input,
            a,
            b,
            "exit",
        ) {
            Ok(Command::Quit)
        } else if word_is(input, a, b, "help") || word_is(input, a, b, "h") {
            Ok(Command::Help)
        } else {
            let mut m = "Unknown command: ".to_string();
            m.append(input.substring_char(a, b));
            m.append(". Type 'help' for commands.");
            Err(m)
        }
    }
}

impl core::str::FromStr for Command {
    type Err = String;

    /// Same as `Command::parse`.
    fn from_str(input: &str) -> (r: Result<Command, String>)
        ensures
            match (r, parse_spec(input@)) {
                (Ok(c), Ok(e)) => c == e,
                (Err(m), Err(e)) => m@ == e,
                _ => false,
            },
    {
        Command::parse(input)
    }
}

} // verus!
