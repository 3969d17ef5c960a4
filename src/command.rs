use vstd::prelude::*;
use vstd::string::StrSliceExecFns;

verus! {

/// A debugger command.
#[derive(Debug, Clone, Copy, PartialEq, Eq, Structural)]
pub enum Command {
    /// Run until the break point or a stop (`run`, `r`).
    Run,
    /// Execute one instruction (`step`, `s`).
    Step,
    /// Leave the debugger (`exit`).
    Exit,
    /// Set the break point (`break 0x8000`, `b 0x8000`).
    Break(u16),
    /// Show the registers (`regsters`, `regs`).
    Registers,
    /// Show `count` words of memory from an even `address` (`mem 0x8000 10`, `m 0x8000 10`).
    Memory { address: u16, count: u16 },
    /// Show the command list (`help`).
    Help,
}

/// Why a command line was not accepted.
#[derive(Debug, Clone, Copy, PartialEq, Eq, Structural)]
pub enum CommandError {
    /// `break` without exactly one argument.
    BreakUsage,
    /// `break` with an address that does not start with `0x`.
    BreakNotHexadecimal,
    /// `break` with an address that is not a 16-bit hexadecimal number.
    BreakInvalidAddress,
    /// `mem` without exactly two arguments, or with a count that is not a 16-bit number.
    MemUsage,
    /// `mem` with an address that does not start with `0x`.
    MemNotHexadecimal,
    /// `mem` with an address that is not a 16-bit hexadecimal number.
    MemInvalidAddress,
    /// `mem` with an odd address.
    MemOddAddress,
    /// An unknown command word.
    NotFound,
}

/// The value of a digit character in bases up to 36; 36 for any other character.
pub open spec fn digit_value(c: char) -> nat {
    if '0' <= c && c <= '9' {
        (c as nat - '0' as nat) as nat
    } else if 'a' <= c && c <= 'z' {
        (c as nat - 'a' as nat + 10) as nat
    } else if 'A' <= c && c <= 'Z' {
        (c as nat - 'A' as nat + 10) as nat
    } else {
        36
    }
}

/// The number that the digits `s` denote in base `radix`, most significant first.
pub open spec fn digits_value(s: Seq<char>, radix: nat) -> nat
    decreases s.len(),
{
    if s.len() == 0 {
        0
    } else {
        digits_value(s.drop_last(), radix) * radix + digit_value(s.last())
    }
}

/// The 16-bit number that `s` spells in base `radix`: an optional `+`, then at
/// least one digit, and a value that fits 16 bits.
pub open spec fn parsed_u16(s: Seq<char>, radix: u32) -> Option<u16> {
    let digits = if s.len() > 0 && s[0] == '+' {
        s.drop_first()
    } else {
        s
    };
    if digits.len() == 0 || exists|i: int|
        0 <= i < digits.len() && #[trigger] digit_value(digits[i]) >= radix {
        None
    } else if digits_value(digits, radix as nat) > 0xFFFF {
        None
    } else {
        Some(digits_value(digits, radix as nat) as u16)
    }
}

/// Relies on `u16::from_str_radix`: an optional `+` followed by digits of the radix,
/// with an error for an empty digit string, any other character, or a value that
/// does not fit.
#[verifier::external_body]
fn parse_u16(s: &str, radix: u32) -> (r: Option<u16>)
    requires
        2 <= radix <= 36,
    ensures
        r == parsed_u16(s@, radix),
{
    u16::from_str_radix(s, radix).ok()
}

/// `s` without all the `0x` prefixes it starts with.
pub open spec fn trim_hex_prefix(s: Seq<char>) -> Seq<char>
    decreases s.len(),
{
    if s.len() >= 2 && s[0] == '0' && s[1] == 'x' {
        trim_hex_prefix(s.subrange(2, s.len() as int))
    } else {
        s
    }
}

pub open spec fn starts_with_hex_prefix(s: Seq<char>) -> bool {
    s.len() >= 2 && s[0] == '0' && s[1] == 'x'
}

/// The address that a `0x`-prefixed hexadecimal argument names.
pub open spec fn hex_address(s: Seq<char>) -> Option<u16> {
    parsed_u16(trim_hex_prefix(s), 16)
}

/// The command that the words of a command line give.
pub open spec fn command_of(words: Seq<Seq<char>>) -> Result<Command, CommandError> {
    let w = words[0];
    if w == "run"@ || w == "r"@ {
        Ok(Command::Run)
    } else if w == "step"@ || w == "s"@ {
        Ok(Command::Step)
    } else if w == "exit"@ {
        Ok(Command::Exit)
    } else if w == "break"@ || w == "b"@ {
        if words.len() != 2 {
            Err(CommandError::BreakUsage)
        } else if !starts_with_hex_prefix(words[1]) {
            Err(CommandError::BreakNotHexadecimal)
        } else {
            match hex_address(words[1]) {
                Some(a) => Ok(Command::Break(a)),
                None => Err(CommandError::BreakInvalidAddress),
            }
        }
    } else if w == "regsters"@ || w == "regs"@ {
        Ok(Command::Registers)
    } else if w == "mem"@ || w == "m"@ {
        if words.len() != 3 {
            Err(CommandError::MemUsage)
        } else if !starts_with_hex_prefix(words[1]) {
            Err(CommandError::MemNotHexadecimal)
        } else {
            match hex_address(words[1]) {
                None => Err(CommandError::MemInvalidAddress),
                Some(a) => if a % 2 != 0 {
                    Err(CommandError::MemOddAddress)
                } else {
                    match parsed_u16(words[2], 10) {
                        Some(n) => Ok(Command::Memory { address: a, count: n }),
                        None => Err(CommandError::MemUsage),
                    }
                },
            }
        }
    } else if w == "help"@ {
        Ok(Command::Help)
    } else {
        Err(CommandError::NotFound)
    }
}

fn is_word(s: &String, word: &str) -> (r: bool)
    ensures
        r == (s@ == word@),
{
    *s == word.to_string()
}

fn has_hex_prefix(s: &str) -> (r: bool)
    ensures
        r == starts_with_hex_prefix(s@),
{
    let n = s.unicode_len();
    n >= 2 && s.get_char(0) == '0' && s.get_char(1) == 'x'
}

/// Parses a `0x`-prefixed hexadecimal address, dropping every leading `0x`.
fn parse_hex_address(s: &str) -> (r: Option<u16>)
    ensures
        r == hex_address(s@),
{
    let mut rest = s;
    while has_hex_prefix(rest)
        invariant
            trim_hex_prefix(rest@) == trim_hex_prefix(s@),
        decreases rest@.len(),
    {
        let n = rest.unicode_len();
        rest = rest.substring_char(2, n);
    }
    parse_u16(rest, 16)
}

/// Parses the words of a debugger command line.
pub fn parse_command(words: &Vec<String>) -> (r: Result<Command, CommandError>)
    requires
        words@.len() > 0,
    ensures
        r == command_of(words@.map_values(|w: String| w@)),
{
    let ghost ws = words@.map_values(|w: String| w@);
    assert(ws[0] == words@[0]@);
    let w = &words[0];
    if is_word(w, "run") || is_word(w, "r") {
        Ok(Command::Run)
    } else if is_word(w, "step") || is_word(w, "s") {
        Ok(Command::Step)
    } else if is_word(w, "exit") {
        Ok(Command::Exit)
    } else if is_word(w, "break") || is_word(w, "b") {
        if words.len() != 2 {
            return Err(CommandError::BreakUsage);
        }
        assert(ws[1] == words@[1]@);
        let address = words[1].as_str();
        if !has_hex_prefix(address) {
            return Err(CommandError::BreakNotHexadecimal);
        }
        match parse_hex_address(address) {
            Some(a) => Ok(Command::Break(a)),
            None => Err(CommandError::BreakInvalidAddress),
        }
    } else if is_word(w, "regsters") || is_word(w, "regs") {
        Ok(Command::Registers)
    } else if is_word(w, "mem") || is_word(w, "m") {
        if words.len() != 3 {
            return Err(CommandError::MemUsage);
        }
        assert(ws[1] == words@[1]@);
        assert(ws[2] == words@[2]@);
        let address = words[1].as_str();
        if !has_hex_prefix(address) {
            return Err(CommandError::MemNotHexadecimal);
        }
        match parse_hex_address(address) {
            None => Err(CommandError::MemInvalidAddress),
            Some(a) => if a % 2 != 0 {
                Err(CommandError::MemOddAddress)
            } else {
                match parse_u16(words[2].as_str(), 10) {
                    Some(n) => Ok(Command::Memory { address: a, count: n }),
                    None => Err(CommandError::MemUsage),
                }
            },
        }
    } else if is_word(w, "help") {
        Ok(Command::Help)
    } else {
        Err(CommandError::NotFound)
    }
}

} // verus!
