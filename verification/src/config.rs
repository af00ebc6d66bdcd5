//! The click interval, as the program's arguments give it.

use vstd::prelude::*;
use vstd::string::*;

verus! {

/// The ASCII code of `+`.
const ASCII_PLUS: u8 = 43;

/// The ASCII code of `0`.
const ASCII_ZERO: u8 = 48;

/// The ASCII code of `9`.
const ASCII_NINE: u8 = 57;

/// The name of the argument that brings the interval.
pub open spec fn flag_name() -> Seq<char> {
    "--interval_time"@
}

/// `c` is a decimal digit.
pub open spec fn is_digit(c: char) -> bool {
    '0' <= c && c <= '9'
}

/// The value of a decimal digit.
pub open spec fn digit_value(c: char) -> nat
    recommends
        is_digit(c),
{
    (c as nat - '0' as nat) as nat
}

/// `s` holds decimal digits and nothing else.
pub open spec fn all_digits(s: Seq<char>) -> bool {
    forall|i: int| 0 <= i < s.len() ==> is_digit(#[trigger] s[i])
}

/// The number that a sequence of decimal digits writes, the first digit
/// counting most.
pub open spec fn digits_value(s: Seq<char>) -> nat
    decreases s.len(),
{
    if s.len() == 0 {
        0
    } else {
        10 * digits_value(s.drop_last()) + digit_value(s.last())
    }
}

/// `s` without the one plus sign that may stand in front of a number.
pub open spec fn unsigned(s: Seq<char>) -> Seq<char> {
    if s.len() > 0 && s[0] == '+' {
        s.drop_first()
    } else {
        s
    }
}

/// The number of seconds that `s` writes: an optional plus sign, then one
/// or more decimal digits and nothing else, the number being one that a
/// `u64` holds. Any other text writes none.
pub open spec fn parse_decimal(s: Seq<char>) -> Option<u64> {
    let digits = unsigned(s);
    if digits.len() > 0 && all_digits(digits) && digits_value(digits) <= u64::MAX {
        Some(digits_value(digits) as u64)
    } else {
        None
    }
}

/// A number is at least what its first digits alone write.
proof fn lemma_leading_digits_write_less(s: Seq<char>, count: int)
    requires
        0 <= count <= s.len(),
    ensures
        digits_value(s.take(count)) <= digits_value(s),
    decreases s.len(),
{
    if count == s.len() {
        assert(s.take(count) =~= s);
    } else {
        lemma_leading_digits_write_less(s.drop_last(), count);
        assert(s.drop_last().take(count) =~= s.take(count));
    }
}

/// Text that holds a character outside ASCII writes no number.
proof fn lemma_decimal_is_ascii(s: Seq<char>)
    requires
        !vstd::utf8::is_ascii_chars(s),
    ensures
        parse_decimal(s) is None,
{
    let i = choose|i: int| 0 <= i < s.len() && !('\0' <= #[trigger] s[i] <= '\u{7f}');
    law_other_text_is_no_number(s, i);
}

/// Reads a number of seconds: an optional plus sign, then decimal digits.
/// `None` for text that is no such number, or that writes one too large
/// for a `u64`.
pub fn parse_seconds(value: &str) -> (seconds: Option<u64>)
    ensures
        seconds == parse_decimal(value@),
{
    if !value.is_ascii() {
        proof {
            lemma_decimal_is_ascii(value@);
        }
        return None;
    }
    proof {
        vstd::string::is_ascii_spec_bytes(value);
    }
    let bytes = value.as_bytes();
    let len = bytes.len();
    let start: usize = if len > 0 && bytes[0] == ASCII_PLUS {
        1
    } else {
        0
    };
    let ghost digits = unsigned(value@);
    assert(digits =~= value@.skip(start as int));
    if start == len {
        return None;
    }
    let mut seconds: u64 = 0;
    let mut i: usize = start;
    while i < len
        invariant
            len == value@.len(),
            bytes@.len() == len,
            forall|k: int| 0 <= k < len ==> #[trigger] bytes@[k] == value@[k] as u8,
            vstd::utf8::is_ascii_chars(value@),
            start <= i <= len,
            digits == value@.skip(start as int),
            digits == unsigned(value@),
            digits.len() > 0,
            all_digits(digits.take(i - start)),
            seconds == digits_value(digits.take(i - start)),
        decreases len - i,
    {
        let byte = bytes[i];
        let ghost read = digits.take(i - start + 1);
        assert(read.drop_last() =~= digits.take(i - start));
        assert(read.last() == value@[i as int]);
        if byte < ASCII_ZERO || byte > ASCII_NINE {
            assert(!is_digit(digits[i - start]));
            return None;
        }
        let digit: u64 = (byte - ASCII_ZERO) as u64;
        assert(digit == digit_value(read.last()));
        let next = match seconds.checked_mul(10) {
            Some(tens) => tens.checked_add(digit),
            None => None,
        };
        match next {
            Some(n) => {
                seconds = n;
            },
            None => {
                proof {
                    lemma_leading_digits_write_less(digits, i - start + 1);
                }
                return None;
            },
        }
        i += 1;
    }
    assert(digits.take(i - start) =~= digits);
    Some(seconds)
}

/// The error for an interval argument that nothing follows.
pub open spec fn missing_value_message() -> Seq<char> {
    "Missing value for --interval_time argument"@
}

/// The error for arguments without an interval.
pub open spec fn not_found_message() -> Seq<char> {
    "The --interval_time argument is required."@
}

/// The error for an interval argument followed by `value`, which writes
/// no positive number of seconds.
pub open spec fn invalid_format_message(value: Seq<char>) -> Seq<char> {
    "Invalid format for --interval_time: '"@ + value + "'. Must be a positive integer."@
}

/// `at` is where the interval argument first stands in `args`.
pub open spec fn is_first_flag(args: Seq<Seq<char>>, at: int) -> bool {
    &&& 0 <= at < args.len()
    &&& args[at] == flag_name()
    &&& forall|j: int| 0 <= j < at ==> args[j] != flag_name()
}

/// The interval that `s` writes: a number of seconds that is at least one.
/// Text that writes zero, or no number at all, writes no interval.
pub open spec fn parse_interval(s: Seq<char>) -> Option<u64> {
    match parse_decimal(s) {
        Some(seconds) => if seconds >= 1 {
            Some(seconds)
        } else {
            None
        },
        None => None,
    }
}

/// What arguments give whose interval argument stands at `at`: the
/// interval that the next argument writes, or why there is none.
pub open spec fn value_outcome(args: Seq<Seq<char>>, at: int) -> Result<u64, Seq<char>> {
    if at + 1 >= args.len() {
        Err(missing_value_message())
    } else {
        match parse_interval(args[at + 1]) {
            Some(seconds) => Ok(seconds),
            None => Err(invalid_format_message(args[at + 1])),
        }
    }
}

/// What the arguments give: the first interval argument decides, wherever
/// it stands and whatever follows its value, and without one there is no
/// interval.
pub open spec fn parse_outcome(args: Seq<Seq<char>>) -> Result<u64, Seq<char>> {
    if exists|at: int| is_first_flag(args, at) {
        value_outcome(args, choose|at: int| is_first_flag(args, at))
    } else {
        Err(not_found_message())
    }
}

/// The interval argument stands first in one place at most, so that place
/// decides what the arguments give.
pub proof fn lemma_first_flag_decides(args: Seq<Seq<char>>, at: int)
    requires
        is_first_flag(args, at),
    ensures
        parse_outcome(args) == value_outcome(args, at),
{
    let chosen = choose|at: int| is_first_flag(args, at);
    assert(is_first_flag(args, chosen));
    if chosen < at {
        assert(args[chosen] != flag_name());
    } else if at < chosen {
        assert(args[at] != flag_name());
    }
}

/// The program's settings.
#[derive(Clone, Copy, Debug)]
pub struct Config {
    /// The seconds between two click cycles, at least one.
    pub interval_time: u64,
}

impl Config {
    /// Reads the settings from the program's arguments. The interval is
    /// the value after the first `--interval_time`, which may stand
    /// anywhere, and is at least one second; the error says whether that
    /// argument is absent, has no value after it, or a value that is no
    /// positive number of seconds.
    pub fn parse_args(args: Vec<String>) -> (parsed: Result<Config, String>)
        ensures
            match parsed {
                Ok(config) => parse_outcome(args.deep_view()) == Ok::<u64, Seq<char>>(
                    config.interval_time,
                ),
                Err(message) => parse_outcome(args.deep_view()) == Err::<u64, Seq<char>>(message@),
            },
            parsed matches Ok(config) ==> config.interval_time >= 1,
    {
        let ghost texts = args.deep_view();
        assert(texts.len() == args@.len());
        assert(forall|j: int| 0 <= j < args@.len() ==> #[trigger] texts[j] == args@[j]@);
        let flag = "--interval_time".to_owned();
        let mut i: usize = 0;
        while i < args.len()
            invariant
                i <= args.len(),
                flag@ == flag_name(),
                texts == args.deep_view(),
                texts.len() == args@.len(),
                forall|j: int| 0 <= j < args@.len() ==> #[trigger] texts[j] == args@[j]@,
                forall|j: int| 0 <= j < i ==> texts[j] != flag_name(),
            decreases args.len() - i,
        {
            if args[i] == flag {
                proof {
                    lemma_first_flag_decides(texts, i as int);
                }
                if i + 1 < args.len() {
                    let value = &args[i + 1];
                    if let Some(interval_time) = parse_seconds(value.as_str()) {
                        if interval_time >= 1 {
                            return Ok(Config { interval_time });
                        }
                    }
                    let mut message = "Invalid format for --interval_time: '".to_owned();
                    message.append(value.as_str());
                    message.append("'. Must be a positive integer.");
                    return Err(message);
                } else {
                    return Err("Missing value for --interval_time argument".to_owned());
                }
            }
            i += 1;
        }
        assert(!exists|at: int| is_first_flag(texts, at));
        Err("The --interval_time argument is required.".to_owned())
    }
}

/// The decimal digit for `d`, which is less than ten.
pub open spec fn digit_char(d: nat) -> char
    recommends
        d < 10,
{
    ((d + 48) as u8) as char
}

/// `n` written in decimal digits, without a sign or leading zeros.
pub open spec fn decimal_digits(n: nat) -> Seq<char>
    decreases n,
{
    if n < 10 {
        seq![digit_char(n)]
    } else {
        decimal_digits(n / 10).push(digit_char(n % 10))
    }
}

/// The digits that write a number write that number.
pub proof fn lemma_decimal_digits_write(n: nat)
    ensures
        decimal_digits(n).len() > 0,
        all_digits(decimal_digits(n)),
        digits_value(decimal_digits(n)) == n,
    decreases n,
{
    let s = decimal_digits(n);
    if n < 10 {
        assert(s.drop_last() =~= Seq::<char>::empty());
        assert(digits_value(s.drop_last()) == 0);
    } else {
        lemma_decimal_digits_write(n / 10);
        assert(s.drop_last() =~= decimal_digits(n / 10));
    }
}

/// A positive number of seconds written in decimal after the first
/// interval argument is read back exactly, and it is the interval that a
/// click loop made with it has.
pub proof fn law_written_interval_is_read(args: Seq<Seq<char>>, at: int, seconds: u64)
    requires
        is_first_flag(args, at),
        at + 1 < args.len(),
        args[at + 1] == decimal_digits(seconds as nat),
        seconds >= 1,
    ensures
        parse_outcome(args) == Ok::<u64, Seq<char>>(seconds),
        crate::controller::Controller::initial(seconds).interval == seconds,
{
    lemma_decimal_digits_write(seconds as nat);
    lemma_first_flag_decides(args, at);
    let text = decimal_digits(seconds as nat);
    assert(is_digit(text[0]));
    assert(unsigned(text) == text);
}

/// Text with a character in it that is neither a digit nor a plus sign in
/// front writes no number of seconds, and neither does text without a
/// digit.
pub proof fn law_other_text_is_no_number(s: Seq<char>, i: int)
    requires
        0 <= i < s.len(),
        !is_digit(s[i]),
        i > 0 || s[0] != '+',
    ensures
        parse_decimal(s) is None,
        parse_decimal(Seq::<char>::empty()) is None,
        parse_decimal(seq!['+']) is None,
{
    let digits = unsigned(s);
    if digits.len() == s.len() {
        assert(!is_digit(digits[i]));
    } else {
        assert(digits[i - 1] == s[i]);
        assert(!is_digit(digits[i - 1]));
    }
    assert(unsigned(seq!['+']).len() == 0);
}

/// Arguments without a usable interval are refused, each for its own
/// reason: the interval argument is absent, nothing follows it, or what
/// follows it is no positive number of seconds. The three messages differ
/// from each other, whatever the value. What is accepted is never zero.
pub proof fn law_bad_arguments_are_refused(args: Seq<Seq<char>>, value: Seq<char>)
    ensures
        (forall|i: int| 0 <= i < args.len() ==> args[i] != flag_name()) ==> parse_outcome(args)
            == Err::<u64, Seq<char>>(not_found_message()),
        forall|at: int|
            is_first_flag(args, at) && at + 1 == args.len() ==> parse_outcome(args) == Err::<
                u64,
                Seq<char>,
            >(missing_value_message()),
        forall|at: int|
            is_first_flag(args, at) && at + 1 < args.len() && (parse_decimal(args[at + 1]) is None
                || parse_decimal(args[at + 1]) == Some(0u64)) ==> parse_outcome(args) == Err::<
                u64,
                Seq<char>,
            >(invalid_format_message(args[at + 1])),
        parse_outcome(args) matches Ok(seconds) ==> seconds >= 1,
        not_found_message() != missing_value_message(),
        not_found_message() != invalid_format_message(value),
        missing_value_message() != invalid_format_message(value),
{
    assert forall|at: int| is_first_flag(args, at) implies parse_outcome(args) == value_outcome(
        args,
        at,
    ) by {
        lemma_first_flag_decides(args, at);
    }
    reveal_strlit("Missing value for --interval_time argument");
    reveal_strlit("The --interval_time argument is required.");
    reveal_strlit("Invalid format for --interval_time: '");
    assert(not_found_message()[0] == 'T');
    assert(missing_value_message()[0] == 'M');
    assert(invalid_format_message(value)[0] == 'I');
}

} // verus!
