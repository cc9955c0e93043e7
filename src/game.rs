//! The human side of the guessing game: reading a name, reading guesses,
//! judging them, and comparing the two players.
use rand::Rng;
use vstd::prelude::*;

verus! {

/// Smallest secret number.
pub const SECRET_MIN: u32 = 1;

/// Largest secret number.
pub const SECRET_MAX: u32 = 100;

/// Whether `s` ends with `suffix`.
pub open spec fn ends_with(s: Seq<char>, suffix: Seq<char>) -> bool {
    suffix.len() <= s.len() && s.subrange(s.len() - suffix.len(), s.len() as int) == suffix
}

/// `s` with one trailing `"\r\n"` or `"\n"` removed.
pub open spec fn without_newline(s: Seq<char>) -> Seq<char> {
    if ends_with(s, seq!['\r', '\n']) {
        s.subrange(0, s.len() - 2)
    } else if ends_with(s, seq!['\n']) {
        s.subrange(0, s.len() - 1)
    } else {
        s
    }
}

/// Relies on str::strip_suffix: the text before `suffix` when `s` ends with it,
/// and `None` otherwise.
#[verifier::external_body]
fn strip_suffix_of<'a>(s: &'a str, suffix: &str) -> (r: Option<&'a str>)
    ensures
        match r {
            Some(t) => ends_with(s@, suffix@) && t@ == s@.subrange(0, s@.len() - suffix@.len()),
            None => !ends_with(s@, suffix@),
        },
{
    s.strip_suffix(suffix)
}

/// Removes one line ending (`"\r\n"` or `"\n"`) from the end of `input`.
pub fn strip_trailing_newline(input: &str) -> (r: &str)
    ensures
        r@ == without_newline(input@),
{
    proof {
        reveal_strlit("\r\n");
        reveal_strlit("\n");
        assert("\r\n"@ =~= seq!['\r', '\n']);
        assert("\n"@ =~= seq!['\n']);
    }
    match strip_suffix_of(input, "\r\n") {
        Some(t) => t,
        None => match strip_suffix_of(input, "\n") {
            Some(t) => t,
            None => input,
        },
    }
}

/// Characters with the Unicode White_Space property.
pub open spec fn is_white_space(c: char) -> bool {
    let n = c as u32;
    (0x09 <= n <= 0x0D) || n == 0x20 || n == 0x85 || n == 0xA0 || n == 0x1680 || (0x2000 <= n
        <= 0x200A) || n == 0x2028 || n == 0x2029 || n == 0x202F || n == 0x205F || n == 0x3000
}

/// Number of white-space characters at the start of `s`.
pub open spec fn leading_white(s: Seq<char>) -> nat
    decreases s.len(),
{
    if s.len() > 0 && is_white_space(s[0]) {
        1 + leading_white(s.drop_first())
    } else {
        0
    }
}

/// Number of white-space characters at the end of `s`.
pub open spec fn trailing_white(s: Seq<char>) -> nat
    decreases s.len(),
{
    if s.len() > 0 && is_white_space(s.last()) {
        1 + trailing_white(s.drop_last())
    } else {
        0
    }
}

/// `s` without its leading and trailing white space.
pub open spec fn trim_chars(s: Seq<char>) -> Seq<char> {
    let t = s.subrange(leading_white(s) as int, s.len() as int);
    t.subrange(0, t.len() - trailing_white(t))
}

/// Relies on str::trim: leading and trailing White_Space characters removed.
#[verifier::external_body]
fn trim_str(s: &str) -> (r: &str)
    ensures
        r@ == trim_chars(s@),
{
    s.trim()
}

pub open spec fn is_digit(c: char) -> bool {
    '0' as u32 <= c as u32 <= '9' as u32
}

/// Value of a string of decimal digits.
pub open spec fn digits_value(s: Seq<char>) -> nat
    decreases s.len(),
{
    if s.len() == 0 {
        0
    } else {
        10 * digits_value(s.drop_last()) + (s.last() as u32 - '0' as u32) as nat
    }
}

/// The `u32` written in `s` in decimal, with an optional leading `+`.
pub open spec fn decimal_u32(s: Seq<char>) -> Option<u32> {
    let d = if s.len() > 0 && s[0] == '+' {
        s.drop_first()
    } else {
        s
    };
    if d.len() > 0 && (forall|i: int| 0 <= i < d.len() ==> is_digit(#[trigger] d[i]))
        && digits_value(d) <= u32::MAX {
        Some(digits_value(d) as u32)
    } else {
        None
    }
}

/// Relies on `<u32 as FromStr>::from_str`: an optional `+` and then decimal
/// digits whose value fits in a `u32`; anything else is an error.
#[verifier::external_body]
fn parse_u32(s: &str) -> (r: Option<u32>)
    ensures
        r == decimal_u32(s@),
{
    s.parse::<u32>().ok()
}

/// The number written on a line of input, white space around it ignored.
pub open spec fn read_guess(line: Seq<char>) -> Option<u32> {
    decimal_u32(trim_chars(line))
}

/// How a guess compares with the secret.
#[derive(Clone, Copy, Debug, PartialEq, Eq, Structural)]
pub enum Verdict {
    /// The line held no number.
    Invalid,
    TooSmall,
    TooBig,
    Correct,
}

/// The verdict on a well-formed guess.
pub open spec fn verdict_of(guess: u32, secret: u32) -> Verdict {
    if guess < secret {
        Verdict::TooSmall
    } else if guess > secret {
        Verdict::TooBig
    } else {
        Verdict::Correct
    }
}

/// The human player's bookkeeping.
#[derive(Clone, Copy, Debug, PartialEq, Eq, Structural)]
pub struct HumanGuess {
    pub guess: u32,
    pub high: u32,
    pub low: u32,
    pub tries: u32,
}

impl HumanGuess {
    /// A player who has not guessed yet.
    pub fn new() -> (r: HumanGuess)
        ensures
            r == (HumanGuess { guess: 0, high: SECRET_MAX, low: 0, tries: 0 }),
    {
        HumanGuess { guess: 0, high: SECRET_MAX, low: 0, tries: 0 }
    }

    /// Judges one line of input against the secret. Every line counts as a
    /// try, a line without a number too; a guess below the secret becomes the
    /// new lower bound.
    pub fn take_guess(&mut self, secret_number: u32, line: &str) -> (r: Verdict)
        requires
            old(self).tries < u32::MAX,
        ensures
            final(self).tries == old(self).tries + 1,
            final(self).high == old(self).high,
            match read_guess(line@) {
                None => r == Verdict::Invalid && final(self).guess == old(self).guess
                    && final(self).low == old(self).low,
                Some(n) => r == verdict_of(n, secret_number) && final(self).guess == n
                    && final(self).low == (if n < secret_number {
                    n
                } else {
                    old(self).low
                }),
            },
    {
        self.tries = self.tries + 1;
        match parse_u32(trim_str(line)) {
            None => Verdict::Invalid,
            Some(n) => {
                self.guess = n;
                if n < secret_number {
                    self.low = n;
                    Verdict::TooSmall
                } else if n > secret_number {
                    Verdict::TooBig
                } else {
                    Verdict::Correct
                }
            },
        }
    }
}

/// Whether a name means that a human plays: neither empty nor `skip`.
pub open spec fn plays(name: Seq<char>) -> bool {
    name.len() > 0 && name != seq!['s', 'k', 'i', 'p']
}

/// Decides from the entered name whether a human plays.
pub fn wants_to_play(user_name: &str) -> (r: bool)
    ensures
        r == plays(user_name@),
{
    let n = user_name.unicode_len();
    if n == 0 {
        false
    } else if n != 4 {
        assert(user_name@.len() != seq!['s', 'k', 'i', 'p'].len());
        true
    } else {
        let is_skip = user_name.get_char(0) == 's' && user_name.get_char(1) == 'k'
            && user_name.get_char(2) == 'i' && user_name.get_char(3) == 'p';
        if is_skip {
            assert(user_name@ =~= seq!['s', 'k', 'i', 'p']);
        } else {
            assert(user_name@ != seq!['s', 'k', 'i', 'p']) by {
                if user_name@ == seq!['s', 'k', 'i', 'p'] {
                    assert(user_name@[0] == 's' && user_name@[1] == 'k' && user_name@[2] == 'i'
                        && user_name@[3] == 'p');
                }
            }
        }
        !is_skip
    }
}

/// Who showed the superior intellect.
#[derive(Clone, Copy, Debug, PartialEq, Eq, Structural)]
pub enum Winner {
    Computer,
    Human,
    /// A tie, or a game without a human that did not favour the computer.
    Nobody,
}

/// The winner for the given try counts; `human_tries` is 0 when no human
/// played.
pub open spec fn winner_of(human_tries: u32, computer_tries: u32) -> Winner {
    if computer_tries < human_tries {
        Winner::Computer
    } else if human_tries > 0 && human_tries < computer_tries {
        Winner::Human
    } else {
        Winner::Nobody
    }
}

/// Compares the try counts of the two players: fewer tries win.
pub fn compare_tries(human_tries: u32, computer_tries: u32) -> (r: Winner)
    ensures
        r == winner_of(human_tries, computer_tries),
{
    if computer_tries < human_tries {
        Winner::Computer
    } else if human_tries > 0 && human_tries < computer_tries {
        Winner::Human
    } else {
        Winner::Nobody
    }
}

/// Relies on rand's thread_rng and Rng::gen_range: a value in `low..high`,
/// which must not be empty.
#[verifier::external_body]
fn random_below(low: u32, high: u32) -> (r: u32)
    requires
        low < high,
    ensures
        low <= r < high,
{
    rand::thread_rng().gen_range(low..high)
}

/// Draws a fresh secret number from `SECRET_MIN..=SECRET_MAX`.
pub fn draw_secret() -> (r: u32)
    ensures
        SECRET_MIN <= r <= SECRET_MAX,
{
    random_below(SECRET_MIN, SECRET_MAX + 1)
}

} // verus!
