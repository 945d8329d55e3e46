//! The per-launch session token.
//!
//! A token is the text `local-<nanos>-<pid>`: the wall-clock time since the
//! Unix epoch in nanoseconds and the identifier of the hosting process, both
//! in decimal. It is unique per launch by construction, not secret by
//! cryptography.

use vstd::prelude::*;
use vstd::string::*;

verus! {

/// The character that writes the digit `d`.
pub open spec fn digit_char(d: nat) -> char {
    if d == 0 {
        '0'
    } else if d == 1 {
        '1'
    } else if d == 2 {
        '2'
    } else if d == 3 {
        '3'
    } else if d == 4 {
        '4'
    } else if d == 5 {
        '5'
    } else if d == 6 {
        '6'
    } else if d == 7 {
        '7'
    } else if d == 8 {
        '8'
    } else {
        '9'
    }
}

/// Whether `c` is one of the ten decimal digits.
pub open spec fn is_digit(c: char) -> bool {
    c == '0' || c == '1' || c == '2' || c == '3' || c == '4' || c == '5' || c == '6' || c == '7'
        || c == '8' || c == '9'
}

/// The digit that `c` writes; zero for any other character.
pub open spec fn digit_value(c: char) -> nat {
    if c == '1' {
        1
    } else if c == '2' {
        2
    } else if c == '3' {
        3
    } else if c == '4' {
        4
    } else if c == '5' {
        5
    } else if c == '6' {
        6
    } else if c == '7' {
        7
    } else if c == '8' {
        8
    } else if c == '9' {
        9
    } else {
        0
    }
}

/// The decimal numeral of `n`, most significant digit first, without
/// leading zeros.
pub open spec fn decimal(n: nat) -> Seq<char>
    decreases n,
{
    if n < 10 {
        seq![digit_char(n)]
    } else {
        decimal(n / 10).push(digit_char(n % 10))
    }
}

/// The number that a numeral denotes.
pub open spec fn decimal_value(s: Seq<char>) -> nat
    decreases s.len(),
{
    if s.len() == 0 {
        0
    } else {
        decimal_value(s.drop_last()) * 10 + digit_value(s.last())
    }
}

/// A numeral is never empty and holds digits only.
pub proof fn lemma_decimal_digits(n: nat)
    ensures
        decimal(n).len() >= 1,
        forall|i: int| 0 <= i < decimal(n).len() ==> is_digit(#[trigger] decimal(n)[i]),
    decreases n,
{
    if n >= 10 {
        lemma_decimal_digits(n / 10);
    }
}

/// Reading a numeral gives back the number it was written from.
pub proof fn lemma_decimal_value(n: nat)
    ensures
        decimal_value(decimal(n)) == n,
    decreases n,
{
    let s = decimal(n);
    if n < 10 {
        assert(decimal_value(s.drop_last()) == 0);
    } else {
        lemma_decimal_value(n / 10);
        assert(s.drop_last() =~= decimal(n / 10));
    }
}

/// Distinct numbers have distinct numerals.
pub proof fn lemma_decimal_injective(a: nat, b: nat)
    requires
        decimal(a) == decimal(b),
    ensures
        a == b,
{
    lemma_decimal_value(a);
    lemma_decimal_value(b);
}

/// The text every token starts with.
pub open spec fn token_prefix() -> Seq<char> {
    seq!['l', 'o', 'c', 'a', 'l', '-']
}

/// The token of the launch that read `nanos` from the clock in the process
/// `pid`.
pub open spec fn token_text(nanos: nat, pid: nat) -> Seq<char> {
    token_prefix() + decimal(nanos) + seq!['-'] + decimal(pid)
}

/// What a clock reading counts for: a failed reading counts as the epoch
/// itself.
pub open spec fn clock_reading(since_epoch_nanos: Option<u128>) -> nat {
    match since_epoch_nanos {
        Some(n) => n as nat,
        None => 0,
    }
}

/// Token uniqueness: two launches that differ in their clock reading or in
/// their process identifier never share a token.
pub proof fn lemma_token_unique(nanos_a: nat, pid_a: nat, nanos_b: nat, pid_b: nat)
    requires
        nanos_a != nanos_b || pid_a != pid_b,
    ensures
        token_text(nanos_a, pid_a) != token_text(nanos_b, pid_b),
{
    let ta = token_text(nanos_a, pid_a);
    let tb = token_text(nanos_b, pid_b);
    if ta == tb {
        let na = decimal(nanos_a);
        let nb = decimal(nanos_b);
        let pa = decimal(pid_a);
        let pb = decimal(pid_b);
        lemma_decimal_digits(nanos_a);
        lemma_decimal_digits(nanos_b);
        let la = na.len() as int;
        let lb = nb.len() as int;
        // The first numeral ends where the first character stands that is
        // no digit, so the two first numerals are equally long.
        if la < lb {
            assert(ta[6 + la] == '-');
            assert(tb[6 + la] == nb[la]);
        }
        if lb < la {
            assert(tb[6 + lb] == '-');
            assert(ta[6 + lb] == na[lb]);
        }
        assert forall|i: int| 0 <= i < la implies na[i] == nb[i] by {
            assert(ta[6 + i] == na[i]);
            assert(tb[6 + i] == nb[i]);
        }
        assert(na =~= nb);
        // What follows the separator is the second numeral.
        assert(ta.len() == 6 + la + 1 + pa.len());
        assert(tb.len() == 6 + lb + 1 + pb.len());
        assert forall|i: int| 0 <= i < pa.len() implies pa[i] == pb[i] by {
            assert(ta[6 + la + 1 + i] == pa[i]);
            assert(tb[6 + lb + 1 + i] == pb[i]);
        }
        assert(pa =~= pb);
        lemma_decimal_injective(nanos_a, nanos_b);
        lemma_decimal_injective(pid_a, pid_b);
    }
}

/// The one-character text of the digit `d`.
fn digit_text(d: u8) -> (s: &'static str)
    requires
        d < 10,
    ensures
        s@ == seq![digit_char(d as nat)],
{
    proof {
        reveal_strlit("0");
        reveal_strlit("1");
        reveal_strlit("2");
        reveal_strlit("3");
        reveal_strlit("4");
        reveal_strlit("5");
        reveal_strlit("6");
        reveal_strlit("7");
        reveal_strlit("8");
        reveal_strlit("9");
    }
    match d {
        0 => "0",
        1 => "1",
        2 => "2",
        3 => "3",
        4 => "4",
        5 => "5",
        6 => "6",
        7 => "7",
        8 => "8",
        _ => "9",
    }
}

/// Writes the decimal numeral of `n` at the end of `out`.
pub fn push_decimal(out: &mut String, n: u128)
    ensures
        final(out)@ == old(out)@ + decimal(n as nat),
    decreases n,
{
    if n >= 10 {
        push_decimal(out, n / 10);
    }
    let d: u8 = (n % 10) as u8;
    out.append(digit_text(d));
    proof {
        let m = n as nat;
        if m >= 10 {
            assert((old(out)@ + decimal(m / 10)) + seq![digit_char(m % 10)] =~= old(out)@
                + decimal(m));
        }
    }
}

/// A session token: the credential that one launch shares between the shell,
/// its user interface and the agent it spawns. The text is fixed when the
/// token is minted.
pub struct SessionToken {
    text: String,
}

impl View for SessionToken {
    type V = Seq<char>;

    closed spec fn view(&self) -> Seq<char> {
        self.text@
    }
}

impl SessionToken {
    /// Mints the token of a launch from the time since the Unix epoch in
    /// nanoseconds, `None` where the clock could not be read, and the
    /// identifier of the hosting process.
    pub fn mint(since_epoch_nanos: Option<u128>, pid: u32) -> (token: SessionToken)
        ensures
            token@ == token_text(clock_reading(since_epoch_nanos), pid as nat),
    {
        let nanos: u128 = match since_epoch_nanos {
            Some(n) => n,
            None => 0,
        };
        proof {
            reveal_strlit("local-");
            reveal_strlit("-");
        }
        let mut text = String::from_str("local-");
        push_decimal(&mut text, nanos);
        text.append("-");
        push_decimal(&mut text, pid as u128);
        SessionToken { text }
    }

    /// The token's text.
    pub fn as_str(&self) -> (text: &str)
        ensures
            text@ == self@,
    {
        self.text.as_str()
    }

    /// An owned copy of the token's text.
    pub fn to_text(&self) -> (text: String)
        ensures
            text@ == self@,
    {
        self.text.clone()
    }
}

impl Clone for SessionToken {
    fn clone(&self) -> (copy: SessionToken)
        ensures
            copy@ == self@,
    {
        SessionToken { text: self.text.clone() }
    }
}

} // verus!
