use vstd::prelude::*;
use vstd::string::StringExecFns;
use crate::runner::{RunKind, RunReport};

verus! {

/// The character of a decimal digit.
pub open spec fn digit_char(d: nat) -> char {
    if d == 0 {
        '0'
    } else if d == 1 {
        '1'
    } else if d == 2 {
        '2'
    } else if d == 3 {
        '3'
    } else if d == 4 {
        '4'
    } else if d == 5 {
        '5'
    } else if d == 6 {
        '6'
    } else if d == 7 {
        '7'
    } else if d == 8 {
        '8'
    } else {
        '9'
    }
}

/// A number in decimal notation: no sign, no leading zero but for zero itself.
pub open spec fn decimal_text(n: nat) -> Seq<char>
    decreases n,
{
    if n < 10 {
        seq![digit_char(n)]
    } else {
        decimal_text(n / 10).push(digit_char(n % 10))
    }
}

/// The thousandths `frac` of a second behind the decimal point, without
/// trailing zeros; nothing at all where there are none.
pub open spec fn fraction_text(frac: nat) -> Seq<char> {
    if frac == 0 {
        Seq::<char>::empty()
    } else if frac % 100 == 0 {
        seq!['.', digit_char(frac / 100)]
    } else if frac % 10 == 0 {
        seq!['.', digit_char(frac / 100), digit_char(frac / 10 % 10)]
    } else {
        seq!['.', digit_char(frac / 100), digit_char(frac / 10 % 10), digit_char(frac % 10)]
    }
}

/// A time of `millis` milliseconds, in seconds: the milliseconds divided by
/// 1000, written as a decimal number.
pub open spec fn seconds_text(millis: nat) -> Seq<char> {
    decimal_text(millis / 1000) + fraction_text(millis % 1000)
}

/// The name that a configuration is reported under.
pub open spec fn label_text(kind: RunKind) -> Seq<char> {
    match kind {
        RunKind::Cbc => "AES128 CBC"@,
        RunKind::Gcm => "AES128 GSM"@,
        RunKind::GcmReuse => "AES128 GSM with reusable encryptor"@,
    }
}

/// The line that reports a run, without a line end.
pub open spec fn line_text(kind: RunKind, iterations: nat, millis: nat, total_len: nat) -> Seq<char> {
    label_text(kind) + " run "@ + decimal_text(iterations) + " times took "@ + seconds_text(millis)
        + " seconds. total_len dummy value is "@ + decimal_text(total_len)
}

/// The text of one decimal digit.
fn digit_str(d: u8) -> (s: &'static str)
    requires
        d < 10,
    ensures
        s@ == seq![digit_char(d as nat)],
{
    proof {
        reveal_strlit("0");
        reveal_strlit("1");
        reveal_strlit("2");
        reveal_strlit("3");
        reveal_strlit("4");
        reveal_strlit("5");
        reveal_strlit("6");
        reveal_strlit("7");
        reveal_strlit("8");
        reveal_strlit("9");
    }
    let s = match d {
        0 => "0",
        1 => "1",
        2 => "2",
        3 => "3",
        4 => "4",
        5 => "5",
        6 => "6",
        7 => "7",
        8 => "8",
        _ => "9",
    };
    assert(s@ =~= seq![digit_char(d as nat)]);
    s
}

/// Appends a number in decimal notation, the leading digits first.
fn push_decimal(out: &mut String, n: u128)
    ensures
        final(out)@ == old(out)@ + decimal_text(n as nat),
    decreases n,
{
    if n >= 10 {
        push_decimal(out, n / 10);
    }
    out.append(digit_str((n % 10) as u8));
    assert(out@ =~= old(out)@ + decimal_text(n as nat));
}

/// Appends the thousandths of a second, if there are any.
fn push_fraction(out: &mut String, frac: u16)
    requires
        frac < 1000,
    ensures
        final(out)@ == old(out)@ + fraction_text(frac as nat),
{
    if frac != 0 {
        proof {
            reveal_strlit(".");
        }
        out.append(".");
        out.append(digit_str((frac / 100) as u8));
        if frac % 100 != 0 {
            out.append(digit_str((frac / 10 % 10) as u8));
            if frac % 10 != 0 {
                out.append(digit_str((frac % 10) as u8));
            }
        }
    }
    assert(out@ =~= old(out)@ + fraction_text(frac as nat));
}

/// Writes a number in decimal notation.
pub fn decimal(n: u128) -> (s: String)
    ensures
        s@ == decimal_text(n as nat),
{
    let mut s = String::new();
    push_decimal(&mut s, n);
    assert(s@ =~= decimal_text(n as nat));
    s
}

/// Writes a time of `millis` milliseconds in seconds.
pub fn seconds(millis: u128) -> (s: String)
    ensures
        s@ == seconds_text(millis as nat),
{
    let mut s = String::new();
    push_decimal(&mut s, millis / 1000);
    push_fraction(&mut s, (millis % 1000) as u16);
    assert(s@ =~= seconds_text(millis as nat));
    s
}

impl RunKind {
    /// The name that this configuration is reported under.
    pub fn label(&self) -> (s: &'static str)
        ensures
            s@ == label_text(*self),
    {
        match self {
            RunKind::Cbc => "AES128 CBC",
            RunKind::Gcm => "AES128 GSM",
            RunKind::GcmReuse => "AES128 GSM with reusable encryptor",
        }
    }
}

impl RunReport {
    /// The line that reports this run: its configuration, how often it
    /// encrypted, the seconds that took, and the summed ciphertext lengths.
    pub fn line(&self) -> (s: String)
        ensures
            s@ == line_text(self.kind, self.iterations as nat, self.elapsed_millis as nat, self.total_len as nat),
    {
        let mut s = String::from_str(self.kind.label());
        s.append(" run ");
        push_decimal(&mut s, self.iterations as u128);
        s.append(" times took ");
        push_decimal(&mut s, self.elapsed_millis / 1000);
        push_fraction(&mut s, (self.elapsed_millis % 1000) as u16);
        s.append(" seconds. total_len dummy value is ");
        push_decimal(&mut s, self.total_len);
        assert(s@ =~= line_text(self.kind, self.iterations as nat, self.elapsed_millis as nat, self.total_len as nat));
        s
    }
}

/// Whether a text holds no line end.
pub open spec fn is_one_line(text: Seq<char>) -> bool {
    forall|i: int| 0 <= i < text.len() ==> text[i] != '\n'
}

/// Whether a character is one of the ten decimal digits.
pub open spec fn is_digit(c: char) -> bool {
    c == '0' || c == '1' || c == '2' || c == '3' || c == '4' || c == '5' || c == '6' || c == '7'
        || c == '8' || c == '9'
}

/// The number that a decimal digit stands for.
pub open spec fn digit_value(c: char) -> nat {
    if c == '1' {
        1
    } else if c == '2' {
        2
    } else if c == '3' {
        3
    } else if c == '4' {
        4
    } else if c == '5' {
        5
    } else if c == '6' {
        6
    } else if c == '7' {
        7
    } else if c == '8' {
        8
    } else if c == '9' {
        9
    } else {
        0
    }
}

/// The number that a text of decimal digits is read as.
pub open spec fn decimal_value(text: Seq<char>) -> nat
    decreases text.len(),
{
    if text.len() == 0 {
        0
    } else {
        decimal_value(text.drop_last()) * 10 + digit_value(text.last())
    }
}

/// A number's decimal notation has at least one character, all of them
/// digits, and begins with a zero only if the number is zero.
pub proof fn lemma_decimal_text_is_digits(n: nat)
    ensures
        decimal_text(n).len() >= 1,
        forall|i: int| 0 <= i < decimal_text(n).len() ==> is_digit(#[trigger] decimal_text(n)[i]),
        decimal_text(n)[0] == '0' <==> n == 0,
    decreases n,
{
    if n >= 10 {
        lemma_decimal_text_is_digits(n / 10);
    }
}

/// A number's decimal notation is read back as that number: what is written
/// is the number itself, digit for digit.
pub proof fn lemma_decimal_text_reads_back(n: nat)
    ensures
        decimal_value(decimal_text(n)) == n,
    decreases n,
{
    if n < 10 {
        assert(decimal_text(n).drop_last().len() == 0);
        assert(decimal_value(decimal_text(n).drop_last()) == 0);
    } else {
        lemma_decimal_text_reads_back(n / 10);
        assert(decimal_text(n).drop_last() =~= decimal_text(n / 10));
    }
}

/// Two numbers with one decimal notation are one number.
pub proof fn lemma_decimal_text_is_injective(a: nat, b: nat)
    requires
        decimal_text(a) == decimal_text(b),
    ensures
        a == b,
{
    lemma_decimal_text_reads_back(a);
    lemma_decimal_text_reads_back(b);
}

/// A time written in seconds is an unsigned decimal number: it begins with a
/// digit, and holds digits and a decimal point only, so no sign and no line
/// end.
pub proof fn lemma_seconds_text_is_unsigned(millis: nat)
    ensures
        seconds_text(millis).len() >= 1,
        is_digit(seconds_text(millis)[0]),
        forall|i: int| 0 <= i < seconds_text(millis).len() ==> is_digit(#[trigger] seconds_text(millis)[i])
            || seconds_text(millis)[i] == '.',
        is_one_line(seconds_text(millis)),
{
    lemma_decimal_text_is_digits(millis / 1000);
}

/// The thousandths of a second that the text behind the whole seconds stands
/// for: nothing, or a decimal point and one to three digits.
pub open spec fn fraction_value(text: Seq<char>) -> nat {
    if text.len() < 2 {
        0
    } else if text.len() == 2 {
        digit_value(text[1]) * 100
    } else if text.len() == 3 {
        digit_value(text[1]) * 100 + digit_value(text[2]) * 10
    } else {
        digit_value(text[1]) * 100 + digit_value(text[2]) * 10 + digit_value(text[3])
    }
}

/// A digit's character stands for that digit.
proof fn lemma_digit_reads_back(d: nat)
    requires
        d < 10,
    ensures
        digit_value(digit_char(d)) == d,
{
}

/// The thousandths that are written behind the whole seconds are read back as
/// they were.
proof fn lemma_fraction_text_reads_back(frac: nat)
    requires
        frac < 1000,
    ensures
        fraction_value(fraction_text(frac)) == frac,
{
    let hundreds = frac / 100;
    let tens = frac / 10 % 10;
    let ones = frac % 10;
    assert(frac == hundreds * 100 + tens * 10 + ones);
    lemma_digit_reads_back(hundreds);
    lemma_digit_reads_back(tens);
    lemma_digit_reads_back(ones);
    let text = fraction_text(frac);
    if frac == 0 {
        assert(text.len() == 0);
    } else if frac % 100 == 0 {
        assert(text.len() == 2 && text[1] == digit_char(hundreds));
    } else if frac % 10 == 0 {
        assert(text.len() == 3 && text[1] == digit_char(hundreds) && text[2] == digit_char(tens));
    } else {
        assert(text.len() == 4 && text[1] == digit_char(hundreds) && text[2] == digit_char(tens)
            && text[3] == digit_char(ones));
    }
}

/// A time written in seconds is the milliseconds divided by 1000 and nothing
/// else: a thousand times the whole seconds that are written, and the
/// thousandths that are written behind them, make the milliseconds again.
pub proof fn lemma_seconds_text_reads_back(millis: nat)
    ensures
        decimal_value(decimal_text(millis / 1000)) * 1000 + fraction_value(fraction_text(millis % 1000))
            == millis,
{
    lemma_decimal_text_reads_back(millis / 1000);
    lemma_fraction_text_reads_back(millis % 1000);
}

/// The report of a run is one line: it holds no line end, whatever was run
/// and whatever was measured.
pub proof fn lemma_line_is_one_line(kind: RunKind, iterations: nat, millis: nat, total_len: nat)
    ensures
        is_one_line(line_text(kind, iterations, millis, total_len)),
{
    reveal_strlit("AES128 CBC");
    reveal_strlit("AES128 GSM");
    reveal_strlit("AES128 GSM with reusable encryptor");
    reveal_strlit(" run ");
    reveal_strlit(" times took ");
    reveal_strlit(" seconds. total_len dummy value is ");
    lemma_decimal_text_is_digits(iterations);
    lemma_decimal_text_is_digits(total_len);
    lemma_seconds_text_is_unsigned(millis);
    assert(is_one_line(label_text(kind)));
    assert(is_one_line(" run "@));
    assert(is_one_line(" times took "@));
    assert(is_one_line(" seconds. total_len dummy value is "@));
    assert(is_one_line(decimal_text(iterations)));
    assert(is_one_line(decimal_text(total_len)));
}

/// The report of a run holds the number of encryptions as it is written in
/// decimal, right behind the configuration's name and the word "run", and ends
/// with the summed lengths.
pub proof fn lemma_line_holds_its_numbers(kind: RunKind, iterations: nat, millis: nat, total_len: nat)
    ensures
        ({
            let line = line_text(kind, iterations, millis, total_len);
            let at = (label_text(kind) + " run "@).len() as int;
            let count = decimal_text(iterations);
            let sum = decimal_text(total_len);
            &&& at + count.len() <= line.len() - sum.len()
            &&& line.subrange(at, at + count.len()) == count
            &&& line.subrange(line.len() - sum.len(), line.len() as int) == sum
        }),
{
    let line = line_text(kind, iterations, millis, total_len);
    let at = (label_text(kind) + " run "@).len() as int;
    let count = decimal_text(iterations);
    let sum = decimal_text(total_len);
    assert(line.subrange(at, at + count.len()) =~= count);
    assert(line.subrange(line.len() - sum.len(), line.len() as int) =~= sum);
}

} // verus!
