//! What a front end that only reads and writes lines has to work out: the
//! numbered list that it prints, and what to make of the line that the user
//! typed in answer.

use vstd::prelude::*;
use crate::menu::measure::chars_of;
use crate::numerals::{decimal, lemma_decimal_nonempty, push_decimal};

verus! {

/// What the item for cancelling is called.
pub const CANCEL: &'static str = "Cancel";

/// The number of digits of the decimal numeral of `n`.
pub fn digit_count(n: usize) -> (r: usize)
    ensures
        r == decimal(n as nat).len(),
        r >= 1,
{
    let mut count: usize = 1;
    let mut rest = n;
    proof {
        reveal_with_fuel(decimal, 2);
    }
    while rest >= 10
        invariant
            count >= 1,
            count + decimal(rest as nat).len() == decimal(n as nat).len() + 1,
            count <= decimal(n as nat).len(),
        decreases rest,
    {
        proof {
            reveal_with_fuel(decimal, 2);
            lemma_decimal_nonempty((rest / 10) as nat);
            lemma_decimal_bounded(n as nat);
        }
        rest = rest / 10;
        count = count + 1;
    }
    count
}

/// The numeral of a number that fits a machine word has at most twenty
/// digits.
pub proof fn lemma_decimal_bounded(n: nat)
    requires
        n <= usize::MAX,
    ensures
        decimal(n).len() <= 20,
{
    reveal_with_fuel(decimal, 21);
}

/// `n` spaces.
pub open spec fn spaces(n: nat) -> Seq<char> {
    Seq::new(n, |i: int| ' ')
}

/// The decimal numeral of `n`, with spaces before it so that it takes
/// `width` characters. A numeral that is longer is not cut.
pub open spec fn padded(n: nat, width: nat) -> Seq<char> {
    let digits = decimal(n);
    if digits.len() < width {
        spaces((width - digits.len()) as nat) + digits
    } else {
        digits
    }
}

/// The line of the item at the place `i`, counted from zero, which is shown
/// with the number `i + 1`.
pub open spec fn option_line(i: nat, text: Seq<char>, width: nat) -> Seq<char> {
    padded(i + 1, width) + ") "@ + text + "\n"@
}

/// The lines of the first `n` of `options`.
pub open spec fn option_lines(options: Seq<String>, n: int, width: nat) -> Seq<char>
    decreases n,
{
    if n <= 0 {
        Seq::empty()
    } else {
        option_lines(options, n - 1, width) + option_line((n - 1) as nat, options[n - 1]@, width)
    }
}

/// The list as it is printed: a line for each option, and after them one for
/// cancelling if the list can be cancelled. The items are numbered from one
/// on, and the numbers are aligned on the right.
pub open spec fn numbered(options: Seq<String>, with_cancel: bool) -> Seq<char> {
    let count: nat = if with_cancel {
        options.len() + 1
    } else {
        options.len()
    };
    let width = decimal(count).len();
    option_lines(options, options.len() as int, width) + (if with_cancel {
        option_line(options.len(), CANCEL@, width)
    } else {
        Seq::empty()
    })
}

/// Appends the line of the item at the place `i` to `out`.
fn push_option_line(out: &mut String, i: usize, text: &str, width: usize)
    requires
        i < usize::MAX,
    ensures
        final(out)@ == old(out)@ + option_line(i as nat, text@, width as nat),
{
    let ghost before = out@;
    let digits = digit_count(i + 1);
    let mut filled: usize = digits;
    while filled < width
        invariant
            digits == decimal((i + 1) as nat).len(),
            digits <= filled,
            digits < width ==> filled <= width,
            digits >= width ==> filled == digits,
            out@ == before + spaces((filled - digits) as nat),
        decreases width - filled,
    {
        out.append(" ");
        proof {
            reveal_strlit(" ");
            assert(out@ =~= before + spaces((filled + 1 - digits) as nat));
        }
        filled = filled + 1;
    }
    let ghost gap = out@;
    push_decimal(out, i + 1);
    out.append(") ");
    out.append(text);
    out.append("\n");
    proof {
        assert(spaces(0) =~= Seq::<char>::empty());
        assert(gap + decimal((i + 1) as nat) =~= before + padded((i + 1) as nat, width as nat));
        assert(out@ =~= before + option_line(i as nat, text@, width as nat));
    }
}

/// Makes the list as it is printed.
pub fn numbered_options(options: &[String], with_cancel: bool) -> (r: String)
    requires
        options@.len() < usize::MAX,
    ensures
        r@ == numbered(options@, with_cancel),
{
    let count = if with_cancel {
        options.len() + 1
    } else {
        options.len()
    };
    let width = digit_count(count);
    let mut out = String::new();
    let mut i: usize = 0;
    while i < options.len()
        invariant
            i <= options@.len() < usize::MAX,
            out@ == option_lines(options@, i as int, width as nat),
        decreases options@.len() - i,
    {
        push_option_line(&mut out, i, options[i].as_str(), width);
        assert(out@ =~= option_lines(options@, i + 1, width as nat));
        i = i + 1;
    }
    if with_cancel {
        push_option_line(&mut out, options.len(), CANCEL, width);
    }
    assert(out@ =~= numbered(options@, with_cancel));
    out
}

/// The digit that a character stands for, if it stands for one.
pub open spec fn digit_value(c: char) -> Option<nat> {
    if '0' <= c <= '9' {
        Some((c as nat - '0' as nat) as nat)
    } else {
        None
    }
}

/// The number that the first `n` characters of `s` are the decimal numeral
/// of, if they are all digits.
pub open spec fn digits_value(s: Seq<char>, n: int) -> Option<nat>
    decreases n,
{
    if n <= 0 {
        Some(0)
    } else {
        match (digits_value(s, n - 1), digit_value(s[n - 1])) {
            (Some(before), Some(digit)) => Some(before * 10 + digit),
            _ => None,
        }
    }
}

/// The number that `s` is a numeral of: one digit or more, after a plus sign
/// or without one.
pub open spec fn number_of(s: Seq<char>) -> Option<nat> {
    let body = if s.len() > 0 && s[0] == '+' {
        s.drop_first()
    } else {
        s
    };
    if body.len() == 0 {
        None
    } else {
        digits_value(body, body.len() as int)
    }
}

/// More digits do not make a numeral stand for less, and the rest of a
/// numeral that is none so far is none.
pub proof fn lemma_digits_grow(s: Seq<char>, n: int, m: int)
    requires
        0 <= n <= m,
    ensures
        digits_value(s, n) is None ==> digits_value(s, m) is None,
        digits_value(s, n) is Some && digits_value(s, m) is Some ==> digits_value(s, n)->0
            <= digits_value(s, m)->0,
    decreases m - n,
{
    if n < m {
        lemma_digits_grow(s, n, m - 1);
    }
}

/// Reads a number: one digit or more, after a plus sign or without one.
/// There is none if the text is anything else, or if the number does not fit
/// a machine word.
pub fn parse_number(s: &str) -> (r: Option<usize>)
    ensures
        r == match number_of(s@) {
            Some(n) => if n <= usize::MAX {
                Some(n as usize)
            } else {
                None
            },
            None => None,
        },
{
    let chars = chars_of(s);
    let count = chars.len();
    let from: usize = if count > 0 && chars[0] == '+' {
        1
    } else {
        0
    };
    if from == count {
        return None;
    }
    let ghost body = if from == 1 {
        s@.drop_first()
    } else {
        s@
    };
    let mut value: usize = 0;
    let mut i: usize = from;
    while i < count
        invariant
            from <= i <= count,
            count == chars@.len(),
            chars@ == s@,
            from <= 1,
            body.len() == count - from,
            body.len() > 0,
            body == (if s@.len() > 0 && s@[0] == '+' {
                s@.drop_first()
            } else {
                s@
            }),
            forall|k: int| 0 <= k < body.len() ==> body[k] == s@[k + from],
            digits_value(body, i - from) == Some(value as nat),
        decreases count - i,
    {
        let c = chars[i];
        proof {
            lemma_digits_grow(body, i - from + 1, body.len() as int);
            assert(body[i - from] == c);
        }
        if c < '0' || c > '9' {
            assert(digit_value(c) is None);
            assert(digits_value(body, i - from + 1) is None);
            return None;
        }
        let digit = (c as u32 - '0' as u32) as usize;
        assert(digit_value(c) == Some(digit as nat));
        assert(digits_value(body, i - from + 1) == Some((value * 10 + digit) as nat));
        if value > (usize::MAX - digit) / 10 {
            return None;
        }
        value = value * 10 + digit;
        i = i + 1;
    }
    Some(value)
}

/// What to make of a line that the user typed to select one of the items
/// numbered from one to `max`.
#[derive(Debug, Clone, Copy, PartialEq, Eq, Structural)]
pub enum Selection {
    /// The number of an item
    Number(usize),
    /// Zero, which is the number of no item
    Zero,
    /// A number greater than that of the last item
    TooLarge,
    /// Not a number at all, or one that is too large to tell
    NotANumber,
}

/// What to make of the line `input`, as a specification.
pub open spec fn selection_of(input: Seq<char>, max: usize) -> Selection {
    match number_of(input) {
        Some(n) => if n > usize::MAX {
            Selection::NotANumber
        } else if n == 0 {
            Selection::Zero
        } else if n <= max {
            Selection::Number(n as usize)
        } else {
            Selection::TooLarge
        },
        None => Selection::NotANumber,
    }
}

/// Finds what to make of a line that the user typed to select one of the
/// items numbered from one to `max`.
pub fn check_selection(input: &str, max: usize) -> (r: Selection)
    ensures
        r == selection_of(input@, max),
        r matches Selection::Number(n) ==> 1 <= n <= max,
{
    match parse_number(input) {
        Some(n) => {
            if n == 0 {
                Selection::Zero
            } else if n <= max {
                Selection::Number(n)
            } else {
                Selection::TooLarge
            }
        },
        None => Selection::NotANumber,
    }
}

} // verus!
