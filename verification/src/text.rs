//! Text as contracts see it, and the few string operations the library needs.

use vstd::prelude::*;

verus! {

/// What a string holds: its characters.
pub type Text = Seq<char>;

/// The character of a decimal digit.
pub open spec fn digit(d: nat) -> char {
    (48 + d) as char
}

/// A number written in decimal, without sign or leading zeros.
pub open spec fn decimal(n: nat) -> Text
    decreases n,
{
    if n < 10 {
        seq![digit(n)]
    } else {
        decimal(n / 10).push(digit(n % 10))
    }
}

/// The number that a run of decimal digits stands for.
pub open spec fn decimal_value(text: Text) -> int
    decreases text.len(),
{
    if text.len() == 0 {
        0
    } else {
        10 * decimal_value(text.drop_last()) + (text.last() as int - 48)
    }
}

/// Reading a number back from its decimal form gives the number, so no two
/// numbers are written alike.
pub proof fn law_decimal_reads_back(n: nat)
    ensures
        decimal_value(decimal(n)) == n,
        decimal(n).len() > 0,
    decreases n,
{
    if n < 10 {
        assert(decimal(n).drop_last() == Seq::<char>::empty());
        assert(decimal_value(Seq::<char>::empty()) == 0);
        assert(decimal(n).last() as int == 48 + n);
    } else {
        law_decimal_reads_back(n / 10);
        assert(decimal(n).drop_last() == decimal(n / 10));
        assert(decimal(n).last() as int == 48 + n % 10);
    }
}

/// The text of one digit.
fn digit_str(d: u16) -> (text: &'static str)
    requires
        d < 10,
    ensures
        text@ == seq![digit(d as nat)],
{
    proof {
        reveal_strlit("0");
        reveal_strlit("1");
        reveal_strlit("2");
        reveal_strlit("3");
        reveal_strlit("4");
        reveal_strlit("5");
        reveal_strlit("6");
        reveal_strlit("7");
        reveal_strlit("8");
        reveal_strlit("9");
    }
    let text = match d {
        0 => "0",
        1 => "1",
        2 => "2",
        3 => "3",
        4 => "4",
        5 => "5",
        6 => "6",
        7 => "7",
        8 => "8",
        _ => "9",
    };
    assert(text@ =~= seq![digit(d as nat)]);
    text
}

/// Writes a number in decimal.
pub fn decimal_text(n: u16) -> (text: String)
    ensures
        text@ == decimal(n as nat),
    decreases n,
{
    let mut text: String = String::new();
    if n >= 10 {
        text = decimal_text(n / 10);
    }
    text.append(digit_str(n % 10));
    assert(text@ =~= decimal(n as nat));
    text
}

/// Copies an optional string.
pub(crate) fn copy_option(text: &Option<String>) -> (copy: Option<String>)
    ensures
        copy == *text,
{
    match text {
        Some(t) => Some(t.clone()),
        None => None,
    }
}

/// Copies a list of strings, from position `from` on.
pub(crate) fn copy_from(list: &Vec<String>, from: usize) -> (copy: Vec<String>)
    requires
        from <= list@.len(),
    ensures
        copy@ == list@.skip(from as int),
{
    let mut copy: Vec<String> = Vec::new();
    let mut i: usize = from;
    while i < list.len()
        invariant
            from <= i <= list@.len(),
            copy@ == list@.subrange(from as int, i as int),
        decreases list@.len() - i,
    {
        copy.push(list[i].clone());
        i = i + 1;
        assert(copy@ =~= list@.subrange(from as int, i as int));
    }
    assert(copy@ =~= list@.skip(from as int));
    copy
}

/// Copies a list of strings.
pub(crate) fn copy_list(list: &Vec<String>) -> (copy: Vec<String>)
    ensures
        copy@ == list@,
{
    let copy = copy_from(list, 0);
    assert(list@.skip(0) =~= list@);
    copy
}

/// A number is written with the ten decimal digits alone, and never with a
/// leading zero but for zero itself.
pub proof fn law_decimal_is_plain(n: nat, i: int)
    requires
        0 <= i < decimal(n).len(),
    ensures
        '0' <= decimal(n)[i] <= '9',
        decimal(n).len() > 1 ==> decimal(n)[0] != '0',
    decreases n,
{
    if n >= 10 {
        law_decimal_reads_back(n / 10);
        law_decimal_is_plain(n / 10, 0);
        if i < decimal(n).len() - 1 {
            law_decimal_is_plain(n / 10, i);
        }
        if n / 10 < 10 {
            assert(decimal(n / 10)[0] as int == 48 + n / 10);
        } else {
            law_decimal_reads_back(n / 10 / 10);
        }
    }
}

} // verus!
