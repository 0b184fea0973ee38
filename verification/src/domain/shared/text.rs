use vstd::prelude::*;

verus! {

/// The decimal digits of a natural number, most significant first.
pub open spec fn decimal(n: nat) -> Seq<char>
    decreases n,
{
    if n < 10 {
        seq![(n + 48) as char]
    } else {
        decimal(n / 10).push(((n % 10) + 48) as char)
    }
}

/// The decimal text of a number.
pub fn decimal_text(n: u64) -> (text: String)
    ensures
        text@ == decimal(n as nat),
    decreases n,
{
    let digit = (n % 10) as u8;
    let c: char = if digit == 0 {
        '0'
    } else if digit == 1 {
        '1'
    } else if digit == 2 {
        '2'
    } else if digit == 3 {
        '3'
    } else if digit == 4 {
        '4'
    } else if digit == 5 {
        '5'
    } else if digit == 6 {
        '6'
    } else if digit == 7 {
        '7'
    } else if digit == 8 {
        '8'
    } else {
        '9'
    };
    let mut text = if n < 10 {
        String::new()
    } else {
        decimal_text(n / 10)
    };
    let piece = char_text(c);
    text.append(piece.as_str());
    proof {
        assert(c == ((n % 10) + 48) as char);
        if n < 10 {
            assert(text@ =~= decimal(n as nat));
        } else {
            assert(text@ =~= decimal((n / 10) as nat).push(c));
        }
    }
    text
}

/// The one-character text of a decimal digit.
fn char_text(c: char) -> (text: String)
    requires
        '0' <= c <= '9',
    ensures
        text@ == seq![c],
{
    let text = if c == '0' {
        "0"
    } else if c == '1' {
        "1"
    } else if c == '2' {
        "2"
    } else if c == '3' {
        "3"
    } else if c == '4' {
        "4"
    } else if c == '5' {
        "5"
    } else if c == '6' {
        "6"
    } else if c == '7' {
        "7"
    } else if c == '8' {
        "8"
    } else {
        "9"
    };
    proof {
        reveal_strlit("0");
        reveal_strlit("1");
        reveal_strlit("2");
        reveal_strlit("3");
        reveal_strlit("4");
        reveal_strlit("5");
        reveal_strlit("6");
        reveal_strlit("7");
        reveal_strlit("8");
        reveal_strlit("9");
    }
    String::from_str(text)
}

/// Whether two texts are the same.
pub fn text_eq(a: &str, b: &str) -> (same: bool)
    ensures
        same == (a@ == b@),
{
    String::from_str(a) == String::from_str(b)
}

} // verus!

verus! {

/// The abstract value of an optional text.
pub open spec fn option_text(text: Option<String>) -> Option<Seq<char>> {
    match text {
        Some(t) => Some(t@),
        None => None,
    }
}

/// The abstract value of an optional borrowed text.
pub open spec fn option_str(text: Option<&str>) -> Option<Seq<char>> {
    match text {
        Some(t) => Some(t@),
        None => None,
    }
}

/// A copy of an optional text.
pub fn clone_option_text(text: &Option<String>) -> (copy: Option<String>)
    ensures
        option_text(copy) == option_text(*text),
{
    match text {
        Some(t) => Some(t.clone()),
        None => None,
    }
}

/// Borrows the text of an optional text.
pub fn option_as_str(text: &Option<String>) -> (view: Option<&str>)
    ensures
        option_str(view) == option_text(*text),
{
    match text {
        Some(t) => Some(t.as_str()),
        None => None,
    }
}

/// Copies a borrowed optional text into an owned one.
pub fn option_to_owned(text: Option<&str>) -> (owned: Option<String>)
    ensures
        option_text(owned) == option_str(text),
{
    match text {
        Some(t) => Some(String::from_str(t)),
        None => None,
    }
}

/// What `Debug` shows of a list of strings: each string quoted and escaped,
/// in order, between square brackets.
pub uninterp spec fn debug_strings_text(items: Seq<Seq<char>>) -> Seq<char>;

/// Formats a list of strings with std's `Debug` (`format!("{:?}", ..)`). The
/// text is named, not spelled out: escaping follows std's rules for `str`.
#[verifier::external_body]
pub(crate) fn debug_strings(items: &Vec<String>) -> (text: String)
    ensures
        text@ == debug_strings_text(items.deep_view()),
{
    format!("{:?}", items)
}

} // verus!
