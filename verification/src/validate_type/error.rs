use vstd::prelude::*;

verus! {

/// Why a string was refused.
#[derive(Debug, Clone, PartialEq)]
pub enum StringContentError {
    /// The string has no character.
    Empty,
    /// The string holds white space only; the refused string is handed back.
    Blank(String),
}

/// Why a sequence was refused.
#[derive(Debug, Clone, PartialEq)]
pub enum SequenceContentError {
    /// The sequence has no element.
    Empty,
}

/// Why a number was refused: `(min, max, value)` of the failed range check.
#[derive(Debug, Clone, PartialEq)]
pub enum OutOfBoundsError<T> {
    /// `value` is above `max`.
    High(T, T, T),
    /// `value` is below `min`.
    Low(T, T, T),
}

impl StringContentError {
    /// The text that describes the error.
    pub open spec fn message(self) -> Seq<char> {
        match self {
            StringContentError::Empty => "string is empty"@,
            StringContentError::Blank(value) => "string is blank (content: `"@ + value@ + "`)"@,
        }
    }

    /// The text that describes the error.
    pub fn to_string(&self) -> (res: String)
        ensures
            res@ == self.message(),
    {
        match self {
            StringContentError::Empty => String::from_str("string is empty"),
            StringContentError::Blank(value) => {
                let mut text = String::from_str("string is blank (content: `");
                text.append(value.as_str());
                text.append("`)");
                text
            },
        }
    }
}

/// The digit that stands for a number below ten.
pub open spec fn digit_char(digit: nat) -> char {
    ('0' as u8 + digit) as char
}

/// A number as it is written in base ten, without leading zeros.
pub open spec fn decimal_text(number: nat) -> Seq<char>
    decreases number,
{
    if number < 10 {
        seq![digit_char(number)]
    } else {
        decimal_text(number / 10).push(digit_char(number % 10))
    }
}

/// The text that describes a number outside its range.
pub open spec fn bounds_message(high: bool, min: nat, max: nat, value: nat) -> Seq<char> {
    decimal_text(value) + if high {
        " is too high (range: "@
    } else {
        " is too low (range: "@
    } + decimal_text(min) + ".."@ + decimal_text(max) + ")"@
}

fn digit_str(digit: u8) -> (res: &'static str)
    requires
        digit < 10,
    ensures
        res@ == seq![digit_char(digit as nat)],
{
    proof {
        reveal_strlit("0");
        reveal_strlit("1");
        reveal_strlit("2");
        reveal_strlit("3");
        reveal_strlit("4");
        reveal_strlit("5");
        reveal_strlit("6");
        reveal_strlit("7");
        reveal_strlit("8");
        reveal_strlit("9");
    }
    let res = match digit {
        0 => "0",
        1 => "1",
        2 => "2",
        3 => "3",
        4 => "4",
        5 => "5",
        6 => "6",
        7 => "7",
        8 => "8",
        _ => "9",
    };
    assert(res@ =~= seq![digit_char(digit as nat)]);
    res
}

/// Writes a number in base ten.
pub fn decimal_string(number: u128) -> (res: String)
    ensures
        res@ == decimal_text(number as nat),
    decreases number,
{
    if number < 10 {
        String::from_str(digit_str(number as u8))
    } else {
        let mut text = decimal_string(number / 10);
        let last = digit_str((number % 10) as u8);
        text.append(last);
        assert(text@ =~= decimal_text((number / 10) as nat).push(digit_char((number % 10) as nat)));
        text
    }
}

fn bounds_string(high: bool, min: u128, max: u128, value: u128) -> (res: String)
    ensures
        res@ == bounds_message(high, min as nat, max as nat, value as nat),
{
    let mut text = decimal_string(value);
    if high {
        text.append(" is too high (range: ");
    } else {
        text.append(" is too low (range: ");
    }
    text.append(decimal_string(min).as_str());
    text.append("..");
    text.append(decimal_string(max).as_str());
    text.append(")");
    text
}

impl SequenceContentError {
    /// The text that describes the error.
    pub open spec fn message(self) -> Seq<char> {
        "sequence is empty"@
    }

    /// The text that describes the error.
    pub fn to_string(&self) -> (res: String)
        ensures
            res@ == self.message(),
    {
        String::from_str("sequence is empty")
    }
}

impl OutOfBoundsError<u8> {
    /// The text that describes the error.
    pub open spec fn message(self) -> Seq<char> {
        match self {
            OutOfBoundsError::High(min, max, value) => bounds_message(
                true,
                min as nat,
                max as nat,
                value as nat,
            ),
            OutOfBoundsError::Low(min, max, value) => bounds_message(
                false,
                min as nat,
                max as nat,
                value as nat,
            ),
        }
    }

    /// The text that describes the error.
    pub fn to_string(&self) -> (res: String)
        ensures
            res@ == self.message(),
    {
        match self {
            OutOfBoundsError::High(min, max, value) => bounds_string(
                true,
                *min as u128,
                *max as u128,
                *value as u128,
            ),
            OutOfBoundsError::Low(min, max, value) => bounds_string(
                false,
                *min as u128,
                *max as u128,
                *value as u128,
            ),
        }
    }
}

impl OutOfBoundsError<u16> {
    /// The text that describes the error.
    pub open spec fn message(self) -> Seq<char> {
        match self {
            OutOfBoundsError::High(min, max, value) => bounds_message(
                true,
                min as nat,
                max as nat,
                value as nat,
            ),
            OutOfBoundsError::Low(min, max, value) => bounds_message(
                false,
                min as nat,
                max as nat,
                value as nat,
            ),
        }
    }

    /// The text that describes the error.
    pub fn to_string(&self) -> (res: String)
        ensures
            res@ == self.message(),
    {
        match self {
            OutOfBoundsError::High(min, max, value) => bounds_string(
                true,
                *min as u128,
                *max as u128,
                *value as u128,
            ),
            OutOfBoundsError::Low(min, max, value) => bounds_string(
                false,
                *min as u128,
                *max as u128,
                *value as u128,
            ),
        }
    }
}

impl OutOfBoundsError<u32> {
    /// The text that describes the error.
    pub open spec fn message(self) -> Seq<char> {
        match self {
            OutOfBoundsError::High(min, max, value) => bounds_message(
                true,
                min as nat,
                max as nat,
                value as nat,
            ),
            OutOfBoundsError::Low(min, max, value) => bounds_message(
                false,
                min as nat,
                max as nat,
                value as nat,
            ),
        }
    }

    /// The text that describes the error.
    pub fn to_string(&self) -> (res: String)
        ensures
            res@ == self.message(),
    {
        match self {
            OutOfBoundsError::High(min, max, value) => bounds_string(
                true,
                *min as u128,
                *max as u128,
                *value as u128,
            ),
            OutOfBoundsError::Low(min, max, value) => bounds_string(
                false,
                *min as u128,
                *max as u128,
                *value as u128,
            ),
        }
    }
}

impl OutOfBoundsError<u64> {
    /// The text that describes the error.
    pub open spec fn message(self) -> Seq<char> {
        match self {
            OutOfBoundsError::High(min, max, value) => bounds_message(
                true,
                min as nat,
                max as nat,
                value as nat,
            ),
            OutOfBoundsError::Low(min, max, value) => bounds_message(
                false,
                min as nat,
                max as nat,
                value as nat,
            ),
        }
    }

    /// The text that describes the error.
    pub fn to_string(&self) -> (res: String)
        ensures
            res@ == self.message(),
    {
        match self {
            OutOfBoundsError::High(min, max, value) => bounds_string(
                true,
                *min as u128,
                *max as u128,
                *value as u128,
            ),
            OutOfBoundsError::Low(min, max, value) => bounds_string(
                false,
                *min as u128,
                *max as u128,
                *value as u128,
            ),
        }
    }
}

impl OutOfBoundsError<u128> {
    /// The text that describes the error.
    pub open spec fn message(self) -> Seq<char> {
        match self {
            OutOfBoundsError::High(min, max, value) => bounds_message(
                true,
                min as nat,
                max as nat,
                value as nat,
            ),
            OutOfBoundsError::Low(min, max, value) => bounds_message(
                false,
                min as nat,
                max as nat,
                value as nat,
            ),
        }
    }

    /// The text that describes the error.
    pub fn to_string(&self) -> (res: String)
        ensures
            res@ == self.message(),
    {
        match self {
            OutOfBoundsError::High(min, max, value) => bounds_string(
                true,
                *min,
                *max,
                *value,
            ),
            OutOfBoundsError::Low(min, max, value) => bounds_string(
                false,
                *min,
                *max,
                *value,
            ),
        }
    }
}

impl OutOfBoundsError<usize> {
    /// The text that describes the error.
    pub open spec fn message(self) -> Seq<char> {
        match self {
            OutOfBoundsError::High(min, max, value) => bounds_message(
                true,
                min as nat,
                max as nat,
                value as nat,
            ),
            OutOfBoundsError::Low(min, max, value) => bounds_message(
                false,
                min as nat,
                max as nat,
                value as nat,
            ),
        }
    }

    /// The text that describes the error.
    pub fn to_string(&self) -> (res: String)
        ensures
            res@ == self.message(),
    {
        match self {
            OutOfBoundsError::High(min, max, value) => bounds_string(
                true,
                *min as u128,
                *max as u128,
                *value as u128,
            ),
            OutOfBoundsError::Low(min, max, value) => bounds_string(
                false,
                *min as u128,
                *max as u128,
                *value as u128,
            ),
        }
    }
}

} // verus!
