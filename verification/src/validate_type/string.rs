use crate::validate_type::error::StringContentError;
use vstd::prelude::*;

verus! {

/// White space as Unicode defines it (the `White_Space` property).
pub open spec fn is_whitespace(c: char) -> bool {
    let n = c as u32;
    ||| 0x09 <= n <= 0x0D
    ||| n == 0x20
    ||| n == 0x85
    ||| n == 0xA0
    ||| n == 0x1680
    ||| 0x2000 <= n <= 0x200A
    ||| n == 0x2028
    ||| n == 0x2029
    ||| n == 0x202F
    ||| n == 0x205F
    ||| n == 0x3000
}

/// A text is blank when it holds nothing but white space. The empty text is
/// blank.
pub open spec fn is_blank(text: Seq<char>) -> bool {
    forall|i: int| 0 <= i < text.len() ==> is_whitespace(#[trigger] text[i])
}

/// Whether the character is white space.
pub fn char_is_whitespace(c: char) -> (res: bool)
    ensures
        res == is_whitespace(c),
{
    let n: u32 = c as u32;
    (0x09 <= n && n <= 0x0D) || n == 0x20 || n == 0x85 || n == 0xA0 || n == 0x1680 || (0x2000 <= n
        && n <= 0x200A) || n == 0x2028 || n == 0x2029 || n == 0x202F || n == 0x205F || n == 0x3000
}

/// Whether the text holds nothing but white space.
pub fn str_is_blank(text: &str) -> (res: bool)
    ensures
        res == is_blank(text@),
{
    for c in it: text.chars()
        invariant
            it.seq() == text@,
            forall|i: int| 0 <= i < it.index() ==> is_whitespace(#[trigger] text@[i]),
    {
        if !char_is_whitespace(c) {
            return false;
        }
    }
    true
}

/// A string with at least one character.
#[derive(Debug, PartialEq, Eq, PartialOrd, Ord, Hash)]
pub struct NonEmptyString {
    value: String,
}

impl View for NonEmptyString {
    type V = Seq<char>;

    closed spec fn view(&self) -> Seq<char> {
        self.value@
    }
}

impl Clone for NonEmptyString {
    fn clone(&self) -> (res: Self)
        ensures
            res@ == self@,
    {
        Self { value: self.value.clone() }
    }
}

impl NonEmptyString {
    /// The string is not empty.
    pub open spec fn wf(&self) -> bool {
        self@.len() > 0
    }

    /// Accepts every string but the empty one.
    pub fn new(string: String) -> (res: Result<Self, StringContentError>)
        ensures
            match res {
                Ok(text) => string@.len() > 0 && text@ == string@ && text.wf(),
                Err(err) => string@.len() == 0 && err == StringContentError::Empty,
            },
    {
        if string.as_str().is_empty() {
            Err(StringContentError::Empty)
        } else {
            Ok(Self::new_unchecked(string))
        }
    }

    /// Wraps a string that the caller has already checked.
    pub fn new_unchecked(string: String) -> (res: Self)
        requires
            string@.len() > 0,
        ensures
            res@ == string@,
            res.wf(),
    {
        Self { value: string }
    }

    /// The string itself.
    pub fn get(self) -> (res: String)
        ensures
            res@ == self@,
    {
        self.value
    }

    /// The string, borrowed.
    pub fn as_str(&self) -> (res: &str)
        ensures
            res@ == self@,
    {
        self.value.as_str()
    }
}

/// A string with at least one character that is not white space.
#[derive(Debug, PartialEq, Eq, PartialOrd, Ord, Hash)]
pub struct NonBlankString {
    value: String,
}

impl View for NonBlankString {
    type V = Seq<char>;

    closed spec fn view(&self) -> Seq<char> {
        self.value@
    }
}

impl Clone for NonBlankString {
    fn clone(&self) -> (res: Self)
        ensures
            res@ == self@,
    {
        Self { value: self.value.clone() }
    }
}

impl NonBlankString {
    /// The string is not blank.
    pub open spec fn wf(&self) -> bool {
        !is_blank(self@)
    }

    /// Accepts every string that is not blank; a blank one is handed back
    /// inside the error.
    pub fn new(string: String) -> (res: Result<Self, StringContentError>)
        ensures
            match res {
                Ok(text) => !is_blank(string@) && text@ == string@ && text.wf(),
                Err(StringContentError::Blank(content)) => is_blank(string@) && content@
                    == string@,
                Err(StringContentError::Empty) => false,
            },
    {
        if str_is_blank(string.as_str()) {
            Err(StringContentError::Blank(string))
        } else {
            Ok(Self::new_unchecked(string))
        }
    }

    /// Wraps a string that the caller has already checked.
    pub fn new_unchecked(string: String) -> (res: Self)
        requires
            !is_blank(string@),
        ensures
            res@ == string@,
            res.wf(),
    {
        Self { value: string }
    }

    /// The string itself.
    pub fn get(self) -> (res: String)
        ensures
            res@ == self@,
    {
        self.value
    }

    /// The string, borrowed.
    pub fn as_str(&self) -> (res: &str)
        ensures
            res@ == self@,
    {
        self.value.as_str()
    }

    /// Whether the text is that of `other`, character for character.
    pub fn eq_string(&self, other: &String) -> (res: bool)
        ensures
            res == (self@ == other@),
    {
        self.value == *other
    }
}

} // verus!
