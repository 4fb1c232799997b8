use vstd::prelude::*;

verus! {

/// Whether a promocode was accepted or denied.
#[derive(Debug, Clone, Copy, PartialEq, Eq, Structural)]
pub enum Status {
    Accepted,
    Denied,
}

impl Status {
    /// The word that stands for the status on the wire.
    pub open spec fn word(self) -> Seq<char> {
        match self {
            Status::Accepted => "accepted"@,
            Status::Denied => "denied"@,
        }
    }

    /// The status that a word stands for, if any.
    pub open spec fn of_word(word: Seq<char>) -> Option<Status> {
        if word == "accepted"@ {
            Some(Status::Accepted)
        } else if word == "denied"@ {
            Some(Status::Denied)
        } else {
            None
        }
    }

    /// The word that stands for the status on the wire.
    pub fn name(&self) -> (res: String)
        ensures
            res@ == self.word(),
    {
        match self {
            Status::Accepted => String::from_str("accepted"),
            Status::Denied => String::from_str("denied"),
        }
    }

    /// Reads a status from its word.
    pub fn from_name(word: &String) -> (res: Option<Status>)
        ensures
            res == Status::of_word(word@),
    {
        if *word == String::from_str("accepted") {
            Some(Status::Accepted)
        } else if *word == String::from_str("denied") {
            Some(Status::Denied)
        } else {
            None
        }
    }

    /// Each status is read back from its own word.
    pub proof fn lemma_word_round_trip(self)
        ensures
            Status::of_word(self.word()) == Some(self),
    {
        reveal_strlit("accepted");
        reveal_strlit("denied");
        assert("accepted"@.len() != "denied"@.len());
    }
}

} // verus!
