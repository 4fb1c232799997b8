//! The tags under which the variants of a restriction travel. On the wire
//! a restriction is an object whose key names the variant: `@date`, `@age`,
//! `@meteo`, `@and` or `@or`.

use crate::promocode::restriction::Restriction;
use crate::promocode::rules::RestrictionView;
use crate::promocode::shadow::RestrictionShadow;
use vstd::prelude::*;

verus! {

/// Which variant a restriction is.
#[derive(Debug, Clone, Copy, PartialEq, Eq, Structural)]
pub enum RestrictionKind {
    Date,
    Age,
    Meteo,
    And,
    Or,
}

/// The variant of a restriction, read off its content.
pub open spec fn kind_of(v: RestrictionView) -> RestrictionKind {
    match v {
        RestrictionView::Date { .. } => RestrictionKind::Date,
        RestrictionView::Age { .. } => RestrictionKind::Age,
        RestrictionView::Meteo { .. } => RestrictionKind::Meteo,
        RestrictionView::And(_) => RestrictionKind::And,
        RestrictionView::Or(_) => RestrictionKind::Or,
    }
}

/// The variant that an object with the given keys stands for: the first of
/// `@date`, `@age`, `@meteo`, `@and`, `@or` that is among the keys, whatever
/// else is; `None` where none of them is.
pub open spec fn kind_of_keys(keys: Seq<Seq<char>>) -> Option<RestrictionKind> {
    if keys.contains("@date"@) {
        Some(RestrictionKind::Date)
    } else if keys.contains("@age"@) {
        Some(RestrictionKind::Age)
    } else if keys.contains("@meteo"@) {
        Some(RestrictionKind::Meteo)
    } else if keys.contains("@and"@) {
        Some(RestrictionKind::And)
    } else if keys.contains("@or"@) {
        Some(RestrictionKind::Or)
    } else {
        None
    }
}

/// The text of each key of a list.
pub open spec fn keys_view(keys: Seq<String>) -> Seq<Seq<char>> {
    Seq::new(keys.len(), |i: int| keys[i]@)
}

/// Whether `wanted` is among the keys.
fn has_key(keys: &Vec<String>, wanted: &str) -> (res: bool)
    ensures
        res == keys_view(keys@).contains(wanted@),
{
    let wanted_key = String::from_str(wanted);
    let mut i: usize = 0;
    while i < keys.len()
        invariant
            i <= keys.len(),
            wanted_key@ == wanted@,
            forall|j: int| 0 <= j < i ==> (#[trigger] keys_view(keys@)[j]) != wanted@,
        decreases keys.len() - i,
    {
        assert(keys_view(keys@)[i as int] == keys@[i as int]@);
        if keys[i] == wanted_key {
            return true;
        }
        i += 1;
    }
    false
}

impl RestrictionKind {
    /// The tag of the variant.
    pub open spec fn tag_text(self) -> Seq<char> {
        match self {
            RestrictionKind::Date => "@date"@,
            RestrictionKind::Age => "@age"@,
            RestrictionKind::Meteo => "@meteo"@,
            RestrictionKind::And => "@and"@,
            RestrictionKind::Or => "@or"@,
        }
    }

    /// The tag of the variant.
    pub fn tag(&self) -> (res: String)
        ensures
            res@ == self.tag_text(),
    {
        match self {
            RestrictionKind::Date => String::from_str("@date"),
            RestrictionKind::Age => String::from_str("@age"),
            RestrictionKind::Meteo => String::from_str("@meteo"),
            RestrictionKind::And => String::from_str("@and"),
            RestrictionKind::Or => String::from_str("@or"),
        }
    }

    /// Picks the variant that an object with the given keys stands for.
    /// Fails where no key is the tag of a variant.
    pub fn select(keys: &Vec<String>) -> (res: Result<RestrictionKind, String>)
        ensures
            match res {
                Ok(kind) => kind_of_keys(keys_view(keys@)) == Some(kind),
                Err(err) => kind_of_keys(keys_view(keys@)) is None && err@
                    == "Unknown restriction type"@,
            },
    {
        if has_key(keys, "@date") {
            Ok(RestrictionKind::Date)
        } else if has_key(keys, "@age") {
            Ok(RestrictionKind::Age)
        } else if has_key(keys, "@meteo") {
            Ok(RestrictionKind::Meteo)
        } else if has_key(keys, "@and") {
            Ok(RestrictionKind::And)
        } else if has_key(keys, "@or") {
            Ok(RestrictionKind::Or)
        } else {
            Err(String::from_str("Unknown restriction type"))
        }
    }

    /// An object whose only key is the tag of a variant stands for that
    /// variant.
    pub proof fn lemma_tag_selects(self)
        ensures
            kind_of_keys(seq![self.tag_text()]) == Some(self),
    {
        reveal_strlit("@date");
        reveal_strlit("@age");
        reveal_strlit("@meteo");
        reveal_strlit("@and");
        reveal_strlit("@or");
        let keys = seq![self.tag_text()];
        assert(keys[0] == self.tag_text());
        assert(forall|key: Seq<char>| keys.contains(key) ==> key == self.tag_text());
        assert("@date"@.len() == 5 && "@age"@.len() == 4 && "@meteo"@.len() == 6 && "@and"@.len()
            == 4 && "@or"@.len() == 3);
        assert("@age"@[2] != "@and"@[2]);
    }
}

impl Restriction {
    /// Which variant the restriction is.
    pub fn kind(&self) -> (res: RestrictionKind)
        ensures
            res == kind_of(self@),
    {
        match self {
            Restriction::Date { .. } => RestrictionKind::Date,
            Restriction::Age { .. } => RestrictionKind::Age,
            Restriction::Meteo { .. } => RestrictionKind::Meteo,
            Restriction::And(_) => RestrictionKind::And,
            Restriction::Or(_) => RestrictionKind::Or,
        }
    }
}

impl RestrictionShadow {
    /// Which variant the shadow is.
    pub fn kind(&self) -> (res: RestrictionKind)
        ensures
            res == kind_of(self@),
    {
        match self {
            RestrictionShadow::Date { .. } => RestrictionKind::Date,
            RestrictionShadow::Age { .. } => RestrictionKind::Age,
            RestrictionShadow::Meteo { .. } => RestrictionKind::Meteo,
            RestrictionShadow::And(_) => RestrictionKind::And,
            RestrictionShadow::Or(_) => RestrictionKind::Or,
        }
    }
}

} // verus!
