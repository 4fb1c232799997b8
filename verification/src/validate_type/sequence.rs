use crate::validate_type::error::SequenceContentError;
use std::collections::HashSet;
use std::hash::Hash;
use vstd::prelude::*;

verus! {

/// A vector with at least one element.
#[derive(Debug, Clone, PartialEq, Eq, PartialOrd, Ord, Hash)]
pub struct NonEmptyVec<T> {
    items: Vec<T>,
}

impl<T> View for NonEmptyVec<T> {
    type V = Seq<T>;

    closed spec fn view(&self) -> Seq<T> {
        self.items@
    }
}

impl<T> NonEmptyVec<T> {
    /// The vector is not empty.
    pub open spec fn wf(&self) -> bool {
        self@.len() > 0
    }

    /// Accepts every vector but the empty one.
    pub fn new(vec: Vec<T>) -> (res: Result<Self, SequenceContentError>)
        ensures
            match res {
                Ok(items) => vec@.len() > 0 && items@ == vec@ && items.wf(),
                Err(err) => vec@.len() == 0 && err == SequenceContentError::Empty,
            },
    {
        if vec.len() == 0 {
            Err(SequenceContentError::Empty)
        } else {
            Ok(Self::new_unchecked(vec))
        }
    }

    /// Wraps a vector that the caller has already checked.
    pub fn new_unchecked(vec: Vec<T>) -> (res: Self)
        requires
            vec@.len() > 0,
        ensures
            res@ == vec@,
            res.wf(),
    {
        Self { items: vec }
    }

    /// Wraps a vector as it is. For copies of a value that may itself hold
    /// no element.
    pub(crate) fn unvalidated(vec: Vec<T>) -> (res: Self)
        ensures
            res@ == vec@,
    {
        Self { items: vec }
    }

    /// The vector itself.
    pub fn get(self) -> (res: Vec<T>)
        ensures
            res@ == self@,
    {
        self.items
    }

    /// The elements, borrowed.
    pub fn as_vec(&self) -> (res: &Vec<T>)
        ensures
            res@ == self@,
    {
        &self.items
    }

    /// The elements are structurally smaller than the vector that holds
    /// them, so a recursion may descend into them.
    pub proof fn lemma_view_decreases(self)
        ensures
            decreases_to!(self => self@),
    {
        broadcast use vstd::std_specs::vec::axiom_vec_decreases_to_view;

        assert(decreases_to!(self.items => self.items@));
    }
}

/// A hash set with at least one element.
#[derive(Debug, PartialEq, Eq)]
pub struct NonEmptyHashSet<T: Eq + Hash> {
    items: HashSet<T>,
}

impl<T: Eq + Hash> View for NonEmptyHashSet<T> {
    type V = Set<T>;

    closed spec fn view(&self) -> Set<T> {
        self.items@
    }
}

impl<T: Eq + Hash> NonEmptyHashSet<T> {
    /// The set is not empty.
    pub open spec fn wf(&self) -> bool {
        !self@.is_empty()
    }

    /// Accepts every set but the empty one.
    pub fn new(hash_set: HashSet<T>) -> (res: Result<Self, SequenceContentError>)
        ensures
            match res {
                Ok(items) => !hash_set@.is_empty() && items@ == hash_set@ && items.wf(),
                Err(err) => hash_set@.is_empty() && err == SequenceContentError::Empty,
            },
    {
        if hash_set.is_empty() {
            Err(SequenceContentError::Empty)
        } else {
            Ok(Self::new_unchecked(hash_set))
        }
    }

    /// Wraps a set that the caller has already checked.
    pub fn new_unchecked(hash_set: HashSet<T>) -> (res: Self)
        requires
            !hash_set@.is_empty(),
        ensures
            res@ == hash_set@,
            res.wf(),
    {
        Self { items: hash_set }
    }

    /// The set itself.
    pub fn get(self) -> (res: HashSet<T>)
        ensures
            res@ == self@,
    {
        self.items
    }
}

} // verus!
