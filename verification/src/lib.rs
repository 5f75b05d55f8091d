//! A small model of documentation "tours": annotated stops inside source
//! repositories, located by validated path values.
//!
//! The heart of the crate is the [`path`] module, which keeps two path
//! representations deliberately apart: an absolute, host-native filesystem
//! location ([`path::AbsolutePathBuf`]) and a repository-relative logical
//! location stored as a sequence of named components
//! ([`path::RelativePathBuf`]). Both are validated at construction, so a raw,
//! unvalidated string can never stand in for either. The records in this file
//! ([`Stop`], [`Tour`], [`Index`]) are passive aggregates of already-validated
//! paths.

use vstd::prelude::*;

pub mod path;

use path::AbsolutePathBuf;
use path::RelativePathBuf;
use std::collections::HashMap;

verus! {

/// One annotated location inside a repository: a title and body of
/// documentation attached to a line of the file at `path`, which is relative
/// to the root of the repository named `repository`.
pub struct Stop {
    pub id: String,
    pub title: String,
    pub body: String,
    pub path: RelativePathBuf,
    pub repository: String,
    /// Line number of the stop, kept exactly as supplied.
    pub line: usize,
}

/// An ordered collection of [`Stop`]s, together with a mapping from each
/// repository name to a locator string (for example a clone URL).
///
/// A well-assembled tour satisfies [`Tour::stops_resolved`]: every stop's
/// `repository` is a key of `repositories`. This is a documented obligation on
/// whoever assembles the record, not a guarantee re-checked on access.
pub struct Tour {
    pub protocol_version: String,
    pub id: String,
    pub title: String,
    pub description: String,
    pub stops: Vec<Stop>,
    pub repositories: HashMap<String, String>,
}

impl Tour {
    /// Every stop names a repository that the tour's mapping knows about.
    ///
    /// Consumers of a `Tour` may rely on this only if the producer upheld it;
    /// the record itself does not enforce it.
    pub open spec fn stops_resolved(&self) -> bool {
        forall|i: int|
            0 <= i < self.stops@.len() ==> self.repositories@.contains_key(
                #[trigger] self.stops@[i].repository,
            )
    }

    /// Checks [`Tour::stops_resolved`] on an assembled tour.
    ///
    /// The result is tied to the predicate under vstd's model of
    /// `std::collections::HashMap` lookups, which is conditional on the key
    /// type and hasher obeying that model.
    pub fn check_stops_resolved(&self) -> (r: bool)
        ensures
            vstd::std_specs::hash::obeys_key_model::<String>()
                && vstd::std_specs::hash::builds_valid_hashers::<
                std::collections::hash_map::RandomState,
            >() ==> r == self.stops_resolved(),
    {
        broadcast use vstd::std_specs::hash::group_hash_axioms;

        let mut i: usize = 0;
        while i < self.stops.len()
            invariant
                0 <= i <= self.stops@.len(),
                vstd::std_specs::hash::obeys_key_model::<String>()
                    && vstd::std_specs::hash::builds_valid_hashers::<
                    std::collections::hash_map::RandomState,
                >() ==> forall|j: int|
                    0 <= j < i ==> self.repositories@.contains_key(
                        #[trigger] self.stops@[j].repository,
                    ),
            decreases self.stops@.len() - i,
        {
            if !self.repositories.contains_key(&self.stops[i].repository) {
                return false;
            }
            i += 1;
        }
        true
    }
}

/// A mapping from a name (for example a repository name) to the absolute path
/// it was resolved to. Built by an external resolution step and consumed
/// read-only here.
pub type Index = HashMap<String, AbsolutePathBuf>;

} // verus!
