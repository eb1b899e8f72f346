//! The references a remote advertises, and how symbolic ones are flattened.

use vstd::prelude::*;

verus! {

/// The text of each string of a sequence, in order.
pub open spec fn texts(strings: Seq<String>) -> Seq<Seq<char>> {
    Seq::new(strings.len(), |i: int| strings[i]@)
}

/// One reference as a remote advertises it.
#[derive(Clone, Debug, PartialEq, Eq)]
pub struct RemoteHead {
    /// Full name of the reference, such as `refs/heads/master`.
    pub name: String,
    /// The reference this one is an alias of, if it is symbolic.
    pub symbolic_target: Option<String>,
}

impl RemoteHead {
    /// A reference always has a name.
    pub open spec fn well_formed(&self) -> bool {
        self.name@.len() > 0
    }

    /// The name under which the reference is matched: the target of a
    /// symbolic reference, the reference's own name otherwise.
    pub open spec fn flattened(&self) -> Seq<char> {
        match self.symbolic_target {
            Some(target) => target@,
            None => self.name@,
        }
    }

    /// Builds a reference; there is none without a name.
    pub fn new(name: String, symbolic_target: Option<String>) -> (head: Option<RemoteHead>)
        ensures
            head is Some <==> name@.len() > 0,
            head matches Some(h) ==> h.name == name && h.symbolic_target == symbolic_target
                && h.well_formed(),
    {
        if name.as_str().is_empty() {
            None
        } else {
            Some(RemoteHead { name, symbolic_target })
        }
    }

    /// The flattened name, as an owned string.
    pub fn flatten_clone(&self) -> (flat: String)
        ensures
            flat@ == self.flattened(),
    {
        match &self.symbolic_target {
            Some(target) => target.clone(),
            None => self.name.clone(),
        }
    }
}

/// The flattened name of every entry of a snapshot, one per entry, in order.
pub open spec fn flattened_names(snapshot: Seq<RemoteHead>) -> Seq<Seq<char>> {
    Seq::new(snapshot.len(), |i: int| snapshot[i].flattened())
}

/// Flattens a whole snapshot. Nothing is dropped or merged here: the result
/// is as long as the snapshot.
pub fn flatten_all(snapshot: &Vec<RemoteHead>) -> (names: Vec<String>)
    ensures
        texts(names@) == flattened_names(snapshot@),
{
    let mut names: Vec<String> = Vec::new();
    let mut i: usize = 0;
    while i < snapshot.len()
        invariant
            i <= snapshot.len(),
            names.len() == i,
            forall|j: int| 0 <= j < i ==> (#[trigger] names[j])@ == snapshot[j].flattened(),
        decreases snapshot.len() - i,
    {
        names.push(snapshot[i].flatten_clone());
        i = i + 1;
    }
    assert(texts(names@) =~= flattened_names(snapshot@));
    names
}

/// Whether `wanted` stands verbatim among `names`.
pub fn contains_name(names: &Vec<String>, wanted: &String) -> (found: bool)
    ensures
        found == texts(names@).contains(wanted@),
{
    let mut i: usize = 0;
    while i < names.len()
        invariant
            i <= names.len(),
            forall|j: int| 0 <= j < i ==> (#[trigger] names[j])@ != wanted@,
        decreases names.len() - i,
    {
        if names[i] == *wanted {
            assert(texts(names@)[i as int] == wanted@);
            return true;
        }
        i = i + 1;
    }
    assert(forall|j: int| 0 <= j < names.len() ==> (#[trigger] texts(names@)[j]) == names[j]@);
    false
}

} // verus!
