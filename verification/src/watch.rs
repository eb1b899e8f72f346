//! The watch matcher: exact names and patterns, compiled once, then asked
//! which of a remote's references are in scope.

use vstd::prelude::*;
use regex::RegexSet;
use crate::pattern::{
    compile_set, compiled_language, error_text, regex_set_accepts, regex_set_patterns,
    set_is_match,
};
use crate::remote::{contains_name, flatten_all, flattened_names, texts, RemoteHead};

verus! {

/// Why a watch specification could not be compiled.
#[derive(Clone, Debug, PartialEq, Eq)]
pub enum ConfigError {
    /// The pattern list was refused.
    InvalidPattern {
        /// The first pattern that is refused even when compiled alone, if
        /// there is one.
        pattern: Option<String>,
        /// The pattern compiler's own account of the failure.
        reason: String,
    },
}

/// Whether a pattern is refused when compiled on its own.
pub open spec fn rejected_alone(pattern: Seq<char>) -> bool {
    compiled_language(seq![pattern]) is None
}

/// Whether `at` is the position of the first pattern refused on its own.
pub open spec fn first_rejected_at(patterns: Seq<Seq<char>>, at: int) -> bool {
    &&& 0 <= at < patterns.len()
    &&& rejected_alone(patterns[at])
    &&& forall|j: int| 0 <= j < at ==> !rejected_alone(#[trigger] patterns[j])
}

/// Whether a candidate name is in scope: it is among the flattened names of
/// the remote, and it is a configured exact name or the patterns match it.
pub open spec fn in_scope(
    exacts: Seq<Seq<char>>,
    accepted: Set<Seq<char>>,
    names: Seq<Seq<char>>,
    candidate: Seq<char>,
) -> bool {
    names.contains(candidate) && (exacts.contains(candidate) || accepted.contains(candidate))
}

/// The watched references of a remote, as a set of names.
pub open spec fn watch_set(
    exacts: Seq<Seq<char>>,
    accepted: Set<Seq<char>>,
    names: Seq<Seq<char>>,
) -> Set<Seq<char>> {
    Set::new(|candidate: Seq<char>| in_scope(exacts, accepted, names, candidate))
}

/// What is in scope once the first `exact_done` exact names and the first
/// `names_done` flattened names have been looked at.
spec fn in_scope_so_far(
    exacts: Seq<Seq<char>>,
    accepted: Set<Seq<char>>,
    names: Seq<Seq<char>>,
    exact_done: int,
    names_done: int,
    candidate: Seq<char>,
) -> bool {
    ||| names.contains(candidate) && exacts.take(exact_done).contains(candidate)
    ||| names.take(names_done).contains(candidate) && accepted.contains(candidate)
}

proof fn lemma_take_next<A>(s: Seq<A>, i: int, c: A)
    requires
        0 <= i < s.len(),
    ensures
        s.take(i + 1).contains(c) <==> s.take(i).contains(c) || s[i] == c,
{
    let longer = s.take(i + 1);
    let shorter = s.take(i);
    if longer.contains(c) {
        let k = choose|k: int| 0 <= k < longer.len() && longer[k] == c;
        if k < i {
            assert(shorter[k] == c);
        }
    }
    if shorter.contains(c) {
        let k = choose|k: int| 0 <= k < shorter.len() && shorter[k] == c;
        assert(longer[k] == c);
    }
    if s[i] == c {
        assert(longer[i] == c);
    }
}

proof fn lemma_push_contains<A>(s: Seq<A>, x: A, c: A)
    ensures
        s.push(x).contains(c) <==> s.contains(c) || x == c,
{
    let longer = s.push(x);
    if longer.contains(c) {
        let k = choose|k: int| 0 <= k < longer.len() && longer[k] == c;
        if k < s.len() {
            assert(s[k] == c);
        }
    }
    if s.contains(c) {
        let k = choose|k: int| 0 <= k < s.len() && s[k] == c;
        assert(longer[k] == c);
    }
    if x == c {
        assert(longer[s.len() as int] == c);
    }
}

/// A copy of a list of strings.
fn clone_names(names: &Vec<String>) -> (copy: Vec<String>)
    ensures
        copy@ == names@,
{
    let mut copy: Vec<String> = Vec::new();
    let mut i: usize = 0;
    while i < names.len()
        invariant
            i <= names.len(),
            copy.len() == i,
            forall|j: int| 0 <= j < i ==> copy[j] == names[j],
        decreases names.len() - i,
    {
        copy.push(names[i].clone());
        i = i + 1;
    }
    assert(copy@ =~= names@);
    copy
}

/// Adds a name to a list that holds no name twice, unless it is there.
fn push_unique(refs: &mut Vec<String>, name: &String)
    requires
        texts(old(refs)@).no_duplicates(),
    ensures
        texts(final(refs)@).no_duplicates(),
        forall|c: Seq<char>|
            texts(final(refs)@).contains(c) <==> texts(old(refs)@).contains(c) || c == name@,
{
    if !contains_name(refs, name) {
        let ghost before = refs@;
        refs.push(name.clone());
        proof {
            assert(texts(refs@) =~= texts(before).push(name@));
            assert forall|c: Seq<char>|
                texts(refs@).contains(c) <==> texts(before).contains(c) || c == name@ by {
                lemma_push_contains(texts(before), name@, c);
            }
        }
    }
}

/// The position of the first pattern that is refused on its own.
fn first_rejected(patterns: &Vec<String>) -> (found: Option<usize>)
    ensures
        match found {
            Some(at) => first_rejected_at(texts(patterns@), at as int),
            None => forall|j: int|
                0 <= j < patterns.len() ==> !rejected_alone(#[trigger] texts(patterns@)[j]),
        },
{
    let mut i: usize = 0;
    while i < patterns.len()
        invariant
            i <= patterns.len(),
            forall|j: int| 0 <= j < i ==> !rejected_alone(#[trigger] texts(patterns@)[j]),
        decreases patterns.len() - i,
    {
        let mut alone: Vec<String> = Vec::new();
        alone.push(patterns[i].clone());
        assert(texts(alone@) =~= seq![texts(patterns@)[i as int]]);
        if compile_set(&alone).is_err() {
            return Some(i);
        }
        i = i + 1;
    }
    None
}

/// A compiled watch specification.
#[derive(Debug)]
pub struct WatchReferences {
    regex_set: RegexSet,
    exact_list: Vec<String>,
}

impl WatchReferences {
    /// The configured exact names, in order.
    pub closed spec fn exact_names(&self) -> Seq<Seq<char>> {
        texts(self.exact_list@)
    }

    /// The configured patterns, in order.
    pub closed spec fn patterns(&self) -> Seq<Seq<char>> {
        regex_set_patterns(self.regex_set)
    }

    /// The texts that the compiled patterns match.
    pub closed spec fn accepted(&self) -> Set<Seq<char>> {
        regex_set_accepts(self.regex_set)
    }

    /// The names that are watched on a remote with the given snapshot.
    pub open spec fn watched(&self, snapshot: Seq<RemoteHead>) -> Set<Seq<char>> {
        watch_set(self.exact_names(), self.accepted(), flattened_names(snapshot))
    }

    /// Compiles exact names and patterns into a matcher. The patterns are
    /// compiled together; where that fails there is no matcher at all.
    pub fn new(exacts: &Vec<String>, regexes: &Vec<String>) -> (compiled: Result<
        WatchReferences,
        ConfigError,
    >)
        ensures
            compiled is Ok <==> compiled_language(texts(regexes@)) is Some,
            regexes@.len() == 0 ==> compiled is Ok,
            compiled matches Ok(watch) ==> {
                &&& watch.exact_names() == texts(exacts@)
                &&& watch.patterns() == texts(regexes@)
                &&& compiled_language(texts(regexes@)) == Some(watch.accepted())
            },
            compiled matches Err(ConfigError::InvalidPattern { pattern, reason }) ==> match pattern {
                Some(p) => exists|at: int|
                    #[trigger] first_rejected_at(texts(regexes@), at) && p@ == texts(regexes@)[at],
                None => forall|j: int|
                    0 <= j < regexes.len() ==> !rejected_alone(#[trigger] texts(regexes@)[j]),
            },
    {
        match compile_set(regexes) {
            Ok(regex_set) => Ok(WatchReferences { regex_set, exact_list: clone_names(exacts) }),
            Err(error) => {
                let reason = error_text(&error);
                let pattern = match first_rejected(regexes) {
                    Some(at) => Some(regexes[at].clone()),
                    None => None,
                };
                Err(ConfigError::InvalidPattern { pattern, reason })
            },
        }
    }

    /// Given the references a remote advertises, returns the watched ones
    /// that exist there, each under its flattened name and each once.
    pub fn resolve_watch_refs(&self, remote_ls: &Vec<RemoteHead>) -> (refs: Vec<String>)
        ensures
            texts(refs@).no_duplicates(),
            texts(refs@).to_set() == self.watched(remote_ls@),
            self.exact_names().len() == 0 && self.patterns().len() == 0 ==> refs@.len() == 0,
    {
        let names = flatten_all(remote_ls);
        let ghost exacts = self.exact_names();
        let ghost accepted = self.accepted();
        let ghost flat = flattened_names(remote_ls@);
        let mut refs: Vec<String> = Vec::new();

        let mut i: usize = 0;
        while i < self.exact_list.len()
            invariant
                i <= self.exact_list.len(),
                exacts == texts(self.exact_list@),
                flat == texts(names@),
                texts(refs@).no_duplicates(),
                exacts.len() == 0 ==> refs@.len() == 0,
                forall|c: Seq<char>|
                    texts(refs@).contains(c) <==> in_scope_so_far(
                        exacts,
                        accepted,
                        flat,
                        i as int,
                        0,
                        c,
                    ),
            decreases self.exact_list.len() - i,
        {
            if contains_name(&names, &self.exact_list[i]) {
                push_unique(&mut refs, &self.exact_list[i]);
            }
            proof {
                assert forall|c: Seq<char>|
                    texts(refs@).contains(c) <==> in_scope_so_far(
                        exacts,
                        accepted,
                        flat,
                        i + 1,
                        0,
                        c,
                    ) by {
                    lemma_take_next(exacts, i as int, c);
                }
            }
            i = i + 1;
        }
        assert(exacts.take(exacts.len() as int) =~= exacts);

        let mut k: usize = 0;
        while k < names.len()
            invariant
                k <= names.len(),
                i == self.exact_list.len(),
                exacts == texts(self.exact_list@),
                exacts.take(i as int) == exacts,
                accepted == regex_set_accepts(self.regex_set),
                flat == texts(names@),
                texts(refs@).no_duplicates(),
                exacts.len() == 0 && regex_set_patterns(self.regex_set).len() == 0
                    ==> refs@.len() == 0,
                forall|c: Seq<char>|
                    texts(refs@).contains(c) <==> in_scope_so_far(
                        exacts,
                        accepted,
                        flat,
                        i as int,
                        k as int,
                        c,
                    ),
            decreases names.len() - k,
        {
            if set_is_match(&self.regex_set, names[k].as_str()) {
                push_unique(&mut refs, &names[k]);
            }
            proof {
                assert forall|c: Seq<char>|
                    texts(refs@).contains(c) <==> in_scope_so_far(
                        exacts,
                        accepted,
                        flat,
                        i as int,
                        k + 1,
                        c,
                    ) by {
                    lemma_take_next(flat, k as int, c);
                }
            }
            k = k + 1;
        }
        proof {
            assert(flat.take(flat.len() as int) =~= flat);
            assert(texts(refs@).to_set() =~= watch_set(exacts, accepted, flat));
        }
        refs
    }
}

} // verus!
