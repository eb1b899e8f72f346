//! What holds of every watch matcher and every snapshot.

use vstd::prelude::*;
use crate::remote::{flattened_names, RemoteHead};
use crate::target::{target_outcome, RemoteAnswer, ResolveError};
use crate::watch::WatchReferences;

verus! {

/// Soundness: a watched name is the flattened name of some entry of the
/// snapshot, and it is a configured exact name or the patterns match it.
pub proof fn watched_name_is_configured(
    watch: WatchReferences,
    snapshot: Seq<RemoteHead>,
    name: Seq<char>,
)
    requires
        watch.watched(snapshot).contains(name),
    ensures
        exists|i: int| 0 <= i < snapshot.len() && #[trigger] snapshot[i].flattened() == name,
        watch.exact_names().contains(name) || watch.accepted().contains(name),
{
    let flat = flattened_names(snapshot);
    let i = choose|i: int| 0 <= i < flat.len() && flat[i] == name;
    assert(snapshot[i].flattened() == name);
}

/// Completeness for exact names: a configured exact name that is the
/// flattened name of an entry of the snapshot is watched.
pub proof fn present_exact_name_is_watched(
    watch: WatchReferences,
    snapshot: Seq<RemoteHead>,
    at: int,
)
    requires
        0 <= at < snapshot.len(),
        watch.exact_names().contains(snapshot[at].flattened()),
    ensures
        watch.watched(snapshot).contains(snapshot[at].flattened()),
{
    assert(flattened_names(snapshot)[at] == snapshot[at].flattened());
}

/// A symbolic reference whose target the patterns match is watched under
/// the target's name. Its own name is watched only where that name is
/// itself the flattened name of some entry.
pub proof fn symbolic_reference_is_watched_as_target(
    watch: WatchReferences,
    snapshot: Seq<RemoteHead>,
    at: int,
)
    requires
        0 <= at < snapshot.len(),
        snapshot[at].symbolic_target is Some,
        watch.accepted().contains(snapshot[at].symbolic_target->0@),
    ensures
        watch.watched(snapshot).contains(snapshot[at].symbolic_target->0@),
        watch.watched(snapshot).contains(snapshot[at].name@) ==> exists|i: int|
            0 <= i < snapshot.len() && #[trigger] snapshot[i].flattened() == snapshot[at].name@,
{
    assert(flattened_names(snapshot)[at] == snapshot[at].symbolic_target->0@);
    if watch.watched(snapshot).contains(snapshot[at].name@) {
        watched_name_is_configured(watch, snapshot, snapshot[at].name@);
    }
}

/// A name is watched once however many rules it satisfies: in a list
/// without duplicates, a name that is there stands at one position only.
pub proof fn listed_name_stands_once(names: Seq<Seq<char>>, name: Seq<char>)
    requires
        names.no_duplicates(),
        names.contains(name),
    ensures
        exists|i: int|
            0 <= i < names.len() && #[trigger] names[i] == name && forall|j: int|
                0 <= j < names.len() && #[trigger] names[j] == name ==> j == i,
{
    let i = choose|i: int| 0 <= i < names.len() && names[i] == name;
    assert(forall|j: int| 0 <= j < names.len() && #[trigger] names[j] == name ==> j == i);
}

/// Without a configured target, the target is the remote's default exactly
/// when it reports one, and `NoDefaultHead` when it reports none.
pub proof fn unconfigured_target_is_the_default<E>(head: Option<String>)
    ensures
        head matches Some(name) ==> target_outcome::<E>(None, RemoteAnswer::DefaultReference(head))
            == Ok::<String, ResolveError<E>>(name),
        head is None ==> target_outcome::<E>(None, RemoteAnswer::DefaultReference(head)) == Err::<
            String,
            ResolveError<E>,
        >(ResolveError::NoDefaultHead),
{
}

/// A configured target is returned unchanged when it is the flattened name
/// of an entry of the listing, and is `TargetNotFound` with that name when
/// it is the flattened name of none.
pub proof fn configured_target_is_checked<E>(name: String, listing: Vec<RemoteHead>)
    ensures
        (exists|i: int| 0 <= i < listing@.len() && #[trigger] listing@[i].flattened() == name@)
            ==> target_outcome::<E>(Some(name), RemoteAnswer::References(listing)) == Ok::<
            String,
            ResolveError<E>,
        >(name),
        (forall|i: int| 0 <= i < listing@.len() ==> #[trigger] listing@[i].flattened() != name@)
            ==> target_outcome::<E>(Some(name), RemoteAnswer::References(listing)) == Err::<
            String,
            ResolveError<E>,
        >(ResolveError::TargetNotFound(name)),
{
    let flat = flattened_names(listing@);
    if exists|i: int| 0 <= i < listing@.len() && #[trigger] listing@[i].flattened() == name@ {
        let i = choose|i: int| 0 <= i < listing@.len() && #[trigger] listing@[i].flattened() == name@;
        assert(flat[i] == name@);
    }
    if flat.contains(name@) {
        let i = choose|i: int| 0 <= i < flat.len() && flat[i] == name@;
        assert(listing@[i].flattened() == name@);
    }
}

/// A failure of the remote is handed on as it came, whatever is configured.
pub proof fn remote_failure_is_handed_on<E>(configured: Option<String>, error: E)
    ensures
        target_outcome(configured, RemoteAnswer::Failed(error)) == Err::<String, ResolveError<E>>(
            ResolveError::Remote(error),
        ),
{
}

} // verus!
