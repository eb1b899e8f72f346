//! The target reference: the one that merge commits are created against.

use vstd::prelude::*;
use crate::remote::{contains_name, flatten_all, flattened_names, RemoteHead};

verus! {

/// Configuration of one repository.
#[derive(Clone, Debug, PartialEq, Eq)]
pub struct RepositoryConfiguration {
    /// URI to the repository remote.
    pub uri: String,
    /// Path to check the repository out to locally.
    pub checkout_path: String,
    /// Name of the remote to use; `origin` where there is none.
    pub remote: Option<String>,
    /// Namespace of the notes that merge metadata is kept in.
    pub notes_namespace: Option<String>,
    /// Fetch refspecs to add to the repository being checked out. They
    /// should cover the watched references.
    pub fetch_refspecs: Vec<String>,
    /// Push refspecs to add to the repository being checked out.
    pub push_refspecs: Vec<String>,
    /// Username to authenticate with the remote.
    pub username: Option<String>,
    /// Password to authenticate with the remote.
    pub password: Option<String>,
    /// Path to the private key to authenticate with the remote.
    pub key: Option<String>,
    /// Passphrase of the private key.
    pub key_passphrase: Option<String>,
    /// The reference to create merge commits against; the remote's default
    /// where there is none.
    pub target_ref: Option<String>,
    /// The name to create merge commits under.
    pub signature_name: Option<String>,
    /// The email to create merge commits under.
    pub signature_email: Option<String>,
}

/// What the resolver needs to know of the remote.
#[derive(Clone, Copy, Debug, PartialEq, Eq)]
pub enum RemoteQuery {
    /// Every reference the remote advertises.
    ListReferences,
    /// The reference the remote advertises as its default.
    DefaultReference,
}

/// What the remote said, or that it could not be asked.
#[derive(Debug)]
pub enum RemoteAnswer<E> {
    /// The advertised references.
    References(Vec<RemoteHead>),
    /// The advertised default reference, already flattened, if there is one.
    DefaultReference(Option<String>),
    /// The query failed.
    Failed(E),
}

/// Why no target reference could be resolved.
#[derive(Debug, PartialEq, Eq)]
pub enum ResolveError<E> {
    /// The configured target reference is not on the remote.
    TargetNotFound(String),
    /// No target is configured and the remote advertises no default.
    NoDefaultHead,
    /// The remote could not be asked; the error is handed on as it came.
    Remote(E),
}

/// The outcome of resolving a target reference from a remote's answer.
///
/// A failure of the remote is handed on. A configured target is returned
/// unchanged where it stands among the flattened names of the listing, and
/// is `TargetNotFound` otherwise. Without a configured target the remote's
/// default is taken, and `NoDefaultHead` where it advertises none. An answer
/// to the other query confirms nothing: it holds neither the listing that a
/// configured target is checked against nor a default.
pub open spec fn target_outcome<E>(configured: Option<String>, answer: RemoteAnswer<E>) -> Result<
    String,
    ResolveError<E>,
> {
    match (configured, answer) {
        (_, RemoteAnswer::Failed(error)) => Err(ResolveError::Remote(error)),
        (Some(name), RemoteAnswer::References(listing)) => if flattened_names(listing@).contains(
            name@,
        ) {
            Ok(name)
        } else {
            Err(ResolveError::TargetNotFound(name))
        },
        (Some(name), RemoteAnswer::DefaultReference(_)) => Err(ResolveError::TargetNotFound(name)),
        (None, RemoteAnswer::DefaultReference(Some(head))) => Ok(head),
        (None, _) => Err(ResolveError::NoDefaultHead),
    }
}

impl RepositoryConfiguration {
    /// What has to be asked of the remote to resolve the target reference:
    /// its listing where a target is configured, its default otherwise.
    pub open spec fn target_query_spec(&self) -> RemoteQuery {
        match self.target_ref {
            Some(_) => RemoteQuery::ListReferences,
            None => RemoteQuery::DefaultReference,
        }
    }

    /// The query whose answer [`RepositoryConfiguration::resolve_target_ref`]
    /// takes.
    pub fn target_query(&self) -> (query: RemoteQuery)
        ensures
            query == self.target_query_spec(),
    {
        match &self.target_ref {
            Some(_) => RemoteQuery::ListReferences,
            None => RemoteQuery::DefaultReference,
        }
    }

    /// Resolves the target reference from the remote's answer to
    /// [`RepositoryConfiguration::target_query`]. A configured target is
    /// checked against the listing and returned unchanged; without one the
    /// remote's default is taken. A failure of the remote is handed on, and
    /// an answer to the other query resolves nothing.
    pub fn resolve_target_ref<E>(&self, answer: RemoteAnswer<E>) -> (resolved: Result<
        String,
        ResolveError<E>,
    >)
        ensures
            resolved == target_outcome(self.target_ref, answer),
    {
        match answer {
            RemoteAnswer::Failed(error) => Err(ResolveError::Remote(error)),
            RemoteAnswer::References(listing) => match &self.target_ref {
                Some(reference) => {
                    let names = flatten_all(&listing);
                    if contains_name(&names, reference) {
                        Ok(reference.clone())
                    } else {
                        Err(ResolveError::TargetNotFound(reference.clone()))
                    }
                },
                None => Err(ResolveError::NoDefaultHead),
            },
            RemoteAnswer::DefaultReference(head) => match &self.target_ref {
                Some(reference) => Err(ResolveError::TargetNotFound(reference.clone())),
                None => match head {
                    Some(name) => Ok(name),
                    None => Err(ResolveError::NoDefaultHead),
                },
            },
        }
    }
}

} // verus!
