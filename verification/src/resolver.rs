//! The collection resolver: from a collection name to a usable collection.
//!
//! The name `default` never designates a collection by its label: it always
//! designates the daemon's default collection.

use vstd::prelude::*;
use vstd::string::*;
use crate::daemon::{paths, Call, CallView, Locator, Reply, ReplyView};
use crate::error::{ServiceError, ServiceErrorView};
use crate::text::{
    ascii_lowered,
    default_name,
    is_default,
    is_default_ignoring_case,
    same_text,
};

verus! {

/// Where a resolution stands: which reply it is waiting for.
#[derive(Debug)]
pub enum Resolver {
    /// Asked for the default collection.
    FetchingDefault,
    /// Asked for the list of collections, looking for the label `name`.
    Listing { name: String },
    /// Asked for the label of `current`; `rest` has not been looked at yet.
    Scanning { name: String, current: Locator, rest: Vec<Locator> },
    /// Asked whether `collection`, the one found, is locked.
    CheckingLock { collection: Locator },
    /// Asked to unlock `collection`.
    Unlocking { collection: Locator },
    /// Asked for a collection to be created, or for the default one in its
    /// place.
    Creating,
}

/// The mathematical content of a [`Resolver`].
pub enum ResolverView {
    FetchingDefault,
    Listing { name: Seq<char> },
    Scanning { name: Seq<char>, current: Seq<char>, rest: Seq<Seq<char>> },
    CheckingLock { collection: Seq<char> },
    Unlocking { collection: Seq<char> },
    Creating,
}

impl View for Resolver {
    type V = ResolverView;

    open spec fn view(&self) -> ResolverView {
        match self {
            Resolver::FetchingDefault => ResolverView::FetchingDefault,
            Resolver::Listing { name } => ResolverView::Listing { name: name@ },
            Resolver::Scanning { name, current, rest } => ResolverView::Scanning {
                name: name@,
                current: current@,
                rest: paths(rest@),
            },
            Resolver::CheckingLock { collection } => ResolverView::CheckingLock {
                collection: collection@,
            },
            Resolver::Unlocking { collection } => ResolverView::Unlocking {
                collection: collection@,
            },
            Resolver::Creating => ResolverView::Creating,
        }
    }
}

/// What a resolution does next.
#[derive(Debug)]
pub enum Resolution<E> {
    /// Put the call to the daemon and hand its reply to
    /// [`Resolver::advance`].
    Ask(Resolver, Call),
    /// The resolution is over.
    Resolved(Result<Locator, ServiceError<E>>),
}

/// The mathematical content of a [`Resolution`].
pub enum ResolutionView<E> {
    Ask(ResolverView, CallView),
    Resolved(Result<Seq<char>, ServiceErrorView<E>>),
}

impl<E> View for Resolution<E> {
    type V = ResolutionView<E>;

    open spec fn view(&self) -> ResolutionView<E> {
        match self {
            Resolution::Ask(resolver, call) => ResolutionView::Ask(resolver@, call@),
            Resolution::Resolved(Ok(collection)) => ResolutionView::Resolved(Ok(collection@)),
            Resolution::Resolved(Err(error)) => ResolutionView::Resolved(Err(error@)),
        }
    }
}

impl ResolverView {
    /// How the resolution of `name` begins: the default collection is asked
    /// for by its role, any other by a walk through all collections.
    pub open spec fn resolve(name: Seq<char>) -> (ResolverView, CallView) {
        if name == default_name() {
            (ResolverView::FetchingDefault, CallView::DefaultCollection)
        } else {
            (ResolverView::Listing { name }, CallView::AllCollections)
        }
    }

    /// How obtaining a collection named `name`, creating it if need be,
    /// begins. A name that reads `default` in any mix of capital and small
    /// letters stands for the default collection, which is never created.
    pub open spec fn create_or_get(name: Seq<char>) -> (ResolverView, CallView) {
        if ascii_lowered(name) == default_name() {
            (ResolverView::Creating, CallView::DefaultCollection)
        } else {
            (ResolverView::Creating, CallView::CreateCollection { label: name, alias: Seq::empty() })
        }
    }

    /// The walk moves on to the candidates not yet looked at, or ends.
    pub open spec fn scan_on<E>(name: Seq<char>, rest: Seq<Seq<char>>) -> ResolutionView<E> {
        if rest.len() == 0 {
            ResolutionView::Resolved(Err(ServiceErrorView::NotFound))
        } else {
            ResolutionView::Ask(
                ResolverView::Scanning { name, current: rest.first(), rest: rest.drop_first() },
                CallView::CollectionLabel { collection: rest.first() },
            )
        }
    }

    /// The collection does not exist.
    pub open spec fn missing<E>() -> ResolutionView<E> {
        ResolutionView::Resolved(Err(ServiceErrorView::NotFound))
    }

    /// The collection `collection` was found; it is handed out unlocked.
    pub open spec fn found<E>(collection: Seq<char>) -> ResolutionView<E> {
        ResolutionView::Ask(
            ResolverView::CheckingLock { collection },
            CallView::CollectionLocked { collection },
        )
    }

    /// What the resolution does on the daemon's reply.
    pub open spec fn advance<E>(self, reply: ReplyView<E>) -> ResolutionView<E> {
        match self {
            ResolverView::FetchingDefault => match reply {
                ReplyView::Collection(collection) => Self::found(collection),
                ReplyView::Gone(_) => Self::missing(),
                ReplyView::Failed(cause) => ResolutionView::Resolved(
                    Err(ServiceErrorView::DecodeFailure(cause)),
                ),
                _ => ResolutionView::Resolved(Err(ServiceErrorView::Fatal)),
            },
            ResolverView::Listing { name } => match reply {
                ReplyView::Collections(all) => Self::scan_on(name, all),
                ReplyView::Gone(cause) => ResolutionView::Resolved(
                    Err(ServiceErrorView::DecodeFailure(cause)),
                ),
                ReplyView::Failed(cause) => ResolutionView::Resolved(
                    Err(ServiceErrorView::DecodeFailure(cause)),
                ),
                _ => ResolutionView::Resolved(Err(ServiceErrorView::Fatal)),
            },
            ResolverView::Scanning { name, current, rest } => match reply {
                ReplyView::Text(label) => if label == name {
                    Self::found(current)
                } else {
                    Self::scan_on(name, rest)
                },
                ReplyView::Gone(_) => Self::scan_on(name, rest),
                ReplyView::Failed(_) => Self::scan_on(name, rest),
                _ => ResolutionView::Resolved(Err(ServiceErrorView::Fatal)),
            },
            ResolverView::CheckingLock { collection } => match reply {
                ReplyView::Flag(locked) => if locked {
                    ResolutionView::Ask(
                        ResolverView::Unlocking { collection },
                        CallView::UnlockCollection { collection },
                    )
                } else {
                    ResolutionView::Resolved(Ok(collection))
                },
                ReplyView::Gone(_) => Self::missing(),
                ReplyView::Failed(cause) => ResolutionView::Resolved(
                    Err(ServiceErrorView::DecodeFailure(cause)),
                ),
                _ => ResolutionView::Resolved(Err(ServiceErrorView::Fatal)),
            },
            ResolverView::Unlocking { collection } => match reply {
                ReplyView::Done => ResolutionView::Resolved(Ok(collection)),
                ReplyView::Gone(_) => Self::missing(),
                ReplyView::Failed(cause) => ResolutionView::Resolved(
                    Err(ServiceErrorView::DecodeFailure(cause)),
                ),
                _ => ResolutionView::Resolved(Err(ServiceErrorView::Fatal)),
            },
            ResolverView::Creating => match reply {
                ReplyView::Collection(collection) => ResolutionView::Resolved(Ok(collection)),
                ReplyView::Gone(_) => Self::missing(),
                ReplyView::Failed(cause) => ResolutionView::Resolved(
                    Err(ServiceErrorView::DecodeFailure(cause)),
                ),
                _ => ResolutionView::Resolved(Err(ServiceErrorView::Fatal)),
            },
        }
    }
}

impl ResolverView {
    /// A measure of how far the resolution is from its end. Every reply
    /// makes it smaller.
    pub open spec fn weight(self) -> (nat, nat) {
        match self {
            ResolverView::FetchingDefault => (0, 3),
            ResolverView::Listing { .. } => (1, 0),
            ResolverView::Scanning { rest, .. } => (0, rest.len() + 3),
            ResolverView::CheckingLock { .. } => (0, 2),
            ResolverView::Unlocking { .. } => (0, 1),
            ResolverView::Creating => (0, 1),
        }
    }
}

impl<E> ResolutionView<E> {
    /// The measure of the resolver that asks, and the least measure once
    /// the resolution is over.
    pub open spec fn weight(self) -> (nat, nat) {
        match self {
            ResolutionView::Ask(resolver, _) => resolver.weight(),
            ResolutionView::Resolved(_) => (0, 0),
        }
    }
}

/// Every reply brings a resolution nearer to its end.
pub proof fn lemma_advance_decreases<E>(resolver: ResolverView, reply: ReplyView<E>)
    ensures
        resolver.advance(reply).weight().0 < resolver.weight().0 || (resolver.advance(
            reply,
        ).weight().0 == resolver.weight().0 && resolver.advance(reply).weight().1
            < resolver.weight().1),
{
}

/// Where a resolution stands after the daemon has given `replies` in turn.
pub open spec fn resolve_run<E>(
    step: ResolutionView<E>,
    replies: Seq<ReplyView<E>>,
) -> ResolutionView<E>
    decreases replies.len(),
{
    if replies.len() == 0 {
        step
    } else {
        match step {
            ResolutionView::Ask(resolver, _) => resolve_run(
                resolver.advance(replies.first()),
                replies.drop_first(),
            ),
            ResolutionView::Resolved(_) => step,
        }
    }
}

/// The calls put to the daemon on the way that [`resolve_run`] describes.
pub open spec fn resolve_asked<E>(
    step: ResolutionView<E>,
    replies: Seq<ReplyView<E>>,
) -> Seq<CallView>
    decreases replies.len(),
{
    match step {
        ResolutionView::Ask(resolver, call) => if replies.len() == 0 {
            seq![call]
        } else {
            seq![call] + resolve_asked(resolver.advance(replies.first()), replies.drop_first())
        },
        ResolutionView::Resolved(_) => Seq::empty(),
    }
}

fn scan_on<E>(name: String, rest: Vec<Locator>) -> (next: Resolution<E>)
    ensures
        next@ == ResolverView::scan_on::<E>(name@, paths(rest@)),
{
    let mut rest = rest;
    if rest.len() == 0 {
        Resolution::Resolved(Err(ServiceError::NotFound))
    } else {
        let ghost before = rest@;
        let current = rest.remove(0);
        let asked = current.clone();
        assert(paths(rest@) =~= paths(before).drop_first());
        Resolution::Ask(
            Resolver::Scanning { name, current, rest },
            Call::CollectionLabel { collection: asked },
        )
    }
}

fn found<E>(collection: Locator) -> (next: Resolution<E>)
    ensures
        next@ == ResolverView::found::<E>(collection@),
{
    let asked = collection.clone();
    Resolution::Ask(
        Resolver::CheckingLock { collection },
        Call::CollectionLocked { collection: asked },
    )
}

impl Resolver {
    /// Begins to resolve `name` to an existing, unlocked collection.
    pub fn resolve(name: &str) -> (start: (Resolver, Call))
        ensures
            (start.0@, start.1@) == ResolverView::resolve(name@),
    {
        if is_default(name) {
            (Resolver::FetchingDefault, Call::DefaultCollection)
        } else {
            (Resolver::Listing { name: name.to_owned() }, Call::AllCollections)
        }
    }

    /// Begins to obtain the collection named `name`, creating it if it does
    /// not exist.
    pub fn create_or_get(name: &str) -> (start: (Resolver, Call))
        ensures
            (start.0@, start.1@) == ResolverView::create_or_get(name@),
    {
        if is_default_ignoring_case(name) {
            (Resolver::Creating, Call::DefaultCollection)
        } else {
            (
                Resolver::Creating,
                Call::CreateCollection { label: name.to_owned(), alias: String::new() },
            )
        }
    }

    /// Takes the daemon's reply to the call that was asked last.
    pub fn advance<E>(self, reply: Reply<E>) -> (next: Resolution<E>)
        ensures
            next@ == self@.advance(reply@),
    {
        match self {
            Resolver::FetchingDefault => match reply {
                Reply::Collection(collection) => found(collection),
                Reply::Gone(_) => Resolution::Resolved(Err(ServiceError::NotFound)),
                Reply::Failed(cause) => Resolution::Resolved(
                    Err(ServiceError::DecodeFailure(cause)),
                ),
                _ => Resolution::Resolved(Err(ServiceError::Fatal)),
            },
            Resolver::Listing { name } => match reply {
                Reply::Collections(all) => scan_on(name, all),
                Reply::Gone(cause) => Resolution::Resolved(
                    Err(ServiceError::DecodeFailure(cause)),
                ),
                Reply::Failed(cause) => Resolution::Resolved(
                    Err(ServiceError::DecodeFailure(cause)),
                ),
                _ => Resolution::Resolved(Err(ServiceError::Fatal)),
            },
            Resolver::Scanning { name, current, rest } => match reply {
                Reply::Text(label) => if same_text(label.as_str(), name.as_str()) {
                    found(current)
                } else {
                    scan_on(name, rest)
                },
                Reply::Gone(_) => scan_on(name, rest),
                Reply::Failed(_) => scan_on(name, rest),
                _ => Resolution::Resolved(Err(ServiceError::Fatal)),
            },
            Resolver::CheckingLock { collection } => match reply {
                Reply::Flag(locked) => if locked {
                    let asked = collection.clone();
                    Resolution::Ask(
                        Resolver::Unlocking { collection },
                        Call::UnlockCollection { collection: asked },
                    )
                } else {
                    Resolution::Resolved(Ok(collection))
                },
                Reply::Gone(_) => Resolution::Resolved(Err(ServiceError::NotFound)),
                Reply::Failed(cause) => Resolution::Resolved(
                    Err(ServiceError::DecodeFailure(cause)),
                ),
                _ => Resolution::Resolved(Err(ServiceError::Fatal)),
            },
            Resolver::Unlocking { collection } => match reply {
                Reply::Done => Resolution::Resolved(Ok(collection)),
                Reply::Gone(_) => Resolution::Resolved(Err(ServiceError::NotFound)),
                Reply::Failed(cause) => Resolution::Resolved(
                    Err(ServiceError::DecodeFailure(cause)),
                ),
                _ => Resolution::Resolved(Err(ServiceError::Fatal)),
            },
            Resolver::Creating => match reply {
                Reply::Collection(collection) => Resolution::Resolved(Ok(collection)),
                Reply::Gone(_) => Resolution::Resolved(Err(ServiceError::NotFound)),
                Reply::Failed(cause) => Resolution::Resolved(
                    Err(ServiceError::DecodeFailure(cause)),
                ),
                _ => Resolution::Resolved(Err(ServiceError::Fatal)),
            },
        }
    }
}

} // verus!
