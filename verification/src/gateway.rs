//! The gateway: every operation on items and collections, as a session that
//! asks the daemon one call at a time.
//!
//! A driver begins a session with [`Session::begin`], performs each call
//! that the session asks for, hands the daemon's reply to
//! [`Session::advance`], and stops when the session has finished. The driver
//! holds the connection, exclusively, from `begin` to the end.

use vstd::prelude::*;
use vstd::string::*;
use crate::attributes::{AttributeMap, Attributes};
use crate::daemon::{clone_locators, paths, Call, CallView, Locator, Reply, ReplyView};
use crate::error::{ServiceError, ServiceErrorView};
use crate::resolver::{Resolution, ResolutionView, Resolver, ResolverView};
use crate::text::{default_name, is_default};

verus! {

/// The content type under which a new item's secret is stored.
pub open spec fn octet_stream() -> Seq<char> {
    "application/octet-stream"@
}

/// The content type under which a replaced secret is stored.
pub open spec fn plain_text() -> Seq<char> {
    "text/plain"@
}

/// Why the default collection is not deleted.
pub open spec fn default_kept() -> Seq<char> {
    "You cannot delete the default collection"@
}

/// An operation asked of the gateway.
#[derive(Debug)]
pub enum Request {
    /// Find, in all collections, the items whose attributes include all of
    /// `attributes`, and make them usable.
    FindMatchingItems { attributes: Attributes },
    /// Store a secret as an item of the collection named `collection`,
    /// creating the collection if there is none of that name.
    CreateItem { collection: String, label: String, attributes: Attributes, secret: Vec<u8> },
    /// Delete the collection named `collection`.
    DeleteCollection { collection: String },
    /// Make sure that `item` is unlocked.
    EnsureUnlocked { item: Locator },
    /// Replace the secret of `item`.
    SetSecret { item: Locator, secret: Vec<u8> },
    /// Read the secret of `item`.
    GetSecret { item: Locator },
    /// Read all attributes of `item`.
    GetAttributes { item: Locator },
    /// Set the attributes `attributes` on `item`, keeping its other
    /// attributes.
    UpdateAttributes { item: Locator, attributes: Attributes },
    /// Delete `item`.
    Delete { item: Locator },
    /// Read the label of `item`.
    GetLabel { item: Locator },
    /// Replace the label of `item`.
    SetLabel { item: Locator, label: String },
}

/// The mathematical content of a [`Request`].
pub enum RequestView {
    FindMatchingItems { attributes: AttributeMap },
    CreateItem {
        collection: Seq<char>,
        label: Seq<char>,
        attributes: AttributeMap,
        secret: Seq<u8>,
    },
    DeleteCollection { collection: Seq<char> },
    EnsureUnlocked { item: Seq<char> },
    SetSecret { item: Seq<char>, secret: Seq<u8> },
    GetSecret { item: Seq<char> },
    GetAttributes { item: Seq<char> },
    UpdateAttributes { item: Seq<char>, attributes: AttributeMap },
    Delete { item: Seq<char> },
    GetLabel { item: Seq<char> },
    SetLabel { item: Seq<char>, label: Seq<char> },
}

impl View for Request {
    type V = RequestView;

    open spec fn view(&self) -> RequestView {
        match self {
            Request::FindMatchingItems { attributes } => RequestView::FindMatchingItems {
                attributes: attributes@,
            },
            Request::CreateItem { collection, label, attributes, secret } => {
                RequestView::CreateItem {
                    collection: collection@,
                    label: label@,
                    attributes: attributes@,
                    secret: secret@,
                }
            },
            Request::DeleteCollection { collection } => RequestView::DeleteCollection {
                collection: collection@,
            },
            Request::EnsureUnlocked { item } => RequestView::EnsureUnlocked { item: item@ },
            Request::SetSecret { item, secret } => RequestView::SetSecret {
                item: item@,
                secret: secret@,
            },
            Request::GetSecret { item } => RequestView::GetSecret { item: item@ },
            Request::GetAttributes { item } => RequestView::GetAttributes { item: item@ },
            Request::UpdateAttributes { item, attributes } => RequestView::UpdateAttributes {
                item: item@,
                attributes: attributes@,
            },
            Request::Delete { item } => RequestView::Delete { item: item@ },
            Request::GetLabel { item } => RequestView::GetLabel { item: item@ },
            Request::SetLabel { item, label } => RequestView::SetLabel {
                item: item@,
                label: label@,
            },
        }
    }
}

/// What a successful operation hands back.
#[derive(Debug)]
pub enum Answer {
    /// Nothing: the operation was carried out.
    Done,
    /// The items found, usable at once.
    Items(Vec<Locator>),
    /// A secret.
    Secret(Vec<u8>),
    /// An item's attributes.
    Attributes(Attributes),
    /// An item's label.
    Label(String),
}

/// The mathematical content of an [`Answer`].
pub enum AnswerView {
    Done,
    Items(Seq<Seq<char>>),
    Secret(Seq<u8>),
    Attributes(AttributeMap),
    Label(Seq<char>),
}

impl View for Answer {
    type V = AnswerView;

    open spec fn view(&self) -> AnswerView {
        match self {
            Answer::Done => AnswerView::Done,
            Answer::Items(items) => AnswerView::Items(paths(items@)),
            Answer::Secret(secret) => AnswerView::Secret(secret@),
            Answer::Attributes(attributes) => AnswerView::Attributes(attributes@),
            Answer::Label(label) => AnswerView::Label(label@),
        }
    }
}

/// Where a session stands: which reply it is waiting for, and what it keeps
/// for later.
#[derive(Debug)]
pub enum Session {
    /// Asked for the search.
    Searching,
    /// Asked for the locked items among those found to be unlocked.
    UnlockingItems { unlocked: Vec<Locator>, locked: Vec<Locator> },
    /// Getting hold of the collection in which to create an item. While
    /// `may_create` holds, a collection that is not found is created.
    Placing {
        resolver: Resolver,
        may_create: bool,
        collection: String,
        label: String,
        attributes: Attributes,
        secret: Vec<u8>,
    },
    /// Asked for the item to be created.
    CreatingItem,
    /// Getting hold of the collection to delete.
    Locating { resolver: Resolver },
    /// Asked for something that the daemon only confirms.
    Confirming,
    /// Asked for a secret to be replaced.
    WritingSecret,
    /// Asked for a secret.
    ReadingSecret,
    /// Asked for attributes, to hand them out.
    ReadingAttributes,
    /// Asked for a label.
    ReadingLabel,
    /// Asked for the attributes of `item`, to overlay them with
    /// `attributes`.
    Merging { item: Locator, attributes: Attributes },
}

/// The mathematical content of a [`Session`].
pub enum SessionView {
    Searching,
    UnlockingItems { unlocked: Seq<Seq<char>>, locked: Seq<Seq<char>> },
    Placing {
        resolver: ResolverView,
        may_create: bool,
        collection: Seq<char>,
        label: Seq<char>,
        attributes: AttributeMap,
        secret: Seq<u8>,
    },
    CreatingItem,
    Locating { resolver: ResolverView },
    Confirming,
    WritingSecret,
    ReadingSecret,
    ReadingAttributes,
    ReadingLabel,
    Merging { item: Seq<char>, attributes: AttributeMap },
}

impl View for Session {
    type V = SessionView;

    open spec fn view(&self) -> SessionView {
        match self {
            Session::Searching => SessionView::Searching,
            Session::UnlockingItems { unlocked, locked } => SessionView::UnlockingItems {
                unlocked: paths(unlocked@),
                locked: paths(locked@),
            },
            Session::Placing { resolver, may_create, collection, label, attributes, secret } => {
                SessionView::Placing {
                    resolver: resolver@,
                    may_create: *may_create,
                    collection: collection@,
                    label: label@,
                    attributes: attributes@,
                    secret: secret@,
                }
            },
            Session::CreatingItem => SessionView::CreatingItem,
            Session::Locating { resolver } => SessionView::Locating { resolver: resolver@ },
            Session::Confirming => SessionView::Confirming,
            Session::WritingSecret => SessionView::WritingSecret,
            Session::ReadingSecret => SessionView::ReadingSecret,
            Session::ReadingAttributes => SessionView::ReadingAttributes,
            Session::ReadingLabel => SessionView::ReadingLabel,
            Session::Merging { item, attributes } => SessionView::Merging {
                item: item@,
                attributes: attributes@,
            },
        }
    }
}

/// What a session does next.
#[derive(Debug)]
pub enum Step<E> {
    /// Put the call to the daemon and hand its reply to
    /// [`Session::advance`].
    Ask(Session, Call),
    /// The operation is over.
    Finished(Result<Answer, ServiceError<E>>),
}

/// The mathematical content of a [`Step`].
pub enum StepView<E> {
    Ask(SessionView, CallView),
    Finished(Result<AnswerView, ServiceErrorView<E>>),
}

impl<E> View for Step<E> {
    type V = StepView<E>;

    open spec fn view(&self) -> StepView<E> {
        match self {
            Step::Ask(session, call) => StepView::Ask(session@, call@),
            Step::Finished(Ok(answer)) => StepView::Finished(Ok(answer@)),
            Step::Finished(Err(error)) => StepView::Finished(Err(error@)),
        }
    }
}

impl SessionView {
    /// The daemon's failure, read as an answer that could not be obtained.
    pub open spec fn undecoded<E>(cause: E) -> StepView<E> {
        StepView::Finished(Err(ServiceErrorView::DecodeFailure(cause)))
    }

    /// The item or collection that the call was about does not exist.
    pub open spec fn missing<E>() -> StepView<E> {
        StepView::Finished(Err(ServiceErrorView::NotFound))
    }

    /// A reply that does not answer the call that was asked.
    pub open spec fn astray<E>() -> StepView<E> {
        StepView::Finished(Err(ServiceErrorView::Fatal))
    }

    /// All items found, the unlocked ones first.
    pub open spec fn found<E>(unlocked: Seq<Seq<char>>, locked: Seq<Seq<char>>) -> StepView<E> {
        StepView::Finished(Ok(AnswerView::Items(unlocked + locked)))
    }

    /// The item is created in `collection`, in place of any item of that
    /// collection with the same attributes.
    pub open spec fn create_in<E>(
        collection: Seq<char>,
        label: Seq<char>,
        attributes: AttributeMap,
        secret: Seq<u8>,
    ) -> StepView<E> {
        StepView::Ask(
            SessionView::CreatingItem,
            CallView::CreateItem {
                collection,
                label,
                attributes,
                secret,
                replace: true,
                content_type: octet_stream(),
            },
        )
    }

    /// How an operation begins. `intact` tells whether the driver got hold
    /// of the connection in good order; if not, nothing is asked of the
    /// daemon.
    pub open spec fn begin<E>(request: RequestView, intact: bool) -> StepView<E> {
        if !intact {
            StepView::Finished(Err(ServiceErrorView::Fatal))
        } else {
            match request {
                RequestView::FindMatchingItems { attributes } => StepView::Ask(
                    SessionView::Searching,
                    CallView::SearchItems { attributes },
                ),
                RequestView::CreateItem { collection, label, attributes, secret } => {
                    let (resolver, call) = ResolverView::resolve(collection);
                    StepView::Ask(
                        SessionView::Placing {
                            resolver,
                            may_create: true,
                            collection,
                            label,
                            attributes,
                            secret,
                        },
                        call,
                    )
                },
                RequestView::DeleteCollection { collection } => {
                    if collection == default_name() {
                        StepView::Finished(
                            Err(ServiceErrorView::NotSupportedByStore(default_kept())),
                        )
                    } else {
                        let (resolver, call) = ResolverView::resolve(collection);
                        StepView::Ask(SessionView::Locating { resolver }, call)
                    }
                },
                RequestView::EnsureUnlocked { item } => StepView::Ask(
                    SessionView::Confirming,
                    CallView::EnsureItemUnlocked { item },
                ),
                RequestView::SetSecret { item, secret } => StepView::Ask(
                    SessionView::WritingSecret,
                    CallView::SetSecret { item, secret, content_type: plain_text() },
                ),
                RequestView::GetSecret { item } => StepView::Ask(
                    SessionView::ReadingSecret,
                    CallView::GetSecret { item },
                ),
                RequestView::GetAttributes { item } => StepView::Ask(
                    SessionView::ReadingAttributes,
                    CallView::GetAttributes { item },
                ),
                RequestView::UpdateAttributes { item, attributes } => StepView::Ask(
                    SessionView::Merging { item, attributes },
                    CallView::GetAttributes { item },
                ),
                RequestView::Delete { item } => StepView::Ask(
                    SessionView::Confirming,
                    CallView::DeleteItem { item },
                ),
                RequestView::GetLabel { item } => StepView::Ask(
                    SessionView::ReadingLabel,
                    CallView::GetLabel { item },
                ),
                RequestView::SetLabel { item, label } => StepView::Ask(
                    SessionView::Confirming,
                    CallView::SetLabel { item, label },
                ),
            }
        }
    }

    /// What a session that is placing an item does once its resolver has
    /// taken a reply: it goes on resolving, creates the item in the
    /// collection found, turns to creating the collection where none was
    /// found and that has not been tried, or fails as the resolution did.
    pub open spec fn placed<E>(
        resolution: ResolutionView<E>,
        may_create: bool,
        collection: Seq<char>,
        label: Seq<char>,
        attributes: AttributeMap,
        secret: Seq<u8>,
    ) -> StepView<E> {
        match resolution {
            ResolutionView::Ask(resolver, call) => StepView::Ask(
                SessionView::Placing { resolver, may_create, collection, label, attributes, secret },
                call,
            ),
            ResolutionView::Resolved(Ok(found)) => Self::create_in(
                found,
                label,
                attributes,
                secret,
            ),
            ResolutionView::Resolved(Err(error)) => {
                if error == ServiceErrorView::<E>::NotFound && may_create {
                    let (resolver, call) = ResolverView::create_or_get(collection);
                    StepView::Ask(
                        SessionView::Placing {
                            resolver,
                            may_create: false,
                            collection,
                            label,
                            attributes,
                            secret,
                        },
                        call,
                    )
                } else {
                    StepView::Finished(Err(error))
                }
            },
        }
    }

    /// What a session that is locating a collection to delete does once its
    /// resolver has taken a reply: it goes on resolving, deletes the
    /// collection found, or fails as the resolution did.
    pub open spec fn located<E>(resolution: ResolutionView<E>) -> StepView<E> {
        match resolution {
            ResolutionView::Ask(resolver, call) => StepView::Ask(
                SessionView::Locating { resolver },
                call,
            ),
            ResolutionView::Resolved(Ok(found)) => StepView::Ask(
                SessionView::Confirming,
                CallView::DeleteCollection { collection: found },
            ),
            ResolutionView::Resolved(Err(error)) => StepView::Finished(Err(error)),
        }
    }

    /// What the session does on the daemon's reply.
    pub open spec fn advance<E>(self, reply: ReplyView<E>) -> StepView<E> {
        match self {
            SessionView::Searching => match reply {
                ReplyView::Items { unlocked, locked } => if locked.len() == 0 {
                    Self::found(unlocked, locked)
                } else {
                    StepView::Ask(
                        SessionView::UnlockingItems { unlocked, locked },
                        CallView::UnlockItems { items: locked },
                    )
                },
                ReplyView::Gone(cause) => Self::undecoded(cause),
                ReplyView::Failed(cause) => Self::undecoded(cause),
                _ => Self::astray(),
            },
            SessionView::UnlockingItems { unlocked, locked } => match reply {
                ReplyView::Done => Self::found(unlocked, locked),
                ReplyView::Gone(_) => Self::missing(),
                ReplyView::Failed(cause) => Self::undecoded(cause),
                _ => Self::astray(),
            },
            SessionView::Placing { resolver, may_create, collection, label, attributes, secret } => {
                Self::placed(
                    resolver.advance(reply),
                    may_create,
                    collection,
                    label,
                    attributes,
                    secret,
                )
            },
            SessionView::CreatingItem => match reply {
                ReplyView::Item(_) => StepView::Finished(Ok(AnswerView::Done)),
                ReplyView::Gone(_) => Self::missing(),
                ReplyView::Failed(cause) => StepView::Finished(
                    Err(ServiceErrorView::PlatformFailure(cause)),
                ),
                _ => Self::astray(),
            },
            SessionView::Locating { resolver } => Self::located(resolver.advance(reply)),
            SessionView::Confirming => match reply {
                ReplyView::Done => StepView::Finished(Ok(AnswerView::Done)),
                ReplyView::Gone(_) => Self::missing(),
                ReplyView::Failed(cause) => Self::undecoded(cause),
                _ => Self::astray(),
            },
            SessionView::WritingSecret => match reply {
                ReplyView::Done => StepView::Finished(Ok(AnswerView::Done)),
                ReplyView::Gone(_) => Self::missing(),
                ReplyView::Failed(cause) => StepView::Finished(
                    Err(ServiceErrorView::PlatformFailure(cause)),
                ),
                _ => Self::astray(),
            },
            SessionView::ReadingSecret => match reply {
                ReplyView::Bytes(secret) => StepView::Finished(Ok(AnswerView::Secret(secret))),
                ReplyView::Gone(_) => Self::missing(),
                ReplyView::Failed(cause) => Self::undecoded(cause),
                _ => Self::astray(),
            },
            SessionView::ReadingAttributes => match reply {
                ReplyView::Attributes(attributes) => StepView::Finished(
                    Ok(AnswerView::Attributes(attributes)),
                ),
                ReplyView::Gone(_) => Self::missing(),
                ReplyView::Failed(cause) => Self::undecoded(cause),
                _ => Self::astray(),
            },
            SessionView::ReadingLabel => match reply {
                ReplyView::Text(label) => StepView::Finished(Ok(AnswerView::Label(label))),
                ReplyView::Gone(_) => Self::missing(),
                ReplyView::Failed(cause) => Self::undecoded(cause),
                _ => Self::astray(),
            },
            SessionView::Merging { item, attributes } => match reply {
                ReplyView::Attributes(existing) => StepView::Ask(
                    SessionView::Confirming,
                    CallView::SetAttributes {
                        item,
                        attributes: existing.union_prefer_right(attributes),
                    },
                ),
                ReplyView::Gone(_) => Self::missing(),
                ReplyView::Failed(cause) => Self::undecoded(cause),
                _ => Self::astray(),
            },
        }
    }
}

fn found<E>(unlocked: Vec<Locator>, locked: Vec<Locator>) -> (step: Step<E>)
    ensures
        step@ == SessionView::found::<E>(paths(unlocked@), paths(locked@)),
{
    let mut all = unlocked;
    let mut tail = locked;
    all.append(&mut tail);
    assert(paths(all@) =~= paths(unlocked@) + paths(locked@));
    Step::Finished(Ok(Answer::Items(all)))
}

fn create_in<E>(
    collection: Locator,
    label: String,
    attributes: Attributes,
    secret: Vec<u8>,
) -> (step: Step<E>)
    ensures
        step@ == SessionView::create_in::<E>(collection@, label@, attributes@, secret@),
{
    Step::Ask(
        Session::CreatingItem,
        Call::CreateItem {
            collection,
            label,
            attributes,
            secret,
            replace: true,
            content_type: String::from_str("application/octet-stream"),
        },
    )
}

impl Session {
    /// Begins the operation `request`. `intact` tells whether the driver got
    /// hold of the connection in good order.
    pub fn begin<E>(request: Request, intact: bool) -> (step: Step<E>)
        ensures
            step@ == SessionView::begin::<E>(request@, intact),
    {
        if !intact {
            return Step::Finished(Err(ServiceError::Fatal));
        }
        match request {
            Request::FindMatchingItems { attributes } => Step::Ask(
                Session::Searching,
                Call::SearchItems { attributes },
            ),
            Request::CreateItem { collection, label, attributes, secret } => {
                let (resolver, call) = Resolver::resolve(collection.as_str());
                Step::Ask(
                    Session::Placing {
                        resolver,
                        may_create: true,
                        collection,
                        label,
                        attributes,
                        secret,
                    },
                    call,
                )
            },
            Request::DeleteCollection { collection } => {
                if is_default(collection.as_str()) {
                    Step::Finished(
                        Err(
                            ServiceError::NotSupportedByStore(
                                String::from_str("You cannot delete the default collection"),
                            ),
                        ),
                    )
                } else {
                    let (resolver, call) = Resolver::resolve(collection.as_str());
                    Step::Ask(Session::Locating { resolver }, call)
                }
            },
            Request::EnsureUnlocked { item } => Step::Ask(
                Session::Confirming,
                Call::EnsureItemUnlocked { item },
            ),
            Request::SetSecret { item, secret } => Step::Ask(
                Session::WritingSecret,
                Call::SetSecret { item, secret, content_type: String::from_str("text/plain") },
            ),
            Request::GetSecret { item } => Step::Ask(
                Session::ReadingSecret,
                Call::GetSecret { item },
            ),
            Request::GetAttributes { item } => Step::Ask(
                Session::ReadingAttributes,
                Call::GetAttributes { item },
            ),
            Request::UpdateAttributes { item, attributes } => {
                let asked = item.clone();
                Step::Ask(Session::Merging { item, attributes }, Call::GetAttributes { item: asked })
            },
            Request::Delete { item } => Step::Ask(Session::Confirming, Call::DeleteItem { item }),
            Request::GetLabel { item } => Step::Ask(Session::ReadingLabel, Call::GetLabel { item }),
            Request::SetLabel { item, label } => Step::Ask(
                Session::Confirming,
                Call::SetLabel { item, label },
            ),
        }
    }

    /// Takes the daemon's reply to the call that was asked last.
    pub fn advance<E>(self, reply: Reply<E>) -> (step: Step<E>)
        ensures
            step@ == self@.advance(reply@),
    {
        match self {
            Session::Searching => match reply {
                Reply::Items { unlocked, locked } => if locked.len() == 0 {
                    found(unlocked, locked)
                } else {
                    let items = clone_locators(&locked);
                    Step::Ask(
                        Session::UnlockingItems { unlocked, locked },
                        Call::UnlockItems { items },
                    )
                },
                Reply::Gone(cause) => Step::Finished(Err(ServiceError::DecodeFailure(cause))),
                Reply::Failed(cause) => Step::Finished(Err(ServiceError::DecodeFailure(cause))),
                _ => Step::Finished(Err(ServiceError::Fatal)),
            },
            Session::UnlockingItems { unlocked, locked } => match reply {
                Reply::Done => found(unlocked, locked),
                Reply::Gone(_) => Step::Finished(Err(ServiceError::NotFound)),
                Reply::Failed(cause) => Step::Finished(Err(ServiceError::DecodeFailure(cause))),
                _ => Step::Finished(Err(ServiceError::Fatal)),
            },
            Session::Placing { resolver, may_create, collection, label, attributes, secret } => {
                match resolver.advance(reply) {
                    Resolution::Ask(resolver, call) => Step::Ask(
                        Session::Placing {
                            resolver,
                            may_create,
                            collection,
                            label,
                            attributes,
                            secret,
                        },
                        call,
                    ),
                    Resolution::Resolved(Ok(found)) => create_in(found, label, attributes, secret),
                    Resolution::Resolved(Err(ServiceError::NotFound)) => {
                        if may_create {
                            let (resolver, call) = Resolver::create_or_get(collection.as_str());
                            Step::Ask(
                                Session::Placing {
                                    resolver,
                                    may_create: false,
                                    collection,
                                    label,
                                    attributes,
                                    secret,
                                },
                                call,
                            )
                        } else {
                            Step::Finished(Err(ServiceError::NotFound))
                        }
                    },
                    Resolution::Resolved(Err(error)) => Step::Finished(Err(error)),
                }
            },
            Session::CreatingItem => match reply {
                Reply::Item(_) => Step::Finished(Ok(Answer::Done)),
                Reply::Gone(_) => Step::Finished(Err(ServiceError::NotFound)),
                Reply::Failed(cause) => Step::Finished(Err(ServiceError::PlatformFailure(cause))),
                _ => Step::Finished(Err(ServiceError::Fatal)),
            },
            Session::Locating { resolver } => match resolver.advance(reply) {
                Resolution::Ask(resolver, call) => Step::Ask(Session::Locating { resolver }, call),
                Resolution::Resolved(Ok(found)) => Step::Ask(
                    Session::Confirming,
                    Call::DeleteCollection { collection: found },
                ),
                Resolution::Resolved(Err(error)) => Step::Finished(Err(error)),
            },
            Session::Confirming => match reply {
                Reply::Done => Step::Finished(Ok(Answer::Done)),
                Reply::Gone(_) => Step::Finished(Err(ServiceError::NotFound)),
                Reply::Failed(cause) => Step::Finished(Err(ServiceError::DecodeFailure(cause))),
                _ => Step::Finished(Err(ServiceError::Fatal)),
            },
            Session::WritingSecret => match reply {
                Reply::Done => Step::Finished(Ok(Answer::Done)),
                Reply::Gone(_) => Step::Finished(Err(ServiceError::NotFound)),
                Reply::Failed(cause) => Step::Finished(Err(ServiceError::PlatformFailure(cause))),
                _ => Step::Finished(Err(ServiceError::Fatal)),
            },
            Session::ReadingSecret => match reply {
                Reply::Bytes(secret) => Step::Finished(Ok(Answer::Secret(secret))),
                Reply::Gone(_) => Step::Finished(Err(ServiceError::NotFound)),
                Reply::Failed(cause) => Step::Finished(Err(ServiceError::DecodeFailure(cause))),
                _ => Step::Finished(Err(ServiceError::Fatal)),
            },
            Session::ReadingAttributes => match reply {
                Reply::Attributes(attributes) => Step::Finished(Ok(Answer::Attributes(attributes))),
                Reply::Gone(_) => Step::Finished(Err(ServiceError::NotFound)),
                Reply::Failed(cause) => Step::Finished(Err(ServiceError::DecodeFailure(cause))),
                _ => Step::Finished(Err(ServiceError::Fatal)),
            },
            Session::ReadingLabel => match reply {
                Reply::Text(label) => Step::Finished(Ok(Answer::Label(label))),
                Reply::Gone(_) => Step::Finished(Err(ServiceError::NotFound)),
                Reply::Failed(cause) => Step::Finished(Err(ServiceError::DecodeFailure(cause))),
                _ => Step::Finished(Err(ServiceError::Fatal)),
            },
            Session::Merging { item, attributes } => match reply {
                Reply::Attributes(existing) => {
                    let merged = existing.overlay(&attributes);
                    Step::Ask(
                        Session::Confirming,
                        Call::SetAttributes { item, attributes: merged },
                    )
                },
                Reply::Gone(_) => Step::Finished(Err(ServiceError::NotFound)),
                Reply::Failed(cause) => Step::Finished(Err(ServiceError::DecodeFailure(cause))),
                _ => Step::Finished(Err(ServiceError::Fatal)),
            },
        }
    }
}

} // verus!
