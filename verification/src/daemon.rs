//! The vocabulary exchanged with the secret-storage daemon: the requests that
//! can be put to it and the replies that it gives.

use vstd::prelude::*;
use vstd::string::*;
use crate::attributes::{AttributeMap, Attributes};
use crate::text::{optional_str, same_text};

verus! {

/// An opaque locator that the daemon assigned to an item or a collection.
///
/// A locator is a plain value. It stays meaningful until the object it names
/// is deleted; this crate only ever passes locators through.
#[derive(Debug, PartialEq, Eq)]
pub struct Locator {
    pub path: String,
}

impl View for Locator {
    type V = Seq<char>;

    open spec fn view(&self) -> Seq<char> {
        self.path@
    }
}

impl Locator {
    /// The locator written as `path`.
    pub fn new(path: String) -> (locator: Locator)
        ensures
            locator@ == path@,
    {
        Locator { path }
    }

    /// The locator's text.
    pub fn as_str(&self) -> (path: &str)
        ensures
            path@ == self@,
    {
        self.path.as_str()
    }
}

impl Clone for Locator {
    fn clone(&self) -> (copy: Locator)
        ensures
            copy@ == self@,
    {
        Locator { path: self.path.clone() }
    }
}

/// The texts of a sequence of locators, in order.
pub open spec fn paths(locators: Seq<Locator>) -> Seq<Seq<char>> {
    Seq::new(locators.len(), |i: int| locators[i]@)
}

/// A copy of `locators`, in the same order.
pub fn clone_locators(locators: &Vec<Locator>) -> (copy: Vec<Locator>)
    ensures
        paths(copy@) == paths(locators@),
{
    let mut copy: Vec<Locator> = Vec::new();
    let mut i: usize = 0;
    while i < locators.len()
        invariant
            i <= locators@.len(),
            copy@.len() == i,
            forall|j: int| 0 <= j < i ==> copy@[j]@ == locators@[j]@,
        decreases locators@.len() - i,
    {
        copy.push(locators[i].clone());
        i += 1;
    }
    copy
}

/// One request to the daemon.
#[derive(Debug)]
pub enum Call {
    /// Search every collection for the items whose attributes include all of
    /// `attributes`.
    SearchItems { attributes: Attributes },
    /// Unlock `items` as one batch.
    UnlockItems { items: Vec<Locator> },
    /// Name the daemon's default collection.
    DefaultCollection,
    /// List all collections.
    AllCollections,
    /// Read the label of `collection`.
    CollectionLabel { collection: Locator },
    /// Tell whether `collection` is locked.
    CollectionLocked { collection: Locator },
    /// Unlock `collection`.
    UnlockCollection { collection: Locator },
    /// Create a collection labelled `label` under the alias `alias`.
    CreateCollection { label: String, alias: String },
    /// Delete `collection`.
    DeleteCollection { collection: Locator },
    /// Create an item in `collection`. With `replace`, an item of that
    /// collection that has the same attributes is overwritten.
    CreateItem {
        collection: Locator,
        label: String,
        attributes: Attributes,
        secret: Vec<u8>,
        replace: bool,
        content_type: String,
    },
    /// Unlock `item` if it is locked.
    EnsureItemUnlocked { item: Locator },
    /// Replace the secret of `item`.
    SetSecret { item: Locator, secret: Vec<u8>, content_type: String },
    /// Read the secret of `item`.
    GetSecret { item: Locator },
    /// Read all attributes of `item`.
    GetAttributes { item: Locator },
    /// Replace all attributes of `item` by `attributes`.
    SetAttributes { item: Locator, attributes: Attributes },
    /// Delete `item`.
    DeleteItem { item: Locator },
    /// Read the label of `item`.
    GetLabel { item: Locator },
    /// Replace the label of `item`.
    SetLabel { item: Locator, label: String },
}

/// The mathematical content of a [`Call`].
pub enum CallView {
    SearchItems { attributes: AttributeMap },
    UnlockItems { items: Seq<Seq<char>> },
    DefaultCollection,
    AllCollections,
    CollectionLabel { collection: Seq<char> },
    CollectionLocked { collection: Seq<char> },
    UnlockCollection { collection: Seq<char> },
    CreateCollection { label: Seq<char>, alias: Seq<char> },
    DeleteCollection { collection: Seq<char> },
    CreateItem {
        collection: Seq<char>,
        label: Seq<char>,
        attributes: AttributeMap,
        secret: Seq<u8>,
        replace: bool,
        content_type: Seq<char>,
    },
    EnsureItemUnlocked { item: Seq<char> },
    SetSecret { item: Seq<char>, secret: Seq<u8>, content_type: Seq<char> },
    GetSecret { item: Seq<char> },
    GetAttributes { item: Seq<char> },
    SetAttributes { item: Seq<char>, attributes: AttributeMap },
    DeleteItem { item: Seq<char> },
    GetLabel { item: Seq<char> },
    SetLabel { item: Seq<char>, label: Seq<char> },
}

impl View for Call {
    type V = CallView;

    open spec fn view(&self) -> CallView {
        match self {
            Call::SearchItems { attributes } => CallView::SearchItems { attributes: attributes@ },
            Call::UnlockItems { items } => CallView::UnlockItems { items: paths(items@) },
            Call::DefaultCollection => CallView::DefaultCollection,
            Call::AllCollections => CallView::AllCollections,
            Call::CollectionLabel { collection } => CallView::CollectionLabel {
                collection: collection@,
            },
            Call::CollectionLocked { collection } => CallView::CollectionLocked {
                collection: collection@,
            },
            Call::UnlockCollection { collection } => CallView::UnlockCollection {
                collection: collection@,
            },
            Call::CreateCollection { label, alias } => CallView::CreateCollection {
                label: label@,
                alias: alias@,
            },
            Call::DeleteCollection { collection } => CallView::DeleteCollection {
                collection: collection@,
            },
            Call::CreateItem { collection, label, attributes, secret, replace, content_type } => {
                CallView::CreateItem {
                    collection: collection@,
                    label: label@,
                    attributes: attributes@,
                    secret: secret@,
                    replace: *replace,
                    content_type: content_type@,
                }
            },
            Call::EnsureItemUnlocked { item } => CallView::EnsureItemUnlocked { item: item@ },
            Call::SetSecret { item, secret, content_type } => CallView::SetSecret {
                item: item@,
                secret: secret@,
                content_type: content_type@,
            },
            Call::GetSecret { item } => CallView::GetSecret { item: item@ },
            Call::GetAttributes { item } => CallView::GetAttributes { item: item@ },
            Call::SetAttributes { item, attributes } => CallView::SetAttributes {
                item: item@,
                attributes: attributes@,
            },
            Call::DeleteItem { item } => CallView::DeleteItem { item: item@ },
            Call::GetLabel { item } => CallView::GetLabel { item: item@ },
            Call::SetLabel { item, label } => CallView::SetLabel { item: item@, label: label@ },
        }
    }
}

/// What the daemon answered to a [`Call`]. `E` is the daemon's own error
/// value, which this crate hands on without looking inside.
#[derive(Debug)]
pub enum Reply<E> {
    /// The request was carried out and has nothing to report.
    Done,
    /// The items that a search found, by lock state.
    Items { unlocked: Vec<Locator>, locked: Vec<Locator> },
    /// The item that was created.
    Item(Locator),
    /// The collection that was asked for or created.
    Collection(Locator),
    /// All collections.
    Collections(Vec<Locator>),
    /// A label.
    Text(String),
    /// A lock state: `true` for locked.
    Flag(bool),
    /// A secret.
    Bytes(Vec<u8>),
    /// An item's attributes.
    Attributes(Attributes),
    /// The request failed because the item or collection that it is about
    /// does not exist.
    Gone(E),
    /// The request failed otherwise.
    Failed(E),
}

/// The mathematical content of a [`Reply`].
pub enum ReplyView<E> {
    Done,
    Items { unlocked: Seq<Seq<char>>, locked: Seq<Seq<char>> },
    Item(Seq<char>),
    Collection(Seq<char>),
    Collections(Seq<Seq<char>>),
    Text(Seq<char>),
    Flag(bool),
    Bytes(Seq<u8>),
    Attributes(AttributeMap),
    Gone(E),
    Failed(E),
}

impl<E> View for Reply<E> {
    type V = ReplyView<E>;

    open spec fn view(&self) -> ReplyView<E> {
        match self {
            Reply::Done => ReplyView::Done,
            Reply::Items { unlocked, locked } => ReplyView::Items {
                unlocked: paths(unlocked@),
                locked: paths(locked@),
            },
            Reply::Item(item) => ReplyView::Item(item@),
            Reply::Collection(collection) => ReplyView::Collection(collection@),
            Reply::Collections(collections) => ReplyView::Collections(paths(collections@)),
            Reply::Text(text) => ReplyView::Text(text@),
            Reply::Flag(flag) => ReplyView::Flag(*flag),
            Reply::Bytes(bytes) => ReplyView::Bytes(bytes@),
            Reply::Attributes(attributes) => ReplyView::Attributes(attributes@),
            Reply::Gone(error) => ReplyView::Gone(*error),
            Reply::Failed(error) => ReplyView::Failed(*error),
        }
    }
}

/// The error name by which a secret-storage daemon says that an object does
/// not exist.
pub open spec fn no_such_object() -> Seq<char> {
    "org.freedesktop.Secret.Error.NoSuchObject"@
}

/// The error name by which the message bus says that nothing lives at a
/// path.
pub open spec fn unknown_object() -> Seq<char> {
    "org.freedesktop.DBus.Error.UnknownObject"@
}

/// Whether a failed call says that the object it was about does not exist:
/// either no object was found for the request (`no_result`), or the failure
/// came under one of the two error names that say so.
pub open spec fn tells_absence(no_result: bool, name: Option<Seq<char>>) -> bool {
    no_result || name == Some(no_such_object()) || name == Some(unknown_object())
}

impl<E> Reply<E> {
    /// The reply that stands for a failed call. `cause` is the daemon's
    /// error, `no_result` tells whether it reports that no object was found
    /// for the request, and `name` is the error name that came with it, if
    /// any. A failure that tells of a missing object is [`Reply::Gone`];
    /// any other keeps its cause.
    pub fn failure(cause: E, no_result: bool, name: Option<&str>) -> (reply: Reply<E>)
        ensures
            reply@ == if tells_absence(no_result, optional_str(name)) {
                ReplyView::Gone(cause)
            } else {
                ReplyView::Failed(cause)
            },
    {
        let named = match name {
            Some(name) => same_text(name, "org.freedesktop.Secret.Error.NoSuchObject")
                || same_text(name, "org.freedesktop.DBus.Error.UnknownObject"),
            None => false,
        };
        if no_result || named {
            Reply::Gone(cause)
        } else {
            Reply::Failed(cause)
        }
    }
}

} // verus!
