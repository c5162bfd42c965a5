//! Credential identities: who a secret belongs to, and how that is written
//! down in the attributes of a stored item.

use vstd::prelude::*;
use vstd::string::*;
use crate::attributes::{AttributeMap, Attributes};
use crate::daemon::Locator;
use crate::gateway::{Request, RequestView};
use crate::text::{default_name, optional_str, optional_text, same_text};

verus! {

/// The reserved attribute that holds the service.
pub open spec fn service_key() -> Seq<char> {
    "service"@
}

/// The reserved attribute that holds the user name.
pub open spec fn username_key() -> Seq<char> {
    "username"@
}

/// The reserved attribute that holds the target, where there is one.
pub open spec fn target_key() -> Seq<char> {
    "target"@
}

/// Whether `key` is one of the three attributes that only the store sets.
pub open spec fn reserved(key: Seq<char>) -> bool {
    key == service_key() || key == username_key() || key == target_key()
}

/// The three reserved attribute names are different names.
pub proof fn lemma_reserved_keys_differ()
    ensures
        service_key() != username_key(),
        service_key() != target_key(),
        username_key() != target_key(),
{
    reveal_strlit("service");
    reveal_strlit("username");
    reveal_strlit("target");
    assert(service_key().len() == 7);
    assert(username_key().len() == 8);
    assert(target_key().len() == 6);
}

/// Whether `key` is one of the three attributes that only the store sets.
pub fn is_reserved(key: &str) -> (yes: bool)
    ensures
        yes == reserved(key@),
{
    same_text(key, "service") || same_text(key, "username") || same_text(key, "target")
}

/// The request by which a caller sets its own attributes `extras` on
/// `item`, or nothing where `extras` names a reserved attribute: those are
/// never a caller's to overwrite.
pub fn update_request(item: Locator, extras: Attributes) -> (request: Option<Request>)
    ensures
        request is Some <==> (forall|key: Seq<char>| extras@.contains_key(key) ==> !reserved(key)),
        request matches Some(update) ==> update@ == (RequestView::UpdateAttributes {
            item: item@,
            attributes: extras@,
        }),
{
    if extras.contains_key("service") || extras.contains_key("username") || extras.contains_key(
        "target",
    ) {
        assert(reserved(service_key()) && reserved(username_key()) && reserved(target_key()));
        None
    } else {
        Some(Request::UpdateAttributes { item, attributes: extras })
    }
}

/// The mathematical content of an [`Identity`].
pub struct IdentityView {
    pub service: Seq<char>,
    pub username: Seq<char>,
    pub target: Option<Seq<char>>,
    pub label: Option<Seq<char>>,
}

impl IdentityView {
    /// Service and user name are required.
    pub open spec fn valid(self) -> bool {
        self.service.len() > 0 && self.username.len() > 0
    }

    /// The attributes that identify the credential: service and user name,
    /// and the target where one was given. They are written on a new item
    /// and are the predicate by which the item is searched for.
    pub open spec fn attributes(self) -> AttributeMap {
        let base = AttributeMap::empty().insert(service_key(), self.service).insert(
            username_key(),
            self.username,
        );
        match self.target {
            Some(target) => base.insert(target_key(), target),
            None => base,
        }
    }

    /// The label of a new item: the one given, or else
    /// `keyring:{username}@{service}`.
    pub open spec fn label(self) -> Seq<char> {
        match self.label {
            Some(label) => label,
            None => "keyring:"@ + self.username + "@"@ + self.service,
        }
    }

    /// The name of the collection that a new item goes to: the target, or
    /// else the default collection.
    pub open spec fn collection(self) -> Seq<char> {
        match self.target {
            Some(target) => target,
            None => default_name(),
        }
    }
}

/// A credential identity: a service and a user name, optionally narrowed by
/// a target, optionally with a label for new items.
#[derive(Debug)]
pub struct Identity {
    service: String,
    username: String,
    target: Option<String>,
    label: Option<String>,
}

fn owned(text: Option<&str>) -> (copy: Option<String>)
    ensures
        optional_text(copy) == optional_str(text),
{
    match text {
        Some(text) => Some(text.to_owned()),
        None => None,
    }
}

impl View for Identity {
    type V = IdentityView;

    closed spec fn view(&self) -> IdentityView {
        IdentityView {
            service: self.service@,
            username: self.username@,
            target: optional_text(self.target),
            label: optional_text(self.label),
        }
    }
}

impl Identity {
    #[verifier::type_invariant]
    spec fn well_formed(&self) -> bool {
        self.service@.len() > 0 && self.username@.len() > 0
    }

    /// The identity of `username` at `service`, or nothing where either is
    /// empty.
    pub fn new(service: &str, username: &str, target: Option<&str>, label: Option<&str>) -> (made:
        Option<Identity>)
        ensures
            made is Some <==> service@.len() > 0 && username@.len() > 0,
            made matches Some(identity) ==> identity@.valid() && identity@ == (IdentityView {
                service: service@,
                username: username@,
                target: optional_str(target),
                label: optional_str(label),
            }),
    {
        if service.is_empty() || username.is_empty() {
            None
        } else {
            Some(
                Identity {
                    service: service.to_owned(),
                    username: username.to_owned(),
                    target: owned(target),
                    label: owned(label),
                },
            )
        }
    }

    /// The service, which is never empty.
    pub fn service(&self) -> (service: &str)
        ensures
            service@ == self@.service,
            service@.len() > 0,
    {
        proof {
            use_type_invariant(self);
        }
        self.service.as_str()
    }

    /// The user name, which is never empty.
    pub fn username(&self) -> (username: &str)
        ensures
            username@ == self@.username,
            username@.len() > 0,
    {
        proof {
            use_type_invariant(self);
        }
        self.username.as_str()
    }

    /// The target, where one was given.
    pub fn target(&self) -> (target: Option<&str>)
        ensures
            optional_str(target) == self@.target,
    {
        match &self.target {
            Some(target) => Some(target.as_str()),
            None => None,
        }
    }

    /// The attributes that identify the credential.
    pub fn attributes(&self) -> (attributes: Attributes)
        ensures
            attributes@ == self@.attributes(),
    {
        let mut attributes = Attributes::new();
        attributes.insert(String::from_str("service"), self.service.clone());
        attributes.insert(String::from_str("username"), self.username.clone());
        match &self.target {
            Some(target) => {
                attributes.insert(String::from_str("target"), target.clone());
            },
            None => {},
        }
        attributes
    }

    /// The label that a new item gets.
    pub fn label(&self) -> (label: String)
        ensures
            label@ == self@.label(),
    {
        match &self.label {
            Some(label) => label.clone(),
            None => {
                let mut label = String::from_str("keyring:");
                label.append(self.username.as_str());
                label.append("@");
                label.append(self.service.as_str());
                label
            },
        }
    }

    /// The name of the collection that a new item goes to.
    pub fn collection(&self) -> (name: String)
        ensures
            name@ == self@.collection(),
    {
        match &self.target {
            Some(target) => target.clone(),
            None => String::from_str("default"),
        }
    }

    /// The request that stores `secret` under this identity.
    pub fn create_request(&self, secret: Vec<u8>) -> (request: Request)
        ensures
            request@ == (RequestView::CreateItem {
                collection: self@.collection(),
                label: self@.label(),
                attributes: self@.attributes(),
                secret: secret@,
            }),
    {
        Request::CreateItem {
            collection: self.collection(),
            label: self.label(),
            attributes: self.attributes(),
            secret,
        }
    }

    /// The request that searches for the items of this identity.
    pub fn search_request(&self) -> (request: Request)
        ensures
            request@ == (RequestView::FindMatchingItems { attributes: self@.attributes() }),
    {
        Request::FindMatchingItems { attributes: self.attributes() }
    }
}

} // verus!
