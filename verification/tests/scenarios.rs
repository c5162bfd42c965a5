use std::cell::RefCell;

use secret_gateway::attributes::Attributes;
use secret_gateway::daemon::{Call, Locator, Reply};
use secret_gateway::error::ServiceError;
use secret_gateway::driver::drive;
use secret_gateway::gateway::{Answer, Request};
use secret_gateway::identity::Identity;

struct StoredItem {
    path: String,
    label: String,
    attributes: Vec<(String, String)>,
    secret: Vec<u8>,
    content_type: String,
    locked: bool,
}

struct StoredCollection {
    path: String,
    label: String,
    locked: bool,
    items: Vec<StoredItem>,
}

/// An in-memory stand-in for the daemon. It always has a default collection,
/// whose label is not `default`.
struct Vault {
    collections: Vec<StoredCollection>,
    next: usize,
    calls: Vec<String>,
}

fn sorted(pairs: &[(String, String)]) -> Vec<(String, String)> {
    let mut pairs = pairs.to_vec();
    pairs.sort();
    pairs
}

fn attributes_of(pairs: &[(String, String)]) -> Attributes {
    let mut attributes = Attributes::new();
    for (key, value) in pairs {
        attributes.insert(key.clone(), value.clone());
    }
    attributes
}

impl Vault {
    fn new() -> Vault {
        Vault {
            collections: vec![StoredCollection {
                path: "/c/login".to_string(),
                label: "Login".to_string(),
                locked: false,
                items: Vec::new(),
            }],
            next: 1,
            calls: Vec::new(),
        }
    }

    fn item(&mut self, path: &str) -> Option<&mut StoredItem> {
        self.collections.iter_mut().flat_map(|c| c.items.iter_mut()).find(|i| i.path == path)
    }

    fn count_items(&self) -> usize {
        self.collections.iter().map(|c| c.items.len()).sum()
    }

    fn perform(&mut self, call: Call) -> Reply<String> {
        let gone = || Reply::Gone("no such object".to_string());
        match call {
            Call::SearchItems { attributes } => {
                self.calls.push("search".to_string());
                let predicate = attributes.entries().clone();
                let mut unlocked = Vec::new();
                let mut locked = Vec::new();
                for collection in &self.collections {
                    for item in &collection.items {
                        if predicate.iter().all(|pair| item.attributes.contains(pair)) {
                            let found = Locator::new(item.path.clone());
                            if item.locked { locked.push(found) } else { unlocked.push(found) }
                        }
                    }
                }
                Reply::Items { unlocked, locked }
            }
            Call::UnlockItems { items } => {
                self.calls.push("unlock items".to_string());
                for item in items {
                    match self.item(item.as_str()) {
                        Some(stored) => stored.locked = false,
                        None => return gone(),
                    }
                }
                Reply::Done
            }
            Call::DefaultCollection => {
                self.calls.push("default collection".to_string());
                Reply::Collection(Locator::new("/c/login".to_string()))
            }
            Call::AllCollections => {
                self.calls.push("all collections".to_string());
                Reply::Collections(
                    self.collections.iter().map(|c| Locator::new(c.path.clone())).collect(),
                )
            }
            Call::CollectionLabel { collection } => {
                self.calls.push("collection label".to_string());
                match self.collections.iter().find(|c| c.path == collection.as_str()) {
                    Some(stored) => Reply::Text(stored.label.clone()),
                    None => gone(),
                }
            }
            Call::CollectionLocked { collection } => {
                self.calls.push("collection locked".to_string());
                match self.collections.iter().find(|c| c.path == collection.as_str()) {
                    Some(stored) => Reply::Flag(stored.locked),
                    None => gone(),
                }
            }
            Call::UnlockCollection { collection } => {
                self.calls.push("unlock collection".to_string());
                match self.collections.iter_mut().find(|c| c.path == collection.as_str()) {
                    Some(stored) => {
                        stored.locked = false;
                        Reply::Done
                    }
                    None => gone(),
                }
            }
            Call::CreateCollection { label, alias: _ } => {
                self.calls.push("create collection".to_string());
                let path = format!("/c/{}", self.next);
                self.next += 1;
                self.collections.push(StoredCollection {
                    path: path.clone(),
                    label,
                    locked: false,
                    items: Vec::new(),
                });
                Reply::Collection(Locator::new(path))
            }
            Call::DeleteCollection { collection } => {
                self.calls.push("delete collection".to_string());
                let before = self.collections.len();
                self.collections.retain(|c| c.path != collection.as_str());
                if self.collections.len() < before { Reply::Done } else { gone() }
            }
            Call::CreateItem { collection, label, attributes, secret, replace, content_type } => {
                self.calls.push("create item".to_string());
                let wanted = sorted(attributes.entries());
                let next = self.next;
                let stored = match self.collections.iter_mut().find(|c| c.path == collection.as_str())
                {
                    Some(stored) => stored,
                    None => return gone(),
                };
                if replace {
                    if let Some(item) =
                        stored.items.iter_mut().find(|i| sorted(&i.attributes) == wanted)
                    {
                        item.label = label;
                        item.secret = secret;
                        item.content_type = content_type;
                        return Reply::Item(Locator::new(item.path.clone()));
                    }
                }
                let path = format!("{}/{}", stored.path, next);
                stored.items.push(StoredItem {
                    path: path.clone(),
                    label,
                    attributes: wanted,
                    secret,
                    content_type,
                    locked: false,
                });
                self.next += 1;
                Reply::Item(Locator::new(path))
            }
            Call::EnsureItemUnlocked { item } => {
                self.calls.push("ensure item unlocked".to_string());
                match self.item(item.as_str()) {
                    Some(stored) => {
                        stored.locked = false;
                        Reply::Done
                    }
                    None => gone(),
                }
            }
            Call::SetSecret { item, secret, content_type } => {
                self.calls.push("set secret".to_string());
                match self.item(item.as_str()) {
                    Some(stored) if !stored.locked => {
                        stored.secret = secret;
                        stored.content_type = content_type;
                        Reply::Done
                    }
                    Some(_) => Reply::Failed("locked".to_string()),
                    None => gone(),
                }
            }
            Call::GetSecret { item } => {
                self.calls.push("get secret".to_string());
                match self.item(item.as_str()) {
                    Some(stored) if !stored.locked => Reply::Bytes(stored.secret.clone()),
                    Some(_) => Reply::Failed("locked".to_string()),
                    None => gone(),
                }
            }
            Call::GetAttributes { item } => {
                self.calls.push("get attributes".to_string());
                match self.item(item.as_str()) {
                    Some(stored) => Reply::Attributes(attributes_of(&stored.attributes)),
                    None => gone(),
                }
            }
            Call::SetAttributes { item, attributes } => {
                self.calls.push("set attributes".to_string());
                match self.item(item.as_str()) {
                    Some(stored) => {
                        stored.attributes = sorted(attributes.entries());
                        Reply::Done
                    }
                    None => gone(),
                }
            }
            Call::DeleteItem { item } => {
                self.calls.push("delete item".to_string());
                let before = self.count_items();
                for collection in self.collections.iter_mut() {
                    collection.items.retain(|i| i.path != item.as_str());
                }
                if self.count_items() < before { Reply::Done } else { gone() }
            }
            Call::GetLabel { item } => {
                self.calls.push("get label".to_string());
                match self.item(item.as_str()) {
                    Some(stored) => Reply::Text(stored.label.clone()),
                    None => gone(),
                }
            }
            Call::SetLabel { item, label } => {
                self.calls.push("set label".to_string());
                match self.item(item.as_str()) {
                    Some(stored) => {
                        stored.label = label;
                        Reply::Done
                    }
                    None => gone(),
                }
            }
        }
    }
}

fn carry_out(vault: &RefCell<Vault>, request: Request) -> Result<Answer, ServiceError<String>> {
    drive(request, true, |call| vault.borrow_mut().perform(call))
}

fn identity(service: &str, username: &str, target: Option<&str>) -> Identity {
    Identity::new(service, username, target, None).unwrap()
}

fn create(vault: &RefCell<Vault>, identity: &Identity, secret: &[u8]) {
    match carry_out(vault, identity.create_request(secret.to_vec())) {
        Ok(Answer::Done) => {}
        other => panic!("creation ended with {:?}", other),
    }
}

fn search(vault: &RefCell<Vault>, identity: &Identity) -> Vec<Locator> {
    match carry_out(vault, identity.search_request()) {
        Ok(Answer::Items(items)) => items,
        other => panic!("search ended with {:?}", other),
    }
}

fn attributes_at(vault: &RefCell<Vault>, item: &Locator) -> Vec<(String, String)> {
    match carry_out(vault, Request::GetAttributes { item: item.clone() }) {
        Ok(Answer::Attributes(attributes)) => sorted(attributes.entries()),
        other => panic!("reading attributes ended with {:?}", other),
    }
}

fn secret_at(vault: &RefCell<Vault>, item: &Locator) -> Vec<u8> {
    match carry_out(vault, Request::GetSecret { item: item.clone() }) {
        Ok(Answer::Secret(secret)) => secret,
        other => panic!("reading the secret ended with {:?}", other),
    }
}

fn pairs(pairs: &[(&str, &str)]) -> Vec<(String, String)> {
    pairs.iter().map(|(k, v)| (k.to_string(), v.to_string())).collect()
}

#[test]
fn created_item_is_found_once_without_target() {
    let vault = RefCell::new(Vault::new());
    let alice = identity("myapp", "alice", None);
    create(&vault, &alice, b"hunter2");
    let found = search(&vault, &alice);
    assert_eq!(found.len(), 1);
    assert_eq!(
        attributes_at(&vault, &found[0]),
        pairs(&[("service", "myapp"), ("username", "alice")])
    );
    assert_eq!(secret_at(&vault, &found[0]), b"hunter2".to_vec());
    assert_eq!(vault.borrow().collections[0].items[0].content_type, "application/octet-stream");
    assert_eq!(vault.borrow().collections[0].items[0].label, "keyring:alice@myapp");
}

#[test]
fn created_item_is_found_by_its_target_only() {
    let vault = RefCell::new(Vault::new());
    let at_work = identity("myapp", "alice", Some("work"));
    create(&vault, &at_work, b"w");
    let found = search(&vault, &at_work);
    assert_eq!(found.len(), 1);
    assert_eq!(
        attributes_at(&vault, &found[0]),
        pairs(&[("service", "myapp"), ("target", "work"), ("username", "alice")])
    );
    assert!(search(&vault, &identity("myapp", "alice", Some("home"))).is_empty());
    assert_eq!(search(&vault, &identity("myapp", "alice", None)), found);
    assert!(search(&vault, &identity("myapp", "bob", Some("work"))).is_empty());
}

#[test]
fn target_names_the_collection_and_creates_it() {
    let vault = RefCell::new(Vault::new());
    create(&vault, &identity("myapp", "alice", Some("work")), b"w");
    {
        let vault = vault.borrow();
        assert_eq!(vault.collections.len(), 2);
        assert_eq!(vault.collections[1].label, "work");
        assert_eq!(vault.collections[1].items.len(), 1);
        assert!(vault.collections[0].items.is_empty());
    }
    create(&vault, &identity("myapp", "bob", Some("work")), b"b");
    let vault = vault.borrow();
    assert_eq!(vault.collections.len(), 2);
    assert_eq!(vault.collections[1].items.len(), 2);
}

#[test]
fn creating_twice_leaves_one_item() {
    let vault = RefCell::new(Vault::new());
    let alice = identity("myapp", "alice", None);
    create(&vault, &alice, b"first");
    create(&vault, &alice, b"second");
    let found = search(&vault, &alice);
    assert_eq!(found.len(), 1);
    assert_eq!(vault.borrow().count_items(), 1);
    assert_eq!(secret_at(&vault, &found[0]), b"second".to_vec());
}

#[test]
fn default_collection_survives_deletion_whatever_the_state() {
    let vault = RefCell::new(Vault::new());
    for round in 0..3 {
        let outcome =
            carry_out(&vault, Request::DeleteCollection { collection: "default".to_string() });
        assert_eq!(
            outcome.unwrap_err(),
            ServiceError::NotSupportedByStore(
                "You cannot delete the default collection".to_string()
            )
        );
        assert!(vault.borrow().calls.iter().all(|c| c != "delete collection"));
        assert_eq!(vault.borrow().collections[0].path, "/c/login");
        create(&vault, &identity("myapp", "alice", Some(&format!("extra{round}"))), b"x");
        vault.borrow_mut().collections[0].locked = round % 2 == 0;
    }
}

#[test]
fn default_resolves_to_the_default_collection_before_and_after_creating_another() {
    let vault = RefCell::new(Vault::new());
    create(&vault, &identity("myapp", "alice", None), b"one");
    create(&vault, &identity("myapp", "bob", Some("default")), b"two");
    vault.borrow_mut().collections.insert(
        0,
        StoredCollection {
            path: "/c/impostor".to_string(),
            label: "default".to_string(),
            locked: false,
            items: Vec::new(),
        },
    );
    create(&vault, &identity("myapp", "carol", Some("work")), b"three");
    create(&vault, &identity("myapp", "dave", None), b"four");
    let vault = vault.borrow();
    let login = vault.collections.iter().find(|c| c.path == "/c/login").unwrap();
    assert_eq!(login.items.len(), 3);
    assert!(vault.collections[0].items.is_empty());
    assert!(vault.calls.iter().filter(|c| *c == "default collection").count() == 3);
}

#[test]
fn named_collection_can_be_deleted() {
    let vault = RefCell::new(Vault::new());
    create(&vault, &identity("myapp", "alice", Some("work")), b"w");
    let outcome = carry_out(&vault, Request::DeleteCollection { collection: "work".to_string() });
    assert!(matches!(outcome, Ok(Answer::Done)));
    assert_eq!(vault.borrow().collections.len(), 1);
    let outcome = carry_out(&vault, Request::DeleteCollection { collection: "work".to_string() });
    assert_eq!(outcome.unwrap_err(), ServiceError::NotFound);
}

#[test]
fn update_keeps_what_others_have_set() {
    let vault = RefCell::new(Vault::new());
    let alice = identity("myapp", "alice", None);
    create(&vault, &alice, b"s");
    let item = search(&vault, &alice).remove(0);
    vault.borrow_mut().item(item.as_str()).unwrap().attributes =
        pairs(&[("a", "1"), ("b", "2"), ("service", "myapp"), ("username", "alice")]);
    let update = attributes_of(&pairs(&[("b", "3"), ("c", "4")]));
    let outcome =
        carry_out(&vault, Request::UpdateAttributes { item: item.clone(), attributes: update });
    assert!(matches!(outcome, Ok(Answer::Done)));
    assert_eq!(
        attributes_at(&vault, &item),
        pairs(&[("a", "1"), ("b", "3"), ("c", "4"), ("service", "myapp"), ("username", "alice")])
    );
    assert_eq!(search(&vault, &alice), vec![item]);
}

#[test]
fn search_unlocks_a_locked_item() {
    let vault = RefCell::new(Vault::new());
    let alice = identity("myapp", "alice", None);
    create(&vault, &alice, b"hunter2");
    vault.borrow_mut().collections[0].items[0].locked = true;
    let found = search(&vault, &alice);
    assert_eq!(found.len(), 1);
    assert!(!vault.borrow().collections[0].items[0].locked);
    assert_eq!(secret_at(&vault, &found[0]), b"hunter2".to_vec());
}

#[test]
fn search_lists_unlocked_items_before_locked_ones() {
    let vault = RefCell::new(Vault::new());
    create(&vault, &identity("myapp", "alice", Some("a")), b"1");
    create(&vault, &identity("myapp", "alice", Some("b")), b"2");
    create(&vault, &identity("myapp", "alice", Some("c")), b"3");
    vault.borrow_mut().collections[1].items[0].locked = true;
    let first = vault.borrow().collections[1].items[0].path.clone();
    let found = search(&vault, &identity("myapp", "alice", None));
    assert_eq!(found.len(), 3);
    assert_eq!(found[2].as_str(), first);
    assert!(vault.borrow().collections.iter().all(|c| c.items.iter().all(|i| !i.locked)));
}

#[test]
fn search_without_match_is_empty_not_an_error() {
    let vault = RefCell::new(Vault::new());
    assert!(search(&vault, &identity("myapp", "nobody", None)).is_empty());
    assert_eq!(vault.borrow().calls, vec!["search".to_string()]);
}

#[test]
fn label_and_secret_can_be_replaced() {
    let vault = RefCell::new(Vault::new());
    let alice = identity("myapp", "alice", None);
    create(&vault, &alice, b"old");
    let item = search(&vault, &alice).remove(0);
    let outcome =
        carry_out(&vault, Request::SetSecret { item: item.clone(), secret: b"new".to_vec() });
    assert!(matches!(outcome, Ok(Answer::Done)));
    assert_eq!(secret_at(&vault, &item), b"new".to_vec());
    assert_eq!(vault.borrow().collections[0].items[0].content_type, "text/plain");
    let outcome =
        carry_out(&vault, Request::SetLabel { item: item.clone(), label: "Mine".to_string() });
    assert!(matches!(outcome, Ok(Answer::Done)));
    match carry_out(&vault, Request::GetLabel { item: item.clone() }) {
        Ok(Answer::Label(label)) => assert_eq!(label, "Mine"),
        other => panic!("reading the label ended with {:?}", other),
    }
    assert_eq!(
        attributes_at(&vault, &item),
        pairs(&[("service", "myapp"), ("username", "alice")])
    );
}

#[test]
fn deleted_item_is_gone_and_its_locator_stale() {
    let vault = RefCell::new(Vault::new());
    let alice = identity("myapp", "alice", None);
    create(&vault, &alice, b"s");
    let item = search(&vault, &alice).remove(0);
    assert!(matches!(carry_out(&vault, Request::Delete { item: item.clone() }), Ok(Answer::Done)));
    assert!(search(&vault, &alice).is_empty());
    let stale = vec![
        Request::GetSecret { item: item.clone() },
        Request::GetAttributes { item: item.clone() },
        Request::GetLabel { item: item.clone() },
        Request::SetSecret { item: item.clone(), secret: b"x".to_vec() },
        Request::SetLabel { item: item.clone(), label: "x".to_string() },
        Request::UpdateAttributes { item: item.clone(), attributes: Attributes::new() },
        Request::Delete { item: item.clone() },
        Request::EnsureUnlocked { item },
    ];
    for request in stale {
        assert_eq!(carry_out(&vault, request).unwrap_err(), ServiceError::NotFound);
    }
}

#[test]
fn broken_connection_reaches_no_daemon() {
    let vault = RefCell::new(Vault::new());
    let outcome: Result<Answer, ServiceError<String>> = drive(
        identity("myapp", "alice", None).search_request(),
        false,
        |call| vault.borrow_mut().perform(call),
    );
    assert_eq!(outcome.unwrap_err(), ServiceError::Fatal);
    assert!(vault.borrow().calls.is_empty());
}

#[test]
fn locked_named_collection_is_unlocked_for_creation() {
    let vault = RefCell::new(Vault::new());
    create(&vault, &identity("myapp", "alice", Some("work")), b"1");
    vault.borrow_mut().collections[1].locked = true;
    create(&vault, &identity("myapp", "bob", Some("work")), b"2");
    let vault = vault.borrow();
    assert!(!vault.collections[1].locked);
    assert_eq!(vault.collections[1].items.len(), 2);
}

#[test]
fn failed_secret_write_leaves_the_secret_and_is_a_platform_failure() {
    let vault = RefCell::new(Vault::new());
    let alice = identity("myapp", "alice", None);
    create(&vault, &alice, b"old");
    let item = search(&vault, &alice).remove(0);
    vault.borrow_mut().collections[0].items[0].locked = true;
    let outcome =
        carry_out(&vault, Request::SetSecret { item: item.clone(), secret: b"new".to_vec() });
    assert_eq!(outcome.unwrap_err(), ServiceError::PlatformFailure("locked".to_string()));
    vault.borrow_mut().collections[0].items[0].locked = false;
    assert_eq!(secret_at(&vault, &item), b"old".to_vec());
}
