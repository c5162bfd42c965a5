use secret_gateway::daemon::{Call, Locator, Reply};
use secret_gateway::error::ServiceError;
use secret_gateway::resolver::{Resolution, Resolver};

fn locator(path: &str) -> Locator {
    Locator::new(path.to_string())
}

fn locators(paths: &[&str]) -> Vec<Locator> {
    paths.iter().map(|p| locator(p)).collect()
}

fn asks(resolution: Resolution<String>) -> (Resolver, Call) {
    match resolution {
        Resolution::Ask(resolver, call) => (resolver, call),
        Resolution::Resolved(result) => panic!("resolved too early: {:?}", result),
    }
}

fn resolved(resolution: Resolution<String>) -> Result<Locator, ServiceError<String>> {
    match resolution {
        Resolution::Resolved(result) => result,
        Resolution::Ask(_, call) => panic!("still asking: {:?}", call),
    }
}

#[test]
fn locator_keeps_its_text() {
    let item = locator("/org/freedesktop/secrets/collection/login/7");
    assert_eq!(item.as_str(), "/org/freedesktop/secrets/collection/login/7");
    assert_eq!(item.clone(), item);
    assert_eq!(item.path, "/org/freedesktop/secrets/collection/login/7");
}

#[test]
fn default_is_asked_for_by_its_role() {
    let (_, call) = Resolver::resolve("default");
    assert!(matches!(call, Call::DefaultCollection));
}

#[test]
fn other_names_are_looked_up_among_all_collections() {
    for name in ["work", "Default", "DEFAULT", "", "default "] {
        let (_, call) = Resolver::resolve(name);
        assert!(matches!(call, Call::AllCollections), "{name}");
    }
}

#[test]
fn default_resolves_to_what_the_daemon_names() {
    let (resolver, _) = Resolver::resolve("default");
    let (resolver, call) = asks(resolver.advance(Reply::Collection(locator("/c/login"))));
    match call {
        Call::CollectionLocked { collection } => assert_eq!(collection, locator("/c/login")),
        other => panic!("unexpected call {:?}", other),
    }
    assert_eq!(resolved(resolver.advance(Reply::Flag(false))), Ok(locator("/c/login")));
}

#[test]
fn default_resolves_the_same_twice() {
    for _ in 0..2 {
        let (resolver, call) = Resolver::resolve("default");
        assert!(matches!(call, Call::DefaultCollection));
        let (resolver, _) = asks(resolver.advance(Reply::Collection(locator("/c/login"))));
        assert_eq!(resolved(resolver.advance(Reply::Flag(false))), Ok(locator("/c/login")));
    }
}

#[test]
fn locked_collection_is_unlocked_before_it_is_handed_out() {
    let (resolver, _) = Resolver::resolve("default");
    let (resolver, _) = asks(resolver.advance(Reply::Collection(locator("/c/login"))));
    let (resolver, call) = asks(resolver.advance(Reply::Flag(true)));
    match call {
        Call::UnlockCollection { collection } => assert_eq!(collection, locator("/c/login")),
        other => panic!("unexpected call {:?}", other),
    }
    assert_eq!(resolved(resolver.advance(Reply::Done)), Ok(locator("/c/login")));
}

#[test]
fn failed_unlock_fails_the_resolution() {
    let (resolver, _) = Resolver::resolve("default");
    let (resolver, _) = asks(resolver.advance(Reply::Collection(locator("/c/login"))));
    let (resolver, _) = asks(resolver.advance(Reply::Flag(true)));
    assert_eq!(
        resolved(resolver.advance(Reply::Failed("dismissed".to_string()))),
        Err(ServiceError::DecodeFailure("dismissed".to_string()))
    );
}

#[test]
fn missing_default_collection_is_a_decode_failure() {
    let (resolver, _) = Resolver::resolve("default");
    assert_eq!(
        resolved(resolver.advance(Reply::Failed("no result".to_string()))),
        Err(ServiceError::DecodeFailure("no result".to_string()))
    );
}

#[test]
fn walk_takes_the_first_collection_with_the_label() {
    let (resolver, _) = Resolver::resolve("work");
    let all = locators(&["/c/a", "/c/b", "/c/c", "/c/d"]);
    let (resolver, call) = asks(resolver.advance(Reply::Collections(all)));
    match call {
        Call::CollectionLabel { collection } => assert_eq!(collection, locator("/c/a")),
        other => panic!("unexpected call {:?}", other),
    }
    let (resolver, call) = asks(resolver.advance(Reply::Text("home".to_string())));
    match call {
        Call::CollectionLabel { collection } => assert_eq!(collection, locator("/c/b")),
        other => panic!("unexpected call {:?}", other),
    }
    let (resolver, call) = asks(resolver.advance(Reply::Text("work".to_string())));
    match call {
        Call::CollectionLocked { collection } => assert_eq!(collection, locator("/c/b")),
        other => panic!("unexpected call {:?}", other),
    }
    assert_eq!(resolved(resolver.advance(Reply::Flag(false))), Ok(locator("/c/b")));
}

#[test]
fn walk_passes_over_unreadable_labels() {
    let (resolver, _) = Resolver::resolve("work");
    let (resolver, _) = asks(resolver.advance(Reply::Collections(locators(&["/c/a", "/c/b"]))));
    let (resolver, call) = asks(resolver.advance(Reply::Failed("locked".to_string())));
    match call {
        Call::CollectionLabel { collection } => assert_eq!(collection, locator("/c/b")),
        other => panic!("unexpected call {:?}", other),
    }
    let (resolver, _) = asks(resolver.advance(Reply::Text("work".to_string())));
    assert_eq!(resolved(resolver.advance(Reply::Flag(false))), Ok(locator("/c/b")));
}

#[test]
fn walk_compares_labels_exactly() {
    let (resolver, _) = Resolver::resolve("work");
    let (resolver, _) = asks(resolver.advance(Reply::Collections(locators(&["/c/a", "/c/b"]))));
    let (resolver, _) = asks(resolver.advance(Reply::Text("Work".to_string())));
    assert_eq!(
        resolved(resolver.advance(Reply::Text("work ".to_string()))),
        Err(ServiceError::NotFound)
    );
}

#[test]
fn walk_without_collections_finds_nothing() {
    let (resolver, _) = Resolver::resolve("work");
    assert_eq!(
        resolved(resolver.advance(Reply::Collections(Vec::new()))),
        Err(ServiceError::NotFound)
    );
}

#[test]
fn collection_labelled_default_is_not_found_under_another_spelling() {
    let (resolver, _) = Resolver::resolve("Default");
    let (resolver, _) = asks(resolver.advance(Reply::Collections(locators(&["/c/a"]))));
    assert_eq!(
        resolved(resolver.advance(Reply::Text("default".to_string()))),
        Err(ServiceError::NotFound)
    );
}

#[test]
fn failed_listing_is_a_decode_failure() {
    let (resolver, _) = Resolver::resolve("work");
    assert_eq!(
        resolved(resolver.advance(Reply::Failed("bus down".to_string()))),
        Err(ServiceError::DecodeFailure("bus down".to_string()))
    );
}

#[test]
fn failed_lock_query_is_a_decode_failure() {
    let (resolver, _) = Resolver::resolve("default");
    let (resolver, _) = asks(resolver.advance(Reply::Collection(locator("/c/login"))));
    assert_eq!(
        resolved(resolver.advance(Reply::Failed("gone".to_string()))),
        Err(ServiceError::DecodeFailure("gone".to_string()))
    );
}

#[test]
fn reply_of_the_wrong_kind_is_fatal() {
    let (resolver, _) = Resolver::resolve("default");
    assert_eq!(resolved(resolver.advance(Reply::Flag(true))), Err(ServiceError::Fatal));
    let (resolver, _) = Resolver::resolve("work");
    assert_eq!(
        resolved(resolver.advance(Reply::Collection(locator("/c/a")))),
        Err(ServiceError::Fatal)
    );
    let (resolver, _) = Resolver::resolve("work");
    let (resolver, _) = asks(resolver.advance(Reply::Collections(locators(&["/c/a"]))));
    assert_eq!(resolved(resolver.advance(Reply::Done)), Err(ServiceError::Fatal));
    let (resolver, _) = Resolver::create_or_get("work");
    assert_eq!(resolved(resolver.advance(Reply::Done)), Err(ServiceError::Fatal));
}

#[test]
fn create_or_get_creates_under_the_exact_label() {
    let (resolver, call) = Resolver::create_or_get("Work Stuff");
    match call {
        Call::CreateCollection { label, alias } => {
            assert_eq!(label, "Work Stuff");
            assert_eq!(alias, "");
        }
        other => panic!("unexpected call {:?}", other),
    }
    assert_eq!(
        resolved(resolver.advance(Reply::Collection(locator("/c/work_stuff")))),
        Ok(locator("/c/work_stuff"))
    );
}

#[test]
fn create_or_get_never_creates_a_default() {
    for name in ["default", "Default", "DEFAULT", "deFault"] {
        let (resolver, call) = Resolver::create_or_get(name);
        assert!(matches!(call, Call::DefaultCollection), "{name}");
        assert_eq!(
            resolved(resolver.advance(Reply::Collection(locator("/c/login")))),
            Ok(locator("/c/login"))
        );
    }
}

#[test]
fn create_or_get_fails_with_the_daemon() {
    let (resolver, _) = Resolver::create_or_get("work");
    assert_eq!(
        resolved(resolver.advance(Reply::Failed("prompt dismissed".to_string()))),
        Err(ServiceError::DecodeFailure("prompt dismissed".to_string()))
    );
}

#[test]
fn absent_default_collection_is_not_found() {
    let (resolver, _) = Resolver::resolve("default");
    assert_eq!(
        resolved(resolver.advance(Reply::Gone("no result".to_string()))),
        Err(ServiceError::NotFound)
    );
    let (resolver, _) = Resolver::create_or_get("Default");
    assert_eq!(
        resolved(resolver.advance(Reply::Gone("no result".to_string()))),
        Err(ServiceError::NotFound)
    );
}

#[test]
fn collection_that_vanishes_after_it_was_found_is_not_found() {
    let (resolver, _) = Resolver::resolve("default");
    let (resolver, _) = asks(resolver.advance(Reply::Collection(locator("/c/login"))));
    assert_eq!(
        resolved(resolver.advance(Reply::Gone("gone".to_string()))),
        Err(ServiceError::NotFound)
    );
    let (resolver, _) = Resolver::resolve("default");
    let (resolver, _) = asks(resolver.advance(Reply::Collection(locator("/c/login"))));
    let (resolver, _) = asks(resolver.advance(Reply::Flag(true)));
    assert_eq!(
        resolved(resolver.advance(Reply::Gone("gone".to_string()))),
        Err(ServiceError::NotFound)
    );
}

#[test]
fn walk_passes_over_collections_that_vanish() {
    let (resolver, _) = Resolver::resolve("work");
    let (resolver, _) = asks(resolver.advance(Reply::Collections(locators(&["/c/a", "/c/b"]))));
    let (resolver, call) = asks(resolver.advance(Reply::Gone("gone".to_string())));
    match call {
        Call::CollectionLabel { collection } => assert_eq!(collection, locator("/c/b")),
        other => panic!("unexpected call {:?}", other),
    }
    let (resolver, _) = asks(resolver.advance(Reply::Text("work".to_string())));
    assert_eq!(resolved(resolver.advance(Reply::Flag(false))), Ok(locator("/c/b")));
}

#[test]
fn listing_has_nothing_that_could_be_gone() {
    let (resolver, _) = Resolver::resolve("work");
    assert_eq!(
        resolved(resolver.advance(Reply::Gone("no service".to_string()))),
        Err(ServiceError::DecodeFailure("no service".to_string()))
    );
}
