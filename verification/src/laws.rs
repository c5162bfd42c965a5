//! What holds of every session, whatever the daemon replies.

use vstd::prelude::*;
use crate::attributes::{satisfies, AttributeMap};
use crate::daemon::{CallView, ReplyView};
use crate::driver::{asked, run};
use crate::error::ServiceErrorView;
use crate::gateway::{
    default_kept,
    octet_stream,
    plain_text,
    AnswerView,
    RequestView,
    SessionView,
    StepView,
};
use crate::identity::{
    lemma_reserved_keys_differ,
    reserved,
    service_key,
    target_key,
    username_key,
    IdentityView,
};
use crate::resolver::{resolve_asked, resolve_run, ResolutionView, ResolverView};
use crate::text::{ascii_lowered, default_name};

verus! {

/// An identity without a target is written down as service and user name
/// and nothing else: there is no `target` attribute, not even an empty one.
pub proof fn law_untargeted_attributes(identity: IdentityView)
    requires
        identity.target is None,
    ensures
        identity.attributes().dom() =~= set![service_key(), username_key()],
        identity.attributes()[service_key()] == identity.service,
        identity.attributes()[username_key()] == identity.username,
        !identity.attributes().contains_key(target_key()),
{
    lemma_reserved_keys_differ();
}

/// An identity with a target is written down as service, user name and
/// target.
pub proof fn law_targeted_attributes(identity: IdentityView)
    requires
        identity.target is Some,
    ensures
        identity.attributes().dom() =~= set![service_key(), username_key(), target_key()],
        identity.attributes()[service_key()] == identity.service,
        identity.attributes()[username_key()] == identity.username,
        identity.attributes()[target_key()] == identity.target->0,
{
    lemma_reserved_keys_differ();
}

/// An item answers the search of the identity that it was created for.
pub proof fn law_item_answers_own_search(identity: IdentityView)
    ensures
        satisfies(identity.attributes(), identity.attributes()),
{
}

/// An item that answers an identity's search still answers it after a
/// caller has set attributes of its own on it: a caller's attributes are
/// never the reserved ones, and an update keeps what it does not mention.
pub proof fn law_update_keeps_identity(
    stored: AttributeMap,
    identity: IdentityView,
    extras: AttributeMap,
)
    requires
        satisfies(stored, identity.attributes()),
        forall|key: Seq<char>| extras.contains_key(key) ==> !reserved(key),
    ensures
        satisfies(stored.union_prefer_right(extras), identity.attributes()),
{
    lemma_reserved_keys_differ();
    let predicate = identity.attributes();
    assert forall|key: Seq<char>| #[trigger] predicate.contains_key(key) implies reserved(key) by {}
}

/// A search that names a target does not find an item that was created for
/// the same service and user name under another target.
pub proof fn law_other_target_not_found(
    stored: IdentityView,
    sought: IdentityView,
    others: AttributeMap,
)
    requires
        stored.target is Some,
        sought.target is Some,
        stored.target != sought.target,
        forall|key: Seq<char>| others.contains_key(key) ==> !reserved(key),
    ensures
        !satisfies(stored.attributes().union_prefer_right(others), sought.attributes()),
{
    lemma_reserved_keys_differ();
    assert(reserved(target_key()));
    assert(sought.attributes().contains_key(target_key()));
}

/// A search that names no target finds the items of its service and user
/// name under every target.
pub proof fn law_untargeted_search_finds_all_targets(stored: IdentityView, sought: IdentityView)
    requires
        sought.target is None,
        stored.service == sought.service,
        stored.username == sought.username,
    ensures
        satisfies(stored.attributes(), sought.attributes()),
{
    lemma_reserved_keys_differ();
}

/// The default collection is never deleted: asked to delete the collection
/// named `default`, a session refuses at once and asks nothing of the
/// daemon, so that no reply and no state of the daemon can change the
/// outcome.
pub proof fn law_default_collection_is_kept<E>(replies: Seq<ReplyView<E>>)
    ensures
        run(
            SessionView::begin::<E>(
                RequestView::DeleteCollection { collection: default_name() },
                true,
            ),
            replies,
        ) == StepView::<E>::Finished(Err(ServiceErrorView::NotSupportedByStore(default_kept()))),
        asked(
            SessionView::begin::<E>(
                RequestView::DeleteCollection { collection: default_name() },
                true,
            ),
            replies,
        ) == Seq::<CallView>::empty(),
{
}

/// Without the connection in good order no operation asks anything of the
/// daemon; each fails as fatal.
pub proof fn law_broken_connection_is_fatal<E>(request: RequestView, replies: Seq<ReplyView<E>>)
    ensures
        run(SessionView::begin::<E>(request, false), replies) == StepView::<E>::Finished(
            Err(ServiceErrorView::Fatal),
        ),
        asked(SessionView::begin::<E>(request, false), replies) == Seq::<CallView>::empty(),
{
}

/// Whether `call` is one that the resolution of `default` to the collection
/// `collection` may put.
pub open spec fn default_call(call: CallView, collection: Seq<char>) -> bool {
    call == CallView::DefaultCollection || call == (CallView::CollectionLocked { collection })
        || call == (CallView::UnlockCollection { collection })
}

/// The name `default` resolves to the daemon's default collection and to
/// nothing else. The resolution begins by asking for the default
/// collection; it never lists, reads a label or creates; and when it
/// succeeds, what it hands out is the collection that the daemon named in
/// its first reply. This holds of every resolution, so of a second one as
/// of the first, whatever collections exist by then.
pub proof fn law_default_is_the_default_collection<E>(replies: Seq<ReplyView<E>>)
    ensures
        ResolverView::resolve(default_name()) == (
            ResolverView::FetchingDefault,
            CallView::DefaultCollection,
        ),
        ({
            let start = ResolutionView::<E>::Ask(
                ResolverView::FetchingDefault,
                CallView::DefaultCollection,
            );
            &&& resolve_run(start, replies) matches ResolutionView::Resolved(Ok(collection))
                ==> replies.len() > 0 && replies[0] == ReplyView::<E>::Collection(collection)
            &&& replies.len() > 0 ==> (replies[0] matches ReplyView::Collection(collection)
                ==> forall|i: int|
                0 <= i < resolve_asked(start, replies).len() ==> default_call(
                    #[trigger] resolve_asked(start, replies)[i],
                    collection,
                ))
        }),
{
    let start = ResolutionView::<E>::Ask(
        ResolverView::FetchingDefault,
        CallView::DefaultCollection,
    );
    reveal_with_fuel(resolve_run, 4);
    reveal_with_fuel(resolve_asked, 4);
}

/// Overlaying keeps what the update does not mention and takes the rest
/// from the update: a key of the update has the update's value, any other
/// key has the value it had, and no key appears or disappears otherwise.
pub proof fn law_overlay_keeps_unmentioned(existing: AttributeMap, update: AttributeMap)
    ensures
        forall|key: Seq<char>| #[trigger]
            update.contains_key(key) ==> existing.union_prefer_right(update).contains_key(key)
                && existing.union_prefer_right(update)[key] == update[key],
        forall|key: Seq<char>|
            existing.contains_key(key) && !update.contains_key(key)
                ==> #[trigger] existing.union_prefer_right(update).contains_key(key)
                && existing.union_prefer_right(update)[key] == existing[key],
        forall|key: Seq<char>| #[trigger]
            existing.union_prefer_right(update).contains_key(key) ==> existing.contains_key(key)
                || update.contains_key(key),
{
}

/// An update of attributes reads the item's attributes, writes back their
/// overlay with the update, and is done: nothing that the item had is lost,
/// whoever had set it.
pub proof fn law_update_merges<E>(item: Seq<char>, update: AttributeMap, existing: AttributeMap)
    ensures
        ({
            let start = SessionView::begin::<E>(
                RequestView::UpdateAttributes { item, attributes: update },
                true,
            );
            let replies = seq![ReplyView::<E>::Attributes(existing), ReplyView::<E>::Done];
            &&& run(start, replies) == StepView::<E>::Finished(Ok(AnswerView::Done))
            &&& asked(start, replies) == seq![
                CallView::GetAttributes { item },
                CallView::SetAttributes { item, attributes: existing.union_prefer_right(update) },
            ]
        }),
{
    let start = SessionView::begin::<E>(
        RequestView::UpdateAttributes { item, attributes: update },
        true,
    );
    let replies = seq![ReplyView::<E>::Attributes(existing), ReplyView::<E>::Done];
    reveal_with_fuel(run, 3);
    reveal_with_fuel(asked, 3);
    assert(replies.drop_first() =~= seq![ReplyView::<E>::Done]);
}

/// A resolution that is under way never asks for an item or a collection
/// to be created.
pub proof fn law_resolver_creates_nothing<E>(resolver: ResolverView, reply: ReplyView<E>)
    ensures
        resolver.advance(reply) matches ResolutionView::Ask(_, call) ==> !(call is CreateItem)
            && !(call is CreateCollection),
{
}

/// Whenever a session asks for an item to be created, it asks for it to
/// replace an item with the same attributes, and for its secret to be
/// stored as an octet stream. So creating twice under the same attributes
/// asks the daemon twice to overwrite, never to add a second item.
pub proof fn law_items_are_created_replacing<E>(session: SessionView, reply: ReplyView<E>)
    ensures
        session.advance(reply) matches StepView::Ask(_, CallView::CreateItem {
            replace,
            content_type,
            ..
        }) ==> replace && content_type == octet_stream(),
{
    match session {
        SessionView::Placing { resolver, .. } => {
            law_resolver_creates_nothing(resolver, reply);
        },
        SessionView::Locating { resolver } => {
            law_resolver_creates_nothing(resolver, reply);
        },
        _ => {},
    }
}

/// A search hands out no item that is still locked. When it succeeds, what
/// it hands out is what the daemon found, the unlocked items first; and if
/// any of them was locked, the session has asked for exactly the locked
/// ones to be unlocked and the daemon has confirmed it.
pub proof fn law_search_unlocks_what_it_returns<E>(
    attributes: AttributeMap,
    replies: Seq<ReplyView<E>>,
    items: Seq<Seq<char>>,
)
    requires
        run(
            SessionView::begin::<E>(RequestView::FindMatchingItems { attributes }, true),
            replies,
        ) == StepView::<E>::Finished(Ok(AnswerView::Items(items))),
    ensures
        replies.len() > 0,
        replies[0] matches ReplyView::Items { unlocked, locked } && items == unlocked + locked && (
        locked.len() > 0 ==> replies.len() > 1 && replies[1] == ReplyView::<E>::Done && asked(
            SessionView::begin::<E>(RequestView::FindMatchingItems { attributes }, true),
            replies,
        ) == seq![CallView::SearchItems { attributes }, CallView::UnlockItems { items: locked }]),
{
    reveal_with_fuel(run, 3);
    reveal_with_fuel(asked, 3);
    if replies.len() > 1 {
        assert(replies.drop_first().first() == replies[1]);
    }
}

/// A search whose daemon call fails, or whose batch unlock fails, fails
/// with that cause and hands out nothing; a search that finds nothing
/// succeeds with no items.
pub proof fn law_search_outcomes<E>(
    attributes: AttributeMap,
    unlocked: Seq<Seq<char>>,
    locked: Seq<Seq<char>>,
    cause: E,
)
    requires
        locked.len() > 0,
    ensures
        ({
            let start = SessionView::begin::<E>(
                RequestView::FindMatchingItems { attributes },
                true,
            );
            &&& run(start, seq![ReplyView::Failed(cause)]) == StepView::<E>::Finished(
                Err(ServiceErrorView::DecodeFailure(cause)),
            )
            &&& run(
                start,
                seq![
                    ReplyView::Items { unlocked: Seq::empty(), locked: Seq::empty() },
                ],
            ) == StepView::<E>::Finished(Ok(AnswerView::Items(Seq::empty())))
            &&& run(start, seq![ReplyView::Items { unlocked, locked }, ReplyView::Done])
                == StepView::<E>::Finished(Ok(AnswerView::Items(unlocked + locked)))
            &&& run(start, seq![ReplyView::Items { unlocked, locked }, ReplyView::Failed(cause)])
                == StepView::<E>::Finished(Err(ServiceErrorView::DecodeFailure(cause)))
        }),
{
    reveal_with_fuel(run, 3);
    assert(Seq::<Seq<char>>::empty() + Seq::<Seq<char>>::empty() =~= Seq::<Seq<char>>::empty());
    assert(seq![ReplyView::<E>::Items { unlocked, locked }, ReplyView::<E>::Done].drop_first()
        =~= seq![ReplyView::<E>::Done]);
    assert(seq![
        ReplyView::<E>::Items { unlocked, locked },
        ReplyView::<E>::Failed(cause),
    ].drop_first() =~= seq![ReplyView::<E>::Failed(cause)]);
}

/// The daemon's answer to a request for a collection's label.
pub open spec fn label_reply<E>(label: Result<Seq<char>, E>) -> ReplyView<E> {
    match label {
        Ok(label) => ReplyView::Text(label),
        Err(cause) => ReplyView::Failed(cause),
    }
}

/// The daemon's answers to requests for the labels of several collections,
/// in order.
pub open spec fn label_replies<E>(labels: Seq<Result<Seq<char>, E>>) -> Seq<ReplyView<E>> {
    Seq::new(labels.len(), |i: int| label_reply(labels[i]))
}

/// A name other than `default` resolves to the first collection whose label
/// reads exactly that name. Collections before it, whose labels read
/// otherwise or cannot be read, are passed over; collections after it are
/// not asked about.
pub proof fn law_walk_finds_first<E>(
    name: Seq<char>,
    all: Seq<Seq<char>>,
    labels: Seq<Result<Seq<char>, E>>,
    first: int,
)
    requires
        all.len() == labels.len(),
        0 <= first < labels.len(),
        labels[first] == Ok::<Seq<char>, E>(name),
        forall|i: int| 0 <= i < first ==> labels[i] != Ok::<Seq<char>, E>(name),
    ensures
        resolve_run(ResolverView::scan_on(name, all), label_replies(labels).take(first + 1))
            == ResolverView::found::<E>(all[first]),
    decreases first,
{
    let replies = label_replies(labels).take(first + 1);
    let walking = ResolverView::Scanning { name, current: all.first(), rest: all.drop_first() };
    assert(resolve_run(ResolverView::scan_on::<E>(name, all), replies) == resolve_run(
        walking.advance(replies.first()),
        replies.drop_first(),
    ));
    if first > 0 {
        let later = labels.drop_first();
        law_walk_finds_first(name, all.drop_first(), later, first - 1);
        assert(replies.drop_first() =~= label_replies(later).take(first));
    }
}

/// A name other than `default` that no collection's label reads is not
/// found, once every collection has been asked about.
pub proof fn law_walk_misses<E>(
    name: Seq<char>,
    all: Seq<Seq<char>>,
    labels: Seq<Result<Seq<char>, E>>,
)
    requires
        all.len() == labels.len(),
        forall|i: int| 0 <= i < labels.len() ==> labels[i] != Ok::<Seq<char>, E>(name),
    ensures
        resolve_run(ResolverView::scan_on(name, all), label_replies(labels))
            == ResolutionView::<E>::Resolved(Err(ServiceErrorView::NotFound)),
    decreases all.len(),
{
    if all.len() > 0 {
        let later = labels.drop_first();
        law_walk_misses(name, all.drop_first(), later);
        assert(label_replies(labels).drop_first() =~= label_replies(later));
    }
}

/// A collection is handed out unlocked: one that the daemon reports locked
/// is resolved only after the daemon has confirmed its unlocking.
pub proof fn law_resolution_unlocks<E>(collection: Seq<char>, cause: E)
    ensures
        ResolverView::found::<E>(collection) == ResolutionView::<E>::Ask(
            ResolverView::CheckingLock { collection },
            CallView::CollectionLocked { collection },
        ),
        (ResolverView::CheckingLock { collection }).advance(ReplyView::<E>::Flag(false))
            == ResolutionView::<E>::Resolved(Ok(collection)),
        (ResolverView::CheckingLock { collection }).advance(ReplyView::<E>::Flag(true))
            == ResolutionView::<E>::Ask(
            ResolverView::Unlocking { collection },
            CallView::UnlockCollection { collection },
        ),
        (ResolverView::Unlocking { collection }).advance(ReplyView::<E>::Done)
            == ResolutionView::<E>::Resolved(Ok(collection)),
        (ResolverView::Unlocking { collection }).advance(ReplyView::<E>::Failed(cause))
            == ResolutionView::<E>::Resolved(Err(ServiceErrorView::DecodeFailure(cause))),
{
}

/// A name that reads `default` in any mix of capital and small letters is
/// never created as a collection: the default collection stands for it.
pub proof fn law_default_is_never_created(name: Seq<char>)
    requires
        ascii_lowered(name) == default_name(),
    ensures
        ResolverView::create_or_get(name) == (ResolverView::Creating, CallView::DefaultCollection),
{
}

/// A failed write of a secret is a platform failure, and carries the
/// daemon's cause.
pub proof fn law_failed_secret_write_is_platform_failure<E>(
    item: Seq<char>,
    secret: Seq<u8>,
    cause: E,
)
    ensures
        ({
            let start = SessionView::begin::<E>(RequestView::SetSecret { item, secret }, true);
            &&& asked(start, seq![ReplyView::Failed(cause)]) == seq![
                CallView::SetSecret { item, secret, content_type: plain_text() },
            ]
            &&& run(start, seq![ReplyView::Failed(cause)]) == StepView::<E>::Finished(
                Err(ServiceErrorView::PlatformFailure(cause)),
            )
        }),
{
    reveal_with_fuel(run, 2);
    reveal_with_fuel(asked, 2);
}

/// Whether `request` is an operation on one item that is named by its
/// locator.
pub open spec fn about_item(request: RequestView) -> bool {
    request is EnsureUnlocked || request is SetSecret || request is GetSecret
        || request is GetAttributes || request is UpdateAttributes || request is Delete
        || request is GetLabel || request is SetLabel
}

/// An operation on an item that does not exist, or does not exist any more,
/// ends as not found: it asks its one call, and the daemon's report that
/// nothing is there finishes it.
pub proof fn law_stale_item_is_not_found<E>(request: RequestView, cause: E)
    requires
        about_item(request),
    ensures
        run(SessionView::begin::<E>(request, true), seq![ReplyView::Gone(cause)])
            == StepView::<E>::Finished(Err(ServiceErrorView::NotFound)),
        asked(SessionView::begin::<E>(request, true), seq![ReplyView::Gone(cause)]).len() == 1,
{
    reveal_with_fuel(run, 2);
    reveal_with_fuel(asked, 2);
}

/// The resolution has not come to its end before any of `replies` is
/// given.
pub open spec fn still_resolving<E>(start: ResolutionView<E>, replies: Seq<ReplyView<E>>) -> bool {
    forall|k: int| 0 <= k < replies.len() ==> #[trigger] resolve_run(start, replies.take(k)) is Ask
}

/// The calls that a session adds to those of its resolver once the
/// resolution is over.
pub open spec fn after_resolution<E>(resolution: ResolutionView<E>, step: StepView<E>) -> Seq<
    CallView,
> {
    if resolution is Resolved {
        step.pending()
    } else {
        Seq::empty()
    }
}

proof fn lemma_still_resolving_later<E>(
    resolver: ResolverView,
    call: CallView,
    replies: Seq<ReplyView<E>>,
)
    requires
        replies.len() > 0,
        still_resolving(ResolutionView::Ask(resolver, call), replies),
    ensures
        still_resolving(resolver.advance(replies.first()), replies.drop_first()),
{
    let start = ResolutionView::<E>::Ask(resolver, call);
    let next = resolver.advance(replies.first());
    let rest = replies.drop_first();
    assert forall|k: int| 0 <= k < rest.len() implies #[trigger] resolve_run(next, rest.take(k))
        is Ask by {
        let prefix = replies.take(k + 1);
        assert(prefix.first() == replies.first());
        assert(prefix.drop_first() =~= rest.take(k));
        assert(resolve_run(start, prefix) is Ask);
    }
}

/// A session that deletes a collection follows its resolver. While the
/// resolution is under way the session asks what the resolver asks; when
/// the resolution ends, the session asks for the collection found to be
/// deleted, or fails as the resolution failed.
pub proof fn law_locating_follows_resolution<E>(
    start: ResolutionView<E>,
    replies: Seq<ReplyView<E>>,
)
    requires
        still_resolving(start, replies),
    ensures
        run(SessionView::located(start), replies) == SessionView::located(
            resolve_run(start, replies),
        ),
        asked(SessionView::located(start), replies) == resolve_asked(start, replies)
            + after_resolution(
            resolve_run(start, replies),
            SessionView::located(resolve_run(start, replies)),
        ),
    decreases replies.len(),
{
    if replies.len() == 0 {
        assert(asked(SessionView::located(start), replies) =~= resolve_asked(start, replies)
            + after_resolution(start, SessionView::located(start)));
    } else {
        assert(replies.take(0) =~= Seq::<ReplyView<E>>::empty());
        assert(resolve_run(start, replies.take(0)) is Ask);
        match start {
            ResolutionView::Ask(resolver, call) => {
                let next = resolver.advance(replies.first());
                lemma_still_resolving_later(resolver, call, replies);
                law_locating_follows_resolution(next, replies.drop_first());
                assert(asked(SessionView::located(start), replies) =~= resolve_asked(
                    start,
                    replies,
                ) + after_resolution(
                    resolve_run(start, replies),
                    SessionView::located(resolve_run(start, replies)),
                ));
            },
            ResolutionView::Resolved(_) => {},
        }
    }
}

/// A session that creates an item follows its resolver. While the
/// resolution is under way the session asks what the resolver asks; when
/// the resolution ends, the session asks for the item to be created in the
/// collection found, turns to creating the collection where none was found,
/// or fails as the resolution failed.
pub proof fn law_placing_follows_resolution<E>(
    start: ResolutionView<E>,
    replies: Seq<ReplyView<E>>,
    may_create: bool,
    collection: Seq<char>,
    label: Seq<char>,
    attributes: AttributeMap,
    secret: Seq<u8>,
)
    requires
        still_resolving(start, replies),
    ensures
        run(
            SessionView::placed(start, may_create, collection, label, attributes, secret),
            replies,
        ) == SessionView::placed(
            resolve_run(start, replies),
            may_create,
            collection,
            label,
            attributes,
            secret,
        ),
        asked(
            SessionView::placed(start, may_create, collection, label, attributes, secret),
            replies,
        ) == resolve_asked(start, replies) + after_resolution(
            resolve_run(start, replies),
            SessionView::placed(
                resolve_run(start, replies),
                may_create,
                collection,
                label,
                attributes,
                secret,
            ),
        ),
    decreases replies.len(),
{
    let lifted = SessionView::placed(start, may_create, collection, label, attributes, secret);
    if replies.len() == 0 {
        assert(asked(lifted, replies) =~= resolve_asked(start, replies) + after_resolution(
            start,
            lifted,
        ));
    } else {
        assert(replies.take(0) =~= Seq::<ReplyView<E>>::empty());
        assert(resolve_run(start, replies.take(0)) is Ask);
        match start {
            ResolutionView::Ask(resolver, call) => {
                let next = resolver.advance(replies.first());
                lemma_still_resolving_later(resolver, call, replies);
                law_placing_follows_resolution(
                    next,
                    replies.drop_first(),
                    may_create,
                    collection,
                    label,
                    attributes,
                    secret,
                );
                assert(asked(lifted, replies) =~= resolve_asked(start, replies)
                    + after_resolution(
                    resolve_run(start, replies),
                    SessionView::placed(
                        resolve_run(start, replies),
                        may_create,
                        collection,
                        label,
                        attributes,
                        secret,
                    ),
                ));
            },
            ResolutionView::Resolved(_) => {},
        }
    }
}

/// Replies given in two batches lead where they lead when given in one.
pub proof fn lemma_resolve_run_concat<E>(
    start: ResolutionView<E>,
    former: Seq<ReplyView<E>>,
    latter: Seq<ReplyView<E>>,
)
    ensures
        resolve_run(start, former + latter) == resolve_run(resolve_run(start, former), latter),
    decreases former.len(),
{
    if former.len() == 0 {
        assert(former + latter =~= latter);
    } else {
        let all = former + latter;
        assert(all.first() == former.first());
        assert(all.drop_first() =~= former.drop_first() + latter);
        match start {
            ResolutionView::Ask(resolver, _) => {
                lemma_resolve_run_concat(
                    resolver.advance(former.first()),
                    former.drop_first(),
                    latter,
                );
            },
            ResolutionView::Resolved(_) => {},
        }
    }
}

/// The walk has not ended before it has read the label it is looking for.
pub proof fn lemma_walk_keeps_asking<E>(
    name: Seq<char>,
    all: Seq<Seq<char>>,
    labels: Seq<Result<Seq<char>, E>>,
    first: int,
    read: int,
)
    requires
        all.len() == labels.len(),
        0 <= first < labels.len(),
        forall|i: int| 0 <= i < first ==> labels[i] != Ok::<Seq<char>, E>(name),
        0 <= read <= first,
    ensures
        resolve_run(ResolverView::scan_on(name, all), label_replies(labels).take(read)) is Ask,
    decreases read,
{
    let replies = label_replies(labels).take(read);
    if read > 0 {
        let later = labels.drop_first();
        assert(replies.first() == label_reply(labels[0]));
        assert(replies.drop_first() =~= label_replies(later).take(read - 1));
        assert forall|i: int| 0 <= i < first - 1 implies later[i] != Ok::<Seq<char>, E>(name) by {
            assert(later[i] == labels[i + 1]);
        }
        lemma_walk_keeps_asking(name, all.drop_first(), later, first - 1, read - 1);
    }
}

/// The replies of a daemon that lists `all`, reads out `labels` up to the
/// one at `first`, and reports the collection found unlocked.
pub open spec fn walk_replies<E>(
    all: Seq<Seq<char>>,
    labels: Seq<Result<Seq<char>, E>>,
    first: int,
) -> Seq<ReplyView<E>> {
    seq![ReplyView::Collections(all)] + label_replies(labels).take(first + 1) + seq![
        ReplyView::Flag(false),
    ]
}

/// A name other than `default` whose label is first read at `first`
/// resolves to the collection listed there, and to its very end the
/// resolution asks for nothing to be created.
pub proof fn law_walk_resolves<E>(
    name: Seq<char>,
    all: Seq<Seq<char>>,
    labels: Seq<Result<Seq<char>, E>>,
    first: int,
)
    requires
        name != default_name(),
        all.len() == labels.len(),
        0 <= first < labels.len(),
        labels[first] == Ok::<Seq<char>, E>(name),
        forall|i: int| 0 <= i < first ==> labels[i] != Ok::<Seq<char>, E>(name),
    ensures
        ({
            let start = ResolutionView::<E>::Ask(
                ResolverView::resolve(name).0,
                ResolverView::resolve(name).1,
            );
            let replies = walk_replies(all, labels, first);
            &&& still_resolving(start, replies)
            &&& resolve_run(start, replies) == ResolutionView::<E>::Resolved(Ok(all[first]))
            &&& forall|i: int|
                0 <= i < resolve_asked(start, replies).len() ==> !(#[trigger] resolve_asked(
                    start,
                    replies,
                )[i] is CreateCollection) && !(resolve_asked(start, replies)[i] is CreateItem)
        }),
{
    let start = ResolutionView::<E>::Ask(
        ResolverView::Listing { name },
        CallView::AllCollections,
    );
    let read = label_replies(labels).take(first + 1);
    let walked = read + seq![ReplyView::<E>::Flag(false)];
    let replies = walk_replies(all, labels, first);
    let walk = ResolverView::scan_on::<E>(name, all);
    assert(replies =~= seq![ReplyView::<E>::Collections(all)] + walked);
    assert forall|k: int| 0 <= k < replies.len() implies #[trigger] resolve_run(
        start,
        replies.take(k),
    ) is Ask by {
        if k > 0 {
            let prefix = replies.take(k);
            assert(prefix.first() == ReplyView::<E>::Collections(all));
            assert(prefix.drop_first() =~= label_replies(labels).take(k - 1));
            assert(resolve_run(start, prefix) == resolve_run(walk, prefix.drop_first()));
            if k - 1 <= first {
                lemma_walk_keeps_asking(name, all, labels, first, k - 1);
            } else {
                law_walk_finds_first(name, all, labels, first);
            }
        } else {
            assert(replies.take(0) =~= Seq::<ReplyView<E>>::empty());
        }
    }
    assert(replies.first() == ReplyView::<E>::Collections(all));
    assert(replies.drop_first() =~= walked);
    assert(resolve_run(start, replies) == resolve_run(walk, walked));
    lemma_resolve_run_concat(walk, read, seq![ReplyView::<E>::Flag(false)]);
    law_walk_finds_first(name, all, labels, first);
    reveal_with_fuel(resolve_run, 2);
    law_resolution_creates_nothing(start, replies);
}

/// A resolution that does not begin by asking for something to be created
/// never asks for it.
pub proof fn law_resolution_creates_nothing<E>(
    start: ResolutionView<E>,
    replies: Seq<ReplyView<E>>,
)
    requires
        start matches ResolutionView::Ask(_, call) ==> !(call is CreateCollection) && !(call
            is CreateItem),
    ensures
        forall|i: int|
            0 <= i < resolve_asked(start, replies).len() ==> !(#[trigger] resolve_asked(
                start,
                replies,
            )[i] is CreateCollection) && !(resolve_asked(start, replies)[i] is CreateItem),
    decreases replies.len(),
{
    match start {
        ResolutionView::Ask(resolver, call) => {
            if replies.len() > 0 {
                let next = resolver.advance(replies.first());
                law_resolver_creates_nothing(resolver, replies.first());
                law_resolution_creates_nothing(next, replies.drop_first());
                assert forall|i: int| 0 <= i < resolve_asked(start, replies).len() implies !(
                #[trigger] resolve_asked(start, replies)[i] is CreateCollection) && !(resolve_asked(
                    start,
                    replies,
                )[i] is CreateItem) by {
                    if i > 0 {
                        assert(resolve_asked(start, replies)[i] == resolve_asked(
                            next,
                            replies.drop_first(),
                        )[i - 1]);
                    }
                }
            }
        },
        ResolutionView::Resolved(_) => {},
    }
}

/// A new item goes to the first collection whose label reads the name it
/// was asked to go to, and where there is such a collection none is
/// created.
pub proof fn law_item_goes_to_first_labelled<E>(
    name: Seq<char>,
    label: Seq<char>,
    attributes: AttributeMap,
    secret: Seq<u8>,
    all: Seq<Seq<char>>,
    labels: Seq<Result<Seq<char>, E>>,
    first: int,
)
    requires
        name != default_name(),
        all.len() == labels.len(),
        0 <= first < labels.len(),
        labels[first] == Ok::<Seq<char>, E>(name),
        forall|i: int| 0 <= i < first ==> labels[i] != Ok::<Seq<char>, E>(name),
    ensures
        ({
            let start = SessionView::begin::<E>(
                RequestView::CreateItem { collection: name, label, attributes, secret },
                true,
            );
            let replies = walk_replies(all, labels, first);
            &&& run(start, replies) == SessionView::create_in::<E>(
                all[first],
                label,
                attributes,
                secret,
            )
            &&& forall|i: int|
                0 <= i < asked(start, replies).len() ==> !(#[trigger] asked(start, replies)[i]
                    is CreateCollection)
        }),
{
    let resolving = ResolutionView::<E>::Ask(
        ResolverView::Listing { name },
        CallView::AllCollections,
    );
    let replies = walk_replies(all, labels, first);
    law_walk_resolves(name, all, labels, first);
    law_placing_follows_resolution(resolving, replies, true, name, label, attributes, secret);
}

/// Deleting a collection by a name other than `default` deletes the first
/// collection whose label reads that name.
pub proof fn law_first_labelled_is_deleted<E>(
    name: Seq<char>,
    all: Seq<Seq<char>>,
    labels: Seq<Result<Seq<char>, E>>,
    first: int,
)
    requires
        name != default_name(),
        all.len() == labels.len(),
        0 <= first < labels.len(),
        labels[first] == Ok::<Seq<char>, E>(name),
        forall|i: int| 0 <= i < first ==> labels[i] != Ok::<Seq<char>, E>(name),
    ensures
        run(
            SessionView::begin::<E>(RequestView::DeleteCollection { collection: name }, true),
            walk_replies(all, labels, first),
        ) == StepView::<E>::Ask(
            SessionView::Confirming,
            CallView::DeleteCollection { collection: all[first] },
        ),
{
    let resolving = ResolutionView::<E>::Ask(
        ResolverView::Listing { name },
        CallView::AllCollections,
    );
    law_walk_resolves(name, all, labels, first);
    law_locating_follows_resolution(resolving, walk_replies(all, labels, first));
}

} // verus!
