//! What holds of the registry and of the session protocol, whatever the
//! inputs.

use crate::hub::{enqueued, Delivered};
use crate::message::{ChatEvent, ClientEvent};
use crate::session::{closed_effects, closed_registry, handled, Effect, Phase};
use crate::state::{claim_registry, claim_result, name_taken, registry_wf, Registry};
use crate::text::{is_blank, lemma_blank_iff_trimmed_empty, lemma_trimmed_is_trimmed, trimmed};
use crate::user::{JoinError, UserView};
use vstd::prelude::*;

verus! {

/// The results of a run of claims of one name, made one after the other
/// with the identities and times of `attempts`.
pub open spec fn claim_results(
    registry: Registry,
    name: Seq<char>,
    attempts: Seq<(u128, u64)>,
) -> Seq<Result<UserView, JoinError>>
    decreases attempts.len(),
{
    if attempts.len() == 0 {
        Seq::empty()
    } else {
        let (id, now) = attempts[0];
        seq![claim_result(registry, name, id, now)] + claim_results(
            claim_registry(registry, name, id, now),
            name,
            attempts.drop_first(),
        )
    }
}

/// The registry after a run of claims of one name, made one after the
/// other with the identities and times of `attempts`.
pub open spec fn registry_after_claims(
    registry: Registry,
    name: Seq<char>,
    attempts: Seq<(u128, u64)>,
) -> Registry
    decreases attempts.len(),
{
    if attempts.len() == 0 {
        registry
    } else {
        let (id, now) = attempts[0];
        registry_after_claims(
            claim_registry(registry, name, id, now),
            name,
            attempts.drop_first(),
        )
    }
}

/// The number of effects that publish the arrival of a user.
pub open spec fn arrivals(effects: Seq<Effect>) -> nat
    decreases effects.len(),
{
    if effects.len() == 0 {
        0
    } else {
        let rest = arrivals(effects.drop_last());
        if effects.last() matches Effect::Publish(ChatEvent::UserJoined { .. }) {
            rest + 1
        } else {
            rest
        }
    }
}

/// The number of effects that publish the departure of a user.
pub open spec fn departures(effects: Seq<Effect>) -> nat
    decreases effects.len(),
{
    if effects.len() == 0 {
        0
    } else {
        let rest = departures(effects.drop_last());
        if effects.last() matches Effect::Publish(ChatEvent::UserLeft { .. }) {
            rest + 1
        } else {
            rest
        }
    }
}

/// The number of effects that publish anything.
pub open spec fn publications(effects: Seq<Effect>) -> nat
    decreases effects.len(),
{
    if effects.len() == 0 {
        0
    } else {
        let rest = publications(effects.drop_last());
        if effects.last() is Publish {
            rest + 1
        } else {
            rest
        }
    }
}

/// A claim keeps the registry well formed: afterwards, as before, no two
/// users hold the same name.
pub proof fn lemma_claim_keeps_names_unique(registry: Registry, name: Seq<char>, id: u128, now: u64)
    requires
        registry_wf(registry),
    ensures
        registry_wf(claim_registry(registry, name, id, now)),
{
    let after = claim_registry(registry, name, id, now);
    if claim_result(registry, name, id, now) is Ok {
        lemma_trimmed_is_trimmed(name);
        assert forall|a: u128, b: u128|
            after.contains_key(a) && after.contains_key(b) && after[a].username
                == after[b].username implies a == b by {
            if a != id && b != id {
                assert(registry.contains_key(a) && registry.contains_key(b));
            } else if a != id {
                assert(registry.contains_key(a));
            } else if b != id {
                assert(registry.contains_key(b));
            }
        }
    }
}

/// A name that trims to a registered name cannot be claimed, and the
/// attempt changes nothing.
pub proof fn lemma_taken_name_refused(registry: Registry, name: Seq<char>, id: u128, now: u64)
    requires
        name_taken(registry, trimmed(name)),
    ensures
        claim_result(registry, name, id, now) is Err,
        claim_registry(registry, name, id, now) == registry,
{
}

/// Of the claims of one name that are made one after the other, where the
/// trimmed name is not empty and free at the start, the first succeeds and
/// every other is refused because the name is taken. Afterwards the
/// registry is well formed, and the user of the first claim is the one
/// user that holds the trimmed name.
pub proof fn lemma_one_claim_wins(registry: Registry, name: Seq<char>, attempts: Seq<(u128, u64)>)
    requires
        registry_wf(registry),
        trimmed(name).len() > 0,
        !name_taken(registry, trimmed(name)),
        attempts.len() > 0,
    ensures
        claim_results(registry, name, attempts).len() == attempts.len(),
        claim_results(registry, name, attempts)[0] is Ok,
        forall|i: int|
            1 <= i < attempts.len() ==> #[trigger] claim_results(registry, name, attempts)[i]
                == Err::<UserView, JoinError>(JoinError::NameTaken),
        registry_wf(registry_after_claims(registry, name, attempts)),
        forall|id: u128|
            #![trigger registry_after_claims(registry, name, attempts).contains_key(id)]
            registry_after_claims(registry, name, attempts).contains_key(id)
                && registry_after_claims(registry, name, attempts)[id].username == trimmed(name)
                <==> id == attempts[0].0,
{
    let (id, now) = attempts[0];
    let after = claim_registry(registry, name, id, now);
    assert(after.contains_key(id) && after[id].username == trimmed(name));
    lemma_claim_keeps_names_unique(registry, name, id, now);
    lemma_every_claim_refused(after, name, attempts.drop_first());
    assert(registry_after_claims(registry, name, attempts) == after);
}

/// Every claim of a name that trims to a registered name is refused because
/// the name is taken, and the registry stays as it is.
pub proof fn lemma_every_claim_refused(
    registry: Registry,
    name: Seq<char>,
    attempts: Seq<(u128, u64)>,
)
    requires
        trimmed(name).len() > 0,
        name_taken(registry, trimmed(name)),
    ensures
        registry_after_claims(registry, name, attempts) == registry,
        claim_results(registry, name, attempts).len() == attempts.len(),
        forall|i: int|
            0 <= i < attempts.len() ==> #[trigger] claim_results(registry, name, attempts)[i]
                == Err::<UserView, JoinError>(JoinError::NameTaken),
    decreases attempts.len(),
{
    if attempts.len() > 0 {
        let (id, now) = attempts[0];
        lemma_every_claim_refused(registry, name, attempts.drop_first());
    }
}

/// A blank name is refused as empty, and the attempt changes nothing.
pub proof fn lemma_blank_name_refused(registry: Registry, name: Seq<char>, id: u128, now: u64)
    requires
        is_blank(name),
    ensures
        claim_result(registry, name, id, now) == Err::<UserView, JoinError>(JoinError::EmptyName),
        claim_registry(registry, name, id, now) == registry,
{
    lemma_blank_iff_trimmed_empty(name);
}

/// A user that a claim registers carries the trimmed name, which is not
/// empty and has no whitespace at either end.
pub proof fn lemma_claimed_name_is_trimmed(registry: Registry, name: Seq<char>, id: u128, now: u64)
    ensures
        claim_result(registry, name, id, now) matches Ok(user) ==> user.username == trimmed(name)
            && user.username.len() > 0 && trimmed(user.username) == user.username,
{
    lemma_trimmed_is_trimmed(name);
}

/// A client event publishes one arrival if it is a join that succeeds, and
/// none otherwise; it never publishes a departure.
pub proof fn lemma_join_publishes_one_arrival(
    pre: Phase,
    registry: Registry,
    event: ClientEvent,
    id: u128,
    now: u64,
    post: Phase,
    after: Registry,
    effects: Seq<Effect>,
)
    requires
        handled(pre, registry, event, id, now, post, after, effects),
    ensures
        arrivals(effects) == if pre is Unauthenticated && post is Joined {
            1nat
        } else {
            0nat
        },
        departures(effects) == 0,
{
    reveal_with_fuel(arrivals, 4);
    reveal_with_fuel(departures, 4);
}

/// The teardown of a session publishes one departure if the session had
/// joined and its user is registered, and none otherwise; it never
/// publishes an arrival.
pub proof fn lemma_teardown_publishes_one_departure(pre: Phase, registry: Registry, now: u64)
    ensures
        departures(closed_effects(pre, registry, now)) == if pre matches Phase::Joined { id, .. }
            && registry.contains_key(id) {
            1nat
        } else {
            0nat
        },
        arrivals(closed_effects(pre, registry, now)) == 0,
        publications(closed_effects(pre, registry, now)) == departures(
            closed_effects(pre, registry, now),
        ),
{
    reveal_with_fuel(arrivals, 2);
    reveal_with_fuel(departures, 2);
    reveal_with_fuel(publications, 2);
}

/// Before a session has joined, a client event other than `Join` does
/// nothing: the session and the registry stay as they are, and nothing is
/// sent or published.
pub proof fn lemma_silent_before_join(
    pre: Phase,
    registry: Registry,
    event: ClientEvent,
    id: u128,
    now: u64,
    post: Phase,
    after: Registry,
    effects: Seq<Effect>,
)
    requires
        handled(pre, registry, event, id, now, post, after, effects),
        pre is Unauthenticated,
        !(event is Join),
    ensures
        post == pre,
        after == registry,
        effects.len() == 0,
        publications(effects) == 0,
{
}

/// Tearing a session down a second time does nothing: the session stays
/// closed, the registry stays as the first teardown left it, and nothing
/// is published.
pub proof fn lemma_teardown_is_idempotent(pre: Phase, registry: Registry, now: u64, later: u64)
    ensures
        closed_registry(Phase::Closed, closed_registry(pre, registry)) == closed_registry(
            pre,
            registry,
        ),
        closed_effects(Phase::Closed, closed_registry(pre, registry), later) == Seq::<
            Effect,
        >::empty(),
{
}

/// The deliveries of a subscription that keeps pace with the hub: each
/// published event, in the order of publication.
pub open spec fn in_pace(events: Seq<ChatEvent>) -> Seq<Delivered> {
    Seq::new(events.len(), |i: int| Delivered::Event(events[i]))
}

/// A forwarder whose subscription keeps pace hands every published event
/// to its writer, in the order of publication; so all the forwarders that
/// keep pace hand over the same events in the same order.
pub proof fn lemma_in_pace_enqueues_all(events: Seq<ChatEvent>)
    ensures
        enqueued(in_pace(events)) == events,
    decreases events.len(),
{
    if events.len() > 0 {
        assert(in_pace(events).drop_first() =~= in_pace(events.drop_first()));
        lemma_in_pace_enqueues_all(events.drop_first());
        assert(seq![events[0]] + events.drop_first() =~= events);
    }
}

} // verus!
