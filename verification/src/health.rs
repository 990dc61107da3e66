//! Collision-driven health model.
//!
//! The physics layer outside the library reports contact transitions, each
//! carrying the collision-layer memberships of both sides. An event concerns
//! the player–hostile pair only when one side carries the player layer
//! exclusively and the other the hostile layer exclusively — both sides are
//! checked both ways so an entity left on default layers never
//! misclassifies. A contact-begin costs one health point, floored at zero;
//! a contact-end restores one, capped at the maximum ("safe when not
//! touching" recovery). Any other event is irrelevant and ignored.

use vstd::prelude::*;

verus! {

/// Full player health, and the number of indicator slots.
pub const MAX_HEALTH: u8 = 5;

/// Collision-layer memberships of one side of a contact.
#[derive(Clone, Copy, PartialEq, Eq, Structural, Debug)]
pub struct LayerTags {
    pub player: bool,
    pub enemies: bool,
}

/// Whether a contact transition begins or ends an overlap.
#[derive(Clone, Copy, PartialEq, Eq, Structural, Debug)]
pub enum ContactPhase {
    Begin,
    End,
}

/// One contact transition reported by the physics layer.
#[derive(Clone, Copy, PartialEq, Eq, Structural, Debug)]
pub struct CollisionEvent {
    pub phase: ContactPhase,
    pub layers_a: LayerTags,
    pub layers_b: LayerTags,
}

/// A side counts as the player only when it carries the player layer and
/// not the hostile layer.
pub open spec fn spec_is_player(layers: LayerTags) -> bool {
    layers.player && !layers.enemies
}

/// A side counts as a hostile only when it carries the hostile layer and
/// not the player layer.
pub open spec fn spec_is_enemy(layers: LayerTags) -> bool {
    !layers.player && layers.enemies
}

/// An event concerns the player–hostile pair exactly when one side is the
/// player exclusively and the other a hostile exclusively.
pub open spec fn spec_player_hostile_pair(a: LayerTags, b: LayerTags) -> bool {
    (spec_is_player(a) && spec_is_enemy(b)) || (spec_is_player(b) && spec_is_enemy(a))
}

pub fn is_player(layers: LayerTags) -> (r: bool)
    ensures
        r == spec_is_player(layers),
{
    layers.player && !layers.enemies
}

pub fn is_enemy(layers: LayerTags) -> (r: bool)
    ensures
        r == spec_is_enemy(layers),
{
    !layers.player && layers.enemies
}

pub fn is_player_hostile_pair(a: LayerTags, b: LayerTags) -> (r: bool)
    ensures
        r == spec_player_hostile_pair(a, b),
{
    (is_player(a) && is_enemy(b)) || (is_player(b) && is_enemy(a))
}

/// Health after one contact transition: begin subtracts one, floored at
/// zero; end adds one, capped at the maximum; an event that does not
/// concern the player–hostile pair changes nothing.
pub open spec fn health_after_event(h: int, e: CollisionEvent) -> int {
    if spec_player_hostile_pair(e.layers_a, e.layers_b) {
        match e.phase {
            ContactPhase::Begin => if h > 0 { h - 1 } else { 0 },
            ContactPhase::End => if h < MAX_HEALTH { h + 1 } else { MAX_HEALTH as int },
        }
    } else {
        h
    }
}

/// Health after a whole event batch, applied in order.
pub open spec fn health_after_events(h: int, events: Seq<CollisionEvent>) -> int
    decreases events.len(),
{
    if events.len() == 0 {
        h
    } else {
        health_after_event(health_after_events(h, events.drop_last()), events.last())
    }
}

/// Law: a contact-begin between the player and a hostile moves health to
/// max(h - 1, 0); a contact-end moves it to min(h + 1, MAX_HEALTH); any
/// other event leaves it unchanged; health never leaves [0, MAX_HEALTH].
pub proof fn lemma_health_event_transition(h: int, e: CollisionEvent)
    requires
        0 <= h <= MAX_HEALTH,
    ensures
        0 <= health_after_event(h, e) <= MAX_HEALTH,
        spec_player_hostile_pair(e.layers_a, e.layers_b) && e.phase is Begin
            ==> health_after_event(h, e) == (if h - 1 >= 0 { h - 1 } else { 0 }),
        spec_player_hostile_pair(e.layers_a, e.layers_b) && e.phase is End
            ==> health_after_event(h, e) == (if h + 1 <= MAX_HEALTH { h + 1 } else {
                MAX_HEALTH as int
            }),
        !spec_player_hostile_pair(e.layers_a, e.layers_b) ==> health_after_event(h, e) == h,
{
}

/// Law: over any event batch, health stays within [0, MAX_HEALTH].
pub proof fn lemma_health_events_in_range(h: int, events: Seq<CollisionEvent>)
    requires
        0 <= h <= MAX_HEALTH,
    ensures
        0 <= health_after_events(h, events) <= MAX_HEALTH,
    decreases events.len(),
{
    if events.len() > 0 {
        lemma_health_events_in_range(h, events.drop_last());
    }
}

/// Applies a batch of contact transitions to a health value.
pub fn apply_events(h: u8, events: &Vec<CollisionEvent>) -> (r: u8)
    requires
        h <= MAX_HEALTH,
    ensures
        r == health_after_events(h as int, events@),
        r <= MAX_HEALTH,
{
    let mut cur: u8 = h;
    let n: usize = events.len();
    let mut i: usize = 0;
    while i < n
        invariant
            i <= n,
            n == events@.len(),
            cur <= MAX_HEALTH,
            cur == health_after_events(h as int, events@.subrange(0, i as int)),
        decreases n - i,
    {
        let e = events[i];
        let concerned: bool = is_player_hostile_pair(e.layers_a, e.layers_b);
        match e.phase {
            ContactPhase::Begin => {
                if concerned && cur > 0 {
                    cur = cur - 1;
                }
            },
            ContactPhase::End => {
                if concerned && cur < MAX_HEALTH {
                    cur = cur + 1;
                }
            },
        }
        proof {
            assert(events@.subrange(0, i + 1 as int).drop_last() =~= events@.subrange(
                0,
                i as int,
            ));
        }
        i = i + 1;
    }
    proof {
        assert(events@.subrange(0, n as int) =~= events@);
    }
    cur
}

} // verus!
