//! The voting zones of the room: one square per card, laid out in a row.
//! Standing in a zone means voting for its card.

use vstd::prelude::*;
use crate::model::VotingConfig;
use crate::protocol::{ClientPayload, CommandView};

verus! {

/// The column of the first zone.
pub const ZONE_START_X: u16 = 2;

/// The row of every zone.
pub const ZONE_START_Y: u16 = 4;

/// The distance from one zone's column to the next: the width and a gap.
pub const ZONE_SPACING: u16 = 5;

/// The width and the height of a zone.
pub const ZONE_SIDE: u16 = 4;

/// The largest number of cards whose zones have columns that fit in 16 bits.
pub const MAX_ZONES: usize = 13107;

/// A rectangle of the room that stands for one card.
#[derive(Debug, Clone, Copy, PartialEq, Eq)]
pub struct Zone {
    pub value: u32,
    pub x: u16,
    pub y: u16,
    pub width: u16,
    pub height: u16,
}

/// The zone of the card `value` at place `i` of the row.
pub open spec fn zone_at(i: int, value: u32) -> Zone {
    Zone {
        value,
        x: (ZONE_START_X + i * ZONE_SPACING) as u16,
        y: ZONE_START_Y,
        width: ZONE_SIDE,
        height: ZONE_SIDE,
    }
}

/// The zones of a row of cards.
pub open spec fn zones_of(cards: Seq<u32>) -> Seq<Zone> {
    Seq::new(cards.len(), |i: int| zone_at(i, cards[i]))
}

/// Whether the position lies in the zone.
pub open spec fn zone_contains(zone: Zone, x: u16, y: u16) -> bool {
    &&& zone.x <= x < zone.x + zone.width
    &&& zone.y <= y < zone.y + zone.height
}

/// The card of the first zone that holds the position, if any does.
pub open spec fn card_at(zones: Seq<Zone>, x: u16, y: u16) -> Option<u32>
    decreases zones.len(),
{
    if zones.len() == 0 {
        None
    } else if zone_contains(zones[0], x, y) {
        Some(zones[0].value)
    } else {
        card_at(zones.drop_first(), x, y)
    }
}

/// Tells whether the configuration has no more cards than a row can hold.
pub fn fits_in_row(config: &VotingConfig) -> (fits: bool)
    ensures
        fits == (config@.cards.len() <= MAX_ZONES),
{
    config.cards.len() <= MAX_ZONES
}

/// The zones for the cards of the configuration, in the order of the
/// cards: squares of side four in one row, five columns apart.
pub fn calculate_zones(config: &VotingConfig) -> (zones: Vec<Zone>)
    requires
        config@.cards.len() <= MAX_ZONES,
    ensures
        zones@ == zones_of(config@.cards),
{
    let mut zones: Vec<Zone> = Vec::new();
    let mut i: usize = 0;
    while i < config.cards.len()
        invariant
            i <= config.cards.len(),
            config.cards.len() <= MAX_ZONES,
            zones@.len() == i,
            forall|j: int| 0 <= j < i ==> #[trigger] zones@[j] == zone_at(j, config.cards@[j]),
        decreases config.cards.len() - i,
    {
        let column: u16 = ZONE_START_X + (i as u16) * ZONE_SPACING;
        zones.push(
            Zone {
                value: config.cards[i],
                x: column,
                y: ZONE_START_Y,
                width: ZONE_SIDE,
                height: ZONE_SIDE,
            },
        );
        i += 1;
    }
    assert(zones@ =~= zones_of(config@.cards));
    zones
}

/// Tells whether the position lies in the zone.
pub fn in_zone(zone: &Zone, x: u16, y: u16) -> (inside: bool)
    ensures
        inside == zone_contains(*zone, x, y),
{
    zone.x <= x && (x as u32) < zone.x as u32 + zone.width as u32 && zone.y <= y && (y as u32)
        < zone.y as u32 + zone.height as u32
}

/// The card that a participant at the position votes for: that of the
/// first zone that holds the position, or none outside all zones.
pub fn vote_at(zones: &Vec<Zone>, x: u16, y: u16) -> (card: Option<u32>)
    ensures
        card == card_at(zones@, x, y),
{
    let mut i: usize = 0;
    assert(zones@.skip(0) =~= zones@);
    while i < zones.len()
        invariant
            i <= zones.len(),
            card_at(zones@, x, y) == card_at(zones@.skip(i as int), x, y),
        decreases zones.len() - i,
    {
        if in_zone(&zones[i], x, y) {
            assert(zones@.skip(i as int)[0] == zones@[i as int]);
            return Some(zones[i].value);
        }
        assert(zones@.skip(i as int)[0] == zones@[i as int]);
        assert(zones@.skip(i as int).drop_first() =~= zones@.skip(i + 1));
        i += 1;
    }
    assert(zones@.skip(i as int).len() == 0);
    None
}

/// The vote that a move to the position entails: for the card of the zone
/// entered, or the withdrawal of the vote outside all zones.
pub fn check_zone_vote(x: u16, y: u16, config: &VotingConfig) -> (command: ClientPayload)
    requires
        config@.cards.len() <= MAX_ZONES,
    ensures
        command@ == (CommandView::Vote { value: card_at(zones_of(config@.cards), x, y) }),
{
    let zones = calculate_zones(config);
    ClientPayload::Vote { value: vote_at(&zones, x, y) }
}

} // verus!
