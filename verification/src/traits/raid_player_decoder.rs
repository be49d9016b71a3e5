use vstd::prelude::*;

use crate::traits::elements::{NamespacedNameKey, NamespacedVectorElement};
use crate::traits::player_decoder::{parse_player, PlayerDecoder};
use crate::traits::read::{parse_map, yields, Pos, Src};
use crate::value::{assoc_insert, Object, Value, ValueView};

verus! {

/// A raid player: a player, then its alternative attacks, a map from a namespaced name to
/// a vector of namespaced objects.
pub open spec fn parse_raid_player(src: Src, pos: Pos) -> (ValueView, Pos) {
    let (player, p) = parse_player(src, pos);
    let (alt_attacks, p) = parse_map(NamespacedNameKey, NamespacedVectorElement, src, p);
    let m = assoc_insert(Seq::empty(), "player"@, player);
    let m = assoc_insert(m, "alt_attacks"@, ValueView::Object(alt_attacks));
    (ValueView::Object(m), p)
}

pub trait RaidPlayerDecoder: PlayerDecoder {
    fn decode_raid_player(&mut self) -> (res: Option<Value>)
        ensures
            yields(old(self)@, final(self)@, res, parse_raid_player(old(self)@.src, Some(old(self)@.offset))),
    {
        let mut map = Object::new();
        map.put("player", self.decode_player()?);
        map.put(
            "alt_attacks",
            Value::from_object(self.read_value_map_key(&NamespacedNameKey, &NamespacedVectorElement)?),
        );
        Some(Value::from_object(map))
    }
}

} // verus!
