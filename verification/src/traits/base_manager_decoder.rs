use vstd::prelude::*;

use crate::traits::read::{
    namespaced_value, parse_bool, parse_namespaced, parse_vector, yields, DataReaders, DecodeSpec,
    ElementDecoder, Pos, Src,
};
use crate::traits::timer_decoder::{parse_timer, TimerDecoder};
use crate::value::{assoc_insert, Object, Value, ValueView};

verus! {

/// A combat passive: `{passive, display}`.
pub struct PassiveElement;

impl DecodeSpec for PassiveElement {
    open spec fn spec_decode(&self, src: Src, pos: Pos) -> (ValueView, Pos) {
        let (passive, p) = parse_namespaced(src, pos);
        let (display, p) = parse_bool(src, p);
        let m = assoc_insert(Seq::empty(), "passive"@, namespaced_value(passive));
        let m = assoc_insert(m, "display"@, ValueView::Bool(display));
        (ValueView::Object(m), p)
    }
}

impl<R: DataReaders + ?Sized> ElementDecoder<R> for PassiveElement {
    fn decode(&self, r: &mut R) -> (res: Option<Value>) {
        let mut map = Object::new();
        map.put("passive", r.read_namespaced_object()?.into_value());
        map.put("display", Value::Bool(r.read_bool()?));
        Some(Value::from_object(map))
    }
}

/// A combat manager's base, given its player and enemy, which come first in the data:
/// then whether a fight is in progress, the spawn timer, whether it is active, and its
/// passives.
#[verifier::opaque]
pub open spec fn parse_base_manager(player: ValueView, enemy: ValueView, src: Src, pos: Pos) -> (
    ValueView,
    Pos,
) {
    let (fight_in_progress, p) = parse_bool(src, pos);
    let (spawn_timer, p) = parse_timer(src, p);
    let (is_active, p) = parse_bool(src, p);
    let (passives, p) = parse_vector(PassiveElement, src, p);
    let m = assoc_insert(Seq::empty(), "player"@, player);
    let m = assoc_insert(m, "enemy"@, enemy);
    let m = assoc_insert(m, "fight_in_progress"@, ValueView::Bool(fight_in_progress));
    let m = assoc_insert(m, "spawn_timer"@, spawn_timer);
    let m = assoc_insert(m, "is_active"@, ValueView::Bool(is_active));
    let m = assoc_insert(m, "passives"@, ValueView::Array(passives));
    (ValueView::Object(m), p)
}

pub trait BaseManagerDecoder: DataReaders + TimerDecoder {
    /// Decodes the rest of a base manager, after the caller has decoded its player and enemy.
    fn decode_base_manager(&mut self, player: Value, enemy: Value) -> (res: Option<Value>)
        ensures
            yields(old(self)@, final(self)@, res, parse_base_manager(player@, enemy@, old(self)@.src, Some(old(self)@.offset))),
    {
        reveal(parse_base_manager);
        let mut map = Object::new();
        map.put("player", player);
        map.put("enemy", enemy);
        map.put("fight_in_progress", Value::Bool(self.read_bool()?));
        map.put("spawn_timer", self.decode_timer()?);
        map.put("is_active", Value::Bool(self.read_bool()?));
        map.put("passives", Value::from_values(self.read_vector(&PassiveElement)?));
        Some(Value::from_object(map))
    }
}


/// Once a read has failed, this one fails too.
pub broadcast proof fn lemma_base_manager_failure_stays(player: ValueView, enemy: ValueView, src: Src)
    ensures
        (#[trigger] parse_base_manager(player, enemy, src, None)).1 is None,
{
    reveal(parse_base_manager);
}

} // verus!
