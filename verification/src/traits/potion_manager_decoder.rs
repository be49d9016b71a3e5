use vstd::prelude::*;

use crate::traits::elements::{NamespacedElement, NamespacedNameKey};
use crate::traits::read::{
    namespaced_value, parse_map, parse_namespaced, parse_u32, parse_vector, yields, DataReaders,
    DecodeSpec, ElementDecoder, Pos, Src,
};
use crate::value::{assoc_insert, Object, Value, ValueView};

verus! {

/// An active potion: `{potion, charges}`.
pub struct ActivePotionElement;

impl DecodeSpec for ActivePotionElement {
    open spec fn spec_decode(&self, src: Src, pos: Pos) -> (ValueView, Pos) {
        let (potion, p) = parse_namespaced(src, pos);
        let (charges, p) = parse_u32(src, p);
        let m = assoc_insert(Seq::empty(), "potion"@, namespaced_value(potion));
        let m = assoc_insert(m, "charges"@, ValueView::UInt(charges as u64));
        (ValueView::Object(m), p)
    }
}

impl<R: DataReaders + ?Sized> ElementDecoder<R> for ActivePotionElement {
    fn decode(&self, r: &mut R) -> (res: Option<Value>) {
        let mut map = Object::new();
        map.put("potion", r.read_namespaced_object()?.into_value());
        map.put("charges", Value::from_u32(r.read_uint32()?));
        Some(Value::from_object(map))
    }
}

/// The potion manager: the active potion of each action, and the actions whose potions are
/// reused automatically.
pub open spec fn parse_potion_manager(src: Src, pos: Pos) -> (ValueView, Pos) {
    let (active, p) = parse_map(NamespacedNameKey, ActivePotionElement, src, pos);
    let (auto_reuse, p) = parse_vector(NamespacedElement, src, p);
    let m = assoc_insert(Seq::empty(), "active_potions"@, ValueView::Object(active));
    let m = assoc_insert(m, "auto_reuse_actions"@, ValueView::Array(auto_reuse));
    (ValueView::Object(m), p)
}

pub trait PotionManagerDecoder: DataReaders {
    fn decode_potion_manager(&mut self) -> (res: Option<Value>)
        ensures
            yields(old(self)@, final(self)@, res, parse_potion_manager(old(self)@.src, Some(old(self)@.offset))),
    {
        let mut map = Object::new();
        map.put(
            "active_potions",
            Value::from_object(self.read_value_map_key(&NamespacedNameKey, &ActivePotionElement)?),
        );
        map.put("auto_reuse_actions", Value::from_values(self.read_set(&NamespacedElement)?));
        Some(Value::from_object(map))
    }
}

} // verus!
