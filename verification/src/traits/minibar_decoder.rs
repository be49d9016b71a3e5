use vstd::prelude::*;

use crate::traits::elements::{NamespacedNameKey, NamespacedVectorElement};
use crate::traits::read::{parse_map, yields, DataReaders, Pos, Src};
use crate::value::{assoc_insert, Object, Value, ValueView};

verus! {

/// The minibar: a map from a skill's name to its custom items.
pub open spec fn parse_minibar(src: Src, pos: Pos) -> (ValueView, Pos) {
    let (items, p) = parse_map(NamespacedNameKey, NamespacedVectorElement, src, pos);
    (ValueView::Object(assoc_insert(Seq::empty(), "custom_items"@, ValueView::Object(items))), p)
}

pub trait MinibarDecoder: DataReaders {
    fn decode_minibar(&mut self) -> (res: Option<Value>)
        ensures
            yields(old(self)@, final(self)@, res, parse_minibar(old(self)@.src, Some(old(self)@.offset))),
    {
        let mut map = Object::new();
        map.put(
            "custom_items",
            Value::from_object(self.read_value_map_key(&NamespacedNameKey, &NamespacedVectorElement)?),
        );
        Some(Value::from_object(map))
    }
}

} // verus!
