use vstd::prelude::*;

use crate::traits::elements::{NamespacedNameKey, U32Element};
use crate::traits::read::{parse_map, yields, DataReaders, Pos, Src};
use crate::value::{assoc_insert, Object, Value, ValueView};

verus! {

/// The charges of items: a map from an item's name to a `u32`.
pub open spec fn parse_item_charges(src: Src, pos: Pos) -> (ValueView, Pos) {
    let (charges, p) = parse_map(NamespacedNameKey, U32Element, src, pos);
    (ValueView::Object(assoc_insert(Seq::empty(), "charges"@, ValueView::Object(charges))), p)
}

pub trait ItemChargesDecoder: DataReaders {
    fn decode_item_charges(&mut self) -> (res: Option<Value>)
        ensures
            yields(old(self)@, final(self)@, res, parse_item_charges(old(self)@.src, Some(old(self)@.offset))),
    {
        let mut map = Object::new();
        map.put(
            "charges",
            Value::from_object(self.read_value_map_key(&NamespacedNameKey, &U32Element)?),
        );
        Some(Value::from_object(map))
    }
}

} // verus!
