use vstd::prelude::*;

use crate::traits::elements::{NamespacedNameKey, U32Element};
use crate::traits::read::{parse_f64_bits, parse_map, yields, DataReaders, Pos, Src};
use crate::value::{assoc_insert, float_view, Object, Value, ValueView};

verus! {

/// The shop: the purchase count of each upgrade, and the buy quantity.
pub open spec fn parse_shop(src: Src, pos: Pos) -> (ValueView, Pos) {
    let (upgrades, p) = parse_map(NamespacedNameKey, U32Element, src, pos);
    let (buy_quantity, p) = parse_f64_bits(src, p);
    let m = assoc_insert(Seq::empty(), "upgrades_purchased"@, ValueView::Object(upgrades));
    let m = assoc_insert(m, "buy_quantity"@, float_view(buy_quantity));
    (ValueView::Object(m), p)
}

pub trait ShopDecoder: DataReaders {
    fn decode_shop(&mut self) -> (res: Option<Value>)
        ensures
            yields(old(self)@, final(self)@, res, parse_shop(old(self)@.src, Some(old(self)@.offset))),
    {
        let mut map = Object::new();
        map.put(
            "upgrades_purchased",
            Value::from_object(self.read_value_map_key(&NamespacedNameKey, &U32Element)?),
        );
        map.put("buy_quantity", Value::from_float_bits(self.read_float64()?));
        Some(Value::from_object(map))
    }
}

} // verus!
