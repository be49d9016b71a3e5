use vstd::prelude::*;

use crate::traits::elements::NamespacedElement;
use crate::traits::read::{parse_vector, yields, DataReaders, Pos, Src};
use crate::value::{assoc_insert, Object, Value, ValueView};

verus! {

/// The pet manager: the set of unlocked pets.
pub open spec fn parse_pet_manager(src: Src, pos: Pos) -> (ValueView, Pos) {
    let (unlocked, p) = parse_vector(NamespacedElement, src, pos);
    (ValueView::Object(assoc_insert(Seq::empty(), "unlocked"@, ValueView::Array(unlocked))), p)
}

pub trait PetManagerDecoder: DataReaders {
    fn decode_pet_manager(&mut self) -> (res: Option<Value>)
        ensures
            yields(old(self)@, final(self)@, res, parse_pet_manager(old(self)@.src, Some(old(self)@.offset))),
    {
        let mut map = Object::new();
        map.put("unlocked", Value::from_values(self.read_set(&NamespacedElement)?));
        Some(Value::from_object(map))
    }
}

} // verus!
