use vstd::prelude::*;

use crate::traits::read::{parse_bool, parse_u32, yields, DataReaders, Pos, Src};
use crate::value::{assoc_insert, Object, Value, ValueView};

verus! {

/// A timer: `{ticksleft: u32, maxticks: u32, active: bool}`.
pub open spec fn parse_timer(src: Src, pos: Pos) -> (ValueView, Pos) {
    let (ticks_left, p) = parse_u32(src, pos);
    let (max_ticks, p) = parse_u32(src, p);
    let (active, p) = parse_bool(src, p);
    let m = assoc_insert(Seq::empty(), "ticksleft"@, ValueView::UInt(ticks_left as u64));
    let m = assoc_insert(m, "maxticks"@, ValueView::UInt(max_ticks as u64));
    let m = assoc_insert(m, "active"@, ValueView::Bool(active));
    (ValueView::Object(m), p)
}

pub trait TimerDecoder: DataReaders {
    fn decode_timer(&mut self) -> (res: Option<Value>)
        ensures
            yields(old(self)@, final(self)@, res, parse_timer(old(self)@.src, Some(old(self)@.offset))),
    {
        let mut map = Object::new();
        map.put("ticksleft", Value::from_u32(self.read_uint32()?));
        map.put("maxticks", Value::from_u32(self.read_uint32()?));
        map.put("active", Value::Bool(self.read_bool()?));
        Some(Value::from_object(map))
    }
}

} // verus!
