use vstd::prelude::*;

use crate::traits::read::{
    parse_f64_bits, parse_string, parse_u8, parse_vector, yields, DataReaders, DecodeSpec,
    ElementDecoder, Pos, Src,
};
use crate::value::{assoc_insert, float_view, Object, Value, ValueView};

verus! {

/// A scheduled push notification.
pub struct NotificationElement;

impl DecodeSpec for NotificationElement {
    open spec fn spec_decode(&self, src: Src, pos: Pos) -> (ValueView, Pos) {
        let (id, p) = parse_string(src, pos);
        let (start_date, p) = parse_f64_bits(src, p);
        let (end_date, p) = parse_f64_bits(src, p);
        let (kind, p) = parse_u8(src, p);
        let (platform, p) = parse_string(src, p);
        let m = assoc_insert(Seq::empty(), "id"@, ValueView::Str(id));
        let m = assoc_insert(m, "startDate"@, float_view(start_date));
        let m = assoc_insert(m, "endDate"@, float_view(end_date));
        let m = assoc_insert(m, "notificationType"@, ValueView::UInt(kind as u64));
        let m = assoc_insert(m, "platform"@, ValueView::Str(platform));
        (ValueView::Object(m), p)
    }
}

impl<R: DataReaders + ?Sized> ElementDecoder<R> for NotificationElement {
    fn decode(&self, r: &mut R) -> (res: Option<Value>) {
        let mut map = Object::new();
        map.put("id", Value::Str(r.read_string()?));
        map.put("startDate", Value::from_float_bits(r.read_float64()?));
        map.put("endDate", Value::from_float_bits(r.read_float64()?));
        map.put("notificationType", Value::from_u8(r.read_uint8()?));
        map.put("platform", Value::Str(r.read_string()?));
        Some(Value::from_object(map))
    }
}

/// The native manager: its scheduled push notifications.
pub open spec fn parse_native_manager(src: Src, pos: Pos) -> (ValueView, Pos) {
    let (notifications, p) = parse_vector(NotificationElement, src, pos);
    (
        ValueView::Object(
            assoc_insert(Seq::empty(), "scheduled_push_notifications"@, ValueView::Array(notifications)),
        ),
        p,
    )
}

pub trait NativeManagerDecoder: DataReaders {
    fn decode_native_manager(&mut self) -> (res: Option<Value>)
        ensures
            yields(old(self)@, final(self)@, res, parse_native_manager(old(self)@.src, Some(old(self)@.offset))),
    {
        let mut map = Object::new();
        map.put(
            "scheduled_push_notifications",
            Value::from_values(self.read_vector(&NotificationElement)?),
        );
        Some(Value::from_object(map))
    }
}

} // verus!
