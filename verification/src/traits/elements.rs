//! Element and key readers shared by the decoders: the bodies of sets, vectors and maps.
use vstd::prelude::*;

use crate::text::{decimal, decimal_string};
use crate::traits::read::{
    namespaced_name, namespaced_value, parse_bool, parse_f64_bits, parse_namespaced, parse_string,
    parse_u32, parse_u8, parse_vector, yields, DataReaders, DecodeSpec, ElementDecoder, KeyDecoder,
    KeySpec, Pos, Src,
};
use crate::value::{assoc_insert, float_view, Object, Value, ValueView};

verus! {

/// A namespaced object, as a value.
pub struct NamespacedElement;

impl DecodeSpec for NamespacedElement {
    open spec fn spec_decode(&self, src: Src, pos: Pos) -> (ValueView, Pos) {
        let (o, p) = parse_namespaced(src, pos);
        (namespaced_value(o), p)
    }
}

impl<R: DataReaders + ?Sized> ElementDecoder<R> for NamespacedElement {
    fn decode(&self, r: &mut R) -> (res: Option<Value>) {
        let o = r.read_namespaced_object()?;
        Some(o.into_value())
    }
}

/// A `u32`, as a number.
pub struct U32Element;

impl DecodeSpec for U32Element {
    open spec fn spec_decode(&self, src: Src, pos: Pos) -> (ValueView, Pos) {
        let (n, p) = parse_u32(src, pos);
        (ValueView::UInt(n as u64), p)
    }
}

impl<R: DataReaders + ?Sized> ElementDecoder<R> for U32Element {
    fn decode(&self, r: &mut R) -> (res: Option<Value>) {
        let n = r.read_uint32()?;
        Some(Value::from_u32(n))
    }
}

/// A `u8`, as a number.
pub struct U8Element;

impl DecodeSpec for U8Element {
    open spec fn spec_decode(&self, src: Src, pos: Pos) -> (ValueView, Pos) {
        let (n, p) = parse_u8(src, pos);
        (ValueView::UInt(n as u64), p)
    }
}

impl<R: DataReaders + ?Sized> ElementDecoder<R> for U8Element {
    fn decode(&self, r: &mut R) -> (res: Option<Value>) {
        let n = r.read_uint8()?;
        Some(Value::from_u8(n))
    }
}

/// A double, as a number (`null` where it is not finite).
pub struct F64Element;

impl DecodeSpec for F64Element {
    open spec fn spec_decode(&self, src: Src, pos: Pos) -> (ValueView, Pos) {
        let (bits, p) = parse_f64_bits(src, pos);
        (float_view(bits), p)
    }
}

impl<R: DataReaders + ?Sized> ElementDecoder<R> for F64Element {
    fn decode(&self, r: &mut R) -> (res: Option<Value>) {
        let bits = r.read_float64()?;
        Some(Value::from_float_bits(bits))
    }
}

/// A string, as a string.
pub struct StringElement;

impl DecodeSpec for StringElement {
    open spec fn spec_decode(&self, src: Src, pos: Pos) -> (ValueView, Pos) {
        let (s, p) = parse_string(src, pos);
        (ValueView::Str(s), p)
    }
}

impl<R: DataReaders + ?Sized> ElementDecoder<R> for StringElement {
    fn decode(&self, r: &mut R) -> (res: Option<Value>) {
        let s = r.read_string()?;
        Some(Value::Str(s))
    }
}

/// A boolean, as a boolean.
pub struct BoolElement;

impl DecodeSpec for BoolElement {
    open spec fn spec_decode(&self, src: Src, pos: Pos) -> (ValueView, Pos) {
        let (b, p) = parse_bool(src, pos);
        (ValueView::Bool(b), p)
    }
}

impl<R: DataReaders + ?Sized> ElementDecoder<R> for BoolElement {
    fn decode(&self, r: &mut R) -> (res: Option<Value>) {
        let b = r.read_bool()?;
        Some(Value::Bool(b))
    }
}

/// The key of a namespaced object: its text id, or else its numeric id in decimal.
pub struct NamespacedNameKey;

impl KeySpec for NamespacedNameKey {
    open spec fn spec_key(&self, src: Src, pos: Pos) -> (Seq<char>, Pos) {
        let (o, p) = parse_namespaced(src, pos);
        (namespaced_name(o), p)
    }
}

impl<R: DataReaders + ?Sized> KeyDecoder<R> for NamespacedNameKey {
    fn decode_key(&self, r: &mut R) -> (res: Option<String>) {
        let o = r.read_namespaced_object()?;
        Some(o.as_name())
    }
}

/// The key of a `u8`: the number in decimal.
pub struct U8DecimalKey;

impl KeySpec for U8DecimalKey {
    open spec fn spec_key(&self, src: Src, pos: Pos) -> (Seq<char>, Pos) {
        let (n, p) = parse_u8(src, pos);
        (decimal(n as nat), p)
    }
}

impl<R: DataReaders + ?Sized> KeyDecoder<R> for U8DecimalKey {
    fn decode_key(&self, r: &mut R) -> (res: Option<String>) {
        let n = r.read_uint8()?;
        Some(decimal_string(n as u32))
    }
}

} // verus!

verus! {

/// A flag, then, where it is set, a namespaced object stored under `key`.
pub open spec fn parse_optional_namespaced(
    m: Seq<(Seq<char>, ValueView)>,
    key: Seq<char>,
    src: Src,
    pos: Pos,
) -> (Seq<(Seq<char>, ValueView)>, Pos) {
    let (present, p) = parse_bool(src, pos);
    if present {
        let (o, p) = parse_namespaced(src, p);
        (assoc_insert(m, key, namespaced_value(o)), p)
    } else {
        (m, p)
    }
}

/// Reads a flag and, where it is set, a namespaced object, which goes into `map` under `key`.
pub fn decode_optional_namespaced<R: DataReaders + ?Sized>(r: &mut R, map: Object, key: &str) -> (res:
    Option<Object>)
    ensures
        yields(old(r)@, final(r)@, res, parse_optional_namespaced(map@, key@, old(r)@.src, Some(old(r)@.offset))),
{
    let mut map = map;
    if r.read_bool()? {
        map.put(key, r.read_namespaced_object()?.into_value());
    }
    Some(map)
}

/// A vector of namespaced objects, as an array.
pub struct NamespacedVectorElement;

impl DecodeSpec for NamespacedVectorElement {
    open spec fn spec_decode(&self, src: Src, pos: Pos) -> (ValueView, Pos) {
        let (items, p) = parse_vector(NamespacedElement, src, pos);
        (ValueView::Array(items), p)
    }
}

impl<R: DataReaders + ?Sized> ElementDecoder<R> for NamespacedVectorElement {
    fn decode(&self, r: &mut R) -> (res: Option<Value>) {
        Some(Value::from_values(r.read_vector(&NamespacedElement)?))
    }
}

/// `{item: namespaced object, quantity: u32}`.
pub struct ItemQuantityElement;

pub open spec fn parse_item_quantity(src: Src, pos: Pos) -> (ValueView, Pos) {
    let (item, p) = parse_namespaced(src, pos);
    let (quantity, p) = parse_u32(src, p);
    let m = assoc_insert(Seq::empty(), "item"@, namespaced_value(item));
    let m = assoc_insert(m, "quantity"@, ValueView::UInt(quantity as u64));
    (ValueView::Object(m), p)
}

impl DecodeSpec for ItemQuantityElement {
    open spec fn spec_decode(&self, src: Src, pos: Pos) -> (ValueView, Pos) {
        parse_item_quantity(src, pos)
    }
}

impl<R: DataReaders + ?Sized> ElementDecoder<R> for ItemQuantityElement {
    fn decode(&self, r: &mut R) -> (res: Option<Value>) {
        decode_item_quantity(r)
    }
}

pub fn decode_item_quantity<R: DataReaders + ?Sized>(r: &mut R) -> (res: Option<Value>)
    ensures
        yields(old(r)@, final(r)@, res, parse_item_quantity(old(r)@.src, Some(old(r)@.offset))),
{
    let mut map = Object::new();
    map.put("item", r.read_namespaced_object()?.into_value());
    map.put("quantity", Value::from_u32(r.read_uint32()?));
    Some(Value::from_object(map))
}

} // verus!
