use vstd::prelude::*;

use crate::save_reader::NamespacedObject;
use crate::traits::elements::{
    parse_item_quantity, NamespacedElement, NamespacedNameKey, U8DecimalKey,
    U8Element,
};
use crate::traits::read::{
    namespaced_value, parse_map, parse_vector, yields, DataReaders, DecodeSpec, ElementDecoder,
    NamespacedView, Pos, Src,
};
use crate::value::{assoc_insert, Object, Value, ValueView};

verus! {

/// The model of an item with a quantity: `{item, quantity}`.
pub open spec fn item_quantity_value(item: NamespacedView, quantity: u32) -> ValueView {
    let m = assoc_insert(Seq::empty(), "item"@, namespaced_value(item));
    ValueView::Object(assoc_insert(m, "quantity"@, ValueView::UInt(quantity as u64)))
}

/// A stack of items in a bank tab.
struct BankItem {
    item: NamespacedObject,
    quantity: u32,
}

impl BankItem {
    fn into_value(self) -> (v: Value)
        ensures
            v@ == item_quantity_value(self.item@, self.quantity),
    {
        let mut map = Object::new();
        map.put("item", self.item.into_value());
        map.put("quantity", Value::from_u32(self.quantity));
        Value::from_object(map)
    }
}

/// A bank tab: a vector of item stacks.
pub struct BankTabElement;

impl DecodeSpec for BankTabElement {
    open spec fn spec_decode(&self, src: Src, pos: Pos) -> (ValueView, Pos) {
        let (items, p) = parse_vector(BankItemElement, src, pos);
        (ValueView::Array(items), p)
    }
}

impl<R: DataReaders + ?Sized> ElementDecoder<R> for BankTabElement {
    fn decode(&self, r: &mut R) -> (res: Option<Value>) {
        Some(Value::from_values(r.read_vector(&BankItemElement)?))
    }
}

/// An item stack of a bank tab.
pub struct BankItemElement;

impl DecodeSpec for BankItemElement {
    open spec fn spec_decode(&self, src: Src, pos: Pos) -> (ValueView, Pos) {
        parse_item_quantity(src, pos)
    }
}

impl<R: DataReaders + ?Sized> ElementDecoder<R> for BankItemElement {
    fn decode(&self, r: &mut R) -> (res: Option<Value>) {
        let item = r.read_namespaced_object()?;
        let quantity = r.read_uint32()?;
        Some(BankItem { item, quantity }.into_value())
    }
}

/// A bank: its locked items, item stacks by tab, default tabs of items, custom sort order,
/// glowing items and tab icons.
#[verifier::opaque]
pub open spec fn parse_bank(src: Src, pos: Pos) -> (ValueView, Pos) {
    let (locked_items, p) = parse_vector(NamespacedElement, src, pos);
    let (items_by_tab, p) = parse_vector(BankTabElement, src, p);
    let (default_tabs, p) = parse_map(NamespacedNameKey, U8Element, src, p);
    let (sort_order, p) = parse_vector(NamespacedElement, src, p);
    let (glowing_items, p) = parse_vector(NamespacedElement, src, p);
    let (tab_icons, p) = parse_map(U8DecimalKey, NamespacedElement, src, p);
    let m = assoc_insert(Seq::empty(), "locked_items"@, ValueView::Array(locked_items));
    let m = assoc_insert(m, "items_by_bank_tab"@, ValueView::Array(items_by_tab));
    let m = assoc_insert(m, "default_item_tabs"@, ValueView::Object(default_tabs));
    let m = assoc_insert(m, "custom_sort_order"@, ValueView::Array(sort_order));
    let m = assoc_insert(m, "glowing_items"@, ValueView::Array(glowing_items));
    let m = assoc_insert(m, "tab_icons"@, ValueView::Object(tab_icons));
    (ValueView::Object(m), p)
}

pub trait BankDecoder: DataReaders {
    fn decode_bank(&mut self) -> (res: Option<Value>)
        ensures
            yields(old(self)@, final(self)@, res, parse_bank(old(self)@.src, Some(old(self)@.offset))),
    {
        reveal(parse_bank);
        let mut map = Object::new();
        map.put("locked_items", Value::from_values(self.read_set(&NamespacedElement)?));
        map.put("items_by_bank_tab", Value::from_values(self.read_vector(&BankTabElement)?));
        map.put(
            "default_item_tabs",
            Value::from_object(self.read_value_map_key(&NamespacedNameKey, &U8Element)?),
        );
        map.put("custom_sort_order", Value::from_values(self.read_vector(&NamespacedElement)?));
        map.put("glowing_items", Value::from_values(self.read_set(&NamespacedElement)?));
        map.put(
            "tab_icons",
            Value::from_object(self.read_value_map_key(&U8DecimalKey, &NamespacedElement)?),
        );
        Some(Value::from_object(map))
    }
}


/// Once a read has failed, this one fails too.
pub broadcast proof fn lemma_bank_failure_stays(src: Src)
    ensures
        (#[trigger] parse_bank(src, None)).1 is None,
{
    reveal(parse_bank);
}

} // verus!
