use std::collections::HashMap;

use rusty_melvor::save_reader::{read_timer, BinaryReader, NamespacedObject};
use rusty_melvor::text::decimal_string;
use rusty_melvor::traits::read::{Buffer, BufferReader, ByteOffset, DataReaders, HasNumericToStringIdMap};
use rusty_melvor::value::{Object, Value};

fn reader(data: Vec<u8>) -> BinaryReader {
    BinaryReader::new(data)
}

fn named_reader(data: Vec<u8>, names: &[(u16, &str)]) -> BinaryReader {
    let mut ids = HashMap::new();
    for (id, name) in names {
        ids.insert(*id, name.to_string());
    }
    BinaryReader { data, byte_offset: 0, numeric_to_string_id_map: ids }
}

fn obj(pairs: Vec<(&str, Value)>) -> Value {
    let mut o = Object::new();
    for (k, v) in pairs {
        o.put(k, v);
    }
    Value::Object(o)
}

fn s(text: &str) -> Value {
    Value::Str(text.to_string())
}

fn string_field(text: &str) -> Vec<u8> {
    let mut out = (text.len() as u32).to_be_bytes().to_vec();
    out.extend_from_slice(text.as_bytes());
    out
}

#[test]
fn reads_big_endian_integers() {
    let mut r = reader(vec![0xab, 0x12, 0x34, 0xde, 0xad, 0xbe, 0xef, 0x01]);
    assert_eq!(r.read_uint8(), Some(0xab));
    assert_eq!(r.read_uint16(), Some(0x1234));
    assert_eq!(r.read_uint32(), Some(0xdeadbeef));
    assert_eq!(r.get_byte_offset(), 7);
    assert_eq!(r.read_uint16(), None);
}

#[test]
fn reads_float_bit_patterns() {
    let mut data = 1.5f64.to_be_bytes().to_vec();
    data.extend_from_slice(&(-2.25f64).to_be_bytes());
    let mut r = reader(data);
    assert_eq!(r.read_float64().map(f64::from_bits), Some(1.5));
    assert_eq!(r.read_float64().map(f64::from_bits), Some(-2.25));
    assert_eq!(r.read_float64(), None);
}

#[test]
fn only_byte_one_is_true() {
    let mut r = reader(vec![1, 0, 2, 255]);
    assert_eq!(r.read_bool(), Some(true));
    assert_eq!(r.read_bool(), Some(false));
    assert_eq!(r.read_bool(), Some(false));
    assert_eq!(r.read_bool(), Some(false));
    assert_eq!(r.read_bool(), None);
}

#[test]
fn reads_strings_and_buffers() {
    let mut data = string_field("héllo");
    data.extend_from_slice(&[0, 0, 0, 2, 0xff, 0xfe]);
    data.extend_from_slice(&[0, 0, 0, 3, 7, 8, 9]);
    let mut r = reader(data);
    assert_eq!(r.read_string(), Some("héllo".to_string()));
    // Invalid UTF-8 reads as the empty string, and the bytes are still consumed.
    assert_eq!(r.read_string(), Some(String::new()));
    assert_eq!(r.read_buffer(), Some(vec![7, 8, 9]));
    assert_eq!(r.read_buffer(), None);
}

#[test]
fn truncated_string_fails() {
    let mut r = reader(vec![0, 0, 0, 5, b'a', b'b']);
    assert_eq!(r.read_string(), None);
}

#[test]
fn buffer_reads_move_the_offset() {
    let mut r = reader(vec![1, 2, 3, 4, 5]);
    assert_eq!(r.buffer_len(), 5);
    assert_eq!(r.get_slice(1, 3), vec![2, 3]);
    assert_eq!(r.get_byte_offset(), 0);
    assert_eq!(r.read_buffer_by_size(2), Some(vec![1, 2]));
    assert_eq!(r.read_buffer_by_size(4), None);
    r.increment_byte_offset(1);
    assert_eq!(r.read_buffer_by_size(2), Some(vec![4, 5]));
    assert_eq!(r.read_buffer_by_size(0), Some(vec![]));
}

#[test]
fn skip_may_pass_the_end() {
    let mut r = reader(vec![1, 2, 3]);
    assert_eq!(r.skip(10), Some(()));
    assert_eq!(r.get_byte_offset(), 10);
    assert_eq!(r.read_uint8(), None);
    assert_eq!(r.read_buffer_by_size(0), None);
    let mut r = reader(vec![]);
    r.increment_byte_offset(usize::MAX - 1);
    assert_eq!(r.skip(2), None);
}

#[test]
fn namespaced_objects_are_named_through_the_id_table() {
    let mut r = named_reader(vec![0, 7, 1, 0], &[(7, "melvorD:Bronze_Bar")]);
    assert_eq!(r.map_numeric_to_string_id(&7), Some("melvorD:Bronze_Bar".to_string()));
    assert_eq!(r.map_numeric_to_string_id(&8), None);
    let named = r.read_namespaced_object().unwrap();
    assert_eq!(named.id, 7);
    assert_eq!(named.text_id, Some("melvorD:Bronze_Bar".to_string()));
    let unnamed = r.read_namespaced_object().unwrap();
    assert_eq!(unnamed.id, 256);
    assert_eq!(unnamed.text_id, None);
    assert_eq!(unnamed.as_name(), "256".to_string());
}

#[test]
fn namespaced_object_values() {
    let named = NamespacedObject { id: 3, text_id: Some("a:b".to_string()) };
    assert_eq!(named.into_value(), obj(vec![("id", Value::UInt(3)), ("text_id", s("a:b"))]));
    let unnamed = NamespacedObject { id: 4, text_id: None };
    assert_eq!(unnamed.into_value(), obj(vec![("id", Value::UInt(4))]));
    let named = NamespacedObject { id: 3, text_id: Some("a:b".to_string()) };
    assert_eq!(named.as_name(), "a:b".to_string());
}

#[test]
fn decimal_strings() {
    assert_eq!(decimal_string(0), "0");
    assert_eq!(decimal_string(7), "7");
    assert_eq!(decimal_string(10), "10");
    assert_eq!(decimal_string(65535), "65535");
    assert_eq!(decimal_string(u32::MAX), "4294967295");
}

#[test]
fn object_insert_replaces_an_equal_key() {
    let mut o = Object::new();
    o.put("a", Value::UInt(1));
    o.put("b", Value::UInt(2));
    o.put("a", Value::UInt(3));
    assert_eq!(o.entries.len(), 2);
    assert_eq!(o.entries[0], ("a".to_string(), Value::UInt(3)));
    assert_eq!(o.entries[1], ("b".to_string(), Value::UInt(2)));
    o.insert("c".to_string(), Value::Null);
    assert_eq!(o.entries.len(), 3);
}

#[test]
fn non_finite_floats_are_null() {
    assert_eq!(Value::from_float_bits(f64::NAN.to_bits()), Value::Null);
    assert_eq!(Value::from_float_bits(f64::INFINITY.to_bits()), Value::Null);
    assert_eq!(Value::from_float_bits(f64::NEG_INFINITY.to_bits()), Value::Null);
    assert_eq!(Value::from_float_bits(2.5f64.to_bits()), Value::Float(2.5f64.to_bits()));
    assert_eq!(Value::from_float_bits(0), Value::Float(0));
}

#[test]
fn read_timer_reads_three_fields() {
    let mut r = reader(vec![0, 0, 0, 5, 0, 0, 1, 0, 1]);
    assert_eq!(
        read_timer(&mut r),
        Some(obj(vec![("ticksleft", Value::UInt(5)), ("maxticks", Value::UInt(256)), ("active", Value::Bool(true))]))
    );
    assert_eq!(r.get_byte_offset(), 9);
    let mut short = reader(vec![0, 0, 0, 5, 0, 0, 1, 0]);
    assert_eq!(read_timer(&mut short), None);
}
