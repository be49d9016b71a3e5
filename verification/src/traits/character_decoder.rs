use vstd::prelude::*;

use crate::traits::read::{
    namespaced_value, parse_bool, parse_f64_bits, parse_namespaced, parse_skip, parse_string,
    parse_u32, parse_u8, parse_vector, yields, DataReaders, DecodeSpec, ElementDecoder, Pos, Src,
};
use crate::traits::timer_decoder::{parse_timer, TimerDecoder};
use crate::value::{assoc_insert, float_view, Object, Value, ValueView};

verus! {

/// The next action of a character: byte `1` is an attack.
pub open spec fn next_action_name(b: u8) -> Seq<char> {
    if b == 1 {
        "Attack"@
    } else {
        "Nothing"@
    }
}

/// The source of an active effect: `0` an attack, `1` an effect, anything else other.
pub open spec fn effect_source_name(b: u8) -> Seq<char> {
    if b == 0 {
        "Attack"@
    } else if b == 1 {
        "Effect"@
    } else {
        "Other"@
    }
}

/// `{name: string, value: u32}`.
pub struct NameValueElement;

impl DecodeSpec for NameValueElement {
    open spec fn spec_decode(&self, src: Src, pos: Pos) -> (ValueView, Pos) {
        let (name, p) = parse_string(src, pos);
        let (value, p) = parse_u32(src, p);
        let m = assoc_insert(Seq::empty(), "name"@, ValueView::Str(name));
        let m = assoc_insert(m, "value"@, ValueView::UInt(value as u64));
        (ValueView::Object(m), p)
    }
}

impl<R: DataReaders + ?Sized> ElementDecoder<R> for NameValueElement {
    fn decode(&self, r: &mut R) -> (res: Option<Value>) {
        let mut map = Object::new();
        map.put("name", Value::Str(r.read_string()?));
        map.put("value", Value::from_u32(r.read_uint32()?));
        Some(Value::from_object(map))
    }
}

/// `{name: string, timer: timer}`.
pub struct NamedTimerElement;

impl DecodeSpec for NamedTimerElement {
    open spec fn spec_decode(&self, src: Src, pos: Pos) -> (ValueView, Pos) {
        let (name, p) = parse_string(src, pos);
        let (timer, p) = parse_timer(src, p);
        let m = assoc_insert(Seq::empty(), "name"@, ValueView::Str(name));
        let m = assoc_insert(m, "timer"@, timer);
        (ValueView::Object(m), p)
    }
}

impl<R: TimerDecoder + ?Sized> ElementDecoder<R> for NamedTimerElement {
    fn decode(&self, r: &mut R) -> (res: Option<Value>) {
        let mut map = Object::new();
        map.put("name", Value::Str(r.read_string()?));
        map.put("timer", r.decode_timer()?);
        Some(Value::from_object(map))
    }
}

/// A name followed by `skip` bytes that are passed over; reads as `null`.
pub struct SkippedNamedEntry {
    pub skip: usize,
}

impl DecodeSpec for SkippedNamedEntry {
    open spec fn spec_decode(&self, src: Src, pos: Pos) -> (ValueView, Pos) {
        let (_name, p) = parse_string(src, pos);
        (ValueView::Null, parse_skip(p, self.skip as int))
    }
}

impl<R: DataReaders + ?Sized> ElementDecoder<R> for SkippedNamedEntry {
    fn decode(&self, r: &mut R) -> (res: Option<Value>) {
        r.read_string()?;
        r.skip(self.skip)?;
        Some(Value::Null)
    }
}

/// The key of an active effect: the text id of its namespaced object, or the empty
/// string where it has none.
pub open spec fn parse_effect_key(src: Src, pos: Pos) -> (Seq<char>, Pos) {
    let (o, p) = parse_namespaced(src, pos);
    (
        match o.1 {
            Some(t) => t,
            None => Seq::empty(),
        },
        p,
    )
}

/// An active effect whose key is unknown: 18 bytes, then four vectors of named entries,
/// all passed over; reads as `null`.
pub open spec fn parse_unknown_effect(src: Src, pos: Pos) -> (ValueView, Pos) {
    let p = parse_skip(pos, 18);
    let (_a, p) = parse_vector(SkippedNamedEntry { skip: 4 }, src, p);
    let (_b, p) = parse_vector(SkippedNamedEntry { skip: 4 }, src, p);
    let (_c, p) = parse_vector(SkippedNamedEntry { skip: 4 }, src, p);
    let (_d, p) = parse_vector(SkippedNamedEntry { skip: 9 }, src, p);
    (ValueView::Null, p)
}

/// A known active effect.
pub open spec fn parse_known_effect(src: Src, pos: Pos) -> (ValueView, Pos) {
    let (source_character, p) = parse_bool(src, pos);
    let (source, p) = parse_u8(src, p);
    let (damage_dealt, p) = parse_f64_bits(src, p);
    let (damage_taken, p) = parse_f64_bits(src, p);
    let (parameters, p) = parse_vector(NameValueElement, src, p);
    let (stat_groups, p) = parse_vector(NameValueElement, src, p);
    let (timers, p) = parse_vector(NamedTimerElement, src, p);
    let m = assoc_insert(Seq::empty(), "source_character"@, ValueView::Bool(source_character));
    let m = assoc_insert(m, "source"@, ValueView::Str(effect_source_name(source)));
    let m = assoc_insert(m, "damageDealt"@, float_view(damage_dealt));
    let m = assoc_insert(m, "damageTaken"@, float_view(damage_taken));
    let m = assoc_insert(m, "parameters"@, ValueView::Array(parameters));
    let m = assoc_insert(m, "stat_groups"@, ValueView::Array(stat_groups));
    let m = assoc_insert(m, "timers"@, ValueView::Array(timers));
    (ValueView::Object(m), p)
}

/// The value of an active effect depends on its key: the empty key marks an effect
/// whose data is passed over.
pub open spec fn parse_effect_value(key: Seq<char>, src: Src, pos: Pos) -> (ValueView, Pos) {
    if key.len() == 0 {
        parse_unknown_effect(src, pos)
    } else {
        parse_known_effect(src, pos)
    }
}

/// `n` active effects, keyed and inserted in order.
pub open spec fn parse_effect_entries(src: Src, pos: Pos, n: nat) -> (
    Seq<(Seq<char>, ValueView)>,
    Pos,
)
    decreases n,
{
    if n == 0 {
        (Seq::empty(), pos)
    } else {
        let (m, p) = parse_effect_entries(src, pos, (n - 1) as nat);
        match p {
            Some(_) => {
                let (key, p1) = parse_effect_key(src, p);
                match p1 {
                    Some(_) => {
                        let (v, p2) = parse_effect_value(key, src, p1);
                        (assoc_insert(m, key, v), p2)
                    },
                    None => (m, None),
                }
            },
            None => (m, None),
        }
    }
}

/// A `u32` count, then that many active effects.
pub open spec fn parse_active_effects(src: Src, pos: Pos) -> (Seq<(Seq<char>, ValueView)>, Pos) {
    let (n, p) = parse_u32(src, pos);
    match p {
        Some(_) => parse_effect_entries(src, p, n as nat),
        None => (Seq::empty(), None),
    }
}

/// A character of combat (the player's or an enemy's).
pub open spec fn parse_character(src: Src, pos: Pos) -> (ValueView, Pos) {
    let (hitpoints, p) = parse_u32(src, pos);
    let (next_action, p) = parse_u8(src, p);
    let (attack_count, p) = parse_u32(src, p);
    let (next_attack, p) = parse_namespaced(src, p);
    let (is_attacking, p) = parse_bool(src, p);
    let (first_hit, p) = parse_bool(src, p);
    let (timers_act, p) = parse_timer(src, p);
    let (timers_regen, p) = parse_timer(src, p);
    let (turns_taken, p) = parse_u32(src, p);
    let (buffered_regen, p) = parse_u32(src, p);
    let (active_effects, p) = parse_active_effects(src, p);
    let (first_miss, p) = parse_bool(src, p);
    let (barrier, p) = parse_u32(src, p);
    let m = assoc_insert(Seq::empty(), "combat_manager.hitpoints"@, ValueView::UInt(hitpoints as u64));
    let m = assoc_insert(m, "nextAction"@, ValueView::Str(next_action_name(next_action)));
    let m = assoc_insert(m, "attack_count"@, ValueView::UInt(attack_count as u64));
    let m = assoc_insert(m, "next_attack"@, namespaced_value(next_attack));
    let m = assoc_insert(m, "is_attacking"@, ValueView::Bool(is_attacking));
    let m = assoc_insert(m, "first_hit"@, ValueView::Bool(first_hit));
    let m = assoc_insert(m, "timers_act"@, timers_act);
    let m = assoc_insert(m, "timers_regen"@, timers_regen);
    let m = assoc_insert(m, "turns_taken"@, ValueView::UInt(turns_taken as u64));
    let m = assoc_insert(m, "buffered_regen"@, ValueView::UInt(buffered_regen as u64));
    let m = assoc_insert(m, "active_effects"@, ValueView::Object(active_effects));
    let m = assoc_insert(m, "first_miss"@, ValueView::Bool(first_miss));
    let m = assoc_insert(m, "barrier"@, ValueView::UInt(barrier as u64));
    (ValueView::Object(m), p)
}

/// Once the entries fail, more entries fail too.
proof fn lemma_effect_failure_stays(src: Src, pos: Pos, i: nat, n: nat)
    requires
        i <= n,
        parse_effect_entries(src, pos, i).1 is None,
    ensures
        parse_effect_entries(src, pos, n).1 is None,
    decreases n,
{
    if n > i {
        lemma_effect_failure_stays(src, pos, i, (n - 1) as nat);
    }
}

fn decode_effect_key<R: DataReaders + ?Sized>(r: &mut R) -> (res: Option<String>)
    ensures
        yields(old(r)@, final(r)@, res, parse_effect_key(old(r)@.src, Some(old(r)@.offset))),
{
    let o = r.read_namespaced_object()?;
    match o.text_id {
        Some(text_id) => Some(text_id),
        None => Some(String::new()),
    }
}

fn decode_unknown_effect<R: DataReaders + ?Sized>(r: &mut R) -> (res: Option<Value>)
    ensures
        yields(old(r)@, final(r)@, res, parse_unknown_effect(old(r)@.src, Some(old(r)@.offset))),
{
    r.skip(18)?;
    r.read_vector(&SkippedNamedEntry { skip: 4 })?;
    r.read_vector(&SkippedNamedEntry { skip: 4 })?;
    r.read_vector(&SkippedNamedEntry { skip: 4 })?;
    r.read_vector(&SkippedNamedEntry { skip: 9 })?;
    Some(Value::Null)
}

fn decode_known_effect<R: TimerDecoder + ?Sized>(r: &mut R) -> (res: Option<Value>)
    ensures
        yields(old(r)@, final(r)@, res, parse_known_effect(old(r)@.src, Some(old(r)@.offset))),
{
    let mut map = Object::new();
    map.put("source_character", Value::Bool(r.read_bool()?));
    let source = r.read_uint8()?;
    let source_name = if source == 0 {
        "Attack"
    } else if source == 1 {
        "Effect"
    } else {
        "Other"
    };
    map.put("source", Value::from_str(source_name));
    map.put("damageDealt", Value::from_float_bits(r.read_float64()?));
    map.put("damageTaken", Value::from_float_bits(r.read_float64()?));
    map.put("parameters", Value::from_values(r.read_vector(&NameValueElement)?));
    map.put("stat_groups", Value::from_values(r.read_vector(&NameValueElement)?));
    map.put("timers", Value::from_values(r.read_vector(&NamedTimerElement)?));
    Some(Value::from_object(map))
}

fn decode_active_effects<R: TimerDecoder + ?Sized>(r: &mut R) -> (res: Option<Object>)
    ensures
        yields(old(r)@, final(r)@, res, parse_active_effects(old(r)@.src, Some(old(r)@.offset))),
{
    let ghost src = r@.src;
    let map_size = r.read_uint32()?;
    let ghost start = Some(r@.offset);
    let mut map = Object::new();
    let mut i: u32 = 0;
    while i < map_size
        invariant
            r@.src == src,
            src == old(r)@.src,
            parse_active_effects(src, Some(old(r)@.offset)) == parse_effect_entries(src, start, map_size as nat),
            0 <= i <= map_size,
            parse_effect_entries(src, start, i as nat) == (map@, Some(r@.offset)),
        decreases map_size - i,
    {
        let key = match decode_effect_key(r) {
            Some(k) => k,
            None => {
                proof {
                    lemma_effect_failure_stays(src, start, (i + 1) as nat, map_size as nat);
                }
                return None;
            },
        };
        let value = if key.as_str().is_empty() {
            decode_unknown_effect(r)
        } else {
            decode_known_effect(r)
        };
        let value = match value {
            Some(v) => v,
            None => {
                proof {
                    lemma_effect_failure_stays(src, start, (i + 1) as nat, map_size as nat);
                }
                return None;
            },
        };
        map.insert(key, value);
        i = i + 1;
    }
    Some(map)
}

pub trait CharacterDecoder: DataReaders + TimerDecoder {
    #[verifier::spinoff_prover]
    #[verifier::rlimit(40)]
    fn decode_character(&mut self) -> (res: Option<Value>)
        ensures
            yields(old(self)@, final(self)@, res, parse_character(old(self)@.src, Some(old(self)@.offset))),
    {
        let mut map = Object::new();
        map.put("combat_manager.hitpoints", Value::from_u32(self.read_uint32()?));
        let next_action = if self.read_uint8()? == 1 {
            "Attack"
        } else {
            "Nothing"
        };
        map.put("nextAction", Value::from_str(next_action));
        map.put("attack_count", Value::from_u32(self.read_uint32()?));
        map.put("next_attack", self.read_namespaced_object()?.into_value());
        map.put("is_attacking", Value::Bool(self.read_bool()?));
        map.put("first_hit", Value::Bool(self.read_bool()?));
        map.put("timers_act", self.decode_timer()?);
        map.put("timers_regen", self.decode_timer()?);
        map.put("turns_taken", Value::from_u32(self.read_uint32()?));
        map.put("buffered_regen", Value::from_u32(self.read_uint32()?));
        map.put("active_effects", Value::from_object(decode_active_effects(self)?));
        map.put("first_miss", Value::Bool(self.read_bool()?));
        map.put("barrier", Value::from_u32(self.read_uint32()?));
        Some(Value::from_object(map))
    }
}

} // verus!
