use vstd::prelude::*;

use crate::traits::elements::{NamespacedNameKey, U8Element};
use crate::traits::read::{
    namespaced_name, namespaced_value, parse_bool, parse_f64_bits, parse_map, parse_namespaced,
    parse_skip, parse_u16, parse_u32, parse_u8, parse_vector, yields, DataReaders, DecodeSpec,
    ElementDecoder, Pos, Src,
};
use crate::value::{assoc_insert, float_view, Object, Value, ValueView};

verus! {

/// A realm of a skill: `{found_relics: {name: u8}}`.
pub struct RealmElement;

impl DecodeSpec for RealmElement {
    open spec fn spec_decode(&self, src: Src, pos: Pos) -> (ValueView, Pos) {
        let (relics, p) = parse_map(NamespacedNameKey, U8Element, src, pos);
        (ValueView::Object(assoc_insert(Seq::empty(), "found_relics"@, ValueView::Object(relics))), p)
    }
}

impl<R: DataReaders + ?Sized> ElementDecoder<R> for RealmElement {
    fn decode(&self, r: &mut R) -> (res: Option<Value>) {
        let mut map = Object::new();
        map.put("found_relics", Value::from_object(r.read_value_map_key(&NamespacedNameKey, &U8Element)?));
        Some(Value::from_object(map))
    }
}

/// A node of a skill tree: `{node, unlocked}`.
pub struct SkillTreeNodeElement;

impl DecodeSpec for SkillTreeNodeElement {
    open spec fn spec_decode(&self, src: Src, pos: Pos) -> (ValueView, Pos) {
        let (node, p) = parse_namespaced(src, pos);
        let (unlocked, p) = parse_bool(src, p);
        let m = assoc_insert(Seq::empty(), "node"@, namespaced_value(node));
        let m = assoc_insert(m, "unlocked"@, ValueView::Bool(unlocked));
        (ValueView::Object(m), p)
    }
}

impl<R: DataReaders + ?Sized> ElementDecoder<R> for SkillTreeNodeElement {
    fn decode(&self, r: &mut R) -> (res: Option<Value>) {
        let mut map = Object::new();
        map.put("node", r.read_namespaced_object()?.into_value());
        map.put("unlocked", Value::Bool(r.read_bool()?));
        Some(Value::from_object(map))
    }
}

/// A skill tree: `{skill_tree_name, skill_tree: {nodes, points}}`.
pub struct SkillTreeElement;

impl DecodeSpec for SkillTreeElement {
    open spec fn spec_decode(&self, src: Src, pos: Pos) -> (ValueView, Pos) {
        let (name, p) = parse_namespaced(src, pos);
        let (nodes, p) = parse_vector(SkillTreeNodeElement, src, p);
        let (points, p) = parse_u8(src, p);
        let tree = assoc_insert(Seq::empty(), "nodes"@, ValueView::Array(nodes));
        let tree = assoc_insert(tree, "points"@, ValueView::UInt(points as u64));
        let m = assoc_insert(Seq::empty(), "skill_tree_name"@, namespaced_value(name));
        let m = assoc_insert(m, "skill_tree"@, ValueView::Object(tree));
        (ValueView::Object(m), p)
    }
}

impl<R: DataReaders + ?Sized> ElementDecoder<R> for SkillTreeElement {
    fn decode(&self, r: &mut R) -> (res: Option<Value>) {
        let mut map = Object::new();
        map.put("skill_tree_name", r.read_namespaced_object()?.into_value());
        let mut tree = Object::new();
        tree.put("nodes", Value::from_values(r.read_vector(&SkillTreeNodeElement)?));
        tree.put("points", Value::from_u8(r.read_uint8()?));
        map.put("skill_tree", Value::from_object(tree));
        Some(Value::from_object(map))
    }
}

/// A skill: its experience, whether it is unlocked, its realms, level caps, skill trees,
/// abyssal experience and realm.
pub open spec fn parse_skill(src: Src, pos: Pos) -> (ValueView, Pos) {
    let (xp, p) = parse_f64_bits(src, pos);
    let (unlocked, p) = parse_bool(src, p);
    let (realms, p) = parse_map(NamespacedNameKey, RealmElement, src, p);
    let (level_cap, p) = parse_u16(src, p);
    let (abyssal_level_cap, p) = parse_u16(src, p);
    let (trees, p) = parse_vector(SkillTreeElement, src, p);
    let (abyssal_xp, p) = parse_f64_bits(src, p);
    let (realm, p) = parse_namespaced(src, p);
    let m = assoc_insert(Seq::empty(), "xp"@, float_view(xp));
    let m = assoc_insert(m, "unlocked"@, ValueView::Bool(unlocked));
    let m = assoc_insert(m, "realms"@, ValueView::Object(realms));
    let m = assoc_insert(m, "current_level_cap"@, ValueView::UInt(level_cap as u64));
    let m = assoc_insert(m, "current_abyssal_level_cap"@, ValueView::UInt(abyssal_level_cap as u64));
    let m = assoc_insert(m, "skill_trees"@, ValueView::Array(trees));
    let m = assoc_insert(m, "abyssal_xp"@, float_view(abyssal_xp));
    let m = assoc_insert(m, "realm"@, namespaced_value(realm));
    (ValueView::Object(m), p)
}

/// The skills of a save, `k` of them still to read into `m`: each is a namespaced skill
/// and a `u32` data size; Attack is decoded, and the first other skill has its data passed
/// over and ends the list.
pub open spec fn parse_skill_list(m: Seq<(Seq<char>, ValueView)>, src: Src, pos: Pos, k: nat) -> (
    Seq<(Seq<char>, ValueView)>,
    Pos,
)
    decreases k,
{
    if k == 0 {
        (m, pos)
    } else {
        let (skill, p) = parse_namespaced(src, pos);
        let (size, p) = parse_u32(src, p);
        match p {
            Some(_) => if namespaced_name(skill) == "melvorD:Attack"@ {
                let (v, p) = parse_skill(src, p);
                match p {
                    Some(_) => parse_skill_list(assoc_insert(m, "attack"@, v), src, p, (k - 1) as nat),
                    None => (m, None),
                }
            } else {
                (m, parse_skip(p, size as int))
            },
            None => (m, None),
        }
    }
}

/// A `u32` count of skills, then the skills.
pub open spec fn parse_skills(src: Src, pos: Pos) -> (ValueView, Pos) {
    let (n, p) = parse_u32(src, pos);
    let (m, p) = match p {
        Some(_) => parse_skill_list(Seq::empty(), src, p, n as nat),
        None => (Seq::empty(), None),
    };
    (ValueView::Object(m), p)
}

pub trait SkillDecoder: DataReaders {
    fn decode_skills(&mut self) -> (res: Option<Value>)
        ensures
            yields(old(self)@, final(self)@, res, parse_skills(old(self)@.src, Some(old(self)@.offset))),
    {
        let ghost src = self@.src;
        let number_of_skills = self.read_uint32()?;
        let ghost start = Some(self@.offset);
        let mut map = Object::new();
        let mut i: u32 = 0;
        while i < number_of_skills
            invariant
                self@.src == src,
                src == old(self)@.src,
                parse_skills(src, Some(old(self)@.offset)) == ({
                    let (m, p) = parse_skill_list(Seq::empty(), src, start, number_of_skills as nat);
                    (ValueView::Object(m), p)
                }),
                0 <= i <= number_of_skills,
                parse_skill_list(Seq::empty(), src, start, number_of_skills as nat)
                    == parse_skill_list(map@, src, Some(self@.offset), (number_of_skills - i) as nat),
            decreases number_of_skills - i,
        {
            let skill = self.read_namespaced_object()?;
            let skill_str = skill.as_name();
            let skill_data_size = self.read_uint32()?;
            if skill_str == String::from_str("melvorD:Attack") {
                map.put("attack", self.decode_skill()?);
            } else {
                self.skip(skill_data_size as usize)?;
                return Some(Value::from_object(map));
            }
            i = i + 1;
        }
        Some(Value::from_object(map))
    }

    fn decode_skill(&mut self) -> (res: Option<Value>)
        ensures
            yields(old(self)@, final(self)@, res, parse_skill(old(self)@.src, Some(old(self)@.offset))),
    {
        let mut map = Object::new();
        map.put("xp", Value::from_float_bits(self.read_float64()?));
        map.put("unlocked", Value::Bool(self.read_bool()?));
        map.put("realms", Value::from_object(self.read_value_map_key(&NamespacedNameKey, &RealmElement)?));
        map.put("current_level_cap", Value::from_u16(self.read_uint16()?));
        map.put("current_abyssal_level_cap", Value::from_u16(self.read_uint16()?));
        map.put("skill_trees", Value::from_values(self.read_vector(&SkillTreeElement)?));
        map.put("abyssal_xp", Value::from_float_bits(self.read_float64()?));
        map.put("realm", self.read_namespaced_object()?.into_value());
        Some(Value::from_object(map))
    }
}

} // verus!
