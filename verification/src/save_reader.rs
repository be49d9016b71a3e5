//! The save reader: a byte buffer with an offset and a table of text ids, and the
//! decoding of a whole save.
use std::collections::HashMap;
use vstd::prelude::*;

use crate::text::{decimal_string, text_from_bytes, text_of_bytes};
use crate::traits::elements::{
    decode_optional_namespaced, parse_optional_namespaced, ItemQuantityElement, NamespacedElement,
    NamespacedNameKey, U32Element,
};
use crate::traits::read::{
    namespaced_name, namespaced_value, parse_bool, parse_buffer, parse_bytes, parse_f64_bits, parse_map, parse_namespaced,
    parse_string, parse_u16, parse_u32, parse_u8, parse_vector, yields, Buffer, BufferReader,
    ByteOffset, DataReaders, DecodeSpec, ElementDecoder, HasNumericToStringIdMap, NamespacedView,
    Pos, ReaderView, Src,
};
use crate::traits::bank_decoder::{lemma_bank_failure_stays, parse_bank, BankDecoder};
use crate::traits::base_manager_decoder::{
    lemma_base_manager_failure_stays, parse_base_manager, BaseManagerDecoder,
};
use crate::traits::character_decoder::CharacterDecoder;
use crate::traits::enemy_decoder::{lemma_enemy_failure_stays, parse_enemy, EnemyDecoder};
use crate::traits::item_charges_decoder::ItemChargesDecoder;
use crate::traits::minibar_decoder::MinibarDecoder;
use crate::traits::native_manager_decoder::NativeManagerDecoder;
use crate::traits::pet_manager_decoder::PetManagerDecoder;
use crate::traits::player_decoder::{lemma_player_failure_stays, parse_player, PlayerDecoder};
use crate::traits::potion_manager_decoder::PotionManagerDecoder;
use crate::traits::raid_enemy_decoder::RaidEnemyDecoder;
use crate::traits::raid_manager_decoder::{
    lemma_raid_manager_failure_stays, parse_raid_manager, RaidManagerDecoder,
};
use crate::traits::raid_player_decoder::RaidPlayerDecoder;
use crate::traits::settings_decoder::SettingsDecoder;
use crate::traits::shop_decoder::ShopDecoder;
use crate::traits::skill_decoder::SkillDecoder;
use crate::traits::stat_decoder::StatDecoder;
use crate::traits::timer_decoder::{parse_timer, TimerDecoder};
use crate::traits::tutorial_decoder::TutorialDecoder;
use crate::value::{
    assoc_insert, is_finite_bits, lemma_assoc_insert_at, Object, Value, ValueView,
};

verus! {

broadcast use vstd::std_specs::hash::group_hash_axioms;

/// An id of the game's data: a numeric id and, where the save's header names it,
/// its text id (`namespace:name`).
pub struct NamespacedObject {
    pub id: u16,
    pub text_id: Option<String>,
}

impl View for NamespacedObject {
    type V = NamespacedView;

    open spec fn view(&self) -> NamespacedView {
        (
            self.id,
            match self.text_id {
                Some(t) => Some(t@),
                None => None,
            },
        )
    }
}

impl NamespacedObject {
    /// The object as a value: `{"id": .., "text_id": ..}`.
    pub fn into_value(self) -> (v: Value)
        ensures
            v@ == namespaced_value(self@),
    {
        let mut map = Object::new();
        map.put("id", Value::from_u16(self.id));
        match self.text_id {
            Some(text_id) => map.put("text_id", Value::Str(text_id)),
            None => {},
        }
        Value::from_object(map)
    }

    /// The text id, or else the numeric id in decimal.
    pub fn as_name(self) -> (s: String)
        ensures
            s@ == namespaced_name(self@),
    {
        match self.text_id {
            Some(text_id) => text_id,
            None => decimal_string(self.id as u32),
        }
    }
}

/// A reader over one buffer of the save.
pub struct BinaryReader {
    pub data: Vec<u8>,
    pub byte_offset: usize,
    pub numeric_to_string_id_map: HashMap<u16, String>,
}

impl View for BinaryReader {
    type V = ReaderView;

    open spec fn view(&self) -> ReaderView {
        ReaderView {
            src: Src {
                bytes: self.data@,
                ids: self.numeric_to_string_id_map@.map_values(|t: String| t@),
            },
            offset: self.byte_offset as int,
        }
    }
}

impl Buffer for BinaryReader {
    fn buffer_len(&self) -> (len: usize) {
        self.data.len()
    }

    fn get_slice(&mut self, start: usize, end: usize) -> (slice: Vec<u8>) {
        let mut slice: Vec<u8> = Vec::new();
        let mut i = start;
        while i < end
            invariant
                start <= i <= end <= self.data@.len(),
                slice@ == self.data@.subrange(start as int, i as int),
            decreases end - i,
        {
            slice.push(self.data[i]);
            i = i + 1;
            proof {
                assert(slice@ =~= self.data@.subrange(start as int, i as int));
            }
        }
        slice
    }
}

impl ByteOffset for BinaryReader {
    fn get_byte_offset(&self) -> (offset: usize) {
        self.byte_offset
    }

    fn increment_byte_offset(&mut self, increment: usize) {
        self.byte_offset = self.byte_offset + increment;
    }
}

impl HasNumericToStringIdMap for BinaryReader {
    fn map_numeric_to_string_id(&self, id: &u16) -> (text_id: Option<String>) {
        match self.numeric_to_string_id_map.get(id) {
            Some(text_id) => Some(text_id.clone()),
            None => None,
        }
    }
}

impl BufferReader for BinaryReader {}

impl DataReaders for BinaryReader {}

impl BinaryReader {
    /// A reader at the start of `data`, with no text ids.
    pub fn new(data: Vec<u8>) -> (r: BinaryReader)
        ensures
            r@.src.bytes == data@,
            r@.src.ids == Map::<u16, Seq<char>>::empty(),
            r@.offset == 0,
    {
        let r = BinaryReader { data, byte_offset: 0, numeric_to_string_id_map: HashMap::new() };
        proof {
            assert(r@.src.ids =~= Map::<u16, Seq<char>>::empty());
        }
        r
    }
}

} // verus!

verus! {

/// A namespace of the save's header: the numeric id of each text id, without repeats.
pub struct IdTable {
    pub entries: Vec<(String, u16)>,
}

impl View for IdTable {
    type V = Seq<(Seq<char>, u16)>;

    open spec fn view(&self) -> Seq<(Seq<char>, u16)> {
        Seq::new(self.entries@.len(), |i: int| (self.entries@[i].0@, self.entries@[i].1))
    }
}

/// The save's header: the id table of each namespace, without repeats.
pub struct HeaderMap {
    pub namespaces: Vec<(String, IdTable)>,
}

impl View for HeaderMap {
    type V = Seq<(Seq<char>, Seq<(Seq<char>, u16)>)>;

    open spec fn view(&self) -> Seq<(Seq<char>, Seq<(Seq<char>, u16)>)> {
        Seq::new(self.namespaces@.len(), |i: int| (self.namespaces@[i].0@, self.namespaces@[i].1@))
    }
}

impl IdTable {
    pub fn new() -> (t: IdTable)
        ensures
            t@ == Seq::<(Seq<char>, u16)>::empty(),
    {
        let t = IdTable { entries: Vec::new() };
        proof {
            assert(t@ =~= Seq::<(Seq<char>, u16)>::empty());
        }
        t
    }

    /// Inserts `id` under `key`, replacing the id of an equal key.
    pub fn insert(&mut self, key: String, id: u16)
        ensures
            final(self)@ == assoc_insert(old(self)@, key@, id),
    {
        let ghost s = old(self)@;
        let n = self.entries.len();
        let mut i: usize = 0;
        let mut found = false;
        while i < n
            invariant
                n == self.entries@.len(),
                self@ == s,
                0 <= i <= n,
                forall|j: int| 0 <= j < i ==> s[j].0 != key@,
                found ==> i < n && s[i as int].0 == key@,
            ensures
                found ==> i < n && s[i as int].0 == key@,
                !found ==> i == n,
                forall|j: int| 0 <= j < i ==> s[j].0 != key@,
            decreases n - i,
        {
            if self.entries[i].0 == key {
                found = true;
                break;
            }
            i = i + 1;
        }
        proof {
            lemma_assoc_insert_at(s, key@, id, i as int);
        }
        let ghost kv = key@;
        if found {
            self.entries.set(i, (key, id));
            proof {
                assert(self@ =~= s.update(i as int, (kv, id)));
            }
        } else {
            self.entries.push((key, id));
            proof {
                assert(self@ =~= s.push((kv, id)));
            }
        }
    }
}

impl HeaderMap {
    pub fn new() -> (h: HeaderMap)
        ensures
            h@ == Seq::<(Seq<char>, Seq<(Seq<char>, u16)>)>::empty(),
    {
        let h = HeaderMap { namespaces: Vec::new() };
        proof {
            assert(h@ =~= Seq::<(Seq<char>, Seq<(Seq<char>, u16)>)>::empty());
        }
        h
    }

    /// Inserts the id table `table` under `key`, replacing the table of an equal key.
    pub fn insert(&mut self, key: String, table: IdTable)
        ensures
            final(self)@ == assoc_insert(old(self)@, key@, table@),
    {
        let ghost s = old(self)@;
        let n = self.namespaces.len();
        let mut i: usize = 0;
        let mut found = false;
        while i < n
            invariant
                n == self.namespaces@.len(),
                self@ == s,
                0 <= i <= n,
                forall|j: int| 0 <= j < i ==> s[j].0 != key@,
                found ==> i < n && s[i as int].0 == key@,
            ensures
                found ==> i < n && s[i as int].0 == key@,
                !found ==> i == n,
                forall|j: int| 0 <= j < i ==> s[j].0 != key@,
            decreases n - i,
        {
            if self.namespaces[i].0 == key {
                found = true;
                break;
            }
            i = i + 1;
        }
        proof {
            lemma_assoc_insert_at(s, key@, table@, i as int);
        }
        let ghost kv = key@;
        let ghost tv = table@;
        if found {
            self.namespaces.set(i, (key, table));
            proof {
                assert(self@ =~= s.update(i as int, (kv, tv)));
            }
        } else {
            self.namespaces.push((key, table));
            proof {
                assert(self@ =~= s.push((kv, tv)));
            }
        }
    }
}

/// The first `n` entries of a namespace: each a text id and its `u16` numeric id.
pub open spec fn parse_id_entries(src: Src, pos: Pos, n: nat) -> (Seq<(Seq<char>, u16)>, Pos)
    decreases n,
{
    if n == 0 {
        (Seq::empty(), pos)
    } else {
        let (m, p) = parse_id_entries(src, pos, (n - 1) as nat);
        match p {
            Some(_) => {
                let (key, p1) = parse_string(src, p);
                let (id, p2) = parse_u16(src, p1);
                match p2 {
                    Some(_) => (assoc_insert(m, key, id), p2),
                    None => (m, None),
                }
            },
            None => (m, None),
        }
    }
}

/// A namespace's id table: a `u32` count, then its entries.
pub open spec fn parse_id_table(src: Src, pos: Pos) -> (Seq<(Seq<char>, u16)>, Pos) {
    let (n, p) = parse_u32(src, pos);
    match p {
        Some(_) => parse_id_entries(src, p, n as nat),
        None => (Seq::empty(), None),
    }
}

/// The first `n` namespaces of the header: each a name and its id table.
pub open spec fn parse_namespace_entries(src: Src, pos: Pos, n: nat) -> (
    Seq<(Seq<char>, Seq<(Seq<char>, u16)>)>,
    Pos,
)
    decreases n,
{
    if n == 0 {
        (Seq::empty(), pos)
    } else {
        let (m, p) = parse_namespace_entries(src, pos, (n - 1) as nat);
        match p {
            Some(_) => {
                let (key, p1) = parse_string(src, p);
                let (table, p2) = parse_id_table(src, p1);
                match p2 {
                    Some(_) => (assoc_insert(m, key, table), p2),
                    None => (m, None),
                }
            },
            None => (m, None),
        }
    }
}

/// The header map: a `u32` count, then the namespaces.
pub open spec fn parse_header_map(src: Src, pos: Pos) -> (Seq<(Seq<char>, Seq<(Seq<char>, u16)>)>, Pos) {
    let (n, p) = parse_u32(src, pos);
    match p {
        Some(_) => parse_namespace_entries(src, p, n as nat),
        None => (Seq::empty(), None),
    }
}

proof fn lemma_id_entries_failure_stays(src: Src, pos: Pos, i: nat, n: nat)
    requires
        i <= n,
        parse_id_entries(src, pos, i).1 is None,
    ensures
        parse_id_entries(src, pos, n).1 is None,
    decreases n,
{
    if n > i {
        lemma_id_entries_failure_stays(src, pos, i, (n - 1) as nat);
    }
}

proof fn lemma_namespace_entries_failure_stays(src: Src, pos: Pos, i: nat, n: nat)
    requires
        i <= n,
        parse_namespace_entries(src, pos, i).1 is None,
    ensures
        parse_namespace_entries(src, pos, n).1 is None,
    decreases n,
{
    if n > i {
        lemma_namespace_entries_failure_stays(src, pos, i, (n - 1) as nat);
    }
}

fn read_id_table(r: &mut BinaryReader) -> (res: Option<IdTable>)
    ensures
        yields(old(r)@, final(r)@, res, parse_id_table(old(r)@.src, Some(old(r)@.offset))),
{
    let ghost src = r@.src;
    let sub_map_size = r.read_uint32()?;
    let ghost start = Some(r@.offset);
    let mut sub_map = IdTable::new();
    let mut i: u32 = 0;
    while i < sub_map_size
        invariant
            r@.src == src,
            src == old(r)@.src,
            parse_id_table(src, Some(old(r)@.offset)) == parse_id_entries(src, start, sub_map_size as nat),
            0 <= i <= sub_map_size,
            parse_id_entries(src, start, i as nat) == (sub_map@, Some(r@.offset)),
        decreases sub_map_size - i,
    {
        let sub_key = match r.read_string() {
            Some(k) => k,
            None => {
                proof {
                    lemma_id_entries_failure_stays(src, start, (i + 1) as nat, sub_map_size as nat);
                }
                return None;
            },
        };
        let sub_value = match r.read_uint16() {
            Some(v) => v,
            None => {
                proof {
                    lemma_id_entries_failure_stays(src, start, (i + 1) as nat, sub_map_size as nat);
                }
                return None;
            },
        };
        sub_map.insert(sub_key, sub_value);
        i = i + 1;
    }
    Some(sub_map)
}

impl MelvorSaveReader {
    /// Reads the header map from the header buffer.
    pub fn read_header_map(&mut self) -> (res: Option<HeaderMap>)
        ensures
            final(self).raw_data == old(self).raw_data,
            final(self).save_map == old(self).save_map,
            final(self).header_map == old(self).header_map,
            final(self).header_version == old(self).header_version,
            yields(old(self).header@, final(self).header@, res, parse_header_map(old(self).header@.src, Some(old(self).header@.offset))),
    {
        let ghost src = self.header@.src;
        let map_size = self.header.read_uint32()?;
        let ghost start = Some(self.header@.offset);
        let mut map = HeaderMap::new();
        let mut i: u32 = 0;
        while i < map_size
            invariant
                self.header@.src == src,
                src == old(self).header@.src,
                self.raw_data == old(self).raw_data,
                self.save_map == old(self).save_map,
                self.header_map == old(self).header_map,
                self.header_version == old(self).header_version,
                parse_header_map(src, Some(old(self).header@.offset)) == parse_namespace_entries(src, start, map_size as nat),
                0 <= i <= map_size,
                parse_namespace_entries(src, start, i as nat) == (map@, Some(self.header@.offset)),
            decreases map_size - i,
        {
            let key = match self.header.read_string() {
                Some(k) => k,
                None => {
                    proof {
                        lemma_namespace_entries_failure_stays(src, start, (i + 1) as nat, map_size as nat);
                    }
                    return None;
                },
            };
            let sub_map = match read_id_table(&mut self.header) {
                Some(t) => t,
                None => {
                    proof {
                        lemma_namespace_entries_failure_stays(src, start, (i + 1) as nat, map_size as nat);
                    }
                    return None;
                },
            };
            map.insert(key, sub_map);
            i = i + 1;
        }
        Some(map)
    }
}

/// A decoded save: the two buffers it is made of, each read to where decoding stopped,
/// the header map, the header's version and the decoded save map.
pub struct MelvorSaveReader {
    pub header: BinaryReader,
    pub raw_data: BinaryReader,
    pub save_map: Object,
    pub header_map: HeaderMap,
    pub header_version: u32,
}

} // verus!

verus! {

/// The text id of `id` in namespace `namespace`: `namespace:id`.
pub open spec fn id_text(namespace: Seq<char>, id: Seq<char>) -> Seq<char> {
    namespace + ":"@ + id
}

/// `acc` with the first `j` ids of a namespace added.
pub open spec fn add_namespace_ids(
    acc: Map<u16, Seq<char>>,
    namespace: Seq<char>,
    ids: Seq<(Seq<char>, u16)>,
    j: nat,
) -> Map<u16, Seq<char>>
    decreases j,
{
    if j == 0 {
        acc
    } else {
        add_namespace_ids(acc, namespace, ids, (j - 1) as nat).insert(
            ids[j - 1].1,
            id_text(namespace, ids[j - 1].0),
        )
    }
}

/// The text ids of the numeric ids of the first `i` namespaces of a header map.
pub open spec fn id_names_upto(h: Seq<(Seq<char>, Seq<(Seq<char>, u16)>)>, i: nat) -> Map<
    u16,
    Seq<char>,
>
    decreases i,
{
    if i == 0 {
        Map::empty()
    } else {
        add_namespace_ids(id_names_upto(h, (i - 1) as nat), h[i - 1].0, h[i - 1].1, h[i - 1].1.len())
    }
}

/// The text id of each numeric id that a header map names; where two text ids share a
/// numeric id, the later one in the header's order is kept.
pub open spec fn id_names(h: Seq<(Seq<char>, Seq<(Seq<char>, u16)>)>) -> Map<u16, Seq<char>> {
    id_names_upto(h, h.len())
}

/// The table from numeric ids to text ids that the save's data is read with.
pub fn build_numeric_to_string_id_map(header_map: &HeaderMap) -> (ids: HashMap<u16, String>)
    ensures
        ids@.map_values(|t: String| t@) == id_names(header_map@),
{
    let mut ids: HashMap<u16, String> = HashMap::new();
    let n = header_map.namespaces.len();
    proof {
        assert(ids@.map_values(|t: String| t@) =~= Map::<u16, Seq<char>>::empty());
    }
    let mut i: usize = 0;
    while i < n
        invariant
            n == header_map@.len(),
            0 <= i <= n,
            ids@.map_values(|t: String| t@) == id_names_upto(header_map@, i as nat),
        decreases n - i,
    {
        let namespace = &header_map.namespaces[i].0;
        let table = &header_map.namespaces[i].1;
        let m = table.entries.len();
        let ghost before = ids@.map_values(|t: String| t@);
        let mut j: usize = 0;
        while j < m
            invariant
                n == header_map@.len(),
                0 <= i < n,
                m == table@.len(),
                table@ == header_map@[i as int].1,
                namespace@ == header_map@[i as int].0,
                0 <= j <= m,
                ids@.map_values(|t: String| t@) == add_namespace_ids(before, namespace@, table@, j as nat),
            decreases m - j,
        {
            let mut text = namespace.clone();
            text.append(":");
            text.append(table.entries[j].0.as_str());
            let ghost old_ids = ids@;
            ids.insert(table.entries[j].1, text);
            proof {
                assert(ids@.map_values(|t: String| t@) =~= old_ids.map_values(|t: String| t@).insert(
                    table@[j as int].1,
                    id_text(namespace@, table@[j as int].0),
                ));
            }
            j = j + 1;
        }
        i = i + 1;
    }
    ids
}

/// The magic of a save: six bytes that decode as the text `melvor`.
pub open spec fn parse_magic(src: Src, pos: Pos) -> (bool, Pos) {
    let (b, p) = parse_bytes(src, pos, 6);
    (text_of_bytes(b) == "melvor"@, p)
}

impl BinaryReader {
    /// Reads the six bytes of a save's magic, and whether they spell `melvor`.
    pub fn validate_file_is_melvor_save(&mut self) -> (res: Option<bool>)
        ensures
            yields(old(self)@, final(self)@, res, parse_magic(old(self)@.src, Some(old(self)@.offset))),
    {
        let buffer = self.read_buffer_by_size(6)?;
        let melvor = text_from_bytes(buffer);
        Some(melvor == String::from_str("melvor"))
    }
}

} // verus!

verus! {

/// A slayer task category: `{category, tasks_completed}`.
pub struct SlayerCategoryElement;

impl DecodeSpec for SlayerCategoryElement {
    open spec fn spec_decode(&self, src: Src, pos: Pos) -> (ValueView, Pos) {
        let (category, p) = parse_namespaced(src, pos);
        let (completed, p) = parse_u32(src, p);
        let m = assoc_insert(Seq::empty(), "category"@, namespaced_value(category));
        let m = assoc_insert(m, "tasks_completed"@, ValueView::UInt(completed as u64));
        (ValueView::Object(m), p)
    }
}

impl<R: DataReaders + ?Sized> ElementDecoder<R> for SlayerCategoryElement {
    fn decode(&self, r: &mut R) -> (res: Option<Value>) {
        let mut map = Object::new();
        map.put("category", r.read_namespaced_object()?.into_value());
        map.put("tasks_completed", Value::from_u32(r.read_uint32()?));
        Some(Value::from_object(map))
    }
}

/// A timer, read as the save's main reader reads it.
pub fn read_timer(reader: &mut BinaryReader) -> (res: Option<Value>)
    ensures
        yields(old(reader)@, final(reader)@, res, parse_timer(old(reader)@.src, Some(old(reader)@.offset))),
{
    let mut map = Object::new();
    map.put("ticksleft", Value::from_u32(reader.read_uint32()?));
    map.put("maxticks", Value::from_u32(reader.read_uint32()?));
    map.put("active", Value::Bool(reader.read_bool()?));
    Some(Value::from_object(map))
}

/// The slayer task of the combat manager.
pub open spec fn parse_slayer_task(src: Src, pos: Pos) -> (ValueView, Pos) {
    let (active, p) = parse_bool(src, pos);
    let m = assoc_insert(Seq::empty(), "active"@, ValueView::Bool(active));
    let (m, p) = parse_optional_namespaced(m, "monster"@, src, p);
    let (kills_left, p) = parse_u32(src, p);
    let (extended, p) = parse_bool(src, p);
    let m = assoc_insert(m, "kills_left"@, ValueView::UInt(kills_left as u64));
    let m = assoc_insert(m, "extended"@, ValueView::Bool(extended));
    let (m, p) = parse_optional_namespaced(m, "category"@, src, p);
    let (categories, p) = parse_vector(SlayerCategoryElement, src, p);
    let (timer, p) = parse_timer(src, p);
    let (realm, p) = parse_namespaced(src, p);
    let m = assoc_insert(m, "categories"@, ValueView::Array(categories));
    let m = assoc_insert(m, "task_timer"@, timer);
    let m = assoc_insert(m, "realm"@, namespaced_value(realm));
    (ValueView::Object(m), p)
}

fn decode_slayer_task(r: &mut BinaryReader) -> (res: Option<Value>)
    ensures
        yields(old(r)@, final(r)@, res, parse_slayer_task(old(r)@.src, Some(old(r)@.offset))),
{
    let mut map = Object::new();
    map.put("active", Value::Bool(r.read_bool()?));
    let mut map = decode_optional_namespaced(r, map, "monster")?;
    map.put("kills_left", Value::from_u32(r.read_uint32()?));
    map.put("extended", Value::Bool(r.read_bool()?));
    let mut map = decode_optional_namespaced(r, map, "category")?;
    map.put("categories", Value::from_values(r.read_vector(&SlayerCategoryElement)?));
    map.put("task_timer", read_timer(r)?);
    map.put("realm", r.read_namespaced_object()?.into_value());
    Some(Value::from_object(map))
}

/// The combat manager's area, progress, monster, pause, loot and slayer task.
pub open spec fn parse_combat_area(src: Src, pos: Pos) -> (Seq<(Seq<char>, ValueView)>, Pos) {
    let m = Seq::empty();
    let (has_area, p) = parse_bool(src, pos);
    let (m, p) = if has_area {
        let (area_type, p) = parse_u8(src, p);
        let (area, p) = parse_namespaced(src, p);
        let m = assoc_insert(m, "selected_area_type"@, ValueView::UInt(area_type as u64));
        (assoc_insert(m, "selected_area"@, namespaced_value(area)), p)
    } else {
        (m, p)
    };
    let (progress, p) = parse_u32(src, p);
    let m = assoc_insert(m, "area_progress"@, ValueView::UInt(progress as u64));
    let (m, p) = parse_optional_namespaced(m, "selected_monster"@, src, p);
    let (paused, p) = parse_bool(src, p);
    let (loot, p) = parse_vector(ItemQuantityElement, src, p);
    let (slayer_task, p) = parse_slayer_task(src, p);
    let m = assoc_insert(m, "paused"@, ValueView::Bool(paused));
    let m = assoc_insert(m, "loot"@, ValueView::Array(loot));
    let m = assoc_insert(m, "slayer_task"@, slayer_task);
    (m, p)
}

/// The combat manager's events, dungeon completions and stronghold tier, inserted into `m`.
pub open spec fn parse_combat_events(m: Seq<(Seq<char>, ValueView)>, src: Src, pos: Pos) -> (
    ValueView,
    Pos,
) {
    let (m, p) = parse_optional_namespaced(m, "active_event"@, src, pos);
    let (passives, p) = parse_vector(NamespacedElement, src, p);
    let (selected, p) = parse_vector(NamespacedElement, src, p);
    let (length, p) = parse_u32(src, p);
    let (areas, p) = parse_map(NamespacedNameKey, U32Element, src, p);
    let (progress, p) = parse_u32(src, p);
    let (completion, p) = parse_map(NamespacedNameKey, U32Element, src, p);
    let (tier, p) = parse_u8(src, p);
    let m = assoc_insert(m, "event_passives"@, ValueView::Array(passives));
    let m = assoc_insert(m, "event_passives_being_selected"@, ValueView::Array(selected));
    let m = assoc_insert(m, "event_dungon_length"@, ValueView::UInt(length as u64));
    let m = assoc_insert(m, "active_event_areas"@, ValueView::Object(areas));
    let m = assoc_insert(m, "event_progress"@, ValueView::UInt(progress as u64));
    let m = assoc_insert(m, "dungeon_completion"@, ValueView::Object(completion));
    let m = assoc_insert(m, "stronghold_tier"@, ValueView::UInt(tier as u64));
    (ValueView::Object(m), p)
}

/// The combat manager.
#[verifier::opaque]
pub open spec fn parse_combat_manager(src: Src, pos: Pos) -> (ValueView, Pos) {
    let (m, p) = parse_combat_area(src, pos);
    parse_combat_events(m, src, p)
}

fn decode_combat_area(r: &mut BinaryReader) -> (res: Option<Object>)
    ensures
        yields(old(r)@, final(r)@, res, parse_combat_area(old(r)@.src, Some(old(r)@.offset))),
{
    let mut map = Object::new();
    if r.read_bool()? {
        map.put("selected_area_type", Value::from_u8(r.read_uint8()?));
        map.put("selected_area", r.read_namespaced_object()?.into_value());
    }
    map.put("area_progress", Value::from_u32(r.read_uint32()?));
    let mut map = decode_optional_namespaced(r, map, "selected_monster")?;
    map.put("paused", Value::Bool(r.read_bool()?));
    map.put("loot", Value::from_values(r.read_vector(&ItemQuantityElement)?));
    map.put("slayer_task", decode_slayer_task(r)?);
    Some(map)
}

fn decode_combat_events(r: &mut BinaryReader, map: Object) -> (res: Option<Value>)
    ensures
        yields(old(r)@, final(r)@, res, parse_combat_events(map@, old(r)@.src, Some(old(r)@.offset))),
{
    let mut map = decode_optional_namespaced(r, map, "active_event")?;
    map.put("event_passives", Value::from_values(r.read_vector(&NamespacedElement)?));
    map.put("event_passives_being_selected", Value::from_values(r.read_set(&NamespacedElement)?));
    map.put("event_dungon_length", Value::from_u32(r.read_uint32()?));
    map.put(
        "active_event_areas",
        Value::from_object(r.read_value_map_key(&NamespacedNameKey, &U32Element)?),
    );
    map.put("event_progress", Value::from_u32(r.read_uint32()?));
    map.put(
        "dungeon_completion",
        Value::from_object(r.read_value_map_key(&NamespacedNameKey, &U32Element)?),
    );
    map.put("stronghold_tier", Value::from_u8(r.read_uint8()?));
    Some(Value::from_object(map))
}

/// Decodes the combat manager.
pub fn decode_combat_manager(r: &mut BinaryReader) -> (res: Option<Value>)
    ensures
        yields(old(r)@, final(r)@, res, parse_combat_manager(old(r)@.src, Some(old(r)@.offset))),
{
    reveal(parse_combat_manager);
    let map = decode_combat_area(r)?;
    decode_combat_events(r, map)
}

} // verus!

verus! {

/// Why a save could not be read.
#[derive(Debug, Clone, Copy, PartialEq, Eq)]
pub enum ReadSaveError {
    /// The data does not start with the magic `melvor`.
    NotAMelvorSave,
    /// The data ends early, or a timestamp is not a finite number.
    Malformed,
}

/// The model of a decoded save: the header map, the text ids it names, the header's
/// version and the save map, and the readers over the header buffer and the data buffer
/// where decoding left them.
pub struct SaveView {
    pub header_map: Seq<(Seq<char>, Seq<(Seq<char>, u16)>)>,
    pub ids: Map<u16, Seq<char>>,
    pub header_version: u32,
    pub save_map: Seq<(Seq<char>, ValueView)>,
    pub header: ReaderView,
    pub raw_data: ReaderView,
}

impl View for MelvorSaveReader {
    type V = SaveView;

    open spec fn view(&self) -> SaveView {
        SaveView {
            header_map: self.header_map@,
            ids: self.raw_data@.src.ids,
            header_version: self.header_version,
            save_map: self.save_map@,
            header: self.header@,
            raw_data: self.raw_data@,
        }
    }
}

/// A step of decoding into the save map went from `before` to `after` as `expect` says:
/// the header is unchanged, and where `expect` ends at a position the save map became
/// `expect.0` and the data reader moved to that position; otherwise the step failed.
pub open spec fn saved(
    before: MelvorSaveReader,
    after: MelvorSaveReader,
    res: Option<()>,
    expect: (Seq<(Seq<char>, ValueView)>, Pos),
) -> bool {
    &&& after.header == before.header
    &&& after.header_map == before.header_map
    &&& after.header_version == before.header_version
    &&& after.raw_data@.src == before.raw_data@.src
    &&& match expect.1 {
        Some(p) => res is Some && after.save_map@ == expect.0 && after.raw_data@.offset == p,
        None => res is None,
    }
}

/// A double that must be finite; a non-finite one makes the save malformed.
pub open spec fn parse_finite_f64(src: Src, pos: Pos) -> (u64, Pos) {
    let (bits, p) = parse_f64_bits(src, pos);
    (
        bits,
        if is_finite_bits(bits) {
            p
        } else {
            None
        },
    )
}

/// Where a flag is set, a `u16` stored under `key`.
pub open spec fn parse_optional_u16(
    m: Seq<(Seq<char>, ValueView)>,
    key: Seq<char>,
    src: Src,
    pos: Pos,
) -> (Seq<(Seq<char>, ValueView)>, Pos) {
    let (present, p) = parse_bool(src, pos);
    if present {
        let (id, p) = parse_u16(src, p);
        (assoc_insert(m, key, ValueView::UInt(id as u64)), p)
    } else {
        (m, p)
    }
}

/// The first fields of the save map: the timestamps, the active and paused actions, the
/// pause and merchant's permit flags, the game mode and the character's name.
#[verifier::opaque]
pub open spec fn parse_save_fields(m: Seq<(Seq<char>, ValueView)>, src: Src, pos: Pos) -> (
    Seq<(Seq<char>, ValueView)>,
    Pos,
) {
    let (tick, p) = parse_finite_f64(src, pos);
    let m = assoc_insert(m, "tick_timestamp"@, ValueView::Float(tick));
    let (save, p) = parse_finite_f64(src, p);
    let m = assoc_insert(m, "save_timestamp"@, ValueView::Float(save));
    let (m, p) = parse_optional_u16(m, "active_action_id"@, src, p);
    let (m, p) = parse_optional_u16(m, "paused_action_id"@, src, p);
    let (is_paused, p) = parse_bool(src, p);
    let m = assoc_insert(m, "is_paused"@, ValueView::Bool(is_paused));
    let (permit, p) = parse_bool(src, p);
    let m = assoc_insert(m, "merchants_permit_read"@, ValueView::Bool(permit));
    let (game_mode, p) = parse_u16(src, p);
    let m = assoc_insert(m, "game_mode_id"@, ValueView::UInt(game_mode as u64));
    let (name, p) = parse_string(src, p);
    let m = assoc_insert(m, "character_name"@, ValueView::Str(name));
    (m, p)
}

/// The save map: its first fields, the bank, the combat manager's base manager (player and
/// enemy), the combat manager and the raid manager.
#[verifier::opaque]
pub open spec fn parse_save_map(m: Seq<(Seq<char>, ValueView)>, src: Src, pos: Pos) -> (
    Seq<(Seq<char>, ValueView)>,
    Pos,
) {
    let (m, p) = parse_save_fields(m, src, pos);
    let (bank, p) = parse_bank(src, p);
    let m = assoc_insert(m, "bank"@, bank);
    let (player, p) = parse_player(src, p);
    let (enemy, p) = parse_enemy(true, src, p);
    let (base_manager, p) = parse_base_manager(player, enemy, src, p);
    let m = assoc_insert(m, "combat_manager.base_manager"@, base_manager);
    let (combat_manager, p) = parse_combat_manager(src, p);
    let m = assoc_insert(m, "combat_manager"@, combat_manager);
    let (raid_manager, p) = parse_raid_manager(src, p);
    let m = assoc_insert(m, "raid_manager"@, raid_manager);
    (m, p)
}

/// A whole save: the magic, then the header buffer and the data buffer; what follows them
/// is not read. The header holds the header map and then its version, and is read with no
/// text ids; the data is read with the text ids that the header map names. Data that ends
/// early, even within the magic, is malformed.
pub open spec fn parse_save(data: Seq<u8>) -> Result<SaveView, ReadSaveError> {
    let src = Src { bytes: data, ids: Map::empty() };
    let (magic, p) = parse_magic(src, Some(0));
    if p is None {
        Err(ReadSaveError::Malformed)
    } else if !magic {
        Err(ReadSaveError::NotAMelvorSave)
    } else {
        let (header, p) = parse_buffer(src, p);
        let (raw, p) = parse_buffer(src, p);
        if p is None {
            Err(ReadSaveError::Malformed)
        } else {
            let header_src = Src { bytes: header, ids: Map::empty() };
            let (header_map, hp) = parse_header_map(header_src, Some(0));
            let (version, hp) = parse_u32(header_src, hp);
            let ids = id_names(header_map);
            let raw_src = Src { bytes: raw, ids };
            let (save_map, rp) = parse_save_map(Seq::empty(), raw_src, Some(0));
            if hp is None || rp is None {
                Err(ReadSaveError::Malformed)
            } else {
                Ok(
                    SaveView {
                        header_map,
                        ids,
                        header_version: version,
                        save_map,
                        header: ReaderView { src: header_src, offset: hp.unwrap() },
                        raw_data: ReaderView { src: raw_src, offset: rp.unwrap() },
                    },
                )
            }
        }
    }
}

impl TimerDecoder for BinaryReader {}

impl CharacterDecoder for BinaryReader {}

impl PlayerDecoder for BinaryReader {}

impl RaidPlayerDecoder for BinaryReader {}

impl BaseManagerDecoder for BinaryReader {}

impl EnemyDecoder for BinaryReader {}

impl RaidEnemyDecoder for BinaryReader {}

impl RaidManagerDecoder for BinaryReader {}

impl BankDecoder for BinaryReader {}

impl ItemChargesDecoder for BinaryReader {}

impl MinibarDecoder for BinaryReader {}

impl NativeManagerDecoder for BinaryReader {}

impl PetManagerDecoder for BinaryReader {}

impl PotionManagerDecoder for BinaryReader {}

impl SettingsDecoder for BinaryReader {}

impl ShopDecoder for BinaryReader {}

impl SkillDecoder for BinaryReader {}

impl StatDecoder for BinaryReader {}

impl TutorialDecoder for BinaryReader {}

impl MelvorSaveReader {
    /// Reads a double from the data into the save map under `key`. JSON holds no NaN or
    /// infinity, so such a double fails the read (`None`), with the save map unchanged.
    pub fn add_to_save_map_f64(&mut self, key: &str) -> (res: Option<()>)
        ensures
            saved(*old(self), *final(self), res, {
                let (bits, p) = parse_finite_f64(old(self).raw_data@.src, Some(old(self).raw_data@.offset));
                (assoc_insert(old(self).save_map@, key@, ValueView::Float(bits)), p)
            }),
    {
        let bits = self.raw_data.read_float64()?;
        if (bits >> 52u64) & 0x7ffu64 == 0x7ffu64 {
            return None;
        }
        self.save_map.put(key, Value::Float(bits));
        Some(())
    }

    /// Reads a `u16` from the data into the save map under `key`.
    pub fn add_to_save_map_uint16(&mut self, key: &str) -> (res: Option<()>)
        ensures
            saved(*old(self), *final(self), res, {
                let (n, p) = parse_u16(old(self).raw_data@.src, Some(old(self).raw_data@.offset));
                (assoc_insert(old(self).save_map@, key@, ValueView::UInt(n as u64)), p)
            }),
    {
        let n = self.raw_data.read_uint16()?;
        self.save_map.put(key, Value::from_u16(n));
        Some(())
    }

    /// Reads a boolean from the data into the save map under `key`.
    pub fn add_to_save_map_bool(&mut self, key: &str) -> (res: Option<()>)
        ensures
            saved(*old(self), *final(self), res, {
                let (b, p) = parse_bool(old(self).raw_data@.src, Some(old(self).raw_data@.offset));
                (assoc_insert(old(self).save_map@, key@, ValueView::Bool(b)), p)
            }),
    {
        let b = self.raw_data.read_bool()?;
        self.save_map.put(key, Value::Bool(b));
        Some(())
    }

    /// Reads a string from the data into the save map under `key`.
    pub fn add_to_save_map_string(&mut self, key: &str) -> (res: Option<()>)
        ensures
            saved(*old(self), *final(self), res, {
                let (s, p) = parse_string(old(self).raw_data@.src, Some(old(self).raw_data@.offset));
                (assoc_insert(old(self).save_map@, key@, ValueView::Str(s)), p)
            }),
    {
        let s = self.raw_data.read_string()?;
        self.save_map.put(key, Value::Str(s));
        Some(())
    }

    /// Stores `value` in the save map under `key`.
    pub fn add_to_save_map(&mut self, key: &str, value: Value)
        ensures
            final(self).header == old(self).header,
            final(self).header_map == old(self).header_map,
            final(self).header_version == old(self).header_version,
            final(self).raw_data == old(self).raw_data,
            final(self).save_map@ == assoc_insert(old(self).save_map@, key@, value@),
    {
        self.save_map.put(key, value);
    }

    fn read_save_fields(&mut self) -> (res: Option<()>)
        ensures
            saved(*old(self), *final(self), res, parse_save_fields(old(self).save_map@, old(self).raw_data@.src, Some(old(self).raw_data@.offset))),
    {
        reveal(parse_save_fields);
        self.add_to_save_map_f64("tick_timestamp")?;
        self.add_to_save_map_f64("save_timestamp")?;
        if self.raw_data.read_bool()? {
            self.add_to_save_map_uint16("active_action_id")?;
        }
        if self.raw_data.read_bool()? {
            self.add_to_save_map_uint16("paused_action_id")?;
        }
        self.add_to_save_map_bool("is_paused")?;
        self.add_to_save_map_bool("merchants_permit_read")?;
        self.add_to_save_map_uint16("game_mode_id")?;
        self.add_to_save_map_string("character_name")?;
        Some(())
    }

    fn read_save_map(&mut self) -> (res: Option<()>)
        ensures
            saved(*old(self), *final(self), res, parse_save_map(old(self).save_map@, old(self).raw_data@.src, Some(old(self).raw_data@.offset))),
    {
        reveal(parse_save_map);
        broadcast use {
            lemma_save_fields_failure_stays,
            lemma_bank_failure_stays,
            lemma_player_failure_stays,
            lemma_enemy_failure_stays,
            lemma_base_manager_failure_stays,
            lemma_combat_manager_failure_stays,
            lemma_raid_manager_failure_stays,
        };
        self.read_save_fields()?;
        let bank = self.raw_data.decode_bank()?;
        self.add_to_save_map("bank", bank);
        let player = self.raw_data.decode_player()?;
        let enemy = self.raw_data.decode_enemy(true)?;
        let base_manager = self.raw_data.decode_base_manager(player, enemy)?;
        self.add_to_save_map("combat_manager.base_manager", base_manager);
        let combat_manager = decode_combat_manager(&mut self.raw_data)?;
        self.add_to_save_map("combat_manager", combat_manager);
        let raid_manager = self.raw_data.decode_raid_manager()?;
        self.add_to_save_map("raid_manager", raid_manager);
        Some(())
    }

    /// Decodes a whole save from its decompressed bytes. The returned reader holds the
    /// header buffer and the data buffer of `data`, each where decoding left it. Data that
    /// ends early, even within the six bytes of the magic, and a timestamp that is NaN or
    /// infinite give `Malformed`.
    pub fn read_save(data: Vec<u8>) -> (res: Result<MelvorSaveReader, ReadSaveError>)
        ensures
            match parse_save(data@) {
                Ok(v) => res matches Ok(reader) && reader@ == v,
                Err(e) => res matches Err(err) && err == e,
            },
    {
        let mut combined_reader = BinaryReader::new(data);
        match combined_reader.validate_file_is_melvor_save() {
            None => return Err(ReadSaveError::Malformed),
            Some(false) => return Err(ReadSaveError::NotAMelvorSave),
            Some(true) => {},
        }
        let header_data = match combined_reader.read_buffer() {
            Some(b) => b,
            None => return Err(ReadSaveError::Malformed),
        };
        let raw_data = match combined_reader.read_buffer() {
            Some(b) => b,
            None => return Err(ReadSaveError::Malformed),
        };
        let mut save_reader = MelvorSaveReader {
            header: BinaryReader::new(header_data),
            raw_data: BinaryReader::new(raw_data),
            save_map: Object::new(),
            header_map: HeaderMap::new(),
            header_version: 0,
        };
        let header_map = match save_reader.read_header_map() {
            Some(h) => h,
            None => return Err(ReadSaveError::Malformed),
        };
        let numeric_to_string_id_map = build_numeric_to_string_id_map(&header_map);
        save_reader.raw_data.numeric_to_string_id_map = numeric_to_string_id_map;
        save_reader.header_map = header_map;
        let header_version = match save_reader.header.read_uint32() {
            Some(v) => v,
            None => return Err(ReadSaveError::Malformed),
        };
        save_reader.header_version = header_version;
        match save_reader.read_save_map() {
            Some(()) => Ok(save_reader),
            None => Err(ReadSaveError::Malformed),
        }
    }
}


/// Once a read has failed, this one fails too.
pub broadcast proof fn lemma_combat_manager_failure_stays(src: Src)
    ensures
        (#[trigger] parse_combat_manager(src, None)).1 is None,
{
    reveal(parse_combat_manager);
}


/// Once a read has failed, this one fails too.
pub broadcast proof fn lemma_save_fields_failure_stays(m: Seq<(Seq<char>, ValueView)>, src: Src)
    ensures
        (#[trigger] parse_save_fields(m, src, None)).1 is None,
{
    reveal(parse_save_fields);
}


} // verus!
