//! The reading primitives of the save format: big-endian integers, length-prefixed
//! strings and buffers, sets, vectors, maps and namespaced objects.
//!
//! Every read is specified by a parser over the save bytes: a function from the
//! source and a position to a result and the next position, where position `None`
//! means that the read failed (it ran past the end of the data). A failed read
//! makes every later read fail too.
use vstd::prelude::*;

use crate::save_reader::NamespacedObject;
use crate::text::{decimal, text_from_bytes, text_of_bytes};
use crate::value::{assoc_insert, values_view, Object, Value, ValueView};

verus! {

/// What a reader decodes from: the save bytes, and the text ids of the numeric ids.
pub struct Src {
    pub bytes: Seq<u8>,
    pub ids: Map<u16, Seq<char>>,
}

/// The state of a reader: its source and the offset of the next byte to read.
pub struct ReaderView {
    pub src: Src,
    pub offset: int,
}

/// A position in the save bytes; `None` once a read has failed.
pub type Pos = Option<int>;

/// A read from state `before` to state `after` returned `res`, as `expect` says:
/// the source is unchanged; where `expect` ends at a position, the read succeeded
/// with the expected value and moved to that position, and otherwise it failed.
pub open spec fn yields<T: View>(
    before: ReaderView,
    after: ReaderView,
    res: Option<T>,
    expect: (T::V, Pos),
) -> bool {
    &&& after.src == before.src
    &&& match expect.1 {
        Some(p) => res is Some && res.unwrap()@ == expect.0 && after.offset == p,
        None => res is None,
    }
}

/// As `yields`, for a read that returns a sequence of values.
pub open spec fn yields_values(
    before: ReaderView,
    after: ReaderView,
    res: Option<Vec<Value>>,
    expect: (Seq<ValueView>, Pos),
) -> bool {
    &&& after.src == before.src
    &&& match expect.1 {
        Some(p) => res is Some && values_view(res.unwrap()@) == expect.0 && after.offset == p,
        None => res is None,
    }
}

/// The `n` bytes at `pos`.
pub open spec fn parse_bytes(src: Src, pos: Pos, n: int) -> (Seq<u8>, Pos) {
    match pos {
        Some(p) => if 0 <= p && 0 <= n && p + n <= src.bytes.len() {
            (src.bytes.subrange(p, p + n), Some(p + n))
        } else {
            (Seq::empty(), None)
        },
        None => (Seq::empty(), None),
    }
}

/// Moving `n` bytes on; the position may pass the end of the data, and only a later
/// read fails then.
pub open spec fn parse_skip(pos: Pos, n: int) -> Pos {
    match pos {
        Some(p) => if 0 <= p && p + n <= usize::MAX {
            Some(p + n)
        } else {
            None
        },
        None => None,
    }
}

pub open spec fn be_u16(b: Seq<u8>) -> u16 {
    (b[0] * 0x100 + b[1]) as u16
}

pub open spec fn be_u32(b: Seq<u8>) -> u32 {
    (b[0] * 0x1000000 + b[1] * 0x10000 + b[2] * 0x100 + b[3]) as u32
}

pub open spec fn be_u64(b: Seq<u8>) -> u64 {
    (b[0] * 0x100000000000000 + b[1] * 0x1000000000000 + b[2] * 0x10000000000 + b[3]
        * 0x100000000 + b[4] * 0x1000000 + b[5] * 0x10000 + b[6] * 0x100 + b[7]) as u64
}

pub open spec fn parse_u8(src: Src, pos: Pos) -> (u8, Pos) {
    let (b, p) = parse_bytes(src, pos, 1);
    (b[0], p)
}

pub open spec fn parse_u16(src: Src, pos: Pos) -> (u16, Pos) {
    let (b, p) = parse_bytes(src, pos, 2);
    (be_u16(b), p)
}

pub open spec fn parse_u32(src: Src, pos: Pos) -> (u32, Pos) {
    let (b, p) = parse_bytes(src, pos, 4);
    (be_u32(b), p)
}

/// A big-endian IEEE 754 double, by its bit pattern.
pub open spec fn parse_f64_bits(src: Src, pos: Pos) -> (u64, Pos) {
    let (b, p) = parse_bytes(src, pos, 8);
    (be_u64(b), p)
}

/// A boolean is a byte; only `1` is true.
pub open spec fn parse_bool(src: Src, pos: Pos) -> (bool, Pos) {
    let (b, p) = parse_u8(src, pos);
    (b == 1, p)
}

/// A `u32` length, then that many bytes.
pub open spec fn parse_buffer(src: Src, pos: Pos) -> (Seq<u8>, Pos) {
    let (n, p) = parse_u32(src, pos);
    parse_bytes(src, p, n as int)
}

/// A length-prefixed UTF-8 string; invalid UTF-8 reads as the empty string.
pub open spec fn parse_string(src: Src, pos: Pos) -> (Seq<char>, Pos) {
    let (b, p) = parse_buffer(src, pos);
    (text_of_bytes(b), p)
}

/// The text id registered for a numeric id.
pub open spec fn text_id_of(src: Src, id: u16) -> Option<Seq<char>> {
    if src.ids.contains_key(id) {
        Some(src.ids[id])
    } else {
        None
    }
}

/// The model of a namespaced object: its numeric id and, where registered, its text id.
pub type NamespacedView = (u16, Option<Seq<char>>);

/// A namespaced object is a `u16` id, named through the source's id table.
pub open spec fn parse_namespaced(src: Src, pos: Pos) -> (NamespacedView, Pos) {
    let (id, p) = parse_u16(src, pos);
    ((id, text_id_of(src, id)), p)
}

/// The name of a namespaced object: its text id, or else its numeric id in decimal.
pub open spec fn namespaced_name(o: NamespacedView) -> Seq<char> {
    match o.1 {
        Some(t) => t,
        None => decimal(o.0 as nat),
    }
}

/// A namespaced object as a value: `{"id": .., "text_id": ..}`, the text id only where
/// there is one.
pub open spec fn namespaced_value(o: NamespacedView) -> ValueView {
    let m = assoc_insert(Seq::empty(), "id"@, ValueView::UInt(o.0 as u64));
    match o.1 {
        Some(t) => ValueView::Object(assoc_insert(m, "text_id"@, ValueView::Str(t))),
        None => ValueView::Object(m),
    }
}

/// What an element decoder reads, as a parser.
pub trait DecodeSpec {
    spec fn spec_decode(&self, src: Src, pos: Pos) -> (ValueView, Pos);
}

/// What a key decoder reads, as a parser.
pub trait KeySpec {
    spec fn spec_key(&self, src: Src, pos: Pos) -> (Seq<char>, Pos);
}

/// Reads one element of a set, a vector or a map from a reader of type `R`.
pub trait ElementDecoder<R: View<V = ReaderView> + ?Sized>: DecodeSpec {
    fn decode(&self, r: &mut R) -> (res: Option<Value>)
        ensures
            yields(old(r)@, final(r)@, res, self.spec_decode(old(r)@.src, Some(old(r)@.offset))),
    ;
}

/// Reads the key of a map entry from a reader of type `R`.
pub trait KeyDecoder<R: View<V = ReaderView> + ?Sized>: KeySpec {
    fn decode_key(&self, r: &mut R) -> (res: Option<String>)
        ensures
            yields(old(r)@, final(r)@, res, self.spec_key(old(r)@.src, Some(old(r)@.offset))),
    ;
}

/// `n` elements, one after the other.
pub open spec fn parse_repeat<D: DecodeSpec>(d: D, src: Src, pos: Pos, n: nat) -> (
    Seq<ValueView>,
    Pos,
)
    decreases n,
{
    if n == 0 {
        (Seq::empty(), pos)
    } else {
        let (items, p) = parse_repeat(d, src, pos, (n - 1) as nat);
        match p {
            Some(_) => {
                let (v, q) = d.spec_decode(src, p);
                (items.push(v), q)
            },
            None => (items, None),
        }
    }
}

/// A `u32` count, then that many elements.
pub open spec fn parse_vector<D: DecodeSpec>(d: D, src: Src, pos: Pos) -> (Seq<ValueView>, Pos) {
    let (n, p) = parse_u32(src, pos);
    match p {
        Some(_) => parse_repeat(d, src, p, n as nat),
        None => (Seq::empty(), None),
    }
}

/// `n` map entries, each a key then a value, inserted into an object in order.
pub open spec fn parse_entries<K: KeySpec, D: DecodeSpec>(
    k: K,
    d: D,
    src: Src,
    pos: Pos,
    n: nat,
) -> (Seq<(Seq<char>, ValueView)>, Pos)
    decreases n,
{
    if n == 0 {
        (Seq::empty(), pos)
    } else {
        let (m, p) = parse_entries(k, d, src, pos, (n - 1) as nat);
        match p {
            Some(_) => {
                let (key, p1) = k.spec_key(src, p);
                match p1 {
                    Some(_) => {
                        let (v, p2) = d.spec_decode(src, p1);
                        (assoc_insert(m, key, v), p2)
                    },
                    None => (m, None),
                }
            },
            None => (m, None),
        }
    }
}

/// A `u32` count, then that many map entries.
pub open spec fn parse_map<K: KeySpec, D: DecodeSpec>(k: K, d: D, src: Src, pos: Pos) -> (
    Seq<(Seq<char>, ValueView)>,
    Pos,
) {
    let (n, p) = parse_u32(src, pos);
    match p {
        Some(_) => parse_entries(k, d, src, p, n as nat),
        None => (Seq::empty(), None),
    }
}

/// Once the elements fail, more elements fail too.
pub proof fn lemma_repeat_failure_stays<D: DecodeSpec>(d: D, src: Src, pos: Pos, i: nat, n: nat)
    requires
        i <= n,
        parse_repeat(d, src, pos, i).1 is None,
    ensures
        parse_repeat(d, src, pos, n).1 is None,
    decreases n,
{
    if n > i {
        lemma_repeat_failure_stays(d, src, pos, i, (n - 1) as nat);
    }
}

/// Once the entries fail, more entries fail too.
pub proof fn lemma_entries_failure_stays<K: KeySpec, D: DecodeSpec>(
    k: K,
    d: D,
    src: Src,
    pos: Pos,
    i: nat,
    n: nat,
)
    requires
        i <= n,
        parse_entries(k, d, src, pos, i).1 is None,
    ensures
        parse_entries(k, d, src, pos, n).1 is None,
    decreases n,
{
    if n > i {
        lemma_entries_failure_stays(k, d, src, pos, i, (n - 1) as nat);
    }
}

/// A reader's position in its data.
pub trait ByteOffset: View<V = ReaderView> {
    fn get_byte_offset(&self) -> (offset: usize)
        ensures
            offset == self@.offset,
    ;

    fn increment_byte_offset(&mut self, increment: usize)
        requires
            old(self)@.offset + increment <= usize::MAX,
        ensures
            final(self)@.src == old(self)@.src,
            final(self)@.offset == old(self)@.offset + increment,
    ;
}

/// A reader's data.
pub trait Buffer: View<V = ReaderView> {
    /// The length of the data.
    fn buffer_len(&self) -> (len: usize)
        ensures
            len == self@.src.bytes.len(),
    ;

    /// The bytes from `start` up to `end`.
    fn get_slice(&mut self, start: usize, end: usize) -> (slice: Vec<u8>)
        requires
            start <= end <= old(self)@.src.bytes.len(),
        ensures
            final(self)@ == old(self)@,
            slice@ == old(self)@.src.bytes.subrange(start as int, end as int),
    ;
}

/// A reader's table from numeric ids to text ids.
pub trait HasNumericToStringIdMap: View<V = ReaderView> {
    fn map_numeric_to_string_id(&self, id: &u16) -> (text_id: Option<String>)
        ensures
            match text_id {
                Some(t) => text_id_of(self@.src, *id) == Some(t@),
                None => text_id_of(self@.src, *id) is None,
            },
    ;
}

pub trait BufferReader: Buffer + ByteOffset {
    /// The next `size` bytes; fails where fewer are left.
    fn read_buffer_by_size(&mut self, size: usize) -> (res: Option<Vec<u8>>)
        ensures
            yields(old(self)@, final(self)@, res, parse_bytes(old(self)@.src, Some(old(self)@.offset), size as int)),
    {
        let start = self.get_byte_offset();
        let len = self.buffer_len();
        if start > len || size > len - start {
            return None;
        }
        let end = start + size;
        let buffer = self.get_slice(start, end);
        self.increment_byte_offset(size);
        Some(buffer)
    }

    /// Moves `size` bytes on; fails only where the offset would pass `usize::MAX`.
    fn skip(&mut self, size: usize) -> (res: Option<()>)
        ensures
            final(self)@.src == old(self)@.src,
            match parse_skip(Some(old(self)@.offset), size as int) {
                Some(p) => res is Some && final(self)@.offset == p,
                None => res is None,
            },
    {
        let start = self.get_byte_offset();
        if size > usize::MAX - start {
            return None;
        }
        self.increment_byte_offset(size);
        Some(())
    }
}

pub trait DataReaders: BufferReader + HasNumericToStringIdMap {
    fn read_uint8(&mut self) -> (res: Option<u8>)
        ensures
            yields(old(self)@, final(self)@, res, parse_u8(old(self)@.src, Some(old(self)@.offset))),
    {
        let buffer = self.read_buffer_by_size(1)?;
        Some(buffer[0])
    }

    fn read_uint16(&mut self) -> (res: Option<u16>)
        ensures
            yields(old(self)@, final(self)@, res, parse_u16(old(self)@.src, Some(old(self)@.offset))),
    {
        let buffer = self.read_buffer_by_size(2)?;
        Some((buffer[0] as u16) * 0x100 + buffer[1] as u16)
    }

    fn read_uint32(&mut self) -> (res: Option<u32>)
        ensures
            yields(old(self)@, final(self)@, res, parse_u32(old(self)@.src, Some(old(self)@.offset))),
    {
        let buffer = self.read_buffer_by_size(4)?;
        Some(
            (buffer[0] as u32) * 0x1000000 + (buffer[1] as u32) * 0x10000 + (buffer[2] as u32)
                * 0x100 + buffer[3] as u32,
        )
    }

    /// A big-endian double, returned by its bit pattern.
    fn read_float64(&mut self) -> (res: Option<u64>)
        ensures
            yields(old(self)@, final(self)@, res, parse_f64_bits(old(self)@.src, Some(old(self)@.offset))),
    {
        let b = self.read_buffer_by_size(8)?;
        Some(
            (b[0] as u64) * 0x100000000000000 + (b[1] as u64) * 0x1000000000000 + (b[2] as u64)
                * 0x10000000000 + (b[3] as u64) * 0x100000000 + (b[4] as u64) * 0x1000000
                + (b[5] as u64) * 0x10000 + (b[6] as u64) * 0x100 + b[7] as u64,
        )
    }

    fn read_string(&mut self) -> (res: Option<String>)
        ensures
            yields(old(self)@, final(self)@, res, parse_string(old(self)@.src, Some(old(self)@.offset))),
    {
        let buffer = self.read_buffer()?;
        Some(text_from_bytes(buffer))
    }

    fn read_buffer(&mut self) -> (res: Option<Vec<u8>>)
        ensures
            yields(old(self)@, final(self)@, res, parse_buffer(old(self)@.src, Some(old(self)@.offset))),
    {
        let size = self.read_uint32()?;
        self.read_buffer_by_size(size as usize)
    }

    fn read_bool(&mut self) -> (res: Option<bool>)
        ensures
            yields(old(self)@, final(self)@, res, parse_bool(old(self)@.src, Some(old(self)@.offset))),
    {
        let b = self.read_uint8()?;
        Some(b == 1)
    }

    /// A set is stored as a vector.
    fn read_set<D: ElementDecoder<Self>>(&mut self, read_value: &D) -> (res: Option<Vec<Value>>)
        ensures
            yields_values(old(self)@, final(self)@, res, parse_vector(*read_value, old(self)@.src, Some(old(self)@.offset))),
    {
        self.read_vector(read_value)
    }

    fn read_vector<D: ElementDecoder<Self>>(&mut self, read_value: &D) -> (res: Option<Vec<Value>>)
        ensures
            yields_values(old(self)@, final(self)@, res, parse_vector(*read_value, old(self)@.src, Some(old(self)@.offset))),
    {
        let ghost src = self@.src;
        let vector_size = self.read_uint32()?;
        let ghost start = Some(self@.offset);
        let mut vector: Vec<Value> = Vec::new();
        let mut i: u32 = 0;
        while i < vector_size
            invariant
                self@.src == src,
                src == old(self)@.src,
                parse_vector(*read_value, src, Some(old(self)@.offset)) == parse_repeat(*read_value, src, start, vector_size as nat),
                0 <= i <= vector_size,
                parse_repeat(*read_value, src, start, i as nat) == (values_view(vector@), Some(self@.offset)),
            decreases vector_size - i,
        {
            let value = match read_value.decode(self) {
                Some(v) => v,
                None => {
                    proof {
                        lemma_repeat_failure_stays(*read_value, src, start, (i + 1) as nat, vector_size as nat);
                    }
                    return None;
                },
            };
            proof {
                assert(values_view(vector@.push(value)) =~= values_view(vector@).push(value@));
            }
            vector.push(value);
            i = i + 1;
        }
        Some(vector)
    }

    fn read_value_map_key<K: KeyDecoder<Self>, D: ElementDecoder<Self>>(
        &mut self,
        read_key: &K,
        read_value: &D,
    ) -> (res: Option<Object>)
        ensures
            yields(old(self)@, final(self)@, res, parse_map(*read_key, *read_value, old(self)@.src, Some(old(self)@.offset))),
    {
        let ghost src = self@.src;
        let map_size = self.read_uint32()?;
        let ghost start = Some(self@.offset);
        let mut map = Object::new();
        let mut i: u32 = 0;
        while i < map_size
            invariant
                self@.src == src,
                src == old(self)@.src,
                parse_map(*read_key, *read_value, src, Some(old(self)@.offset)) == parse_entries(*read_key, *read_value, src, start, map_size as nat),
                0 <= i <= map_size,
                parse_entries(*read_key, *read_value, src, start, i as nat) == (map@, Some(self@.offset)),
            decreases map_size - i,
        {
            let key = match read_key.decode_key(self) {
                Some(k) => k,
                None => {
                    proof {
                        lemma_entries_failure_stays(*read_key, *read_value, src, start, (i + 1) as nat, map_size as nat);
                    }
                    return None;
                },
            };
            let value = match read_value.decode(self) {
                Some(v) => v,
                None => {
                    proof {
                        lemma_entries_failure_stays(*read_key, *read_value, src, start, (i + 1) as nat, map_size as nat);
                    }
                    return None;
                },
            };
            map.insert(key, value);
            i = i + 1;
        }
        Some(map)
    }

    fn read_namespaced_object(&mut self) -> (res: Option<NamespacedObject>)
        ensures
            yields(old(self)@, final(self)@, res, parse_namespaced(old(self)@.src, Some(old(self)@.offset))),
    {
        let id = self.read_uint16()?;
        let text_id = self.map_numeric_to_string_id(&id);
        Some(NamespacedObject { id, text_id })
    }
}

} // verus!
