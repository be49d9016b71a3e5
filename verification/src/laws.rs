//! Properties of the save format that hold across its readers: what a read gives back of
//! bytes written in the format, how numeric ids are named, and how a save is recognized.
use vstd::prelude::*;
use vstd::utf8::{
    decode_utf8_encode_utf8, encode_utf8, encode_utf8_decode_utf8,
    encode_utf8_valid_utf8, is_ascii_chars, is_ascii_chars_encode_utf8, valid_utf8,
};

use crate::save_reader::{
    add_namespace_ids, id_names, id_names_upto, id_text, parse_magic, parse_optional_u16,
    parse_save_fields,
};
use crate::text::{decimal, digit_char, text_of_bytes};
use crate::traits::character_decoder::{effect_source_name, parse_known_effect};
use crate::traits::raid_manager_decoder::{
    item_category_name, parse_items_being_selected, SelectionElement,
};
use crate::traits::stat_decoder::{
    parse_mapped_entries, parse_stat_entries, parse_stat_tracker, parse_stats, parse_stats_upto,
    parse_stat_key, parse_subject_stats, stat_skills,
};
use crate::traits::settings_decoder::{settings_fields, SettingKind};
use crate::traits::read::{
    be_u16, be_u32, be_u64, parse_bool, parse_f64_bits, parse_string, parse_u16, parse_u32,
    parse_u8, parse_vector, Src,
};
use crate::value::{
    assoc_get, assoc_insert, float_view, is_finite_bits, law_get_after_insert,
    law_insert_keeps_other_keys, lemma_assoc_insert_at, ValueView,
};

verus! {

/// The big-endian bytes of a `u16`.
pub open spec fn be_bytes_u16(n: u16) -> Seq<u8> {
    seq![(n / 0x100) as u8, (n % 0x100) as u8]
}

/// The big-endian bytes of a `u32`.
pub open spec fn be_bytes_u32(n: u32) -> Seq<u8> {
    seq![
        (n / 0x1000000) as u8,
        ((n / 0x10000) % 0x100) as u8,
        ((n / 0x100) % 0x100) as u8,
        (n % 0x100) as u8,
    ]
}

/// The big-endian bytes of a `u64`.
pub open spec fn be_bytes_u64(n: u64) -> Seq<u8> {
    seq![
        (n / 0x100000000000000) as u8,
        ((n / 0x1000000000000) % 0x100) as u8,
        ((n / 0x10000000000) % 0x100) as u8,
        ((n / 0x100000000) % 0x100) as u8,
        ((n / 0x1000000) % 0x100) as u8,
        ((n / 0x10000) % 0x100) as u8,
        ((n / 0x100) % 0x100) as u8,
        (n % 0x100) as u8,
    ]
}

/// The bytes of a string field: its UTF-8 length as a big-endian `u32`, then its UTF-8.
pub open spec fn string_field_bytes(s: Seq<char>) -> Seq<u8> {
    be_bytes_u32(encode_utf8(s).len() as u32) + encode_utf8(s)
}

/// The number that a sequence of decimal digits stands for.
pub open spec fn digits_value(s: Seq<char>) -> nat
    decreases s.len(),
{
    if s.len() == 0 {
        0
    } else {
        digits_value(s.drop_last()) * 10 + ((s.last() as nat) - 48) as nat
    }
}

proof fn lemma_u16_bytes(n: u16)
    ensures
        be_u16(be_bytes_u16(n)) == n,
{
    let b = be_bytes_u16(n);
    assert(b[0] == n / 0x100 && b[1] == n % 0x100);
    assert((n / 0x100) * 0x100 + n % 0x100 == n) by (nonlinear_arith);
}

proof fn lemma_u32_bytes(n: u32)
    ensures
        be_u32(be_bytes_u32(n)) == n,
{
    let b = be_bytes_u32(n);
    assert(b[0] == n / 0x1000000);
    assert(b[1] == (n / 0x10000) % 0x100);
    assert(b[2] == (n / 0x100) % 0x100);
    assert(b[3] == n % 0x100);
    assert((n / 0x1000000) * 0x1000000 + ((n / 0x10000) % 0x100) * 0x10000 + ((n / 0x100) % 0x100)
        * 0x100 + n % 0x100 == n) by (bit_vector);
}

proof fn lemma_u64_bytes(n: u64)
    ensures
        be_u64(be_bytes_u64(n)) == n,
{
    let b = be_bytes_u64(n);
    assert(b[0] == n / 0x100000000000000);
    assert(b[1] == (n / 0x1000000000000) % 0x100);
    assert(b[2] == (n / 0x10000000000) % 0x100);
    assert(b[3] == (n / 0x100000000) % 0x100);
    assert(b[4] == (n / 0x1000000) % 0x100);
    assert(b[5] == (n / 0x10000) % 0x100);
    assert(b[6] == (n / 0x100) % 0x100);
    assert(b[7] == n % 0x100);
    assert((n / 0x100000000000000) * 0x100000000000000 + ((n / 0x1000000000000) % 0x100)
        * 0x1000000000000 + ((n / 0x10000000000) % 0x100) * 0x10000000000 + ((n / 0x100000000)
        % 0x100) * 0x100000000 + ((n / 0x1000000) % 0x100) * 0x1000000 + ((n / 0x10000) % 0x100)
        * 0x10000 + ((n / 0x100) % 0x100) * 0x100 + n % 0x100 == n) by (bit_vector);
}

/// Reading a `u16` gives back the number whose big-endian bytes stand at the position,
/// and moves two bytes on.
pub proof fn law_u16_read_after_write(src: Src, p: int, n: u16)
    requires
        0 <= p,
        p + 2 <= src.bytes.len(),
        src.bytes.subrange(p, p + 2) == be_bytes_u16(n),
    ensures
        parse_u16(src, Some(p)) == (n, Some(p + 2)),
{
    lemma_u16_bytes(n);
}

/// Reading a `u32` gives back the number whose big-endian bytes stand at the position,
/// and moves four bytes on.
pub proof fn law_u32_read_after_write(src: Src, p: int, n: u32)
    requires
        0 <= p,
        p + 4 <= src.bytes.len(),
        src.bytes.subrange(p, p + 4) == be_bytes_u32(n),
    ensures
        parse_u32(src, Some(p)) == (n, Some(p + 4)),
{
    lemma_u32_bytes(n);
}

/// Reading a double gives back the bit pattern whose big-endian bytes stand at the
/// position, and moves eight bytes on.
pub proof fn law_f64_read_after_write(src: Src, p: int, bits: u64)
    requires
        0 <= p,
        p + 8 <= src.bytes.len(),
        src.bytes.subrange(p, p + 8) == be_bytes_u64(bits),
    ensures
        parse_f64_bits(src, Some(p)) == (bits, Some(p + 8)),
{
    lemma_u64_bytes(bits);
}

/// Reading a boolean gives back `true` exactly for the byte `1`, and moves one byte on.
pub proof fn law_bool_read(src: Src, p: int)
    requires
        0 <= p,
        p + 1 <= src.bytes.len(),
    ensures
        parse_bool(src, Some(p)) == (src.bytes[p] == 1, Some(p + 1)),
{
    assert(src.bytes.subrange(p, p + 1)[0] == src.bytes[p]);
}

/// Reading a string gives back the string whose field (UTF-8 length, then UTF-8) stands
/// at the position, and moves past the field.
pub proof fn law_string_read_after_write(src: Src, p: int, s: Seq<char>)
    requires
        0 <= p,
        encode_utf8(s).len() <= u32::MAX,
        p + string_field_bytes(s).len() <= src.bytes.len(),
        src.bytes.subrange(p, p + string_field_bytes(s).len()) == string_field_bytes(s),
    ensures
        parse_string(src, Some(p)) == (s, Some(p + string_field_bytes(s).len())),
{
    let e = encode_utf8(s);
    let k = e.len() as u32;
    let field = string_field_bytes(s);
    assert(src.bytes.subrange(p, p + 4) =~= field.subrange(0, 4));
    assert(field.subrange(0, 4) =~= be_bytes_u32(k));
    lemma_u32_bytes(k);
    assert(k as int == e.len());
    assert forall|t: int| 0 <= t < k implies src.bytes.subrange(p + 4, p + 4 + k)[t] == e[t] by {
        assert(src.bytes.subrange(p, p + field.len())[4 + t] == field[4 + t]);
    }
    assert(src.bytes.subrange(p + 4, p + 4 + k) =~= e);
    encode_utf8_valid_utf8(s);
    encode_utf8_decode_utf8(s);
}

proof fn lemma_digit_char(d: nat)
    requires
        d < 10,
    ensures
        digit_char(d) as nat == d + 48,
        '0' <= digit_char(d) <= '9',
{
}

/// The decimal rendering of a number is made of digits, starts with a nonzero digit unless
/// it is `0`, and stands for the number.
pub proof fn law_decimal_reads_back(n: nat)
    ensures
        digits_value(decimal(n)) == n,
        forall|i: int| 0 <= i < decimal(n).len() ==> '0' <= #[trigger] decimal(n)[i] <= '9',
        n >= 10 ==> decimal(n)[0] != '0',
    decreases n,
{
    lemma_digit_char(n % 10);
    if n < 10 {
        assert(decimal(n).drop_last() =~= Seq::<char>::empty());
        assert(digits_value(Seq::<char>::empty()) == 0);
        assert(digits_value(decimal(n)) == 0 * 10 + n);
    } else {
        law_decimal_reads_back(n / 10);
        let d = decimal(n);
        assert(d.drop_last() =~= decimal(n / 10));
        assert(d.last() == digit_char(n % 10));
        assert((n / 10) * 10 + n % 10 == n) by (nonlinear_arith);
        assert(digits_value(d) == digits_value(decimal(n / 10)) * 10 + n % 10);
        assert forall|i: int| 0 <= i < d.len() implies '0' <= #[trigger] d[i] <= '9' by {
            if i < d.len() - 1 {
                assert(d[i] == decimal(n / 10)[i]);
            }
        }
        assert(d[0] == decimal(n / 10)[0]);
        if n / 10 < 10 {
            assert(n / 10 != 0);
        }
    }
}

/// The bytes of the magic `melvor`.
pub open spec fn melvor_magic() -> Seq<u8> {
    seq![0x6du8, 0x65u8, 0x6cu8, 0x76u8, 0x6fu8, 0x72u8]
}

/// A save is recognized exactly when its six bytes at the position are the ASCII bytes of
/// `melvor`.
pub proof fn law_magic_is_melvor_bytes(src: Src, p: int)
    requires
        0 <= p,
        p + 6 <= src.bytes.len(),
    ensures
        parse_magic(src, Some(p)).0 <==> src.bytes.subrange(p, p + 6) == melvor_magic(),
{
    let b = src.bytes.subrange(p, p + 6);
    let m = "melvor"@;
    reveal_strlit("melvor");
    assert(is_ascii_chars(m));
    is_ascii_chars_encode_utf8(m);
    assert(encode_utf8(m) =~= melvor_magic());
    encode_utf8_valid_utf8(m);
    encode_utf8_decode_utf8(m);
    if text_of_bytes(b) == m {
        assert(valid_utf8(b));
        decode_utf8_encode_utf8(b);
    }
}

/// Adding a namespace's ids leaves the name of every other numeric id as it was.
proof fn lemma_namespace_keeps_other_ids(
    acc: Map<u16, Seq<char>>,
    namespace: Seq<char>,
    ids: Seq<(Seq<char>, u16)>,
    j: nat,
    k: u16,
)
    requires
        j <= ids.len(),
        forall|i: int| 0 <= i < j ==> ids[i].1 != k,
    ensures
        add_namespace_ids(acc, namespace, ids, j).contains_key(k) == acc.contains_key(k),
        acc.contains_key(k) ==> add_namespace_ids(acc, namespace, ids, j)[k] == acc[k],
    decreases j,
{
    if j > 0 {
        lemma_namespace_keeps_other_ids(acc, namespace, ids, (j - 1) as nat, k);
    }
}

/// After a namespace's ids are added, an id whose last listing in the namespace is at
/// `jj` is named from that listing.
proof fn lemma_namespace_names_id(
    acc: Map<u16, Seq<char>>,
    namespace: Seq<char>,
    ids: Seq<(Seq<char>, u16)>,
    j: nat,
    jj: int,
)
    requires
        j <= ids.len(),
        0 <= jj < j,
        forall|i: int| jj < i < j ==> ids[i].1 != ids[jj].1,
    ensures
        add_namespace_ids(acc, namespace, ids, j).contains_key(ids[jj].1),
        add_namespace_ids(acc, namespace, ids, j)[ids[jj].1] == id_text(namespace, ids[jj].0),
    decreases j,
{
    if jj < j - 1 {
        lemma_namespace_names_id(acc, namespace, ids, (j - 1) as nat, jj);
    }
}

/// Every numeric id that the header map lists is named; an id is named after its last
/// listing in the header's order, as `namespace:text_id`.
pub proof fn law_header_ids_are_named(
    h: Seq<(Seq<char>, Seq<(Seq<char>, u16)>)>,
    i: int,
    j: int,
)
    requires
        0 <= i < h.len(),
        0 <= j < h[i].1.len(),
        forall|jj: int| j < jj < h[i].1.len() ==> h[i].1[jj].1 != h[i].1[j].1,
        forall|ii: int, jj: int|
            i < ii < h.len() && 0 <= jj < h[ii].1.len() ==> h[ii].1[jj].1 != h[i].1[j].1,
    ensures
        id_names(h).contains_key(h[i].1[j].1),
        id_names(h)[h[i].1[j].1] == id_text(h[i].0, h[i].1[j].0),
{
    lemma_names_upto(h, i, j, h.len());
}

proof fn lemma_names_upto(h: Seq<(Seq<char>, Seq<(Seq<char>, u16)>)>, i: int, j: int, n: nat)
    requires
        0 <= i < n <= h.len(),
        0 <= j < h[i].1.len(),
        forall|jj: int| j < jj < h[i].1.len() ==> h[i].1[jj].1 != h[i].1[j].1,
        forall|ii: int, jj: int|
            i < ii < h.len() && 0 <= jj < h[ii].1.len() ==> h[ii].1[jj].1 != h[i].1[j].1,
    ensures
        id_names_upto(h, n).contains_key(h[i].1[j].1),
        id_names_upto(h, n)[h[i].1[j].1] == id_text(h[i].0, h[i].1[j].0),
    decreases n,
{
    let k = h[i].1[j].1;
    if i == n - 1 {
        lemma_namespace_names_id(id_names_upto(h, (n - 1) as nat), h[i].0, h[i].1, h[i].1.len(), j);
    } else {
        lemma_names_upto(h, i, j, (n - 1) as nat);
        let last = h[n - 1];
        assert forall|jj: int| 0 <= jj < last.1.len() implies last.1[jj].1 != k by {
            assert(h[n - 1].1[jj].1 != k);
        }
        lemma_namespace_keeps_other_ids(id_names_upto(h, (n - 1) as nat), last.0, last.1, last.1.len(), k);
    }
}

/// Only the numeric ids that the header map lists are named.
pub proof fn law_named_ids_are_listed(h: Seq<(Seq<char>, Seq<(Seq<char>, u16)>)>, k: u16)
    requires
        id_names(h).contains_key(k),
    ensures
        exists|i: int, j: int| 0 <= i < h.len() && 0 <= j < h[i].1.len() && h[i].1[j].1 == k,
{
    lemma_listed_upto(h, k, h.len());
}

proof fn lemma_listed_upto(h: Seq<(Seq<char>, Seq<(Seq<char>, u16)>)>, k: u16, n: nat)
    requires
        n <= h.len(),
        id_names_upto(h, n).contains_key(k),
    ensures
        exists|i: int, j: int| 0 <= i < n && 0 <= j < h[i].1.len() && h[i].1[j].1 == k,
    decreases n,
{
    if n > 0 {
        let last = h[n - 1];
        if exists|j: int| 0 <= j < last.1.len() && last.1[j].1 == k {
            let j = choose|j: int| 0 <= j < last.1.len() && last.1[j].1 == k;
            assert(h[n - 1].1[j].1 == k);
        } else {
            lemma_namespace_keeps_other_ids(id_names_upto(h, (n - 1) as nat), last.0, last.1, last.1.len(), k);
            lemma_listed_upto(h, k, (n - 1) as nat);
        }
    }
}

/// Whether the stats under key `k` are read without the id table: all but those of items
/// and monsters, which are kept per namespaced object.
pub open spec fn reads_no_ids(k: Seq<char>) -> bool {
    k != "items"@ && k != "monster"@
}

/// Two sets of stats with the same keys in the same order, and the same value under every
/// key whose stats are read without the id table.
pub open spec fn same_but_mapped(
    ma: Seq<(Seq<char>, ValueView)>,
    mb: Seq<(Seq<char>, ValueView)>,
) -> bool {
    &&& ma.len() == mb.len()
    &&& forall|i: int|
        0 <= i < ma.len() ==> #[trigger] ma[i].0 == mb[i].0 && (reads_no_ids(ma[i].0) ==> ma[i].1
            == mb[i].1)
}

proof fn lemma_insert_same_but_mapped(
    ma: Seq<(Seq<char>, ValueView)>,
    mb: Seq<(Seq<char>, ValueView)>,
    k: Seq<char>,
    va: ValueView,
    vb: ValueView,
)
    requires
        same_but_mapped(ma, mb),
        reads_no_ids(k) ==> va == vb,
    ensures
        same_but_mapped(assoc_insert(ma, k, va), assoc_insert(mb, k, vb)),
    decreases ma.len(),
{
    if ma.len() == 0 {
    } else if ma[0].0 == k {
        assert(mb[0].0 == k);
    } else {
        assert(mb[0].0 == ma[0].0);
        let ra = ma.drop_first();
        let rb = mb.drop_first();
        assert forall|i: int| 0 <= i < ra.len() implies #[trigger] ra[i].0 == rb[i].0 && (
        reads_no_ids(ra[i].0) ==> ra[i].1 == rb[i].1) by {
            assert(ma[i + 1].0 == mb[i + 1].0);
        }
        lemma_insert_same_but_mapped(ra, rb, k, va, vb);
        let xa = assoc_insert(ma, k, va);
        let xb = assoc_insert(mb, k, vb);
        assert forall|i: int| 0 <= i < xa.len() implies #[trigger] xa[i].0 == xb[i].0 && (
        reads_no_ids(xa[i].0) ==> xa[i].1 == xb[i].1) by {
            if i > 0 {
                assert(assoc_insert(ra, k, va)[i - 1].0 == assoc_insert(rb, k, vb)[i - 1].0);
            }
        }
    }
}

proof fn lemma_get_same_but_mapped(
    ma: Seq<(Seq<char>, ValueView)>,
    mb: Seq<(Seq<char>, ValueView)>,
    k: Seq<char>,
)
    requires
        same_but_mapped(ma, mb),
        reads_no_ids(k),
    ensures
        assoc_get(ma, k) == assoc_get(mb, k),
    decreases ma.len(),
{
    if ma.len() > 0 {
        assert(ma[0].0 == mb[0].0);
        let ra = ma.drop_first();
        let rb = mb.drop_first();
        assert forall|i: int| 0 <= i < ra.len() implies #[trigger] ra[i].0 == rb[i].0 && (
        reads_no_ids(ra[i].0) ==> ra[i].1 == rb[i].1) by {
            assert(ma[i + 1].0 == mb[i + 1].0);
        }
        lemma_get_same_but_mapped(ra, rb, k);
    }
}

proof fn lemma_stat_entries_read_no_ids(
    names: Seq<&str>,
    a: Src,
    b: Src,
    pos: Option<int>,
    n: nat,
)
    requires
        a.bytes == b.bytes,
    ensures
        parse_stat_entries(names, a, pos, n) == parse_stat_entries(names, b, pos, n),
    decreases n,
{
    if n > 0 {
        lemma_stat_entries_read_no_ids(names, a, b, pos, (n - 1) as nat);
    }
}

proof fn lemma_stat_tracker_reads_no_ids(names: Seq<&str>, a: Src, b: Src, pos: Option<int>)
    requires
        a.bytes == b.bytes,
    ensures
        parse_stat_tracker(names, a, pos) == parse_stat_tracker(names, b, pos),
{
    let (n, p) = parse_u32(a, pos);
    if p is Some {
        lemma_stat_entries_read_no_ids(names, a, b, p, n as nat);
    }
}

proof fn lemma_mapped_entries_positions(
    names: Seq<&str>,
    a: Src,
    b: Src,
    pos: Option<int>,
    n: nat,
)
    requires
        a.bytes == b.bytes,
    ensures
        parse_mapped_entries(names, a, pos, n).1 == parse_mapped_entries(names, b, pos, n).1,
    decreases n,
{
    if n > 0 {
        lemma_mapped_entries_positions(names, a, b, pos, (n - 1) as nat);
        let p = parse_mapped_entries(names, a, pos, (n - 1) as nat).1;
        if p is Some {
            let p1 = parse_u16(a, p).1;
            assert(p1 == parse_u16(b, p).1);
            lemma_stat_tracker_reads_no_ids(names, a, b, p1);
        }
    }
}

proof fn lemma_stats_upto_read_no_ids(a: Src, b: Src, pos: Option<int>, n: nat)
    requires
        a.bytes == b.bytes,
        n <= stat_skills().len(),
    ensures
        parse_stats_upto(a, pos, n).1 == parse_stats_upto(b, pos, n).1,
        same_but_mapped(parse_stats_upto(a, pos, n).0, parse_stats_upto(b, pos, n).0),
    decreases n,
{
    if n > 0 {
        lemma_stats_upto_read_no_ids(a, b, pos, (n - 1) as nat);
        let (ma, p) = parse_stats_upto(a, pos, (n - 1) as nat);
        let mb = parse_stats_upto(b, pos, (n - 1) as nat).0;
        if p is Some {
            let skill = stat_skills()[n - 1];
            let names = skill.1;
            lemma_stat_tracker_reads_no_ids(names, a, b, p);
            let (c, q) = parse_u32(a, p);
            assert(parse_u32(b, p) == (c, q));
            if q is Some {
                lemma_mapped_entries_positions(names, a, b, q, c as nat);
            }
            let va = parse_subject_stats(skill.0, names, a, p);
            let vb = parse_subject_stats(skill.0, names, b, p);
            assert(va.1 == vb.1);
            lemma_insert_same_but_mapped(ma, mb, skill.0@, va.0, vb.0);
        }
    }
}

/// The stats of a save are read from the bytes alone, but for those of items and
/// monsters, which are named through the id table: with two id tables over the same bytes,
/// reading the stats ends at the same position, gives the same keys in the same order, and
/// the same value under every key but `items` and `monster`.
pub proof fn law_stats_ignore_ids_but_items_and_monsters(a: Src, b: Src, pos: Option<int>, k: Seq<char>)
    requires
        a.bytes == b.bytes,
    ensures
        parse_stats(a, pos).1 == parse_stats(b, pos).1,
        parse_stats(a, pos).0 matches ValueView::Object(ma) && parse_stats(b, pos).0 matches ValueView::Object(mb)
            && same_but_mapped(ma, mb),
        parse_stats(a, pos).0 matches ValueView::Object(ma) && parse_stats(b, pos).0 matches ValueView::Object(mb)
            && (reads_no_ids(k) ==> assoc_get(ma, k) == assoc_get(mb, k)),
{
    lemma_stats_upto_read_no_ids(a, b, pos, stat_skills().len());
    let ma = parse_stats_upto(a, pos, stat_skills().len()).0;
    let mb = parse_stats_upto(b, pos, stat_skills().len()).0;
    if reads_no_ids(k) {
        lemma_get_same_but_mapped(ma, mb, k);
    }
}

/// The first fields of a save's data, as the game writes them.
pub struct SaveFields {
    pub tick_timestamp: u64,
    pub save_timestamp: u64,
    pub active_action_id: Option<u16>,
    pub paused_action_id: Option<u16>,
    pub is_paused: bool,
    pub merchants_permit_read: bool,
    pub game_mode_id: u16,
    pub character_name: Seq<char>,
}

/// The byte of a boolean: `1` for true, `0` for false.
pub open spec fn bool_bytes(b: bool) -> Seq<u8> {
    seq![if b { 1u8 } else { 0u8 }]
}

/// An optional `u16`: a flag byte, then the number where there is one.
pub open spec fn optional_u16_bytes(n: Option<u16>) -> Seq<u8> {
    match n {
        Some(id) => bool_bytes(true) + be_bytes_u16(id),
        None => bool_bytes(false),
    }
}

/// The bytes of the first fields of a save's data: the two timestamps as doubles (by
/// their bit patterns), the optional active and paused actions, the pause and merchant's
/// permit flags, the game mode and the character's name.
pub open spec fn save_fields_bytes(f: SaveFields) -> Seq<u8> {
    be_bytes_u64(f.tick_timestamp) + be_bytes_u64(f.save_timestamp) + optional_u16_bytes(
        f.active_action_id,
    ) + optional_u16_bytes(f.paused_action_id) + bool_bytes(f.is_paused) + bool_bytes(
        f.merchants_permit_read,
    ) + be_bytes_u16(f.game_mode_id) + string_field_bytes(f.character_name)
}

proof fn lemma_split(bytes: Seq<u8>, p: int, x: Seq<u8>, y: Seq<u8>)
    requires
        0 <= p,
        p + x.len() + y.len() <= bytes.len(),
        bytes.subrange(p, p + (x + y).len()) == x + y,
    ensures
        bytes.subrange(p, p + x.len()) == x,
        bytes.subrange(p + x.len(), p + x.len() + y.len()) == y,
{
    assert forall|i: int| 0 <= i < x.len() implies bytes.subrange(p, p + x.len())[i] == x[i] by {
        assert(bytes.subrange(p, p + (x + y).len())[i] == (x + y)[i]);
    }
    assert forall|i: int| 0 <= i < y.len() implies bytes.subrange(
        p + x.len(),
        p + x.len() + y.len(),
    )[i] == y[i] by {
        assert(bytes.subrange(p, p + (x + y).len())[x.len() + i] == (x + y)[x.len() + i]);
        assert(bytes.subrange(p, p + (x + y).len())[x.len() + i] == bytes[p + x.len() + i]);
        assert(bytes.subrange(p + x.len(), p + x.len() + y.len())[i] == bytes[p + x.len() + i]);
    }
    assert(bytes.subrange(p, p + x.len()) =~= x);
    assert(bytes.subrange(p + x.len(), p + x.len() + y.len()) =~= y);
}

proof fn lemma_bool_read_back(src: Src, p: int, b: bool)
    requires
        0 <= p,
        p + 1 <= src.bytes.len(),
        src.bytes.subrange(p, p + 1) == bool_bytes(b),
    ensures
        parse_bool(src, Some(p)) == (b, Some(p + 1)),
{
    law_bool_read(src, p);
    assert(src.bytes.subrange(p, p + 1)[0] == src.bytes[p]);
}

proof fn lemma_optional_u16_read_back(
    m: Seq<(Seq<char>, ValueView)>,
    key: Seq<char>,
    src: Src,
    p: int,
    n: Option<u16>,
)
    requires
        0 <= p,
        p + optional_u16_bytes(n).len() <= src.bytes.len(),
        src.bytes.subrange(p, p + optional_u16_bytes(n).len()) == optional_u16_bytes(n),
    ensures
        parse_optional_u16(m, key, src, Some(p)) == (
            match n {
                Some(id) => assoc_insert(m, key, ValueView::UInt(id as u64)),
                None => m,
            },
            Some(p + optional_u16_bytes(n).len()),
        ),
{
    match n {
        Some(id) => {
            lemma_split(src.bytes, p, bool_bytes(true), be_bytes_u16(id));
            lemma_bool_read_back(src, p, true);
            law_u16_read_after_write(src, p + 1, id);
        },
        None => {
            lemma_bool_read_back(src, p, false);
        },
    }
}

/// The save map after the first fields, as the game wrote them, are stored in `m`.
spec fn fields_map(m: Seq<(Seq<char>, ValueView)>, f: SaveFields) -> Seq<(Seq<char>, ValueView)> {
    let m1 = assoc_insert(m, "tick_timestamp"@, ValueView::Float(f.tick_timestamp));
    let m2 = assoc_insert(m1, "save_timestamp"@, ValueView::Float(f.save_timestamp));
    let m3 = match f.active_action_id {
        Some(id) => assoc_insert(m2, "active_action_id"@, ValueView::UInt(id as u64)),
        None => m2,
    };
    let m4 = match f.paused_action_id {
        Some(id) => assoc_insert(m3, "paused_action_id"@, ValueView::UInt(id as u64)),
        None => m3,
    };
    let m5 = assoc_insert(m4, "is_paused"@, ValueView::Bool(f.is_paused));
    let m6 = assoc_insert(m5, "merchants_permit_read"@, ValueView::Bool(f.merchants_permit_read));
    let m7 = assoc_insert(m6, "game_mode_id"@, ValueView::UInt(f.game_mode_id as u64));
    assoc_insert(m7, "character_name"@, ValueView::Str(f.character_name))
}

proof fn lemma_save_fields_parse(m: Seq<(Seq<char>, ValueView)>, src: Src, p: int, f: SaveFields)
    requires
        is_finite_bits(f.tick_timestamp),
        is_finite_bits(f.save_timestamp),
        encode_utf8(f.character_name).len() <= u32::MAX,
        0 <= p,
        p + save_fields_bytes(f).len() <= src.bytes.len(),
        src.bytes.subrange(p, p + save_fields_bytes(f).len()) == save_fields_bytes(f),
    ensures
        parse_save_fields(m, src, Some(p)) == (fields_map(m, f), Some(p + save_fields_bytes(f).len())),
{
    reveal(parse_save_fields);
    let b = src.bytes;
    let a1 = be_bytes_u64(f.tick_timestamp);
    let a2 = a1 + be_bytes_u64(f.save_timestamp);
    let a3 = a2 + optional_u16_bytes(f.active_action_id);
    let a4 = a3 + optional_u16_bytes(f.paused_action_id);
    let a5 = a4 + bool_bytes(f.is_paused);
    let a6 = a5 + bool_bytes(f.merchants_permit_read);
    let a7 = a6 + be_bytes_u16(f.game_mode_id);
    let name = string_field_bytes(f.character_name);
    assert(save_fields_bytes(f) == a7 + name);
    lemma_split(b, p, a7, name);
    lemma_split(b, p, a6, be_bytes_u16(f.game_mode_id));
    lemma_split(b, p, a5, bool_bytes(f.merchants_permit_read));
    lemma_split(b, p, a4, bool_bytes(f.is_paused));
    lemma_split(b, p, a3, optional_u16_bytes(f.paused_action_id));
    lemma_split(b, p, a2, optional_u16_bytes(f.active_action_id));
    lemma_split(b, p, a1, be_bytes_u64(f.save_timestamp));
    law_f64_read_after_write(src, p, f.tick_timestamp);
    law_f64_read_after_write(src, p + 8, f.save_timestamp);
    let m1 = assoc_insert(m, "tick_timestamp"@, ValueView::Float(f.tick_timestamp));
    let m2 = assoc_insert(m1, "save_timestamp"@, ValueView::Float(f.save_timestamp));
    lemma_optional_u16_read_back(m2, "active_action_id"@, src, p + a2.len(), f.active_action_id);
    let m3 = parse_optional_u16(m2, "active_action_id"@, src, Some(p + a2.len())).0;
    lemma_optional_u16_read_back(m3, "paused_action_id"@, src, p + a3.len(), f.paused_action_id);
    lemma_bool_read_back(src, p + a4.len(), f.is_paused);
    lemma_bool_read_back(src, p + a5.len(), f.merchants_permit_read);
    law_u16_read_after_write(src, p + a6.len(), f.game_mode_id);
    law_string_read_after_write(src, p + a7.len(), f.character_name);
}

proof fn lemma_fields_map_gets(m: Seq<(Seq<char>, ValueView)>, f: SaveFields)
    ensures
        assoc_get(fields_map(m, f), "tick_timestamp"@) == Some(ValueView::Float(f.tick_timestamp)),
        assoc_get(fields_map(m, f), "save_timestamp"@) == Some(ValueView::Float(f.save_timestamp)),
        assoc_get(fields_map(m, f), "active_action_id"@) == match f.active_action_id {
            Some(id) => Some(ValueView::UInt(id as u64)),
            None => assoc_get(m, "active_action_id"@),
        },
        assoc_get(fields_map(m, f), "paused_action_id"@) == match f.paused_action_id {
            Some(id) => Some(ValueView::UInt(id as u64)),
            None => assoc_get(m, "paused_action_id"@),
        },
        assoc_get(fields_map(m, f), "is_paused"@) == Some(ValueView::Bool(f.is_paused)),
        assoc_get(fields_map(m, f), "merchants_permit_read"@) == Some(
            ValueView::Bool(f.merchants_permit_read),
        ),
        assoc_get(fields_map(m, f), "game_mode_id"@) == Some(ValueView::UInt(f.game_mode_id as u64)),
        assoc_get(fields_map(m, f), "character_name"@) == Some(ValueView::Str(f.character_name)),
{
    reveal_strlit("tick_timestamp");
    reveal_strlit("save_timestamp");
    reveal_strlit("active_action_id");
    reveal_strlit("paused_action_id");
    reveal_strlit("is_paused");
    reveal_strlit("merchants_permit_read");
    reveal_strlit("game_mode_id");
    reveal_strlit("character_name");
    let k1 = "tick_timestamp"@;
    let k2 = "save_timestamp"@;
    let k3 = "active_action_id"@;
    let k4 = "paused_action_id"@;
    assert(k1.len() == 14 && k2.len() == 14 && k3.len() == 16 && k4.len() == 16);
    assert(k1[0] == 't' && k2[0] == 's' && k3[0] == 'a' && k4[0] == 'p');
    assert("is_paused"@.len() == 9 && "merchants_permit_read"@.len() == 21);
    assert("game_mode_id"@.len() == 12 && "character_name"@.len() == 14);
    assert("character_name"@[0] == 'c');
    let m1 = assoc_insert(m, k1, ValueView::Float(f.tick_timestamp));
    let m2 = assoc_insert(m1, k2, ValueView::Float(f.save_timestamp));
    let m3 = match f.active_action_id {
        Some(id) => assoc_insert(m2, k3, ValueView::UInt(id as u64)),
        None => m2,
    };
    let m4 = match f.paused_action_id {
        Some(id) => assoc_insert(m3, k4, ValueView::UInt(id as u64)),
        None => m3,
    };
    law_get_after_insert(m, k1, ValueView::Float(f.tick_timestamp));
    law_insert_keeps_other_keys(m1, k2, ValueView::Float(f.save_timestamp), k1);
    law_get_after_insert(m1, k2, ValueView::Float(f.save_timestamp));
    law_insert_keeps_other_keys(m, k1, ValueView::Float(f.tick_timestamp), k3);
    law_insert_keeps_other_keys(m1, k2, ValueView::Float(f.save_timestamp), k3);
    law_insert_keeps_other_keys(m, k1, ValueView::Float(f.tick_timestamp), k4);
    law_insert_keeps_other_keys(m1, k2, ValueView::Float(f.save_timestamp), k4);
    lemma_optional_keeps(m2, k3, f.active_action_id, k1);
    lemma_optional_keeps(m2, k3, f.active_action_id, k2);
    lemma_optional_keeps(m2, k3, f.active_action_id, k4);
    lemma_optional_gets(m2, k3, f.active_action_id);
    lemma_optional_keeps(m3, k4, f.paused_action_id, k1);
    lemma_optional_keeps(m3, k4, f.paused_action_id, k2);
    lemma_optional_keeps(m3, k4, f.paused_action_id, k3);
    lemma_optional_gets(m3, k4, f.paused_action_id);
    lemma_four_inserts_keep(m4, f, k1);
    lemma_four_inserts_keep(m4, f, k2);
    lemma_four_inserts_keep(m4, f, k3);
    lemma_four_inserts_keep(m4, f, k4);
    let m5 = assoc_insert(m4, "is_paused"@, ValueView::Bool(f.is_paused));
    let m6 = assoc_insert(m5, "merchants_permit_read"@, ValueView::Bool(f.merchants_permit_read));
    let m7 = assoc_insert(m6, "game_mode_id"@, ValueView::UInt(f.game_mode_id as u64));
    law_get_after_insert(m4, "is_paused"@, ValueView::Bool(f.is_paused));
    law_get_after_insert(m5, "merchants_permit_read"@, ValueView::Bool(f.merchants_permit_read));
    law_get_after_insert(m6, "game_mode_id"@, ValueView::UInt(f.game_mode_id as u64));
    law_get_after_insert(m7, "character_name"@, ValueView::Str(f.character_name));
    law_insert_keeps_other_keys(m5, "merchants_permit_read"@, ValueView::Bool(f.merchants_permit_read), "is_paused"@);
    law_insert_keeps_other_keys(m6, "game_mode_id"@, ValueView::UInt(f.game_mode_id as u64), "is_paused"@);
    law_insert_keeps_other_keys(m7, "character_name"@, ValueView::Str(f.character_name), "is_paused"@);
    law_insert_keeps_other_keys(m6, "game_mode_id"@, ValueView::UInt(f.game_mode_id as u64), "merchants_permit_read"@);
    law_insert_keeps_other_keys(m7, "character_name"@, ValueView::Str(f.character_name), "merchants_permit_read"@);
    law_insert_keeps_other_keys(m7, "character_name"@, ValueView::Str(f.character_name), "game_mode_id"@);
}

/// Reading the first fields of a save's data gives back what the game wrote there: each
/// field is stored under its key (the optional actions only where they are present, every
/// other key keeping its value), and the read moves past the fields.
pub proof fn law_save_fields_read_after_write(
    m: Seq<(Seq<char>, ValueView)>,
    src: Src,
    p: int,
    f: SaveFields,
)
    requires
        is_finite_bits(f.tick_timestamp),
        is_finite_bits(f.save_timestamp),
        encode_utf8(f.character_name).len() <= u32::MAX,
        0 <= p,
        p + save_fields_bytes(f).len() <= src.bytes.len(),
        src.bytes.subrange(p, p + save_fields_bytes(f).len()) == save_fields_bytes(f),
    ensures
        parse_save_fields(m, src, Some(p)).1 == Some(p + save_fields_bytes(f).len()),
        assoc_get(parse_save_fields(m, src, Some(p)).0, "tick_timestamp"@) == Some(
            ValueView::Float(f.tick_timestamp),
        ),
        assoc_get(parse_save_fields(m, src, Some(p)).0, "save_timestamp"@) == Some(
            ValueView::Float(f.save_timestamp),
        ),
        assoc_get(parse_save_fields(m, src, Some(p)).0, "active_action_id"@) == match f.active_action_id {
            Some(id) => Some(ValueView::UInt(id as u64)),
            None => assoc_get(m, "active_action_id"@),
        },
        assoc_get(parse_save_fields(m, src, Some(p)).0, "paused_action_id"@) == match f.paused_action_id {
            Some(id) => Some(ValueView::UInt(id as u64)),
            None => assoc_get(m, "paused_action_id"@),
        },
        assoc_get(parse_save_fields(m, src, Some(p)).0, "is_paused"@) == Some(
            ValueView::Bool(f.is_paused),
        ),
        assoc_get(parse_save_fields(m, src, Some(p)).0, "merchants_permit_read"@) == Some(
            ValueView::Bool(f.merchants_permit_read),
        ),
        assoc_get(parse_save_fields(m, src, Some(p)).0, "game_mode_id"@) == Some(
            ValueView::UInt(f.game_mode_id as u64),
        ),
        assoc_get(parse_save_fields(m, src, Some(p)).0, "character_name"@) == Some(
            ValueView::Str(f.character_name),
        ),
{
    lemma_save_fields_parse(m, src, p, f);
    lemma_fields_map_gets(m, f);
}

/// A present optional `u16` is read back under its key.
proof fn lemma_optional_gets(m: Seq<(Seq<char>, ValueView)>, key: Seq<char>, n: Option<u16>)
    ensures
        n is Some ==> assoc_get(
            match n {
                Some(id) => assoc_insert(m, key, ValueView::UInt(id as u64)),
                None => m,
            },
            key,
        ) == Some(ValueView::UInt(n.unwrap() as u64)),
{
    if let Some(id) = n {
        law_get_after_insert(m, key, ValueView::UInt(id as u64));
    }
}

/// An optional `u16` leaves every other key as it was.
proof fn lemma_optional_keeps(
    m: Seq<(Seq<char>, ValueView)>,
    key: Seq<char>,
    n: Option<u16>,
    other: Seq<char>,
)
    requires
        other != key,
    ensures
        assoc_get(
            match n {
                Some(id) => assoc_insert(m, key, ValueView::UInt(id as u64)),
                None => m,
            },
            other,
        ) == assoc_get(m, other),
{
    if let Some(id) = n {
        law_insert_keeps_other_keys(m, key, ValueView::UInt(id as u64), other);
    }
}

/// The last four fields leave every earlier key as it was.
proof fn lemma_four_inserts_keep(m4: Seq<(Seq<char>, ValueView)>, f: SaveFields, k: Seq<char>)
    requires
        k != "is_paused"@,
        k != "merchants_permit_read"@,
        k != "game_mode_id"@,
        k != "character_name"@,
    ensures
        assoc_get(
            assoc_insert(
                assoc_insert(
                    assoc_insert(
                        assoc_insert(m4, "is_paused"@, ValueView::Bool(f.is_paused)),
                        "merchants_permit_read"@,
                        ValueView::Bool(f.merchants_permit_read),
                    ),
                    "game_mode_id"@,
                    ValueView::UInt(f.game_mode_id as u64),
                ),
                "character_name"@,
                ValueView::Str(f.character_name),
            ),
            k,
        ) == assoc_get(m4, k),
{
    let m5 = assoc_insert(m4, "is_paused"@, ValueView::Bool(f.is_paused));
    let m6 = assoc_insert(m5, "merchants_permit_read"@, ValueView::Bool(f.merchants_permit_read));
    let m7 = assoc_insert(m6, "game_mode_id"@, ValueView::UInt(f.game_mode_id as u64));
    law_insert_keeps_other_keys(m4, "is_paused"@, ValueView::Bool(f.is_paused), k);
    law_insert_keeps_other_keys(m5, "merchants_permit_read"@, ValueView::Bool(f.merchants_permit_read), k);
    law_insert_keeps_other_keys(m6, "game_mode_id"@, ValueView::UInt(f.game_mode_id as u64), k);
    law_insert_keeps_other_keys(m7, "character_name"@, ValueView::Str(f.character_name), k);
}

/// Appending entries under keys that are all new.
proof fn lemma_insert_new<V>(s: Seq<(Seq<char>, V)>, k: Seq<char>, v: V)
    requires
        forall|j: int| 0 <= j < s.len() ==> s[j].0 != k,
    ensures
        assoc_insert(s, k, v) == s.push((k, v)),
{
    lemma_assoc_insert_at(s, k, v, s.len() as int);
}

/// The category of items being selected names, for each byte below 6, the list of
/// items being selected that is stored in that place (weapons, armour, ammo, runes, food,
/// passives), and is `other` for every other byte.
pub proof fn law_item_category_names_the_selection(src: Src, pos: Option<int>, b: u8)
    ensures
        parse_items_being_selected(src, pos).0 matches ValueView::Object(m) && m.len() == 6 && (b
            < 6 ==> m[b as int].0 == item_category_name(b)),
        b >= 6 ==> item_category_name(b) == "other"@,
{
    reveal_strlit("weapons");
    reveal_strlit("armour");
    reveal_strlit("ammo");
    reveal_strlit("runes");
    reveal_strlit("food");
    reveal_strlit("passives");
    let keys = seq!["weapons"@, "armour"@, "ammo"@, "runes"@, "food"@, "passives"@];
    assert(keys[0].len() == 7 && keys[1].len() == 6 && keys[2].len() == 4);
    assert(keys[3].len() == 5 && keys[4].len() == 4 && keys[5].len() == 8);
    assert(keys[0][0] == 'w' && keys[1][0] == 'a' && keys[2][0] == 'a' && keys[3][0] == 'r');
    assert(keys[4][0] == 'f' && keys[5][0] == 'p' && keys[1][1] == 'r' && keys[2][1] == 'm');
    let (weapons, p) = parse_vector(SelectionElement, src, pos);
    let (armour, p) = parse_vector(SelectionElement, src, p);
    let (ammo, p) = parse_vector(SelectionElement, src, p);
    let (runes, p) = parse_vector(SelectionElement, src, p);
    let (food, p) = parse_vector(SelectionElement, src, p);
    let (passives, _) = parse_vector(SelectionElement, src, p);
    let m0 = Seq::<(Seq<char>, ValueView)>::empty();
    lemma_insert_new(m0, keys[0], ValueView::Array(weapons));
    let m1 = m0.push((keys[0], ValueView::Array(weapons)));
    lemma_insert_new(m1, keys[1], ValueView::Array(armour));
    let m2 = m1.push((keys[1], ValueView::Array(armour)));
    lemma_insert_new(m2, keys[2], ValueView::Array(ammo));
    let m3 = m2.push((keys[2], ValueView::Array(ammo)));
    lemma_insert_new(m3, keys[3], ValueView::Array(runes));
    let m4 = m3.push((keys[3], ValueView::Array(runes)));
    lemma_insert_new(m4, keys[4], ValueView::Array(food));
    let m5 = m4.push((keys[4], ValueView::Array(food)));
    lemma_insert_new(m5, keys[5], ValueView::Array(passives));
    let m6 = m5.push((keys[5], ValueView::Array(passives)));
    assert(parse_items_being_selected(src, pos).0 == ValueView::Object(m6));
    assert(m6[0].0 == keys[0] && m6[1].0 == keys[1] && m6[2].0 == keys[2]);
    assert(m6[3].0 == keys[3] && m6[4].0 == keys[4] && m6[5].0 == keys[5]);
}

/// The source of a known active effect, read from the byte after its first flag, is
/// `Attack` for byte 0, `Effect` for byte 1 and `Other` for every other byte.
pub proof fn law_effect_source_names(src: Src, p: int)
    requires
        0 <= p,
        p + 2 <= src.bytes.len(),
    ensures
        parse_known_effect(src, Some(p)).0 matches ValueView::Object(m) && assoc_get(m, "source"@)
            == Some(
            ValueView::Str(
                if src.bytes[p + 1] == 0 {
                    "Attack"@
                } else if src.bytes[p + 1] == 1 {
                    "Effect"@
                } else {
                    "Other"@
                },
            ),
        ),
{
    reveal_strlit("source_character");
    reveal_strlit("source");
    reveal_strlit("damageDealt");
    reveal_strlit("damageTaken");
    reveal_strlit("parameters");
    reveal_strlit("stat_groups");
    reveal_strlit("timers");
    let k = "source"@;
    assert(k.len() == 6 && "source_character"@.len() == 16 && "damageDealt"@.len() == 11);
    assert("damageTaken"@.len() == 11 && "parameters"@.len() == 10 && "stat_groups"@.len() == 11);
    assert("timers"@.len() == 6 && "timers"@[0] == 't' && k[0] == 's');
    law_bool_read(src, p);
    assert(src.bytes.subrange(p + 1, p + 2)[0] == src.bytes[p + 1]);
    let source = parse_u8(src, Some(p + 1)).0;
    assert(source == src.bytes[p + 1]);
    let m1 = assoc_insert(Seq::empty(), "source_character"@, ValueView::Bool(parse_bool(src, Some(p)).0));
    let name = effect_source_name(source);
    let m2 = assoc_insert(m1, k, ValueView::Str(name));
    law_get_after_insert(m1, k, ValueView::Str(name));
    let (dealt, q) = parse_f64_bits(src, Some(p + 2));
    let (taken, q) = parse_f64_bits(src, q);
    let m3 = assoc_insert(m2, "damageDealt"@, float_view(dealt));
    let m4 = assoc_insert(m3, "damageTaken"@, float_view(taken));
    law_insert_keeps_other_keys(m2, "damageDealt"@, float_view(dealt), k);
    law_insert_keeps_other_keys(m3, "damageTaken"@, float_view(taken), k);
    assert forall|a: ValueView, b2: ValueView, c: ValueView| #![auto]
        assoc_get(
            assoc_insert(
                assoc_insert(assoc_insert(m4, "parameters"@, a), "stat_groups"@, b2),
                "timers"@,
                c,
            ),
            k,
        ) == assoc_get(m4, k) by {
        law_insert_keeps_other_keys(m4, "parameters"@, a, k);
        law_insert_keeps_other_keys(assoc_insert(m4, "parameters"@, a), "stat_groups"@, b2, k);
        law_insert_keeps_other_keys(
            assoc_insert(assoc_insert(m4, "parameters"@, a), "stat_groups"@, b2),
            "timers"@,
            c,
            k,
        );
    }
}

/// The stat ids of the game, by subject, in the order the game stores its trackers: the
/// stat with id `i` of a subject is the `i`-th name of its list.
pub open spec fn game_stat_ids() -> Seq<(&'static str, Seq<&'static str>)> {
    seq![
        ("woodcutting", seq!["Actions", "TimeSpent", "LogsCut", "BirdNestsGotten"]),
        ("fishing", seq!["FishCaught", "JunkCaught", "SpecialItemsCaught", "TimeSpent", "Actions", "GPEarned"]),
        ("firemaking", seq!["LogsBurnt", "GPBurnt", "TimeSpent", "BonusBonfireXP", "TotalActions", "BonfiresLit", "ItemsPreserved", "GPEarned", "CoalGained"]),
        ("cooking", seq!["FoodCooked", "FoodBurnt", "TimeSpent", "SuccessfulActions", "PerfectCooks", "PassiveCooks", "ItemsUsed", "ItemsPreserved"]),
        ("mining", seq!["Actions", "EmptyOresMined", "TimeSpent", "OresGained", "GemsGained", "RockHPPreserved", "RocksDepleted", "OnyxGemNodesFound", "TotalOnyxGemNodeHPFound", "OrichaGemNodesFound", "TotalOrichaGemNodeHPFound", "CeruleanGemNodesFound", "TotalCeruleanGemNodeHPFound", "NightopalGemNodesFound", "TotalNightopalGemNodeHPFound", "ShadowpearlGemNodesFound", "TotalShadowpearlGemNodeHPFound", "MoonstoneGemNodesFound", "TotalMoonstoneGemNodeHPFound", "VoidheartGemNodesFound", "TotalVoidheartGemNodeHPFound"]),
        ("smithing", seq!["SmeltingActions", "SmithingActions", "TimeSpent", "BarsUsed", "BarsPreserved", "OresUsed", "OresPreserved", "TotalItemsSmithed", "TotalBarsSmelted"]),
        ("attack", seq![]),
        ("strength", seq![]),
        ("defence", seq![]),
        ("hitpoints", seq![]),
        ("thieving", seq!["SuccessfulPickpockets", "FailedPickpockets", "DamageTakenFromNPCs", "TimeSpentStunned", "TimeSpent", "GPStolen", "CommonDrops", "RareDrops", "AreaDrops", "NpcDrops"]),
        ("farming", seq!["AllotmentsHarvested", "CompostUsed", "CropsDied", "TimeSpentWaitingForCrops", "TimeSpentWaitingForDeadCrops", "GloopUsed", "HerbsHarvested", "TreesHarvested", "SeedsPlanted", "HerbsGained", "LogsGained", "FoodGained"]),
        ("ranged", seq![]),
        ("fletching", seq!["ArrowShaftsMade", "ItemsFletched", "TimeSpent", "ItemsUsed", "ItemsPreserved", "Actions"]),
        ("crafting", seq!["ItemsCrafted", "TimeSpent", "ItemsUsed", "ItemsPreserved", "Actions", "GPUsed", "GPPreserved"]),
        ("runecrafting", seq!["ItemsCrafted", "TimeSpent", "ItemsUsed", "ItemsPreserved", "Actions"]),
        ("magic", seq![]),
        ("prayer", seq!["BonesBuried", "PrayerPointsEarned", "PrayerPointsSpent", "PrayerPointsPreserved", "SoulsReleased", "SoulPointsEarned", "SoulPointsSpent", "SoulPointsPreserved"]),
        ("slayer", seq!["SlayerCoinsEarned", "MonstersKilledOnTask"]),
        ("herblore", seq!["PotionsMade", "TimeSpent", "PotionsUsed", "ChargesUsed", "ItemsUsed", "ItemsPreserved", "Actions"]),
        ("agility", seq!["ObstaclesCompleted", "CoursesCompleted", "GPEarned", "TimeSpent", "SlayerCoinsEarned", "ItemsEarned"]),
        ("summoning", seq!["Actions", "TimeSpent", "ItemsMade", "ItemsUsed", "ItemsPreserved", "GPUsed", "GPPreserved", "SCUsed", "SCPreserved", "TabletsUsed"]),
        ("items", seq!["TimesFound", "TimesSold", "GpFromSale", "TimesLostToDeath", "DamageTaken", "DamageDealt", "MissedAttacks", "TimesEaten", "HealedFor", "TotalAttacks", "AmountUsedInCombat", "TimeWaited", "TimesDied", "TimesGrown", "HarvestAmount", "EnemiesKilled", "TimesOpened", "TimesTransformed", "TimesBuried", "TimesReleased"]),
        ("monster", seq!["DamageDealtToPlayer", "DamageTakenFromPlayer", "KilledByPlayer", "KilledPlayer", "HitsToPlayer", "HitsFromPlayer", "EnemyMissed", "PlayerMissed", "Seen", "RanAway"]),
        ("general", seq!["TotalGPEarned", "TotalItemsSold", "UsernameChanges", "AccountCreationDate", "SignetRingHalvesMissed"]),
        ("combat", seq!["MonstersKilled", "DamageDealt", "DamageTaken", "AttacksMissed", "Deaths", "FoodConsumed", "HPFromFood", "TimeSpentSpawning", "TimeSpentFighting", "TimeSpentPaused", "ItemsLooted", "GPEarned", "DungeonRewards"]),
        ("raid", seq!["GolbinsKilled", "HighestWave", "RaidCoinsEarned", "TotalTimeSpent", "LongestRaid", "TotalDeath", "WavesCompleted"]),
        ("astrology", seq!["TimeSpent", "StandardRerolls", "UniqueRerolls", "MaxRollsHit", "MinRollsHit", "Actions", "MeteoritesLocated", "TotalMeteoriteHP", "AbyciteLocated", "TotalAbyciteHP", "MysticiteLoated", "TotalMysticiteHP", "EchociteLocated", "TotalEchociteHP"]),
        ("shop", seq!["PurchasesMade", "ItemsPurchased", "GPSpent", "SCSpent", "RCSpent", "ItemsSpent", "GloveChargesPurchased"]),
        ("township", seq![]),
        ("cartography", seq![]),
        ("archaeology", seq![]),
        ("corruption", seq![]),
        ("harvesting", seq![]),
    ]
}

/// The settings of the game, in the order the game stores them, with how each is stored.
pub open spec fn game_settings_order() -> Seq<(&'static str, SettingKind)> {
    seq![
        ("continue_if_bank_full", SettingKind::Bool),
        ("continue_thieving_on_stun", SettingKind::Bool),
        ("auto_restart_dungeon", SettingKind::Bool),
        ("auto_cloud_save", SettingKind::Bool),
        ("dark_mode", SettingKind::Bool),
        ("show_gp_notifications", SettingKind::Bool),
        ("enable_accessibility", SettingKind::Bool),
        ("show_enemy_skill_levels", SettingKind::Bool),
        ("show_close_confirmations", SettingKind::Bool),
        ("hide_thousands_seperator", SettingKind::Bool),
        ("show_virtual_levels", SettingKind::Bool),
        ("show_sale_confirmations", SettingKind::Bool),
        ("show_shop_confirmations", SettingKind::Bool),
        ("pause_on_unfocus", SettingKind::Bool),
        ("show_combat_minibar", SettingKind::Bool),
        ("show_combat_minibar_combat", SettingKind::Bool),
        ("show_skilling_minibar", SettingKind::Bool),
        ("use_combination_runes", SettingKind::Bool),
        ("enable_auto_slayer", SettingKind::Bool),
        ("show_item_notifications", SettingKind::Bool),
        ("use_small_level_up_notifications", SettingKind::Bool),
        ("use_default_bank_borders", SettingKind::Bool),
        ("default_to_current_equip_set", SettingKind::Bool),
        ("hide_max_level_masteries", SettingKind::Bool),
        ("show_mastery_checkpointconfirmations", SettingKind::Bool),
        ("enable_offline_push_notifications", SettingKind::Bool),
        ("enable_farming_push_notifications", SettingKind::Bool),
        ("enable_offline_combat", SettingKind::Bool),
        ("enable_mini_sidebar", SettingKind::Bool),
        ("enable_auto_equip_food", SettingKind::Bool),
        ("enable_auto_swap_food", SettingKind::Bool),
        ("enable_perfect_cooking", SettingKind::Bool),
        ("show_crop_destruction_confirmations", SettingKind::Bool),
        ("show_astrology_max_roll_confirmations", SettingKind::Bool),
        ("show_quantity_in_item_notifications", SettingKind::Bool),
        ("show_item_preservation_notifications", SettingKind::Bool),
        ("show_slayer_coin_notifications", SettingKind::Bool),
        ("show_equipment_sets_in_combat_minibar", SettingKind::Bool),
        ("show_bars_in_combat_minibar", SettingKind::Bool),
        ("show_combat_stun_notifications", SettingKind::Bool),
        ("show_combat_sleep_notifications", SettingKind::Bool),
        ("show_summoning_mark_discovery_modals", SettingKind::Bool),
        ("enable_combat_damage_splashes", SettingKind::Bool),
        ("enable_progress_bars", SettingKind::Bool),
        ("show_tier_i_potions", SettingKind::Bool),
        ("show_tier_ii_potions", SettingKind::Bool),
        ("show_tier_iii_potions", SettingKind::Bool),
        ("show_tier_iv_potions", SettingKind::Bool),
        ("show_neutral_attack_modifiers", SettingKind::Bool),
        ("default_page_on_load", SettingKind::Namespaced),
        ("format_number_setting", SettingKind::U8),
        ("bank_sort_order", SettingKind::U8),
        ("colour_blind_mode", SettingKind::U8),
        ("enableEyebleachMode", SettingKind::Bool),
        ("enableQuickConvert", SettingKind::Bool),
        ("show_locked_township_buildings", SettingKind::Bool),
        ("use_new_notifications", SettingKind::Bool),
        ("notification_horizontal_position", SettingKind::U8),
        ("notification_disappear_delay", SettingKind::U8),
        ("showItemNamesInNotifications", SettingKind::Bool),
        ("importanceSummoningMarkFound", SettingKind::Bool),
        ("importanceErrorMessages", SettingKind::Bool),
        ("enableScrollableBankTabs", SettingKind::Bool),
        ("showWikiLinks", SettingKind::Bool),
        ("disableHexGridOutsideSight", SettingKind::Bool),
        ("mapTextureQuality", SettingKind::U8),
        ("enableMapAntialiasing", SettingKind::Bool),
        ("show_skill_xp_notifications", SettingKind::Bool),
        ("background_image", SettingKind::U8),
        ("super_dark_mode", SettingKind::Bool),
        ("show_expansion_background_colours", SettingKind::Bool),
        ("show_combat_area_warnings", SettingKind::Bool),
        ("use_compact_notifications", SettingKind::Bool),
        ("use_legacy_notifications", SettingKind::Bool),
        ("use_cat", SettingKind::Bool),
        ("throttle_frame_rate_on_inactivity", SettingKind::Bool),
        ("cartography_frame_rate_cap", SettingKind::U16),
        ("toggle_birthday_event", SettingKind::Bool),
        ("toggle_discord_rpc", SettingKind::Bool),
        ("generic_artefact_all_but_one", SettingKind::Bool),
        ("hidden_mastery_namespaces", SettingKind::StringSet),
        ("enable_double_click_equip", SettingKind::Bool),
        ("enable_double_click_open", SettingKind::Bool),
        ("enable_double_click_bury", SettingKind::Bool),
        ("show_abyssal_pieces_notifications", SettingKind::Bool),
        ("show_abyssal_slayer_coin_notifications", SettingKind::Bool),
        ("enable_perma_corruption", SettingKind::Bool),
        ("show_ap_next_to_shop_sidebar", SettingKind::Bool),
        ("show_asc_next_to_slayer_sidebar", SettingKind::Bool),
        ("sidebar_levels", SettingKind::U8),
        ("show_abyssal_xp_notifications", SettingKind::Bool),
        ("show_sp_next_to_prayer_sidebar", SettingKind::Bool),
        ("enable_sticky_bank_tabs", SettingKind::Bool),
        ("use_legacy_realm_selection", SettingKind::Bool),
        ("show_opacity_for_skill_navs", SettingKind::Bool),
        ("bank_filter_show_all", SettingKind::Bool),
        ("bank_filter_show_demo", SettingKind::Bool),
        ("bank_filter_show_full", SettingKind::Bool),
        ("bank_filter_show_tot_h", SettingKind::Bool),
        ("bank_filter_show_ao_d", SettingKind::Bool),
        ("bank_filter_show_it_a", SettingKind::Bool),
        ("bank_filter_show_damage_reduction", SettingKind::Bool),
        ("bank_filter_show_abyssal_resistance", SettingKind::Bool),
        ("bank_filter_show_normal_damage", SettingKind::Bool),
        ("bank_filter_show_abyssal_damage", SettingKind::Bool),
        ("bank_filter_show_skill_xp", SettingKind::Bool),
        ("bank_filter_show_abyssal_xp", SettingKind::Bool),
        ("always_show_realm_select_agility", SettingKind::Bool),
        ("enable_swipe_sidebar", SettingKind::Bool),
    ]
}

/// The stat table that the stats decoder reads by is the game's: for every subject, in
/// order, its name and the name of each of its stat ids. So the stat with id `i` of
/// subject `s` is read under the `i`-th name of the game's list for `s`, and an id past
/// the list under its decimal rendering.
pub proof fn law_stat_names_are_the_games(s: int, src: Src, p: int, id: u32)
    requires
        0 <= s < game_stat_ids().len(),
        0 <= p,
        p + 4 <= src.bytes.len(),
        src.bytes.subrange(p, p + 4) == be_bytes_u32(id),
    ensures
        stat_skills() == game_stat_ids(),
        parse_stat_key(stat_skills()[s].1, src, Some(p)) == (
            if (id as int) < game_stat_ids()[s].1.len() {
                game_stat_ids()[s].1[id as int]@
            } else {
                decimal(id as nat)
            },
            Some(p + 4),
        ),
{
    assert(stat_skills() =~= game_stat_ids());
    law_u32_read_after_write(src, p, id);
}

/// The settings table that the settings decoder reads by is the game's: the `k`-th stored
/// setting is named by the `k`-th name of the game's settings order, and stored as it says.
pub proof fn law_settings_order_is_the_games(k: int)
    requires
        0 <= k < game_settings_order().len(),
    ensures
        settings_fields() == game_settings_order(),
        settings_fields()[k].0 == game_settings_order()[k].0,
        settings_fields()[k].1 == game_settings_order()[k].1,
{
    assert(settings_fields() =~= game_settings_order());
}


} // verus!
