//! Boot blame: how long the slowest units took to activate at boot, and
//! the on-disk cache that keeps it for the rest of the boot.
//!
//! The library holds each activation time as the bits of the IEEE-754
//! double (seconds) that the cache file stores; it never computes with them.
use vstd::prelude::*;

use vstd::bytes::{
    lemma_auto_spec_u32_to_from_le_bytes, lemma_auto_spec_u64_to_from_le_bytes, spec_u32_from_le_bytes,
    spec_u32_to_le_bytes, spec_u64_from_le_bytes, spec_u64_to_le_bytes, u32_from_le_bytes, u32_to_le_bytes,
    u64_from_le_bytes, u64_to_le_bytes,
};
use vstd::utf8::{decode_utf8, encode_utf8, valid_utf8};

use crate::strmap::{seq_to_map, StrMap};
use crate::text::{push_str, string_of};
use crate::CollectorTransport;

verus! {

/// The suffix of the cache file's name, after the boot id.
pub const BOOT_BLAME_CACHE_SUFFIX: &'static str = "boot_blame.bin";

/// Why the cache could not be read or written.
#[derive(Clone, Copy, Debug, PartialEq, Eq, Structural)]
pub enum BootCacheError {
    /// The boot id file was empty.
    EmptyBootId,
    /// The payload is shorter than its entry count.
    PayloadTooSmall,
    /// The payload ends inside an entry's name length.
    UnexpectedEnd,
    /// An entry's name and time run past the end of the payload.
    InvalidSize,
    /// Bytes follow the last entry.
    TrailingBytes,
    /// A unit name is not UTF-8.
    Utf8,
    /// A count or length does not fit the format's 32 bits.
    IntConversion,
}

/// `cache_dir` joined with `name` as `Path::join` joins them: an absolute
/// name replaces the directory, and a `/` goes between them unless the
/// directory is empty or already ends with one.
pub open spec fn path_join(dir: Seq<char>, name: Seq<char>) -> Seq<char> {
    if name.len() > 0 && name[0] == '/' {
        name
    } else if dir.len() == 0 || dir.last() == '/' {
        dir + name
    } else {
        dir + "/"@ + name
    }
}

/// The cache file of a boot: `<cache_dir>/<boot_id>.boot_blame.bin`.
pub fn cache_file_path(cache_dir: &str, boot_id: &str) -> (r: String)
    ensures
        r@ == path_join(cache_dir@, boot_id@ + "."@ + BOOT_BLAME_CACHE_SUFFIX@),
{
    let mut name = string_of(boot_id);
    push_str(&mut name, ".");
    push_str(&mut name, BOOT_BLAME_CACHE_SUFFIX);
    let nv = crate::text::str_chars(name.as_str());
    if nv.len() > 0 && nv[0] == '/' {
        return name;
    }
    let dv = crate::text::str_chars(cache_dir);
    let mut r = string_of(cache_dir);
    if !(dv.len() == 0 || dv[dv.len() - 1] == '/') {
        push_str(&mut r, "/");
    }
    push_str(&mut r, name.as_str());
    r
}

/// The boot id from the content of the kernel's boot id file: trimmed; an
/// empty id is an error.
pub fn parse_boot_id(content: &str) -> (r: Result<String, BootCacheError>)
    ensures
        match r {
            Ok(id) => id@ == crate::text::trim(content@) && id@.len() > 0,
            Err(e) => e == BootCacheError::EmptyBootId && crate::text::trim(content@).len() == 0,
        },
{
    let v = crate::text::str_chars(content);
    let (a, b) = crate::text::trim_range(&v, 0, v.len());
    proof {
        assert(v@.subrange(0, v@.len() as int) =~= v@);
    }
    if a == b {
        return Err(BootCacheError::EmptyBootId);
    }
    Ok(crate::text::string_from_range(&v, a, b))
}

/// The bytes of one entry: the UTF-8 name's length (u32 LE), the name, and
/// the time's bits (u64 LE).
pub open spec fn entry_bytes(name: Seq<char>, bits: u64) -> Seq<u8> {
    spec_u32_to_le_bytes(encode_utf8(name).len() as u32) + encode_utf8(name) + spec_u64_to_le_bytes(bits)
}

/// The bytes of the entries, in order.
pub open spec fn entries_bytes(items: Seq<(Seq<char>, u64)>) -> Seq<u8>
    decreases items.len(),
{
    if items.len() == 0 {
        Seq::empty()
    } else {
        entry_bytes(items[0].0, items[0].1) + entries_bytes(items.drop_first())
    }
}

/// The payload of a boot blame map: the entry count (u32 LE), then the
/// entries.
pub open spec fn blame_bytes(items: Seq<(Seq<char>, u64)>) -> Seq<u8> {
    spec_u32_to_le_bytes(items.len() as u32) + entries_bytes(items)
}

/// Every count and length fits the format's 32 bits.
pub open spec fn encodable(items: Seq<(Seq<char>, u64)>) -> bool {
    &&& items.len() <= u32::MAX
    &&& forall|i: int| 0 <= i < items.len() ==> encode_utf8(#[trigger] items[i].0).len() <= u32::MAX
}

/// `n` entries read from the front of `b`, which they must use up exactly.
pub open spec fn parse_entries(b: Seq<u8>, n: nat) -> Option<Seq<(Seq<char>, u64)>>
    decreases n,
{
    if n == 0 {
        if b.len() == 0 {
            Some(Seq::empty())
        } else {
            None
        }
    } else if b.len() < 4 {
        None
    } else {
        let l = spec_u32_from_le_bytes(b.take(4)) as int;
        let rest = b.skip(4);
        if rest.len() < l + 8 {
            None
        } else if !valid_utf8(rest.take(l)) {
            None
        } else {
            let bits = spec_u64_from_le_bytes(rest.subrange(l, l + 8));
            match parse_entries(rest.skip(l + 8), (n - 1) as nat) {
                Some(t) => Some(seq![(decode_utf8(rest.take(l)), bits)] + t),
                None => None,
            }
        }
    }
}

/// A payload read back: its entry count, then that many entries and
/// nothing after them.
pub open spec fn parse_blame(b: Seq<u8>) -> Option<Seq<(Seq<char>, u64)>> {
    if b.len() < 4 {
        None
    } else {
        parse_entries(b.skip(4), spec_u32_from_le_bytes(b.take(4)) as nat)
    }
}

proof fn lemma_entries_bytes_push(items: Seq<(Seq<char>, u64)>, x: (Seq<char>, u64))
    ensures
        entries_bytes(items.push(x)) == entries_bytes(items) + entry_bytes(x.0, x.1),
    decreases items.len(),
{
    if items.len() == 0 {
        let one = items.push(x);
        assert(one.drop_first() =~= Seq::<(Seq<char>, u64)>::empty());
        assert(one[0] == x);
        assert(entries_bytes(one.drop_first()) == Seq::<u8>::empty());
        assert(entries_bytes(one) =~= entry_bytes(x.0, x.1));
        assert(entries_bytes(items) == Seq::<u8>::empty());
    } else {
        lemma_entries_bytes_push(items.drop_first(), x);
        assert(items.push(x).drop_first() =~= items.drop_first().push(x));
        assert(entries_bytes(items.push(x)) =~= entries_bytes(items) + entry_bytes(x.0, x.1));
    }
}

/// Reading back the entries' bytes gives the entries.
proof fn lemma_parse_entries_bytes(items: Seq<(Seq<char>, u64)>)
    requires
        encodable(items),
    ensures
        parse_entries(entries_bytes(items), items.len()) == Some(items),
    decreases items.len(),
{
    lemma_auto_spec_u32_to_from_le_bytes();
    lemma_auto_spec_u64_to_from_le_bytes();
    if items.len() > 0 {
        let tail = items.drop_first();
        assert(encodable(tail)) by {
            assert forall|i: int| 0 <= i < tail.len() implies encode_utf8(#[trigger] tail[i].0).len() <= u32::MAX by {
                assert(tail[i] == items[i + 1]);
            }
        }
        lemma_parse_entries_bytes(tail);
        let name = items[0].0;
        let nb = encode_utf8(name);
        let l = nb.len() as int;
        assert(l <= u32::MAX) by {
            assert(encode_utf8(items[0].0).len() <= u32::MAX);
        }
        let b = entries_bytes(items);
        let head = spec_u32_to_le_bytes(l as u32);
        assert(b == head + nb + spec_u64_to_le_bytes(items[0].1) + entries_bytes(tail));
        assert(b.take(4) =~= head);
        let rest = b.skip(4);
        assert(rest =~= nb + spec_u64_to_le_bytes(items[0].1) + entries_bytes(tail));
        assert(rest.take(l) =~= nb);
        assert(rest.subrange(l, l + 8) =~= spec_u64_to_le_bytes(items[0].1));
        assert(rest.skip(l + 8) =~= entries_bytes(tail));
        vstd::utf8::encode_utf8_valid_utf8(name);
        vstd::utf8::encode_utf8_decode_utf8(name);
        assert(seq![(name, items[0].1)] + tail =~= items);
    }
}

/// Reading back a payload gives the entries it was written from.
pub proof fn boot_blame_round_trip(items: Seq<(Seq<char>, u64)>)
    requires
        encodable(items),
    ensures
        parse_blame(blame_bytes(items)) == Some(items),
{
    lemma_auto_spec_u32_to_from_le_bytes();
    lemma_parse_entries_bytes(items);
    let b = blame_bytes(items);
    assert(b.take(4) =~= spec_u32_to_le_bytes(items.len() as u32));
    assert(b.skip(4) =~= entries_bytes(items));
}

/// Reading back the payload of a map gives the map.
pub proof fn boot_blame_map_round_trip(m: StrMap<u64>)
    requires
        encodable(m.items()),
    ensures
        parse_blame(blame_bytes(m.items())) matches Some(items) && seq_to_map(items) == m@,
{
    boot_blame_round_trip(m.items());
    m.lemma_view_items();
}

/// Write a boot blame map as a payload, its entries in the map's order.
pub fn encode_boot_blame_stats(stats: &StrMap<u64>) -> (r: Result<Vec<u8>, BootCacheError>)
    ensures
        match r {
            Ok(b) => encodable(stats.items()) && b@ == blame_bytes(stats.items()),
            Err(e) => !encodable(stats.items()) && e == BootCacheError::IntConversion,
        },
{
    let n = stats.len();
    let ghost items = stats.items();
    if n > 0xffff_ffff {
        return Err(BootCacheError::IntConversion);
    }
    let mut out: Vec<u8> = u32_to_le_bytes(n as u32);
    let mut i: usize = 0;
    proof {
        assert(items.take(0) =~= Seq::<(Seq<char>, u64)>::empty());
        assert(out@ =~= spec_u32_to_le_bytes(items.len() as u32) + entries_bytes(items.take(0)));
    }
    while i < n
        invariant
            i <= n,
            n == items.len(),
            n <= u32::MAX,
            items == stats.items(),
            out@ == spec_u32_to_le_bytes(items.len() as u32) + entries_bytes(items.take(i as int)),
            forall|j: int| 0 <= j < i ==> encode_utf8(#[trigger] items[j].0).len() <= u32::MAX,
        decreases n - i,
    {
        let (name, bits) = stats.entry_at(i);
        let nb = name.as_str().as_bytes();
        if nb.len() > 0xffff_ffff {
            proof {
                assert(!encodable(items)) by {
                    assert(encode_utf8(items[i as int].0).len() > u32::MAX);
                }
            }
            return Err(BootCacheError::IntConversion);
        }
        let ghost before = out@;
        let mut len_bytes = u32_to_le_bytes(nb.len() as u32);
        out.append(&mut len_bytes);
        let mut i2: usize = 0;
        while i2 < nb.len()
            invariant
                i2 <= nb@.len(),
                out@ == before + spec_u32_to_le_bytes(nb@.len() as u32) + nb@.take(i2 as int),
            decreases nb.len() - i2,
        {
            out.push(nb[i2]);
            proof {
                assert(nb@.take(i2 + 1) =~= nb@.take(i2 as int).push(nb@[i2 as int]));
            }
            i2 = i2 + 1;
        }
        let mut bits_bytes = u64_to_le_bytes(*bits);
        out.append(&mut bits_bytes);
        proof {
            assert(nb@.take(i2 as int) =~= nb@);
            assert(nb@ == encode_utf8(items[i as int].0));
            lemma_entries_bytes_push(items.take(i as int), items[i as int]);
            assert(items.take(i + 1) =~= items.take(i as int).push(items[i as int]));
            assert(out@ =~= spec_u32_to_le_bytes(items.len() as u32) + entries_bytes(items.take(i + 1)));
        }
        i = i + 1;
    }
    proof {
        assert(items.take(i as int) =~= items);
    }
    Ok(out)
}

/// The UTF-8 text of some bytes, if they are UTF-8.
///
/// Trusted: calls `String::from_utf8`, which the standard library documents
/// as returning the string whose bytes are the given ones when they are
/// valid UTF-8, and an error otherwise.
#[verifier::external_body]
fn string_from_utf8(bytes: Vec<u8>) -> (r: Option<String>)
    ensures
        match r {
            Some(s) => valid_utf8(bytes@) && s@ == decode_utf8(bytes@),
            None => !valid_utf8(bytes@),
        },
{
    String::from_utf8(bytes).ok()
}

/// Read a payload back into a map: see `parse_blame`. A name that occurs
/// twice keeps its later time.
pub fn decode_boot_blame_stats(content: &[u8]) -> (r: Result<StrMap<u64>, BootCacheError>)
    ensures
        match r {
            Ok(m) => parse_blame(content@) is Some && m@ == seq_to_map(parse_blame(content@).unwrap()),
            Err(_) => parse_blame(content@) is None,
        },
{
    let len = content.len();
    if len < 4 {
        return Err(BootCacheError::PayloadTooSmall);
    }
    let count = u32_from_le_bytes(vstd::slice::slice_subrange(content, 0, 4));
    let ghost b = content@;
    let ghost all = b.skip(4);
    let mut stats: StrMap<u64> = StrMap::new();
    let ghost mut done: Seq<(Seq<char>, u64)> = Seq::empty();
    let mut off: usize = 4;
    let mut k: u32 = 0;
    proof {
        assert(b.take(4) =~= content@.subrange(0, 4));
        assert(b.skip(4) =~= b.skip(off as int));
        assert(stats@ =~= seq_to_map(done));
    }
    while k < count
        invariant
            4 <= off <= len,
            len == content@.len(),
            b == content@,
            count == spec_u32_from_le_bytes(b.take(4)),
            k <= count,
            stats@ == seq_to_map(done),
            parse_entries(all, count as nat) == match parse_entries(b.skip(off as int), (count - k) as nat) {
                Some(t) => Some(done + t),
                None => None::<Seq<(Seq<char>, u64)>>,
            },
            all == b.skip(4),
        decreases count - k,
    {
        let ghost cur = b.skip(off as int);
        if len - off < 4 {
            return Err(BootCacheError::UnexpectedEnd);
        }
        let name_len = u32_from_le_bytes(vstd::slice::slice_subrange(content, off, off + 4));
        proof {
            assert(cur.take(4) =~= b.subrange(off as int, off + 4));
        }
        let start = off + 4;
        if ((len - start) as u64) < (name_len as u64) + 8 {
            return Err(BootCacheError::InvalidSize);
        }
        let nl = name_len as usize;
        let name_bytes = vstd::slice::slice_to_vec(vstd::slice::slice_subrange(content, start, start + nl));
        let name = match string_from_utf8(name_bytes) {
            Some(s) => s,
            None => {
                proof {
                    assert(cur.skip(4).take(nl as int) =~= b.subrange(start as int, start + nl));
                }
                return Err(BootCacheError::Utf8);
            },
        };
        let bits = u64_from_le_bytes(vstd::slice::slice_subrange(content, start + nl, start + nl + 8));
        proof {
            let rest = cur.skip(4);
            assert(rest.take(nl as int) =~= b.subrange(start as int, start + nl));
            assert(rest.subrange(nl as int, nl + 8) =~= b.subrange(start + nl, start + nl + 8));
            assert(rest.skip(nl + 8) =~= b.skip(start + nl + 8));
            let entry = (name@, bits);
            assert forall|t: Seq<(Seq<char>, u64)>| (done + seq![entry]) + t =~= done + (seq![entry] + t) by {}
            assert(seq_to_map(done.push(entry)) == seq_to_map(done).insert(entry.0, entry.1)) by {
                assert(done.push(entry).drop_last() =~= done);
            }
            assert(done.push(entry) =~= done + seq![entry]);
            done = done.push(entry);
        }
        stats.insert(name, bits);
        off = start + nl + 8;
        k = k + 1;
    }
    if off != len {
        proof {
            assert(b.skip(off as int).len() > 0);
        }
        return Err(BootCacheError::TrailingBytes);
    }
    proof {
        assert(b.skip(off as int) =~= Seq::<u8>::empty());
        assert(done + Seq::<(Seq<char>, u64)>::empty() =~= done);
    }
    Ok(stats)
}

/// The byte that records the transport after a payload: 1 for varlink, 0
/// for D-Bus.
pub open spec fn transport_byte(t: CollectorTransport) -> u8 {
    match t {
        CollectorTransport::Dbus => 0,
        CollectorTransport::Varlink => 1,
    }
}

/// The file ends with a transport byte (0 or 1) whose removal leaves a
/// well-formed payload.
pub open spec fn has_transport_marker(b: Seq<u8>) -> bool {
    &&& b.len() >= 1
    &&& b.last() <= 1
    &&& parse_blame(b.drop_last()) is Some
}

/// A cache file read back: its entries and the transport that produced
/// them, `None` for a file written before the transport was recorded.
pub open spec fn parse_cached_blame(b: Seq<u8>) -> Option<(Seq<(Seq<char>, u64)>, Option<CollectorTransport>)> {
    if has_transport_marker(b) {
        let t = if b.last() == 1 {
            CollectorTransport::Varlink
        } else {
            CollectorTransport::Dbus
        };
        Some((parse_blame(b.drop_last()).unwrap(), Some(t)))
    } else {
        match parse_blame(b) {
            Some(items) => Some((items, None)),
            None => None,
        }
    }
}

/// Entries that use up their bytes exactly do not fit in one byte less.
proof fn lemma_parse_entries_drop_last(b: Seq<u8>, n: nat)
    requires
        parse_entries(b, n) is Some,
        b.len() > 0,
    ensures
        parse_entries(b.drop_last(), n) is None,
    decreases n,
{
    if n > 0 {
        let c = b.drop_last();
        if c.len() >= 4 {
            assert(c.take(4) =~= b.take(4));
            let l = spec_u32_from_le_bytes(b.take(4)) as int;
            let rest = b.skip(4);
            let rc = c.skip(4);
            assert(rc =~= rest.drop_last());
            if rc.len() >= l + 8 {
                assert(rc.take(l) =~= rest.take(l));
                assert(rc.subrange(l, l + 8) =~= rest.subrange(l, l + 8));
                assert(rc.skip(l + 8) =~= rest.skip(l + 8).drop_last());
                lemma_parse_entries_drop_last(rest.skip(l + 8), (n - 1) as nat);
            }
        }
    }
}

/// A well-formed payload is never a well-formed payload plus a byte.
proof fn lemma_parse_blame_drop_last(b: Seq<u8>)
    requires
        parse_blame(b) is Some,
    ensures
        parse_blame(b.drop_last()) is None,
{
    let c = b.drop_last();
    if c.len() >= 4 {
        assert(c.take(4) =~= b.take(4));
        assert(c.skip(4) =~= b.skip(4).drop_last());
        lemma_parse_entries_drop_last(b.skip(4), spec_u32_from_le_bytes(b.take(4)) as nat);
    }
}

/// Reading back a cache file gives the entries and the transport it was
/// written with.
pub proof fn cached_boot_blame_round_trip(items: Seq<(Seq<char>, u64)>, t: CollectorTransport)
    requires
        encodable(items),
    ensures
        parse_cached_blame(blame_bytes(items).push(transport_byte(t))) == Some((items, Some(t))),
{
    boot_blame_round_trip(items);
    assert(blame_bytes(items).push(transport_byte(t)).drop_last() =~= blame_bytes(items));
}

/// A cache file written without a transport byte reads back as its entries
/// with no transport: it is never mistaken for a file that has one.
pub proof fn legacy_boot_blame_has_no_transport(items: Seq<(Seq<char>, u64)>)
    requires
        encodable(items),
    ensures
        parse_cached_blame(blame_bytes(items)) == Some((items, None::<CollectorTransport>)),
{
    boot_blame_round_trip(items);
    lemma_parse_blame_drop_last(blame_bytes(items));
}

/// What the boot blame collector does on a run.
#[derive(Clone, Debug, PartialEq, Eq)]
pub enum BootBlameStep {
    /// Stats from an earlier run of this process are in memory, with the
    /// transport that produced them: keep both.
    KeepInMemory,
    /// Use the stats of the cache file and replay the transport it records.
    ReplayCache(CollectorTransport),
    /// Collect the stats, then write the cache file of this boot id when
    /// there is one.
    Collect { cache_boot_id: Option<String> },
    /// The cache file predates the transport byte: use its stats now, with
    /// no transport, so they stay if collecting fails; then collect and
    /// rewrite the cache file of this boot id.
    UseCacheThenCollect { cache_boot_id: String },
}

/// Decide a run from what is known before collecting: whether the cache is
/// on, whether stats are in memory, the boot id (`None` when it could not
/// be read), and the transport recorded in this boot's cache file (`None`
/// when there is no readable file; `Some(None)` for a file that predates
/// the transport byte, whose stats are used until they are collected again,
/// as its transport is not guessed).
pub fn plan_boot_blame(
    cache_enabled: bool,
    in_memory: bool,
    boot_id: Option<String>,
    cached_transport: Option<Option<CollectorTransport>>,
) -> (r: BootBlameStep)
    ensures
        !cache_enabled ==> r == (BootBlameStep::Collect { cache_boot_id: None }),
        cache_enabled && in_memory ==> r == BootBlameStep::KeepInMemory,
        cache_enabled && !in_memory && boot_id is None ==> r == (BootBlameStep::Collect {
            cache_boot_id: None,
        }),
        cache_enabled && !in_memory && boot_id is Some ==> match cached_transport {
            Some(Some(t)) => r == BootBlameStep::ReplayCache(t),
            Some(None) => r matches BootBlameStep::UseCacheThenCollect { cache_boot_id: id } && id@
                == boot_id.unwrap()@,
            None => r matches BootBlameStep::Collect { cache_boot_id: Some(id) } && id@ == boot_id.unwrap()@,
        },
{
    if !cache_enabled {
        return BootBlameStep::Collect { cache_boot_id: None };
    }
    if in_memory {
        return BootBlameStep::KeepInMemory;
    }
    match boot_id {
        None => BootBlameStep::Collect { cache_boot_id: None },
        Some(id) => match cached_transport {
            Some(Some(t)) => BootBlameStep::ReplayCache(t),
            Some(None) => BootBlameStep::UseCacheThenCollect { cache_boot_id: id },
            None => BootBlameStep::Collect { cache_boot_id: Some(id) },
        },
    }
}

/// A decoded cache file.
pub struct DecodedBootBlame {
    pub stats: StrMap<u64>,
    /// The transport that produced the entries; `None` for a file written
    /// before the transport was recorded.
    pub transport: Option<CollectorTransport>,
}

/// Write a cache file: the payload, then the transport byte.
pub fn encode_cached_boot_blame(stats: &StrMap<u64>, transport: CollectorTransport) -> (r: Result<
    Vec<u8>,
    BootCacheError,
>)
    ensures
        match r {
            Ok(b) => encodable(stats.items()) && b@ == blame_bytes(stats.items()).push(transport_byte(transport)),
            Err(e) => !encodable(stats.items()) && e == BootCacheError::IntConversion,
        },
{
    let mut out = encode_boot_blame_stats(stats)?;
    let byte: u8 = match transport {
        CollectorTransport::Dbus => 0,
        CollectorTransport::Varlink => 1,
    };
    out.push(byte);
    Ok(out)
}

/// Read a cache file: see `parse_cached_blame`.
pub fn decode_cached_boot_blame(content: &[u8]) -> (r: Result<DecodedBootBlame, BootCacheError>)
    ensures
        match r {
            Ok(d) => {
                &&& parse_cached_blame(content@) is Some
                &&& d.stats@ == seq_to_map(parse_cached_blame(content@).unwrap().0)
                &&& d.transport == parse_cached_blame(content@).unwrap().1
            },
            Err(_) => parse_cached_blame(content@) is None,
        },
{
    let n = content.len();
    if n >= 1 {
        let marker = content[n - 1];
        if marker <= 1 {
            let payload = vstd::slice::slice_subrange(content, 0, n - 1);
            proof {
                assert(payload@ =~= content@.drop_last());
            }
            match decode_boot_blame_stats(payload) {
                Ok(stats) => {
                    let transport = if marker == 1 {
                        CollectorTransport::Varlink
                    } else {
                        CollectorTransport::Dbus
                    };
                    return Ok(DecodedBootBlame { stats, transport: Some(transport) });
                },
                Err(_) => {},
            }
        }
    }
    let stats = decode_boot_blame_stats(content)?;
    Ok(DecodedBootBlame { stats, transport: None })
}

} // verus!
