//! The table directory of a font file, as far as the layout of a line of
//! text depends on it: where the horizontal metrics of the glyphs are, and
//! how many glyphs they must cover.

use vstd::prelude::*;

verus! {

/// Tag of a file that holds several fonts.
pub const TAG_COLLECTION: u32 = 0x7474_6366;

/// Tag of the table with the number of full horizontal metrics.
pub const TAG_HHEA: u32 = 0x6868_6561;

/// Tag of the table of horizontal metrics.
pub const TAG_HMTX: u32 = 0x686D_7478;

/// Tag of the table that varies horizontal metrics.
pub const TAG_HVAR: u32 = 0x4856_4152;

/// The number written in the two bytes from `at`, most significant first.
pub open spec fn be16(bytes: Seq<u8>, at: int) -> int {
    bytes[at] as int * 256 + bytes[at + 1] as int
}

/// The number written in the four bytes from `at`, most significant first.
pub open spec fn be32(bytes: Seq<u8>, at: int) -> int {
    be16(bytes, at) * 65536 + be16(bytes, at + 2)
}

/// Where the header of the font starts: at the start of the file, or, in a
/// file of several fonts, where the first of them is said to be.
pub open spec fn directory_start(bytes: Seq<u8>) -> Option<int> {
    if bytes.len() < 4 {
        None
    } else if be32(bytes, 0) != TAG_COLLECTION {
        Some(0)
    } else if bytes.len() < 16 {
        None
    } else {
        Some(be32(bytes, 12))
    }
}

/// The number of table records that a header at `base` announces.
pub open spec fn table_count(bytes: Seq<u8>, base: int) -> int {
    be16(bytes, base + 4)
}

/// Where the record with the given index starts.
pub open spec fn record_start(base: int, index: int) -> int {
    base + 12 + 16 * index
}

/// The place and length of the table that the record at `at` names, if the
/// table lies within the file.
pub open spec fn record_table(bytes: Seq<u8>, at: int) -> Option<(int, int)> {
    let start = be32(bytes, at + 8);
    let length = be32(bytes, at + 12);
    if start + length <= bytes.len() {
        Some((start, length))
    } else {
        None
    }
}

/// The table with the given tag among the first `records` records: what the
/// last record with that tag names.
pub open spec fn find_table(bytes: Seq<u8>, base: int, records: nat, tag: u32) -> Option<(int, int)>
    decreases records,
{
    if records == 0 {
        None
    } else {
        let at = record_start(base, records - 1);
        if be32(bytes, at) == tag {
            record_table(bytes, at)
        } else {
            find_table(bytes, base, (records - 1) as nat, tag)
        }
    }
}

/// Whether one of the first `records` records carries the given tag.
pub open spec fn names_table(bytes: Seq<u8>, base: int, records: nat, tag: u32) -> bool
    decreases records,
{
    records > 0 && (be32(bytes, record_start(base, records - 1)) == tag || names_table(
        bytes,
        base,
        (records - 1) as nat,
        tag,
    ))
}

/// What the file says of its horizontal metrics: the number of full metrics
/// and the length of the table that holds them. There is none where the
/// directory or one of the two tables does not lie within the file, where
/// no full metrics are announced, or where the directory names a table that
/// varies the metrics.
pub open spec fn metrics_layout(bytes: Seq<u8>) -> Option<(int, int)> {
    match directory_start(bytes) {
        None => None,
        Some(base) => {
            let count = table_count(bytes, base);
            if base + 12 + 16 * count > bytes.len() {
                None
            } else if names_table(bytes, base, count as nat, TAG_HVAR) {
                None
            } else {
                match (
                    find_table(bytes, base, count as nat, TAG_HHEA),
                    find_table(bytes, base, count as nat, TAG_HMTX),
                ) {
                    (Some(header), Some(metrics)) => {
                        if header.1 == 36 && be16(bytes, header.0 + 34) >= 1 {
                            Some((be16(bytes, header.0 + 34), metrics.1))
                        } else {
                            None
                        }
                    },
                    _ => None,
                }
            }
        },
    }
}

/// Whether the file holds horizontal metrics for each of `glyphs` glyphs:
/// four bytes for each full metric, and two for each glyph beyond them.
pub open spec fn metrics_cover(bytes: Seq<u8>, glyphs: nat) -> bool {
    match metrics_layout(bytes) {
        None => false,
        Some((full, length)) => if glyphs > full {
            length >= 4 * full + 2 * (glyphs - full)
        } else {
            length >= 4 * full
        },
    }
}

/// Reads the number in the two bytes from `at`.
fn read16(bytes: &Vec<u8>, at: usize) -> (value: u16)
    requires
        at + 2 <= bytes@.len(),
    ensures
        value == be16(bytes@, at as int),
{
    assert(bytes@.len() == bytes.len());
    bytes[at] as u16 * 256 + bytes[at + 1] as u16
}

/// Reads the number in the four bytes from `at`.
fn read32(bytes: &Vec<u8>, at: usize) -> (value: u32)
    requires
        at + 4 <= bytes@.len(),
    ensures
        value == be32(bytes@, at as int),
{
    assert(bytes@.len() == bytes.len());
    read16(bytes, at) as u32 * 65536 + read16(bytes, at + 2) as u32
}

/// Finds the table with the given tag among the records of a directory.
fn locate(bytes: &Vec<u8>, base: usize, count: u16, tag: u32) -> (found: Option<(u32, u32)>)
    requires
        base + 12 + 16 * count <= bytes@.len(),
    ensures
        match found {
            Some(table) => {
                &&& find_table(bytes@, base as int, count as nat, tag) == Some(
                    (table.0 as int, table.1 as int),
                )
                &&& table.0 + table.1 <= bytes@.len()
            },
            None => find_table(bytes@, base as int, count as nat, tag) is None,
        },
{
    assert(bytes@.len() == bytes.len());
    let mut found: Option<(u32, u32)> = None;
    let mut index: u16 = 0;
    while index < count
        invariant
            index <= count,
            base + 12 + 16 * count <= bytes@.len(),
            bytes@.len() == bytes.len(),
            match found {
                Some(table) => {
                    &&& find_table(bytes@, base as int, index as nat, tag) == Some(
                        (table.0 as int, table.1 as int),
                    )
                    &&& table.0 + table.1 <= bytes@.len()
                },
                None => find_table(bytes@, base as int, index as nat, tag) is None,
            },
        decreases count - index,
    {
        let at: usize = base + 12 + 16 * (index as usize);
        if read32(bytes, at) == tag {
            let start = read32(bytes, at + 8);
            let length = read32(bytes, at + 12);
            if start as u64 + length as u64 <= bytes.len() as u64 {
                found = Some((start, length));
            } else {
                found = None;
            }
        }
        index = index + 1;
    }
    found
}

/// Tells whether a record of a directory carries the given tag.
fn mentions(bytes: &Vec<u8>, base: usize, count: u16, tag: u32) -> (named: bool)
    requires
        base + 12 + 16 * count <= bytes@.len(),
    ensures
        named == names_table(bytes@, base as int, count as nat, tag),
{
    assert(bytes@.len() == bytes.len());
    let mut named = false;
    let mut index: u16 = 0;
    while index < count
        invariant
            index <= count,
            base + 12 + 16 * count <= bytes@.len(),
            bytes@.len() == bytes.len(),
            named == names_table(bytes@, base as int, index as nat, tag),
        decreases count - index,
    {
        if read32(bytes, base + 12 + 16 * (index as usize)) == tag {
            named = true;
        }
        index = index + 1;
    }
    named
}

/// Reads what the file says of its horizontal metrics.
pub fn read_metrics_layout(bytes: &Vec<u8>) -> (layout: Option<(u16, u32)>)
    ensures
        match layout {
            Some(found) => metrics_layout(bytes@) == Some((found.0 as int, found.1 as int)),
            None => metrics_layout(bytes@) is None,
        },
{
    if bytes.len() < 4 {
        return None;
    }
    let base: usize = if read32(bytes, 0) != TAG_COLLECTION {
        0
    } else if bytes.len() < 16 {
        return None;
    } else {
        read32(bytes, 12) as usize
    };
    if base > bytes.len() || bytes.len() - base < 12 {
        return None;
    }
    let count = read16(bytes, base + 4);
    if (bytes.len() - base - 12) / 16 < count as usize {
        return None;
    }
    if mentions(bytes, base, count, TAG_HVAR) {
        return None;
    }
    match (locate(bytes, base, count, TAG_HHEA), locate(bytes, base, count, TAG_HMTX)) {
        (Some(header), Some(metrics)) => {
            if header.1 != 36 {
                return None;
            }
            let full = read16(bytes, header.0 as usize + 34);
            if full >= 1 {
                Some((full, metrics.1))
            } else {
                None
            }
        },
        _ => None,
    }
}

} // verus!
