use std::collections::HashMap;
use vstd::prelude::*;

use crate::error::FontError;
use crate::reader::{advanced, u16_at, u32_at, BinaryReader};

verus! {

pub const TAG_HEAD: u32 = 0x68656164;

pub const TAG_MAXP: u32 = 0x6d617870;

pub const TAG_HHEA: u32 = 0x68686561;

pub const TAG_HMTX: u32 = 0x686d7478;

pub const TAG_LOCA: u32 = 0x6c6f6361;

pub const TAG_GLYF: u32 = 0x676c7966;

pub const TAG_CMAP: u32 = 0x636d6170;

/// One entry of the table directory. The tag holds the four ASCII letters
/// of the table's name, the first in the most significant byte.
#[derive(Debug, Clone, Copy, PartialEq, Eq, Structural)]
pub struct TableRecord {
    pub tag: u32,
    pub checksum: u32,
    pub length: u32,
    pub offset: u32,
}

/// The table record stored at `s[p..p + 16]`.
pub open spec fn record_at(s: Seq<u8>, p: int) -> TableRecord {
    TableRecord {
        tag: u32_at(s, p) as u32,
        checksum: u32_at(s, p + 4) as u32,
        length: u32_at(s, p + 8) as u32,
        offset: u32_at(s, p + 12) as u32,
    }
}

/// The number of table records declared by the directory at `s[p..]`.
pub open spec fn declared_tables(s: Seq<u8>, p: int) -> int {
    u16_at(s, p + 4)
}

/// Whether the directory header at `s[p..]` and all the records it declares
/// lie within `s`.
pub open spec fn directory_fits(s: Seq<u8>, p: int) -> bool {
    &&& p + 12 <= s.len()
    &&& p + 12 + 16 * declared_tables(s, p) <= s.len()
}

/// The tag-to-record mapping built from the first `n` records of the
/// directory at `s[p..]`; a later record replaces an earlier one of the same
/// tag.
pub open spec fn directory_map(s: Seq<u8>, p: int, n: nat) -> Map<u32, TableRecord>
    decreases n,
{
    if n == 0 {
        Map::empty()
    } else {
        let r = record_at(s, p + 12 + 16 * (n - 1));
        directory_map(s, p, (n - 1) as nat).insert(r.tag, r)
    }
}

/// The sfnt table directory: each table's record, by tag.
pub struct TableDirectory {
    pub tables: HashMap<u32, TableRecord>,
}

impl TableDirectory {
    pub open spec fn view(&self) -> Map<u32, TableRecord> {
        self.tables@
    }

    /// Reads the sfnt header (version, table count, and three search fields)
    /// and the table records that follow it.
    pub fn parse(reader: &mut BinaryReader) -> (r: Result<TableDirectory, FontError>)
        ensures
            match r {
                Ok(d) => {
                    let s = old(reader).bytes();
                    let p = old(reader).pos();
                    &&& directory_fits(s, p)
                    &&& d.view() == directory_map(s, p, declared_tables(s, p) as nat)
                    &&& advanced(*old(reader), *final(reader), 12 + 16 * declared_tables(s, p))
                },
                Err(e) => e == FontError::MalformedDirectory && !directory_fits(
                    old(reader).bytes(),
                    old(reader).pos(),
                ) && final(reader).bytes() == old(reader).bytes(),
            },
    {
        let ghost s = reader.bytes();
        let ghost p = reader.pos();
        if !reader.has(12) {
            return Err(FontError::MalformedDirectory);
        }
        reader.get_uint32().unwrap();
        let num_tables = reader.get_uint16().unwrap();
        reader.get_uint16().unwrap();
        reader.get_uint16().unwrap();
        reader.get_uint16().unwrap();
        if !reader.has(16 * num_tables as u64) {
            return Err(FontError::MalformedDirectory);
        }
        let mut tables: HashMap<u32, TableRecord> = HashMap::new();
        let mut i: u16 = 0;
        while i < num_tables
            invariant
                num_tables == declared_tables(s, p),
                reader.bytes() == s,
                reader.pos() == p + 12 + 16 * i,
                p + 12 + 16 * num_tables <= s.len(),
                i <= num_tables,
                tables@ == directory_map(s, p, i as nat),
            decreases num_tables - i,
        {
            let tag = reader.get_uint32().unwrap();
            let checksum = reader.get_uint32().unwrap();
            let length = reader.get_uint32().unwrap();
            let offset = reader.get_uint32().unwrap();
            let rec = TableRecord { tag, checksum, length, offset };
            assert(rec == record_at(s, p + 12 + 16 * i));
            tables.insert(tag, rec);
            i = i + 1;
        }
        Ok(TableDirectory { tables })
    }

    /// The record of the table named `tag`, if the directory has one.
    pub fn get(&self, tag: u32) -> (r: Option<TableRecord>)
        ensures
            match r {
                Some(rec) => self.view().contains_key(tag) && self.view()[tag] == rec,
                None => !self.view().contains_key(tag),
            },
    {
        match self.tables.get(&tag) {
            Some(rec) => Some(*rec),
            None => None,
        }
    }
}

} // verus!
