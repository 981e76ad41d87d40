use vstd::prelude::*;

use crate::bytes::{field, pow256, read_le};

verus! {

/// The size of the fixed part of a file information record, in bytes; the
/// file name follows it.
pub const FILE_INFO_HEADER_SIZE: usize = 80;

/// A timestamp as firmware stores it in file metadata.
#[derive(Debug, Clone, Copy, PartialEq, Eq, Structural)]
pub struct EfiTime {
    pub year: u16,
    pub month: u8,
    pub day: u8,
    pub hour: u8,
    pub minute: u8,
    pub second: u8,
    pub nanosecond: u32,
    pub time_zone: u16,
    pub daylight: u8,
}

/// The timestamp whose 16-byte record starts at `offset` in `s`.
pub open spec fn time_at(s: Seq<u8>, offset: int) -> EfiTime {
    EfiTime {
        year: field(s, offset, 2) as u16,
        month: s[offset + 2],
        day: s[offset + 3],
        hour: s[offset + 4],
        minute: s[offset + 5],
        second: s[offset + 6],
        nanosecond: field(s, offset + 8, 4) as u32,
        time_zone: field(s, offset + 12, 2) as u16,
        daylight: s[offset + 14],
    }
}

impl EfiTime {
    /// Decodes the timestamp record at `offset`.
    pub fn decode(bytes: &[u8], offset: usize) -> (r: EfiTime)
        requires
            offset + 16 <= bytes@.len(),
        ensures
            r == time_at(bytes@, offset as int),
    {
        let _len = bytes.len();
        EfiTime {
            year: read_le(bytes, offset, 2) as u16,
            month: bytes[offset + 2],
            day: bytes[offset + 3],
            hour: bytes[offset + 4],
            minute: bytes[offset + 5],
            second: bytes[offset + 6],
            nanosecond: read_le(bytes, offset + 8, 4) as u32,
            time_zone: read_le(bytes, offset + 12, 2) as u16,
            daylight: bytes[offset + 14],
        }
    }
}

/// The UTF-16 units stored from `offset` on, up to the first zero unit or
/// the last whole unit of `s`.
pub open spec fn units_until_nul(s: Seq<u8>, offset: int) -> Seq<u16>
    decreases s.len() - offset,
{
    if offset < 0 || offset + 2 > s.len() {
        Seq::empty()
    } else {
        let u = field(s, offset, 2) as u16;
        if u == 0 {
            Seq::empty()
        } else {
            seq![u] + units_until_nul(s, offset + 2)
        }
    }
}

/// The metadata firmware reports for an open file.
#[derive(Debug)]
pub struct EfiFileInfo {
    /// The size of the whole record, name included.
    pub size: u64,
    /// The length of the file's contents, in bytes.
    pub file_size: u64,
    pub physical_size: u64,
    pub create_time: EfiTime,
    pub last_access_time: EfiTime,
    pub modification_time: EfiTime,
    pub attribute: u64,
    /// The file name, without its terminator.
    pub filename: Vec<u16>,
}

impl EfiFileInfo {
    /// True when the record's fields equal what `s` encodes.
    pub open spec fn decodes(&self, s: Seq<u8>) -> bool {
        &&& self.size == field(s, 0, 8)
        &&& self.file_size == field(s, 8, 8)
        &&& self.physical_size == field(s, 16, 8)
        &&& self.create_time == time_at(s, 24)
        &&& self.last_access_time == time_at(s, 40)
        &&& self.modification_time == time_at(s, 56)
        &&& self.attribute == field(s, 72, 8)
        &&& self.filename@ == units_until_nul(s, FILE_INFO_HEADER_SIZE as int)
    }

    /// Decodes a file information record; `None` when the buffer is shorter
    /// than the fixed part.
    pub fn parse(bytes: &[u8]) -> (r: Option<EfiFileInfo>)
        ensures
            r is Some <==> bytes@.len() >= FILE_INFO_HEADER_SIZE,
            r matches Some(info) ==> info.decodes(bytes@),
    {
        let len = bytes.len();
        if len < FILE_INFO_HEADER_SIZE {
            return None;
        }
        let mut filename: Vec<u16> = Vec::new();
        let mut offset: usize = FILE_INFO_HEADER_SIZE;
        while len - offset >= 2
            invariant
                len == bytes@.len(),
                FILE_INFO_HEADER_SIZE <= offset <= len,
                filename@ + units_until_nul(bytes@, offset as int) == units_until_nul(
                    bytes@,
                    FILE_INFO_HEADER_SIZE as int,
                ),
            ensures
                FILE_INFO_HEADER_SIZE <= offset <= len,
                filename@ + units_until_nul(bytes@, offset as int) == units_until_nul(
                    bytes@,
                    FILE_INFO_HEADER_SIZE as int,
                ),
                units_until_nul(bytes@, offset as int) == Seq::<u16>::empty(),
            decreases len - offset,
        {
            let wide = read_le(bytes, offset, 2);
            proof {
                reveal_with_fuel(pow256, 3);
            }
            let unit = wide as u16;
            if unit == 0 {
                break;
            }
            proof {
                let rest = units_until_nul(bytes@, offset + 2);
                assert(units_until_nul(bytes@, offset as int) == seq![unit] + rest);
                assert(filename@.push(unit) + rest =~= filename@ + (seq![unit] + rest));
            }
            filename.push(unit);
            offset = offset + 2;
        }
        proof {
            assert(filename@ + Seq::<u16>::empty() =~= filename@);
        }
        Some(
            EfiFileInfo {
                size: read_le(bytes, 0, 8),
                file_size: read_le(bytes, 8, 8),
                physical_size: read_le(bytes, 16, 8),
                create_time: EfiTime::decode(bytes, 24),
                last_access_time: EfiTime::decode(bytes, 40),
                modification_time: EfiTime::decode(bytes, 56),
                attribute: read_le(bytes, 72, 8),
                filename,
            },
        )
    }
}

} // verus!
