use vstd::prelude::*;

verus! {

/// A 128-bit capability identifier, laid out as firmware lays out an
/// `EFI_GUID`: one 32-bit field, two 16-bit fields and eight bytes.
#[derive(Debug, Clone, Copy, PartialEq, Eq, Structural)]
pub struct EfiGuid {
    pub a: u32,
    pub b: u16,
    pub c: u16,
    pub d: u8,
    pub e: u8,
    pub f: u8,
    pub g: u8,
    pub h: u8,
    pub i: u8,
    pub j: u8,
    pub k: u8,
}

/// The little-endian bytes of `v`, `n` of them.
pub open spec fn le_bytes(v: nat, n: nat) -> Seq<u8>
    decreases n,
{
    if n == 0 {
        Seq::empty()
    } else {
        seq![(v % 256) as u8] + le_bytes(v / 256, (n - 1) as nat)
    }
}

impl EfiGuid {
    pub fn new(
        a: u32,
        b: u16,
        c: u16,
        d: u8,
        e: u8,
        f: u8,
        g: u8,
        h: u8,
        i: u8,
        j: u8,
        k: u8,
    ) -> (r: EfiGuid)
        ensures
            r == (EfiGuid { a, b, c, d, e, f, g, h, i, j, k }),
    {
        EfiGuid { a, b, c, d, e, f, g, h, i, j, k }
    }

    /// The all-zero identifier, which names no interface.
    pub fn null() -> (r: EfiGuid)
        ensures
            r == (EfiGuid { a: 0, b: 0, c: 0, d: 0, e: 0, f: 0, g: 0, h: 0, i: 0, j: 0, k: 0 }),
    {
        Self::new(0, 0, 0, 0, 0, 0, 0, 0, 0, 0, 0)
    }

    /// The sixteen bytes of the identifier in firmware memory order.
    pub open spec fn bytes(self) -> Seq<u8> {
        le_bytes(self.a as nat, 4) + le_bytes(self.b as nat, 2) + le_bytes(self.c as nat, 2) + seq![
            self.d,
            self.e,
            self.f,
            self.g,
            self.h,
            self.i,
            self.j,
            self.k,
        ]
    }

    /// The identifier as the sixteen bytes that firmware compares.
    pub fn to_bytes(&self) -> (r: Vec<u8>)
        ensures
            r@ == self.bytes(),
    {
        let a = self.a;
        let b = self.b;
        let c = self.c;
        let r = vec![
            (a % 256) as u8,
            (a / 256 % 256) as u8,
            (a / 65536 % 256) as u8,
            (a / 16777216) as u8,
            (b % 256) as u8,
            (b / 256) as u8,
            (c % 256) as u8,
            (c / 256) as u8,
            self.d,
            self.e,
            self.f,
            self.g,
            self.h,
            self.i,
            self.j,
            self.k,
        ];
        proof {
            reveal_with_fuel(le_bytes, 5);
            assert(r@ =~= self.bytes());
        }
        r
    }
}

/// An interface family that firmware publishes under a fixed identifier.
pub trait HasGuid {
    spec fn guid_spec() -> EfiGuid;

    fn get_guid() -> (r: EfiGuid)
        ensures
            r == Self::guid_spec(),
    ;
}

/// The graphics output interface family.
pub struct GraphicsOutput;

/// The simple file system interface family, which opens volumes.
pub struct SimpleFileSystem;

/// `EFI_GRAPHICS_OUTPUT_PROTOCOL_GUID`.
pub open spec fn graphics_output_guid() -> EfiGuid {
    EfiGuid {
        a: 0x9042a9de,
        b: 0x23dc,
        c: 0x4a38,
        d: 0x96,
        e: 0xfb,
        f: 0x7a,
        g: 0xde,
        h: 0xd0,
        i: 0x80,
        j: 0x51,
        k: 0x6a,
    }
}

/// `EFI_SIMPLE_FILE_SYSTEM_PROTOCOL_GUID`.
pub open spec fn simple_file_system_guid() -> EfiGuid {
    EfiGuid {
        a: 0x964e5b22,
        b: 0x6459,
        c: 0x11d2,
        d: 0x8e,
        e: 0x39,
        f: 0x00,
        g: 0xa0,
        h: 0xc9,
        i: 0x69,
        j: 0x72,
        k: 0x3b,
    }
}

/// `EFI_FILE_INFO_ID`, the information type that file metadata is read as.
pub open spec fn file_info_guid() -> EfiGuid {
    EfiGuid {
        a: 0x09576e92,
        b: 0x6d3f,
        c: 0x11d2,
        d: 0x8e,
        e: 0x39,
        f: 0x00,
        g: 0xa0,
        h: 0xc9,
        i: 0x69,
        j: 0x72,
        k: 0x3b,
    }
}

impl HasGuid for GraphicsOutput {
    open spec fn guid_spec() -> EfiGuid {
        graphics_output_guid()
    }

    fn get_guid() -> (r: EfiGuid) {
        EfiGuid::new(0x9042a9de, 0x23dc, 0x4a38, 0x96, 0xfb, 0x7a, 0xde, 0xd0, 0x80, 0x51, 0x6a)
    }
}

impl HasGuid for SimpleFileSystem {
    open spec fn guid_spec() -> EfiGuid {
        simple_file_system_guid()
    }

    fn get_guid() -> (r: EfiGuid) {
        EfiGuid::new(0x964e5b22, 0x6459, 0x11d2, 0x8e, 0x39, 0x00, 0xa0, 0xc9, 0x69, 0x72, 0x3b)
    }
}

/// The identifier that file metadata is requested with.
pub fn file_info_id() -> (r: EfiGuid)
    ensures
        r == file_info_guid(),
{
    EfiGuid::new(0x09576e92, 0x6d3f, 0x11d2, 0x8e, 0x39, 0x00, 0xa0, 0xc9, 0x69, 0x72, 0x3b)
}

} // verus!
