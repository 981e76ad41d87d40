use vstd::prelude::*;

verus! {

/// How a file is opened.
#[derive(Debug, Clone, Copy, PartialEq, Eq, Structural)]
pub enum OpenMode {
    EfiFileModeRead,
    EfiFileModeWrite,
    EfiFileModeCreate,
}

impl OpenMode {
    /// The mode bits firmware expects.
    pub open spec fn bits(self) -> u64 {
        match self {
            OpenMode::EfiFileModeRead => 0x1,
            OpenMode::EfiFileModeWrite => 0x2,
            OpenMode::EfiFileModeCreate => 0x8000_0000_0000_0000,
        }
    }

    pub fn to_u64(self) -> (r: u64)
        ensures
            r == self.bits(),
    {
        match self {
            OpenMode::EfiFileModeRead => 0x1,
            OpenMode::EfiFileModeWrite => 0x2,
            OpenMode::EfiFileModeCreate => 0x8000_0000_0000_0000,
        }
    }
}

/// The attribute a file is opened or created with.
#[derive(Debug, Clone, Copy, PartialEq, Eq, Structural)]
pub enum FileAttributes {
    EfiFileReadOnly,
    EfiFileHidden,
    EfiFileSystem,
    EfiFileReserved,
    EfiFileDirectory,
    EfiFileArchive,
    EfiFileValidAttr,
}

impl FileAttributes {
    /// The attribute bits firmware expects.
    pub open spec fn bits(self) -> u64 {
        match self {
            FileAttributes::EfiFileReadOnly => 0x01,
            FileAttributes::EfiFileHidden => 0x02,
            FileAttributes::EfiFileSystem => 0x04,
            FileAttributes::EfiFileReserved => 0x08,
            FileAttributes::EfiFileDirectory => 0x10,
            FileAttributes::EfiFileArchive => 0x20,
            FileAttributes::EfiFileValidAttr => 0x37,
        }
    }

    pub fn to_u64(self) -> (r: u64)
        ensures
            r == self.bits(),
    {
        match self {
            FileAttributes::EfiFileReadOnly => 0x01,
            FileAttributes::EfiFileHidden => 0x02,
            FileAttributes::EfiFileSystem => 0x04,
            FileAttributes::EfiFileReserved => 0x08,
            FileAttributes::EfiFileDirectory => 0x10,
            FileAttributes::EfiFileArchive => 0x20,
            FileAttributes::EfiFileValidAttr => 0x37,
        }
    }
}

/// How a page allocation chooses its address.
#[derive(Debug, Clone, Copy, PartialEq, Eq, Structural)]
pub enum EfiAllocateType {
    AllocateAnyPages,
    AllocateMaxAddress,
    AllocateAddress,
    MaxAllocateType,
}

impl EfiAllocateType {
    /// The number firmware uses for this allocation type.
    pub open spec fn raw(self) -> u32 {
        match self {
            EfiAllocateType::AllocateAnyPages => 0,
            EfiAllocateType::AllocateMaxAddress => 1,
            EfiAllocateType::AllocateAddress => 2,
            EfiAllocateType::MaxAllocateType => 3,
        }
    }

    pub fn to_u32(self) -> (r: u32)
        ensures
            r == self.raw(),
    {
        match self {
            EfiAllocateType::AllocateAnyPages => 0,
            EfiAllocateType::AllocateMaxAddress => 1,
            EfiAllocateType::AllocateAddress => 2,
            EfiAllocateType::MaxAllocateType => 3,
        }
    }
}

} // verus!
