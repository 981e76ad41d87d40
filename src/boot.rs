use vstd::prelude::*;

use crate::capability::{discover, discovery_result};
use crate::error::{error_for_raw, LoaderError};
use crate::file_info::{EfiFileInfo, FILE_INFO_HEADER_SIZE};
use crate::bytes::field;
use crate::guid::{simple_file_system_guid, EfiGuid, HasGuid, SimpleFileSystem};
use crate::memory_map::{MemoryType, PAGE_SIZE};
use crate::protocols::{EfiAllocateType, FileAttributes, OpenMode};
use crate::status::{EfiStatusCode, ERROR_BIT};
use crate::wide::{encode_wide, utf16_of, wide_units, WIDE_CAPACITY};

verus! {

/// The physical address the kernel image is linked to run at.
pub const KERNEL_BASE_ADDRESS: u64 = 0x10_0000;

/// The offset of the kernel's entry symbol from its load base.
pub const KERNEL_ENTRY_OFFSET: u64 = 0x1130;

/// The size of the buffer offered to each memory-map query.
pub const MEMORY_MAP_BUFFER_SIZE: usize = 4096 * 4;

/// The buffer size of the first file-metadata request.
pub const FILE_INFO_BUFFER_SIZE: usize = 128;

/// How many file-metadata requests are made before giving up.
pub const MAX_INFO_ATTEMPTS: u32 = 4;

/// How many reads in a row may return no bytes before the load fails.
pub const MAX_STALLED_READS: u32 = 3;

/// How many snapshot-and-surrender pairs are tried before giving up.
pub const MAX_SURRENDER_ATTEMPTS: u32 = 3;

/// The fixed parameters of a boot attempt.
#[derive(Debug, Clone, Copy, PartialEq, Eq, Structural)]
pub struct BootConfig {
    pub kernel_base: u64,
    pub entry_offset: u64,
    pub memory_map_buffer_size: usize,
    pub info_buffer_size: usize,
    pub max_info_attempts: u32,
    pub max_stalled_reads: u32,
    pub max_surrender_attempts: u32,
}

impl BootConfig {
    pub open spec fn wf(self) -> bool {
        &&& self.kernel_base % PAGE_SIZE == 0
        &&& self.kernel_base + self.entry_offset <= u64::MAX
        &&& self.max_info_attempts >= 1
        &&& self.max_stalled_reads >= 1
        &&& self.max_surrender_attempts >= 1
    }

    /// The kernel's entry address: the load base plus the entry offset.
    pub open spec fn entry(self) -> u64 {
        (self.kernel_base + self.entry_offset) as u64
    }

    /// The parameters the kernel is built for.
    pub fn standard() -> (r: BootConfig)
        ensures
            r.wf(),
            r == (BootConfig {
                kernel_base: KERNEL_BASE_ADDRESS,
                entry_offset: KERNEL_ENTRY_OFFSET,
                memory_map_buffer_size: MEMORY_MAP_BUFFER_SIZE,
                info_buffer_size: FILE_INFO_BUFFER_SIZE,
                max_info_attempts: MAX_INFO_ATTEMPTS,
                max_stalled_reads: MAX_STALLED_READS,
                max_surrender_attempts: MAX_SURRENDER_ATTEMPTS,
            }),
    {
        BootConfig {
            kernel_base: KERNEL_BASE_ADDRESS,
            entry_offset: KERNEL_ENTRY_OFFSET,
            memory_map_buffer_size: MEMORY_MAP_BUFFER_SIZE,
            info_buffer_size: FILE_INFO_BUFFER_SIZE,
            max_info_attempts: MAX_INFO_ATTEMPTS,
            max_stalled_reads: MAX_STALLED_READS,
            max_surrender_attempts: MAX_SURRENDER_ATTEMPTS,
        }
    }
}

/// The number of pages that hold `size` bytes.
pub open spec fn pages_of(size: u64) -> int {
    (size + PAGE_SIZE - 1) / PAGE_SIZE as int
}

/// The number of pages that hold `size` bytes: `size` divided by the page
/// size, rounded up.
pub fn pages_for(size: u64) -> (r: u64)
    ensures
        r == pages_of(size),
        r * PAGE_SIZE >= size,
        r == 0 || (r - 1) * PAGE_SIZE < size,
{
    let r = size / PAGE_SIZE + if size % PAGE_SIZE == 0 {
        0
    } else {
        1
    };
    assert(r == pages_of(size) && r * PAGE_SIZE >= size && (r == 0 || (r - 1) * PAGE_SIZE < size))
        by (nonlinear_arith)
        requires
            r == size / PAGE_SIZE + if size % PAGE_SIZE == 0 {
                0int
            } else {
                1int
            },
            PAGE_SIZE == 4096,
            size >= 0,
    ;
    r
}

/// True when an image of `size` bytes fits at the configured base: its
/// pages end inside the address space and its length fits a read.
pub open spec fn image_fits(c: BootConfig, size: u64) -> bool {
    &&& size <= usize::MAX
    &&& c.kernel_base + pages_of(size) * PAGE_SIZE <= u64::MAX
}

/// Where the controller stands. Each non-terminal state names the request
/// it has issued and is waiting on.
#[derive(Debug, Clone, Copy, PartialEq, Eq, Structural)]
pub enum BootState {
    /// Nothing issued yet.
    Init,
    /// The file system capability has been asked for.
    Discovering,
    /// The file system interface is known; its volume is being opened.
    CapabilitiesResolved { file_system: u64 },
    /// The root directory is open; the kernel file is being opened.
    RootOpened { root: u64 },
    /// The kernel file is open; its metadata is being read with a buffer of
    /// `info_buffer` bytes, request number `info_attempts`.
    FileOpened { file: u64, info_buffer: usize, info_attempts: u32 },
    /// The pages at the fixed load address are being reserved.
    Reserving { file: u64, file_size: u64 },
    /// `copied` bytes of the image are in place; the rest is being read.
    /// `stalls` counts the reads in a row that returned nothing.
    Loading { file: u64, file_size: u64, copied: u64, stalls: u32 },
    /// The image is in place; a memory-map snapshot is being taken, with
    /// `attempts` snapshot-and-surrender pairs left.
    ImageLoaded { entry: u64, attempts: u32 },
    /// Boot services are being surrendered with the key of the snapshot
    /// just taken.
    MapSnapshotted { entry: u64, map_key: usize, attempts: u32 },
    /// Boot services are gone and control was handed to the kernel.
    ControlTransferred { entry: u64 },
    /// The attempt failed; the processor is to be halted.
    Aborted { error: LoaderError },
}

/// What firmware answered to the last request.
pub enum Event {
    /// Begin the attempt.
    Start,
    ProtocolLocated { status: u64, interface: u64 },
    VolumeOpened { status: u64, root: u64 },
    FileOpened { status: u64, file: u64 },
    /// The status, the buffer size written back, and the buffer.
    InfoRead { status: u64, buffer_size: usize, info: Vec<u8> },
    PagesAllocated { status: u64 },
    ReadDone { status: u64, bytes_read: usize },
    /// The status, the map size written back, and the map key.
    MemoryMapRead { status: u64, map_size: usize, map_key: usize },
    BootServicesExited { status: u64 },
    /// The kernel's entry function came back.
    KernelReturned,
}

/// The next request for firmware, or the end of the attempt.
#[derive(Debug, Clone, Copy, PartialEq, Eq, Structural)]
pub enum Action {
    LocateProtocol { guid: EfiGuid },
    OpenVolume { file_system: u64 },
    /// Open the kernel path held by the controller.
    OpenFile { directory: u64, open_mode: u64, attributes: u64 },
    GetFileInfo { file: u64, buffer_size: usize },
    AllocatePages { allocate_type: u32, memory_type: u32, pages: u64, address: u64 },
    /// Read up to `length` bytes of `file` into memory at `address`.
    Read { file: u64, address: u64, length: usize },
    GetMemoryMap { buffer_size: usize },
    ExitBootServices { map_key: usize },
    /// Jump to the kernel entry; it is not expected to return.
    TransferControl { entry: u64 },
    /// Report `error`, if any, and halt the processor.
    Halt { error: Option<LoaderError> },
}

/// Stop the attempt with `e`.
pub open spec fn abort(e: LoaderError) -> (BootState, Action) {
    (BootState::Aborted { error: e }, Action::Halt { error: Some(e) })
}

/// A handle written back by a successful open; a null one is a defect.
pub open spec fn handle_result(status: u64, handle: u64) -> Result<u64, LoaderError> {
    if status == EfiStatusCode::EfiSuccess.raw() {
        if handle != 0 {
            Ok(handle)
        } else {
            Err(LoaderError::InvalidParameter)
        }
    } else {
        Err(error_for_raw(status))
    }
}

/// Reserve the pages of an image of `size` bytes at the fixed address.
pub open spec fn reserve(c: BootConfig, file: u64, size: u64) -> (BootState, Action) {
    if image_fits(c, size) {
        (
            BootState::Reserving { file, file_size: size },
            Action::AllocatePages {
                allocate_type: EfiAllocateType::AllocateAddress.raw(),
                memory_type: MemoryType::EfiLoaderData.raw(),
                pages: pages_of(size) as u64,
                address: c.kernel_base,
            },
        )
    } else {
        abort(LoaderError::ImageTooLarge)
    }
}

/// Read the part of the image past the first `copied` bytes.
pub open spec fn read_rest(c: BootConfig, file: u64, size: u64, copied: u64, stalls: u32) -> (
    BootState,
    Action,
) {
    (
        BootState::Loading { file, file_size: size, copied, stalls },
        Action::Read {
            file,
            address: (c.kernel_base + copied) as u64,
            length: (size - copied) as usize,
        },
    )
}

/// The image is in place: take a memory-map snapshot.
pub open spec fn image_loaded(c: BootConfig) -> (BootState, Action) {
    (
        BootState::ImageLoaded { entry: c.entry(), attempts: c.max_surrender_attempts },
        Action::GetMemoryMap { buffer_size: c.memory_map_buffer_size },
    )
}

/// The controller's next state and request, given its state and the event.
pub open spec fn transition(c: BootConfig, s: BootState, e: Event) -> (BootState, Action) {
    match s {
        BootState::Init => match e {
            Event::Start => (
                BootState::Discovering,
                Action::LocateProtocol { guid: simple_file_system_guid() },
            ),
            _ => abort(LoaderError::InvalidParameter),
        },
        BootState::Discovering => match e {
            Event::ProtocolLocated { status, interface } => match discovery_result(
                status,
                interface,
            ) {
                Ok(fs) => (
                    BootState::CapabilitiesResolved { file_system: fs },
                    Action::OpenVolume { file_system: fs },
                ),
                Err(err) => abort(err),
            },
            _ => abort(LoaderError::InvalidParameter),
        },
        BootState::CapabilitiesResolved { .. } => match e {
            Event::VolumeOpened { status, root } => match handle_result(status, root) {
                Ok(r) => (
                    BootState::RootOpened { root: r },
                    Action::OpenFile {
                        directory: r,
                        open_mode: OpenMode::EfiFileModeRead.bits(),
                        attributes: FileAttributes::EfiFileReadOnly.bits(),
                    },
                ),
                Err(err) => abort(err),
            },
            _ => abort(LoaderError::InvalidParameter),
        },
        BootState::RootOpened { .. } => match e {
            Event::FileOpened { status, file } => match handle_result(status, file) {
                Ok(f) => (
                    BootState::FileOpened {
                        file: f,
                        info_buffer: c.info_buffer_size,
                        info_attempts: 1,
                    },
                    Action::GetFileInfo { file: f, buffer_size: c.info_buffer_size },
                ),
                Err(err) => abort(err),
            },
            _ => abort(LoaderError::InvalidParameter),
        },
        BootState::FileOpened { file, info_buffer, info_attempts } => match e {
            Event::InfoRead { status, buffer_size, info } => {
                if status == EfiStatusCode::EfiSuccess.raw() {
                    if info@.len() >= FILE_INFO_HEADER_SIZE {
                        reserve(c, file, field(info@, 8, 8) as u64)
                    } else {
                        abort(LoaderError::InvalidParameter)
                    }
                } else if status == EfiStatusCode::EfiBufferTooSmall.raw() {
                    if buffer_size > info_buffer && info_attempts < c.max_info_attempts {
                        (
                            BootState::FileOpened {
                                file,
                                info_buffer: buffer_size,
                                info_attempts: (info_attempts + 1) as u32,
                            },
                            Action::GetFileInfo { file, buffer_size },
                        )
                    } else {
                        abort(LoaderError::BufferTooSmall { required: buffer_size })
                    }
                } else {
                    abort(error_for_raw(status))
                }
            },
            _ => abort(LoaderError::InvalidParameter),
        },
        BootState::Reserving { file, file_size } => match e {
            Event::PagesAllocated { status } => {
                if status == EfiStatusCode::EfiSuccess.raw() {
                    if file_size == 0 {
                        image_loaded(c)
                    } else {
                        read_rest(c, file, file_size, 0, 0)
                    }
                } else if status == EfiStatusCode::EfiNotFound.raw() || status
                    == EfiStatusCode::EfiOutOfResources.raw() {
                    abort(LoaderError::AllocationConflict)
                } else {
                    abort(error_for_raw(status))
                }
            },
            _ => abort(LoaderError::InvalidParameter),
        },
        BootState::Loading { file, file_size, copied, stalls } => match e {
            Event::ReadDone { status, bytes_read } => {
                if status != EfiStatusCode::EfiSuccess.raw() {
                    abort(error_for_raw(status))
                } else if bytes_read > file_size - copied {
                    abort(LoaderError::InvalidParameter)
                } else if bytes_read == 0 {
                    if stalls + 1 >= c.max_stalled_reads {
                        abort(LoaderError::ShortRead)
                    } else {
                        read_rest(c, file, file_size, copied, (stalls + 1) as u32)
                    }
                } else if copied + bytes_read == file_size {
                    image_loaded(c)
                } else {
                    read_rest(c, file, file_size, (copied + bytes_read) as u64, 0)
                }
            },
            _ => abort(LoaderError::InvalidParameter),
        },
        BootState::ImageLoaded { entry, attempts } => match e {
            Event::MemoryMapRead { status, map_size, map_key } => {
                if status == EfiStatusCode::EfiSuccess.raw() {
                    (
                        BootState::MapSnapshotted { entry, map_key, attempts },
                        Action::ExitBootServices { map_key },
                    )
                } else if status == EfiStatusCode::EfiBufferTooSmall.raw() {
                    abort(LoaderError::BufferTooSmall { required: map_size })
                } else {
                    abort(error_for_raw(status))
                }
            },
            _ => abort(LoaderError::InvalidParameter),
        },
        BootState::MapSnapshotted { entry, map_key, attempts } => match e {
            Event::BootServicesExited { status } => {
                if status == EfiStatusCode::EfiSuccess.raw() {
                    (BootState::ControlTransferred { entry }, Action::TransferControl { entry })
                } else if status == EfiStatusCode::EfiInvalidParameter.raw() {
                    if attempts > 1 {
                        (
                            BootState::ImageLoaded { entry, attempts: (attempts - 1) as u32 },
                            Action::GetMemoryMap { buffer_size: c.memory_map_buffer_size },
                        )
                    } else {
                        abort(LoaderError::StaleEpochToken)
                    }
                } else {
                    abort(error_for_raw(status))
                }
            },
            _ => abort(LoaderError::InvalidParameter),
        },
        BootState::ControlTransferred { .. } => (s, Action::Halt { error: None }),
        BootState::Aborted { error } => (s, Action::Halt { error: Some(error) }),
    }
}

/// The bounds each state keeps, which make every next request well formed.
pub open spec fn state_wf(c: BootConfig, s: BootState) -> bool {
    match s {
        BootState::FileOpened { info_attempts, .. } => 1 <= info_attempts <= c.max_info_attempts,
        BootState::Reserving { file_size, .. } => image_fits(c, file_size),
        BootState::Loading { file_size, copied, stalls, .. } => {
            &&& image_fits(c, file_size)
            &&& copied < file_size
            &&& stalls < c.max_stalled_reads
        },
        BootState::ImageLoaded { entry, attempts } => entry == c.entry() && 1 <= attempts
            <= c.max_surrender_attempts,
        BootState::MapSnapshotted { entry, attempts, .. } => entry == c.entry() && 1 <= attempts
            <= c.max_surrender_attempts,
        _ => true,
    }
}

/// Every transition keeps the state's bounds.
pub proof fn lemma_transition_wf(c: BootConfig, s: BootState, e: Event)
    requires
        c.wf(),
        state_wf(c, s),
    ensures
        state_wf(c, transition(c, s, e).0),
{
    match s {
        BootState::Loading { file_size, copied, .. } => {
            assert(pages_of(file_size) * PAGE_SIZE >= file_size) by (nonlinear_arith)
                requires
                    PAGE_SIZE == 4096,
                    file_size >= 0,
            ;
        },
        _ => {},
    }
}

/// The state reached and the requests issued when `events` arrive in order.
pub open spec fn run(c: BootConfig, s: BootState, events: Seq<Event>) -> (BootState, Seq<Action>)
    decreases events.len(),
{
    if events.len() == 0 {
        (s, Seq::empty())
    } else {
        let (next, action) = transition(c, s, events[0]);
        let (last, rest) = run(c, next, events.drop_first());
        (last, seq![action] + rest)
    }
}

/// The number of surrender requests among `actions`.
pub open spec fn surrenders(actions: Seq<Action>) -> nat
    decreases actions.len(),
{
    if actions.len() == 0 {
        0
    } else {
        (if actions[0] is ExitBootServices {
            1nat
        } else {
            0nat
        }) + surrenders(actions.drop_first())
    }
}

/// How many more surrender requests a controller in state `s` may issue.
pub open spec fn surrender_budget(c: BootConfig, s: BootState) -> nat {
    match s {
        BootState::ImageLoaded { attempts, .. } => attempts as nat,
        BootState::MapSnapshotted { attempts, .. } => (attempts - 1) as nat,
        BootState::ControlTransferred { .. } => 0,
        BootState::Aborted { .. } => 0,
        _ => c.max_surrender_attempts as nat,
    }
}

/// The snapshot and the surrender form one indivisible pair: a surrender
/// request is issued only as the answer to a successful memory-map
/// snapshot, with exactly the key that snapshot returned. So no other
/// request stands between the two, and after a failed surrender the next
/// surrender waits for a fresh snapshot.
pub proof fn lemma_surrender_follows_snapshot(c: BootConfig, s: BootState, e: Event, key: usize)
    requires
        transition(c, s, e).1 == (Action::ExitBootServices { map_key: key }),
    ensures
        s is ImageLoaded,
        e matches Event::MemoryMapRead { status, map_key, .. } && status
            == EfiStatusCode::EfiSuccess.raw() && map_key == key,
{
}

/// A surrender refused for a stale key, with attempts left, is followed by
/// a new snapshot request; with none left the attempt aborts.
pub proof fn lemma_stale_key_resnapshots(c: BootConfig, entry: u64, key: usize, attempts: u32)
    ensures
        attempts > 1 ==> transition(
            c,
            BootState::MapSnapshotted { entry, map_key: key, attempts },
            Event::BootServicesExited { status: EfiStatusCode::EfiInvalidParameter.raw() },
        ) == (
            BootState::ImageLoaded { entry, attempts: (attempts - 1) as u32 },
            Action::GetMemoryMap { buffer_size: c.memory_map_buffer_size },
        ),
        attempts <= 1 ==> transition(
            c,
            BootState::MapSnapshotted { entry, map_key: key, attempts },
            Event::BootServicesExited { status: EfiStatusCode::EfiInvalidParameter.raw() },
        ) == abort(LoaderError::StaleEpochToken),
{
}

/// Retries of the snapshot-and-surrender pair are capped: whatever firmware
/// answers, a controller issues at most its remaining budget of surrender
/// requests, and from the start at most `max_surrender_attempts`.
pub proof fn lemma_surrender_attempts_bounded(c: BootConfig, s: BootState, events: Seq<Event>)
    requires
        c.wf(),
        state_wf(c, s),
    ensures
        surrenders(run(c, s, events).1) <= surrender_budget(c, s),
    decreases events.len(),
{
    if events.len() > 0 {
        let (next, action) = transition(c, s, events[0]);
        lemma_transition_wf(c, s, events[0]);
        lemma_surrender_attempts_bounded(c, next, events.drop_first());
        let acts = run(c, s, events).1;
        assert(acts.drop_first() == run(c, next, events.drop_first()).1);
        assert(acts[0] == action);
    }
}

/// An aborted controller stays aborted and asks for nothing but a halt,
/// whatever arrives afterwards.
pub proof fn lemma_aborted_is_final(c: BootConfig, error: LoaderError, events: Seq<Event>)
    ensures
        run(c, BootState::Aborted { error }, events).0 == (BootState::Aborted { error }),
        forall|i: int|
            0 <= i < events.len() ==> #[trigger] run(c, BootState::Aborted { error }, events).1[i]
                == (Action::Halt { error: Some(error) }),
        run(c, BootState::Aborted { error }, events).1.len() == events.len(),
    decreases events.len(),
{
    if events.len() > 0 {
        lemma_aborted_is_final(c, error, events.drop_first());
        let acts = run(c, BootState::Aborted { error }, events).1;
        assert forall|i: int| 0 <= i < events.len() implies #[trigger] acts[i] == (Action::Halt {
            error: Some(error),
        }) by {
            if i > 0 {
                assert(acts[i] == run(c, BootState::Aborted { error }, events.drop_first()).1[i
                    - 1]);
            }
        }
    }
}

/// A refused fixed-address allocation aborts with `AllocationConflict`, and
/// no read of the image is requested afterwards, whatever firmware answers.
pub proof fn lemma_allocation_conflict_aborts(
    c: BootConfig,
    file: u64,
    file_size: u64,
    status: u64,
    later: Seq<Event>,
)
    requires
        status == EfiStatusCode::EfiNotFound.raw() || status
            == EfiStatusCode::EfiOutOfResources.raw(),
    ensures
        transition(c, BootState::Reserving { file, file_size }, Event::PagesAllocated { status })
            == abort(LoaderError::AllocationConflict),
        forall|i: int|
            0 <= i < later.len() ==> !(#[trigger] run(
                c,
                BootState::Aborted { error: LoaderError::AllocationConflict },
                later,
            ).1[i] is Read),
{
    lemma_aborted_is_final(c, LoaderError::AllocationConflict, later);
}

/// A read that returns fewer bytes than were asked for is followed by a
/// read of the rest: the destination advances by the bytes received and
/// the length shrinks by as much. A read that completes the image moves on
/// to the snapshot.
pub proof fn lemma_short_read_continues(
    c: BootConfig,
    file: u64,
    file_size: u64,
    copied: u64,
    stalls: u32,
    bytes_read: usize,
)
    requires
        c.wf(),
        state_wf(c, BootState::Loading { file, file_size, copied, stalls }),
        0 < bytes_read <= file_size - copied,
    ensures
        copied + bytes_read < file_size ==> transition(
            c,
            BootState::Loading { file, file_size, copied, stalls },
            Event::ReadDone { status: EfiStatusCode::EfiSuccess.raw(), bytes_read },
        ) == (
            BootState::Loading { file, file_size, copied: (copied + bytes_read) as u64, stalls: 0 },
            Action::Read {
                file,
                address: (c.kernel_base + copied + bytes_read) as u64,
                length: (file_size - copied - bytes_read) as usize,
            },
        ),
        copied + bytes_read == file_size ==> transition(
            c,
            BootState::Loading { file, file_size, copied, stalls },
            Event::ReadDone { status: EfiStatusCode::EfiSuccess.raw(), bytes_read },
        ) == image_loaded(c),
{
}

/// Once the image's metadata is read, the pages requested are the file
/// size rounded up to whole pages, at the fixed load address.
pub proof fn lemma_allocation_request(
    c: BootConfig,
    file: u64,
    info_buffer: usize,
    info_attempts: u32,
    buffer_size: usize,
    info: Vec<u8>,
)
    requires
        info@.len() >= FILE_INFO_HEADER_SIZE,
        image_fits(c, field(info@, 8, 8) as u64),
    ensures
        transition(
            c,
            BootState::FileOpened { file, info_buffer, info_attempts },
            Event::InfoRead { status: EfiStatusCode::EfiSuccess.raw(), buffer_size, info },
        ).1 == (Action::AllocatePages {
            allocate_type: EfiAllocateType::AllocateAddress.raw(),
            memory_type: MemoryType::EfiLoaderData.raw(),
            pages: pages_of(field(info@, 8, 8) as u64) as u64,
            address: c.kernel_base,
        }),
{
}

fn do_abort(e: LoaderError) -> (r: (BootState, Action))
    ensures
        r == abort(e),
{
    (BootState::Aborted { error: e }, Action::Halt { error: Some(e) })
}

fn do_reserve(c: BootConfig, file: u64, size: u64) -> (r: (BootState, Action))
    requires
        c.wf(),
    ensures
        r == reserve(c, file, size),
{
    let pages = pages_for(size);
    if size as u128 > usize::MAX as u128 {
        return do_abort(LoaderError::ImageTooLarge);
    }
    match pages.checked_mul(PAGE_SIZE) {
        Some(bytes) => match c.kernel_base.checked_add(bytes) {
            Some(_) => (
                BootState::Reserving { file, file_size: size },
                Action::AllocatePages {
                    allocate_type: EfiAllocateType::AllocateAddress.to_u32(),
                    memory_type: MemoryType::EfiLoaderData.to_raw(),
                    pages,
                    address: c.kernel_base,
                },
            ),
            None => do_abort(LoaderError::ImageTooLarge),
        },
        None => do_abort(LoaderError::ImageTooLarge),
    }
}

fn do_read_rest(c: BootConfig, file: u64, size: u64, copied: u64, stalls: u32) -> (r: (
    BootState,
    Action,
))
    requires
        image_fits(c, size),
        copied < size,
    ensures
        r == read_rest(c, file, size, copied, stalls),
{
    assert(pages_of(size) * PAGE_SIZE >= size) by (nonlinear_arith)
        requires
            PAGE_SIZE == 4096,
            size >= 0,
    ;
    (
        BootState::Loading { file, file_size: size, copied, stalls },
        Action::Read {
            file,
            address: c.kernel_base + copied,
            length: (size - copied) as usize,
        },
    )
}

fn do_image_loaded(c: BootConfig) -> (r: (BootState, Action))
    requires
        c.wf(),
    ensures
        r == image_loaded(c),
{
    (
        BootState::ImageLoaded {
            entry: c.kernel_base + c.entry_offset,
            attempts: c.max_surrender_attempts,
        },
        Action::GetMemoryMap { buffer_size: c.memory_map_buffer_size },
    )
}

/// The decisions of one boot attempt, with the kernel path they open.
pub struct BootController {
    config: BootConfig,
    kernel_path: heapless::Vec<u16, 256>,
    state: BootState,
}

/// What a controller holds: its parameters, the UTF-16 kernel path with its
/// terminator, and its state.
pub struct ControllerView {
    pub config: BootConfig,
    pub kernel_path: Seq<u16>,
    pub state: BootState,
}

impl View for BootController {
    type V = ControllerView;

    closed spec fn view(&self) -> ControllerView {
        ControllerView {
            config: self.config,
            kernel_path: wide_units(self.kernel_path),
            state: self.state,
        }
    }
}

impl BootController {
    #[verifier::type_invariant]
    spec fn inv(self) -> bool {
        &&& self.config.wf()
        &&& state_wf(self.config, self.state)
    }

    /// A controller in `Init` that will load the kernel at `kernel_path`;
    /// `InvalidParameter` when the parameters are inconsistent or the path
    /// does not fit a wide string.
    pub fn new(config: BootConfig, kernel_path: &str) -> (r: Result<BootController, LoaderError>)
        ensures
            r is Ok <==> config.wf() && utf16_of(kernel_path@).len() + 1 <= WIDE_CAPACITY,
            r matches Ok(b) ==> b@ == (ControllerView {
                config,
                kernel_path: utf16_of(kernel_path@).push(0),
                state: BootState::Init,
            }),
            r is Err ==> r == Err::<BootController, LoaderError>(LoaderError::InvalidParameter),
    {
        let aligned = config.kernel_base % PAGE_SIZE == 0;
        let entry_ok = config.kernel_base.checked_add(config.entry_offset).is_some();
        if !aligned || !entry_ok || config.max_info_attempts == 0 || config.max_stalled_reads == 0
            || config.max_surrender_attempts == 0 {
            return Err(LoaderError::InvalidParameter);
        }
        match encode_wide(kernel_path) {
            Some(path) => Ok(BootController { config, kernel_path: path, state: BootState::Init }),
            None => Err(LoaderError::InvalidParameter),
        }
    }

    pub fn state(&self) -> (r: BootState)
        ensures
            r == self@.state,
    {
        self.state
    }

    pub fn config(&self) -> (r: BootConfig)
        ensures
            r == self@.config,
    {
        self.config
    }

    /// The kernel path that `OpenFile` requests open.
    pub fn kernel_path(&self) -> (r: &heapless::Vec<u16, 256>)
        ensures
            wide_units(*r) == self@.kernel_path,
    {
        &self.kernel_path
    }

    /// Takes firmware's answer to the last request and returns the next one.
    pub fn step(&mut self, event: Event) -> (action: Action)
        ensures
            final(self)@.config == old(self)@.config,
            final(self)@.kernel_path == old(self)@.kernel_path,
            (final(self)@.state, action) == transition(old(self)@.config, old(self)@.state, event),
    {
        proof {
            use_type_invariant(&*self);
            lemma_transition_wf(self.config, self.state, event);
        }
        let c = self.config;
        let (next, action) = match self.state {
            BootState::Init => match event {
                Event::Start => (
                    BootState::Discovering,
                    Action::LocateProtocol { guid: SimpleFileSystem::get_guid() },
                ),
                _ => do_abort(LoaderError::InvalidParameter),
            },
            BootState::Discovering => match event {
                Event::ProtocolLocated { status, interface } => match discover(
                    status,
                    interface,
                ) {
                    Ok(fs) => (
                        BootState::CapabilitiesResolved { file_system: fs },
                        Action::OpenVolume { file_system: fs },
                    ),
                    Err(err) => do_abort(err),
                },
                _ => do_abort(LoaderError::InvalidParameter),
            },
            BootState::CapabilitiesResolved { .. } => match event {
                Event::VolumeOpened { status, root } => match open_result(status, root) {
                    Ok(r) => (
                        BootState::RootOpened { root: r },
                        Action::OpenFile {
                            directory: r,
                            open_mode: OpenMode::EfiFileModeRead.to_u64(),
                            attributes: FileAttributes::EfiFileReadOnly.to_u64(),
                        },
                    ),
                    Err(err) => do_abort(err),
                },
                _ => do_abort(LoaderError::InvalidParameter),
            },
            BootState::RootOpened { .. } => match event {
                Event::FileOpened { status, file } => match open_result(status, file) {
                    Ok(f) => (
                        BootState::FileOpened {
                            file: f,
                            info_buffer: c.info_buffer_size,
                            info_attempts: 1,
                        },
                        Action::GetFileInfo { file: f, buffer_size: c.info_buffer_size },
                    ),
                    Err(err) => do_abort(err),
                },
                _ => do_abort(LoaderError::InvalidParameter),
            },
            BootState::FileOpened { file, info_buffer, info_attempts } => match event {
                Event::InfoRead { status, buffer_size, info } => {
                    if status == 0 {
                        match EfiFileInfo::parse(info.as_slice()) {
                            Some(meta) => do_reserve(c, file, meta.file_size),
                            None => do_abort(LoaderError::InvalidParameter),
                        }
                    } else if status == ERROR_BIT + 5 {
                        if buffer_size > info_buffer && info_attempts < c.max_info_attempts {
                            (
                                BootState::FileOpened {
                                    file,
                                    info_buffer: buffer_size,
                                    info_attempts: info_attempts + 1,
                                },
                                Action::GetFileInfo { file, buffer_size },
                            )
                        } else {
                            do_abort(LoaderError::BufferTooSmall { required: buffer_size })
                        }
                    } else {
                        do_abort(LoaderError::from_status(status))
                    }
                },
                _ => do_abort(LoaderError::InvalidParameter),
            },
            BootState::Reserving { file, file_size } => match event {
                Event::PagesAllocated { status } => {
                    if status == 0 {
                        if file_size == 0 {
                            do_image_loaded(c)
                        } else {
                            do_read_rest(c, file, file_size, 0, 0)
                        }
                    } else if status == ERROR_BIT + 14 || status == ERROR_BIT + 9 {
                        do_abort(LoaderError::AllocationConflict)
                    } else {
                        do_abort(LoaderError::from_status(status))
                    }
                },
                _ => do_abort(LoaderError::InvalidParameter),
            },
            BootState::Loading { file, file_size, copied, stalls } => match event {
                Event::ReadDone { status, bytes_read } => {
                    if status != 0 {
                        do_abort(LoaderError::from_status(status))
                    } else if bytes_read as u64 > file_size - copied {
                        do_abort(LoaderError::InvalidParameter)
                    } else if bytes_read == 0 {
                        if stalls + 1 >= c.max_stalled_reads {
                            do_abort(LoaderError::ShortRead)
                        } else {
                            do_read_rest(c, file, file_size, copied, stalls + 1)
                        }
                    } else if copied + bytes_read as u64 == file_size {
                        do_image_loaded(c)
                    } else {
                        do_read_rest(c, file, file_size, copied + bytes_read as u64, 0)
                    }
                },
                _ => do_abort(LoaderError::InvalidParameter),
            },
            BootState::ImageLoaded { entry, attempts } => match event {
                Event::MemoryMapRead { status, map_size, map_key } => {
                    if status == 0 {
                        (
                            BootState::MapSnapshotted { entry, map_key, attempts },
                            Action::ExitBootServices { map_key },
                        )
                    } else if status == ERROR_BIT + 5 {
                        do_abort(LoaderError::BufferTooSmall { required: map_size })
                    } else {
                        do_abort(LoaderError::from_status(status))
                    }
                },
                _ => do_abort(LoaderError::InvalidParameter),
            },
            BootState::MapSnapshotted { entry, attempts, .. } => match event {
                Event::BootServicesExited { status } => {
                    if status == 0 {
                        (BootState::ControlTransferred { entry }, Action::TransferControl { entry })
                    } else if status == ERROR_BIT + 2 {
                        if attempts > 1 {
                            (
                                BootState::ImageLoaded { entry, attempts: attempts - 1 },
                                Action::GetMemoryMap { buffer_size: c.memory_map_buffer_size },
                            )
                        } else {
                            do_abort(LoaderError::StaleEpochToken)
                        }
                    } else {
                        do_abort(LoaderError::from_status(status))
                    }
                },
                _ => do_abort(LoaderError::InvalidParameter),
            },
            BootState::ControlTransferred { entry } => (
                BootState::ControlTransferred { entry },
                Action::Halt { error: None },
            ),
            BootState::Aborted { error } => (
                BootState::Aborted { error },
                Action::Halt { error: Some(error) },
            ),
        };
        self.state = next;
        action
    }
}

/// Interprets the status and handle written back by an open request.
fn open_result(status: u64, handle: u64) -> (r: Result<u64, LoaderError>)
    ensures
        r == handle_result(status, handle),
{
    if status == 0 {
        if handle != 0 {
            Ok(handle)
        } else {
            Err(LoaderError::InvalidParameter)
        }
    } else {
        Err(LoaderError::from_status(status))
    }
}

} // verus!
