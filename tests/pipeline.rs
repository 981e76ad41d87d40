use uefi_lemola_os::boot::{
    pages_for, Action, BootConfig, BootController, BootState, Event, KERNEL_BASE_ADDRESS,
    KERNEL_ENTRY_OFFSET, MAX_SURRENDER_ATTEMPTS,
};
use uefi_lemola_os::error::LoaderError;
use uefi_lemola_os::guid::{EfiGuid, HasGuid, SimpleFileSystem};
use uefi_lemola_os::status::EfiStatusCode;
use uefi_lemola_os::wide::wide_to_vec;

const FILE_SYSTEM: u64 = 0xF000;
const ROOT: u64 = 0xD000;
const KERNEL_FILE: u64 = 0xE000;

fn raw(code: EfiStatusCode) -> u64 {
    code.to_raw()
}

/// A file information record: the fixed part, then a UTF-16 name.
fn info_record(file_size: u64, name: &str) -> Vec<u8> {
    let mut bytes = vec![0u8; 80];
    let units: Vec<u16> = name.encode_utf16().collect();
    let total = 80 + 2 * (units.len() as u64 + 1);
    bytes[0..8].copy_from_slice(&total.to_le_bytes());
    bytes[8..16].copy_from_slice(&file_size.to_le_bytes());
    bytes[16..24].copy_from_slice(&file_size.to_le_bytes());
    for u in units {
        bytes.extend_from_slice(&u.to_le_bytes());
    }
    bytes.extend_from_slice(&[0, 0]);
    bytes
}

/// Firmware as the controller sees it, with knobs for the cases under test.
struct Firmware {
    file_system_installed: bool,
    file_size: u64,
    read_chunk: usize,
    info_required: usize,
    allocation_refused: bool,
    map_required: usize,
    epoch: usize,
    injections_left: usize,
    snapshot_epoch: Option<usize>,
    // what was asked for
    actions: Vec<Action>,
    reads: usize,
    copied: u64,
}

impl Firmware {
    fn new(file_size: u64) -> Firmware {
        Firmware {
            file_system_installed: true,
            file_size,
            read_chunk: usize::MAX,
            info_required: 100,
            allocation_refused: false,
            map_required: 4096,
            epoch: 7,
            injections_left: 0,
            snapshot_epoch: None,
            actions: Vec::new(),
            reads: 0,
            copied: 0,
        }
    }

    fn answer(&mut self, action: Action) -> Option<Event> {
        self.actions.push(action);
        match action {
            Action::LocateProtocol { guid } => {
                if self.file_system_installed && guid == SimpleFileSystem::get_guid() {
                    Some(Event::ProtocolLocated { status: 0, interface: FILE_SYSTEM })
                } else {
                    Some(Event::ProtocolLocated {
                        status: raw(EfiStatusCode::EfiNotFound),
                        interface: 0,
                    })
                }
            }
            Action::OpenVolume { .. } => Some(Event::VolumeOpened { status: 0, root: ROOT }),
            Action::OpenFile { .. } => Some(Event::FileOpened { status: 0, file: KERNEL_FILE }),
            Action::GetFileInfo { buffer_size, .. } => {
                if buffer_size < self.info_required {
                    Some(Event::InfoRead {
                        status: raw(EfiStatusCode::EfiBufferTooSmall),
                        buffer_size: self.info_required,
                        info: Vec::new(),
                    })
                } else {
                    let info = info_record(self.file_size, "kernel.elf");
                    Some(Event::InfoRead { status: 0, buffer_size: info.len(), info })
                }
            }
            Action::AllocatePages { .. } => {
                if self.allocation_refused {
                    Some(Event::PagesAllocated { status: raw(EfiStatusCode::EfiNotFound) })
                } else {
                    Some(Event::PagesAllocated { status: 0 })
                }
            }
            Action::Read { length, .. } => {
                self.reads += 1;
                let left = (self.file_size - self.copied) as usize;
                let n = length.min(self.read_chunk).min(left);
                self.copied += n as u64;
                Some(Event::ReadDone { status: 0, bytes_read: n })
            }
            Action::GetMemoryMap { buffer_size } => {
                if buffer_size < self.map_required {
                    return Some(Event::MemoryMapRead {
                        status: raw(EfiStatusCode::EfiBufferTooSmall),
                        map_size: self.map_required,
                        map_key: 0,
                    });
                }
                self.snapshot_epoch = Some(self.epoch);
                let key = self.epoch;
                // a call slipped in between the snapshot and the surrender
                if self.injections_left > 0 {
                    self.injections_left -= 1;
                    self.epoch += 1;
                }
                Some(Event::MemoryMapRead { status: 0, map_size: 2048, map_key: key })
            }
            Action::ExitBootServices { map_key } => {
                if map_key == self.epoch {
                    Some(Event::BootServicesExited { status: 0 })
                } else {
                    Some(Event::BootServicesExited {
                        status: raw(EfiStatusCode::EfiInvalidParameter),
                    })
                }
            }
            Action::TransferControl { .. } => None,
            Action::Halt { .. } => None,
        }
    }
}

/// Drives a controller against `fw` until it transfers control or halts.
fn boot(fw: &mut Firmware) -> (BootController, Action) {
    let mut controller = BootController::new(BootConfig::standard(), "\\kernel.elf").unwrap();
    let mut action = controller.step(Event::Start);
    for _ in 0..1000 {
        match fw.answer(action) {
            Some(event) => action = controller.step(event),
            None => return (controller, action),
        }
    }
    panic!("the controller did not finish");
}

fn count(actions: &[Action], pred: fn(&Action) -> bool) -> usize {
    actions.iter().filter(|a| pred(a)).count()
}

#[test]
fn short_reads_are_continued_until_the_image_is_complete() {
    let mut fw = Firmware::new(4096);
    fw.read_chunk = 1024;
    let (controller, last) = boot(&mut fw);
    assert_eq!(fw.reads, 4);
    assert_eq!(fw.copied, 4096);
    assert_eq!(last, Action::TransferControl { entry: KERNEL_BASE_ADDRESS + KERNEL_ENTRY_OFFSET });
    assert!(matches!(controller.state(), BootState::ControlTransferred { .. }));
    let reads: Vec<(u64, usize)> = fw
        .actions
        .iter()
        .filter_map(|a| match a {
            Action::Read { address, length, .. } => Some((*address, *length)),
            _ => None,
        })
        .collect();
    assert_eq!(
        reads,
        vec![
            (0x100000, 4096),
            (0x100000 + 1024, 3072),
            (0x100000 + 2048, 2048),
            (0x100000 + 3072, 1024)
        ]
    );
}

#[test]
fn kernel_of_12345_bytes_takes_four_pages_at_the_fixed_address() {
    let mut fw = Firmware::new(12345);
    let (_, last) = boot(&mut fw);
    let allocations: Vec<&Action> =
        fw.actions.iter().filter(|a| matches!(a, Action::AllocatePages { .. })).collect();
    assert_eq!(
        allocations,
        vec![&Action::AllocatePages {
            allocate_type: 2,
            memory_type: 2,
            pages: 4,
            address: 0x100000
        }]
    );
    assert_eq!(fw.copied, 12345);
    // the entry point is handed out only after the whole image is in place
    let first_transfer = fw
        .actions
        .iter()
        .position(|a| matches!(a, Action::TransferControl { .. }))
        .unwrap();
    let last_read =
        fw.actions.iter().rposition(|a| matches!(a, Action::Read { .. })).unwrap();
    assert!(last_read < first_transfer);
    assert_eq!(last, Action::TransferControl { entry: 0x101130 });
}

#[test]
fn injected_call_forces_a_fresh_snapshot_before_the_retry() {
    let mut fw = Firmware::new(5000);
    fw.injections_left = 1;
    let (_, last) = boot(&mut fw);
    assert_eq!(last, Action::TransferControl { entry: 0x101130 });
    let tail: Vec<Action> = fw
        .actions
        .iter()
        .skip_while(|a| !matches!(a, Action::GetMemoryMap { .. }))
        .cloned()
        .collect();
    assert_eq!(
        tail,
        vec![
            Action::GetMemoryMap { buffer_size: 16384 },
            Action::ExitBootServices { map_key: 7 },
            Action::GetMemoryMap { buffer_size: 16384 },
            Action::ExitBootServices { map_key: 8 },
            Action::TransferControl { entry: 0x101130 },
        ]
    );
}

#[test]
fn surrender_retries_are_capped() {
    let mut fw = Firmware::new(5000);
    fw.injections_left = 100;
    let (controller, last) = boot(&mut fw);
    assert_eq!(last, Action::Halt { error: Some(LoaderError::StaleEpochToken) });
    let surrenders = count(&fw.actions, |a| matches!(a, Action::ExitBootServices { .. }));
    assert_eq!(surrenders, MAX_SURRENDER_ATTEMPTS as usize);
    assert_eq!(controller.state(), BootState::Aborted { error: LoaderError::StaleEpochToken });
}

#[test]
fn refused_allocation_aborts_without_loading() {
    let mut fw = Firmware::new(5000);
    fw.allocation_refused = true;
    let (mut controller, last) = boot(&mut fw);
    assert_eq!(last, Action::Halt { error: Some(LoaderError::AllocationConflict) });
    assert_eq!(count(&fw.actions, |a| matches!(a, Action::Read { .. })), 0);
    // nothing afterwards gets it going again
    let again = controller.step(Event::PagesAllocated { status: 0 });
    assert_eq!(again, Action::Halt { error: Some(LoaderError::AllocationConflict) });
}

#[test]
fn missing_file_system_is_capability_not_found() {
    let mut fw = Firmware::new(5000);
    fw.file_system_installed = false;
    let (_, last) = boot(&mut fw);
    assert_eq!(last, Action::Halt { error: Some(LoaderError::CapabilityNotFound) });
    assert_eq!(fw.actions.len(), 2);
}

#[test]
fn file_info_is_retried_with_the_size_firmware_reports() {
    let mut fw = Firmware::new(5000);
    fw.info_required = 300;
    let (_, last) = boot(&mut fw);
    assert_eq!(last, Action::TransferControl { entry: 0x101130 });
    let requests: Vec<usize> = fw
        .actions
        .iter()
        .filter_map(|a| match a {
            Action::GetFileInfo { buffer_size, .. } => Some(*buffer_size),
            _ => None,
        })
        .collect();
    assert_eq!(requests, vec![128, 300]);
}

#[test]
fn file_info_without_a_larger_size_aborts() {
    let mut c = BootController::new(BootConfig::standard(), "\\kernel.elf").unwrap();
    c.step(Event::Start);
    c.step(Event::ProtocolLocated { status: 0, interface: FILE_SYSTEM });
    c.step(Event::VolumeOpened { status: 0, root: ROOT });
    let a = c.step(Event::FileOpened { status: 0, file: KERNEL_FILE });
    assert_eq!(a, Action::GetFileInfo { file: KERNEL_FILE, buffer_size: 128 });
    let a = c.step(Event::InfoRead {
        status: raw(EfiStatusCode::EfiBufferTooSmall),
        buffer_size: 128,
        info: Vec::new(),
    });
    assert_eq!(a, Action::Halt { error: Some(LoaderError::BufferTooSmall { required: 128 }) });
}

#[test]
fn reads_that_stall_end_in_short_read() {
    let mut fw = Firmware::new(5000);
    fw.read_chunk = 0;
    let (_, last) = boot(&mut fw);
    assert_eq!(last, Action::Halt { error: Some(LoaderError::ShortRead) });
    assert_eq!(fw.reads, 3);
}

#[test]
fn small_memory_map_buffer_aborts_with_required_size() {
    let mut fw = Firmware::new(5000);
    fw.map_required = 20000;
    let (_, last) = boot(&mut fw);
    assert_eq!(last, Action::Halt { error: Some(LoaderError::BufferTooSmall { required: 20000 }) });
    assert_eq!(count(&fw.actions, |a| matches!(a, Action::ExitBootServices { .. })), 0);
}

#[test]
fn filesystem_errors_are_reported() {
    let cases = [
        (EfiStatusCode::EfiNotFound, LoaderError::NotFound),
        (EfiStatusCode::EfiAccessDenied, LoaderError::AccessDenied),
        (EfiStatusCode::EfiVolumeCorrupted, LoaderError::VolumeCorrupted),
        (EfiStatusCode::EfiDeviceError, LoaderError::DeviceError),
    ];
    for (status, error) in cases {
        let mut c = BootController::new(BootConfig::standard(), "\\kernel.elf").unwrap();
        c.step(Event::Start);
        c.step(Event::ProtocolLocated { status: 0, interface: FILE_SYSTEM });
        c.step(Event::VolumeOpened { status: 0, root: ROOT });
        let a = c.step(Event::FileOpened { status: raw(status), file: 0 });
        assert_eq!(a, Action::Halt { error: Some(error) });
    }
}

#[test]
fn read_error_and_overlong_read_abort() {
    let mut c = BootController::new(BootConfig::standard(), "\\kernel.elf").unwrap();
    c.step(Event::Start);
    c.step(Event::ProtocolLocated { status: 0, interface: FILE_SYSTEM });
    c.step(Event::VolumeOpened { status: 0, root: ROOT });
    c.step(Event::FileOpened { status: 0, file: KERNEL_FILE });
    let info = info_record(100, "k");
    let a = c.step(Event::InfoRead { status: 0, buffer_size: info.len(), info });
    assert_eq!(
        a,
        Action::AllocatePages { allocate_type: 2, memory_type: 2, pages: 1, address: 0x100000 }
    );
    let a = c.step(Event::PagesAllocated { status: 0 });
    assert_eq!(a, Action::Read { file: KERNEL_FILE, address: 0x100000, length: 100 });
    let a = c.step(Event::ReadDone { status: 0, bytes_read: 101 });
    assert_eq!(a, Action::Halt { error: Some(LoaderError::InvalidParameter) });

    let mut c = BootController::new(BootConfig::standard(), "\\kernel.elf").unwrap();
    c.step(Event::Start);
    c.step(Event::ProtocolLocated { status: 0, interface: FILE_SYSTEM });
    c.step(Event::VolumeOpened { status: 0, root: ROOT });
    c.step(Event::FileOpened { status: 0, file: KERNEL_FILE });
    let info = info_record(100, "k");
    c.step(Event::InfoRead { status: 0, buffer_size: info.len(), info });
    c.step(Event::PagesAllocated { status: 0 });
    let a = c.step(Event::ReadDone { status: raw(EfiStatusCode::EfiDeviceError), bytes_read: 0 });
    assert_eq!(a, Action::Halt { error: Some(LoaderError::DeviceError) });
}

#[test]
fn oversized_image_is_refused() {
    let mut c = BootController::new(BootConfig::standard(), "\\kernel.elf").unwrap();
    c.step(Event::Start);
    c.step(Event::ProtocolLocated { status: 0, interface: FILE_SYSTEM });
    c.step(Event::VolumeOpened { status: 0, root: ROOT });
    c.step(Event::FileOpened { status: 0, file: KERNEL_FILE });
    let info = info_record(u64::MAX - 10, "k");
    let a = c.step(Event::InfoRead { status: 0, buffer_size: info.len(), info });
    assert_eq!(a, Action::Halt { error: Some(LoaderError::ImageTooLarge) });
}

#[test]
fn empty_image_goes_straight_to_the_snapshot() {
    let mut fw = Firmware::new(0);
    let (_, last) = boot(&mut fw);
    assert_eq!(last, Action::TransferControl { entry: 0x101130 });
    assert_eq!(fw.reads, 0);
    assert!(fw.actions.contains(&Action::AllocatePages {
        allocate_type: 2,
        memory_type: 2,
        pages: 0,
        address: 0x100000
    }));
}

#[test]
fn unexpected_event_aborts_and_stays_aborted() {
    let mut c = BootController::new(BootConfig::standard(), "\\kernel.elf").unwrap();
    let a = c.step(Event::ReadDone { status: 0, bytes_read: 4 });
    assert_eq!(a, Action::Halt { error: Some(LoaderError::InvalidParameter) });
    let a = c.step(Event::Start);
    assert_eq!(a, Action::Halt { error: Some(LoaderError::InvalidParameter) });
}

#[test]
fn kernel_returning_halts_without_error() {
    let mut fw = Firmware::new(10);
    let (mut controller, last) = boot(&mut fw);
    assert_eq!(last, Action::TransferControl { entry: 0x101130 });
    assert_eq!(controller.step(Event::KernelReturned), Action::Halt { error: None });
}

#[test]
fn unknown_status_is_kept_raw() {
    let mut c = BootController::new(BootConfig::standard(), "\\kernel.elf").unwrap();
    c.step(Event::Start);
    let a = c.step(Event::ProtocolLocated { status: 0x8000_0000_0000_0063, interface: 0 });
    assert_eq!(
        a,
        Action::Halt { error: Some(LoaderError::UnknownStatus { raw: 0x8000_0000_0000_0063 }) }
    );
}

#[test]
fn controller_holds_the_wide_kernel_path() {
    let c = BootController::new(BootConfig::standard(), "\\kernel.elf").unwrap();
    let mut expected: Vec<u16> = "\\kernel.elf".encode_utf16().collect();
    expected.push(0);
    assert_eq!(wide_to_vec(c.kernel_path()), expected);
    assert_eq!(c.state(), BootState::Init);
    assert_eq!(c.config(), BootConfig::standard());
}

#[test]
fn controller_rejects_bad_parameters() {
    let long = "a".repeat(300);
    assert!(matches!(
        BootController::new(BootConfig::standard(), &long),
        Err(LoaderError::InvalidParameter)
    ));
    let mut cfg = BootConfig::standard();
    cfg.kernel_base = 0x100001;
    assert!(matches!(BootController::new(cfg, "\\k"), Err(LoaderError::InvalidParameter)));
    let mut cfg = BootConfig::standard();
    cfg.max_surrender_attempts = 0;
    assert!(matches!(BootController::new(cfg, "\\k"), Err(LoaderError::InvalidParameter)));
}

#[test]
fn first_request_asks_for_the_file_system() {
    let mut c = BootController::new(BootConfig::standard(), "\\kernel.elf").unwrap();
    let a = c.step(Event::Start);
    assert_eq!(
        a,
        Action::LocateProtocol {
            guid: EfiGuid::new(
                0x964e5b22, 0x6459, 0x11d2, 0x8e, 0x39, 0x00, 0xa0, 0xc9, 0x69, 0x72, 0x3b
            )
        }
    );
}

#[test]
fn pages_round_up() {
    assert_eq!(pages_for(0), 0);
    assert_eq!(pages_for(1), 1);
    assert_eq!(pages_for(4096), 1);
    assert_eq!(pages_for(4097), 2);
    assert_eq!(pages_for(12345), 4);
    assert_eq!(pages_for(u64::MAX), 1 << 52);
}
