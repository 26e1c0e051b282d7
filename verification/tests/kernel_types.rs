use kstd::api::env::current_dir;
use kstd::api::task::{
    handle_kill, handle_signal, interrupt, pid, raise, send_signal, terminate, Builder, Signal, Sig,
};
use kstd::front::arch::DeliveryMode;
use kstd::front::device::{DeviceResult, DeviceStatus};
use kstd::front::mem::{Paddr, Vaddr, Zone, DMA32_END, DMA_END};
use kstd::front::vfs::{KeFsError, KeInode, KeInodeFlags, KeInodeId};
use kstd::io::{Error, ErrorKind};
use kstd::raw::vfs::{FsError, Inode, InodeFlags, InodeId, Kind};
use kstd::api::fs::{FileTimes, Permissions};

// ---------------------------------------------------------------------------
// File-system data types
// ---------------------------------------------------------------------------

#[test]
fn fs_errors_map_to_kinds() {
    let cases = [
        (FsError::Unknown, ErrorKind::Other, "Unknown"),
        (FsError::NotAFile, ErrorKind::IsADirectory, "NotAFile"),
        (FsError::OutOfBounds, ErrorKind::InvalidInput, "OutOfBounds"),
        (FsError::NoEntry, ErrorKind::NotFound, "NoEntry"),
        (FsError::NotADirectory, ErrorKind::NotADirectory, "NotADirectory"),
        (FsError::Found, ErrorKind::AlreadyExists, "Found"),
        (FsError::AlreadyExists, ErrorKind::AlreadyExists, "AlreadyExists"),
        (FsError::InvalidPath, ErrorKind::InvalidFilename, "InvalidPath"),
        (FsError::NotMounted, ErrorKind::NotConnected, "NotMounted"),
        (FsError::NotEmpty, ErrorKind::DirectoryNotEmpty, "NotEmpty"),
    ];
    for (e, k, n) in cases {
        assert_eq!(ErrorKind::from(e), k);
        assert_eq!(e.name(), n);
    }
    assert_eq!(FsError::NotEmpty.code(), 9);
}

#[test]
fn inode_flag_levels() {
    let mut f = InodeFlags::USER_READ() | InodeFlags::DIR();
    assert_eq!(f.into_raw(), 3);
    f.set_level(7);
    assert_eq!(f.level(), 7);
    assert_eq!(f.into_raw() & 0xffff_ffff_ffff, 3);
    f.set_level(2);
    assert_eq!(f.level(), 2);
    assert_eq!(f.into_raw(), (2u64 << 48) | 3);
    assert_eq!((f & InodeFlags::DIR()).into_raw(), 1);
    assert_eq!((!InodeFlags::from_raw(0)).into_raw(), u64::MAX);
    assert_eq!(u64::from(InodeFlags::from(4096u64)), 4096);
}

#[test]
fn inode_flag_names() {
    assert_eq!(InodeFlags::LEVEL_EXEC().name(), "LEVEL_EXEC");
    assert!(InodeFlags::OTHER_WRITE().is_known());
    assert_eq!(InodeFlags::from_raw(3).name(), "Unknown");
    assert!(!InodeFlags::from_raw(3).is_known());
}

#[test]
fn blank_inodes() {
    let i = Inode::new();
    let d = Inode::default();
    assert_eq!(i, d);
    assert_eq!(i.id, InodeId(0, 0));
    assert_eq!(i.kind, Kind::Unknown);
    assert_eq!(i.size, 0);
    assert_eq!(i.private, [0u8; 34]);
    assert_eq!(Kind::SymLink.code(), 5);
}

#[test]
fn kernel_side_types() {
    let i = KeInode::new();
    assert_eq!(i, KeInode::default());
    assert_eq!(i.id, KeInodeId(0, 0));
    let mut f = KeInodeFlags::GROUP_EXEC();
    assert_eq!(f.into_raw(), 64);
    f.set_level(1);
    assert_eq!(f.level(), 1);
    assert_eq!(KeFsError::InvalidPath.code(), 7);
}

#[test]
fn metadata_permissions_and_times() {
    let mut p = Permissions::from_readonly(true);
    assert!(p.readonly());
    p.set_readonly(false);
    assert!(!p.readonly());
    assert_eq!(FileTimes::new(), FileTimes::default());
    let mut t = FileTimes::new();
    t.set_accessed(5).set_modified(6);
    assert_ne!(t, FileTimes::default());
    let mut u = FileTimes::new();
    u.set_modified(6).set_accessed(5);
    assert_eq!(t, u);
}

// ---------------------------------------------------------------------------
// Devices and memory
// ---------------------------------------------------------------------------

#[test]
fn device_results() {
    assert_eq!(DeviceResult::ok(42).as_result(), Ok(42));
    assert_eq!(DeviceResult::err(DeviceStatus::BUSY()).as_result(), Err(DeviceStatus::BUSY()));
    assert_eq!(DeviceResult::new(9, DeviceStatus::IO_ERROR()).as_result(), Err(DeviceStatus::IO_ERROR()));
    assert_eq!(DeviceResult::new(9, DeviceStatus::SUCCESS()).as_result(), Ok(9));
    assert_eq!(DeviceResult::from_result(Ok(3)), DeviceResult::ok(3));
    assert_eq!(DeviceResult::from_result(Err(DeviceStatus::NOT_FOUND())), DeviceResult::new(0, DeviceStatus::NOT_FOUND()));
}

#[test]
fn device_result_round_trips() {
    for r in [Ok(0usize), Ok(17), Err(DeviceStatus::INVALID_ARG()), Err(DeviceStatus::UNSUPPORTED())] {
        assert_eq!(DeviceResult::from_result(r).as_result(), r);
    }
    // A failure that claims success reads back as success.
    assert_eq!(DeviceResult::from_result(Err(DeviceStatus::SUCCESS())).as_result(), Ok(0));
}

#[test]
fn device_status_names() {
    assert_eq!(DeviceStatus::UNSUPPORTED().into_raw(), usize::MAX);
    assert_eq!(DeviceStatus::UNSUPPORTED().name(), "UNSUPPORTED");
    assert_eq!(DeviceStatus::from_raw(77).name(), "Unknown");
    assert!(!DeviceStatus::from_raw(77).is_known());
    assert!(DeviceStatus::from(4usize).is_known());
    assert_eq!(usize::from(DeviceStatus::BUSY()), 3);
}

#[test]
fn zones_by_frame() {
    assert_eq!(Zone::from_pfn(0), Zone::Dma);
    assert_eq!(Zone::from_pfn(4095), Zone::Dma);
    assert_eq!(Zone::from_pfn(4096), Zone::Dma32);
    assert_eq!(Zone::from_pfn(1048575), Zone::Dma32);
    assert_eq!(Zone::from_pfn(1048576), Zone::Normal);
    assert_eq!(Zone::Dma.index(), 0);
    assert_eq!(Zone::Dma32.index(), 1);
    assert_eq!(Zone::Normal.index(), 2);
    assert_eq!(DMA_END, 16 * 1024 * 1024);
    assert_eq!(DMA32_END, 4 * 1024 * 1024 * 1024);
}

#[test]
fn zone_index_grows_with_frame() {
    let mut last = 0;
    for pfn in [0usize, 10, 4095, 4096, 5000, 1048575, 1048576, 1 << 30] {
        let i = Zone::from_pfn(pfn).index();
        assert!(i >= last);
        last = i;
    }
}

#[test]
fn addresses_round_trip() {
    assert_eq!(Paddr::from_raw(0x1000).to_raw(), 0x1000);
    assert_eq!(Vaddr::from_raw(0xdead_b000).to_raw(), 0xdead_b000);
}

#[test]
fn delivery_mode_bits() {
    assert_eq!(DeliveryMode::Fixed.bits(), 0);
    assert_eq!(DeliveryMode::LowestPri.bits(), 1 << 8);
    assert_eq!(DeliveryMode::Smi.bits(), 2 << 8);
    assert_eq!(DeliveryMode::Nmi.bits(), 4 << 8);
    assert_eq!(DeliveryMode::Init.bits(), 5 << 8);
    assert_eq!(DeliveryMode::StartUp.bits(), 6 << 8);
}

// ---------------------------------------------------------------------------
// Tasks and the environment
// ---------------------------------------------------------------------------

#[test]
fn signal_bits_are_single() {
    let all = [Sig::TERM, Sig::INTR, Sig::EXCP, Sig::USR0, Sig::USR1, Sig::USR2, Sig::USR3, Sig::RSVD];
    let mut seen = 0u64;
    for s in all {
        let b = s.bits();
        assert_eq!(b.count_ones(), 1);
        assert!(b <= 128);
        assert_eq!(seen & b, 0);
        seen |= b;
    }
    assert_eq!(seen, 255);
}

#[test]
fn signals_to_deliver() {
    assert_eq!(send_signal(4, Sig::USR1, 9), Signal { tid: 4, sig: Sig::USR1, data: 9 });
    assert_eq!(raise(2, Sig::USR0, 42), Signal { tid: 2, sig: Sig::USR0, data: 42 });
    assert_eq!(interrupt(7), Signal { tid: 7, sig: Sig::INTR, data: 0 });
    assert_eq!(terminate(7), Signal { tid: 7, sig: Sig::TERM, data: 0 });
}

#[test]
fn handles_wait_for_a_task_id() {
    assert_eq!(handle_signal(0, Sig::TERM, 0), None);
    assert_eq!(handle_signal(3, Sig::TERM, 1), Some(Signal { tid: 3, sig: Sig::TERM, data: 1 }));
    assert_eq!(handle_kill(0), None);
    assert_eq!(handle_kill(5), Some(5));
}

#[test]
fn process_ids() {
    assert_eq!(pid(Some(12)), 12);
    assert_eq!(pid(None), 0);
}

#[test]
fn builder_defaults() {
    let s = Builder::new().settings();
    assert_eq!(s.name, "spawned");
    assert_eq!(s.priority, 0);
    assert_eq!(s.cpu, None);
    let s = Builder::default().priority(5).name("worker-task".to_string()).affinity(2).settings();
    assert_eq!(s.name, "worker-task");
    assert_eq!(s.priority, 5);
    assert_eq!(s.cpu, Some(2));
}

#[test]
fn current_directory() {
    assert_eq!(current_dir(Some("home:/u".to_string())).ok().unwrap().as_str(), "home:/u");
    let e: Error = current_dir(None).err().unwrap();
    assert_eq!(e.kind(), ErrorKind::InvalidData);
    assert_eq!(e.message(), "Unknown task");
    let e = kstd::sugar::env::current_dir(None).err().unwrap();
    assert_eq!(e.kind(), ErrorKind::InvalidData);
}
