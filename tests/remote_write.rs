use yabg3ml::remote::{begin_write, write_in, InjectError, RemoteAllocation, WriteEvent, WriteStage};

#[test]
fn empty_buffer_is_refused_up_front() {
    assert_eq!(begin_write(0), WriteStage::Failed { error: InjectError::EmptyPayload });
}

#[test]
fn allocate_then_copy() {
    let s = begin_write(64);
    assert_eq!(s, WriteStage::Allocate { size: 64 });
    let s = write_in(s, WriteEvent::Allocated { base: 0x7ff0_0000, last_error: 0 });
    assert_eq!(s, WriteStage::Copy { base: 0x7ff0_0000, size: 64 });
    let s = write_in(s, WriteEvent::Copied { written: 64 });
    assert_eq!(s, WriteStage::Done { region: RemoteAllocation { base: 0x7ff0_0000, size: 64 } });
}

#[test]
fn failed_allocation_keeps_code() {
    let s = write_in(begin_write(16), WriteEvent::Allocated { base: 0, last_error: 5 });
    assert_eq!(s, WriteStage::Failed { error: InjectError::AllocationError { code: 5 } });
}

#[test]
fn failed_or_short_copy() {
    let c = WriteStage::Copy { base: 4096, size: 16 };
    assert_eq!(
        write_in(c, WriteEvent::CopyFailed { code: 299 }),
        WriteStage::Failed { error: InjectError::RemoteWriteError { code: 299 } }
    );
    assert_eq!(
        write_in(c, WriteEvent::Copied { written: 8 }),
        WriteStage::Failed { error: InjectError::ShortWrite { written: 8 } }
    );
}

#[test]
fn out_of_order_report_changes_nothing() {
    let a = WriteStage::Allocate { size: 16 };
    assert_eq!(write_in(a, WriteEvent::Copied { written: 16 }), a);
    let f = WriteStage::Failed { error: InjectError::EmptyPayload };
    assert_eq!(write_in(f, WriteEvent::Allocated { base: 1, last_error: 0 }), f);
}
