use seal_extract::entry::Mtime;
use seal_extract::mtime::{first_mtime_step, next_mtime_step, MtimeEvent, MtimeStep};

#[test]
fn mtime_nothing_to_set() {
    assert_eq!(first_mtime_step(None), MtimeStep::Done);
    assert_eq!(first_mtime_step(Some(Mtime { secs: 1, nanos: 0 })), MtimeStep::OpenForWrite);
}

#[test]
fn mtime_falls_back_to_read_only_open() {
    let s = next_mtime_step(MtimeStep::OpenForWrite, MtimeEvent::FailedOn { is_dir: false });
    assert_eq!(s, MtimeStep::OpenForRead);
    let s = next_mtime_step(s, MtimeEvent::Succeeded);
    assert_eq!(s, MtimeStep::SetModified);
    assert_eq!(next_mtime_step(s, MtimeEvent::Succeeded), MtimeStep::Done);
}

#[test]
fn mtime_directory_failures_are_ignored() {
    assert_eq!(next_mtime_step(MtimeStep::OpenForRead, MtimeEvent::FailedOn { is_dir: true }), MtimeStep::Done);
    assert_eq!(next_mtime_step(MtimeStep::SetModified, MtimeEvent::FailedOn { is_dir: true }), MtimeStep::Done);
    assert_eq!(next_mtime_step(MtimeStep::OpenForRead, MtimeEvent::FailedOn { is_dir: false }), MtimeStep::Failed);
    assert_eq!(next_mtime_step(MtimeStep::SetModified, MtimeEvent::FailedOn { is_dir: false }), MtimeStep::Failed);
    assert_eq!(next_mtime_step(MtimeStep::Done, MtimeEvent::FailedOn { is_dir: false }), MtimeStep::Done);
}
