use tmpfile::ClosedTempFile;
use tmpfile::FsError;
use tmpfile::TempFile;
use tmpfile::TempFileBuilder;
use tmpfile::TempPath;

#[test]
fn create_binds_path() {
    let p = TempPath::new("/tmp", "a.txt");
    let t = TempFile::from_path(p, Ok(())).unwrap();
    assert_eq!(t.file_path().render(), "/tmp/a.txt");
}

#[test]
fn failed_create_surfaces_error_verbatim() {
    let p = TempPath::new("/tmp", "a.txt");
    let r = TempFile::from_path(p, Err(FsError::AlreadyExists));
    assert_eq!(r.err(), Some(FsError::AlreadyExists));

    let q = TempPath::new("/tmp", "a.txt");
    let r2 = TempFile::from_path(q, Err(FsError::PermissionDenied));
    assert_eq!(r2.err(), Some(FsError::PermissionDenied));
}

#[test]
fn build_reports_occupied_path() {
    let b = TempFileBuilder::new("/tmp");
    let r = b.build(Err(FsError::AlreadyExists));
    assert_eq!(r.err(), Some(FsError::AlreadyExists));
}

#[test]
fn build_success_keeps_resolved_path() {
    let mut b = TempFileBuilder::new("/tmp");
    b.with_file_name("chosen.dat");
    let expected = b.path().render();
    let t = b.build(Ok(())).unwrap();
    assert_eq!(t.file_path().render(), expected);
    assert_eq!(t.file_path().render(), "/tmp/chosen.dat");
}

#[test]
fn close_keeps_path() {
    let p = TempPath::new("/tmp", "a.txt");
    let t = TempFile::from_path(p, Ok(())).unwrap();
    let c: ClosedTempFile = t.close();
    assert_eq!(c.file_path().render(), "/tmp/a.txt");
}

#[test]
fn close_reopen_round_trip_keeps_path() {
    let p = TempPath::new("/tmp", "a.txt");
    let t = TempFile::from_path(p, Ok(())).unwrap();
    let before = t.file_path().render();
    let c = t.close();
    let t2 = c.reopen(Ok(())).unwrap();
    assert_eq!(t2.file_path().render(), before);
}

#[test]
fn reopen_after_external_delete_fails() {
    let p = TempPath::new("/tmp", "a.txt");
    let t = TempFile::from_path(p, Ok(())).unwrap();
    let c = t.close();
    let r = c.reopen(Err(FsError::NotFound));
    assert_eq!(r.err(), Some(FsError::NotFound));
}

#[test]
fn reopen_surfaces_other_errors_verbatim() {
    let p = TempPath::new("/tmp", "a.txt");
    let t = TempFile::from_path(p, Ok(())).unwrap();
    let c = t.close();
    let r = c.reopen(Err(FsError::Other));
    assert_eq!(r.err(), Some(FsError::Other));
}

#[test]
fn obligation_path_matches_handle_path() {
    let p = TempPath::new("/var/tmp", "t.bin");
    let t = TempFile::from_path(p, Ok(())).unwrap();
    assert_eq!(t.file_path().dir(), "/var/tmp");
    assert_eq!(t.file_path().file_name(), "t.bin");
}
