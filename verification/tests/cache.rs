use session_index::client::ClientWrapper;
use session_index::errors::RemoteError;
use session_index::file::DownloadFile;

fn fixture() -> Vec<DownloadFile> {
    vec![
        DownloadFile::new(String::from("alpha.iso"), 700 * 1024 * 1024, 11),
        DownloadFile::new(String::from("beta.iso"), 12345, 22),
    ]
}

#[test]
fn fresh_window_returns_identical() {
    let mut cache = ClientWrapper::new(900, vec![1, 2]);
    let t: i64 = 1_000_000;
    let (files, fp) = cache.apply_refresh(Ok(fixture()), t).unwrap();
    assert_eq!(files.len(), 2);

    let (f1, h1) = cache.get_cached_files(t + 10).unwrap();
    let (f2, h2) = cache.get_cached_files(t + 900).unwrap();
    assert_eq!(h1, fp);
    assert_eq!(h2, fp);
    assert_eq!(f1.len(), files.len());
    assert_eq!(f2.len(), files.len());
    for i in 0..files.len() {
        assert_eq!(f1[i].name, files[i].name);
        assert_eq!(f1[i].file_size, files[i].file_size);
        assert_eq!(f2[i].name, files[i].name);
        assert_eq!(f2[i].file_size, files[i].file_size);
    }
}

#[test]
fn expired_snapshot_is_not_served() {
    let mut cache = ClientWrapper::new(900, vec![]);
    let t: i64 = 50_000;
    cache.apply_refresh(Ok(fixture()), t).unwrap();
    assert!(cache.get_cached_files(t + 900).is_some());
    assert!(cache.get_cached_files(t + 901).is_none());
}

#[test]
fn single_refresh_within_window() {
    let mut cache = ClientWrapper::new(900, vec![]);
    let mut refreshes = 0;
    let t0: i64 = 42;
    let mut last_fp = None;
    for k in 0..4 {
        let t = t0 + k;
        let (_files, fp) = match cache.get_cached_files(t) {
            Some(r) => r,
            None => {
                refreshes += 1;
                cache.apply_refresh(Ok(fixture()), t).unwrap()
            }
        };
        if let Some(prev) = last_fp {
            assert_eq!(prev, fp);
        }
        last_fp = Some(fp);
    }
    assert_eq!(refreshes, 1);
}

#[test]
fn failed_refresh_keeps_snapshot_and_surfaces_error() {
    let mut cache = ClientWrapper::new(900, vec![]);
    let t: i64 = 7_000;
    let (_, fp) = cache.apply_refresh(Ok(fixture()), t).unwrap();

    // Force a refresh while the snapshot is still unexpired and let it fail.
    let err = cache
        .apply_refresh(Err(RemoteError::Io), t + 1)
        .expect_err("the remote error must be surfaced, not swallowed");
    assert_eq!(err, RemoteError::Io);

    // The prior snapshot is untouched: same fingerprint, same entries.
    let (files, fp2) = cache.get_cached_files(t + 2).unwrap();
    assert_eq!(fp2, fp);
    assert_eq!(files.len(), 2);
    assert_eq!(files[0].name, "alpha.iso");
}

#[test]
fn ttl_zero_scans_again_once_time_moves() {
    let mut cache = ClientWrapper::new(0, vec![1, 2]);
    let mut refreshes = 0;
    let mut fps = Vec::new();
    let mut t: i64 = 10;
    for _ in 0..2 {
        let (files, fp) = match cache.get_cached_files(t) {
            Some(r) => r,
            None => {
                refreshes += 1;
                cache.apply_refresh(Ok(fixture()), t).unwrap()
            }
        };
        assert_eq!(files.len(), 2);
        fps.push(fp);
        t += 1;
    }
    assert_eq!(refreshes, 2);
    assert_ne!(fps[0], fps[1]);
}

#[test]
fn refresh_changes_fingerprint_even_with_unchanged_remote() {
    let mut cache = ClientWrapper::new(0, vec![]);
    let t: i64 = 555;
    // The remote fixture is identical both times, and so is the capture
    // instant: only the per-entry salt differs.
    let (files1, fp1) = cache.apply_refresh(Ok(fixture()), t).unwrap();
    let (files2, fp2) = cache.apply_refresh(Ok(fixture()), t).unwrap();
    assert_ne!(fp1, fp2);
    assert_eq!(files1.len(), files2.len());
    for i in 0..files1.len() {
        assert_eq!(files1[i].name, files2[i].name);
        assert_eq!(files1[i].file_size, files2[i].file_size);
    }
}

#[test]
fn fingerprint_is_stable_for_one_snapshot() {
    let mut cache = ClientWrapper::new(900, vec![]);
    let t: i64 = 123;
    let (_, fp) = cache.apply_refresh(Ok(fixture()), t).unwrap();
    for k in 0..5 {
        let (_, h) = cache.get_cached_files(t + k).unwrap();
        assert_eq!(h, fp);
    }
}

#[test]
fn negative_and_zero_sizes_pass_through() {
    let mut cache = ClientWrapper::new(900, vec![]);
    let entries = vec![
        DownloadFile::new(String::from("unknown.bin"), -1, 1),
        DownloadFile::new(String::new(), 0, 2),
    ];
    let (files, _) = cache.apply_refresh(Ok(entries), 0).unwrap();
    assert_eq!(files[0].file_size, -1);
    assert_eq!(files[1].file_size, 0);
    assert_eq!(files[1].name, "");
}
