use session_index::client::{select_chats, str_contains};
use session_index::file::DownloadFile;
use session_index::serve::{DownloadDecision, password_matches, select_download};

fn fixture() -> Vec<DownloadFile> {
    vec![
        DownloadFile::new(String::from("a.txt"), 10, 1),
        DownloadFile::new(String::from("b.txt"), 20, 2),
    ]
}

#[test]
fn password_must_match_exactly() {
    let expected = String::from("hunter2");
    assert!(password_matches(Some(&String::from("hunter2")), &expected));
    assert!(!password_matches(Some(&String::from("hunter")), &expected));
    assert!(!password_matches(Some(&String::from("Hunter2")), &expected));
    assert!(!password_matches(Some(&String::new()), &expected));
    assert!(!password_matches(None, &expected));
}

#[test]
fn stale_fingerprint_is_rejected_before_lookup() {
    let files = fixture();
    match select_download(&files, 0, 1, 2) {
        DownloadDecision::Stale => {}
        _ => panic!("a fingerprint mismatch must be rejected as stale"),
    }
    // Even an out-of-range position reports staleness first.
    match select_download(&files, 99, 1, 2) {
        DownloadDecision::Stale => {}
        _ => panic!("a fingerprint mismatch must be rejected as stale"),
    }
}

#[test]
fn current_fingerprint_serves_the_requested_entry() {
    let files = fixture();
    match select_download(&files, 1, 5, 5) {
        DownloadDecision::Serve(f) => {
            assert_eq!(f.name, "b.txt");
            assert_eq!(f.file_size, 20);
        }
        _ => panic!("a valid request must be served"),
    }
    match select_download(&files, 2, 5, 5) {
        DownloadDecision::NotFound => {}
        _ => panic!("a position past the end must be not-found"),
    }
}

#[test]
fn contains_finds_contiguous_runs() {
    assert!(str_contains("Ubuntu Maniax Chat", "Ubuntu Maniax"));
    assert!(str_contains("abc", ""));
    assert!(str_contains("", ""));
    assert!(str_contains("abc", "abc"));
    assert!(!str_contains("ab", "abc"));
    assert!(!str_contains("Ubuntu", "ubuntu"));
    assert!(str_contains("xxabyy", "ab"));
    assert!(!str_contains("acb", "ab"));
}

#[test]
fn select_chats_keeps_matching_sources_in_order() {
    let names = vec![
        String::from("Ubuntu Maniax"),
        String::from("Random Group"),
        String::from("The Ubuntu Maniax Annex"),
        String::from("ubuntu maniax"),
    ];
    let picked = select_chats(&names, "Ubuntu Maniax");
    assert_eq!(picked, vec![0, 2]);
    let none = select_chats(&names, "no such chat");
    assert!(none.is_empty());
}
