use gzip_sink::job::destination_name;
use gzip_sink::job::has_gz_extension;
use gzip_sink::job::notice_for;
use gzip_sink::job::plan_entry;
use gzip_sink::job::EntryKind;
use gzip_sink::job::Notice;
use gzip_sink::job::Task;
use gzip_sink::job::CHUNK_CAPACITY;
use std::path::Path;

#[test]
fn chunk_capacity_is_two_to_the_fifteenth() {
    assert_eq!(CHUNK_CAPACITY, 2_usize.pow(15));
    assert_eq!(CHUNK_CAPACITY, 32768);
}

#[test]
fn compressed_file_is_never_a_job() {
    assert_eq!(plan_entry(EntryKind::File, b"x.gz"), Task::Skip);
    assert_eq!(plan_entry(EntryKind::File, b"b.txt.gz"), Task::Skip);
    assert_eq!(plan_entry(EntryKind::File, b"a..gz"), Task::Skip);
    assert_eq!(plan_entry(EntryKind::File, b"..gz"), Task::Skip);
}

#[test]
fn file_is_compressed_under_its_name_with_gz_behind() {
    assert_eq!(plan_entry(EntryKind::File, b"x"), Task::Compress);
    assert_eq!(destination_name(b"x"), b"x.gz".to_vec());
    assert_eq!(destination_name(b"a.txt"), b"a.txt.gz".to_vec());
    assert_eq!(destination_name(b".profile"), b".profile.gz".to_vec());
    assert_eq!(destination_name(b""), b".gz".to_vec());
    assert_eq!(destination_name(&[0xff, 0x00]), vec![0xff, 0x00, b'.', b'g', b'z']);
}

#[test]
fn destination_of_a_job_is_skipped() {
    for name in [&b"x"[..], b"a.txt", b".", b".gz", b"gz", b"x.gz.", b"archive.tar"] {
        assert_eq!(plan_entry(EntryKind::File, name), Task::Compress);
        let destination = destination_name(name);
        assert_eq!(plan_entry(EntryKind::File, &destination), Task::Skip);
    }
}

#[test]
fn names_without_the_extension_are_jobs() {
    assert!(!has_gz_extension(b""));
    assert!(!has_gz_extension(b"gz"));
    assert!(!has_gz_extension(b".gz"));
    assert!(!has_gz_extension(b".."));
    assert!(!has_gz_extension(b"x.gz."));
    assert!(!has_gz_extension(b"x.GZ"));
    assert!(!has_gz_extension(b"x.tgz"));
    assert!(!has_gz_extension(b"x.gzip"));
    assert!(!has_gz_extension(b"x.gz.txt"));
    assert!(!has_gz_extension(b"xgz"));
    assert!(has_gz_extension(b"x.gz"));
    assert!(has_gz_extension(b".x.gz"));
    assert!(has_gz_extension(b"x.tar.gz"));
}

#[test]
fn extension_is_the_one_of_the_standard_library() {
    let names = [
        "", "gz", ".gz", "..", "...", "..gz", "x.gz", "x.gz.", "a.b.gz", ".a.gz", "x..gz", "gz.gz",
        ".gz.gz", "x.gzz", "x.g", "xgz", ".", "a.txt", "x.gz.gz", "g.z",
    ];
    for name in names {
        let expected = Path::new(name).extension().map(|extension| extension == "gz").unwrap_or(false);
        assert_eq!(has_gz_extension(name.as_bytes()), expected, "{}", name);
    }
}

#[test]
fn directories_are_walked_and_other_entries_left_alone() {
    assert_eq!(plan_entry(EntryKind::Directory, b"d"), Task::Descend);
    assert_eq!(plan_entry(EntryKind::Directory, b"d.gz"), Task::Descend);
    assert_eq!(plan_entry(EntryKind::Other, b"link"), Task::Skip);
    assert_eq!(plan_entry(EntryKind::Other, b"link.gz"), Task::Skip);
}

#[test]
fn tree_with_a_compressed_file_and_a_subdirectory() {
    let root = [(EntryKind::File, "a.txt"), (EntryKind::File, "b.txt.gz"), (EntryKind::Directory, "d")];
    let inner = [(EntryKind::File, "c.txt")];
    let mut created: Vec<String> = Vec::new();
    let mut walked: Vec<String> = Vec::new();
    for (kind, name) in root {
        match plan_entry(kind, name.as_bytes()) {
            Task::Compress => created.push(String::from_utf8(destination_name(name.as_bytes())).unwrap()),
            Task::Descend => walked.push(name.to_string()),
            Task::Skip => {}
        }
    }
    assert_eq!(walked, vec!["d".to_string()]);
    for (kind, name) in inner {
        match plan_entry(kind, name.as_bytes()) {
            Task::Compress => {
                let destination = String::from_utf8(destination_name(name.as_bytes())).unwrap();
                created.push(format!("d/{}", destination));
            }
            Task::Descend => unreachable!(),
            Task::Skip => {}
        }
    }
    assert_eq!(created, vec!["a.txt.gz".to_string(), "d/c.txt.gz".to_string()]);
}

#[test]
fn notices_follow_the_outcome_and_the_silence() {
    assert_eq!(notice_for(true, false), Some(Notice::Success));
    assert_eq!(notice_for(true, true), None);
    assert_eq!(notice_for(false, false), Some(Notice::Warning));
    assert_eq!(notice_for(false, true), Some(Notice::Warning));
}
