use vorleser_server::worker::hashing::HashEntry;

#[test]
fn checksum_dir() {
    let entries = vec![
        HashEntry { path: b"all".to_vec(), is_file: false, content: vec![] },
        HashEntry { path: b"all/1.mp3".to_vec(), is_file: true, content: vec![1, 2, 3] },
        HashEntry { path: b"all/2.mp3".to_vec(), is_file: true, content: vec![4] },
    ];
    let d = vorleser_server::worker::hashing::checksum_dir(&entries);
    assert_eq!(d.len(), 32);
    // renaming a file changes the checksum, so a renamed book is a new one
    let mut renamed = entries;
    renamed[2].path = b"all/3.mp3".to_vec();
    assert_ne!(vorleser_server::worker::hashing::checksum_dir(&renamed), d);
}
