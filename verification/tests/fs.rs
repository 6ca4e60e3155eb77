use blflash::fs::{fs_read_file, fs_remove_file, fs_write_file, read, File, FileStore};
use blflash::Error;

fn path(s: &str) -> String {
    s.to_string()
}

#[test]
fn empty_store_has_no_file() {
    let fs = FileStore::new();
    assert_eq!(fs_read_file(&fs, &path("a.bin")), None);
    assert_eq!(read(&fs, &path("a.bin")), Err(Error::IO));
}

#[test]
fn written_file_is_read_back() {
    let mut fs = FileStore::new();
    fs_write_file(&mut fs, path("a.bin"), vec![1, 2, 3]);
    fs_write_file(&mut fs, path("b.bin"), vec![4]);
    assert_eq!(fs_read_file(&fs, &path("a.bin")), Some(vec![1, 2, 3]));
    assert_eq!(read(&fs, &path("b.bin")), Ok(vec![4]));
    assert_eq!(fs_read_file(&fs, &path("c.bin")), None);
}

#[test]
fn writing_again_replaces_the_file() {
    let mut fs = FileStore::new();
    fs_write_file(&mut fs, path("a.bin"), vec![1, 2, 3]);
    fs_write_file(&mut fs, path("b.bin"), vec![4]);
    fs_write_file(&mut fs, path("a.bin"), vec![9]);
    assert_eq!(fs_read_file(&fs, &path("a.bin")), Some(vec![9]));
    assert_eq!(fs_read_file(&fs, &path("b.bin")), Some(vec![4]));
    fs_remove_file(&mut fs, &path("a.bin"));
    assert_eq!(fs_read_file(&fs, &path("a.bin")), None);
}

#[test]
fn removed_file_is_gone_and_the_others_stay() {
    let mut fs = FileStore::new();
    fs_write_file(&mut fs, path("a"), vec![1]);
    fs_write_file(&mut fs, path("b"), vec![2]);
    fs_write_file(&mut fs, path("c"), vec![3]);
    fs_remove_file(&mut fs, &path("b"));
    fs_remove_file(&mut fs, &path("nothing"));
    assert_eq!(fs_read_file(&fs, &path("a")), Some(vec![1]));
    assert_eq!(fs_read_file(&fs, &path("b")), None);
    assert_eq!(fs_read_file(&fs, &path("c")), Some(vec![3]));
}

#[test]
fn file_is_stored_when_closed() {
    let mut fs = FileStore::new();
    let mut file = File::create(path("dump.bin"));
    assert_eq!(file.write(&[1, 2]), 2);
    assert_eq!(file.write(&[]), 0);
    assert_eq!(file.write(&[3]), 1);
    assert_eq!(fs_read_file(&fs, &path("dump.bin")), None);
    file.close(&mut fs);
    assert_eq!(fs_read_file(&fs, &path("dump.bin")), Some(vec![1, 2, 3]));
}
