use ipfs_fs::{unsupported, FsError, IpfsFile, IpfsFs, Metadata, SeekFrom};

fn hello_fs() -> IpfsFs<&'static str> {
    IpfsFs::new("client")
}

fn open_hello() -> IpfsFile {
    let fs = hello_fs();
    let key = fs.retrieval_key(Some("/a.txt")).unwrap();
    let fetched: Result<Vec<u8>, String> = Ok(b"hello world".to_vec());
    fs.open_fetched(key.to_string(), fetched).unwrap()
}

#[test]
fn hello_world_read_seek_read() {
    let mut f = open_hello();
    assert_eq!(f.size(), 11);
    assert_eq!(f.read(5), b"hello".to_vec());
    assert_eq!(f.position(), 5);
    assert_eq!(f.seek(SeekFrom::End(-5)), 6);
    assert_eq!(f.position(), 6);
    assert_eq!(f.read(5), b"world".to_vec());
}

#[test]
fn failed_fetch_gives_io_error() {
    let fs = hello_fs();
    let key = fs.retrieval_key(Some("/missing.txt")).unwrap();
    let fetched: Result<Vec<u8>, String> = Err("not found".to_string());
    let r = fs.open_fetched(key.to_string(), fetched);
    assert!(matches!(r, Err(FsError::IOError)));
}

#[test]
fn path_without_text_is_entry_not_found() {
    let fs = hello_fs();
    assert_eq!(fs.retrieval_key(None), Err(FsError::EntryNotFound));
    assert_eq!(fs.retrieval_key(Some("/a.txt")), Ok("/a.txt"));
}

#[test]
fn metadata_is_zeroed_for_any_path() {
    let fs = hello_fs();
    for p in ["/a.txt", "/missing.txt", "", "/dir/"] {
        let m = fs.metadata(p).unwrap();
        assert_eq!(m, Metadata::default());
        assert_eq!(m.len, 0);
        assert_eq!(m.accessed, 0);
        assert_eq!(m.created, 0);
        assert_eq!(m.modified, 0);
        assert!(!m.ft.file && !m.ft.dir && !m.ft.symlink);
        assert!(!m.ft.char_device && !m.ft.block_device && !m.ft.socket && !m.ft.fifo);
    }
}

#[test]
fn structural_operations_are_unsupported() {
    let fs = hello_fs();
    assert_eq!(fs.readlink("/a.txt"), Err(FsError::Unsupported));
    assert_eq!(fs.read_dir("/"), Err(FsError::Unsupported));
    assert_eq!(fs.create_dir("/d"), Err(FsError::Unsupported));
    assert_eq!(fs.remove_dir("/d"), Err(FsError::Unsupported));
    assert_eq!(fs.remove_file("/a.txt"), Err(FsError::Unsupported));
    assert_eq!(fs.rename("/a.txt", "/b.txt"), Err(FsError::Unsupported));
    assert_eq!(fs.symlink_metadata("/a.txt"), Err(FsError::Unsupported));
    assert_eq!(fs.mount("m".to_string(), "/m", 0u8), Err(FsError::Unsupported));
    assert_eq!(*fs.client(), "client");
}

#[test]
fn generic_rejection_is_unsupported() {
    assert_eq!(unsupported::<u32>(), Err(FsError::Unsupported));
}

#[test]
fn open_options_are_read_only() {
    let o = hello_fs().new_open_options();
    assert!(o.read);
    assert!(!o.write && !o.create_new && !o.create && !o.append && !o.truncate);
}

#[test]
fn read_whole_then_nothing() {
    let bytes = vec![9u8, 8, 7, 6, 5, 4, 3];
    let mut f = IpfsFile::new("/b".to_string(), bytes.clone());
    assert_eq!(f.size(), bytes.len() as u64);
    assert_eq!(f.position(), 0);
    assert_eq!(f.read(bytes.len()), bytes);
    assert_eq!(f.read(bytes.len()), Vec::<u8>::new());
    assert_eq!(f.read(100), Vec::<u8>::new());
}

#[test]
fn seek_to_every_offset_then_read_suffix() {
    let bytes = b"content-addressed".to_vec();
    let n = bytes.len();
    for k in 0..=n {
        let mut f = IpfsFile::new("/c".to_string(), bytes.clone());
        assert_eq!(f.seek(SeekFrom::Start(k as u64)), k as u64);
        assert_eq!(f.read(n), bytes[k..].to_vec());
    }
}

#[test]
fn seek_past_end_then_read_nothing() {
    let mut f = IpfsFile::new("/c".to_string(), vec![1, 2, 3]);
    assert_eq!(f.seek(SeekFrom::Start(10)), 3);
    assert_eq!(f.read(4), Vec::<u8>::new());
    assert_eq!(f.seek(SeekFrom::Start(u64::MAX)), 3);
    assert_eq!(f.seek(SeekFrom::End(i64::MAX)), 3);
    assert_eq!(f.seek(SeekFrom::Current(i64::MAX)), 3);
    assert_eq!(f.read(4), Vec::<u8>::new());
}

#[test]
fn seek_before_start_clamps_to_zero() {
    let mut f = IpfsFile::new("/c".to_string(), vec![1, 2, 3]);
    assert_eq!(f.seek(SeekFrom::End(-10)), 0);
    assert_eq!(f.seek(SeekFrom::Current(i64::MIN)), 0);
    assert_eq!(f.read(2), vec![1, 2]);
}

#[test]
fn seek_relative_to_cursor() {
    let mut f = IpfsFile::new("/c".to_string(), vec![10, 20, 30, 40, 50]);
    assert_eq!(f.read(1), vec![10]);
    assert_eq!(f.seek(SeekFrom::Current(2)), 3);
    assert_eq!(f.read(10), vec![40, 50]);
    assert_eq!(f.seek(SeekFrom::Current(-4)), 1);
    assert_eq!(f.read(1), vec![20]);
}

#[test]
fn short_buffer_reads_in_pieces() {
    let mut f = IpfsFile::new("/d".to_string(), vec![1, 2, 3, 4, 5]);
    assert_eq!(f.read(2), vec![1, 2]);
    assert_eq!(f.read(2), vec![3, 4]);
    assert_eq!(f.read(2), vec![5]);
    assert_eq!(f.read(2), Vec::<u8>::new());
    assert_eq!(f.read(0), Vec::<u8>::new());
}

#[test]
fn empty_file() {
    let mut f = IpfsFile::new("/e".to_string(), Vec::new());
    assert_eq!(f.size(), 0);
    assert_eq!(f.read(8), Vec::<u8>::new());
    assert_eq!(f.seek(SeekFrom::Start(0)), 0);
    assert_eq!(f.seek(SeekFrom::End(0)), 0);
}

#[test]
fn write_path_is_unsupported_and_changes_nothing() {
    let mut f = open_hello();
    assert_eq!(f.read(3), b"hel".to_vec());
    assert_eq!(f.write(b"xyz"), Err(FsError::Unsupported));
    assert_eq!(f.flush(), Err(FsError::Unsupported));
    assert_eq!(f.shutdown(), Err(FsError::Unsupported));
    assert_eq!(f.set_len(0), Err(FsError::Unsupported));
    assert_eq!(f.unlink(), Err(FsError::Unsupported));
    assert_eq!(f.set_times(Some(1), Some(2)), Err(FsError::Unsupported));
    assert_eq!(f.write_from_mmap(0, 4), Err(FsError::Unsupported));
    assert_eq!(f.size(), 11);
    assert_eq!(f.position(), 3);
    assert_eq!(f.path(), "/a.txt");
    assert_eq!(f.read(20), b"lo world".to_vec());
}

#[test]
fn file_queries_have_fixed_answers() {
    let f = open_hello();
    assert_eq!(f.last_accessed(), 0);
    assert_eq!(f.last_modified(), 0);
    assert_eq!(f.created_time(), 0);
    assert!(f.is_open());
    assert_eq!(f.get_special_fd(), None);
    assert_eq!(f.read_ready(), 0);
    assert_eq!(f.write_ready(), 0);
}

#[test]
fn each_open_is_independent() {
    let mut a = open_hello();
    let mut b = open_hello();
    assert_eq!(a.read(6), b"hello ".to_vec());
    assert_eq!(b.position(), 0);
    assert_eq!(b.read(5), b"hello".to_vec());
}
