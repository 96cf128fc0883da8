use steamos_manager::error::Error;
use steamos_manager::sysfs_writer::{SysfsWriterQueue, SysfsWriterService, SysfsWritten};
use std::collections::HashMap;

/// Plays the worker: takes every write out of the queue and "writes" it into
/// `files`, and notes for each handle what its requester is told.
fn drain(
    queue: &mut SysfsWriterQueue<u32>,
    files: &mut HashMap<String, Vec<u8>>,
    told: &mut HashMap<u32, SysfsWritten>,
) {
    while let Some(write) = queue.recv() {
        files.insert(write.path, write.contents);
        told.insert(write.reply, SysfsWriterService::<u32>::written(Ok(())));
    }
}

#[test]
fn second_write_supersedes_the_first() {
    let mut queue: SysfsWriterQueue<u32> = SysfsWriterQueue::new();
    let mut files = HashMap::new();
    let mut told = HashMap::new();

    assert_eq!(queue.send(String::from("p"), b"1".to_vec(), 1), None);
    let superseded = queue.send(String::from("p"), b"2".to_vec(), 2);
    assert_eq!(superseded, Some(1));
    told.insert(superseded.unwrap(), SysfsWritten::Superseded);

    drain(&mut queue, &mut files, &mut told);
    assert_eq!(told[&1], SysfsWritten::Superseded);
    assert_eq!(told[&2], SysfsWritten::Written(Ok(())));
    assert_eq!(files["p"], b"2".to_vec());
    assert_eq!(files.len(), 1);
    assert!(queue.is_empty());
}

#[test]
fn writes_to_two_paths_are_both_made() {
    for first_is_one in [true, false] {
        let mut queue: SysfsWriterQueue<u32> = SysfsWriterQueue::new();
        let mut files = HashMap::new();
        let mut told = HashMap::new();
        if first_is_one {
            assert_eq!(queue.send(String::from("one"), b"x".to_vec(), 1), None);
            assert_eq!(queue.send(String::from("two"), b"y".to_vec(), 2), None);
        } else {
            assert_eq!(queue.send(String::from("two"), b"y".to_vec(), 2), None);
            assert_eq!(queue.send(String::from("one"), b"x".to_vec(), 1), None);
        }
        drain(&mut queue, &mut files, &mut told);
        assert_eq!(told[&1], SysfsWritten::Written(Ok(())));
        assert_eq!(told[&2], SysfsWritten::Written(Ok(())));
        assert_eq!(files["one"], b"x".to_vec());
        assert_eq!(files["two"], b"y".to_vec());
    }
}

#[test]
fn write_after_drain_is_not_superseded() {
    let mut queue: SysfsWriterQueue<u32> = SysfsWriterQueue::new();
    assert_eq!(queue.send(String::from("p"), b"1".to_vec(), 1), None);
    let write = queue.recv().expect("a write");
    assert_eq!(write.path, "p");
    assert_eq!(write.contents, b"1".to_vec());
    assert_eq!(write.reply, 1);
    assert!(queue.recv().is_none());
    assert_eq!(queue.send(String::from("p"), b"2".to_vec(), 2), None);
    assert!(!queue.is_empty());
}

#[test]
fn failed_write_is_reported() {
    assert_eq!(
        SysfsWriterService::<u32>::written(Err(Error::Io)),
        SysfsWritten::Written(Err(Error::Io))
    );
}

#[test]
fn only_one_writer_may_be_active() {
    let first = SysfsWriterService::<u32>::init(false);
    assert!(first.is_ok());
    assert!(first.unwrap().queue.is_empty());
    assert!(matches!(SysfsWriterService::<u32>::init(true), Err(Error::Config)));
    assert_eq!(SysfsWriterService::<u32>::name(), "sysfs-writer");
}
