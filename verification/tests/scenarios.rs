use shred::explore::{explore, FileTarget, PathKind, Visit, Walk};
use shred::job::{shred, FileStatus, ShredJob};
use shred::remove::{removal_steps, RemoveStep};
use std::collections::HashMap;
use std::io::{Read, Seek, SeekFrom, Write};
use std::path::{Path, MAIN_SEPARATOR_STR};
use std::sync::mpsc;
use tempfile::{tempdir, tempdir_in, NamedTempFile, TempPath};

fn job(times: u32, remove: bool, write_zeroes: bool, recursive: bool) -> ShredJob {
    ShredJob { times, remove, write_zeroes, verbose: false, recursive, size: None }
}

fn kind_of(path: &Path) -> PathKind {
    let metadata = path.metadata().unwrap();
    if metadata.is_file() {
        PathKind::File
    } else if metadata.is_dir() {
        PathKind::Directory
    } else {
        PathKind::Other
    }
}

fn remove(path: &Path) {
    let canonical = path.canonicalize().unwrap();
    let steps = removal_steps(
        canonical.to_str().unwrap(),
        canonical.parent().unwrap().to_str().unwrap(),
        MAIN_SEPARATOR_STR,
        path.file_name().unwrap().to_str().unwrap(),
    );
    for step in &steps {
        match step {
            RemoveStep::Rename { from, to } => TempPath::from_path(from).persist(to).unwrap(),
            RemoveStep::Unlink { path } => TempPath::from_path(path).close().unwrap(),
        }
    }
}

/// Overwrites the file as the job says and returns the number of writes.
fn erase(temp_file: &mut NamedTempFile, job: &ShredJob) -> u32 {
    let metadata = temp_file.as_file().metadata().unwrap();
    let status = FileStatus {
        kind: kind_of(temp_file.path()),
        readonly: metadata.permissions().readonly(),
        len: metadata.len(),
    };
    let mut engine = shred(job, &status).unwrap();
    let mut rng = rand::thread_rng();
    let mut writes = 0;
    while let Some(pass) = engine.next_pass(&mut rng) {
        let file = temp_file.as_file_mut();
        file.seek(SeekFrom::Start(pass.offset)).unwrap();
        file.write_all(engine.buffer()).unwrap();
        let mut back = Vec::new();
        file.seek(SeekFrom::Start(0)).unwrap();
        file.read_to_end(&mut back).unwrap();
        assert_eq!(&back, engine.buffer());
        writes += 1;
    }
    if job.remove {
        remove(temp_file.path());
    }
    writes
}

fn file_of(dir: &Path, len: usize) -> NamedTempFile {
    let mut temp_file = NamedTempFile::new_in(dir).unwrap();
    temp_file.as_file_mut().write_all(&vec![0xAB; len]).unwrap();
    temp_file
}

#[test]
fn three_passes_leave_the_file_and_its_length() {
    let dir = tempdir().unwrap();
    let mut temp_file = file_of(dir.path(), 512);
    assert_eq!(temp_file.as_file().metadata().unwrap().len(), 512);

    let writes = erase(&mut temp_file, &job(3, false, false, false));

    assert_eq!(writes, 3);
    assert!(temp_file.path().exists());
    assert_eq!(temp_file.as_file().metadata().unwrap().len(), 512);
}

#[test]
fn pass_of_zeros_is_written_last() {
    let dir = tempdir().unwrap();
    let mut temp_file = file_of(dir.path(), 512);

    let writes = erase(&mut temp_file, &job(3, false, true, false));

    assert_eq!(writes, 4);
    let mut back = Vec::new();
    let file = temp_file.as_file_mut();
    file.seek(SeekFrom::Start(0)).unwrap();
    file.read_to_end(&mut back).unwrap();
    assert_eq!(back, vec![0u8; 512]);
}

#[test]
fn removal_leaves_neither_the_file_nor_a_name_of_zeros() {
    let dir = tempdir().unwrap();
    let mut temp_file = file_of(dir.path(), 512);
    let first_path = temp_file.path().to_path_buf();

    let writes = erase(&mut temp_file, &job(3, true, false, false));

    assert_eq!(writes, 3);
    assert!(!first_path.exists());
    assert_eq!(dir.path().read_dir().unwrap().count(), 0);
    assert!(temp_file.close().is_err());
}

#[test]
fn every_file_of_a_tree_is_erased_once() {
    let root = tempdir().unwrap();
    let nested = tempdir_in(root.path()).unwrap();
    let mut files: HashMap<String, NamedTempFile> = HashMap::new();
    for dir in [root.path(), root.path(), root.path(), nested.path(), nested.path()] {
        let temp_file = file_of(dir, 512);
        files.insert(String::from(temp_file.path().to_str().unwrap()), temp_file);
    }
    assert_eq!(files.len(), 5);
    let shared_job = job(3, false, false, true);

    let (sender, receiver) = mpsc::channel::<FileTarget>();
    let mut walk = Walk::new(root.path().to_str().unwrap());
    while let Some(path) = walk.next_path() {
        match explore(&path, kind_of(Path::new(&path)), shared_job.recursive).unwrap() {
            Visit::Yield(target) => sender.send(target).unwrap(),
            Visit::Descend => walk.descend(
                Path::new(&path)
                    .read_dir()
                    .unwrap()
                    .map(|entry| String::from(entry.unwrap().path().to_str().unwrap()))
                    .collect(),
            ),
        }
    }
    drop(sender);

    let mut erased: Vec<String> = Vec::new();
    for target in receiver {
        let temp_file = files.get_mut(target.path()).unwrap();
        assert_eq!(erase(temp_file, &shared_job), 3);
        erased.push(String::from(target.path()));
    }

    erased.sort();
    let mut expected: Vec<String> = files.keys().cloned().collect();
    expected.sort();
    assert_eq!(erased, expected);
}
