use kriptofs::inode_table::{PassthroughFS, ROOT_INODE};

#[test]
fn root_is_inode_one_from_the_start() {
    let mut fs = PassthroughFS::new("/srv/data".to_string());
    assert_eq!(ROOT_INODE, 1);
    assert_eq!(fs.source(), "/srv/data");
    assert_eq!(fs.get_path(1), Some("/srv/data".to_string()));
    assert_eq!(fs.get_inode("/srv/data"), 1);
    assert_eq!(fs.get_path(2), None);
}

#[test]
fn root_stays_inode_one_after_other_requests() {
    let mut fs = PassthroughFS::new("/srv/data".to_string());
    for i in 0..50 {
        fs.get_inode(&format!("/srv/data/file{}", i));
    }
    assert_eq!(fs.get_inode("/srv/data"), 1);
    assert_eq!(fs.get_path(1), Some("/srv/data".to_string()));
}

#[test]
fn first_new_path_gets_inode_two() {
    let mut fs = PassthroughFS::new("/srv/data".to_string());
    assert_eq!(fs.get_inode("/srv/data/a.txt"), 2);
    assert_eq!(fs.get_path(2), Some("/srv/data/a.txt".to_string()));
}

#[test]
fn same_path_twice_gives_same_inode() {
    let mut fs = PassthroughFS::new("/srv/data".to_string());
    let first = fs.get_inode("/srv/data/a.txt");
    let second = fs.get_inode("/srv/data/a.txt");
    assert_eq!(first, 2);
    assert_eq!(second, 2);
    assert_eq!(fs.get_path(3), None);
}

#[test]
fn different_paths_get_different_inodes() {
    let mut fs = PassthroughFS::new("/srv/data".to_string());
    let a = fs.get_inode("/srv/data/a.txt");
    let b = fs.get_inode("/srv/data/b.txt");
    let a_again = fs.get_inode("/srv/data/a.txt");
    assert_eq!(a, 2);
    assert_eq!(b, 3);
    assert_eq!(a_again, 2);
    assert_ne!(a, b);
}

#[test]
fn inodes_are_handed_out_in_increasing_order() {
    let mut fs = PassthroughFS::new("/".to_string());
    for i in 0..100u64 {
        let ino = fs.get_inode(&format!("/f{}", i));
        assert_eq!(ino, i + 2);
    }
    for i in 0..100u64 {
        assert_eq!(fs.get_inode(&format!("/f{}", i)), i + 2);
        assert_eq!(fs.get_path(i + 2), Some(format!("/f{}", i)));
    }
    assert_eq!(fs.get_path(102), None);
}

#[test]
fn unknown_inodes_resolve_to_nothing() {
    let fs = PassthroughFS::new("/srv/data".to_string());
    assert_eq!(fs.get_path(0), None);
    assert_eq!(fs.get_path(2), None);
    assert_eq!(fs.get_path(u64::MAX), None);
    assert!(fs.has_inode(1));
    assert!(!fs.has_inode(0));
    assert!(!fs.has_inode(2));
}

#[test]
fn paths_that_differ_only_slightly_are_kept_apart() {
    let mut fs = PassthroughFS::new("/a".to_string());
    assert_eq!(fs.get_inode("/a/"), 2);
    assert_eq!(fs.get_inode("/a/b"), 3);
    assert_eq!(fs.get_inode("/a//b"), 4);
    assert_eq!(fs.get_inode(""), 5);
    assert_eq!(fs.get_inode("/a"), 1);
    assert_eq!(fs.get_path(5), Some(String::new()));
}
