use ember::vmem::{Permissions, VmPath, ALL, EXECUTE, PRIVATE, READ, SHARED, WRITE};

#[test]
fn permissions_as_text() {
    assert_eq!(Permissions::from_bits_truncate(READ | WRITE).serialize(), "rw-p");
    assert_eq!(Permissions::from_bits_truncate(READ | EXECUTE | SHARED).serialize(), "r-xs");
    assert_eq!(Permissions::empty().serialize(), "---p");
    assert_eq!(Permissions::from_bits_truncate(ALL).serialize(), "rwxs");
    assert_eq!(Permissions::from_bits_truncate(PRIVATE).serialize(), "---p");
}

#[test]
fn permissions_from_text() {
    assert_eq!(Permissions::deserialize("rw-p").bits(), READ | WRITE);
    assert_eq!(Permissions::deserialize("r-xs").bits(), READ | EXECUTE | SHARED);
    assert_eq!(Permissions::deserialize("---p").bits(), 0);
    assert_eq!(Permissions::deserialize("rwxs and more").bits(), ALL);
    // a character out of place sets nothing
    assert_eq!(Permissions::deserialize("wrsx").bits(), 0);
    assert_eq!(Permissions::deserialize("r\u{e9}xp").bits(), READ | EXECUTE);
}

#[test]
fn permissions_round_trip() {
    for bits in 0..=255u8 {
        let p = Permissions::from_bits_truncate(bits);
        assert_eq!(p.bits(), bits & ALL);
        assert_eq!(Permissions::deserialize(&p.serialize()), p);
    }
    for text in ["rwxp", "r--s", "-w-p", "--xs"] {
        assert_eq!(Permissions::deserialize(text).serialize(), text);
    }
}

#[test]
fn permissions_contain() {
    let p = Permissions::from_bits_truncate(READ | WRITE | 0xf0);
    assert!(p.contains(READ));
    assert!(p.contains(READ | WRITE));
    assert!(!p.contains(EXECUTE));
    assert!(!p.contains(READ | SHARED));
    assert!(p.contains(PRIVATE));
}

#[test]
fn paths_are_read() {
    assert_eq!(VmPath::parse(b"/usr/lib64/libkwin.so.6.4.5"), Some(VmPath::PATH(b"/usr/lib64/libkwin.so.6.4.5".to_vec())));
    assert_eq!(VmPath::parse(b""), Some(VmPath::UNKNOWN));
    assert_eq!(VmPath::parse(b"[heap]"), Some(VmPath::HEAP));
    assert_eq!(VmPath::parse(b"[stack]"), Some(VmPath::STACK));
    assert_eq!(VmPath::parse(b"[vdso]"), Some(VmPath::VDSO));
    assert_eq!(VmPath::parse(b"[vvar]"), Some(VmPath::VVAR));
    assert_eq!(VmPath::parse(b"[vvar_vclock]"), Some(VmPath::VVAR_VCLOCK));
    assert_eq!(VmPath::parse(b"[vsyscall]"), Some(VmPath::VSYSCALL));
    assert_eq!(VmPath::parse(b"anon:name"), Some(VmPath::ANON(b"name".to_vec())));
    assert_eq!(VmPath::parse(b"anon_shmem:x:y"), Some(VmPath::ANON_SHMEM(b"x:y".to_vec())));
    assert_eq!(VmPath::parse(b"anon_inode:[eventfd]"), Some(VmPath::ANON_INODE(b"[eventfd]".to_vec())));
    assert_eq!(VmPath::parse(b"(deleted)"), Some(VmPath::DELETED(Vec::new())));
    assert_eq!(VmPath::parse(b"/tmp/x (deleted)"), Some(VmPath::DELETED(b"/tmp/x".to_vec())));
    assert_eq!(VmPath::parse(b"a(deleted)"), Some(VmPath::DELETED(Vec::new())));
}

#[test]
fn paths_that_are_none() {
    assert_eq!(VmPath::parse(b"a:b"), None);
    assert_eq!(VmPath::parse(b"anon_other:b"), None);
    assert_eq!(VmPath::parse(b"socket:[1234]"), None);
}

#[test]
fn paths_as_text() {
    assert_eq!(VmPath::PATH(b"/a/b".to_vec()).text(), b"/a/b");
    assert_eq!(VmPath::UNKNOWN.text(), b"");
    assert_eq!(VmPath::DELETED(b"/a".to_vec()).text(), b"/a (deleted)");
    assert_eq!(VmPath::ANON(b"n".to_vec()).text(), b"anon:n");
    assert_eq!(VmPath::ANON_SHMEM(b"n".to_vec()).text(), b"anon_shmem:n");
    assert_eq!(VmPath::ANON_INODE(b"n".to_vec()).text(), b"anon_inode:n");
    assert_eq!(VmPath::HEAP.text(), b"[heap]");
    assert_eq!(VmPath::STACK.text(), b"[stack]");
    assert_eq!(VmPath::VDSO.text(), b"[vdso]");
    assert_eq!(VmPath::VVAR.text(), b"[vvar]");
    assert_eq!(VmPath::VVAR_VCLOCK.text(), b"[vvar_vclock]");
    assert_eq!(VmPath::VSYSCALL.text(), b"[vsyscall]");
    for p in [VmPath::HEAP, VmPath::ANON(b"q".to_vec()), VmPath::PATH(b"/x".to_vec()), VmPath::DELETED(b"/x".to_vec())] {
        assert_eq!(VmPath::parse(&p.text()), Some(p));
    }
}
