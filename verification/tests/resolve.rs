use qemu::error::InitError;
use qemu::resolve::{resolve, Candidate};

fn candidate(path: &str, is_file: bool) -> Candidate {
    Candidate { path: path.to_string(), is_file }
}

#[test]
fn reference_that_is_a_file_is_used_as_given() {
    let candidates = vec![candidate("/usr/bin/./qemu", true)];
    assert_eq!(resolve("./qemu", true, &candidates).unwrap(), "./qemu");
    assert_eq!(resolve("/opt/qemu/bin/qemu", true, &Vec::new()).unwrap(), "/opt/qemu/bin/qemu");
}

#[test]
fn bare_name_is_found_in_its_directory() {
    let candidates = vec![
        candidate("/usr/local/bin/qemu-system-x86_64", false),
        candidate("/usr/bin/qemu-system-x86_64", true),
        candidate("/bin/qemu-system-x86_64", false),
    ];
    assert_eq!(
        resolve("qemu-system-x86_64", false, &candidates).unwrap(),
        "/usr/bin/qemu-system-x86_64"
    );
}

#[test]
fn first_match_on_the_search_path_wins() {
    let candidates = vec![
        candidate("/a/qemu", false),
        candidate("/b/qemu", true),
        candidate("/c/qemu", true),
    ];
    assert_eq!(resolve("qemu", false, &candidates).unwrap(), "/b/qemu");
}

#[test]
fn match_in_the_first_and_in_the_last_directory() {
    let first = vec![candidate("/a/qemu", true), candidate("/b/qemu", false)];
    assert_eq!(resolve("qemu", false, &first).unwrap(), "/a/qemu");
    let last = vec![candidate("/a/qemu", false), candidate("/b/qemu", true)];
    assert_eq!(resolve("qemu", false, &last).unwrap(), "/b/qemu");
}

#[test]
fn name_found_nowhere_is_reported_by_name() {
    let candidates = vec![candidate("/usr/bin/no-such-emulator", false), candidate("/bin/no-such-emulator", false)];
    match resolve("no-such-emulator", false, &candidates) {
        Err(InitError::ExecutableNotFound { executable }) => {
            assert_eq!(executable, "no-such-emulator")
        }
        other => panic!("unexpected result: {:?}", other),
    }
}

#[test]
fn empty_search_path_finds_nothing() {
    match resolve("qemu", false, &Vec::new()) {
        Err(InitError::ExecutableNotFound { executable }) => assert_eq!(executable, "qemu"),
        other => panic!("unexpected result: {:?}", other),
    }
}
