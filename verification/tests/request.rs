use installer::request::InstallRequest;
use installer::store::ArchivePayload;

fn payload() -> ArchivePayload {
    ArchivePayload::new(vec![0x50, 0x4b, 0x05, 0x06], "kube".to_string())
}

#[test]
fn payload_keeps_what_it_was_given() {
    let payload = payload();
    assert_eq!(payload.bytes(), &vec![0x50, 0x4b, 0x05, 0x06]);
    assert_eq!(payload.logical_name(), "kube");
    assert_eq!(payload.archive_name(), "kube.zip");
}

#[test]
fn payload_may_be_empty_and_nameless() {
    let payload = ArchivePayload::new(Vec::new(), String::new());
    assert!(payload.bytes().is_empty());
    assert_eq!(payload.logical_name(), "");
    assert_eq!(payload.archive_name(), ".zip");
}

#[test]
fn request_keeps_the_path_as_submitted() {
    let request = InstallRequest::with_parent("./app", Some(".".to_string()));
    assert_eq!(request.destination_path(), "./app");
    assert_eq!(request.parent(), Some("."));
    let orphan = InstallRequest::with_parent("/", None);
    assert_eq!(orphan.destination_path(), "/");
    assert_eq!(orphan.parent(), None);
}

#[test]
fn parent_is_the_path_without_its_last_component() {
    assert_eq!(InstallRequest::new("/tmp/app").parent(), Some("/tmp"));
    assert_eq!(InstallRequest::new("/tmp/app").destination_path(), "/tmp/app");
    assert_eq!(InstallRequest::new("./app").parent(), Some("."));
    assert_eq!(InstallRequest::new("app").parent(), Some(""));
    assert_eq!(InstallRequest::new("/app").parent(), Some("/"));
}

#[test]
fn empty_path_and_root_have_no_parent() {
    assert_eq!(InstallRequest::new("").parent(), None);
    assert_eq!(InstallRequest::new("").destination_path(), "");
    assert_eq!(InstallRequest::new("/").parent(), None);
}

#[test]
fn archive_lies_beside_the_destination() {
    let payload = payload();
    let request = InstallRequest::with_parent("/tmp/app", Some("/tmp".to_string()));
    assert_eq!(request.archive_path(&payload), Some("/tmp/kube.zip".to_string()));
    let request = InstallRequest::with_parent("./app", Some(".".to_string()));
    assert_eq!(request.archive_path(&payload), Some("./kube.zip".to_string()));
    let request = InstallRequest::with_parent("app", Some(String::new()));
    assert_eq!(request.archive_path(&payload), Some("kube.zip".to_string()));
    let request = InstallRequest::with_parent("/app", Some("/".to_string()));
    assert_eq!(request.archive_path(&payload), Some("/kube.zip".to_string()));
}

#[test]
fn no_parent_no_archive_path() {
    let request = InstallRequest::with_parent("/", None);
    assert_eq!(request.archive_path(&payload()), None);
}

#[test]
fn binaries_are_in_bin_under_the_destination() {
    assert_eq!(InstallRequest::new("/tmp/app").binary_dir(), "/tmp/app/bin");
    assert_eq!(InstallRequest::new("/tmp/app/").binary_dir(), "/tmp/app/bin");
    assert_eq!(InstallRequest::new("./app").binary_dir(), "./app/bin");
    assert_eq!(InstallRequest::new("").binary_dir(), "bin");
}

#[test]
fn requests_are_compared_by_destination() {
    let one = InstallRequest::with_parent("/tmp/app", Some("/tmp".to_string()));
    let same = InstallRequest::with_parent("/tmp/app", None);
    let other = InstallRequest::with_parent("/tmp/app2", Some("/tmp".to_string()));
    assert!(one.same_destination(&same));
    assert!(!one.same_destination(&other));
    assert_eq!(one.clone(), one);
    assert!(one.clone().same_destination(&one));
}
