use filetransfer::download::{
    attachment_disposition, request_name_confined, resolve_download, PathProbe,
};
use filetransfer::errors::TransferError;

#[test]
fn missing_file_is_not_found() {
    let requested = String::from("doesnotexist.txt");
    match resolve_download(&requested, &PathProbe::Missing) {
        Err(TransferError::NotFound) => {}
        _ => panic!("a missing file must give NotFound"),
    }
    assert_eq!(TransferError::NotFound.status_code(), 404);
}

#[test]
fn directory_entry_is_not_found() {
    let requested = String::from("subdir");
    match resolve_download(&requested, &PathProbe::NonFile) {
        Err(TransferError::NotFound) => {}
        _ => panic!("a non-regular entry must give NotFound"),
    }
}

#[test]
fn regular_file_is_served_as_attachment() {
    let requested = String::from("report.pdf");
    let plan = resolve_download(&requested, &PathProbe::RegularFile)
        .expect("an existing regular file is served");
    assert_eq!(plan.disposition, "attachment; filename=\"report.pdf\"");
}

#[test]
fn traversal_request_is_not_served_even_when_the_path_resolves() {
    let requested = String::from("../secret");
    match resolve_download(&requested, &PathProbe::RegularFile) {
        Err(TransferError::NotFound) => {}
        _ => panic!("a name with a separator must not be served"),
    }
}

#[test]
fn confinement_accepts_plain_names_only() {
    assert!(request_name_confined(&String::from("ok.txt")));
    assert!(request_name_confined(&String::from("spaced name.bin")));
    assert!(!request_name_confined(&String::from("a/b")));
    assert!(!request_name_confined(&String::from("a\\b")));
    assert!(!request_name_confined(&String::from("..")));
    assert!(!request_name_confined(&String::from(".")));
    assert!(!request_name_confined(&String::from("")));
}

#[test]
fn disposition_quotes_the_requested_name() {
    assert_eq!(attachment_disposition("a.txt"), "attachment; filename=\"a.txt\"");
}
