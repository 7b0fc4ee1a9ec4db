use filetransfer::download::{request_name_confined, resolve_download, PathProbe};
use filetransfer::errors::TransferError;
use filetransfer::upload::{BodyBudget, FieldMode, UploadAction, UploadEvent, UploadSession};

/// Drives one whole upload through the session and applies its actions to
/// an in-memory stand-in for the upload directory, byte for byte.
fn upload_into(store: &mut Vec<(String, Vec<u8>)>, raw_name: &str, chunks: &[&[u8]]) -> String {
    let mut session = UploadSession::new(1 << 20);
    let stored_name = match session.step(UploadEvent::FieldOpened(Some(String::from(raw_name)))) {
        UploadAction::CreateFile(name) => {
            store.retain(|(n, _)| *n != name);
            store.push((name.clone(), Vec::new()));
            name
        }
        _ => panic!("the field must be given a destination"),
    };
    for chunk in chunks {
        match session.step(UploadEvent::ChunkArrived(chunk.len() as u64)) {
            UploadAction::WriteChunk => {
                let (_, content) = store
                    .iter_mut()
                    .find(|(n, _)| *n == stored_name)
                    .expect("the destination was created");
                content.extend_from_slice(chunk);
            }
            _ => panic!("an in-budget chunk must be written"),
        }
    }
    assert!(matches!(session.step(UploadEvent::FieldClosed), UploadAction::AwaitNext));
    assert!(matches!(session.step(UploadEvent::BodyFinished), UploadAction::Redirect));
    stored_name
}

#[test]
fn upload_then_download_by_the_stored_name_round_trips() {
    let mut store: Vec<(String, Vec<u8>)> = Vec::new();
    let name = upload_into(&mut store, "greeting.txt", &[b"hello ", b"world", b""]);
    assert_eq!(name, "greeting.txt");
    let (_, content) = store.iter().find(|(n, _)| *n == name).unwrap();
    assert_eq!(content, b"hello world");
    assert!(request_name_confined(&name));
    assert!(resolve_download(&name, &PathProbe::RegularFile).is_ok());
}

#[test]
fn second_upload_of_the_same_name_wins() {
    let mut store: Vec<(String, Vec<u8>)> = Vec::new();
    upload_into(&mut store, "notes.txt", &[b"the first contents"]);
    upload_into(&mut store, "notes.txt", &[b"the ", b"second"]);
    let entries: Vec<&(String, Vec<u8>)> =
        store.iter().filter(|(n, _)| n == "notes.txt").collect();
    assert_eq!(entries.len(), 1);
    assert_eq!(entries[0].1, b"the second");
}

#[test]
fn budget_rejects_the_chunk_that_passes_the_limit() {
    let mut budget = BodyBudget::new(10);
    assert!(budget.note_chunk(6).is_ok());
    assert!(budget.note_chunk(4).is_ok());
    match budget.note_chunk(1) {
        Err(TransferError::PayloadTooLarge) => {}
        _ => panic!("the byte past the limit must be refused"),
    }
    assert_eq!(TransferError::PayloadTooLarge.status_code(), 413);
}

#[test]
fn session_saves_a_named_field_chunk_by_chunk() {
    let mut session = UploadSession::new(1024);
    let action = session.step(UploadEvent::FieldOpened(Some(String::from("notes.txt"))));
    match action {
        UploadAction::CreateFile(name) => assert_eq!(name, "notes.txt"),
        _ => panic!("a field with a usable filename must open a file"),
    }
    assert_eq!(session.current_mode(), FieldMode::Saving);
    assert!(matches!(session.step(UploadEvent::ChunkArrived(512)), UploadAction::WriteChunk));
    assert!(matches!(session.step(UploadEvent::ChunkArrived(512)), UploadAction::WriteChunk));
    assert!(matches!(session.step(UploadEvent::FieldClosed), UploadAction::AwaitNext));
    assert!(matches!(session.step(UploadEvent::BodyFinished), UploadAction::Redirect));
    assert!(session.is_finished());
}

#[test]
fn session_drains_an_anonymous_field() {
    let mut session = UploadSession::new(1024);
    assert!(matches!(session.step(UploadEvent::FieldOpened(None)), UploadAction::AwaitNext));
    assert_eq!(session.current_mode(), FieldMode::Draining);
    assert!(matches!(session.step(UploadEvent::ChunkArrived(100)), UploadAction::DiscardChunk));
    assert!(matches!(session.step(UploadEvent::FieldClosed), UploadAction::AwaitNext));
    assert!(matches!(session.step(UploadEvent::BodyFinished), UploadAction::Redirect));
}

#[test]
fn session_rejects_oversized_body_mid_stream() {
    let mut session = UploadSession::new(1000);
    assert!(matches!(
        session.step(UploadEvent::FieldOpened(Some(String::from("big.bin")))),
        UploadAction::CreateFile(_)
    ));
    assert!(matches!(session.step(UploadEvent::ChunkArrived(600)), UploadAction::WriteChunk));
    match session.step(UploadEvent::ChunkArrived(600)) {
        UploadAction::Reject(TransferError::PayloadTooLarge) => {}
        _ => panic!("the chunk that passes the limit must end the request"),
    }
    assert!(session.is_finished());
}

#[test]
fn session_rejects_unusable_filename_without_touching_later_fields() {
    let mut session = UploadSession::new(1024);
    match session.step(UploadEvent::FieldOpened(Some(String::from("...")))) {
        UploadAction::Reject(TransferError::InvalidName) => {}
        _ => panic!("a name that sanitizes to nothing must be rejected"),
    }
    assert!(session.is_finished());
    assert_eq!(TransferError::InvalidName.status_code(), 400);
}

#[test]
fn session_sanitizes_the_stored_name() {
    let mut session = UploadSession::new(1024);
    match session.step(UploadEvent::FieldOpened(Some(String::from("../../etc/passwd")))) {
        UploadAction::CreateFile(name) => {
            assert!(!name.contains('/'));
            assert_ne!(name, "..");
        }
        _ => panic!("a traversal name still sanitizes to a storable one"),
    }
}

#[test]
fn session_maps_faults_to_their_errors() {
    let mut session = UploadSession::new(1024);
    match session.step(UploadEvent::FramingFault) {
        UploadAction::Reject(TransferError::MalformedRequest) => {}
        _ => panic!("framing faults are malformed requests"),
    }
    assert_eq!(TransferError::MalformedRequest.status_code(), 400);

    let mut session2 = UploadSession::new(1024);
    assert!(matches!(
        session2.step(UploadEvent::FieldOpened(Some(String::from("a.txt")))),
        UploadAction::CreateFile(_)
    ));
    match session2.step(UploadEvent::WriteFault) {
        UploadAction::Reject(TransferError::StorageUnavailable) => {}
        _ => panic!("write faults are storage errors"),
    }
    assert_eq!(TransferError::StorageUnavailable.status_code(), 500);
}
