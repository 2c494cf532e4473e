use flicks::telegram_client::{
    AuthAction, AuthEvent, AuthFlow, FileUpload, SignInOutcome, UploadAction, UploadError,
    BIG_FILE_SIZE, MAX_CHUNK_SIZE,
};

fn upload_all(bytes: Vec<u8>) -> (Vec<(i32, usize)>, flicks::telegram_client::InputFile, Vec<u8>) {
    let mut up = FileUpload::new(42, "a.jpg".to_string(), bytes).ok().unwrap();
    let mut parts = Vec::new();
    let mut joined = Vec::new();
    loop {
        match up.next_action() {
            UploadAction::SavePart(p) => {
                assert_eq!(p.file_id, 42);
                parts.push((p.file_part, p.bytes.len()));
                joined.extend_from_slice(&p.bytes);
                assert!(FileUpload::part_result(Ok(true)).is_ok());
            }
            UploadAction::Finish(f) => return (parts, f, joined),
        }
    }
}

#[test]
fn empty_file_has_no_parts() {
    let (parts, f, _) = upload_all(vec![]);
    assert!(parts.is_empty());
    assert_eq!(f.parts, 0);
    assert_eq!(f.id, 42);
    assert_eq!(f.name, "a.jpg");
    assert_eq!(f.md5_checksum, "d41d8cd98f00b204e9800998ecf8427e");
}

#[test]
fn small_file_is_one_part() {
    let (parts, f, joined) = upload_all(b"abc".to_vec());
    assert_eq!(parts, vec![(0, 3)]);
    assert_eq!(f.parts, 1);
    assert_eq!(joined, b"abc".to_vec());
    assert_eq!(f.md5_checksum, "900150983cd24fb0d6963f7d28e17f72");
}

#[test]
fn parts_split_at_512_kib() {
    let data: Vec<u8> = (0..(2 * MAX_CHUNK_SIZE + 1)).map(|i| (i % 251) as u8).collect();
    let (parts, f, joined) = upload_all(data.clone());
    assert_eq!(parts, vec![(0, MAX_CHUNK_SIZE), (1, MAX_CHUNK_SIZE), (2, 1)]);
    assert_eq!(f.parts, 3);
    assert_eq!(joined, data);
    let (parts, _, _) = upload_all(vec![0u8; MAX_CHUNK_SIZE]);
    assert_eq!(parts, vec![(0, MAX_CHUNK_SIZE)]);
}

#[test]
fn biggest_file_allowed_and_bigger_refused() {
    let (parts, f, _) = upload_all(vec![1u8; BIG_FILE_SIZE]);
    assert_eq!(parts.len(), 20);
    assert_eq!(f.parts, 20);
    assert!(matches!(
        FileUpload::new(1, "big.jpg".to_string(), vec![0u8; BIG_FILE_SIZE + 1]),
        Err(UploadError::TooBig)
    ));
}

#[test]
fn part_answers() {
    assert!(FileUpload::part_result(Ok(true)).is_ok());
    assert!(matches!(FileUpload::part_result(Ok(false)), Err(UploadError::ServerRefused)));
    match FileUpload::part_result(Err("timeout".to_string())) {
        Err(UploadError::Transport(m)) => assert_eq!(m, "timeout"),
        _ => panic!("expected a transport error"),
    }
}

#[test]
fn authorized_session_needs_nothing() {
    let (mut flow, first) = AuthFlow::new("pw".to_string());
    assert!(matches!(first, AuthAction::CheckAuthorization));
    assert!(matches!(flow.on_event(AuthEvent::Authorized(true)), AuthAction::Finish(None)));
}

#[test]
fn sign_in_with_password() {
    let (mut flow, _) = AuthFlow::new("  secret \n".to_string());
    assert!(matches!(flow.on_event(AuthEvent::Authorized(false)), AuthAction::RequestLoginCode));
    assert!(matches!(flow.on_event(AuthEvent::LoginCodeSent), AuthAction::AskForCode));
    match flow.on_event(AuthEvent::CodeEntered("12345\n".to_string())) {
        AuthAction::SignIn(c) => assert_eq!(c, "12345\n"),
        _ => panic!("expected sign in"),
    }
    match flow.on_event(AuthEvent::SignIn(SignInOutcome::PasswordRequired)) {
        AuthAction::CheckPassword(p) => assert_eq!(p, "secret"),
        _ => panic!("expected the password"),
    }
    assert!(matches!(flow.on_event(AuthEvent::PasswordChecked), AuthAction::SaveSession));
    match flow.on_event(AuthEvent::SessionSaved(Err("disk full".to_string()))) {
        AuthAction::Finish(Some(note)) => {
            assert_eq!(note, "NOTE: failed to save the session, will sign out when done: disk full")
        }
        _ => panic!("expected a note"),
    }
}

#[test]
fn sign_in_without_password_and_failure() {
    let (mut flow, _) = AuthFlow::new("pw".to_string());
    flow.on_event(AuthEvent::Authorized(false));
    flow.on_event(AuthEvent::LoginCodeSent);
    flow.on_event(AuthEvent::CodeEntered("1".to_string()));
    assert!(matches!(flow.on_event(AuthEvent::SignIn(SignInOutcome::SignedIn)), AuthAction::SaveSession));
    assert!(matches!(flow.on_event(AuthEvent::SessionSaved(Ok(()))), AuthAction::Finish(None)));

    let (mut flow, _) = AuthFlow::new("pw".to_string());
    flow.on_event(AuthEvent::Authorized(false));
    flow.on_event(AuthEvent::LoginCodeSent);
    flow.on_event(AuthEvent::CodeEntered("1".to_string()));
    match flow.on_event(AuthEvent::SignIn(SignInOutcome::Failed("bad code".to_string()))) {
        AuthAction::Fail(m) => assert_eq!(m, "bad code"),
        _ => panic!("expected failure"),
    }
}
