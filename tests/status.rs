use gyroflow::dispatch::{BufferRole, FrameError};
use gyroflow::status::{
    answer_token, engine_status, export_token, has_lens_profile, has_motion_data, status_token, FrameStatus,
};

#[test]
fn status_tokens() {
    assert_eq!(status_token(&FrameStatus::Done, b"RGBAf"), b"DONE".to_vec());
    assert_eq!(status_token(&FrameStatus::Refused(FrameError::UnsupportedFormat), b"RGB24"), b"RGB24".to_vec());
    let short = FrameError::BufferTooSmall { role: BufferRole::Input, required: 10, supplied: 9 };
    assert_eq!(status_token(&FrameStatus::Refused(short), b"RGBAf"), b"FAIL".to_vec());
    assert_eq!(status_token(&FrameStatus::EngineFailed(b"no gpu".to_vec()), b"RGBAf"), b"no gpu".to_vec());
}

#[test]
fn engine_result_to_status() {
    assert_eq!(engine_status(Ok(())), FrameStatus::Done);
    assert_eq!(engine_status(Err(b"boom".to_vec())), FrameStatus::EngineFailed(b"boom".to_vec()));
}

#[test]
fn inspection_tokens() {
    assert_eq!(answer_token(Ok(true)), b"YES".to_vec());
    assert_eq!(answer_token(Ok(false)), b"NO".to_vec());
    assert_eq!(answer_token(Err(b"bad project".to_vec())), b"bad project".to_vec());
    assert_eq!(export_token(Some(b"{}".to_vec())), b"{}".to_vec());
    assert_eq!(export_token(None), b"FAIL".to_vec());
}

#[test]
fn inspection_decisions() {
    assert!(has_motion_data(3, 0));
    assert!(has_motion_data(0, 2));
    assert!(!has_motion_data(0, 0));
    assert!(has_lens_profile(1920));
    assert!(!has_lens_profile(0));
}

#[test]
fn failure_never_reads_as_done() {
    assert_eq!(status_token(&FrameStatus::Refused(FrameError::UnsupportedFormat), b"DONE"), b"FAIL".to_vec());
    assert_eq!(status_token(&FrameStatus::EngineFailed(b"DONE".to_vec()), b"RGBAf"), b"FAIL: DONE".to_vec());
    assert_eq!(status_token(&FrameStatus::EngineFailed(b"DONE!".to_vec()), b"RGBAf"), b"DONE!".to_vec());
    assert_eq!(status_token(&FrameStatus::Refused(FrameError::UnsupportedFormat), b""), b"".to_vec());
}

#[test]
fn import_error_never_reads_as_answer() {
    assert_eq!(answer_token(Err(b"YES".to_vec())), b"FAIL".to_vec());
    assert_eq!(answer_token(Err(b"NO".to_vec())), b"FAIL".to_vec());
    assert_eq!(answer_token(Err(b"NOPE".to_vec())), b"NOPE".to_vec());
}
