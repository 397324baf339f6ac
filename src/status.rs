//! The terminal tokens handed back to the host: the status of a frame and the
//! answers of the project-inspection calls.
use vstd::prelude::*;
use crate::bytes::{bytes_equal, copy_bytes};
use crate::dispatch::FrameError;

verus! {

/// `DONE`, in ASCII.
pub open spec fn done_token() -> Seq<u8> {
    seq![68u8, 79u8, 78u8, 69u8]
}

/// `FAIL`, in ASCII.
pub open spec fn fail_token() -> Seq<u8> {
    seq![70u8, 65u8, 73u8, 76u8]
}

/// `YES`, in ASCII.
pub open spec fn yes_token() -> Seq<u8> {
    seq![89u8, 69u8, 83u8]
}

/// `NO`, in ASCII.
pub open spec fn no_token() -> Seq<u8> {
    seq![78u8, 79u8]
}

fn done_bytes() -> (r: Vec<u8>)
    ensures
        r@ == done_token(),
{
    let r: Vec<u8> = vec![68u8, 79u8, 78u8, 69u8];
    assert(r@ == done_token());
    r
}

fn fail_bytes() -> (r: Vec<u8>)
    ensures
        r@ == fail_token(),
{
    let r: Vec<u8> = vec![70u8, 65u8, 73u8, 76u8];
    assert(r@ == fail_token());
    r
}

/// How a frame ended.
#[derive(Clone, Debug, PartialEq, Eq)]
pub enum FrameStatus {
    /// The output buffer was fully written.
    Done,
    /// Refused before the engine was called.
    Refused(FrameError),
    /// The engine reported an error, with its message.
    EngineFailed(Vec<u8>),
}

/// A failure text as a token: the text itself, or `FAIL` when the text would
/// read as the success token `DONE`.
pub open spec fn failure_text(text: Seq<u8>) -> Seq<u8> {
    if text == done_token() {
        fail_token()
    } else {
        text
    }
}

/// `FAIL: `, in ASCII.
pub open spec fn fail_prefix() -> Seq<u8> {
    seq![70u8, 65u8, 73u8, 76u8, 58u8, 32u8]
}

/// An engine error's message as a token: the message itself, or the message
/// behind `FAIL: ` when it would read as the success token `DONE`.
pub open spec fn engine_failure_text(message: Seq<u8>) -> Seq<u8> {
    if message == done_token() {
        fail_prefix() + message
    } else {
        message
    }
}

/// The token for a frame's status: `DONE` for success only; for an unsupported
/// format, the tag that was refused (`FAIL` if the tag reads `DONE`); for a
/// short buffer, `FAIL`; for an engine error, a token that holds its message.
pub open spec fn status_token_of(status: FrameStatus, tag: Seq<u8>) -> Seq<u8> {
    match status {
        FrameStatus::Done => done_token(),
        FrameStatus::Refused(FrameError::UnsupportedFormat) => failure_text(tag),
        FrameStatus::Refused(FrameError::BufferTooSmall { .. }) => fail_token(),
        FrameStatus::EngineFailed(message) => engine_failure_text(message@),
    }
}

/// An engine error's message as a token, as [`engine_failure_text`] states it.
fn engine_failure_bytes(message: &[u8]) -> (r: Vec<u8>)
    ensures
        r@ == engine_failure_text(message@),
        r@ != done_token(),
        r@.len() >= message@.len(),
        r@.subrange(r@.len() - message@.len(), r@.len() as int) == message@,
{
    let done = done_bytes();
    if bytes_equal(message, done.as_slice()) {
        let mut r: Vec<u8> = vec![70u8, 65u8, 73u8, 76u8, 58u8, 32u8];
        assert(r@ == fail_prefix());
        let mut rest = copy_bytes(message);
        r.append(&mut rest);
        assert(r@ =~= fail_prefix() + message@);
        assert(r@.len() != done_token().len());
        assert(r@.subrange(r@.len() - message@.len(), r@.len() as int) =~= message@);
        r
    } else {
        let r = copy_bytes(message);
        assert(r@.subrange(0, r@.len() as int) =~= r@);
        r
    }
}

/// `text` as a failure token, as [`failure_text`] states it.
fn failure_bytes(text: &[u8]) -> (r: Vec<u8>)
    ensures
        r@ == failure_text(text@),
        r@ != done_token(),
{
    let done = done_bytes();
    if bytes_equal(text, done.as_slice()) {
        let r = fail_bytes();
        assert(r@[0] != done_token()[0]);
        r
    } else {
        copy_bytes(text)
    }
}

/// The status of a frame from the engine's answer to its dispatch.
pub fn engine_status(result: Result<(), Vec<u8>>) -> (r: FrameStatus)
    ensures
        result is Ok ==> r == FrameStatus::Done,
        result is Err ==> r == FrameStatus::EngineFailed(result->Err_0),
{
    match result {
        Ok(()) => FrameStatus::Done,
        Err(message) => FrameStatus::EngineFailed(message),
    }
}

/// The token for a frame's status, as [`status_token_of`] states it.
pub fn status_token(status: &FrameStatus, tag: &[u8]) -> (r: Vec<u8>)
    ensures
        r@ == status_token_of(*status, tag@),
        *status != FrameStatus::Done ==> r@ != done_token(),
        *status == FrameStatus::Done ==> r@ == done_token(),
        status is EngineFailed ==> r@.len() >= status->EngineFailed_0@.len() && r@.subrange(
            r@.len() - status->EngineFailed_0@.len(),
            r@.len() as int,
        ) == status->EngineFailed_0@,
{
    match status {
        FrameStatus::Done => done_bytes(),
        FrameStatus::Refused(FrameError::UnsupportedFormat) => failure_bytes(tag),
        FrameStatus::Refused(FrameError::BufferTooSmall { .. }) => {
            let r = fail_bytes();
            assert(r@[0] != done_token()[0]);
            r
        },
        FrameStatus::EngineFailed(message) => engine_failure_bytes(message.as_slice()),
    }
}

/// An import error's message as a token: the message, or `FAIL` when it would
/// read as an answer (`YES` or `NO`).
pub open spec fn error_text(message: Seq<u8>) -> Seq<u8> {
    if message == yes_token() || message == no_token() {
        fail_token()
    } else {
        message
    }
}

/// The answer of a yes/no inspection: `YES`, `NO`, or the import error's
/// message; an error never reads as an answer.
pub fn answer_token(answer: Result<bool, Vec<u8>>) -> (r: Vec<u8>)
    ensures
        answer == Ok::<bool, Vec<u8>>(true) ==> r@ == yes_token(),
        answer == Ok::<bool, Vec<u8>>(false) ==> r@ == no_token(),
        answer is Err ==> r@ == error_text(answer->Err_0@),
        answer is Err ==> r@ != yes_token() && r@ != no_token(),
{
    match answer {
        Ok(true) => {
            let r: Vec<u8> = vec![89u8, 69u8, 83u8];
            assert(r@ == yes_token());
            r
        },
        Ok(false) => {
            let r: Vec<u8> = vec![78u8, 79u8];
            assert(r@ == no_token());
            r
        },
        Err(message) => {
            let yes: Vec<u8> = vec![89u8, 69u8, 83u8];
            let no: Vec<u8> = vec![78u8, 79u8];
            assert(yes@ == yes_token());
            assert(no@ == no_token());
            if bytes_equal(message.as_slice(), yes.as_slice()) || bytes_equal(message.as_slice(), no.as_slice()) {
                let r = fail_bytes();
                assert(r@.len() != yes_token().len() && r@.len() != no_token().len());
                r
            } else {
                message
            }
        },
    }
}

/// The project data to hand back after an export: the data, or `FAIL` when the
/// export failed.
pub fn export_token(exported: Option<Vec<u8>>) -> (r: Vec<u8>)
    ensures
        exported is Some ==> r@ == exported->Some_0@,
        exported is None ==> r@ == fail_token(),
{
    match exported {
        Some(data) => data,
        None => fail_bytes(),
    }
}

/// A project carries motion data when it has raw IMU samples or orientation
/// quaternions.
pub fn has_motion_data(raw_imu_samples: usize, quaternion_samples: usize) -> (r: bool)
    ensures
        r == (raw_imu_samples > 0 || quaternion_samples > 0),
{
    raw_imu_samples > 0 || quaternion_samples > 0
}

/// An official lens profile is loaded when its calibration width is non-zero.
pub fn has_lens_profile(calibration_width: usize) -> (r: bool)
    ensures
        r == (calibration_width > 0),
{
    calibration_width > 0
}

} // verus!
