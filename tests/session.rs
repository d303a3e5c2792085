use file_drop::{Action, Event, Phase, UploadConfig, UploadError, UploadSession};

const GIB: u64 = 1024 * 1024 * 1024;

fn drive(session: &mut UploadSession, events: &[Event]) -> Vec<Action> {
    events.iter().map(|e| session.step(*e)).collect()
}

#[test]
fn example_report_upload() {
    let cfg = UploadConfig::new(GIB, "http://localhost:8080".to_string());
    let mut s = UploadSession::begin(&cfg, "report.txt").unwrap();
    let acts = drive(
        &mut s,
        &[Event::StagingCreated, Event::Chunk(12), Event::EndOfBody, Event::Flushed, Event::Published],
    );
    assert_eq!(
        acts,
        vec![Action::ReadChunk, Action::WriteChunk, Action::Flush, Action::Publish, Action::Created(12)]
    );
    assert_eq!(s.phase, Phase::Finished);
}

#[test]
fn example_traversal_rejected() {
    let cfg = UploadConfig::new(GIB, String::new());
    let r = UploadSession::begin(&cfg, "../../etc/passwd");
    assert_eq!(r, Err(UploadError::InvalidName));
    assert_eq!(UploadError::InvalidName.status_code(), 400);
    assert_eq!(UploadError::InvalidName.reason(), "Invalid filename");
}

#[test]
fn example_too_large() {
    let cfg = UploadConfig::new(10, String::new());
    let mut s = UploadSession::begin(&cfg, "big.bin").unwrap();
    let acts = drive(&mut s, &[Event::StagingCreated, Event::Chunk(11)]);
    assert_eq!(acts, vec![Action::ReadChunk, Action::Discard(UploadError::TooLarge)]);
    assert_eq!(s.phase, Phase::Finished);
    assert_eq!(s.step(Event::EndOfBody), Action::Fail(UploadError::Internal));
    assert_eq!(UploadError::TooLarge.status_code(), 413);
    assert_eq!(UploadError::TooLarge.reason(), "File too large");
}

#[test]
fn example_reupload_same_name() {
    let cfg = UploadConfig::new(GIB, String::new());
    let mut first = UploadSession::begin(&cfg, "a.txt").unwrap();
    let a = drive(
        &mut first,
        &[Event::StagingCreated, Event::Chunk(5), Event::EndOfBody, Event::Flushed, Event::Published],
    );
    assert_eq!(a.last(), Some(&Action::Created(5)));
    let mut second = UploadSession::begin(&cfg, "a.txt").unwrap();
    assert_eq!(second.written, 0);
    let b = drive(
        &mut second,
        &[Event::StagingCreated, Event::Chunk(3), Event::EndOfBody, Event::Flushed, Event::Published],
    );
    assert_eq!(
        b,
        vec![Action::ReadChunk, Action::WriteChunk, Action::Flush, Action::Publish, Action::Created(3)]
    );
}

#[test]
fn chunks_add_up_to_the_ceiling_exactly() {
    let cfg = UploadConfig::new(10, String::new());
    let mut s = UploadSession::begin(&cfg, "x").unwrap();
    let acts = drive(
        &mut s,
        &[
            Event::StagingCreated,
            Event::Chunk(4),
            Event::Chunk(6),
            Event::Chunk(0),
            Event::EndOfBody,
            Event::Flushed,
            Event::Published,
        ],
    );
    assert_eq!(
        acts,
        vec![
            Action::ReadChunk,
            Action::WriteChunk,
            Action::WriteChunk,
            Action::WriteChunk,
            Action::Flush,
            Action::Publish,
            Action::Created(10),
        ]
    );
}

#[test]
fn crossing_the_ceiling_in_a_later_chunk() {
    let cfg = UploadConfig::new(10, String::new());
    let mut s = UploadSession::begin(&cfg, "x").unwrap();
    let acts = drive(&mut s, &[Event::StagingCreated, Event::Chunk(6), Event::Chunk(5)]);
    assert_eq!(acts, vec![Action::ReadChunk, Action::WriteChunk, Action::Discard(UploadError::TooLarge)]);
    assert_eq!(s.written, 6);
}

#[test]
fn huge_chunk_does_not_overflow() {
    let cfg = UploadConfig::new(u64::MAX, String::new());
    let mut s = UploadSession::begin(&cfg, "x").unwrap();
    let acts = drive(&mut s, &[Event::StagingCreated, Event::Chunk(u64::MAX), Event::Chunk(1)]);
    assert_eq!(acts, vec![Action::ReadChunk, Action::WriteChunk, Action::Discard(UploadError::TooLarge)]);
}

#[test]
fn empty_body_publishes_empty_file() {
    let cfg = UploadConfig::new(0, String::new());
    let mut s = UploadSession::begin(&cfg, "empty").unwrap();
    let acts = drive(
        &mut s,
        &[Event::StagingCreated, Event::EndOfBody, Event::Flushed, Event::Published],
    );
    assert_eq!(acts, vec![Action::ReadChunk, Action::Flush, Action::Publish, Action::Created(0)]);
}

#[test]
fn failures_and_cleanup() {
    let cfg = UploadConfig::new(100, String::new());

    let mut s = UploadSession::begin(&cfg, "f").unwrap();
    assert_eq!(s.step(Event::StagingFailed), Action::Fail(UploadError::Internal));

    let mut s = UploadSession::begin(&cfg, "f").unwrap();
    let acts = drive(&mut s, &[Event::StagingCreated, Event::Chunk(3), Event::BodyFailed]);
    assert_eq!(acts[2], Action::Discard(UploadError::InvalidBody));
    assert_eq!(UploadError::InvalidBody.status_code(), 400);
    assert_eq!(UploadError::InvalidBody.reason(), "Invalid body");

    let mut s = UploadSession::begin(&cfg, "f").unwrap();
    let acts = drive(&mut s, &[Event::StagingCreated, Event::Chunk(3), Event::WriteFailed]);
    assert_eq!(acts[2], Action::Discard(UploadError::Internal));

    let mut s = UploadSession::begin(&cfg, "f").unwrap();
    let acts = drive(&mut s, &[Event::StagingCreated, Event::EndOfBody, Event::FlushFailed]);
    assert_eq!(acts[2], Action::Discard(UploadError::Internal));

    let mut s = UploadSession::begin(&cfg, "f").unwrap();
    let acts = drive(
        &mut s,
        &[Event::StagingCreated, Event::EndOfBody, Event::Flushed, Event::PublishFailed],
    );
    assert_eq!(acts[3], Action::Fail(UploadError::Internal));
    assert_eq!(UploadError::Internal.status_code(), 500);
    assert_eq!(UploadError::Internal.reason(), "Internal error");
}

#[test]
fn unexpected_event_ends_session() {
    let cfg = UploadConfig::new(100, String::new());
    let mut s = UploadSession::begin(&cfg, "f").unwrap();
    assert_eq!(s.step(Event::Chunk(1)), Action::Fail(UploadError::Internal));
    assert_eq!(s.phase, Phase::Finished);
}
