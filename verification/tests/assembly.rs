use gibs_rs::image::{Image, Type};
use gibs_rs::{Action, Event, GibsError, Stage, VideoArtifact, VideoAssembler, GIBS};

/// An encoder that does nothing but count, and fails where it is told to.
struct Encoder {
    fail_open: bool,
    fail_write_at: Option<usize>,
    fail_close: bool,
    opened: usize,
    written: usize,
    released: usize,
}

fn encoder() -> Encoder {
    Encoder {
        fail_open: false,
        fail_write_at: None,
        fail_close: false,
        opened: 0,
        written: 0,
        released: 0,
    }
}

fn frame(width: i32, height: i32) -> Image {
    Image::new(vec![0u8; 12], Type::PNG, width, height)
}

fn frames(count: usize, width: i32, height: i32) -> Vec<Image> {
    let mut all = Vec::new();
    for _ in 0..count {
        all.push(frame(width, height));
    }
    all
}

/// Drives `assembler` over `images` against `encoder`, as a caller would.
fn drive(
    assembler: &mut VideoAssembler,
    images: &[Image],
    encoder: &mut Encoder,
) -> Result<VideoArtifact, GibsError> {
    let images = images.to_vec();
    let mut action = assembler.step(Event::Start);
    loop {
        let event = match action {
            Action::Open { width, height } => {
                assert_eq!(width, assembler.width());
                assert_eq!(height, assembler.height());
                if encoder.fail_open {
                    Event::OpenFailed
                } else {
                    encoder.opened += 1;
                    Event::OpenSucceeded
                }
            }
            Action::AwaitFrame => assembler.next_event(&images),
            Action::Write => {
                assert_eq!(encoder.opened, 1);
                assert_eq!(encoder.released, 0);
                let at = assembler.frames_written();
                assert!(images[at].has_size(assembler.width(), assembler.height()));
                if encoder.fail_write_at == Some(at) {
                    Event::WriteFailed
                } else {
                    encoder.written += 1;
                    Event::WriteSucceeded
                }
            }
            Action::Close => {
                encoder.released += 1;
                if encoder.fail_close {
                    Event::CloseFailed
                } else {
                    Event::CloseSucceeded
                }
            }
            Action::Abort(error) => {
                encoder.released += 1;
                return Err(error);
            }
            Action::Fail(error) => return Err(error),
            Action::Deliver => return Ok(assembler.artifact().expect("an artifact")),
            Action::Ignore => panic!("the driver sent an event out of turn"),
        };
        action = assembler.step(event);
    }
}

#[test]
fn ten_frames_are_finalized() {
    let mut assembler = VideoAssembler::new(500, 500);
    let mut enc = encoder();
    let artifact = drive(&mut assembler, &frames(10, 500, 500), &mut enc).unwrap();
    assert_eq!(assembler.stage(), Stage::Finalized);
    assert_eq!(artifact.frames, 10);
    assert_eq!(artifact.width, 500);
    assert_eq!(artifact.height, 500);
    assert_eq!(artifact.name, assembler.file_name());
    assert!(artifact.name.ends_with(".mp4"));
    assert_eq!(artifact.name.len(), 40);
    assert_eq!(enc.written, 10);
    assert_eq!(enc.opened, 1);
    assert_eq!(enc.released, 1);
    assert_eq!(assembler.failure(), None);
}

#[test]
fn no_frames_still_finalize() {
    let mut assembler = VideoAssembler::named(640, 480, "empty");
    let mut enc = encoder();
    let artifact = drive(&mut assembler, &[], &mut enc).unwrap();
    assert_eq!(artifact.frames, 0);
    assert_eq!(artifact.name, "empty.mp4");
    assert_eq!(artifact.width, 640);
    assert_eq!(artifact.height, 480);
    assert_eq!(enc.released, 1);
}

#[test]
fn a_frame_of_another_size_fails_the_assembly() {
    let mut images = frames(3, 500, 500);
    images.push(frame(500, 499));
    images.push(frame(500, 500));
    let mut assembler = VideoAssembler::new(500, 500);
    let mut enc = encoder();
    let result = drive(&mut assembler, &images, &mut enc);
    assert_eq!(result.err(), Some(GibsError::FrameWrite));
    assert_eq!(assembler.stage(), Stage::Failed(GibsError::FrameWrite));
    assert_eq!(assembler.failure(), Some(GibsError::FrameWrite));
    assert!(assembler.artifact().is_none());
    assert_eq!(assembler.frames_written(), 3);
    assert_eq!(enc.written, 3);
    assert_eq!(enc.released, 1);
}

#[test]
fn width_and_height_are_not_exchanged() {
    let mut assembler = GIBS::new(300, 400).video_assembler();
    assert_eq!(assembler.width(), 400);
    assert_eq!(assembler.height(), 300);
    let mut enc = encoder();
    let result = drive(&mut assembler, &[frame(300, 400)], &mut enc);
    assert_eq!(result.err(), Some(GibsError::FrameWrite));
    assert_eq!(enc.written, 0);
    assert_eq!(enc.released, 1);

    let mut assembler = GIBS::new(300, 400).video_assembler();
    let mut enc = encoder();
    let artifact = drive(&mut assembler, &[frame(400, 300)], &mut enc).unwrap();
    assert_eq!(artifact.frames, 1);
}

#[test]
fn a_failed_open_takes_no_frame() {
    let mut assembler = VideoAssembler::new(500, 500);
    let mut enc = encoder();
    enc.fail_open = true;
    let result = drive(&mut assembler, &frames(10, 500, 500), &mut enc);
    assert_eq!(result.err(), Some(GibsError::EncoderInit));
    assert_eq!(assembler.stage(), Stage::Failed(GibsError::EncoderInit));
    assert_eq!(enc.written, 0);
    assert_eq!(enc.opened, 0);
    assert_eq!(enc.released, 0);
    assert_eq!(assembler.step(Event::offer(&frame(500, 500))), Action::Ignore);
    assert_eq!(assembler.step(Event::WriteSucceeded), Action::Ignore);
    assert_eq!(assembler.step(Event::End), Action::Ignore);
    assert_eq!(assembler.step(Event::CloseSucceeded), Action::Ignore);
    assert_eq!(assembler.frames_written(), 0);
    assert!(assembler.artifact().is_none());
}

#[test]
fn a_refused_frame_fails_the_assembly() {
    let mut assembler = VideoAssembler::new(500, 500);
    let mut enc = encoder();
    enc.fail_write_at = Some(4);
    let result = drive(&mut assembler, &frames(10, 500, 500), &mut enc);
    assert_eq!(result.err(), Some(GibsError::FrameWrite));
    assert_eq!(assembler.frames_written(), 4);
    assert_eq!(enc.written, 4);
    assert_eq!(enc.released, 1);
    assert!(assembler.artifact().is_none());
}

#[test]
fn a_failed_close_gives_no_artifact() {
    let mut assembler = VideoAssembler::new(500, 500);
    let mut enc = encoder();
    enc.fail_close = true;
    let result = drive(&mut assembler, &frames(10, 500, 500), &mut enc);
    assert_eq!(result.err(), Some(GibsError::EncoderClose));
    assert_eq!(assembler.stage(), Stage::Failed(GibsError::EncoderClose));
    assert_eq!(enc.written, 10);
    assert_eq!(enc.released, 1);
    assert!(assembler.artifact().is_none());
}

#[test]
fn the_encoder_is_given_up_once_wherever_it_fails() {
    for count in 0..4usize {
        for fail_open in [false, true] {
            for fail_close in [false, true] {
                for fail_at in 0..=count {
                    let mut enc = encoder();
                    enc.fail_open = fail_open;
                    enc.fail_close = fail_close;
                    enc.fail_write_at = if fail_at < count { Some(fail_at) } else { None };
                    let mut assembler = VideoAssembler::new(8, 6);
                    let result = drive(&mut assembler, &frames(count, 8, 6), &mut enc);
                    assert_eq!(enc.released, enc.opened);
                    assert_eq!(enc.opened, if fail_open { 0 } else { 1 });
                    let expected = if fail_open {
                        Err(GibsError::EncoderInit)
                    } else if fail_at < count {
                        Err(GibsError::FrameWrite)
                    } else if fail_close {
                        Err(GibsError::EncoderClose)
                    } else {
                        Ok(count)
                    };
                    assert_eq!(result.map(|artifact| artifact.frames), expected);
                }
            }
        }
    }
}

#[test]
fn steps_in_order() {
    let mut assembler = VideoAssembler::named(2, 3, "steps");
    assert_eq!(assembler.stage(), Stage::Created);
    assert_eq!(assembler.file_name(), "steps.mp4");
    assert_eq!(
        assembler.step(Event::Start),
        Action::Open {
            width: 2,
            height: 3
        }
    );
    assert_eq!(assembler.stage(), Stage::Opening);
    assert_eq!(assembler.step(Event::OpenSucceeded), Action::AwaitFrame);
    assert_eq!(assembler.stage(), Stage::Open);
    assert_eq!(
        assembler.step(Event::Frame {
            width: 2,
            height: 3
        }),
        Action::Write
    );
    assert_eq!(assembler.stage(), Stage::Writing);
    assert_eq!(assembler.frames_written(), 0);
    assert_eq!(assembler.step(Event::WriteSucceeded), Action::AwaitFrame);
    assert_eq!(assembler.stage(), Stage::Open);
    assert_eq!(assembler.frames_written(), 1);
    assert_eq!(assembler.step(Event::End), Action::Close);
    assert_eq!(assembler.stage(), Stage::Closing);
    assert!(assembler.artifact().is_none());
    assert_eq!(assembler.step(Event::CloseSucceeded), Action::Deliver);
    assert_eq!(assembler.stage(), Stage::Finalized);
    assert_eq!(assembler.artifact().unwrap().frames, 1);
    assert_eq!(assembler.file_name(), "steps.mp4");
}

#[test]
fn events_out_of_turn_are_ignored() {
    let mut assembler = VideoAssembler::new(2, 3);
    assert_eq!(assembler.step(Event::OpenSucceeded), Action::Ignore);
    assert_eq!(assembler.step(Event::End), Action::Ignore);
    assert_eq!(
        assembler.step(Event::Frame {
            width: 2,
            height: 3
        }),
        Action::Ignore
    );
    assert_eq!(assembler.stage(), Stage::Created);
    assembler.step(Event::Start);
    assert_eq!(assembler.step(Event::Start), Action::Ignore);
    assert_eq!(assembler.step(Event::WriteSucceeded), Action::Ignore);
    assert_eq!(assembler.stage(), Stage::Opening);
    assembler.step(Event::OpenSucceeded);
    assert_eq!(assembler.step(Event::CloseSucceeded), Action::Ignore);
    assert_eq!(assembler.step(Event::WriteFailed), Action::Ignore);
    assert_eq!(assembler.stage(), Stage::Open);
    assert_eq!(assembler.frames_written(), 0);
}

#[test]
fn a_finalized_assembly_takes_nothing_more() {
    let mut assembler = VideoAssembler::new(2, 3);
    let mut enc = encoder();
    drive(&mut assembler, &frames(2, 2, 3), &mut enc).unwrap();
    assert_eq!(assembler.step(Event::Start), Action::Ignore);
    assert_eq!(assembler.step(Event::offer(&frame(2, 3))), Action::Ignore);
    assert_eq!(assembler.step(Event::End), Action::Ignore);
    assert_eq!(assembler.stage(), Stage::Finalized);
    assert_eq!(assembler.artifact().unwrap().frames, 2);
}

#[test]
fn two_assemblers_write_to_two_files() {
    let first = VideoAssembler::new(500, 500);
    let second = VideoAssembler::new(500, 500);
    assert_ne!(first.file_name(), second.file_name());
}

#[test]
fn offer_reports_the_size_of_the_frame() {
    let image = frame(7, 9);
    assert_eq!(
        Event::offer(&image),
        Event::Frame {
            width: 7,
            height: 9
        }
    );
    assert!(image.has_size(7, 9));
    assert!(!image.has_size(9, 7));
    assert!(!image.has_size(7, 8));
    assert_eq!(image.image_type, Type::PNG);
    assert_eq!(image.bytes.len(), 12);
}

fn smooth_events(count: usize, width: i32, height: i32) -> Vec<Event> {
    let mut events = vec![Event::Start, Event::OpenSucceeded];
    for _ in 0..count {
        events.push(Event::Frame { width, height });
        events.push(Event::WriteSucceeded);
    }
    events.push(Event::End);
    events.push(Event::CloseSucceeded);
    events
}

fn given_up(actions: &[Action]) -> usize {
    actions
        .iter()
        .filter(|action| matches!(action, Action::Close | Action::Abort(_)))
        .count()
}

#[test]
fn replay_of_a_smooth_run() {
    let mut assembler = VideoAssembler::named(500, 500, "smooth");
    let actions = assembler.replay(&smooth_events(10, 500, 500));
    assert_eq!(actions.len(), 24);
    assert_eq!(
        actions[0],
        Action::Open {
            width: 500,
            height: 500
        }
    );
    assert_eq!(actions[1], Action::AwaitFrame);
    for k in 0..10 {
        assert_eq!(actions[2 + 2 * k], Action::Write);
        assert_eq!(actions[3 + 2 * k], Action::AwaitFrame);
    }
    assert_eq!(actions[22], Action::Close);
    assert_eq!(actions[23], Action::Deliver);
    assert_eq!(given_up(&actions), 1);
    assert_eq!(assembler.stage(), Stage::Finalized);
    let artifact = assembler.artifact().unwrap();
    assert_eq!(artifact.frames, 10);
    assert_eq!(artifact.name, "smooth.mp4");
}

#[test]
fn replay_of_nothing_changes_nothing() {
    let mut assembler = VideoAssembler::new(5, 5);
    assert_eq!(assembler.replay(&Vec::new()), Vec::new());
    assert_eq!(assembler.stage(), Stage::Created);
}

#[test]
fn replay_gives_up_the_encoder_at_most_once() {
    let alphabet = [
        Event::Start,
        Event::OpenSucceeded,
        Event::OpenFailed,
        Event::Frame {
            width: 4,
            height: 4,
        },
        Event::Frame {
            width: 4,
            height: 5,
        },
        Event::WriteSucceeded,
        Event::WriteFailed,
        Event::End,
        Event::CloseSucceeded,
        Event::CloseFailed,
    ];
    // Every sequence of five events after a start.
    for code in 0..100_000usize {
        let mut events = vec![Event::Start];
        let mut rest = code;
        for _ in 0..5 {
            events.push(alphabet[rest % 10]);
            rest /= 10;
        }
        let mut assembler = VideoAssembler::named(4, 4, "any");
        let actions = assembler.replay(&events);
        let acquired = actions
            .iter()
            .zip(events.iter())
            .filter(|(action, event)| {
                **event == Event::OpenSucceeded && **action == Action::AwaitFrame
            })
            .count();
        let released = given_up(&actions);
        assert!(acquired <= 1);
        assert!(released <= acquired);
        match assembler.stage() {
            Stage::Finalized => assert_eq!((acquired, released), (1, 1)),
            Stage::Failed(GibsError::EncoderInit) => assert_eq!((acquired, released), (0, 0)),
            Stage::Failed(_) => assert_eq!((acquired, released), (1, 1)),
            Stage::Open | Stage::Writing => assert_eq!((acquired, released), (1, 0)),
            Stage::Closing => assert_eq!((acquired, released), (1, 1)),
            Stage::Created | Stage::Opening => assert_eq!((acquired, released), (0, 0)),
        }
        assert_eq!(
            assembler.artifact().is_some(),
            assembler.stage() == Stage::Finalized
        );
    }
}

#[test]
fn replay_after_a_wrong_size_never_finalizes() {
    let mut events = vec![
        Event::Start,
        Event::OpenSucceeded,
        Event::Frame {
            width: 500,
            height: 400,
        },
    ];
    events.extend(smooth_events(3, 500, 500));
    let mut assembler = VideoAssembler::new(500, 500);
    let actions = assembler.replay(&events);
    assert_eq!(actions[2], Action::Abort(GibsError::FrameWrite));
    for action in &actions[3..] {
        assert_eq!(*action, Action::Ignore);
    }
    assert_eq!(assembler.stage(), Stage::Failed(GibsError::FrameWrite));
    assert_eq!(assembler.frames_written(), 0);
}

#[test]
fn next_event_goes_through_the_frames_in_order() {
    let images = vec![frame(1, 2), frame(3, 4)];
    let mut assembler = VideoAssembler::new(1, 2);
    assert_eq!(
        assembler.next_event(&images),
        Event::Frame {
            width: 1,
            height: 2
        }
    );
    assembler.replay(&vec![
        Event::Start,
        Event::OpenSucceeded,
        Event::Frame {
            width: 1,
            height: 2,
        },
        Event::WriteSucceeded,
    ]);
    assert_eq!(
        assembler.next_event(&images),
        Event::Frame {
            width: 3,
            height: 4
        }
    );
    assert_eq!(assembler.next_event(&images[..1].to_vec()), Event::End);
    assert_eq!(assembler.next_event(&Vec::new()), Event::End);
}
