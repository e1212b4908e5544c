use crate::assembler::{law_run_in_parts, Action, Assembly, Event, Stage};
use crate::error::GibsError;
use vstd::prelude::*;

verus! {

/// How often the encoder has been acquired by the time an assembly that
/// began as created stands at `stage`.
pub open spec fn acquired_by(stage: Stage) -> nat {
    match stage {
        Stage::Created | Stage::Opening | Stage::Failed(GibsError::EncoderInit) => 0,
        _ => 1,
    }
}

/// How often the encoder has been given up by the time an assembly that
/// began as created stands at `stage`.
pub open spec fn released_by(stage: Stage) -> nat {
    match stage {
        Stage::Closing | Stage::Finalized | Stage::Failed(GibsError::FrameWrite) | Stage::Failed(
            GibsError::EncoderClose,
        ) => 1,
        _ => 0,
    }
}

/// Every event leaves a possible state possible.
pub proof fn law_next_keeps_wf(a: Assembly, event: Event)
    requires
        a.wf(),
    ensures
        a.next(event).wf(),
        a.next(event).width == a.width,
        a.next(event).height == a.height,
        a.next(event).frames >= a.frames,
{
}

/// The ledger of the encoder. Over any events, what was acquired and given
/// up before, plus what is acquired and given up now, is what the stage
/// reached stands for; and an encoder is held exactly where it was acquired
/// and not yet given up.
pub proof fn law_encoder_ledger(a: Assembly, events: Seq<Event>)
    requires
        a.wf(),
    ensures
        a.run(events).wf(),
        acquired_by(a.stage) + a.acquisitions(events) == acquired_by(a.run(events).stage),
        released_by(a.stage) + a.releases(events) == released_by(a.run(events).stage),
        a.run(events).holds_encoder() <==> acquired_by(a.run(events).stage) == 1 && released_by(
            a.run(events).stage,
        ) == 0,
    decreases events.len(),
{
    if events.len() > 0 {
        law_next_keeps_wf(a, events[0]);
        law_encoder_ledger(a.next(events[0]), events.drop_first());
    }
}

/// An assembly gives up its encoder exactly once on every path to an end
/// on which it acquired one, and never otherwise: whatever the events, the
/// encoder is acquired at most once and given up at most once; while it is
/// held it has been acquired and not given up; at an end it is not held;
/// after a failure to open it was neither acquired nor given up; and after a
/// refused frame, a failure to close, or success, it was acquired once and
/// given up once.
pub proof fn law_encoder_released_exactly_once(width: i32, height: i32, events: Seq<Event>)
    ensures
        ({
            let start = Assembly::created(width, height);
            let end = start.run(events);
            &&& start.acquisitions(events) <= 1
            &&& start.releases(events) <= start.acquisitions(events)
            &&& end.holds_encoder() <==> start.acquisitions(events) == 1 && start.releases(events)
                == 0
            &&& end.is_terminal() ==> start.releases(events) == start.acquisitions(events)
            &&& end.stage == Stage::Failed(GibsError::EncoderInit) ==> start.acquisitions(events)
                == 0 && start.releases(events) == 0
            &&& (end.stage == Stage::Failed(GibsError::FrameWrite) || end.stage == Stage::Failed(
                GibsError::EncoderClose,
            ) || end.stage == Stage::Finalized) ==> start.acquisitions(events) == 1
                && start.releases(events) == 1
        }),
{
    law_encoder_ledger(Assembly::created(width, height), events);
}

/// An assembly that has ended stays as it is: every later event is ignored,
/// so no frame is taken, no encoder touched and no artifact returned.
pub proof fn law_end_is_final(a: Assembly, events: Seq<Event>)
    requires
        a.is_terminal(),
    ensures
        a.run(events) == a,
        a.actions(events).len() == events.len(),
        forall|i: int| 0 <= i < events.len() ==> #[trigger] a.actions(events)[i] == Action::Ignore,
        a.acquisitions(events) == 0,
        a.releases(events) == 0,
    decreases events.len(),
{
    if events.len() > 0 {
        law_end_is_final(a, events.drop_first());
        let rest = a.actions(events.drop_first());
        assert forall|i: int| 0 <= i < events.len() implies #[trigger] a.actions(events)[i]
            == Action::Ignore by {
            if i > 0 {
                assert(a.actions(events)[i] == rest[i - 1]);
            }
        }
    }
}

/// A frame of another size than the assembly was made for fails it with
/// `FrameWrite`, the driver is told to give up the encoder, and whatever
/// follows, the assembly is never finalized.
pub proof fn law_wrong_size_fails(a: Assembly, width: i32, height: i32, later: Seq<Event>)
    requires
        a.stage == Stage::Open,
        width != a.width || height != a.height,
    ensures
        a.action(Event::Frame { width, height }) == Action::Abort(GibsError::FrameWrite),
        a.run(seq![Event::Frame { width, height }] + later).stage == Stage::Failed(
            GibsError::FrameWrite,
        ),
        a.run(seq![Event::Frame { width, height }] + later).frames == a.frames,
{
    let offer = Event::Frame { width, height };
    law_run_in_parts(a, seq![offer], later);
    assert(seq![offer].drop_first() =~= Seq::<Event>::empty());
    assert(a.run(seq![offer]) == a.next(offer).run(Seq::<Event>::empty()));
    law_end_is_final(a.next(offer), later);
}

/// Where the encoder cannot be acquired, the assembly fails with
/// `EncoderInit`; whatever follows, no frame is ever handed to an encoder,
/// none is counted, and no artifact is returned.
pub proof fn law_failed_open_takes_nothing(width: i32, height: i32, later: Seq<Event>)
    ensures
        ({
            let start = Assembly::created(width, height);
            let events = seq![Event::Start, Event::OpenFailed] + later;
            &&& start.run(events).stage == Stage::Failed(GibsError::EncoderInit)
            &&& start.run(events).frames == 0
            &&& start.actions(events).len() == events.len()
            &&& forall|i: int|
                0 <= i < events.len() ==> #[trigger] start.actions(events)[i] != Action::Write
                    && start.actions(events)[i] != Action::Deliver
        }),
{
    let start = Assembly::created(width, height);
    let head = seq![Event::Start, Event::OpenFailed];
    let events = head + later;
    let opening = start.next(Event::Start);
    let failed = opening.next(Event::OpenFailed);
    assert(head.drop_first() =~= seq![Event::OpenFailed]);
    assert(head.drop_first().drop_first() =~= Seq::<Event>::empty());
    assert(start.run(head) == opening.run(head.drop_first()));
    assert(opening.run(head.drop_first()) == failed.run(Seq::<Event>::empty()));
    assert(start.actions(head) == seq![start.action(Event::Start)] + opening.actions(
        head.drop_first(),
    ));
    assert(opening.actions(head.drop_first()) == seq![opening.action(Event::OpenFailed)]
        + failed.actions(Seq::<Event>::empty()));
    assert(start.actions(head) =~= seq![
        Action::Open { width, height },
        Action::Fail(GibsError::EncoderInit),
    ]);
    law_run_in_parts(start, head, later);
    law_end_is_final(failed, later);
    assert forall|i: int| 0 <= i < events.len() implies #[trigger] start.actions(events)[i]
        != Action::Write && start.actions(events)[i] != Action::Deliver by {
        if i >= 2 {
            assert(start.actions(events)[i] == failed.actions(later)[i - 2]);
        }
    }
}

/// The events of an assembly on which nothing fails: a start, the encoder
/// acquired, `count` frames of the given size each taken, the end, and the
/// encoder closed.
pub open spec fn smooth_events(width: i32, height: i32, count: nat) -> Seq<Event> {
    seq![Event::Start, Event::OpenSucceeded] + frame_events(width, height, count) + seq![
        Event::End,
        Event::CloseSucceeded,
    ]
}

/// `count` times a frame of the given size, offered and taken.
pub open spec fn frame_events(width: i32, height: i32, count: nat) -> Seq<Event>
    decreases count,
{
    if count == 0 {
        Seq::empty()
    } else {
        seq![Event::Frame { width, height }, Event::WriteSucceeded] + frame_events(
            width,
            height,
            (count - 1) as nat,
        )
    }
}

/// Frames of the right size, each taken by the encoder, are each counted,
/// and leave the assembly open.
pub proof fn law_fitting_frames_are_counted(a: Assembly, count: nat)
    requires
        a.stage == Stage::Open,
        a.frames + count <= usize::MAX,
    ensures
        a.run(frame_events(a.width, a.height, count)) == (Assembly {
            frames: a.frames + count,
            ..a
        }),
    decreases count,
{
    if count > 0 {
        let pair = seq![Event::Frame { width: a.width, height: a.height }, Event::WriteSucceeded];
        let rest = frame_events(a.width, a.height, (count - 1) as nat);
        let writing = a.next(pair[0]);
        let counted = writing.next(pair[1]);
        assert(pair.drop_first() =~= seq![Event::WriteSucceeded]);
        assert(pair.drop_first().drop_first() =~= Seq::<Event>::empty());
        assert(a.run(pair) == writing.run(pair.drop_first()));
        assert(writing.run(pair.drop_first()) == counted.run(Seq::<Event>::empty()));
        law_run_in_parts(a, pair, rest);
        law_fitting_frames_are_counted(counted, (count - 1) as nat);
    }
}

/// An assembly on which nothing fails is finalized, and has counted every
/// frame.
pub proof fn law_smooth_run_finalizes(width: i32, height: i32, count: nat)
    requires
        count <= usize::MAX,
    ensures
        Assembly::created(width, height).run(smooth_events(width, height, count)) == (Assembly {
            width,
            height,
            stage: Stage::Finalized,
            frames: count,
        }),
{
    let start = Assembly::created(width, height);
    let head = seq![Event::Start, Event::OpenSucceeded];
    let tail = seq![Event::End, Event::CloseSucceeded];
    let middle = frame_events(width, height, count);
    let opening = start.next(Event::Start);
    let open = opening.next(Event::OpenSucceeded);
    assert(head.drop_first() =~= seq![Event::OpenSucceeded]);
    assert(head.drop_first().drop_first() =~= Seq::<Event>::empty());
    assert(start.run(head) == opening.run(head.drop_first()));
    assert(opening.run(head.drop_first()) == open.run(Seq::<Event>::empty()));
    law_fitting_frames_are_counted(open, count);
    let full = open.run(middle);
    let closing = full.next(Event::End);
    let done = closing.next(Event::CloseSucceeded);
    assert(tail.drop_first() =~= seq![Event::CloseSucceeded]);
    assert(tail.drop_first().drop_first() =~= Seq::<Event>::empty());
    assert(full.run(tail) == closing.run(tail.drop_first()));
    assert(closing.run(tail.drop_first()) == done.run(Seq::<Event>::empty()));
    law_run_in_parts(start, head, middle);
    law_run_in_parts(start, head + middle, tail);
}

} // verus!
