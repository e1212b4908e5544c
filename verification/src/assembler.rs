use crate::error::GibsError;
use crate::image::Image;
use crate::naming::{artifact_name, fresh_artifact_name, video_extension};
use vstd::prelude::*;

verus! {

/// Where an assembly stands.
#[derive(Copy, Clone, PartialEq, Eq, Structural, Debug)]
pub enum Stage {
    /// Nothing has been asked of the encoder yet.
    Created,
    /// The encoder has been asked for; the answer is awaited.
    Opening,
    /// The encoder is held and waits for the next frame, or for the end.
    Open,
    /// A frame is with the encoder; the answer is awaited.
    Writing,
    /// The encoder has been told to close; the answer is awaited.
    Closing,
    /// The video is complete.
    Finalized,
    /// The assembly has failed, for the reason given. Nothing follows.
    Failed(GibsError),
}

/// What the driver of an assembly reports to it.
#[derive(Copy, Clone, PartialEq, Eq, Structural, Debug)]
pub enum Event {
    /// The caller wants the assembly to begin.
    Start,
    /// The encoder was acquired.
    OpenSucceeded,
    /// The encoder could not be acquired.
    OpenFailed,
    /// The caller offers the next frame, of this size.
    Frame { width: i32, height: i32 },
    /// The encoder took the frame.
    WriteSucceeded,
    /// The encoder refused the frame.
    WriteFailed,
    /// The caller has no more frames.
    End,
    /// The encoder closed and flushed.
    CloseSucceeded,
    /// The encoder failed to close.
    CloseFailed,
}

/// What the driver of an assembly is to do next.
#[derive(Copy, Clone, PartialEq, Eq, Structural, Debug)]
pub enum Action {
    /// Acquire an encoder for frames of this size, then report
    /// `OpenSucceeded` or `OpenFailed`.
    Open { width: i32, height: i32 },
    /// Report the next `Frame`, or `End`.
    AwaitFrame,
    /// Hand the offered frame to the encoder, then report `WriteSucceeded`
    /// or `WriteFailed`.
    Write,
    /// Close the encoder, which gives it up, then report `CloseSucceeded`
    /// or `CloseFailed`.
    Close,
    /// Give up the encoder, then return this error.
    Abort(GibsError),
    /// Return this error; no encoder is held.
    Fail(GibsError),
    /// Return the artifact.
    Deliver,
    /// The event has no place at this stage: do nothing.
    Ignore,
}

impl Action {
    /// Whether the driver gives up the encoder when it performs this action.
    pub open spec fn gives_up_encoder(self) -> bool {
        self == Action::Close || self is Abort
    }
}

impl Event {
    /// The event that offers `image`.
    pub fn offer(image: &Image) -> (event: Event)
        ensures
            event == (Event::Frame { width: image.width, height: image.height }),
    {
        Event::Frame { width: image.width, height: image.height }
    }
}

/// The state of one assembly: the size it was made for, its stage, and the
/// number of frames that the encoder has taken.
pub ghost struct Assembly {
    pub width: i32,
    pub height: i32,
    pub stage: Stage,
    pub frames: nat,
}

impl Assembly {
    /// The state in which every assembly begins.
    pub open spec fn created(width: i32, height: i32) -> Assembly {
        Assembly { width, height, stage: Stage::Created, frames: 0 }
    }

    /// States that an assembly can be in: frames are counted only once the
    /// encoder is held, and a failure is one of the encoder's three.
    pub open spec fn wf(self) -> bool {
        &&& self.frames <= usize::MAX
        &&& self.stage == Stage::Writing ==> self.frames < usize::MAX
        &&& (self.stage == Stage::Created || self.stage == Stage::Opening || self.stage
            == Stage::Failed(GibsError::EncoderInit)) ==> self.frames == 0
        &&& self.stage != Stage::Failed(GibsError::UrlConstruction)
    }

    /// Whether a frame of this size is taken: it has exactly the size the
    /// assembly was made for, and the count of frames can still grow.
    pub open spec fn admits(self, width: i32, height: i32) -> bool {
        width == self.width && height == self.height && self.frames < usize::MAX
    }

    /// Whether the encoder is held at this stage.
    pub open spec fn holds_encoder(self) -> bool {
        self.stage == Stage::Open || self.stage == Stage::Writing
    }

    /// Whether the assembly has ended.
    pub open spec fn is_terminal(self) -> bool {
        self.stage == Stage::Finalized || self.stage is Failed
    }

    /// The same assembly at another stage.
    pub open spec fn at(self, stage: Stage) -> Assembly {
        Assembly { stage, ..self }
    }

    /// The state after `event`.
    pub open spec fn next(self, event: Event) -> Assembly {
        match (self.stage, event) {
            (Stage::Created, Event::Start) => self.at(Stage::Opening),
            (Stage::Opening, Event::OpenSucceeded) => self.at(Stage::Open),
            (Stage::Opening, Event::OpenFailed) => self.at(Stage::Failed(GibsError::EncoderInit)),
            (Stage::Open, Event::Frame { width, height }) => if self.admits(width, height) {
                self.at(Stage::Writing)
            } else {
                self.at(Stage::Failed(GibsError::FrameWrite))
            },
            (Stage::Open, Event::End) => self.at(Stage::Closing),
            (Stage::Writing, Event::WriteSucceeded) => Assembly {
                stage: Stage::Open,
                frames: self.frames + 1,
                ..self
            },
            (Stage::Writing, Event::WriteFailed) => self.at(Stage::Failed(GibsError::FrameWrite)),
            (Stage::Closing, Event::CloseSucceeded) => self.at(Stage::Finalized),
            (Stage::Closing, Event::CloseFailed) => self.at(
                Stage::Failed(GibsError::EncoderClose),
            ),
            _ => self,
        }
    }

    /// What the driver is told to do on `event`.
    pub open spec fn action(self, event: Event) -> Action {
        match (self.stage, event) {
            (Stage::Created, Event::Start) => Action::Open {
                width: self.width,
                height: self.height,
            },
            (Stage::Opening, Event::OpenSucceeded) => Action::AwaitFrame,
            (Stage::Opening, Event::OpenFailed) => Action::Fail(GibsError::EncoderInit),
            (Stage::Open, Event::Frame { width, height }) => if self.admits(width, height) {
                Action::Write
            } else {
                Action::Abort(GibsError::FrameWrite)
            },
            (Stage::Open, Event::End) => Action::Close,
            (Stage::Writing, Event::WriteSucceeded) => Action::AwaitFrame,
            (Stage::Writing, Event::WriteFailed) => Action::Abort(GibsError::FrameWrite),
            (Stage::Closing, Event::CloseSucceeded) => Action::Deliver,
            (Stage::Closing, Event::CloseFailed) => Action::Fail(GibsError::EncoderClose),
            _ => Action::Ignore,
        }
    }

    /// Whether the encoder comes into the driver's hands with `event`.
    pub open spec fn acquires_on(self, event: Event) -> bool {
        self.stage == Stage::Opening && event == Event::OpenSucceeded
    }

    /// The state after all of `events`, in order.
    pub open spec fn run(self, events: Seq<Event>) -> Assembly
        decreases events.len(),
    {
        if events.len() == 0 {
            self
        } else {
            self.next(events[0]).run(events.drop_first())
        }
    }

    /// The actions that answer `events`, one for each.
    pub open spec fn actions(self, events: Seq<Event>) -> Seq<Action>
        decreases events.len(),
    {
        if events.len() == 0 {
            Seq::empty()
        } else {
            seq![self.action(events[0])] + self.next(events[0]).actions(events.drop_first())
        }
    }

    /// How often the encoder is acquired over `events`.
    pub open spec fn acquisitions(self, events: Seq<Event>) -> nat
        decreases events.len(),
    {
        if events.len() == 0 {
            0
        } else {
            let here: nat = if self.acquires_on(events[0]) {
                1
            } else {
                0
            };
            here + self.next(events[0]).acquisitions(events.drop_first())
        }
    }

    /// How often the encoder is given up over `events`.
    pub open spec fn releases(self, events: Seq<Event>) -> nat
        decreases events.len(),
    {
        if events.len() == 0 {
            0
        } else {
            let here: nat = if self.action(events[0]).gives_up_encoder() {
                1
            } else {
                0
            };
            here + self.next(events[0]).releases(events.drop_first())
        }
    }
}

/// A run in two parts: the state after the first part is where the second
/// part begins.
pub proof fn law_run_in_parts(a: Assembly, first: Seq<Event>, second: Seq<Event>)
    ensures
        a.run(first + second) == a.run(first).run(second),
        a.actions(first + second) == a.actions(first) + a.run(first).actions(second),
    decreases first.len(),
{
    if first.len() == 0 {
        assert(first + second =~= second);
        assert(a.actions(first) + a.actions(second) =~= a.actions(second));
    } else {
        assert((first + second).drop_first() =~= first.drop_first() + second);
        law_run_in_parts(a.next(first[0]), first.drop_first(), second);
        assert(a.actions(first + second) =~= a.actions(first) + a.run(first).actions(second));
    }
}

/// The one video that a finished assembly has made.
#[derive(Debug)]
pub struct VideoArtifact {
    /// The name of the file.
    pub name: String,
    pub width: i32,
    pub height: i32,
    /// The number of frames in it.
    pub frames: usize,
}

/// Assembles frames of one size into one video. It decides what is done
/// with the encoder and when; its driver does it and reports back.
#[derive(Debug)]
pub struct VideoAssembler {
    width: i32,
    height: i32,
    stage: Stage,
    frames: usize,
    name: String,
}

impl View for VideoAssembler {
    type V = Assembly;

    closed spec fn view(&self) -> Assembly {
        Assembly {
            width: self.width,
            height: self.height,
            stage: self.stage,
            frames: self.frames as nat,
        }
    }
}

impl VideoAssembler {
    /// An assembler is always in a state that an assembly can be in.
    #[verifier::type_invariant]
    spec fn inv(self) -> bool {
        self@.wf()
    }

    /// The name of the file that the encoder writes.
    pub closed spec fn name_text(&self) -> Seq<char> {
        self.name@
    }

    /// An assembler for frames of `width` by `height`, which writes to a
    /// file with a fresh random name.
    pub fn new(width: i32, height: i32) -> (assembler: Self)
        ensures
            assembler@ == Assembly::created(width, height),
            assembler.name_text().len() == 40,
            assembler.name_text().subrange(36, 40) == video_extension(),
    {
        VideoAssembler {
            width,
            height,
            stage: Stage::Created,
            frames: 0,
            name: fresh_artifact_name(),
        }
    }

    /// An assembler for frames of `width` by `height`, which writes to the
    /// file named by `token` and the video ending.
    pub fn named(width: i32, height: i32, token: &str) -> (assembler: Self)
        ensures
            assembler@ == Assembly::created(width, height),
            assembler.name_text() == token@ + video_extension(),
    {
        VideoAssembler {
            width,
            height,
            stage: Stage::Created,
            frames: 0,
            name: artifact_name(token),
        }
    }

    /// Takes `event`, moves on, and says what the driver is to do next.
    pub fn step(&mut self, event: Event) -> (action: Action)
        ensures
            final(self)@ == old(self)@.next(event),
            action == old(self)@.action(event),
            final(self).name_text() == old(self).name_text(),
    {
        proof {
            use_type_invariant(&*self);
        }
        match (self.stage, event) {
            (Stage::Created, Event::Start) => {
                self.stage = Stage::Opening;
                Action::Open { width: self.width, height: self.height }
            },
            (Stage::Opening, Event::OpenSucceeded) => {
                self.stage = Stage::Open;
                Action::AwaitFrame
            },
            (Stage::Opening, Event::OpenFailed) => {
                self.stage = Stage::Failed(GibsError::EncoderInit);
                Action::Fail(GibsError::EncoderInit)
            },
            (Stage::Open, Event::Frame { width, height }) => {
                if width == self.width && height == self.height && self.frames < usize::MAX {
                    self.stage = Stage::Writing;
                    Action::Write
                } else {
                    self.stage = Stage::Failed(GibsError::FrameWrite);
                    Action::Abort(GibsError::FrameWrite)
                }
            },
            (Stage::Open, Event::End) => {
                self.stage = Stage::Closing;
                Action::Close
            },
            (Stage::Writing, Event::WriteSucceeded) => {
                self.stage = Stage::Open;
                self.frames = self.frames + 1;
                Action::AwaitFrame
            },
            (Stage::Writing, Event::WriteFailed) => {
                self.stage = Stage::Failed(GibsError::FrameWrite);
                Action::Abort(GibsError::FrameWrite)
            },
            (Stage::Closing, Event::CloseSucceeded) => {
                self.stage = Stage::Finalized;
                Action::Deliver
            },
            (Stage::Closing, Event::CloseFailed) => {
                self.stage = Stage::Failed(GibsError::EncoderClose);
                Action::Fail(GibsError::EncoderClose)
            },
            _ => Action::Ignore,
        }
    }

    /// What the driver reports when it is asked for a frame: the frames go
    /// in order, so the next of `images` is the one after those already
    /// taken, and after the last comes the end.
    pub open spec fn next_of(self, images: Seq<Image>) -> Event {
        if self@.frames < images.len() {
            Event::Frame {
                width: images[self@.frames as int].width,
                height: images[self@.frames as int].height,
            }
        } else {
            Event::End
        }
    }

    /// The event that offers the next of `images`, or ends them.
    pub fn next_event(&self, images: &Vec<Image>) -> (event: Event)
        ensures
            event == self.next_of(images@),
    {
        if self.frames < images.len() {
            Event::offer(&images[self.frames])
        } else {
            Event::End
        }
    }

    /// Takes `events` one after another, and returns the actions that
    /// answer them, in the same order.
    pub fn replay(&mut self, events: &Vec<Event>) -> (actions: Vec<Action>)
        ensures
            final(self)@ == old(self)@.run(events@),
            actions@ == old(self)@.actions(events@),
            final(self).name_text() == old(self).name_text(),
    {
        let mut actions: Vec<Action> = Vec::new();
        let mut i: usize = 0;
        while i < events.len()
            invariant
                i <= events.len(),
                self@ == old(self)@.run(events@.take(i as int)),
                actions@ == old(self)@.actions(events@.take(i as int)),
                self.name_text() == old(self).name_text(),
            decreases events.len() - i,
        {
            let ghost before = self@;
            let action = self.step(events[i]);
            actions.push(action);
            proof {
                let done = events@.take(i as int);
                let one = seq![events@[i as int]];
                assert(events@.take(i + 1) =~= done + one);
                assert(one.drop_first() =~= Seq::<Event>::empty());
                assert(before.run(one) == before.next(one[0]).run(one.drop_first()));
                assert(before.actions(one) == seq![before.action(one[0])] + before.next(
                    one[0],
                ).actions(one.drop_first()));
                assert(before.actions(one) =~= seq![before.action(one[0])]);
                law_run_in_parts(old(self)@, done, one);
            }
            i += 1;
        }
        proof {
            assert(events@.take(events.len() as int) =~= events@);
        }
        actions
    }

    /// Where the assembly stands.
    pub fn stage(&self) -> (stage: Stage)
        ensures
            stage == self@.stage,
    {
        self.stage
    }

    /// The width that every frame must have.
    pub fn width(&self) -> (width: i32)
        ensures
            width == self@.width,
    {
        self.width
    }

    /// The height that every frame must have.
    pub fn height(&self) -> (height: i32)
        ensures
            height == self@.height,
    {
        self.height
    }

    /// The number of frames that the encoder has taken so far.
    pub fn frames_written(&self) -> (frames: usize)
        ensures
            frames == self@.frames,
    {
        self.frames
    }

    /// The name of the file that the encoder writes.
    pub fn file_name(&self) -> (name: &str)
        ensures
            name@ == self.name_text(),
    {
        self.name.as_str()
    }

    /// The failure, once the assembly has failed.
    pub fn failure(&self) -> (r: Option<GibsError>)
        ensures
            r == (match self@.stage {
                Stage::Failed(e) => Some(e),
                _ => None,
            }),
    {
        match self.stage {
            Stage::Failed(e) => Some(e),
            _ => None,
        }
    }

    /// The video, once the assembly is finalized, and not before.
    pub fn artifact(&self) -> (r: Option<VideoArtifact>)
        ensures
            r is Some <==> self@.stage == Stage::Finalized,
            r is Some ==> {
                &&& r.unwrap().name@ == self.name_text()
                &&& r.unwrap().width == self@.width
                &&& r.unwrap().height == self@.height
                &&& r.unwrap().frames == self@.frames
            },
    {
        match self.stage {
            Stage::Finalized => Some(
                VideoArtifact {
                    name: self.name.clone(),
                    width: self.width,
                    height: self.height,
                    frames: self.frames,
                },
            ),
            _ => None,
        }
    }
}

} // verus!
