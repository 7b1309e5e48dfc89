//! The frame driver: what the renderer decides during one tick.
//!
//! The host owns the event loop, and the UI toolkit and the GPU do their work
//! outside this crate. So a tick is driven in steps: the caller reports what
//! happened, and the renderer answers with its next state and with what is to
//! be done next. Between ticks the renderer is idle; a tick runs from the
//! host's call to the hand-over of the output descriptor, and no second tick
//! can begin before that.

use crate::input::{event_views, translate_events, translated, InputEvent, UiEvent, UiEventView};
use crate::output::{degraded_output, encoded, CursorIcon, OutputState, OutputStateView, PlatformOutput};
use crate::safe_area::{margin_of, Margin, SafeAreaInsets};
use crate::scalar::Timestamp;
use crate::surface::{presentable, resized, PixelFormat, SurfaceConfig};
use vstd::prelude::*;

verus! {

/// The name of a texture that the UI toolkit manages or a user registered.
#[derive(Clone, Copy, PartialEq, Eq, Debug, Structural)]
pub enum TextureId {
    Managed(u64),
    User(u64),
}

/// The textures that a frame changes.
#[derive(Debug, PartialEq, Eq)]
pub struct TexturesDelta {
    /// Textures to upload or update before the frame is drawn.
    pub set: Vec<TextureId>,
    /// Textures to free once the frame has been presented.
    pub free: Vec<TextureId>,
}

/// What the caller reports to the renderer.
#[derive(Debug, PartialEq, Eq)]
pub enum FrameEvent {
    /// The host asks for a frame at `time`, with the input since the last one.
    Tick { time: Timestamp, events: Vec<InputEvent> },
    /// The UI toolkit has run the frame.
    UiDone { output: PlatformOutput, textures: TexturesDelta },
    /// The surface handed out a texture to draw on.
    FrameAcquired,
    /// The surface could not hand out a texture.
    SurfaceUnavailable,
    /// The frame was submitted and presented.
    Presented,
}

/// What the UI toolkit is to run a frame with.
#[derive(Debug, PartialEq, Eq)]
pub struct UiRequest {
    pub time: Timestamp,
    /// Width of the screen in device pixels.
    pub width: u32,
    /// Height of the screen in device pixels.
    pub height: u32,
    /// The frame's events, in arrival order.
    pub events: Vec<UiEvent>,
    /// The inward margin that keeps the content inside the safe area.
    pub margin: Margin,
}

/// What the caller is to do next.
#[derive(Debug, PartialEq, Eq)]
pub enum FrameAction {
    /// Run the UI toolkit's frame and report `UiDone`.
    RunUi(UiRequest),
    /// Tessellate the shapes and ask the surface for a texture; report
    /// `FrameAcquired` or `SurfaceUnavailable`.
    AcquireFrame,
    /// Upload these textures, submit the frame's commands in one pass, and
    /// present; report `Presented`.
    Draw { upload: Vec<TextureId> },
    /// Free these textures and hand the descriptor to the host. The tick is
    /// over.
    Finish { free: Vec<TextureId>, output: OutputState },
}

/// Why the renderer refused an event.
#[derive(Clone, Copy, PartialEq, Eq, Debug, Structural)]
pub enum FrameError {
    /// A tick was asked for while another is in flight.
    TickInFlight,
    /// The event is not the one that the current step waits for.
    UnexpectedEvent,
}

/// Where the renderer stands.
#[derive(Clone, Copy, PartialEq, Eq, Debug, Structural)]
pub enum Phase {
    /// Between ticks.
    Idle,
    /// In a tick, waiting for the UI toolkit.
    AwaitingUi,
    /// In a tick, waiting for the surface's texture.
    AwaitingSurface,
    /// In a tick, waiting for the frame to be presented.
    AwaitingPresent,
}

enum Stage {
    Idle,
    AwaitingUi,
    AwaitingSurface { output: OutputState, upload: Vec<TextureId>, free: Vec<TextureId> },
    AwaitingPresent { output: OutputState, free: Vec<TextureId> },
}

/// The renderer's state between and inside ticks.
pub struct NotedeckRenderer {
    config: SurfaceConfig,
    safe_area: SafeAreaInsets,
    stage: Stage,
}

/// What a [`UiRequest`] says.
pub struct UiRequestView {
    pub time: Timestamp,
    pub width: u32,
    pub height: u32,
    pub events: Seq<UiEventView>,
    pub margin: Margin,
}

/// What a [`FrameAction`] says.
pub enum FrameActionView {
    RunUi(UiRequestView),
    AcquireFrame,
    Draw { upload: Seq<TextureId> },
    Finish { free: Seq<TextureId>, output: OutputStateView },
}

/// The step of a tick, with what the renderer keeps for the steps to come.
pub enum StageView {
    Idle,
    AwaitingUi,
    AwaitingSurface { output: OutputStateView, upload: Seq<TextureId>, free: Seq<TextureId> },
    AwaitingPresent { output: OutputStateView, free: Seq<TextureId> },
}

/// What a [`NotedeckRenderer`] holds.
pub struct RendererView {
    pub config: SurfaceConfig,
    pub safe_area: SafeAreaInsets,
    pub stage: StageView,
}

impl View for UiRequest {
    type V = UiRequestView;

    open spec fn view(&self) -> UiRequestView {
        UiRequestView {
            time: self.time,
            width: self.width,
            height: self.height,
            events: event_views(self.events@),
            margin: self.margin,
        }
    }
}

impl View for FrameAction {
    type V = FrameActionView;

    open spec fn view(&self) -> FrameActionView {
        match *self {
            FrameAction::RunUi(request) => FrameActionView::RunUi(request@),
            FrameAction::AcquireFrame => FrameActionView::AcquireFrame,
            FrameAction::Draw { upload } => FrameActionView::Draw { upload: upload@ },
            FrameAction::Finish { free, output } => FrameActionView::Finish {
                free: free@,
                output: output@,
            },
        }
    }
}

impl View for Stage {
    type V = StageView;

    closed spec fn view(&self) -> StageView {
        match *self {
            Stage::Idle => StageView::Idle,
            Stage::AwaitingUi => StageView::AwaitingUi,
            Stage::AwaitingSurface { output, upload, free } => StageView::AwaitingSurface {
                output: output@,
                upload: upload@,
                free: free@,
            },
            Stage::AwaitingPresent { output, free } => StageView::AwaitingPresent {
                output: output@,
                free: free@,
            },
        }
    }
}

impl View for NotedeckRenderer {
    type V = RendererView;

    closed spec fn view(&self) -> RendererView {
        RendererView { config: self.config, safe_area: self.safe_area, stage: self.stage@ }
    }
}

/// The phase that a stage belongs to.
pub open spec fn phase_of(stage: StageView) -> Phase {
    match stage {
        StageView::Idle => Phase::Idle,
        StageView::AwaitingUi => Phase::AwaitingUi,
        StageView::AwaitingSurface { .. } => Phase::AwaitingSurface,
        StageView::AwaitingPresent { .. } => Phase::AwaitingPresent,
    }
}

/// The transitions of a tick: for the stage that the renderer is in and the
/// event that is reported, the stage that follows and what is to be done
/// next; `None` where the stage does not wait for that event.
pub open spec fn transition(state: RendererView, event: FrameEvent) -> Option<
    (StageView, FrameActionView),
> {
    match (state.stage, event) {
        (StageView::Idle, FrameEvent::Tick { time, events }) => Some(
            (
                StageView::AwaitingUi,
                FrameActionView::RunUi(
                    UiRequestView {
                        time,
                        width: state.config.width,
                        height: state.config.height,
                        events: translated(events@),
                        margin: margin_of(state.safe_area),
                    },
                ),
            ),
        ),
        (StageView::AwaitingUi, FrameEvent::UiDone { output, textures }) => Some(
            (
                StageView::AwaitingSurface {
                    output: encoded(output),
                    upload: textures.set@,
                    free: textures.free@,
                },
                FrameActionView::AcquireFrame,
            ),
        ),
        (StageView::AwaitingSurface { output, upload, free }, FrameEvent::FrameAcquired) => Some(
            (StageView::AwaitingPresent { output, free }, FrameActionView::Draw { upload }),
        ),
        (StageView::AwaitingSurface { .. }, FrameEvent::SurfaceUnavailable) => Some(
            (
                StageView::Idle,
                FrameActionView::Finish { free: Seq::empty(), output: degraded_output() },
            ),
        ),
        (StageView::AwaitingPresent { output, free }, FrameEvent::Presented) => Some(
            (StageView::Idle, FrameActionView::Finish { free, output }),
        ),
        _ => None,
    }
}

/// Why an event is refused where the stage does not wait for it.
pub open spec fn refusal(event: FrameEvent) -> FrameError {
    if event is Tick {
        FrameError::TickInFlight
    } else {
        FrameError::UnexpectedEvent
    }
}

/// The renderer after an event: one step further where the event is the one
/// it waits for, unchanged otherwise.
pub open spec fn next_state(state: RendererView, event: FrameEvent) -> RendererView {
    match transition(state, event) {
        Some((stage, _)) => RendererView {
            config: state.config,
            safe_area: state.safe_area,
            stage,
        },
        None => state,
    }
}

/// The renderer's answer to an event: what is to be done next, or why the
/// event was refused.
pub open spec fn next_action(state: RendererView, event: FrameEvent) -> Result<
    FrameActionView,
    FrameError,
> {
    match transition(state, event) {
        Some((_, action)) => Ok(action),
        None => Err(refusal(event)),
    }
}

/// The view of the renderer's answer.
pub open spec fn answer_view(answer: Result<FrameAction, FrameError>) -> Result<
    FrameActionView,
    FrameError,
> {
    match answer {
        Ok(action) => Ok(action@),
        Err(e) => Err(e),
    }
}

impl NotedeckRenderer {
    /// A renderer for a surface of the given size in device pixels: idle,
    /// with no safe-area inset.
    pub fn new(width: u32, height: u32) -> (renderer: NotedeckRenderer)
        ensures
            renderer@ == (RendererView {
                config: SurfaceConfig { width, height, format: PixelFormat::Bgra8UnormSrgb },
                safe_area: SafeAreaInsets::zero(),
                stage: StageView::Idle,
            }),
    {
        NotedeckRenderer {
            config: SurfaceConfig::new(width, height),
            safe_area: SafeAreaInsets::new(0, 0, 0, 0),
            stage: Stage::Idle,
        }
    }

    /// Replaces the safe-area insets, in whole logical points. The last
    /// value set is the one that the next tick applies.
    pub fn set_safe_area(&mut self, top: i32, right: i32, bottom: i32, left: i32)
        ensures
            final(self)@ == (RendererView {
                config: old(self)@.config,
                safe_area: SafeAreaInsets { top, right, bottom, left },
                stage: old(self)@.stage,
            }),
    {
        self.safe_area = SafeAreaInsets::new(top, right, bottom, left);
    }

    /// Takes a resize request, in device pixels. A request with a zero
    /// dimension changes nothing. Returns whether the surface has to be
    /// configured anew before the next frame.
    pub fn resize(&mut self, width: u32, height: u32) -> (reconfigure: bool)
        ensures
            final(self)@ == (RendererView {
                config: resized(old(self)@.config, width, height),
                safe_area: old(self)@.safe_area,
                stage: old(self)@.stage,
            }),
            reconfigure == presentable(width, height),
    {
        self.config.resize(width, height)
    }

    /// The current surface configuration.
    pub fn config(&self) -> (config: SurfaceConfig)
        ensures
            config == self@.config,
    {
        self.config
    }

    /// The current safe-area insets.
    pub fn safe_area(&self) -> (insets: SafeAreaInsets)
        ensures
            insets == self@.safe_area,
    {
        self.safe_area
    }

    /// Where the renderer stands.
    pub fn phase(&self) -> (phase: Phase)
        ensures
            phase == phase_of(self@.stage),
    {
        match &self.stage {
            Stage::Idle => Phase::Idle,
            Stage::AwaitingUi => Phase::AwaitingUi,
            Stage::AwaitingSurface { .. } => Phase::AwaitingSurface,
            Stage::AwaitingPresent { .. } => Phase::AwaitingPresent,
        }
    }

    /// Advances the tick by one event.
    ///
    /// A tick runs through these steps: the host's `Tick` is answered with
    /// the request for the UI toolkit, holding the translated input in
    /// arrival order and the safe-area margin; `UiDone` with the request for
    /// a texture; `FrameAcquired` with the textures to upload before the
    /// frame is drawn and presented; `Presented` with the textures to free
    /// and the encoded output. Where the surface has no texture, the frame is
    /// dropped: the answer is the degraded output, nothing is freed, and the
    /// renderer is idle again. An event that the current step does not wait
    /// for is refused, and the renderer stays as it is.
    pub fn render(&mut self, event: FrameEvent) -> (answer: Result<FrameAction, FrameError>)
        ensures
            final(self)@ == next_state(old(self)@, event),
            answer_view(answer) == next_action(old(self)@, event),
    {
        let mut stage = Stage::Idle;
        core::mem::swap(&mut self.stage, &mut stage);
        match event {
            FrameEvent::Tick { time, events } => match stage {
                Stage::Idle => {
                    self.stage = Stage::AwaitingUi;
                    let request = UiRequest {
                        time,
                        width: self.config.width,
                        height: self.config.height,
                        events: translate_events(events),
                        margin: self.safe_area.to_margin(),
                    };
                    Ok(FrameAction::RunUi(request))
                },
                other => {
                    self.stage = other;
                    Err(FrameError::TickInFlight)
                },
            },
            FrameEvent::UiDone { output, textures } => match stage {
                Stage::AwaitingUi => {
                    let TexturesDelta { set, free } = textures;
                    self.stage = Stage::AwaitingSurface {
                        output: OutputState::from_platform_output(output),
                        upload: set,
                        free,
                    };
                    Ok(FrameAction::AcquireFrame)
                },
                other => {
                    self.stage = other;
                    Err(FrameError::UnexpectedEvent)
                },
            },
            FrameEvent::FrameAcquired => match stage {
                Stage::AwaitingSurface { output, upload, free } => {
                    self.stage = Stage::AwaitingPresent { output, free };
                    Ok(FrameAction::Draw { upload })
                },
                other => {
                    self.stage = other;
                    Err(FrameError::UnexpectedEvent)
                },
            },
            FrameEvent::SurfaceUnavailable => match stage {
                Stage::AwaitingSurface { .. } => {
                    Ok(
                        FrameAction::Finish {
                            free: Vec::new(),
                            output: OutputState::new(CursorIcon::Default),
                        },
                    )
                },
                other => {
                    self.stage = other;
                    Err(FrameError::UnexpectedEvent)
                },
            },
            FrameEvent::Presented => match stage {
                Stage::AwaitingPresent { output, free } => Ok(FrameAction::Finish { free, output }),
                other => {
                    self.stage = other;
                    Err(FrameError::UnexpectedEvent)
                },
            },
        }
    }
}

/// The views of the four answers of a tick that is drawn, and of the
/// renderer after it.
pub open spec fn drawn_tick(
    state: RendererView,
    time: Timestamp,
    events: Vec<InputEvent>,
    output: PlatformOutput,
    textures: TexturesDelta,
) -> (RendererView, Seq<Result<FrameActionView, FrameError>>) {
    let tick = FrameEvent::Tick { time, events };
    let ui_done = FrameEvent::UiDone { output, textures };
    let s1 = next_state(state, tick);
    let s2 = next_state(s1, ui_done);
    let s3 = next_state(s2, FrameEvent::FrameAcquired);
    let s4 = next_state(s3, FrameEvent::Presented);
    (
        s4,
        seq![
            next_action(state, tick),
            next_action(s1, ui_done),
            next_action(s2, FrameEvent::FrameAcquired),
            next_action(s3, FrameEvent::Presented),
        ],
    )
}

/// A tick that is drawn, from an idle renderer: the toolkit gets the
/// translated input in arrival order and the clamped margin; the textures
/// that the frame set are uploaded before the draw, and those that it freed
/// are freed only after the present; the output handed to the host encodes
/// the toolkit's platform output; and the renderer is idle again, its
/// configuration and insets as before.
pub proof fn lemma_drawn_tick(
    state: RendererView,
    time: Timestamp,
    events: Vec<InputEvent>,
    output: PlatformOutput,
    textures: TexturesDelta,
)
    requires
        state.stage is Idle,
    ensures
        drawn_tick(state, time, events, output, textures).0 == state,
        drawn_tick(state, time, events, output, textures).1 == seq![
            Ok::<FrameActionView, FrameError>(
                FrameActionView::RunUi(
                    UiRequestView {
                        time,
                        width: state.config.width,
                        height: state.config.height,
                        events: translated(events@),
                        margin: margin_of(state.safe_area),
                    },
                ),
            ),
            Ok(FrameActionView::AcquireFrame),
            Ok(FrameActionView::Draw { upload: textures.set@ }),
            Ok(FrameActionView::Finish { free: textures.free@, output: encoded(output) }),
        ],
{
}

/// The text that the host gets as copied is the text in the toolkit's
/// platform output, whatever input the tick came with: pasted text reaches
/// the toolkit as an event and never the output.
pub proof fn lemma_copied_text_is_the_applications(
    state: RendererView,
    time: Timestamp,
    events: Vec<InputEvent>,
    output: PlatformOutput,
    textures: TexturesDelta,
)
    requires
        state.stage is Idle,
    ensures
        drawn_tick(state, time, events, output, textures).1[3] matches Ok(
            FrameActionView::Finish { output: handed, .. },
        ) && handed.copied_text == output.copied_text@,
{
    lemma_drawn_tick(state, time, events, output, textures);
}

/// A tick whose frame is dropped, from an idle renderer: the host gets the
/// degraded output, nothing is uploaded or freed, and the renderer is idle
/// again, its configuration and insets as before.
pub proof fn lemma_dropped_tick(
    state: RendererView,
    time: Timestamp,
    events: Vec<InputEvent>,
    output: PlatformOutput,
    textures: TexturesDelta,
)
    requires
        state.stage is Idle,
    ensures
        ({
            let s1 = next_state(state, FrameEvent::Tick { time, events });
            let s2 = next_state(s1, FrameEvent::UiDone { output, textures });
            &&& next_action(s2, FrameEvent::SurfaceUnavailable) == Ok::<
                FrameActionView,
                FrameError,
            >(FrameActionView::Finish { free: Seq::empty(), output: degraded_output() })
            &&& next_state(s2, FrameEvent::SurfaceUnavailable) == state
        }),
{
}

/// A tick ends exactly when the output is handed over: the answer is
/// `Finish` if and only if the event was accepted and leaves the renderer
/// idle. That is after the present, or when a frame is dropped.
pub proof fn lemma_tick_ends_with_finish(state: RendererView, event: FrameEvent)
    ensures
        (next_action(state, event) matches Ok(FrameActionView::Finish { .. })) <==> (transition(
            state,
            event,
        ) is Some && next_state(state, event).stage is Idle),
        (next_action(state, event) matches Ok(FrameActionView::Finish { .. })) ==> (event
            is Presented || event is SurfaceUnavailable),
{
}

/// No event changes the surface configuration or the safe-area insets, and
/// an event that is refused changes nothing at all.
pub proof fn lemma_events_keep_configuration(state: RendererView, event: FrameEvent)
    ensures
        next_state(state, event).config == state.config,
        next_state(state, event).safe_area == state.safe_area,
        next_action(state, event) is Err <==> transition(state, event) is None,
        next_action(state, event) is Err ==> next_state(state, event) == state,
{
}

/// No tick begins while another is in flight: outside the idle state a
/// `Tick` is refused and changes nothing.
pub proof fn lemma_tick_in_flight_is_refused(
    state: RendererView,
    time: Timestamp,
    events: Vec<InputEvent>,
)
    requires
        !(state.stage is Idle),
    ensures
        next_state(state, FrameEvent::Tick { time, events }) == state,
        next_action(state, FrameEvent::Tick { time, events }) == Err::<FrameActionView, FrameError>(
            FrameError::TickInFlight,
        ),
{
}

} // verus!
