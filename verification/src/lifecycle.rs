use vstd::prelude::*;

use crate::config::SurfaceConfig;
use crate::config::clamp_dimension_spec;
use crate::config::config_spec;
use crate::telemetry::Report;
use crate::telemetry::Telemetry;
use crate::telemetry::TelemetryModel;

verus! {

/// Why one-time initialization cannot proceed. Both are fatal: the host
/// shell aborts the process with the diagnostic, there is no retry.
#[derive(Clone, Copy, Debug, PartialEq, Eq, Structural)]
pub enum FatalError {
    /// No adapter compatible with the surface was found.
    NoAdapter,
    /// An adapter was found, but the logical device request failed.
    DeviceCreationFailed,
}

impl FatalError {
    /// The diagnostic the host prints before aborting.
    pub fn describe(&self) -> (s: &'static str)
        ensures
            *self is NoAdapter ==> s@ == "Failed to find adapter"@,
            *self is DeviceCreationFailed ==> s@ == "Failed to create device"@,
    {
        match self {
            FatalError::NoAdapter => "Failed to find adapter",
            FatalError::DeviceCreationFailed => "Failed to create device",
        }
    }
}

/// What the host's one-time GPU acquisition attempt came back with. The host
/// creates the window and the surface, then asks the graphics API for an
/// adapter and a logical device; this value reports how far it got.
pub enum GpuAcquisition {
    /// The adapter request returned no match.
    NoAdapter,
    /// The device request failed on the adapter that was found.
    DeviceFailed,
    /// Adapter, device and queue are live. The window reports this pixel
    /// size, and the surface reports these supported texture formats as
    /// opaque identifiers, in the graphics API's preference order (the
    /// list is never empty for a compatible adapter).
    Ready { width: u32, height: u32, formats: Vec<u32> },
}

/// Whether GPU resources exist. `Initialized` stands for the whole resource
/// set atomically — context, surface, pipeline and this configuration are
/// created together, exactly once — so no partially-initialized state is
/// ever observable.
#[derive(Clone, Copy, Debug, PartialEq, Eq, Structural)]
pub enum LifecycleState {
    Uninitialized,
    Initialized { config: SurfaceConfig },
}

/// What one redraw signal amounted to.
#[derive(Clone, Copy, Debug, PartialEq, Eq)]
pub enum FrameOutcome {
    /// Resources do not exist yet; nothing was rendered.
    NotInitialized,
    /// Image acquisition failed; the frame was skipped silently and the
    /// counter did not advance.
    Skipped,
    /// One frame was submitted and presented; the counter advanced, and a
    /// throughput report may have been owed.
    Presented { report: Option<Report> },
}

/// Mathematical state of the controller.
pub ghost struct ControllerModel {
    pub state: LifecycleState,
    pub telemetry: TelemetryModel,
}

impl ControllerModel {
    pub open spec fn is_initialized(self) -> bool {
        self.state is Initialized
    }

    /// The configuration the surface currently holds.
    pub open spec fn config(self) -> SurfaceConfig
        recommends
            self.is_initialized(),
    {
        self.state->config
    }

    pub open spec fn frame_count(self) -> u64 {
        self.telemetry.frame_count
    }

    pub open spec fn wf(self) -> bool {
        &&& self.telemetry.wf()
        &&& (self.state matches LifecycleState::Initialized { config } ==> config.wf())
    }
}

/// An event the host loop delivers, reduced to the plain values the
/// decisions depend on. For a redraw, `acquired` reports whether the host
/// obtained a presentable image, and `now_ms` is its monotonic clock.
pub enum HostEvent {
    Activated(GpuAcquisition),
    Resized(u32, u32),
    RedrawRequested { acquired: bool, now_ms: u64 },
    CloseRequested,
}

/// Model state after an activation signal: a no-op when already
/// initialized (or when acquisition failed — the host aborts), otherwise
/// the one-time transition into the initialized state, with the surface
/// configured from the window's size and the first reported format.
pub open spec fn activation_transition(m: ControllerModel, acq: GpuAcquisition) -> ControllerModel {
    if m.is_initialized() {
        m
    } else {
        match acq {
            GpuAcquisition::Ready { width, height, formats } => ControllerModel {
                state: LifecycleState::Initialized {
                    config: config_spec(width, height, formats@[0]),
                },
                telemetry: m.telemetry,
            },
            _ => m,
        }
    }
}

/// Model state after a resize signal: ignored while uninitialized,
/// otherwise the existing configuration is reshaped in place with each
/// dimension clamped to at least 1.
pub open spec fn resize_transition(m: ControllerModel, width: u32, height: u32) -> ControllerModel {
    if m.is_initialized() {
        ControllerModel {
            state: LifecycleState::Initialized {
                config: SurfaceConfig {
                    width: clamp_dimension_spec(width),
                    height: clamp_dimension_spec(height),
                    ..m.config()
                },
            },
            telemetry: m.telemetry,
        }
    } else {
        m
    }
}

/// Model state after a redraw signal: ignored while uninitialized; a
/// skipped frame changes nothing; a presented frame advances the counter
/// and then runs one telemetry check at the given clock reading.
pub open spec fn redraw_transition(m: ControllerModel, acquired: bool, now_ms: u64) -> ControllerModel {
    if m.is_initialized() && acquired {
        ControllerModel {
            state: m.state,
            telemetry: TelemetryModel {
                frame_count: (m.telemetry.frame_count + 1) as u64,
                ..m.telemetry
            }.tick_transition(now_ms),
        }
    } else {
        m
    }
}

/// Model state after any host event. A close request tears nothing down:
/// the process exit reclaims the resources.
pub open spec fn event_transition(m: ControllerModel, e: HostEvent) -> ControllerModel {
    match e {
        HostEvent::Activated(acq) => activation_transition(m, acq),
        HostEvent::Resized(width, height) => resize_transition(m, width, height),
        HostEvent::RedrawRequested { acquired, now_ms } => redraw_transition(m, acquired, now_ms),
        HostEvent::CloseRequested => m,
    }
}

/// Law: the model invariants hold in every reachable state — whatever event
/// the host delivers, the surface configuration never gains a zero extent
/// and the telemetry marks stay ordered.
pub proof fn lemma_invariants_preserved(m: ControllerModel, e: HostEvent)
    requires
        m.wf(),
    ensures
        event_transition(m, e).wf(),
{
}

/// Law: activation is idempotent. Once a controller is initialized — in
/// particular, right after a first activation that succeeded — any further
/// activation signal changes nothing, so the resource set is created
/// exactly once.
pub proof fn lemma_activation_idempotent(m: ControllerModel, acq1: GpuAcquisition, acq2: GpuAcquisition)
    requires
        activation_transition(m, acq1).is_initialized(),
    ensures
        activation_transition(activation_transition(m, acq1), acq2) == activation_transition(m, acq1),
{
}

/// Law: the frame counter never decreases, whatever event the host
/// delivers.
pub proof fn lemma_frame_count_monotone(m: ControllerModel, e: HostEvent)
    requires
        m.telemetry.frame_count < u64::MAX,
    ensures
        event_transition(m, e).frame_count() >= m.frame_count(),
{
}

/// Law: after an activation that found the GPU, the surface configuration
/// matches the window's reported pixel size whenever both dimensions are
/// non-zero.
pub proof fn lemma_config_matches_window_size(m: ControllerModel, width: u32, height: u32, formats: Vec<u32>)
    requires
        !m.is_initialized(),
        width >= 1,
        height >= 1,
    ensures
        ({
            let m1 = activation_transition(m, GpuAcquisition::Ready { width, height, formats });
            &&& m1.is_initialized()
            &&& m1.config().width == width
            &&& m1.config().height == height
        }),
{
}

/// Law: a resize with a zero dimension never configures a zero-sized
/// surface — the zero dimension is clamped to 1 and the other is kept.
pub proof fn lemma_resize_clamps_to_one(m: ControllerModel, width: u32, height: u32)
    requires
        m.is_initialized(),
    ensures
        resize_transition(m, width, height).config().width == (if width == 0 { 1u32 } else { width }),
        resize_transition(m, width, height).config().height == (if height == 0 { 1u32 } else { height }),
{
}

/// The top-level state holder: the tag saying whether GPU resources exist
/// (with the surface's configuration when they do) and the telemetry state.
/// The host shell owns the real window and GPU handles and delivers events;
/// every decision about them is made here.
pub struct LifecycleController {
    state: LifecycleState,
    telemetry: Telemetry,
}

impl View for LifecycleController {
    type V = ControllerModel;

    closed spec fn view(&self) -> ControllerModel {
        ControllerModel { state: self.state, telemetry: self.telemetry@ }
    }
}

impl LifecycleController {
    /// A fresh, uninitialized controller at clock reading `now_ms`.
    pub fn new(now_ms: u64) -> (c: Self)
        ensures
            c@ == (ControllerModel {
                state: LifecycleState::Uninitialized,
                telemetry: TelemetryModel { start_ms: now_ms, frame_count: 0, last_report_ms: now_ms },
            }),
            c@.wf(),
    {
        LifecycleController { state: LifecycleState::Uninitialized, telemetry: Telemetry::new(now_ms) }
    }

    /// Whether the one-time initialization has happened. The host checks
    /// this before creating a window or touching the graphics API, exactly
    /// as it checks before any per-frame work.
    pub fn is_initialized(&self) -> (r: bool)
        ensures
            r == self@.is_initialized(),
    {
        match self.state {
            LifecycleState::Initialized { .. } => true,
            LifecycleState::Uninitialized => false,
        }
    }

    /// The surface configuration currently in force, if initialized.
    pub fn current_config(&self) -> (r: Option<SurfaceConfig>)
        ensures
            self@.is_initialized() ==> r == Some(self@.config()),
            !self@.is_initialized() ==> r is None,
    {
        match self.state {
            LifecycleState::Initialized { config } => Some(config),
            LifecycleState::Uninitialized => None,
        }
    }

    /// Cumulative number of successfully presented frames.
    pub fn frame_count(&self) -> (n: u64)
        ensures
            n == self@.frame_count(),
    {
        self.telemetry.frame_count()
    }

    /// Handle an activation signal. While already initialized this is a
    /// no-op (`Ok(None)`): activation can fire repeatedly, and the guard
    /// prevents any duplicate resource allocation. On the first activation,
    /// a failed acquisition is fatal and leaves the state untouched; a
    /// successful one initializes, and hands the host the configuration to
    /// apply to the surface (size clamped to at least 1 in each dimension,
    /// the first reported format, vsync-aligned presentation, fixed frame
    /// latency).
    pub fn on_activated(&mut self, acq: GpuAcquisition) -> (r: Result<Option<SurfaceConfig>, FatalError>)
        requires
            old(self)@.wf(),
            !old(self)@.is_initialized() ==> (acq matches GpuAcquisition::Ready { formats, .. }
                ==> formats@.len() >= 1),
        ensures
            final(self)@ == activation_transition(old(self)@, acq),
            final(self)@.wf(),
            old(self)@.is_initialized() ==> r == Ok::<Option<SurfaceConfig>, FatalError>(None),
            !old(self)@.is_initialized() ==> match acq {
                GpuAcquisition::NoAdapter => r == Err::<Option<SurfaceConfig>, FatalError>(FatalError::NoAdapter),
                GpuAcquisition::DeviceFailed => r == Err::<Option<SurfaceConfig>, FatalError>(
                    FatalError::DeviceCreationFailed,
                ),
                GpuAcquisition::Ready { width, height, formats } => {
                    &&& r == Ok::<Option<SurfaceConfig>, FatalError>(
                        Some(config_spec(width, height, formats@[0])),
                    )
                    &&& final(self)@.is_initialized()
                    &&& final(self)@.config() == config_spec(width, height, formats@[0])
                },
            },
            final(self)@.telemetry == old(self)@.telemetry,
    {
        match self.state {
            LifecycleState::Initialized { .. } => Ok(None),
            LifecycleState::Uninitialized => match acq {
                GpuAcquisition::NoAdapter => Err(FatalError::NoAdapter),
                GpuAcquisition::DeviceFailed => Err(FatalError::DeviceCreationFailed),
                GpuAcquisition::Ready { width, height, formats } => {
                    let config = SurfaceConfig::new(width, height, formats[0]);
                    self.state = LifecycleState::Initialized { config };
                    Ok(Some(config))
                },
            },
        }
    }

    /// Handle a resize signal. Ignored while uninitialized. Otherwise the
    /// existing configuration is reshaped in place — each dimension clamped
    /// to at least 1, format and policy kept — and returned so the host can
    /// reconfigure the existing surface against the existing device.
    pub fn on_resize(&mut self, width: u32, height: u32) -> (r: Option<SurfaceConfig>)
        requires
            old(self)@.wf(),
        ensures
            final(self)@ == resize_transition(old(self)@, width, height),
            final(self)@.wf(),
            old(self)@.is_initialized() ==> r == Some(final(self)@.config()),
            !old(self)@.is_initialized() ==> r is None,
    {
        match &mut self.state {
            LifecycleState::Initialized { config } => {
                config.resize(width, height);
                Some(*config)
            },
            LifecycleState::Uninitialized => None,
        }
    }

    /// Handle a redraw signal, after the host attempted to acquire a
    /// presentable image (`acquired` says whether it got one; `now_ms` is
    /// its monotonic clock). Ignored while uninitialized. A failed
    /// acquisition skips the frame silently: no error, no counter change,
    /// no report. A presented frame advances the counter by exactly 1 and
    /// then runs one telemetry check: the report is emitted exactly when a
    /// full interval has passed since the last one.
    pub fn on_redraw_requested(&mut self, acquired: bool, now_ms: u64) -> (r: FrameOutcome)
        requires
            old(self)@.wf(),
            old(self)@.frame_count() < u64::MAX,
        ensures
            final(self)@ == redraw_transition(old(self)@, acquired, now_ms),
            final(self)@.wf(),
            !old(self)@.is_initialized() ==> r == FrameOutcome::NotInitialized,
            old(self)@.is_initialized() && !acquired ==> r == FrameOutcome::Skipped,
            old(self)@.is_initialized() && acquired ==> ({
                let counted = TelemetryModel {
                    frame_count: (old(self)@.telemetry.frame_count + 1) as u64,
                    ..old(self)@.telemetry
                };
                &&& final(self)@.frame_count() == old(self)@.frame_count() + 1
                &&& r matches FrameOutcome::Presented { report }
                &&& (report is Some <==> counted.report_due(now_ms))
                &&& (counted.report_due(now_ms) ==> report == Some(counted.report_at(now_ms)))
            }),
            old(self)@.is_initialized() && !acquired ==> final(self)@ == old(self)@,
    {
        match self.state {
            LifecycleState::Uninitialized => FrameOutcome::NotInitialized,
            LifecycleState::Initialized { .. } => {
                if acquired {
                    self.telemetry.record_frame();
                    let report = self.telemetry.maybe_report(now_ms);
                    FrameOutcome::Presented { report }
                } else {
                    FrameOutcome::Skipped
                }
            },
        }
    }
}

} // verus!
