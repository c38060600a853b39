//! Prefetch subsystem: the decision core of the background frame-population
//! workers and their manager.
//!
//! The manager owns the command and result channels and decides, on `start`
//! and `stop`, which commands to broadcast and what the caller must do with
//! the worker threads (join the previous generation, spawn a new one). The
//! thread spawning, joining and sleeping themselves are outside work and are
//! performed by the embedding runtime, which reports back by executing the
//! returned plan. A worker's per-cycle decisions — target selection, bounds
//! clamping, cache probing tolerance, cache population and throttling — are
//! verified functions here.

use vstd::prelude::*;

use crate::cache::Cache;
use crate::cache::spec_insert_l2;
use crate::cache::spec_insert_l3;
use crate::config::DecoderConfig;
use crate::frame::VideoFrame;

verus! {

/// Maximum frames decoded per prefetch activation: one `Start` command never
/// monopolizes a worker indefinitely.
pub const MAX_PREFETCH_FRAMES: u32 = 30;

/// Fallback frame duration (about 30 fps) when the stream rate is unknown.
pub const FALLBACK_FRAME_DURATION_US: i64 = 33333;

/// Command sent from the manager to the workers. The scrub velocity is
/// carried in hundredths (a velocity of 1.5x is 150).
#[derive(Debug, Clone, Copy, PartialEq, Eq, Structural)]
pub enum PrefetchCommand {
    /// Start prefetching
    Start { direction: i32, velocity_hundredths: i64, current_time_us: i64 },
    /// Stop prefetching
    Stop,
    /// Shutdown worker
    Shutdown,
}

/// Result sent from a worker back to the manager's consumer.
#[derive(Debug)]
pub enum PrefetchResult {
    /// Frame decoded
    Frame { pts_us: i64 },
    /// Prefetch stopped
    Stopped,
    /// Error occurred
    Error(String),
}

/// Context required by prefetch workers: where the media lives, how to decode
/// it, and the stream timing. Read-only after construction; the shared cache
/// and playhead handles are held by the embedding runtime next to this.
#[derive(Debug, Clone)]
pub struct PrefetchContext {
    /// Path to the media file
    pub path: String,

    /// Decoder configuration
    pub config: DecoderConfig,

    /// Frame rate in millihertz (for calculating frame duration)
    pub frame_rate_millihz: u64,

    /// Stream duration in microseconds
    pub duration_us: i64,
}

impl PrefetchContext {
    /// Create a new prefetch context.
    pub fn new(path: String, config: DecoderConfig, frame_rate_millihz: u64, duration_us: i64) -> (r: Self)
        ensures
            r.path@ == path@,
            r.config == config,
            r.frame_rate_millihz == frame_rate_millihz,
            r.duration_us == duration_us,
    {
        PrefetchContext { path, config, frame_rate_millihz, duration_us }
    }
}

// ---------------------------------------------------------------------------
// Worker cycle decisions
// ---------------------------------------------------------------------------

/// Duration of one frame in microseconds, from the rate in millihertz, with a
/// fallback when the rate is unknown or zero.
pub open spec fn spec_frame_duration_us(frame_rate_millihz: u64) -> int {
    if frame_rate_millihz > 0 {
        1_000_000_000int / (frame_rate_millihz as int)
    } else {
        33333
    }
}

/// Compute the duration of one frame in microseconds.
pub fn frame_duration_us(frame_rate_millihz: u64) -> (r: i64)
    ensures
        r == spec_frame_duration_us(frame_rate_millihz),
        r >= 0,
{
    if frame_rate_millihz > 0 {
        (1_000_000_000u64 / frame_rate_millihz) as i64
    } else {
        FALLBACK_FRAME_DURATION_US
    }
}

/// Throttle between decoded frames, inversely proportional to the scrub
/// velocity, with a floor on the divisor.
pub open spec fn spec_throttle_sleep_ms(velocity_hundredths: i64) -> int {
    let v = if velocity_hundredths >= 0 {
        velocity_hundredths as int
    } else {
        -(velocity_hundredths as int)
    };
    let denom = if v > 50 {
        v
    } else {
        50
    };
    10000int / denom
}

/// How long a worker sleeps between decoded frames, if at all: the sleep is
/// skipped when the computed pause is zero or at least 100 ms.
pub fn throttle_sleep_ms(velocity_hundredths: i64) -> (r: Option<u64>)
    ensures
        match r {
            Some(ms) => ms == spec_throttle_sleep_ms(velocity_hundredths) && 0 < ms < 100,
            None => !(0 < spec_throttle_sleep_ms(velocity_hundredths) < 100),
        },
{
    let v: i128 = velocity_hundredths as i128;
    let a: i128 = if v >= 0 {
        v
    } else {
        -v
    };
    let denom: i128 = if a > 50 {
        a
    } else {
        50
    };
    let ms: i128 = 10000i128 / denom;
    if 0 < ms && ms < 100 {
        Some(ms as u64)
    } else {
        None
    }
}

/// One worker's prefetch cycle: starting from the playhead it walks target
/// timestamps one frame duration at a time in the scrub direction, stays
/// within the stream bounds, and counts the frames decoded so far against the
/// per-activation ceiling.
pub struct WorkerCycle {
    /// Scrub direction (1 = forward, -1 = backward)
    pub direction: i32,

    /// Duration of one frame in microseconds
    pub frame_duration_us: i64,

    /// Stream duration in microseconds
    pub duration_us: i64,

    /// The timestamp the cycle will advance from
    pub target_time_us: i64,

    /// Frames decoded in this activation
    pub frames_decoded: u32,
}

impl WorkerCycle {
    /// Start a cycle at the reported playhead.
    pub fn start_cycle(
        direction: i32,
        frame_rate_millihz: u64,
        duration_us: i64,
        current_time_us: i64,
    ) -> (r: Self)
        ensures
            r.direction == direction,
            r.frame_duration_us == spec_frame_duration_us(frame_rate_millihz),
            r.frame_duration_us >= 0,
            r.duration_us == duration_us,
            r.target_time_us == current_time_us,
            r.frames_decoded == 0,
    {
        WorkerCycle {
            direction,
            frame_duration_us: frame_duration_us(frame_rate_millihz),
            duration_us,
            target_time_us: current_time_us,
            frames_decoded: 0,
        }
    }

    /// Advance the target by one frame duration in the scrub direction.
    /// Returns the next decode target, which always lies within the stream
    /// bounds `[0, duration_us]`; when the step would leave the bounds the
    /// cycle is over and nothing changes (hard clamp, no wraparound).
    pub fn advance(&mut self) -> (r: Option<i64>)
        ensures
            final(self).direction == old(self).direction,
            final(self).frame_duration_us == old(self).frame_duration_us,
            final(self).duration_us == old(self).duration_us,
            final(self).frames_decoded == old(self).frames_decoded,
            ({
                let next = old(self).target_time_us + old(self).direction
                    * old(self).frame_duration_us;
                match r {
                    Some(t) => t == next && 0 <= t <= old(self).duration_us
                        && final(self).target_time_us == t,
                    None => !(0 <= next <= old(self).duration_us) && final(self).target_time_us
                        == old(self).target_time_us,
                }
            }),
    {
        let d: i128 = self.direction as i128;
        let fd: i128 = self.frame_duration_us as i128;
        proof {
            assert((d as int) * (fd as int) <= 20000000000000000000000000000int && (d as int) * (
            fd as int) >= -20000000000000000000000000000int) by (nonlinear_arith)
                requires
                    -2147483648 <= d <= 2147483647,
                    -9223372036854775808 <= fd <= 9223372036854775807,
            ;
        }
        let step: i128 = d * fd;
        let next: i128 = self.target_time_us as i128 + step;
        if next < 0 || next > self.duration_us as i128 {
            None
        } else {
            self.target_time_us = next as i64;
            Some(self.target_time_us)
        }
    }

    /// The tolerance used to probe the cache before decoding: half a frame
    /// duration, so a frame the foreground path already produced is not
    /// decoded again.
    pub fn probe_tolerance_us(&self) -> (r: i64)
        requires
            self.frame_duration_us >= 0,
        ensures
            r == self.frame_duration_us / 2,
    {
        self.frame_duration_us / 2
    }

    /// Count one decoded frame against the per-activation ceiling.
    pub fn record_decoded(&mut self)
        requires
            old(self).frames_decoded < MAX_PREFETCH_FRAMES,
        ensures
            final(self).frames_decoded == old(self).frames_decoded + 1,
            final(self).direction == old(self).direction,
            final(self).frame_duration_us == old(self).frame_duration_us,
            final(self).duration_us == old(self).duration_us,
            final(self).target_time_us == old(self).target_time_us,
    {
        self.frames_decoded = self.frames_decoded + 1;
    }

    /// Whether this activation has hit its frame ceiling.
    pub fn exhausted(&self) -> (r: bool)
        ensures
            r == (self.frames_decoded >= MAX_PREFETCH_FRAMES),
    {
        self.frames_decoded >= MAX_PREFETCH_FRAMES
    }
}

/// Store one prefetched frame: always into L3, and additionally into L2 when
/// it is a keyframe; the result to emit reports the frame's timestamp.
pub fn store_prefetched_frame(cache: &mut Cache, frame: &VideoFrame) -> (r: PrefetchResult)
    requires
        old(cache).wf(),
    ensures
        final(cache).wf(),
        final(cache)@ == spec_insert_l3(
            spec_insert_l2(old(cache)@, frame.pts_us, frame@),
            frame.pts_us,
            frame@,
        ),
        r matches PrefetchResult::Frame { pts_us } && pts_us == frame.pts_us,
{
    if frame.is_keyframe {
        let copy = frame.clone();
        cache.insert_l2(frame.pts_us, copy);
    }
    let copy = frame.clone();
    cache.insert_l3(frame.pts_us, copy);
    PrefetchResult::Frame { pts_us: frame.pts_us }
}

// ---------------------------------------------------------------------------
// Channel endpoints (outside crate)
// ---------------------------------------------------------------------------

/// Relies on `crossbeam_channel::Sender`: one endpoint of a multi-producer,
/// multi-consumer channel; opaque to the verifier.
#[verifier::external_type_specification]
#[verifier::external_body]
#[verifier::reject_recursive_types(T)]
pub struct ExSender<T>(crossbeam_channel::Sender<T>);

/// Relies on `crossbeam_channel::Receiver`: one endpoint of a multi-producer,
/// multi-consumer channel; opaque to the verifier.
#[verifier::external_type_specification]
#[verifier::external_body]
#[verifier::reject_recursive_types(T)]
pub struct ExReceiver<T>(crossbeam_channel::Receiver<T>);

/// Relies on `crossbeam_channel::bounded`: creates a connected channel of the
/// given capacity. Its documentation reserves a panic for capacities too
/// large to allocate, which the bound here excludes.
#[verifier::external_body]
fn channel_bounded<T>(cap: usize) -> (crossbeam_channel::Sender<T>, crossbeam_channel::Receiver<T>)
    requires
        0 < cap <= 65536,
{
    crossbeam_channel::bounded(cap)
}

/// Relies on `crossbeam_channel::Sender::send`: delivers the message unless
/// every receiver is gone, in which case the message is dropped; blocks while
/// a bounded channel is full. What other threads receive cannot be stated of
/// this handle alone, so nothing is claimed.
#[verifier::external_body]
fn channel_send<T>(tx: &crossbeam_channel::Sender<T>, msg: T) {
    let _ = tx.send(msg);
}

/// Relies on `crossbeam_channel::Receiver::clone`: the clone is another
/// handle onto the same queue, indistinguishable from the original to this
/// library (the endpoint type is opaque here), so it is modelled as equal.
#[verifier::external_body]
fn clone_receiver<T>(rx: &crossbeam_channel::Receiver<T>) -> (r: crossbeam_channel::Receiver<T>)
    ensures
        r == *rx,
{
    rx.clone()
}

/// Relies on `crossbeam_channel::Sender::clone`: the clone is another handle
/// onto the same queue, indistinguishable from the original to this library
/// (the endpoint type is opaque here), so it is modelled as equal.
#[verifier::external_body]
fn clone_sender<T>(tx: &crossbeam_channel::Sender<T>) -> (r: crossbeam_channel::Sender<T>)
    ensures
        r == *tx,
{
    tx.clone()
}

// ---------------------------------------------------------------------------
// Manager
// ---------------------------------------------------------------------------

/// What the embedding runtime must do after `start`: join the previous worker
/// generation first (when one was running), then spawn this many workers.
#[derive(Debug, Clone, Copy, PartialEq, Eq, Structural)]
pub struct StartPlan {
    /// Whether a previous generation must be joined before spawning
    pub join_previous: bool,

    /// How many workers to spawn
    pub spawn_workers: usize,
}

/// What the embedding runtime must do after `stop` or `shutdown`: whether the
/// worker threads must be joined.
#[derive(Debug, Clone, Copy, PartialEq, Eq, Structural)]
pub struct StopPlan {
    /// Whether worker threads must be joined
    pub join_workers: bool,
}

/// Prefetch manager: owns the command and result channels and the lifecycle
/// state of the worker pool. `live_workers` models the number of worker
/// threads alive once the caller has carried out the most recently returned
/// plan.
pub struct PrefetchManager {
    thread_count: usize,
    command_tx: crossbeam_channel::Sender<PrefetchCommand>,
    command_rx: crossbeam_channel::Receiver<PrefetchCommand>,
    result_tx: crossbeam_channel::Sender<PrefetchResult>,
    result_rx: crossbeam_channel::Receiver<PrefetchResult>,
    is_running: bool,
    direction: i32,
    live_workers: usize,
    context: Option<PrefetchContext>,
}

impl PrefetchManager {
    /// The fixed size of the worker pool.
    pub closed spec fn spec_thread_count(&self) -> usize {
        self.thread_count
    }

    /// Whether a prefetch generation is running.
    pub closed spec fn spec_is_running(&self) -> bool {
        self.is_running
    }

    /// The current scrub direction.
    pub closed spec fn spec_direction(&self) -> i32 {
        self.direction
    }

    /// Worker threads alive once the last returned plan has been executed.
    pub closed spec fn spec_live_workers(&self) -> usize {
        self.live_workers
    }

    /// The workers' shared context, if one was supplied.
    pub closed spec fn spec_context(&self) -> Option<PrefetchContext> {
        self.context
    }

    /// The channel endpoints the manager was created with: the command pair
    /// the manager broadcasts on and the workers receive from, and the result
    /// pair the workers report on and the consumer polls.
    pub closed spec fn spec_channels(&self) -> (
        crossbeam_channel::Sender<PrefetchCommand>,
        crossbeam_channel::Receiver<PrefetchCommand>,
        crossbeam_channel::Sender<PrefetchResult>,
        crossbeam_channel::Receiver<PrefetchResult>,
    ) {
        (self.command_tx, self.command_rx, self.result_tx, self.result_rx)
    }

    /// Create a new prefetch manager with a worker context.
    pub fn new_with_context(thread_count: usize, context: PrefetchContext) -> (r: Self)
        ensures
            r.spec_thread_count() == thread_count,
            !r.spec_is_running(),
            r.spec_direction() == 0,
            r.spec_live_workers() == 0,
            r.spec_context() == Some(context),
    {
        let (command_tx, command_rx) = channel_bounded::<PrefetchCommand>(16);
        let (result_tx, result_rx) = channel_bounded::<PrefetchResult>(64);
        PrefetchManager {
            thread_count,
            command_tx,
            command_rx,
            result_tx,
            result_rx,
            is_running: false,
            direction: 0,
            live_workers: 0,
            context: Some(context),
        }
    }

    /// Create a new prefetch manager without a context (for testing).
    pub fn new(thread_count: usize) -> (r: Self)
        ensures
            r.spec_thread_count() == thread_count,
            !r.spec_is_running(),
            r.spec_direction() == 0,
            r.spec_live_workers() == 0,
            r.spec_context() is None,
    {
        let (command_tx, command_rx) = channel_bounded::<PrefetchCommand>(16);
        let (result_tx, result_rx) = channel_bounded::<PrefetchResult>(64);
        PrefetchManager {
            thread_count,
            command_tx,
            command_rx,
            result_tx,
            result_rx,
            is_running: false,
            direction: 0,
            live_workers: 0,
            context: None,
        }
    }

    /// Broadcast one `Stop` per worker thread.
    fn broadcast_stop(&self)
    {
        let mut i: usize = 0;
        while i < self.thread_count
            decreases self.thread_count - i,
        {
            channel_send(&self.command_tx, PrefetchCommand::Stop);
            i += 1;
        }
    }

    /// Start prefetching. A running generation is stopped first: its workers
    /// receive `Stop` and the plan tells the caller to join them before
    /// spawning the new generation, so at most one generation is ever alive —
    /// starting twice in succession still ends with exactly `thread_count`
    /// live workers. After joining and spawning as the plan says, the caller
    /// announces the new parameters with `announce_start`.
    pub fn start(&mut self, direction: i32, velocity_hundredths: i64, current_time_us: i64) -> (r:
        StartPlan)
        ensures
            final(self).spec_is_running(),
            final(self).spec_direction() == direction,
            final(self).spec_thread_count() == old(self).spec_thread_count(),
            final(self).spec_live_workers() == final(self).spec_thread_count(),
            final(self).spec_context() == old(self).spec_context(),
            final(self).spec_channels() == old(self).spec_channels(),
            r.join_previous == old(self).spec_is_running(),
            r.spawn_workers == old(self).spec_thread_count(),
    {
        let join_previous = self.is_running;
        if join_previous {
            self.broadcast_stop();
        }
        self.is_running = true;
        self.direction = direction;
        self.live_workers = self.thread_count;
        let _ = velocity_hundredths;
        let _ = current_time_us;
        StartPlan { join_previous, spawn_workers: self.thread_count }
    }

    /// Broadcast the `Start` command of a freshly spawned generation. Called
    /// by the runtime once the `StartPlan` has been carried out.
    pub fn announce_start(&self, direction: i32, velocity_hundredths: i64, current_time_us: i64)
    {
        channel_send(
            &self.command_tx,
            PrefetchCommand::Start { direction, velocity_hundredths, current_time_us },
        );
    }

    /// Stop prefetching. Idempotent: a no-op when not running; otherwise one
    /// `Stop` per worker is broadcast and the plan tells the caller to join
    /// all worker threads.
    pub fn stop(&mut self) -> (r: StopPlan)
        ensures
            !final(self).spec_is_running(),
            final(self).spec_thread_count() == old(self).spec_thread_count(),
            final(self).spec_context() == old(self).spec_context(),
            final(self).spec_channels() == old(self).spec_channels(),
            final(self).spec_direction() == (if old(self).spec_is_running() {
                0i32
            } else {
                old(self).spec_direction()
            }),
            final(self).spec_live_workers() == (if old(self).spec_is_running() {
                0usize
            } else {
                old(self).spec_live_workers()
            }),
            !old(self).spec_is_running() ==> !final(self).spec_is_running(),
            r.join_workers == old(self).spec_is_running(),
    {
        if !self.is_running {
            return StopPlan { join_workers: false };
        }
        self.is_running = false;
        self.direction = 0;
        self.broadcast_stop();
        self.live_workers = 0;
        StopPlan { join_workers: true }
    }

    /// Tear the pool down permanently: one `Shutdown` per worker thread is
    /// broadcast and the caller joins whatever threads remain. Used when the
    /// manager is dropped.
    pub fn shutdown(&mut self) -> (r: StopPlan)
        ensures
            !final(self).spec_is_running(),
            final(self).spec_live_workers() == 0,
            final(self).spec_thread_count() == old(self).spec_thread_count(),
            final(self).spec_context() == old(self).spec_context(),
            final(self).spec_channels() == old(self).spec_channels(),
            r.join_workers,
    {
        let mut i: usize = 0;
        while i < self.thread_count
            decreases self.thread_count - i,
        {
            channel_send(&self.command_tx, PrefetchCommand::Shutdown);
            i += 1;
        }
        self.is_running = false;
        self.live_workers = 0;
        StopPlan { join_workers: true }
    }

    /// Check if running.
    pub fn is_running(&self) -> (r: bool)
        ensures
            r == self.spec_is_running(),
    {
        self.is_running
    }

    /// Get the current direction.
    pub fn direction(&self) -> (r: i32)
        ensures
            r == self.spec_direction(),
    {
        self.direction
    }

    /// The number of worker threads alive once the last plan was executed.
    pub fn live_workers(&self) -> (r: usize)
        ensures
            r == self.spec_live_workers(),
    {
        self.live_workers
    }

    /// The fixed worker pool size.
    pub fn thread_count(&self) -> (r: usize)
        ensures
            r == self.spec_thread_count(),
    {
        self.thread_count
    }

    /// The result receiver, for polling decoded-frame reports: the other end
    /// of the channel the workers' result senders feed.
    pub fn results(&self) -> (r: &crossbeam_channel::Receiver<PrefetchResult>)
        ensures
            *r == self.spec_channels().3,
    {
        &self.result_rx
    }

    /// A command receiver handle for one worker thread: a handle onto the
    /// channel the manager broadcasts its commands on.
    pub fn worker_receiver(&self) -> (r: crossbeam_channel::Receiver<PrefetchCommand>)
        ensures
            r == self.spec_channels().1,
    {
        clone_receiver(&self.command_rx)
    }

    /// A result sender handle for one worker thread: a handle onto the
    /// channel `results` polls.
    pub fn result_sender(&self) -> (r: crossbeam_channel::Sender<PrefetchResult>)
        ensures
            r == self.spec_channels().2,
    {
        clone_sender(&self.result_tx)
    }

    /// The workers' shared context.
    pub fn context(&self) -> (r: &Option<PrefetchContext>)
        ensures
            *r == self.spec_context(),
    {
        &self.context
    }
}

} // verus!
