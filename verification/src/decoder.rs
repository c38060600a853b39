//! Decoder facade: the verified decision core of the foreground lookup path
//! and of the prefetch lifecycle.
//!
//! The decode engine itself (container parsing, codecs, pixel conversion) is
//! an external collaborator driven by the embedding runtime. This type owns
//! everything the decisions need — the frame cache, the playhead, the
//! preparation and decoding flags, the prefetch manager — and exposes one
//! verified step per decision the control flow makes: cache-first lookup,
//! seek-distance policy, per-decoded-frame caching and termination, and
//! prefetch start/stop delegation.

use vstd::prelude::*;

use crate::cache::Cache;
use crate::cache::CacheConfig;
use crate::cache::CacheStatistics;
use crate::cache::CacheView;
use crate::cache::dist;
use crate::cache::sat_u64;
use crate::cache::spec_get;
use crate::cache::spec_insert_l1;
use crate::cache::spec_insert_l2;
use crate::cache::spec_record_miss;
use crate::cache::cache_wf;
use crate::cache::total_mem;
use crate::config::DecoderConfig;
use crate::error::Error;
use crate::frame::VideoFrame;
use crate::info::MediaInfo;
use crate::prefetch::PrefetchContext;
use crate::prefetch::PrefetchManager;
use crate::prefetch::StartPlan;
use crate::prefetch::StopPlan;

verus! {

/// Bound on the frames decoded while scanning for one requested timestamp.
pub const MAX_FOREGROUND_DECODE_FRAMES: u32 = 100;

/// Worker pool size used when the prefetch manager is first created.
pub const PREFETCH_THREAD_COUNT: usize = 2;

/// Outcome of the cache-first phase of a frame lookup.
pub enum FrameLookup {
    /// The decoder is not prepared
    NotPrepared,
    /// Served from the cache
    Hit(VideoFrame),
    /// Not cached: the engine must decode, seeking first when the playhead
    /// is too far from the target
    Decode { seek_first: bool },
}

/// Main decoder state.
pub struct Decoder {
    path: String,
    config: DecoderConfig,
    media_info: Option<MediaInfo>,
    cache: Cache,
    is_prepared: bool,
    is_decoding: bool,
    is_prefetching: bool,
    current_time_us: i64,
    current_frame: i64,
    prefetch_manager: Option<PrefetchManager>,
}

impl Decoder {
    /// The media path.
    pub closed spec fn spec_path(&self) -> Seq<char> {
        self.path@
    }

    /// The configuration the decoder was created with.
    pub closed spec fn spec_config(&self) -> DecoderConfig {
        self.config
    }

    /// The media information installed by `prepare`.
    pub closed spec fn spec_media_info(&self) -> Option<MediaInfo> {
        self.media_info
    }

    /// The frame cache.
    pub closed spec fn spec_cache(&self) -> CacheView {
        self.cache@
    }

    /// Whether the decoder is prepared.
    pub closed spec fn spec_is_prepared(&self) -> bool {
        self.is_prepared
    }

    /// Whether sequential decoding is active.
    pub closed spec fn spec_is_decoding(&self) -> bool {
        self.is_decoding
    }

    /// Whether prefetch is active.
    pub closed spec fn spec_is_prefetching(&self) -> bool {
        self.is_prefetching
    }

    /// The playhead position in microseconds.
    pub closed spec fn spec_current_time_us(&self) -> i64 {
        self.current_time_us
    }

    /// The current frame number.
    pub closed spec fn spec_current_frame(&self) -> i64 {
        self.current_frame
    }

    /// The prefetch manager, once one was created.
    pub closed spec fn spec_manager(&self) -> Option<PrefetchManager> {
        self.prefetch_manager
    }

    /// Well-formedness: the cache is well-formed.
    pub open spec fn wf(&self) -> bool {
        cache_wf(self.spec_cache())
    }

    /// The frame rate handed to the prefetch workers: the primary video
    /// track's, with a 30 fps fallback when no track or no info is installed.
    pub open spec fn spec_prefetch_frame_rate_millihz(&self) -> u64 {
        match self.spec_media_info() {
            Some(info) => if info.video_tracks@.len() > 0 {
                info.video_tracks@[0].frame_rate_millihz
            } else {
                30000u64
            },
            None => 30000u64,
        }
    }

    /// The stream duration handed to the prefetch workers, zero when no media
    /// info is installed.
    pub open spec fn spec_prefetch_duration_us(&self) -> i64 {
        match self.spec_media_info() {
            Some(info) => info.duration_us,
            None => 0i64,
        }
    }

    /// Everything except the cache, the flags and the playhead is unchanged.
    pub open spec fn same_identity(&self, other: &Self) -> bool {
        &&& self.spec_path() == other.spec_path()
        &&& self.spec_config() == other.spec_config()
        &&& self.spec_media_info() == other.spec_media_info()
    }

    /// Create a new decoder for a media path. The existence of the file is
    /// the embedding runtime's concern; the decoder starts unprepared.
    pub fn new(path: String, config: DecoderConfig) -> (r: Self)
        ensures
            r.wf(),
            r.spec_path() == path@,
            r.spec_config() == config,
            r.spec_media_info() is None,
            !r.spec_is_prepared(),
            !r.spec_is_decoding(),
            !r.spec_is_prefetching(),
            r.spec_current_time_us() == 0,
            r.spec_current_frame() == 0,
            r.spec_manager() is None,
            r.spec_cache().l1.capacity == config.l1_cache_capacity,
            r.spec_cache().l2.capacity == config.l2_cache_capacity,
            r.spec_cache().l3.capacity == config.l3_cache_capacity,
            r.spec_cache().l1.entries.len() == 0,
            r.spec_cache().l2.entries.len() == 0,
            r.spec_cache().l3.entries.len() == 0,
            r.spec_cache().l1_hits == 0 && r.spec_cache().l2_hits == 0 && r.spec_cache().l3_hits
                == 0 && r.spec_cache().misses == 0,
    {
        let cache_config = CacheConfig {
            l1_capacity: config.l1_cache_capacity as usize,
            l2_capacity: config.l2_cache_capacity as usize,
            l3_capacity: config.l3_cache_capacity as usize,
            enable_prefetch: config.enable_prefetch,
        };
        Decoder {
            path,
            config,
            media_info: None,
            cache: Cache::new(cache_config),
            is_prepared: false,
            is_decoding: false,
            is_prefetching: false,
            current_time_us: 0,
            current_frame: 0,
            prefetch_manager: None,
        }
    }

    /// Install the media information the engine extracted and mark the
    /// decoder prepared. Preparing an already prepared decoder is a no-op.
    pub fn prepare(&mut self, info: MediaInfo)
        ensures
            final(self).spec_is_prepared(),
            final(self).spec_media_info() == (if old(self).spec_is_prepared() {
                old(self).spec_media_info()
            } else {
                Some(info)
            }),
            final(self).spec_path() == old(self).spec_path(),
            final(self).spec_config() == old(self).spec_config(),
            final(self).spec_cache() == old(self).spec_cache(),
            final(self).spec_is_decoding() == old(self).spec_is_decoding(),
            final(self).spec_is_prefetching() == old(self).spec_is_prefetching(),
            final(self).spec_current_time_us() == old(self).spec_current_time_us(),
            final(self).spec_manager() == old(self).spec_manager(),
            old(self).wf() ==> final(self).wf(),
    {
        if self.is_prepared {
            return;
        }
        self.media_info = Some(info);
        self.is_prepared = true;
    }

    /// Get the media information.
    pub fn media_info(&self) -> (r: &Option<MediaInfo>)
        ensures
            *r == self.spec_media_info(),
    {
        &self.media_info
    }

    /// Check if prepared.
    pub fn is_prepared(&self) -> (r: bool)
        ensures
            r == self.spec_is_prepared(),
    {
        self.is_prepared
    }

    /// Check if decoding.
    pub fn is_decoding(&self) -> (r: bool)
        ensures
            r == self.spec_is_decoding(),
    {
        self.is_decoding
    }

    /// Check if prefetching.
    pub fn is_prefetching(&self) -> (r: bool)
        ensures
            r == self.spec_is_prefetching(),
    {
        self.is_prefetching
    }

    /// Get the playhead position in microseconds.
    pub fn current_time_us(&self) -> (r: i64)
        ensures
            r == self.spec_current_time_us(),
    {
        self.current_time_us
    }

    /// Guard used before any engine call: the decoder must be prepared.
    pub fn check_prepared(&self) -> (r: Result<(), Error>)
        ensures
            r is Ok <==> self.spec_is_prepared(),
            r matches Err(e) ==> e is NotPrepared,
    {
        if self.is_prepared {
            Ok(())
        } else {
            Err(Error::NotPrepared)
        }
    }

    /// Start sequential decoding.
    pub fn start_decoding(&mut self) -> (r: Result<(), Error>)
        ensures
            r is Ok <==> old(self).spec_is_prepared(),
            r matches Err(e) ==> e is NotPrepared,
            final(self).spec_is_decoding() == (old(self).spec_is_prepared()
                || old(self).spec_is_decoding()),
            final(self).same_identity(old(self)),
            final(self).spec_cache() == old(self).spec_cache(),
            final(self).spec_is_prepared() == old(self).spec_is_prepared(),
            final(self).spec_is_prefetching() == old(self).spec_is_prefetching(),
            final(self).spec_current_time_us() == old(self).spec_current_time_us(),
            final(self).spec_manager() == old(self).spec_manager(),
            old(self).wf() ==> final(self).wf(),
    {
        if !self.is_prepared {
            return Err(Error::NotPrepared);
        }
        self.is_decoding = true;
        Ok(())
    }

    /// Stop sequential decoding.
    pub fn stop_decoding(&mut self)
        ensures
            !final(self).spec_is_decoding(),
            final(self).same_identity(old(self)),
            final(self).spec_cache() == old(self).spec_cache(),
            final(self).spec_is_prepared() == old(self).spec_is_prepared(),
            final(self).spec_is_prefetching() == old(self).spec_is_prefetching(),
            final(self).spec_current_time_us() == old(self).spec_current_time_us(),
            final(self).spec_manager() == old(self).spec_manager(),
            old(self).wf() ==> final(self).wf(),
    {
        self.is_decoding = false;
    }

    /// Record that the engine completed a keyframe seek to `time_us`.
    pub fn record_seek(&mut self, time_us: i64)
        ensures
            final(self).spec_current_time_us() == time_us,
            final(self).same_identity(old(self)),
            final(self).spec_cache() == old(self).spec_cache(),
            final(self).spec_is_prepared() == old(self).spec_is_prepared(),
            final(self).spec_is_decoding() == old(self).spec_is_decoding(),
            final(self).spec_is_prefetching() == old(self).spec_is_prefetching(),
            final(self).spec_manager() == old(self).spec_manager(),
            old(self).wf() ==> final(self).wf(),
    {
        self.current_time_us = time_us;
    }

    /// Record the frame a precise (frame-accurate) seek landed on: the
    /// playhead moves to it, and it is cached — into L2 when it is a
    /// keyframe, and into L1 always.
    pub fn record_precise_seek_frame(&mut self, frame: &VideoFrame)
        requires
            old(self).wf(),
        ensures
            final(self).wf(),
            final(self).spec_current_time_us() == frame.pts_us,
            final(self).spec_current_frame() == frame.frame_number,
            final(self).spec_cache() == spec_insert_l1(
                spec_insert_l2(old(self).spec_cache(), frame.pts_us, frame@),
                frame.pts_us,
                frame@,
            ),
            final(self).same_identity(old(self)),
            final(self).spec_is_prepared() == old(self).spec_is_prepared(),
            final(self).spec_is_decoding() == old(self).spec_is_decoding(),
            final(self).spec_is_prefetching() == old(self).spec_is_prefetching(),
            final(self).spec_manager() == old(self).spec_manager(),
    {
        self.current_time_us = frame.pts_us;
        self.current_frame = frame.frame_number;
        if frame.is_keyframe {
            let copy = frame.clone();
            self.cache.insert_l2(frame.pts_us, copy);
        }
        let copy = frame.clone();
        self.cache.insert_l1(frame.pts_us, copy);
    }

    /// Cache-first phase of `get_frame_at`: an unprepared decoder refuses; a
    /// cache hit (with its promotion and hit-counter effects) is returned
    /// directly; on a miss the engine must decode, seeking first when the
    /// playhead is more than ten tolerances away from the target.
    pub fn begin_get_frame_at(&mut self, time_us: i64, tolerance_us: i64) -> (r: FrameLookup)
        requires
            old(self).wf(),
        ensures
            final(self).wf(),
            final(self).same_identity(old(self)),
            final(self).spec_is_prepared() == old(self).spec_is_prepared(),
            final(self).spec_is_decoding() == old(self).spec_is_decoding(),
            final(self).spec_is_prefetching() == old(self).spec_is_prefetching(),
            final(self).spec_current_time_us() == old(self).spec_current_time_us(),
            final(self).spec_manager() == old(self).spec_manager(),
            !old(self).spec_is_prepared() ==> r is NotPrepared && final(self).spec_cache() == old(
                self,
            ).spec_cache(),
            old(self).spec_is_prepared() ==> {
                let (r0, c0) = spec_get(old(self).spec_cache(), time_us, tolerance_us);
                &&& final(self).spec_cache() == c0
                &&& (r0 matches Some(fv) ==> (r matches FrameLookup::Hit(f) && f@ == fv))
                &&& (r0 is None ==> (r matches FrameLookup::Decode { seek_first } && seek_first
                    == (dist(old(self).spec_current_time_us(), time_us) > 10 * tolerance_us)))
            },
    {
        if !self.is_prepared {
            return FrameLookup::NotPrepared;
        }
        match self.cache.get(time_us, tolerance_us) {
            Some(f) => FrameLookup::Hit(f),
            None => {
                let distance: i128 = if self.current_time_us as i128 >= time_us as i128 {
                    self.current_time_us as i128 - time_us as i128
                } else {
                    time_us as i128 - self.current_time_us as i128
                };
                let seek_first = distance > 10i128 * tolerance_us as i128;
                FrameLookup::Decode { seek_first }
            },
        }
    }

    /// One step of the foreground decode scan: the playhead moves to the
    /// decoded frame, the frame is cached (L2 when a keyframe, L1 always),
    /// and the scan ends with this frame when it lies within the tolerance
    /// of the target or already beyond it.
    pub fn on_foreground_frame(&mut self, frame: VideoFrame, time_us: i64, tolerance_us: i64) -> (r:
        Option<VideoFrame>)
        requires
            old(self).wf(),
        ensures
            final(self).wf(),
            final(self).same_identity(old(self)),
            final(self).spec_is_prepared() == old(self).spec_is_prepared(),
            final(self).spec_current_time_us() == frame.pts_us,
            final(self).spec_current_frame() == frame.frame_number,
            final(self).spec_manager() == old(self).spec_manager(),
            final(self).spec_cache() == spec_insert_l1(
                spec_insert_l2(old(self).spec_cache(), frame.pts_us, frame@),
                frame.pts_us,
                frame@,
            ),
            r == (if dist(frame.pts_us, time_us) <= tolerance_us || frame.pts_us > time_us
                + tolerance_us {
                Some(frame)
            } else {
                None::<VideoFrame>
            }),
    {
        self.current_time_us = frame.pts_us;
        self.current_frame = frame.frame_number;
        if frame.is_keyframe {
            let copy = frame.clone();
            self.cache.insert_l2(frame.pts_us, copy);
        }
        let copy = frame.clone();
        self.cache.insert_l1(frame.pts_us, copy);
        let fp: i128 = frame.pts_us as i128;
        let t: i128 = time_us as i128;
        let tol: i128 = tolerance_us as i128;
        let d: i128 = if fp >= t {
            fp - t
        } else {
            t - fp
        };
        if d <= tol || fp > t + tol {
            Some(frame)
        } else {
            None
        }
    }

    /// Record that a frame lookup could not be served — from the cache or by
    /// decoding — so the miss becomes final.
    pub fn record_miss(&mut self)
        ensures
            final(self).spec_cache() == spec_record_miss(old(self).spec_cache()),
            final(self).same_identity(old(self)),
            final(self).spec_is_prepared() == old(self).spec_is_prepared(),
            final(self).spec_is_decoding() == old(self).spec_is_decoding(),
            final(self).spec_current_time_us() == old(self).spec_current_time_us(),
            final(self).spec_manager() == old(self).spec_manager(),
            old(self).wf() ==> final(self).wf(),
    {
        self.cache.record_miss();
    }

    /// Whether sequential decoding may proceed: an unprepared decoder
    /// refuses, a prepared one that is not decoding yields nothing.
    pub fn can_decode_sequentially(&self) -> (r: Result<bool, Error>)
        ensures
            r matches Err(e) ==> e is NotPrepared && !self.spec_is_prepared(),
            r matches Ok(b) ==> self.spec_is_prepared() && b == self.spec_is_decoding(),
    {
        if !self.is_prepared {
            return Err(Error::NotPrepared);
        }
        Ok(self.is_decoding)
    }

    /// One step of sequential decoding: the playhead moves to the decoded
    /// frame and a keyframe is indexed into L2.
    pub fn on_sequential_frame(&mut self, frame: VideoFrame) -> (r: VideoFrame)
        requires
            old(self).wf(),
        ensures
            final(self).wf(),
            final(self).same_identity(old(self)),
            final(self).spec_current_time_us() == frame.pts_us,
            final(self).spec_current_frame() == frame.frame_number,
            final(self).spec_cache() == spec_insert_l2(
                old(self).spec_cache(),
                frame.pts_us,
                frame@,
            ),
            final(self).spec_manager() == old(self).spec_manager(),
            r == frame,
    {
        self.current_time_us = frame.pts_us;
        self.current_frame = frame.frame_number;
        if frame.is_keyframe {
            let copy = frame.clone();
            self.cache.insert_l2(frame.pts_us, copy);
        }
        frame
    }

    /// Check if media has audio.
    pub fn has_audio(&self) -> (r: bool)
        ensures
            r == (self.spec_media_info() matches Some(i) && i.audio_tracks@.len() > 0),
    {
        match &self.media_info {
            Some(i) => i.audio_tracks.len() > 0,
            None => false,
        }
    }

    /// Start prefetch. Refused while unprepared; a no-op when the
    /// configuration disables prefetching — in both cases the manager is left
    /// untouched. Otherwise the manager is created lazily, once, with the
    /// fixed pool size and a context carrying this decoder's path,
    /// configuration and stream timing, and is retained and reused by every
    /// later call. A running generation is stopped and the returned plan
    /// tells the runtime to join it before spawning the new one, so exactly
    /// `thread_count` workers are live afterwards.
    pub fn start_prefetch(&mut self, direction: i32, velocity_hundredths: i64) -> (r: Result<
        Option<StartPlan>,
        Error,
    >)
        requires
            old(self).wf(),
        ensures
            final(self).wf(),
            final(self).same_identity(old(self)),
            final(self).spec_cache() == old(self).spec_cache(),
            final(self).spec_is_prepared() == old(self).spec_is_prepared(),
            final(self).spec_is_decoding() == old(self).spec_is_decoding(),
            final(self).spec_current_time_us() == old(self).spec_current_time_us(),
            !old(self).spec_is_prepared() ==> (r matches Err(e) && e is NotPrepared
                && final(self).spec_is_prefetching() == old(self).spec_is_prefetching()
                && final(self).spec_manager() == old(self).spec_manager()),
            (old(self).spec_is_prepared() && !old(self).spec_config().enable_prefetch) ==> (
            r matches Ok(p) && p is None && final(self).spec_is_prefetching() == old(
                self,
            ).spec_is_prefetching() && final(self).spec_manager() == old(self).spec_manager()),
            (old(self).spec_is_prepared() && old(self).spec_config().enable_prefetch) ==> {
                &&& final(self).spec_is_prefetching()
                &&& final(self).spec_manager() matches Some(m) && m.spec_is_running()
                    && m.spec_direction() == direction && m.spec_live_workers()
                    == m.spec_thread_count()
                // an existing manager is reused: pool size and context are kept
                &&& (old(self).spec_manager() matches Some(m0) ==> final(self).spec_manager()
                    matches Some(m1) && m1.spec_thread_count() == m0.spec_thread_count()
                    && m1.spec_context() == m0.spec_context())
                // the first call creates the manager, with the context the
                // workers will run under
                &&& (old(self).spec_manager() is None ==> (final(self).spec_manager()
                    matches Some(m) && m.spec_thread_count() == PREFETCH_THREAD_COUNT && (
                m.spec_context() matches Some(ctx) && ctx.path@ == old(self).spec_path()
                    && ctx.config == old(self).spec_config() && ctx.frame_rate_millihz == old(
                    self,
                ).spec_prefetch_frame_rate_millihz() && ctx.duration_us == old(
                    self,
                ).spec_prefetch_duration_us())))
                &&& r matches Ok(p) && p matches Some(plan) && plan.spawn_workers
                    == final(self).spec_manager().unwrap().spec_thread_count()
                    && plan.join_previous == (old(self).spec_manager() matches Some(m0)
                    && m0.spec_is_running())
            },
    {
        if !self.is_prepared {
            return Err(Error::NotPrepared);
        }
        if !self.config.enable_prefetch {
            return Ok(None);
        }
        // stream timing for the workers, from the installed media info
        let (frame_rate_millihz, duration_us): (u64, i64) = match &self.media_info {
            Some(info) => {
                let rate = match info.primary_video() {
                    Some(v) => v.frame_rate_millihz,
                    None => 30000,
                };
                (rate, info.duration_us)
            },
            None => (30000, 0),
        };
        if self.prefetch_manager.is_none() {
            let context = PrefetchContext::new(
                self.path.clone(),
                self.config,
                frame_rate_millihz,
                duration_us,
            );
            self.prefetch_manager = Some(
                PrefetchManager::new_with_context(PREFETCH_THREAD_COUNT, context),
            );
        }
        let plan = match &mut self.prefetch_manager {
            Some(m) => m.start(direction, velocity_hundredths, self.current_time_us),
            None => {
                proof {
                    assert(false);
                }
                StartPlan { join_previous: false, spawn_workers: 0 }
            },
        };
        self.is_prefetching = true;
        Ok(Some(plan))
    }

    /// Broadcast the `Start` command once the runtime has joined the old
    /// generation and spawned the new one, as the plan said.
    pub fn announce_prefetch_start(&self, direction: i32, velocity_hundredths: i64)
    {
        match &self.prefetch_manager {
            Some(m) => m.announce_start(direction, velocity_hundredths, self.current_time_us),
            None => {},
        }
    }

    /// Stop prefetch. The manager is retained for the next start; the
    /// returned plan says whether worker threads must be joined.
    pub fn stop_prefetch(&mut self) -> (r: StopPlan)
        ensures
            !final(self).spec_is_prefetching(),
            final(self).same_identity(old(self)),
            final(self).spec_cache() == old(self).spec_cache(),
            final(self).spec_is_prepared() == old(self).spec_is_prepared(),
            final(self).spec_is_decoding() == old(self).spec_is_decoding(),
            final(self).spec_current_time_us() == old(self).spec_current_time_us(),
            old(self).spec_manager() matches Some(m0) ==> final(self).spec_manager() matches Some(
                m1,
            ) && !m1.spec_is_running() && m1.spec_live_workers() == (if m0.spec_is_running() {
                0usize
            } else {
                m0.spec_live_workers()
            }) && r.join_workers == m0.spec_is_running(),
            old(self).spec_manager() is None ==> final(self).spec_manager() is None
                && !r.join_workers,
            old(self).wf() ==> final(self).wf(),
    {
        let plan = match &mut self.prefetch_manager {
            Some(m) => m.stop(),
            None => StopPlan { join_workers: false },
        };
        self.is_prefetching = false;
        plan
    }

    /// The prefetch manager, for the runtime that spawns the workers: it
    /// hands each worker its command receiver and result sender.
    pub fn prefetch_manager(&self) -> (r: &Option<PrefetchManager>)
        ensures
            *r == self.spec_manager(),
    {
        &self.prefetch_manager
    }

    /// Tear the prefetch pool down permanently (used when the decoder is
    /// dropped): every worker is told to shut down and must be joined.
    pub fn shutdown_prefetch(&mut self) -> (r: StopPlan)
        ensures
            !final(self).spec_is_prefetching(),
            final(self).same_identity(old(self)),
            final(self).spec_cache() == old(self).spec_cache(),
            old(self).spec_manager() is Some ==> r.join_workers,
            old(self).spec_manager() is None ==> !r.join_workers,
            old(self).wf() ==> final(self).wf(),
    {
        let plan = match &mut self.prefetch_manager {
            Some(m) => m.shutdown(),
            None => StopPlan { join_workers: false },
        };
        self.is_prefetching = false;
        plan
    }

    /// Get cache statistics.
    pub fn cache_statistics(&self) -> (r: CacheStatistics)
        ensures
            r.l1_entries == self.spec_cache().l1.entries.len(),
            r.l2_entries == self.spec_cache().l2.entries.len(),
            r.l3_entries == self.spec_cache().l3.entries.len(),
            r.l1_hit_count == self.spec_cache().l1_hits,
            r.l2_hit_count == self.spec_cache().l2_hits,
            r.l3_hit_count == self.spec_cache().l3_hits,
            r.miss_count == self.spec_cache().misses,
            r.memory_usage_bytes == sat_u64(total_mem(self.spec_cache())),
    {
        self.cache.statistics()
    }

    /// Clear the cache: all tiers are emptied, the cumulative hit and miss
    /// counters are kept.
    pub fn clear_cache(&mut self)
        ensures
            final(self).wf(),
            final(self).spec_cache().l1.entries.len() == 0,
            final(self).spec_cache().l2.entries.len() == 0,
            final(self).spec_cache().l3.entries.len() == 0,
            final(self).spec_cache().l1.capacity == old(self).spec_cache().l1.capacity,
            final(self).spec_cache().l2.capacity == old(self).spec_cache().l2.capacity,
            final(self).spec_cache().l3.capacity == old(self).spec_cache().l3.capacity,
            final(self).spec_cache().l1_hits == old(self).spec_cache().l1_hits,
            final(self).spec_cache().l2_hits == old(self).spec_cache().l2_hits,
            final(self).spec_cache().l3_hits == old(self).spec_cache().l3_hits,
            final(self).spec_cache().misses == old(self).spec_cache().misses,
            final(self).same_identity(old(self)),
            final(self).spec_is_prepared() == old(self).spec_is_prepared(),
            final(self).spec_current_time_us() == old(self).spec_current_time_us(),
            final(self).spec_manager() == old(self).spec_manager(),
    {
        self.cache.clear();
    }

    /// The shared frame cache, for reading.
    pub fn cache(&self) -> (r: &Cache)
        ensures
            r@ == self.spec_cache(),
    {
        &self.cache
    }

    /// The shared frame cache, for population: the prefetch workers insert
    /// the frames they decode through this handle.
    pub fn cache_mut(&mut self) -> (r: &mut Cache)
        ensures
            (*r)@ == old(self).spec_cache(),
            final(self).spec_cache() == (*final(r))@,
            final(self).same_identity(old(self)),
            final(self).spec_is_prepared() == old(self).spec_is_prepared(),
            final(self).spec_is_decoding() == old(self).spec_is_decoding(),
            final(self).spec_is_prefetching() == old(self).spec_is_prefetching(),
            final(self).spec_current_time_us() == old(self).spec_current_time_us(),
            final(self).spec_current_frame() == old(self).spec_current_frame(),
            final(self).spec_manager() == old(self).spec_manager(),
    {
        &mut self.cache
    }

    /// Get the media path.
    pub fn path(&self) -> (r: &str)
        ensures
            r@ == self.spec_path(),
    {
        self.path.as_str()
    }

    /// Get the configuration.
    pub fn config(&self) -> (r: &DecoderConfig)
        ensures
            *r == self.spec_config(),
    {
        &self.config
    }
}

// ---------------------------------------------------------------------------
// Frame-accurate seek scan
// ---------------------------------------------------------------------------

/// Bound on the frames decoded while walking from a keyframe to the precise
/// seek target, so the scan ends even on a corrupt stream.
pub const MAX_PRECISE_SEEK_FRAMES: u32 = 300;

/// Frame-accurate seek: after the engine's coarse seek to the keyframe at or
/// before the target, decoded frames are offered one at a time; the scan
/// keeps the best frame at or before the target and ends once that frame
/// covers the target (the next one would start past it), once a frame lands
/// beyond the target, or at the scan ceiling.
pub struct PreciseSeekScan {
    /// The requested position in microseconds
    pub target_us: i64,

    /// Duration of one frame in microseconds
    pub frame_duration_us: i64,

    /// The best frame at or before the target seen so far (or, failing that,
    /// the first frame past it)
    pub best: Option<VideoFrame>,

    /// Frames offered so far
    pub frames_scanned: u32,

    /// Whether the scan is over
    pub done: bool,
}

impl PreciseSeekScan {
    /// Start a scan towards `target_us` on a stream with the given rate.
    pub fn begin(target_us: i64, frame_rate_millihz: u64) -> (r: Self)
        ensures
            r.target_us == target_us,
            r.frame_duration_us == crate::prefetch::spec_frame_duration_us(frame_rate_millihz),
            r.frame_duration_us >= 0,
            r.best is None,
            r.frames_scanned == 0,
            !r.done,
    {
        PreciseSeekScan {
            target_us,
            frame_duration_us: crate::prefetch::frame_duration_us(frame_rate_millihz),
            best: None,
            frames_scanned: 0,
            done: false,
        }
    }

    /// Whether another frame should be decoded and offered.
    pub fn wants_more(&self) -> (r: bool)
        ensures
            r == (!self.done && self.frames_scanned < MAX_PRECISE_SEEK_FRAMES),
    {
        !self.done && self.frames_scanned < MAX_PRECISE_SEEK_FRAMES
    }

    /// Offer the next decoded frame. A frame at or before the target becomes
    /// the best candidate, and the scan ends when it covers the target; a
    /// frame past the target ends the scan, standing in as best effort only
    /// when no earlier frame was seen.
    pub fn offer_frame(&mut self, frame: VideoFrame)
        requires
            !old(self).done,
            old(self).frames_scanned < MAX_PRECISE_SEEK_FRAMES,
        ensures
            final(self).target_us == old(self).target_us,
            final(self).frame_duration_us == old(self).frame_duration_us,
            final(self).frames_scanned == old(self).frames_scanned + 1,
            frame.pts_us <= old(self).target_us ==> (final(self).best == Some(frame)
                && final(self).done == (frame.pts_us + old(self).frame_duration_us > old(
                self,
            ).target_us)),
            frame.pts_us > old(self).target_us ==> (final(self).done && final(self).best == (
            if old(self).best is Some {
                old(self).best
            } else {
                Some(frame)
            })),
    {
        self.frames_scanned = self.frames_scanned + 1;
        let fp: i128 = frame.pts_us as i128;
        if frame.pts_us <= self.target_us {
            let covers = fp + self.frame_duration_us as i128 > self.target_us as i128;
            self.best = Some(frame);
            if covers {
                self.done = true;
            }
        } else {
            if self.best.is_none() {
                self.best = Some(frame);
            }
            self.done = true;
        }
    }

    /// The stream ended: the scan is over with whatever candidate it holds.
    pub fn end_of_stream(&mut self)
        ensures
            final(self).done,
            final(self).best == old(self).best,
            final(self).target_us == old(self).target_us,
            final(self).frame_duration_us == old(self).frame_duration_us,
            final(self).frames_scanned == old(self).frames_scanned,
    {
        self.done = true;
    }
}

// ---------------------------------------------------------------------------
// Stream time-base conversions
// ---------------------------------------------------------------------------

/// Division truncating toward zero, as the machine division does; meaningful
/// for a non-zero divisor.
pub open spec fn div_trunc(a: int, b: int) -> int {
    let q = (if a >= 0 {
        a
    } else {
        -a
    }) / (if b >= 0 {
        b
    } else {
        -b
    });
    if (a >= 0) == (b >= 0) {
        q
    } else {
        -q
    }
}

/// A presentation timestamp in stream time-base units, as microseconds.
/// Timestamps are signed and may be negative.
pub open spec fn spec_pts_to_us(pts: i64, time_base_num: i32, time_base_den: i32) -> int {
    if time_base_den == 0 {
        pts as int
    } else {
        div_trunc(pts * 1_000_000 * time_base_num, time_base_den as int)
    }
}

/// Convert a timestamp in stream time-base units to microseconds.
pub fn pts_to_us(pts: i64, time_base_num: i32, time_base_den: i32) -> (r: i64)
    requires
        -0x7fff_ffff_ffff_ffff <= pts * 1_000_000 * time_base_num <= 0x7fff_ffff_ffff_ffff,
    ensures
        r == spec_pts_to_us(pts, time_base_num, time_base_den),
{
    if time_base_den == 0 {
        return pts;
    }
    let p: i128 = pts as i128;
    let n: i128 = time_base_num as i128;
    let d: i128 = time_base_den as i128;
    proof {
        assert((p as int) * 1_000_000 * (n as int) <= 40000000000000000000000000000000000int
            && (p as int) * 1_000_000 * (n as int) >= -40000000000000000000000000000000000int)
            by (nonlinear_arith)
            requires
                -9223372036854775808 <= p <= 9223372036854775807,
                -2147483648 <= n <= 2147483647,
        ;
    }
    let prod: i128 = p * 1_000_000i128 * n;
    let pa: i128 = if prod >= 0 {
        prod
    } else {
        -prod
    };
    let da: i128 = if d >= 0 {
        d
    } else {
        -d
    };
    let qa: i128 = pa / da;
    proof {
        assert(qa <= pa) by (nonlinear_arith)
            requires
                pa >= 0,
                da >= 1,
                qa == pa / da,
        ;
    }
    let q: i128 = if (prod >= 0) == (d >= 0) {
        qa
    } else {
        -qa
    };
    q as i64
}

/// A position in microseconds, as stream time-base units. Positions are
/// signed and may be negative.
pub open spec fn spec_us_to_pts(us: i64, time_base_num: i32, time_base_den: i32) -> int {
    if time_base_num == 0 {
        us as int
    } else {
        div_trunc(us * time_base_den, 1_000_000 * time_base_num)
    }
}

/// Convert a position in microseconds to stream time-base units.
pub fn us_to_pts(us: i64, time_base_num: i32, time_base_den: i32) -> (r: i64)
    requires
        -0x7fff_ffff_ffff_ffff <= us * time_base_den <= 0x7fff_ffff_ffff_ffff,
    ensures
        r == spec_us_to_pts(us, time_base_num, time_base_den),
{
    if time_base_num == 0 {
        return us;
    }
    let u: i128 = us as i128;
    let d: i128 = time_base_den as i128;
    proof {
        assert((u as int) * (d as int) <= 20000000000000000000000000000int && (u as int) * (
        d as int) >= -20000000000000000000000000000int) by (nonlinear_arith)
            requires
                -9223372036854775808 <= u <= 9223372036854775807,
                -2147483648 <= d <= 2147483647,
        ;
    }
    let prod: i128 = u * d;
    let divisor: i128 = 1_000_000i128 * time_base_num as i128;
    let pa: i128 = if prod >= 0 {
        prod
    } else {
        -prod
    };
    let da: i128 = if divisor >= 0 {
        divisor
    } else {
        -divisor
    };
    let qa: i128 = pa / da;
    proof {
        assert(qa <= pa) by (nonlinear_arith)
            requires
                pa >= 0,
                da >= 1,
                qa == pa / da,
        ;
    }
    let q: i128 = if (prod >= 0) == (divisor >= 0) {
        qa
    } else {
        -qa
    };
    q as i64
}

} // verus!
