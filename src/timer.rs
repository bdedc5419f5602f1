//! Clocks and the schedule of script timers.
//!
//! Readings of the system clock are taken through `SystemTime` and handled as
//! counts of nanoseconds. What a reading is depends on the time, so nothing is
//! promised of it: each step that uses one is a function of the reading, and
//! its contract holds for every value the clock may give.
use vstd::prelude::*;

verus! {

/// std's `SystemTime`, carried as an opaque clock reading.
#[verifier::external_type_specification]
#[verifier::external_body]
pub struct ExSystemTime(std::time::SystemTime);

/// Relies on `SystemTime::now`: the clock's current reading.
pub assume_specification[ std::time::SystemTime::now ]() -> std::time::SystemTime;

/// Relies on `SystemTime::elapsed` and `Duration::as_nanos`: the nanoseconds
/// from `t` to now, or `None` when the clock now reads earlier than `t`.
#[verifier::external_body]
fn elapsed_nanos(t: &std::time::SystemTime) -> Option<u128> {
    match t.elapsed() {
        Ok(d) => Some(d.as_nanos()),
        Err(_) => None,
    }
}

/// Whole milliseconds in `nanos` nanoseconds.
pub open spec fn millis_of(nanos: u128) -> u128 {
    nanos / 1_000_000
}

/// Whole milliseconds between two readings in nanoseconds, or `None` when the
/// later reading lies before the earlier one.
pub fn span_millis(earlier: u128, later: u128) -> (r: Option<u128>)
    ensures
        r == (if earlier <= later {
            Some(millis_of((later - earlier) as u128))
        } else {
            None::<u128>
        }),
{
    if earlier <= later {
        Some((later - earlier) / 1_000_000)
    } else {
        None
    }
}

/// The milliseconds of a reading, or 0 where the clock gave none.
pub fn reading_millis(reading: Option<u128>) -> (r: u128)
    ensures
        r == match reading {
            Some(v) => millis_of(v),
            None => 0,
        },
{
    match reading {
        Some(v) => v / 1_000_000,
        None => 0,
    }
}

/// Measures the time between frames.
pub struct Stopwatch {
    watch: std::time::SystemTime,
    start: u128,
    delta_time: u128,
    stop: bool,
}

impl Stopwatch {
    /// The reading, in nanoseconds since the watch was set, of the last mark.
    pub closed spec fn start_nanos(self) -> u128 {
        self.start
    }

    /// The milliseconds between the last mark and the last update.
    pub closed spec fn delta_millis(self) -> u128 {
        self.delta_time
    }

    pub closed spec fn stopped(self) -> bool {
        self.stop
    }

    /// A running watch, set now.
    pub fn new() -> (r: Self)
        ensures
            r.delta_millis() == 0,
            !r.stopped(),
    {
        let watch = std::time::SystemTime::now();
        let start = match elapsed_nanos(&watch) {
            Some(v) => v,
            None => 0,
        };
        Stopwatch { watch, start, delta_time: 0, stop: false }
    }

    /// Sets the watch to now and marks the start there.
    fn restart(&mut self)
        ensures
            final(self).delta_millis() == old(self).delta_millis(),
            final(self).stopped() == old(self).stopped(),
    {
        self.watch = std::time::SystemTime::now();
        self.start = match elapsed_nanos(&self.watch) {
            Some(v) => v,
            None => 0,
        };
    }

    /// Records `reading`, the nanoseconds since the watch was set, as the end
    /// of the current span: the milliseconds since the last mark. A reading
    /// that is missing or lies before the mark records nothing and gives
    /// `None`.
    pub fn advance(&mut self, reading: Option<u128>) -> (r: Option<u128>)
        ensures
            reading is Some && old(self).start_nanos() <= reading->Some_0 ==> r == Some(
                millis_of((reading->Some_0 - old(self).start_nanos()) as u128),
            ),
            r matches Some(ms) ==> final(self).delta_millis() == ms,
            r is None ==> final(self).delta_millis() == old(self).delta_millis(),
            r is None <==> (reading is None || old(self).start_nanos() > reading->Some_0),
            final(self).start_nanos() == old(self).start_nanos(),
            final(self).stopped() == old(self).stopped(),
    {
        match reading {
            Some(v) => match span_millis(self.start, v) {
                Some(ms) => {
                    self.delta_time = ms;
                    Some(ms)
                },
                None => None,
            },
            None => None,
        }
    }

    /// The milliseconds since the last mark, kept as the frame delta. When
    /// the clock reads earlier than the mark the watch is set again at now
    /// and 0 is returned.
    pub fn update(&mut self) -> (r: u128)
        ensures
            final(self).stopped() == old(self).stopped(),
            (r == final(self).delta_millis() && final(self).start_nanos() == old(self).start_nanos())
                || (r == 0 && final(self).delta_millis() == old(self).delta_millis()),
    {
        let reading = elapsed_nanos(&self.watch);
        match self.advance(reading) {
            Some(ms) => ms,
            None => {
                self.restart();
                0
            },
        }
    }

    /// The milliseconds since the watch was set, or 0 when the clock reads
    /// earlier than that.
    pub fn elapsed(&self) -> (r: u128) {
        reading_millis(elapsed_nanos(&self.watch))
    }

    /// Moves the mark to `reading` and gives its milliseconds; a missing
    /// reading changes nothing and gives 0.
    pub fn mark(&mut self, reading: Option<u128>) -> (r: u128)
        ensures
            reading matches Some(v) ==> final(self).start_nanos() == v && r == millis_of(v),
            reading is None ==> final(self).start_nanos() == old(self).start_nanos() && r == 0,
            final(self).delta_millis() == old(self).delta_millis(),
            final(self).stopped() == old(self).stopped(),
    {
        match reading {
            Some(v) => {
                self.start = v;
                v / 1_000_000
            },
            None => 0,
        }
    }

    /// Moves the mark to now and gives the milliseconds since the watch was
    /// set; 0 when the clock reads earlier than that.
    pub fn get_current(&mut self) -> (r: u128)
        ensures
            r == 0 || r == millis_of(final(self).start_nanos()),
            final(self).delta_millis() == old(self).delta_millis(),
            final(self).stopped() == old(self).stopped(),
    {
        let reading = elapsed_nanos(&self.watch);
        self.mark(reading)
    }

    /// The milliseconds of the last mark.
    pub fn get_last(&self) -> (r: u128)
        ensures
            r == millis_of(self.start_nanos()),
    {
        self.start / 1_000_000
    }

    pub fn is_stop(&self) -> (r: bool)
        ensures
            r == self.stopped(),
    {
        self.stop
    }

    pub fn stop(&mut self, stop: bool)
        ensures
            final(self).stopped() == stop,
            final(self).start_nanos() == old(self).start_nanos(),
            final(self).delta_millis() == old(self).delta_millis(),
    {
        self.stop = stop;
    }
}

/// The frames per second that `requestAnimationFrame` runs at, at least.
pub const FPS: u128 = 60;

/// How a timer repeats.
#[derive(PartialEq, Eq, Structural, Clone, Copy, Debug)]
pub enum TimeType {
    /// The animation frame callback.
    Loop,
    /// Fires once.
    Timeout,
    /// Fires each time its delay has passed.
    Interval,
}

/// What the schedule knows of a timer, apart from the clock reading it was
/// last set at.
pub struct TimerView {
    pub id: i32,
    pub delay: u128,
    pub kind: TimeType,
    pub start: u128,
    pub runs: u32,
    pub dt: u128,
    pub deleted: bool,
}

/// Whether a timer whose clock shows `elapsed` milliseconds fires: its delay
/// has passed since its start, and it is not a timeout that already fired.
pub open spec fn fires(t: TimerView, elapsed: u128) -> bool {
    t.start <= elapsed && elapsed - t.start >= t.delay && !(t.kind == TimeType::Timeout && t.runs
        >= 1)
}

/// A scheduled script callback.
pub struct EvTime {
    id: i32,
    delay: u128,
    timetype: TimeType,
    start: u128,
    execute_num: u32,
    time: std::time::SystemTime,
    dt: u128,
    delete: bool,
}

impl View for EvTime {
    type V = TimerView;

    closed spec fn view(&self) -> TimerView {
        TimerView {
            id: self.id,
            delay: self.delay,
            kind: self.timetype,
            start: self.start,
            runs: self.execute_num,
            dt: self.dt,
            deleted: self.delete,
        }
    }
}

impl EvTime {
    /// A timer that has not fired yet, set now.
    pub fn new(id: i32, delay: u128, kind: TimeType) -> (r: Self)
        ensures
            r@ == (TimerView { id, delay, kind, start: 0, runs: 0, dt: 0, deleted: false }),
    {
        EvTime {
            id,
            delay,
            timetype: kind,
            start: 0,
            execute_num: 0,
            time: std::time::SystemTime::now(),
            dt: 0,
            delete: false,
        }
    }

    pub fn id(&self) -> (r: i32)
        ensures
            r == self@.id,
    {
        self.id
    }

    pub fn delay(&self) -> (r: u128)
        ensures
            r == self@.delay,
    {
        self.delay
    }

    pub fn kind(&self) -> (r: TimeType)
        ensures
            r == self@.kind,
    {
        self.timetype
    }

    /// How many times the timer fired.
    pub fn execute_num(&self) -> (r: u32)
        ensures
            r == self@.runs,
    {
        self.execute_num
    }

    /// The milliseconds that the last animation frame took.
    pub fn dt(&self) -> (r: u128)
        ensures
            r == self@.dt,
    {
        self.dt
    }

    pub fn is_deleted(&self) -> (r: bool)
        ensures
            r == self@.deleted,
    {
        self.delete
    }

    /// Fires the timer if `elapsed`, the milliseconds its clock shows, says
    /// it is due: its run count goes up (stopping at the largest count) and
    /// it is set again at now. A missing reading is never due.
    pub fn fire_if_due(&mut self, elapsed: Option<u128>) -> (r: bool)
        ensures
            r == (elapsed is Some && fires(old(self)@, elapsed->Some_0)),
            r ==> final(self)@ == (TimerView {
                start: 0,
                runs: if old(self)@.runs < u32::MAX {
                    (old(self)@.runs + 1) as u32
                } else {
                    u32::MAX
                },
                ..old(self)@
            }),
            !r ==> final(self)@ == old(self)@,
    {
        let ms = match elapsed {
            Some(ms) => ms,
            None => {
                return false;
            },
        };
        if ms < self.start || ms - self.start < self.delay {
            return false;
        }
        if self.timetype == TimeType::Timeout && self.execute_num >= 1 {
            return false;
        }
        if self.execute_num < u32::MAX {
            self.execute_num = self.execute_num + 1;
        }
        self.start = 0;
        self.time = std::time::SystemTime::now();
        true
    }

    /// The milliseconds that the timer's clock shows, when it shows any.
    fn elapsed_millis(&self) -> (r: Option<u128>) {
        match elapsed_nanos(&self.time) {
            Some(v) => Some(v / 1_000_000),
            None => None,
        }
    }
}

/// The delay between animation frames for a requested rate in frames per
/// second: the default rate when none is given, and never faster than it.
pub open spec fn frame_delay(rate: Option<u128>) -> u128 {
    match rate {
        None => 1000u128 / FPS,
        Some(dt) => 1000u128 / (if dt < FPS { FPS } else { dt }),
    }
}

/// Whether the next animation frame is due: more than `delay` milliseconds
/// lie between the last frame mark and now.
pub open spec fn frame_is_due(elapsed: u128, last: u128, delay: u128) -> bool {
    last <= elapsed && elapsed - last > delay
}

pub fn frame_due(elapsed: u128, last: u128, delay: u128) -> (r: bool)
    ensures
        r == frame_is_due(elapsed, last, delay),
{
    last <= elapsed && elapsed - last > delay
}

/// What the frame loop does next with the animation frame callback.
pub enum FrameStep {
    /// No callback was requested.
    Idle,
    /// The frame clock was stopped: the loop ends.
    Stopped,
    /// The next frame is not due yet.
    Wait,
    /// Call the callback stored under `id` with `dt`, the milliseconds the
    /// last frame took, then report with `frame_done`.
    Fire { id: i32, dt: u128 },
}

/// The timers of one interpreter heap and its frame clock.
pub struct Timers {
    events: Vec<EvTime>,
    gid: i32,
    raf: Option<EvTime>,
    stopwatch: Stopwatch,
}

/// The views of a list of timers.
pub open spec fn views_of(s: Seq<EvTime>) -> Seq<TimerView> {
    s.map_values(|t: EvTime| t@)
}

impl Timers {
    pub closed spec fn events_view(self) -> Seq<TimerView> {
        views_of(self.events@)
    }

    /// The id that the next timer receives.
    pub closed spec fn next_id(self) -> i32 {
        self.gid
    }

    pub closed spec fn frame(self) -> Option<TimerView> {
        match self.raf {
            Some(t) => Some(t@),
            None => None,
        }
    }

    pub closed spec fn frames_stopped(self) -> bool {
        self.stopwatch.stopped()
    }

    /// The scheduled timers, in order.
    pub fn events(&self) -> (r: &Vec<EvTime>)
        ensures
            views_of(r@) == self.events_view(),
    {
        &self.events
    }

    /// The animation frame callback, if one was requested.
    pub fn animation_frame(&self) -> (r: Option<&EvTime>)
        ensures
            r is None <==> self.frame() is None,
            r matches Some(t) ==> self.frame() == Some(t@),
    {
        match &self.raf {
            Some(t) => Some(t),
            None => None,
        }
    }

    /// An empty schedule whose first timer gets id 1.
    pub fn new() -> (r: Self)
        ensures
            r.events_view().len() == 0,
            r.next_id() == 1,
            r.frame() is None,
            !r.frames_stopped(),
    {
        Timers { events: Vec::new(), gid: 1, raf: None, stopwatch: Stopwatch::new() }
    }

    /// Hands out the next timer id; after the largest id the count starts
    /// again at 0.
    pub fn generator_id(&mut self) -> (r: i32)
        ensures
            r == old(self).next_id(),
            final(self).next_id() == if old(self).next_id() >= i32::MAX {
                0
            } else {
                (old(self).next_id() + 1) as i32
            },
            final(self).events_view() == old(self).events_view(),
            final(self).frame() == old(self).frame(),
            final(self).frames_stopped() == old(self).frames_stopped(),
    {
        let id = self.gid;
        if id >= i32::MAX {
            self.gid = 0;
        } else {
            self.gid = id + 1;
        }
        id
    }

    fn add(&mut self, delay: u128, kind: TimeType) -> (r: i32)
        ensures
            r == old(self).next_id(),
            final(self).next_id() == if old(self).next_id() >= i32::MAX {
                0
            } else {
                (old(self).next_id() + 1) as i32
            },
            final(self).events_view() == old(self).events_view().push(
                TimerView { id: r, delay, kind, start: 0, runs: 0, dt: 0, deleted: false },
            ),
            final(self).frame() == old(self).frame(),
            final(self).frames_stopped() == old(self).frames_stopped(),
    {
        let id = self.generator_id();
        let t = EvTime::new(id, delay, kind);
        self.events.push(t);
        proof {
            assert(views_of(self.events@) =~= views_of(old(self).events@).push(
                TimerView { id, delay, kind, start: 0, runs: 0, dt: 0, deleted: false },
            ));
        }
        id
    }

    /// Schedules a callback to fire once, `delay` milliseconds from now, and
    /// gives its id.
    pub fn set_timeout(&mut self, delay: u128) -> (r: i32)
        ensures
            r == old(self).next_id(),
            final(self).events_view() == old(self).events_view().push(
                TimerView {
                    id: r,
                    delay,
                    kind: TimeType::Timeout,
                    start: 0,
                    runs: 0,
                    dt: 0,
                    deleted: false,
                },
            ),
            final(self).frame() == old(self).frame(),
            final(self).next_id() == if old(self).next_id() >= i32::MAX {
                0
            } else {
                (old(self).next_id() + 1) as i32
            },
            final(self).frames_stopped() == old(self).frames_stopped(),
    {
        self.add(delay, TimeType::Timeout)
    }

    /// Schedules a callback to fire every `delay` milliseconds, and gives its
    /// id.
    pub fn set_interval(&mut self, delay: u128) -> (r: i32)
        ensures
            r == old(self).next_id(),
            final(self).events_view() == old(self).events_view().push(
                TimerView {
                    id: r,
                    delay,
                    kind: TimeType::Interval,
                    start: 0,
                    runs: 0,
                    dt: 0,
                    deleted: false,
                },
            ),
            final(self).frame() == old(self).frame(),
            final(self).next_id() == if old(self).next_id() >= i32::MAX {
                0
            } else {
                (old(self).next_id() + 1) as i32
            },
            final(self).frames_stopped() == old(self).frames_stopped(),
    {
        self.add(delay, TimeType::Interval)
    }

    /// Marks for removal each timer with id `id` and kind `kind`.
    fn mark_deleted(&mut self, id: i32, kind: TimeType)
        ensures
            final(self).events_view() == old(self).events_view().map_values(
                |t: TimerView| cleared(t, id, kind),
            ),
            final(self).next_id() == old(self).next_id(),
            final(self).frame() == old(self).frame(),
            final(self).frames_stopped() == old(self).frames_stopped(),
    {
        let mut i: usize = 0;
        while i < self.events.len()
            invariant
                i <= self.events@.len(),
                self.events@.len() == old(self).events@.len(),
                forall|j: int|
                    0 <= j < i ==> #[trigger] self.events@[j]@ == cleared(
                        old(self).events@[j]@,
                        id,
                        kind,
                    ),
                forall|j: int| i <= j < self.events@.len() ==> #[trigger] self.events@[j] == old(
                    self,
                ).events@[j],
                self.gid == old(self).gid,
                self.raf == old(self).raf,
                self.stopwatch == old(self).stopwatch,
            decreases self.events@.len() - i,
        {
            if self.events[i].id == id && self.events[i].timetype == kind {
                self.events[i].delete = true;
            }
            i = i + 1;
        }
        proof {
            assert(views_of(self.events@) =~= views_of(old(self).events@).map_values(
                |t: TimerView| cleared(t, id, kind),
            ));
        }
    }

    /// Cancels the timeout with id `id`; it is dropped before the next scan.
    pub fn clear_timeout(&mut self, id: i32)
        ensures
            final(self).events_view() == old(self).events_view().map_values(
                |t: TimerView| cleared(t, id, TimeType::Timeout),
            ),
            final(self).next_id() == old(self).next_id(),
            final(self).frame() == old(self).frame(),
    {
        self.mark_deleted(id, TimeType::Timeout)
    }

    /// Cancels the interval with id `id`; it is dropped before the next scan.
    pub fn clear_interval(&mut self, id: i32)
        ensures
            final(self).events_view() == old(self).events_view().map_values(
                |t: TimerView| cleared(t, id, TimeType::Interval),
            ),
            final(self).next_id() == old(self).next_id(),
            final(self).frame() == old(self).frame(),
    {
        self.mark_deleted(id, TimeType::Interval)
    }

    /// Registers the animation frame callback, running at `rate` frames per
    /// second: the default rate when `None`, and the default rate too for a
    /// lower one. Only one may be registered: a second request gives `None`
    /// and changes nothing.
    pub fn request_animation_frame(&mut self, rate: Option<u128>) -> (r: Option<i32>)
        ensures
            old(self).frame() is Some ==> r is None && final(self).frame() == old(self).frame()
                && final(self).next_id() == old(self).next_id(),
            old(self).frame() is None ==> r == Some(old(self).next_id()) && final(self).frame()
                == Some(
                TimerView {
                    id: old(self).next_id(),
                    delay: frame_delay(rate),
                    kind: TimeType::Loop,
                    start: 0,
                    runs: 0,
                    dt: 0,
                    deleted: false,
                },
            ),
            final(self).events_view() == old(self).events_view(),
    {
        if self.raf.is_some() {
            return None;
        }
        let delay = match rate {
            None => 1000 / FPS,
            Some(dt) => 1000 / (if dt < FPS {
                FPS
            } else {
                dt
            }),
        };
        let id = self.generator_id();
        self.raf = Some(EvTime::new(id, delay, TimeType::Loop));
        Some(id)
    }

    /// Drops the cancelled timers and fires each remaining one that is due,
    /// giving the ids of the fired ones in schedule order. The timers that
    /// stay are the uncancelled ones, in order, each as it was or fired.
    pub fn take_due(&mut self) -> (r: Vec<i32>)
        ensures
            final(self).events_view().len() == live(old(self).events_view()).len(),
            forall|i: int|
                0 <= i < final(self).events_view().len() ==> after_scan(
                    live(old(self).events_view())[i],
                    #[trigger] final(self).events_view()[i],
                ),
            forall|k: int|
                0 <= k < r@.len() ==> ids_of(final(self).events_view()).contains(#[trigger] r@[k]),
            final(self).next_id() == old(self).next_id(),
            final(self).frame() == old(self).frame(),
    {
        let ghost all = views_of(self.events@);
        let mut rest: Vec<EvTime> = Vec::new();
        std::mem::swap(&mut self.events, &mut rest);
        let mut kept: Vec<EvTime> = Vec::new();
        let mut fired: Vec<i32> = Vec::new();
        let ghost before: Seq<TimerView> = Seq::empty();
        let ghost at: Seq<int> = Seq::empty();
        proof {
            assert(before + live(views_of(rest@)) =~= live(all));
        }
        while rest.len() > 0
            invariant
                before + live(views_of(rest@)) == live(all),
                before.len() == kept@.len(),
                forall|i: int| 0 <= i < kept@.len() ==> after_scan(before[i], #[trigger] kept@[i]@),
                at.len() == fired@.len(),
                forall|k: int|
                    0 <= k < at.len() ==> 0 <= #[trigger] at[k] < kept@.len() && fired@[k]
                        == kept@[at[k]]@.id,
                self.events@.len() == 0,
                self.gid == old(self).gid,
                self.raf == old(self).raf,
                self.stopwatch == old(self).stopwatch,
            decreases rest@.len(),
        {
            let ghost prev = views_of(rest@);
            let mut t = rest.remove(0);
            proof {
                assert(views_of(rest@) =~= prev.drop_first());
                assert(prev[0] == t@);
            }
            if t.delete {
                proof {
                    assert(live(prev) == live(prev.drop_first()));
                }
            } else {
                let elapsed = t.elapsed_millis();
                let ghost pre = t@;
                let did_fire = t.fire_if_due(elapsed);
                if did_fire {
                    fired.push(t.id);
                    proof {
                        at = at.push(kept@.len() as int);
                    }
                }
                kept.push(t);
                proof {
                    assert(live(prev) == seq![pre] + live(prev.drop_first()));
                    assert(before.push(pre) + live(views_of(rest@)) =~= before + live(prev));
                    before = before.push(pre);
                    assert(after_scan(before[before.len() - 1], kept@[kept@.len() - 1]@));
                    assert forall|k: int| 0 <= k < at.len() implies 0 <= #[trigger] at[k]
                        < kept@.len() && fired@[k] == kept@[at[k]]@.id by {
                    }
                }
            }
        }
        proof {
            assert(live(views_of(rest@)) =~= Seq::<TimerView>::empty());
            assert(before =~= live(all));
        }
        std::mem::swap(&mut self.events, &mut kept);
        proof {
            assert forall|k: int| 0 <= k < fired@.len() implies ids_of(
                self.events_view(),
            ).contains(#[trigger] fired@[k]) by {
                let i = at[k];
                assert(ids_of(self.events_view())[i] == fired@[k]);
            }
        }
        fired
    }

    /// Decides what the frame loop does next with the animation frame
    /// callback. When its frame is due the frame clock is marked.
    pub fn frame_step(&mut self) -> (r: FrameStep)
        ensures
            old(self).frame() is None ==> r is Idle,
            old(self).frame() is Some && old(self).frames_stopped() ==> r is Stopped,
            r is Fire ==> (old(self).frame() is Some && r->Fire_id == old(self).frame()->Some_0.id
                && r->Fire_dt == old(self).frame()->Some_0.dt),
            final(self).events_view() == old(self).events_view(),
            final(self).frame() == old(self).frame(),
            final(self).next_id() == old(self).next_id(),
            final(self).frames_stopped() == old(self).frames_stopped(),
    {
        match &self.raf {
            None => FrameStep::Idle,
            Some(t) => {
                if self.stopwatch.is_stop() {
                    return FrameStep::Stopped;
                }
                let elapsed = self.stopwatch.elapsed();
                let last = self.stopwatch.get_last();
                if frame_due(elapsed, last, t.delay) {
                    let id = t.id;
                    let dt = t.dt;
                    let _ = self.stopwatch.get_current();
                    FrameStep::Fire { id, dt }
                } else {
                    FrameStep::Wait
                }
            },
        }
    }

    /// Records, after the animation frame callback ran, how long the frame
    /// took; the next call of the callback receives it.
    pub fn frame_done(&mut self)
        ensures
            final(self).events_view() == old(self).events_view(),
            old(self).frame() is Some ==> (final(self).frame() is Some && final(self).frame()->Some_0
                == (TimerView { dt: final(self).frame()->Some_0.dt, ..old(self).frame()->Some_0 })),
            old(self).frame() is None ==> final(self).frame() is None,
            final(self).next_id() == old(self).next_id(),
            final(self).frames_stopped() == old(self).frames_stopped(),
    {
        let mut raf = None;
        std::mem::swap(&mut self.raf, &mut raf);
        match raf {
            Some(mut t) => {
                t.dt = self.stopwatch.update();
                self.raf = Some(t);
            },
            None => {},
        }
    }

    /// Stops or restarts the frame clock; a stopped clock ends the frame
    /// loop.
    pub fn stop_frames(&mut self, stop: bool)
        ensures
            final(self).frames_stopped() == stop,
            final(self).events_view() == old(self).events_view(),
            final(self).frame() == old(self).frame(),
            final(self).next_id() == old(self).next_id(),
    {
        self.stopwatch.stop(stop);
    }
}

/// A timer as `clear` leaves it: marked for removal where its id and kind
/// match.
pub open spec fn cleared(t: TimerView, id: i32, kind: TimeType) -> TimerView {
    if t.id == id && t.kind == kind {
        TimerView { deleted: true, ..t }
    } else {
        t
    }
}

/// The timers not marked for removal, in order.
pub open spec fn live(s: Seq<TimerView>) -> Seq<TimerView>
    decreases s.len(),
{
    if s.len() == 0 {
        s
    } else if s[0].deleted {
        live(s.drop_first())
    } else {
        seq![s[0]] + live(s.drop_first())
    }
}

/// The ids of a list of timers.
pub open spec fn ids_of(s: Seq<TimerView>) -> Seq<i32> {
    s.map_values(|t: TimerView| t.id)
}

/// A timer after a scan: as it was, or fired.
pub open spec fn after_scan(before: TimerView, after: TimerView) -> bool {
    after == before || after == (TimerView {
        start: 0,
        runs: if before.runs < u32::MAX {
            (before.runs + 1) as u32
        } else {
            u32::MAX
        },
        ..before
    })
}

} // verus!
