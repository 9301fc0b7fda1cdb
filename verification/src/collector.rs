//! The state that the collector thread and the drawing share: which
//! collectors run next, and the flags and events between them.
use vstd::prelude::*;
use crate::event::{Event, EventEnum};

verus! {

/// The collectors of the monitor.
#[derive(Clone, Copy, PartialEq, Eq, Structural)]
pub enum Collectors {
    CpuCollector,
    NetCollector,
    ProcCollector,
    MemCollector,
}

/// A copy of a list of collectors.
fn dup_collectors(v: &Vec<Collectors>) -> (r: Vec<Collectors>)
    ensures
        r@ == v@,
{
    let mut r: Vec<Collectors> = Vec::new();
    let mut i: usize = 0;
    while i < v.len()
        invariant
            i <= v.len(),
            r@ == v@.take(i as int),
        decreases v.len() - i,
    {
        r.push(v[i]);
        assert(r@ =~= v@.take(i + 1));
        i = i + 1;
    }
    assert(v@.take(v.len() as int) =~= v@);
    r
}

/// The state of the collection: whether the collector thread runs or
/// stops, what the next round collects and draws, and the events that
/// start a round and tell that it is done.
pub struct Collector {
    pub stopping: bool,
    pub started: bool,
    pub draw_now: bool,
    pub redraw: bool,
    pub only_draw: bool,
    pub collect_run: Event,
    pub collect_idle: Event,
    pub collect_done: Event,
    pub collect_queue: Vec<Collectors>,
    pub default_collect_queue: Vec<Collectors>,
    pub collect_interrupt: bool,
    pub proc_interrupt: bool,
    pub use_draw_list: bool,
}

/// Where the collector thread stands: between passes, or inside the
/// queue of a round, with the buffers drawn so far and what it was told at
/// the start of the pass.
pub struct RunnerState {
    /// Whether the thread is to stop: read when the thread starts and at
    /// the end of every round.
    pub stopping: bool,
    pub in_queue: bool,
    pub draw_buffers: Vec<String>,
    pub clock_set: bool,
    pub update_second: bool,
    pub menu_active: bool,
}

/// What the thread is told: a new pass has every part locked, with
/// whether a clock format is set, whether the update time is one second
/// and whether the menu is open; or the collector it was last told to run
/// has run, with the name of its draw buffer.
pub enum RunnerEvent {
    Pass { clock_set: bool, update_second: bool, menu_active: bool },
    Done { buffer: String },
}

/// What the thread does next. `early_clock` draws the clock before
/// anything else (a pass with a clock format at another update time);
/// `Wait` then sleeps and starts a new pass; `Run` collects the figures of
/// `collector` (when `collect`) and draws it; `Finish` prints the buffers
/// in `out` (all of them for an empty list), draws the clock when
/// `late_clock`, and the round is done.
pub enum RunnerAction {
    Exit,
    Wait { early_clock: bool },
    Run { early_clock: bool, collector: Collectors, collect: bool },
    Finish { early_clock: bool, out: Option<Vec<String>>, late_clock: bool },
}

/// The texts of a list of buffer names, when there is one.
pub open spec fn out_view(o: Option<Vec<String>>) -> Option<Seq<Seq<char>>> {
    match o {
        Some(v) => Some(crate::brshtop_box::views(&v@)),
        None => None,
    }
}

/// The buffers a finished round prints: all it drew from its own list, or
/// all buffers for a round of the default collectors; nothing while the
/// menu is open, when the round was cut short, or when it is not to draw.
pub open spec fn finish_out(c: Collector, menu_active: bool, bufs: Seq<Seq<char>>) -> Option<Seq<Seq<char>>> {
    if c.draw_now && !menu_active && !c.collect_interrupt {
        Some(if c.use_draw_list { bufs } else { Seq::empty() })
    } else {
        None
    }
}

/// The collector at the start of a round: not cut short, not asked to run
/// again, idle and not done.
pub open spec fn round_start(c: Collector) -> Collector {
    Collector {
        collect_interrupt: false,
        collect_run: Event { t: EventEnum::Flag(false) },
        collect_idle: Event { t: EventEnum::Flag(true) },
        collect_done: Event { t: EventEnum::Flag(false) },
        ..c
    }
}

/// The collector after a round: idle and done.
pub open spec fn round_end(c: Collector) -> Collector {
    Collector { collect_idle: Event { t: EventEnum::Flag(true) }, collect_done: Event { t: EventEnum::Flag(true) }, ..c }
}

/// Whether the thread, with the collector `c` and the buffers `bufs`
/// drawn, went on to the next collector of the queue or finished the
/// round, as `a`, `c2` and `r2` tell.
pub open spec fn next_in_queue(c: Collector, r: RunnerState, bufs: Seq<Seq<char>>, early: bool, c2: Collector, r2: RunnerState, a: RunnerAction) -> bool {
    if c.collect_queue@.len() > 0 {
        &&& a == RunnerAction::Run { early_clock: early, collector: c.collect_queue@.last(), collect: !c.only_draw }
        &&& c2 == (Collector { collect_queue: c2.collect_queue, ..c })
        &&& c2.collect_queue@ == c.collect_queue@.drop_last()
        &&& r2 == (RunnerState { in_queue: true, draw_buffers: r2.draw_buffers, ..r })
        &&& crate::brshtop_box::views(&r2.draw_buffers@) == bufs
    } else {
        finished(c, r, bufs, early, c2, r2, a)
    }
}

/// Whether the thread finished the round: it prints what `finish_out`
/// says, draws the clock when the update time is one second, sets the
/// collector idle and done, and reads whether to stop.
pub open spec fn finished(c: Collector, r: RunnerState, bufs: Seq<Seq<char>>, early: bool, c2: Collector, r2: RunnerState, a: RunnerAction) -> bool {
    &&& a matches RunnerAction::Finish { early_clock, out, late_clock } && early_clock == early
        && out_view(out) == finish_out(c, r.menu_active, bufs) && late_clock == (r.clock_set && r.update_second)
    &&& c2 == round_end(c)
    &&& r2 == (RunnerState { in_queue: false, stopping: c.stopping, draw_buffers: r2.draw_buffers, ..r })
    &&& crate::brshtop_box::views(&r2.draw_buffers@) == bufs
}

impl RunnerState {
    /// The thread as it starts: between passes, stopping as `collector`
    /// is, no buffers drawn.
    pub fn new(collector: &Collector) -> (r: Self)
        ensures
            r.stopping == collector.stopping,
            !r.in_queue,
            r.draw_buffers@.len() == 0,
            !r.clock_set && !r.update_second && !r.menu_active,
    {
        RunnerState {
            stopping: collector.stopping,
            in_queue: false,
            draw_buffers: Vec::new(),
            clock_set: false,
            update_second: false,
            menu_active: false,
        }
    }
}

/// The buffer names with `b` added.
fn push_buffer(v: &mut Vec<String>, b: String)
    ensures
        crate::brshtop_box::views(&final(v)@) == crate::brshtop_box::views(&old(v)@).push(b@),
{
    let ghost before = crate::brshtop_box::views(&v@);
    v.push(b);
    assert(crate::brshtop_box::views(&v@) =~= before.push(b@));
}

impl Collector {
    /// A collector not started, idle, with nothing to collect.
    pub fn new() -> (c: Self)
        ensures
            !c.stopping && !c.started && !c.draw_now && !c.redraw && !c.only_draw,
            c.collect_run.t == EventEnum::Flag(false),
            c.collect_done.t == EventEnum::Flag(false),
            c.collect_idle.t == EventEnum::Flag(true),
            c.collect_queue@.len() == 0,
            c.default_collect_queue@.len() == 0,
            !c.collect_interrupt && !c.proc_interrupt && !c.use_draw_list,
    {
        Collector {
            stopping: false,
            started: false,
            draw_now: false,
            redraw: false,
            only_draw: false,
            collect_run: Event { t: EventEnum::Flag(false) },
            collect_idle: Event { t: EventEnum::Flag(true) },
            collect_done: Event { t: EventEnum::Flag(false) },
            collect_queue: Vec::new(),
            default_collect_queue: Vec::new(),
            collect_interrupt: false,
            proc_interrupt: false,
            use_draw_list: false,
        }
    }

    /// Asks for a round of collection: of `collectors`, drawn from their
    /// own list, or, when `collectors` is empty, of the default ones. The
    /// interrupt flags are cleared; the round starts by setting
    /// `collect_run`.
    pub fn collect(&mut self, collectors: Vec<Collectors>, draw_now: bool, interrupt: bool, proc_interrupt: bool, redraw: bool, only_draw: bool)
        ensures
            *final(self) == (Collector {
                collect_interrupt: false,
                proc_interrupt: false,
                use_draw_list: collectors@.len() > 0,
                draw_now: draw_now,
                redraw: redraw,
                only_draw: only_draw,
                collect_queue: final(self).collect_queue,
                collect_run: Event { t: EventEnum::Flag(true) },
                ..*old(self)
            }),
            final(self).collect_queue@ == (if collectors@.len() > 0 { collectors@ } else { old(self).default_collect_queue@ }),
    {
        self.collect_interrupt = interrupt;
        self.proc_interrupt = proc_interrupt;
        self.collect_interrupt = false;
        self.proc_interrupt = false;
        self.use_draw_list = false;
        self.draw_now = draw_now;
        self.redraw = redraw;
        self.only_draw = only_draw;
        if collectors.len() > 0 {
            self.collect_queue = collectors;
            self.use_draw_list = true;
        } else {
            self.collect_queue = dup_collectors(&self.default_collect_queue);
        }
        self.collect_run.replace_self(EventEnum::Flag(true));
    }

    /// Stops a started collector whose thread is alive (`worker_alive`):
    /// marks it stopping and no longer started, empties the queue and sets
    /// the idle and done events. A collector already stopping is left as
    /// it is.
    pub fn stop(&mut self, worker_alive: bool)
        requires
            old(self).stopping || (old(self).started && worker_alive),
        ensures
            old(self).stopping ==> *final(self) == *old(self),
            !old(self).stopping ==> *final(self) == (Collector {
                stopping: true,
                started: false,
                collect_queue: final(self).collect_queue,
                collect_idle: Event { t: EventEnum::Flag(true) },
                collect_done: Event { t: EventEnum::Flag(true) },
                ..*old(self)
            }),
            !old(self).stopping ==> final(self).collect_queue@.len() == 0,
    {
        if !self.stopping {
            if self.started && worker_alive {
                self.stopping = true;
                self.started = false;
                self.collect_queue = Vec::new();
                self.collect_idle.replace_self(EventEnum::Flag(true));
                self.collect_done.replace_self(EventEnum::Flag(true));
            }
        }
    }

    /// One decision of the collector thread, for event `event` (see
    /// `RunnerEvent`, `RunnerAction`). At the start of a pass it stops
    /// when it was told to; waits when no round was asked for; otherwise
    /// starts the round and runs the last collector of the queue. After a
    /// collector ran, its buffer is kept when the round draws from its own
    /// list, and the next collector runs unless the round was cut short or
    /// the queue is empty, when the round finishes.
    pub fn runner(&mut self, run: &mut RunnerState, event: RunnerEvent) -> (a: RunnerAction)
        requires
            old(run).in_queue <==> event is Done,
        ensures
            match event {
                RunnerEvent::Pass { clock_set, update_second, menu_active } => {
                    let early = clock_set && !update_second;
                    if old(run).stopping {
                        &&& a is Exit
                        &&& *final(self) == *old(self)
                        &&& *final(run) == *old(run)
                    } else if old(self).collect_run.t != EventEnum::Flag(true) {
                        &&& a == RunnerAction::Wait { early_clock: early }
                        &&& *final(self) == *old(self)
                        &&& *final(run) == *old(run)
                    } else {
                        next_in_queue(
                            round_start(*old(self)),
                            RunnerState { clock_set, update_second, menu_active, ..*old(run) },
                            Seq::empty(),
                            early,
                            *final(self),
                            *final(run),
                            a,
                        )
                    }
                },
                RunnerEvent::Done { buffer } => {
                    let bufs = if old(self).use_draw_list {
                        crate::brshtop_box::views(&old(run).draw_buffers@).push(buffer@)
                    } else {
                        crate::brshtop_box::views(&old(run).draw_buffers@)
                    };
                    if old(self).collect_interrupt {
                        finished(*old(self), *old(run), bufs, false, *final(self), *final(run), a)
                    } else {
                        next_in_queue(*old(self), *old(run), bufs, false, *final(self), *final(run), a)
                    }
                },
            },
    {
        let early: bool;
        match event {
            RunnerEvent::Pass { clock_set, update_second, menu_active } => {
                if run.stopping {
                    return RunnerAction::Exit;
                }
                early = clock_set && !update_second;
                if !self.collect_run.is_set() {
                    return RunnerAction::Wait { early_clock: early };
                }
                run.draw_buffers = Vec::new();
                run.clock_set = clock_set;
                run.update_second = update_second;
                run.menu_active = menu_active;
                self.collect_interrupt = false;
                self.collect_run.replace_self(EventEnum::Flag(false));
                self.collect_idle.replace_self(EventEnum::Flag(true));
                self.collect_done.replace_self(EventEnum::Flag(false));
                proof {
                    assert(crate::brshtop_box::views(&run.draw_buffers@) =~= Seq::<Seq<char>>::empty());
                }
            },
            RunnerEvent::Done { buffer } => {
                early = false;
                if self.use_draw_list {
                    push_buffer(&mut run.draw_buffers, buffer);
                }
                if self.collect_interrupt {
                    return self.finish_round(run, early);
                }
            },
        }
        if self.collect_queue.len() > 0 {
            let c = self.collect_queue.pop().unwrap();
            run.in_queue = true;
            RunnerAction::Run { early_clock: early, collector: c, collect: !self.only_draw }
        } else {
            self.finish_round(run, early)
        }
    }

    /// Finishes a round (see `finished`).
    fn finish_round(&mut self, run: &mut RunnerState, early: bool) -> (a: RunnerAction)
        ensures
            finished(*old(self), *old(run), crate::brshtop_box::views(&old(run).draw_buffers@), early, *final(self), *final(run), a),
    {
        let out = if self.draw_now && !run.menu_active && !self.collect_interrupt {
            if self.use_draw_list {
                Some(crate::brshtop_box::dup_strings(&run.draw_buffers))
            } else {
                Some(Vec::new())
            }
        } else {
            None
        };
        proof {
            if let Some(v) = &out {
                if !self.use_draw_list {
                    assert(crate::brshtop_box::views(&v@) =~= Seq::<Seq<char>>::empty());
                }
            }
        }
        self.collect_idle.replace_self(EventEnum::Flag(true));
        self.collect_done.replace_self(EventEnum::Flag(true));
        run.in_queue = false;
        run.stopping = self.stopping;
        RunnerAction::Finish { early_clock: early, out, late_clock: run.clock_set && run.update_second }
    }

    /// Whether the collector thread is to stop.
    pub fn get_stopping(&self) -> (r: bool)
        ensures
            r == self.stopping,
    {
        self.stopping
    }

    /// Sets whether the collector thread is to stop.
    pub fn set_stopping(&mut self, stopping: bool)
        ensures
            *final(self) == (Collector { stopping: final(self).stopping, ..*old(self) }),
            final(self).stopping == stopping,
    {
        self.stopping = stopping;
    }

    /// Whether the collector thread runs.
    pub fn get_started(&self) -> (r: bool)
        ensures
            r == self.started,
    {
        self.started
    }

    /// Sets whether the collector thread runs.
    pub fn set_started(&mut self, started: bool)
        ensures
            *final(self) == (Collector { started: final(self).started, ..*old(self) }),
            final(self).started == started,
    {
        self.started = started;
    }

    /// Whether a round draws when it is done.
    pub fn get_draw_now(&self) -> (r: bool)
        ensures
            r == self.draw_now,
    {
        self.draw_now
    }

    /// Sets whether a round draws when it is done.
    pub fn set_draw_now(&mut self, draw_now: bool)
        ensures
            *final(self) == (Collector { draw_now: final(self).draw_now, ..*old(self) }),
            final(self).draw_now == draw_now,
    {
        self.draw_now = draw_now;
    }

    /// Whether a round redraws everything.
    pub fn get_redraw(&self) -> (r: bool)
        ensures
            r == self.redraw,
    {
        self.redraw
    }

    /// Sets whether a round redraws everything.
    pub fn set_redraw(&mut self, redraw: bool)
        ensures
            *final(self) == (Collector { redraw: final(self).redraw, ..*old(self) }),
            final(self).redraw == redraw,
    {
        self.redraw = redraw;
    }

    /// Whether a round only draws.
    pub fn get_only_draw(&self) -> (r: bool)
        ensures
            r == self.only_draw,
    {
        self.only_draw
    }

    /// Sets whether a round only draws.
    pub fn set_only_draw(&mut self, only_draw: bool)
        ensures
            *final(self) == (Collector { only_draw: final(self).only_draw, ..*old(self) }),
            final(self).only_draw == only_draw,
    {
        self.only_draw = only_draw;
    }

    /// The event that starts a round.
    pub fn get_collect_run(&self) -> (r: Event)
        ensures
            r == self.collect_run,
    {
        self.collect_run
    }

    /// Sets the state of the event that starts a round.
    pub fn set_collect_run(&mut self, collect_run: EventEnum)
        ensures
            *final(self) == (Collector { collect_run: final(self).collect_run, ..*old(self) }),
            final(self).collect_run.t == collect_run,
    {
        self.collect_run.replace_self(collect_run);
    }

    /// The event that starts a round, in place.
    pub fn get_collect_run_reference(&self) -> (r: &Event)
        ensures
            *r == self.collect_run,
    {
        &self.collect_run
    }

    /// The event that tells that the collector waits.
    pub fn get_collect_idle(&self) -> (r: Event)
        ensures
            r == self.collect_idle,
    {
        self.collect_idle
    }

    /// Sets the state of the event that tells that the collector waits.
    pub fn set_collect_idle(&mut self, collect_idle: EventEnum)
        ensures
            *final(self) == (Collector { collect_idle: final(self).collect_idle, ..*old(self) }),
            final(self).collect_idle.t == collect_idle,
    {
        self.collect_idle.replace_self(collect_idle);
    }

    /// The event that tells that the collector waits, in place.
    pub fn get_collect_idle_reference(&self) -> (r: &Event)
        ensures
            *r == self.collect_idle,
    {
        &self.collect_idle
    }

    /// The event that tells that a round is done.
    pub fn get_collect_done(&self) -> (r: Event)
        ensures
            r == self.collect_done,
    {
        self.collect_done
    }

    /// Sets the state of the event that tells that a round is done.
    pub fn set_collect_done(&mut self, collect_done: EventEnum)
        ensures
            *final(self) == (Collector { collect_done: final(self).collect_done, ..*old(self) }),
            final(self).collect_done.t == collect_done,
    {
        self.collect_done.replace_self(collect_done);
    }

    /// The event that tells that a round is done, in place.
    pub fn get_collect_done_reference(&self) -> (r: &Event)
        ensures
            *r == self.collect_done,
    {
        &self.collect_done
    }

    /// A copy of the queue of collectors of the next round.
    pub fn get_collect_queue(&self) -> (r: Vec<Collectors>)
        ensures
            r@ == self.collect_queue@,
    {
        dup_collectors(&self.collect_queue)
    }

    /// Replaces the queue of collectors of the next round.
    pub fn set_collect_queue(&mut self, collect_queue: Vec<Collectors>)
        ensures
            *final(self) == (Collector { collect_queue: final(self).collect_queue, ..*old(self) }),
            final(self).collect_queue@ == collect_queue@,
    {
        self.collect_queue = collect_queue;
    }

    /// Adds `element` at the end of the queue of collectors of the next round.
    pub fn push_collect_queue(&mut self, element: Collectors)
        ensures
            *final(self) == (Collector { collect_queue: final(self).collect_queue, ..*old(self) }),
            final(self).collect_queue@ == old(self).collect_queue@.push(element),
    {
        self.collect_queue.push(element);
    }

    /// Takes the last collector off the queue of collectors of the next round, which is not empty.
    pub fn pop_collect_queue(&mut self) -> (r: Collectors)
        requires
            old(self).collect_queue@.len() > 0,
        ensures
            *final(self) == (Collector { collect_queue: final(self).collect_queue, ..*old(self) }),
            final(self).collect_queue@ == old(self).collect_queue@.drop_last(),
            r == old(self).collect_queue@.last(),
    {
        self.collect_queue.pop().unwrap()
    }

    /// Collector `index` of the queue of collectors of the next round, if there is one.
    pub fn get_collect_queue_index(&self, index: usize) -> (r: Option<Collectors>)
        ensures
            r == (if index < self.collect_queue@.len() { Some(self.collect_queue@[index as int]) } else { None }),
    {
        if index < self.collect_queue.len() {
            Some(self.collect_queue[index])
        } else {
            None
        }
    }

    /// Puts `element` in at position `index` of the queue of collectors of the next round; nothing, and
    /// the queue unchanged, where `index` lies past its end.
    pub fn set_collect_queue_index(&mut self, index: usize, element: Collectors) -> (r: Option<()>)
        ensures
            *final(self) == (Collector { collect_queue: final(self).collect_queue, ..*old(self) }),
            r is Some <==> index <= old(self).collect_queue@.len(),
            final(self).collect_queue@ == (if index <= old(self).collect_queue@.len() {
                old(self).collect_queue@.insert(index as int, element)
            } else {
                old(self).collect_queue@
            }),
    {
        if index > self.collect_queue.len() {
            None
        } else {
            self.collect_queue.insert(index, element);
            Some(())
        }
    }

    /// A copy of the list of collectors of a round that names none.
    pub fn get_default_collect_queue(&self) -> (r: Vec<Collectors>)
        ensures
            r@ == self.default_collect_queue@,
    {
        dup_collectors(&self.default_collect_queue)
    }

    /// Replaces the list of collectors of a round that names none.
    pub fn set_default_collect_queue(&mut self, default_collect_queue: Vec<Collectors>)
        ensures
            *final(self) == (Collector { default_collect_queue: final(self).default_collect_queue, ..*old(self) }),
            final(self).default_collect_queue@ == default_collect_queue@,
    {
        self.default_collect_queue = default_collect_queue;
    }

    /// Adds `element` at the end of the list of collectors of a round that names none.
    pub fn push_default_collect_queue(&mut self, element: Collectors)
        ensures
            *final(self) == (Collector { default_collect_queue: final(self).default_collect_queue, ..*old(self) }),
            final(self).default_collect_queue@ == old(self).default_collect_queue@.push(element),
    {
        self.default_collect_queue.push(element);
    }

    /// Collector `index` of the list of collectors of a round that names none, if there is one.
    pub fn get_default_collect_queue_index(&self, index: usize) -> (r: Option<Collectors>)
        ensures
            r == (if index < self.default_collect_queue@.len() { Some(self.default_collect_queue@[index as int]) } else { None }),
    {
        if index < self.default_collect_queue.len() {
            Some(self.default_collect_queue[index])
        } else {
            None
        }
    }

    /// Puts `element` in at position `index` of the list of collectors of a round that names none; nothing, and
    /// the queue unchanged, where `index` lies past its end.
    pub fn set_default_collect_queue_index(&mut self, index: usize, element: Collectors) -> (r: Option<()>)
        ensures
            *final(self) == (Collector { default_collect_queue: final(self).default_collect_queue, ..*old(self) }),
            r is Some <==> index <= old(self).default_collect_queue@.len(),
            final(self).default_collect_queue@ == (if index <= old(self).default_collect_queue@.len() {
                old(self).default_collect_queue@.insert(index as int, element)
            } else {
                old(self).default_collect_queue@
            }),
    {
        if index > self.default_collect_queue.len() {
            None
        } else {
            self.default_collect_queue.insert(index, element);
            Some(())
        }
    }

    /// Whether a round is to be cut short.
    pub fn get_collect_interrupt(&self) -> (r: bool)
        ensures
            r == self.collect_interrupt,
    {
        self.collect_interrupt
    }

    /// Sets whether a round is to be cut short.
    pub fn set_collect_interrupt(&mut self, collect_interrupt: bool)
        ensures
            *final(self) == (Collector { collect_interrupt: final(self).collect_interrupt, ..*old(self) }),
            final(self).collect_interrupt == collect_interrupt,
    {
        self.collect_interrupt = collect_interrupt;
    }

    /// Whether the process list is to be cut short.
    pub fn get_proc_interrupt(&self) -> (r: bool)
        ensures
            r == self.proc_interrupt,
    {
        self.proc_interrupt
    }

    /// Sets whether the process list is to be cut short.
    pub fn set_proc_interrupt(&mut self, proc_interrupt: bool)
        ensures
            *final(self) == (Collector { proc_interrupt: final(self).proc_interrupt, ..*old(self) }),
            final(self).proc_interrupt == proc_interrupt,
    {
        self.proc_interrupt = proc_interrupt;
    }

    /// Whether a round draws from its own list of collectors.
    pub fn get_use_draw_list(&self) -> (r: bool)
        ensures
            r == self.use_draw_list,
    {
        self.use_draw_list
    }

    /// Sets whether a round draws from its own list of collectors.
    pub fn set_use_draw_list(&mut self, use_draw_list: bool)
        ensures
            *final(self) == (Collector { use_draw_list: final(self).use_draw_list, ..*old(self) }),
            final(self).use_draw_list == use_draw_list,
    {
        self.use_draw_list = use_draw_list;
    }

}

} // verus!
