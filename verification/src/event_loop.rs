use vstd::prelude::*;
use crate::backend::{lemma_input_only_grows, lemma_resize_marks_framebuffer, WindowEvent, WinitBackendView};
use crate::events::{DroppedFileView, EventView};

verus! {

/// One thing that happens to the backend while the event loop runs: a
/// window event (with the name std gives a dropped file), the application
/// resuming or being suspended, or a request to redraw.
pub enum LoopStep<P, F> {
    Window { event: WindowEvent<P, F>, dropped_name: Seq<char> },
    Resumed { framebuffer_size: [u32; 2], scale: F, screen_size: P },
    Suspended,
    Redraw,
}

/// Whether the step is a request to close the window.
pub open spec fn requests_close<P, F>(step: LoopStep<P, F>) -> bool {
    step matches LoopStep::Window { event, .. } && event is CloseRequested
}

/// Whether the step is a resize or a change of scale.
pub open spec fn marks_resize<P, F>(step: LoopStep<P, F>) -> bool {
    step matches LoopStep::Window { event, .. } && (event is Resized || event is ScaleFactorChanged)
}

/// The file that a step drops onto the window, recorded under the name std
/// gives it, if the step drops one.
pub open spec fn dropped_by<P, F>(step: LoopStep<P, F>) -> Seq<DroppedFileView> {
    match step {
        LoopStep::Window { event: WindowEvent::DroppedFile(path), dropped_name } => seq![
            DroppedFileView { path: path@, name: dropped_name },
        ],
        _ => seq![],
    }
}

/// The files that the steps from `from` up to `to` drop, in order.
pub open spec fn dropped_between<P, F>(steps: Seq<LoopStep<P, F>>, from: int, to: int) -> Seq<DroppedFileView>
    decreases to - from,
{
    if to <= from {
        seq![]
    } else {
        dropped_between(steps, from, to - 1) + dropped_by(steps[to - 1])
    }
}

impl<P, F> WinitBackendView<P, F> {
    /// The state after one step, as `handle_event`, `on_resumed`,
    /// `on_suspended` and `begin_frame` leave it.
    pub open spec fn after_step(self, step: LoopStep<P, F>) -> WinitBackendView<P, F> {
        match step {
            LoopStep::Window { event, dropped_name } => self.after_window_event(event, dropped_name),
            LoopStep::Resumed { framebuffer_size, scale, screen_size } => self.after_resume(
                framebuffer_size,
                scale,
                screen_size,
            ),
            LoopStep::Suspended => self.after_suspend(),
            LoopStep::Redraw => if self.suspended {
                self
            } else {
                self.after_frame()
            },
        }
    }

    /// The state after the steps, in order.
    pub open spec fn after_steps(self, steps: Seq<LoopStep<P, F>>) -> WinitBackendView<P, F>
        decreases steps.len(),
    {
        if steps.len() == 0 {
            self
        } else {
            self.after_steps(steps.drop_last()).after_step(steps.last())
        }
    }

    /// Whether step `k` begins a frame: it is a redraw, and the application
    /// is not suspended when it comes.
    pub open spec fn draws_at(self, steps: Seq<LoopStep<P, F>>, k: int) -> bool {
        steps[k] is Redraw && !self.after_steps(steps.take(k)).suspended
    }

    /// Whether step `k` starts the gathered input afresh: it resumes the
    /// application or begins a frame.
    pub open spec fn resets_input_at(self, steps: Seq<LoopStep<P, F>>, k: int) -> bool {
        steps[k] is Resumed || self.draws_at(steps, k)
    }

    /// The egui events that step `k` adds.
    pub open spec fn emitted_at(self, steps: Seq<LoopStep<P, F>>, k: int) -> Seq<EventView<P, F>> {
        match steps[k] {
            LoopStep::Window { event, .. } => self.after_steps(steps.take(k)).emitted_events(event),
            _ => seq![],
        }
    }

    /// The egui events that the steps from `from` up to `to` add, in order.
    pub open spec fn emitted_between(self, steps: Seq<LoopStep<P, F>>, from: int, to: int) -> Seq<EventView<P, F>>
        decreases to - from,
    {
        if to <= from {
            seq![]
        } else {
            self.emitted_between(steps, from, to - 1) + self.emitted_at(steps, to - 1)
        }
    }
}

/// What the steps before the last one decide does not change when a step is
/// added.
proof fn lemma_earlier_steps_unchanged<P, F>(s: WinitBackendView<P, F>, steps: Seq<LoopStep<P, F>>)
    requires
        steps.len() > 0,
    ensures
        forall|k: int| 0 <= k < steps.len() - 1 ==> #[trigger] s.draws_at(steps, k) == s.draws_at(steps.drop_last(), k),
        forall|k: int| 0 <= k < steps.len() - 1 ==> #[trigger] s.emitted_at(steps, k) == s.emitted_at(steps.drop_last(), k),
        forall|k: int| 0 <= k < steps.len() - 1 ==> #[trigger] s.resets_input_at(steps, k) == s.resets_input_at(steps.drop_last(), k),
        s.draws_at(steps, steps.len() - 1) == (steps.last() is Redraw && !s.after_steps(steps.drop_last()).suspended),
        s.emitted_at(steps, steps.len() - 1) == match steps.last() {
            LoopStep::Window { event, .. } => s.after_steps(steps.drop_last()).emitted_events(event),
            _ => seq![],
        },
{
    let p = steps.drop_last();
    assert forall|k: int| 0 <= k < steps.len() - 1 implies #[trigger] s.draws_at(steps, k) == s.draws_at(p, k) by {
        assert(steps.take(k) =~= p.take(k));
    }
    assert forall|k: int| 0 <= k < steps.len() - 1 implies #[trigger] s.emitted_at(steps, k) == s.emitted_at(p, k) by {
        assert(steps.take(k) =~= p.take(k));
        assert(steps[k] == p[k]);
    }
    assert forall|k: int| 0 <= k < steps.len() - 1 implies #[trigger] s.resets_input_at(steps, k) == s.resets_input_at(p, k) by {
        assert(steps.take(k) =~= p.take(k));
        assert(steps[k] == p[k]);
    }
    assert(steps.take(steps.len() - 1) =~= p);
}

/// The events that earlier steps add do not change when a step is added.
proof fn lemma_earlier_emitted_unchanged<P, F>(s: WinitBackendView<P, F>, steps: Seq<LoopStep<P, F>>, from: int, to: int)
    requires
        steps.len() > 0,
        0 <= from,
        to <= steps.len() - 1,
    ensures
        s.emitted_between(steps, from, to) == s.emitted_between(steps.drop_last(), from, to),
    decreases to - from,
{
    if to > from {
        lemma_earlier_emitted_unchanged(s, steps, from, to - 1);
        lemma_earlier_steps_unchanged(s, steps);
        assert(s.emitted_at(steps, to - 1) == s.emitted_at(steps.drop_last(), to - 1));
    }
}

/// A frame is drawn only while the application is resumed: starting from a
/// suspended state (as the backend is created), after any steps the
/// application is resumed exactly when some step resumed it and no later
/// step suspended it. So a redraw draws exactly then, and never before the
/// first resume.
pub proof fn lemma_draws_only_while_resumed<P, F>(s: WinitBackendView<P, F>, steps: Seq<LoopStep<P, F>>)
    requires
        s.suspended,
    ensures
        !s.after_steps(steps).suspended <==> exists|j: int|
            0 <= j < steps.len() && #[trigger] steps[j] is Resumed
                && forall|i: int| j < i < steps.len() ==> !(#[trigger] steps[i] is Suspended),
    decreases steps.len(),
{
    if steps.len() > 0 {
        let p = steps.drop_last();
        let n = steps.len() - 1;
        lemma_draws_only_while_resumed(s, p);
        if steps[n] is Resumed {
            assert(forall|i: int| n < i < steps.len() ==> !(#[trigger] steps[i] is Suspended));
        } else if steps[n] is Suspended {
            if exists|j: int|
                0 <= j < steps.len() && #[trigger] steps[j] is Resumed
                    && forall|i: int| j < i < steps.len() ==> !(#[trigger] steps[i] is Suspended) {
                let j = choose|j: int|
                    0 <= j < steps.len() && #[trigger] steps[j] is Resumed
                        && forall|i: int| j < i < steps.len() ==> !(#[trigger] steps[i] is Suspended);
                assert(!(steps[n] is Suspended));
            }
        } else {
            if exists|j: int|
                0 <= j < p.len() && #[trigger] p[j] is Resumed
                    && forall|i: int| j < i < p.len() ==> !(#[trigger] p[i] is Suspended) {
                let j = choose|j: int|
                    0 <= j < p.len() && #[trigger] p[j] is Resumed
                        && forall|i: int| j < i < p.len() ==> !(#[trigger] p[i] is Suspended);
                assert(steps[j] == p[j]);
                assert forall|i: int| j < i < steps.len() implies !(#[trigger] steps[i] is Suspended) by {
                    if i < n {
                        assert(steps[i] == p[i]);
                    }
                }
            }
            if exists|j: int|
                0 <= j < steps.len() && #[trigger] steps[j] is Resumed
                    && forall|i: int| j < i < steps.len() ==> !(#[trigger] steps[i] is Suspended) {
                let j = choose|j: int|
                    0 <= j < steps.len() && #[trigger] steps[j] is Resumed
                        && forall|i: int| j < i < steps.len() ==> !(#[trigger] steps[i] is Suspended);
                assert(j < n);
                assert(p[j] == steps[j]);
                assert forall|i: int| j < i < p.len() implies !(#[trigger] p[i] is Suspended) by {
                    assert(p[i] == steps[i]);
                }
            }
        }
    }
}

/// Once the window is to close it stays so over any steps: after them it is
/// to close exactly when it was before or some step requested the close. So
/// the event loop, which exits exactly when the window is to close, exits
/// after every step that follows a close request.
pub proof fn lemma_close_request_ends_loop<P, F>(s: WinitBackendView<P, F>, steps: Seq<LoopStep<P, F>>)
    ensures
        s.after_steps(steps).should_close == (s.should_close || exists|j: int|
            0 <= j < steps.len() && requests_close(#[trigger] steps[j])),
    decreases steps.len(),
{
    if steps.len() > 0 {
        let p = steps.drop_last();
        let n = steps.len() - 1;
        lemma_close_request_ends_loop(s, p);
        if exists|j: int| 0 <= j < p.len() && requests_close(#[trigger] p[j]) {
            let j = choose|j: int| 0 <= j < p.len() && requests_close(#[trigger] p[j]);
            assert(steps[j] == p[j]);
        }
        if exists|j: int| 0 <= j < steps.len() && requests_close(#[trigger] steps[j]) {
            let j = choose|j: int| 0 <= j < steps.len() && requests_close(#[trigger] steps[j]);
            if j < n {
                assert(p[j] == steps[j]);
            }
        }
    }
}

/// A frame learns whether the framebuffer changed size since the frame
/// before: after any steps the framebuffer is marked as resized exactly when
/// some resize or change of scale came after every frame begun in them, or
/// when it was marked before and no frame has begun since. The mark is what
/// the next frame reports (see `begin_frame`), so a frame reports a resize
/// exactly when it is the first since the backend was created (which starts
/// marked) or a resize or change of scale came since the last frame.
pub proof fn lemma_frame_sees_resizes_since_last_frame<P, F>(s: WinitBackendView<P, F>, steps: Seq<LoopStep<P, F>>)
    ensures
        s.after_steps(steps).latest_resize_event == (
            (exists|j: int|
                0 <= j < steps.len() && marks_resize(#[trigger] steps[j])
                    && forall|i: int| j < i < steps.len() ==> !#[trigger] s.draws_at(steps, i))
            || (s.latest_resize_event && forall|i: int| 0 <= i < steps.len() ==> !#[trigger] s.draws_at(steps, i))),
    decreases steps.len(),
{
    if steps.len() > 0 {
        let p = steps.drop_last();
        let n = steps.len() - 1;
        let before = s.after_steps(p);
        lemma_frame_sees_resizes_since_last_frame(s, p);
        lemma_earlier_steps_unchanged(s, steps);
        if let LoopStep::Window { event, dropped_name } = steps[n] {
            lemma_resize_marks_framebuffer(before, event, dropped_name);
        }
        if marks_resize(steps[n]) {
            assert(forall|i: int| n < i < steps.len() ==> !#[trigger] s.draws_at(steps, i));
        } else if s.draws_at(steps, n) {
            if exists|j: int|
                0 <= j < steps.len() && marks_resize(#[trigger] steps[j])
                    && forall|i: int| j < i < steps.len() ==> !#[trigger] s.draws_at(steps, i) {
                let j = choose|j: int|
                    0 <= j < steps.len() && marks_resize(#[trigger] steps[j])
                        && forall|i: int| j < i < steps.len() ==> !#[trigger] s.draws_at(steps, i);
                assert(!s.draws_at(steps, n));
            }
        } else {
            assert(s.after_steps(steps).latest_resize_event == before.latest_resize_event);
            if exists|j: int|
                0 <= j < p.len() && marks_resize(#[trigger] p[j])
                    && forall|i: int| j < i < p.len() ==> !#[trigger] s.draws_at(p, i) {
                let j = choose|j: int|
                    0 <= j < p.len() && marks_resize(#[trigger] p[j])
                        && forall|i: int| j < i < p.len() ==> !#[trigger] s.draws_at(p, i);
                assert(steps[j] == p[j]);
                assert forall|i: int| j < i < steps.len() implies !#[trigger] s.draws_at(steps, i) by {
                    if i < n {
                        assert(s.draws_at(steps, i) == s.draws_at(p, i));
                    }
                }
            }
            if exists|j: int|
                0 <= j < steps.len() && marks_resize(#[trigger] steps[j])
                    && forall|i: int| j < i < steps.len() ==> !#[trigger] s.draws_at(steps, i) {
                let j = choose|j: int|
                    0 <= j < steps.len() && marks_resize(#[trigger] steps[j])
                        && forall|i: int| j < i < steps.len() ==> !#[trigger] s.draws_at(steps, i);
                assert(j < n);
                assert(p[j] == steps[j]);
                assert forall|i: int| j < i < p.len() implies !#[trigger] s.draws_at(p, i) by {
                    assert(s.draws_at(steps, i) == s.draws_at(p, i));
                }
            }
            if forall|i: int| 0 <= i < p.len() ==> !#[trigger] s.draws_at(p, i) {
                assert forall|i: int| 0 <= i < steps.len() implies !#[trigger] s.draws_at(steps, i) by {
                    if i < n {
                        assert(s.draws_at(steps, i) == s.draws_at(p, i));
                    }
                }
            }
            if forall|i: int| 0 <= i < steps.len() ==> !#[trigger] s.draws_at(steps, i) {
                assert forall|i: int| 0 <= i < p.len() implies !#[trigger] s.draws_at(p, i) by {
                    assert(s.draws_at(steps, i) == s.draws_at(p, i));
                }
            }
        }
    }
}

/// Each egui event is handed out once: after any steps the gathered events
/// are exactly those that the steps after the last fresh start (a resume, or
/// a frame, which takes them) added, in order, or, where nothing started the
/// input afresh, the events gathered before followed by all those the steps
/// added. A frame hands out the gathered events and starts afresh, so the
/// frames' inputs come from disjoint runs of steps.
pub proof fn lemma_each_event_handed_out_once<P, F>(s: WinitBackendView<P, F>, steps: Seq<LoopStep<P, F>>)
    ensures
        forall|j: int|
            0 <= j < steps.len() && #[trigger] s.resets_input_at(steps, j)
                && (forall|i: int| j < i < steps.len() ==> !#[trigger] s.resets_input_at(steps, i))
                ==> s.after_steps(steps).raw_input.events == s.emitted_between(steps, j + 1, steps.len() as int),
        (forall|i: int| 0 <= i < steps.len() ==> !#[trigger] s.resets_input_at(steps, i))
            ==> s.after_steps(steps).raw_input.events == s.raw_input.events + s.emitted_between(
                steps,
                0,
                steps.len() as int,
            ),
    decreases steps.len(),
{
    if steps.len() > 0 {
        let p = steps.drop_last();
        let n = steps.len() - 1;
        let before = s.after_steps(p);
        lemma_each_event_handed_out_once(s, p);
        lemma_earlier_steps_unchanged(s, steps);
        if s.resets_input_at(steps, n) {
            assert(s.after_steps(steps).raw_input.events =~= seq![]);
            assert forall|j: int|
                0 <= j < steps.len() && #[trigger] s.resets_input_at(steps, j)
                    && (forall|i: int| j < i < steps.len() ==> !#[trigger] s.resets_input_at(steps, i))
                implies s.after_steps(steps).raw_input.events == s.emitted_between(steps, j + 1, steps.len() as int) by {
                if j < n {
                    assert(!s.resets_input_at(steps, n));
                }
            }
        } else {
            if let LoopStep::Window { event, dropped_name } = steps[n] {
                lemma_input_only_grows(before, event, dropped_name);
            }
            assert(s.after_steps(steps).raw_input.events == before.raw_input.events + s.emitted_at(steps, n));
            assert forall|j: int|
                0 <= j < steps.len() && #[trigger] s.resets_input_at(steps, j)
                    && (forall|i: int| j < i < steps.len() ==> !#[trigger] s.resets_input_at(steps, i))
                implies s.after_steps(steps).raw_input.events == s.emitted_between(steps, j + 1, steps.len() as int) by {
                assert(j < n);
                assert(s.resets_input_at(p, j));
                assert forall|i: int| j < i < p.len() implies !#[trigger] s.resets_input_at(p, i) by {
                    assert(s.resets_input_at(steps, i) == s.resets_input_at(p, i));
                }
                lemma_earlier_emitted_unchanged(s, steps, j + 1, n);
            }
            if forall|i: int| 0 <= i < steps.len() ==> !#[trigger] s.resets_input_at(steps, i) {
                assert forall|i: int| 0 <= i < p.len() implies !#[trigger] s.resets_input_at(p, i) by {
                    assert(s.resets_input_at(steps, i) == s.resets_input_at(p, i));
                }
                lemma_earlier_emitted_unchanged(s, steps, 0, n);
            }
        }
    }
}

/// The files dropped since the last fresh start do not change when a step is
/// added after them.
proof fn lemma_earlier_drops_unchanged<P, F>(steps: Seq<LoopStep<P, F>>, from: int, to: int)
    requires
        steps.len() > 0,
        0 <= from,
        to <= steps.len() - 1,
    ensures
        dropped_between(steps, from, to) == dropped_between(steps.drop_last(), from, to),
    decreases to - from,
{
    if to > from {
        lemma_earlier_drops_unchanged(steps, from, to - 1);
        assert(steps[to - 1] == steps.drop_last()[to - 1]);
    }
}

/// Each dropped file is handed out once: after any steps the gathered
/// dropped files are exactly those that the steps after the last fresh start
/// (a resume, or a frame, which takes them) dropped, in order, or, where
/// nothing started the input afresh, the files gathered before followed by
/// all those the steps dropped. So the frames' dropped files come from
/// disjoint runs of steps.
pub proof fn lemma_each_dropped_file_handed_out_once<P, F>(s: WinitBackendView<P, F>, steps: Seq<LoopStep<P, F>>)
    ensures
        forall|j: int|
            0 <= j < steps.len() && #[trigger] s.resets_input_at(steps, j)
                && (forall|i: int| j < i < steps.len() ==> !#[trigger] s.resets_input_at(steps, i))
                ==> s.after_steps(steps).raw_input.dropped_files == dropped_between(steps, j + 1, steps.len() as int),
        (forall|i: int| 0 <= i < steps.len() ==> !#[trigger] s.resets_input_at(steps, i))
            ==> s.after_steps(steps).raw_input.dropped_files == s.raw_input.dropped_files + dropped_between(
                steps,
                0,
                steps.len() as int,
            ),
    decreases steps.len(),
{
    if steps.len() > 0 {
        let p = steps.drop_last();
        let n = steps.len() - 1;
        let before = s.after_steps(p);
        lemma_each_dropped_file_handed_out_once(s, p);
        lemma_earlier_steps_unchanged(s, steps);
        if s.resets_input_at(steps, n) {
            assert(s.after_steps(steps).raw_input.dropped_files =~= seq![]);
            assert forall|j: int|
                0 <= j < steps.len() && #[trigger] s.resets_input_at(steps, j)
                    && (forall|i: int| j < i < steps.len() ==> !#[trigger] s.resets_input_at(steps, i))
                implies s.after_steps(steps).raw_input.dropped_files == dropped_between(steps, j + 1, steps.len() as int) by {
                if j < n {
                    assert(!s.resets_input_at(steps, n));
                }
            }
        } else {
            if let LoopStep::Window { event, dropped_name } = steps[n] {
                lemma_input_only_grows(before, event, dropped_name);
            }
            assert(s.after_steps(steps).raw_input.dropped_files =~= before.raw_input.dropped_files + dropped_by(steps[n]));
            assert forall|j: int|
                0 <= j < steps.len() && #[trigger] s.resets_input_at(steps, j)
                    && (forall|i: int| j < i < steps.len() ==> !#[trigger] s.resets_input_at(steps, i))
                implies s.after_steps(steps).raw_input.dropped_files == dropped_between(steps, j + 1, steps.len() as int) by {
                assert(j < n);
                assert(s.resets_input_at(p, j));
                assert forall|i: int| j < i < p.len() implies !#[trigger] s.resets_input_at(p, i) by {
                    assert(s.resets_input_at(steps, i) == s.resets_input_at(p, i));
                }
                lemma_earlier_drops_unchanged(steps, j + 1, n);
            }
            if forall|i: int| 0 <= i < steps.len() ==> !#[trigger] s.resets_input_at(steps, i) {
                assert forall|i: int| 0 <= i < p.len() implies !#[trigger] s.resets_input_at(p, i) by {
                    assert(s.resets_input_at(steps, i) == s.resets_input_at(p, i));
                }
                lemma_earlier_drops_unchanged(steps, 0, n);
            }
        }
    }
}

} // verus!
