use crate::render::callbacks::{
    Callback, CallbackRegistry, CallbackSlot, pending_on, PendingCallback,
};
use crate::render::layout::{ids_below, Layout, LayoutPosition};
use crate::render::layout_cache::{
    all_computed, laid_out, LayoutCache, LayoutContainer, layouts_fit,
};
use crate::render::widget::{BaseWidget, BaseWidgetView};
use crate::render::widget_cache::{
    clicked_all, draw_requests, DrawRequest, hit_test, ids_in_order, lemma_clicked_all_same_widgets,
    lemma_hit_among, lemma_ticked_all_same_widgets, painted, same_widgets, ticked_all, WidgetCache,
    WidgetContainerView,
};
use crate::render::widget_config::{PaddingConstraint, WidgetConfigView};
use crate::render::widget_store::{WidgetStore, WidgetStoreView};
use crate::widgets::timer_widget::time_ms;
use vstd::prelude::*;

verus! {

/// An event of the backend, as far as the engine tells events apart.
#[derive(Clone, Copy, Debug, PartialEq, Eq, Structural)]
pub enum Event {
    /// A mouse button went down.
    MouseButtonDown { button: u8, clicks: u8 },
    /// A mouse button went up.
    MouseButtonUp { button: u8, clicks: u8 },
    /// The pointer moved to `(x, y)`.
    MouseMotion { x: i32, y: i32 },
    /// The wheel turned by `(x, y)`.
    MouseWheel { x: i32, y: i32 },
    /// The application is asked to end.
    Quit,
    /// Any other event.
    Other,
}

/// One call of an event hook: which hook, of which widget, with what arguments.
#[derive(Clone, Copy, Debug, PartialEq, Eq, Structural)]
pub enum Dispatch {
    /// A mouse button went down (`state`) or up. With -1 for `widget_id` every
    /// widget is told.
    ButtonClicked { widget_id: i32, button: u8, clicks: u8, state: bool },
    /// The pointer left the bounds of `widget_id`.
    MouseExited { widget_id: i32 },
    /// The pointer came into the bounds of `widget_id`.
    MouseEntered { widget_id: i32 },
    /// The pointer moved to `(x, y)` over `widget_id`.
    MouseMoved { widget_id: i32, x: i32, y: i32 },
    /// The wheel turned by `(x, y)` over `widget_id`.
    MouseScrolled { widget_id: i32, x: i32, y: i32 },
    /// An event without a name of its own, for `widget_id`.
    OtherEvent { widget_id: i32 },
}

impl Dispatch {
    /// Whether the call can be made on `n` widgets: its widget is one of them, or
    /// it is a mouse button told to all.
    pub open spec fn fits(self, n: nat) -> bool {
        match self {
            Dispatch::ButtonClicked { widget_id, .. } => widget_id == -1 || 0 <= widget_id < n,
            Dispatch::MouseExited { widget_id } => 0 <= widget_id < n,
            Dispatch::MouseEntered { widget_id } => 0 <= widget_id < n,
            Dispatch::MouseMoved { widget_id, .. } => 0 <= widget_id < n,
            Dispatch::MouseScrolled { widget_id, .. } => 0 <= widget_id < n,
            Dispatch::OtherEvent { widget_id } => 0 <= widget_id < n,
        }
    }
}

/// The widget under the pointer after `event`, and the hooks that `event` calls,
/// in the order in which they are called, when the pointer was over `current`.
///
/// A press goes to the widget under the pointer. A release goes to every widget,
/// so that the widget the press began on hears of it wherever the pointer is by
/// then. A movement first finds the widget under the pointer anew: if it is
/// another one than before, the old one is told that the pointer left, then the
/// new one that it came; the movement itself goes to the new one in any case. The
/// wheel and every other event go to the widget under the pointer. The request to
/// end calls no hook.
pub open spec fn route<H>(widgets: Seq<WidgetContainerView<H>>, current: i32, event: Event) -> (
    i32,
    Seq<Dispatch>,
) {
    match event {
        Event::MouseButtonDown { button, clicks } => (
            current,
            seq![Dispatch::ButtonClicked { widget_id: current, button, clicks, state: true }],
        ),
        Event::MouseButtonUp { button, clicks } => (
            current,
            seq![Dispatch::ButtonClicked { widget_id: -1i32, button, clicks, state: false }],
        ),
        Event::MouseMotion { x, y } => {
            let hit = hit_test(widgets, x as int, y as int) as i32;
            if hit != current {
                (
                    hit,
                    seq![
                        Dispatch::MouseExited { widget_id: current },
                        Dispatch::MouseEntered { widget_id: hit },
                        Dispatch::MouseMoved { widget_id: hit, x, y },
                    ],
                )
            } else {
                (hit, seq![Dispatch::MouseMoved { widget_id: hit, x, y }])
            }
        },
        Event::MouseWheel { x, y } => (
            current,
            seq![Dispatch::MouseScrolled { widget_id: current, x, y }],
        ),
        Event::Quit => (current, Seq::<Dispatch>::empty()),
        Event::Other => (current, seq![Dispatch::OtherEvent { widget_id: current }]),
    }
}

/// The containers after the hook of `widget_id` ran with the outcome `outcome`,
/// and the callbacks that are due on that widget.
pub open spec fn delivered_to<H>(
    widgets: Seq<WidgetContainerView<H>>,
    widget_id: i32,
    outcome: (WidgetStoreView<H>, Seq<Callback>),
) -> (Seq<WidgetContainerView<H>>, Seq<PendingCallback>) {
    (
        widgets.update(widget_id as int, widgets[widget_id as int].with_widget(outcome.0)),
        pending_on(widgets[widget_id as int].id, outcome.1),
    )
}

/// The containers after the hook call `dispatch` was made, and the callbacks that
/// are due.
pub open spec fn delivered<H>(widgets: Seq<WidgetContainerView<H>>, dispatch: Dispatch) -> (
    Seq<WidgetContainerView<H>>,
    Seq<PendingCallback>,
) {
    match dispatch {
        Dispatch::ButtonClicked { widget_id, button, clicks, state } => if widget_id == -1 {
            clicked_all(widgets, button, clicks, state, widgets.len())
        } else {
            delivered_to(
                widgets,
                widget_id,
                widgets[widget_id as int].widget.button_clicked(button, clicks, state),
            )
        },
        Dispatch::MouseExited { widget_id } => delivered_to(
            widgets,
            widget_id,
            widgets[widget_id as int].widget.mouse_exited(),
        ),
        Dispatch::MouseEntered { widget_id } => delivered_to(
            widgets,
            widget_id,
            widgets[widget_id as int].widget.mouse_entered(),
        ),
        Dispatch::MouseMoved { widget_id, x, y } => delivered_to(
            widgets,
            widget_id,
            widgets[widget_id as int].widget.mouse_moved(x, y),
        ),
        Dispatch::MouseScrolled { widget_id, x, y } => delivered_to(
            widgets,
            widget_id,
            widgets[widget_id as int].widget.mouse_scrolled(x, y),
        ),
        Dispatch::OtherEvent { widget_id } => (widgets, Seq::<PendingCallback>::empty()),
    }
}

/// The containers after the first `n` hook calls of `dispatches` were made one
/// after the other, and the callbacks that are due, in the order of the calls.
pub open spec fn delivered_all<H>(
    widgets: Seq<WidgetContainerView<H>>,
    dispatches: Seq<Dispatch>,
    n: nat,
) -> (Seq<WidgetContainerView<H>>, Seq<PendingCallback>)
    decreases n,
{
    if n == 0 {
        (widgets, Seq::<PendingCallback>::empty())
    } else {
        let (before, fired) = delivered_all(widgets, dispatches, (n - 1) as nat);
        let (after, more) = delivered(before, dispatches[n - 1]);
        (after, fired + more)
    }
}

/// The widgets after the engine handled `event` with the pointer over `current`,
/// the widget under the pointer by then, and the callbacks that are due.
pub open spec fn handled<H>(widgets: Seq<WidgetContainerView<H>>, current: i32, event: Event) -> (
    Seq<WidgetContainerView<H>>,
    i32,
    Seq<PendingCallback>,
) {
    let (pointer, dispatches) = route(widgets, current, event);
    let (after, fired) = delivered_all(widgets, dispatches, dispatches.len());
    (after, pointer, fired)
}

/// A hook call that fits neither adds nor removes a widget, nor changes a name or
/// an id.
pub proof fn lemma_delivered_same_widgets<H>(
    widgets: Seq<WidgetContainerView<H>>,
    dispatch: Dispatch,
)
    requires
        dispatch.fits(widgets.len()),
    ensures
        same_widgets(widgets, delivered(widgets, dispatch).0),
{
    match dispatch {
        Dispatch::ButtonClicked { widget_id, button, clicks, state } => {
            if widget_id == -1 {
                lemma_clicked_all_same_widgets(widgets, button, clicks, state, widgets.len());
            }
        },
        _ => {},
    }
}

/// What `route` gives fits the widgets it was given, where the pointer was over
/// one of them: every hook call is made on a widget that is there, and so is the
/// widget under the pointer afterwards.
pub proof fn lemma_route_fits<H>(widgets: Seq<WidgetContainerView<H>>, current: i32, event: Event)
    requires
        0 <= current < widgets.len() <= i32::MAX,
    ensures
        0 <= route(widgets, current, event).0 < widgets.len(),
        forall|i: int|
            0 <= i < route(widgets, current, event).1.len() ==> (#[trigger] route(
                widgets,
                current,
                event,
            ).1[i]).fits(widgets.len()),
{
    match event {
        Event::MouseMotion { x, y } => {
            lemma_hit_among(widgets, x as int, y as int, widgets.len());
        },
        _ => {},
    }
}

/// A movement of the pointer from one widget onto another tells the old widget
/// that the pointer left, then the new widget that it came, then the new widget
/// of the movement: these three hook calls, once each, in this order, and no other.
pub proof fn lemma_exit_before_enter<H>(
    widgets: Seq<WidgetContainerView<H>>,
    current: i32,
    x: i32,
    y: i32,
)
    requires
        hit_test(widgets, x as int, y as int) != current,
        widgets.len() <= i32::MAX,
    ensures
        route(widgets, current, Event::MouseMotion { x, y }).1 == seq![
            Dispatch::MouseExited { widget_id: current },
            Dispatch::MouseEntered { widget_id: hit_test(widgets, x as int, y as int) as i32 },
            Dispatch::MouseMoved { widget_id: hit_test(widgets, x as int, y as int) as i32, x, y },
        ],
        route(widgets, current, Event::MouseMotion { x, y }).0 == hit_test(
            widgets,
            x as int,
            y as int,
        ),
{
    lemma_hit_among(widgets, x as int, y as int, widgets.len());
}

/// The time between two frames at `frame_rate` frames per second, in milliseconds:
/// 1000 by the rate, rounded down. At the rate 0 no further frame is due: the
/// time is the longest there is.
pub open spec fn frame_interval(frame_rate: u8) -> u64 {
    if frame_rate == 0 {
        u64::MAX
    } else {
        (1000int / frame_rate as int) as u64
    }
}

/// The time that is left of a frame at `frame_rate` after `elapsed` milliseconds of
/// work: what is missing to the frame interval, and nothing once the interval is
/// used up or overrun.
pub open spec fn frame_rest(frame_rate: u8, elapsed: u64) -> u64 {
    if elapsed < frame_interval(frame_rate) {
        (frame_interval(frame_rate) - elapsed) as u64
    } else {
        0
    }
}

/// The event engine: the widgets and layouts of one window, the widget under the
/// pointer, the frame rate, and whether the loop goes on.
///
/// The engine makes the decisions of the loop. Whoever drives it polls the events,
/// hands them to `handle_event` one by one and runs the callbacks that come back;
/// then, once per frame, calls `tick`, `do_layout` and `draw_loop`, paints what
/// the last one asks for, and sleeps for `frame_delay`.
pub struct Engine<H, L> {
    widget_cache: WidgetCache<H>,
    layout_cache: LayoutCache<L>,
    current_widget_id: i32,
    frame_rate: u8,
    running: bool,
}

impl<H, L: Layout<H>> Engine<H, L> {
    /// The widgets, with their names and ids.
    pub closed spec fn widgets(&self) -> Seq<WidgetContainerView<H>> {
        self.widget_cache@
    }

    /// The layouts, with their ids.
    pub closed spec fn layouts(&self) -> Seq<LayoutContainer<L>> {
        self.layout_cache@
    }

    /// The id of the widget under the pointer.
    pub closed spec fn current(&self) -> i32 {
        self.current_widget_id
    }

    /// The frame rate, in frames per second.
    pub closed spec fn rate(&self) -> u8 {
        self.frame_rate
    }

    /// Whether the loop goes on.
    pub closed spec fn running(&self) -> bool {
        self.running
    }

    /// Whether the engine is in order: the ids of widgets and layouts are their
    /// places, the background widget is there, the widget under the pointer is one
    /// of the widgets, and the layouts are bound to widgets of the engine only.
    pub closed spec fn wf(&self) -> bool {
        &&& self.widget_cache.wf()
        &&& self.layout_cache.wf()
        &&& self.widget_cache@.len() >= 1
        &&& 0 <= self.current_widget_id < self.widget_cache@.len()
        &&& layouts_fit::<H, L>(self.layout_cache@, self.widget_cache@.len())
    }

    /// What `wf` says, over the parts of the engine.
    pub proof fn lemma_wf(&self)
        ensures
            self.wf() <==> {
                &&& ids_in_order(self.widgets())
                &&& self.layouts().len() <= i32::MAX
                &&& forall|i: int|
                    0 <= i < self.layouts().len() ==> (#[trigger] self.layouts()[i]).layout_id == i
                &&& self.widgets().len() >= 1
                &&& 0 <= self.current() < self.widgets().len()
                &&& layouts_fit::<H, L>(self.layouts(), self.widgets().len())
            },
    {
    }

    /// An engine for a window of `w` by `h` pixels that runs at `frame_rate`
    /// frames per second. Its first widget, with the id 0 and the name `base`, is
    /// the background of the window. The pointer is over the background.
    pub fn new(w: u32, h: u32, frame_rate: u8) -> (e: Engine<H, L>)
        ensures
            e.wf(),
            e.widgets() == seq![
                WidgetContainerView {
                    widget: WidgetStoreView::Base(
                        BaseWidgetView {
                            config: WidgetConfigView::initial(0, 0, w, h),
                            callbacks: CallbackRegistry::<H>::empty(),
                        },
                    ),
                    name: "base"@,
                    id: 0,
                },
            ],
            e.layouts() == Seq::<LayoutContainer<L>>::empty(),
            e.current() == 0,
            e.rate() == frame_rate,
            e.running(),
    {
        let base_widget: BaseWidget<H> = BaseWidget::new([0, 0], [w, h]);
        let mut cache: WidgetCache<H> = WidgetCache::new();
        cache.add_widget(WidgetStore::Base(base_widget), "base".to_owned());
        Engine {
            widget_cache: cache,
            layout_cache: LayoutCache::new(),
            current_widget_id: 0,
            frame_rate,
            running: true,
        }
    }

    /// Whether one more widget can be added.
    pub fn has_room(&self) -> (b: bool)
        ensures
            b == (self.widgets().len() < i32::MAX),
    {
        self.widget_cache.has_room()
    }

    /// Adds `widget` under the name `widget_name`, on top of the widgets that are
    /// there. Its id is the number of widgets that were there before.
    pub fn add_widget(&mut self, widget: WidgetStore<H>, widget_name: String) -> (widget_id: i32)
        requires
            old(self).wf(),
            old(self).widgets().len() < i32::MAX,
        ensures
            final(self).wf(),
            widget_id == old(self).widgets().len(),
            final(self).widgets() == old(self).widgets().push(
                WidgetContainerView { widget: widget@, name: widget_name@, id: widget_id },
            ),
            final(self).layouts() == old(self).layouts(),
            final(self).current() == old(self).current(),
            final(self).rate() == old(self).rate(),
            final(self).running() == old(self).running(),
    {
        self.widget_cache.add_widget(widget, widget_name)
    }

    /// Whether `layout` can be added: there is room for it, and it is bound to
    /// widgets of the engine only.
    pub fn accepts(&self, layout: &L) -> (b: bool)
        ensures
            b == (self.layouts().len() < i32::MAX && ids_below(
                layout.widget_ids(),
                self.widgets().len(),
            )),
    {
        self.layout_cache.len() < i32::MAX as usize && layout.fits(self.widget_cache.len())
    }

    /// Adds `layout`. Its id is the number of layouts that were there before.
    pub fn add_layout(&mut self, layout: L) -> (layout_id: i32)
        requires
            old(self).wf(),
            old(self).layouts().len() < i32::MAX,
            ids_below(layout.widget_ids(), old(self).widgets().len()),
        ensures
            final(self).wf(),
            layout_id == old(self).layouts().len(),
            final(self).layouts() == old(self).layouts().push(LayoutContainer { layout, layout_id }),
            final(self).widgets() == old(self).widgets(),
            final(self).current() == old(self).current(),
            final(self).rate() == old(self).rate(),
            final(self).running() == old(self).running(),
    {
        self.layout_cache.add_layout(layout)
    }

    /// Lets the loop go on (`true`) or end after the frame at hand (`false`).
    pub fn set_running(&mut self, state: bool)
        ensures
            final(self).running() == state,
            final(self).widgets() == old(self).widgets(),
            final(self).layouts() == old(self).layouts(),
            final(self).current() == old(self).current(),
            final(self).rate() == old(self).rate(),
            final(self).wf() == old(self).wf(),
    {
        self.running = state;
    }

    /// Whether the loop goes on.
    pub fn is_running(&self) -> (b: bool)
        ensures
            b == self.running(),
    {
        self.running
    }

    /// The id of the widget under the pointer.
    pub fn get_current_widget_id(&self) -> (id: i32)
        ensures
            id == self.current(),
    {
        self.current_widget_id
    }

    /// The widgets of the engine.
    pub fn get_widget_cache(&self) -> (cache: &WidgetCache<H>)
        ensures
            cache@ == self.widgets(),
    {
        &self.widget_cache
    }

    /// The layouts of the engine.
    pub fn get_layout_cache(&self) -> (cache: &LayoutCache<L>)
        ensures
            cache@ == self.layouts(),
    {
        &self.layout_cache
    }

    /// Finds the hooks that `event` calls, in the order in which they are to be
    /// called, and takes note of the widget under the pointer. The request to end
    /// stops the loop.
    pub fn route(&mut self, event: Event) -> (dispatches: Vec<Dispatch>)
        requires
            old(self).wf(),
        ensures
            final(self).wf(),
            (final(self).current(), dispatches@) == route(
                old(self).widgets(),
                old(self).current(),
                event,
            ),
            final(self).running() == (old(self).running() && event != Event::Quit),
            final(self).widgets() == old(self).widgets(),
            final(self).layouts() == old(self).layouts(),
            final(self).rate() == old(self).rate(),
    {
        let mut dispatches: Vec<Dispatch> = Vec::new();
        let current = self.current_widget_id;
        match event {
            Event::MouseButtonDown { button, clicks } => {
                dispatches.push(
                    Dispatch::ButtonClicked { widget_id: current, button, clicks, state: true },
                );
            },
            Event::MouseButtonUp { button, clicks } => {
                dispatches.push(
                    Dispatch::ButtonClicked { widget_id: -1, button, clicks, state: false },
                );
            },
            Event::MouseMotion { x, y } => {
                let hit = self.widget_cache.find_widget(x, y);
                if hit != current {
                    dispatches.push(Dispatch::MouseExited { widget_id: current });
                    dispatches.push(Dispatch::MouseEntered { widget_id: hit });
                }
                dispatches.push(Dispatch::MouseMoved { widget_id: hit, x, y });
                self.current_widget_id = hit;
            },
            Event::MouseWheel { x, y } => {
                dispatches.push(Dispatch::MouseScrolled { widget_id: current, x, y });
            },
            Event::Quit => {
                self.running = false;
            },
            Event::Other => {
                dispatches.push(Dispatch::OtherEvent { widget_id: current });
            },
        }
        proof {
            assert(dispatches@ =~= route(old(self).widgets(), old(self).current(), event).1);
        }
        dispatches
    }

    /// Makes one hook call, and gives the callbacks that are due.
    pub fn deliver(&mut self, dispatch: Dispatch) -> (fired: Vec<PendingCallback>)
        requires
            old(self).wf(),
            dispatch.fits(old(self).widgets().len()),
        ensures
            final(self).wf(),
            (final(self).widgets(), fired@) == delivered(old(self).widgets(), dispatch),
            final(self).layouts() == old(self).layouts(),
            final(self).current() == old(self).current(),
            final(self).rate() == old(self).rate(),
            final(self).running() == old(self).running(),
    {
        proof {
            lemma_delivered_same_widgets(self.widget_cache@, dispatch);
        }
        match dispatch {
            Dispatch::ButtonClicked { widget_id, button, clicks, state } => {
                self.widget_cache.button_clicked(widget_id, button, clicks, state)
            },
            Dispatch::MouseExited { widget_id } => self.widget_cache.mouse_exited(widget_id),
            Dispatch::MouseEntered { widget_id } => self.widget_cache.mouse_entered(widget_id),
            Dispatch::MouseMoved { widget_id, x, y } => self.widget_cache.mouse_moved(
                widget_id,
                [x, y],
            ),
            Dispatch::MouseScrolled { widget_id, x, y } => self.widget_cache.mouse_scrolled(
                widget_id,
                [x, y],
            ),
            Dispatch::OtherEvent { widget_id } => self.widget_cache.other_event(widget_id),
        }
    }

    /// Takes one event of the backend: finds the hooks it calls, as `route` does,
    /// and makes the calls in their order. Gives the callbacks that are due, in
    /// the order in which they are due.
    pub fn handle_event(&mut self, event: Event) -> (fired: Vec<PendingCallback>)
        requires
            old(self).wf(),
        ensures
            final(self).wf(),
            (final(self).widgets(), final(self).current(), fired@) == handled(
                old(self).widgets(),
                old(self).current(),
                event,
            ),
            final(self).running() == (old(self).running() && event != Event::Quit),
            final(self).layouts() == old(self).layouts(),
            final(self).rate() == old(self).rate(),
    {
        proof {
            old(self).lemma_wf();
            lemma_route_fits(old(self).widgets(), old(self).current(), event);
        }
        let dispatches = self.route(event);
        let mut fired: Vec<PendingCallback> = Vec::new();
        let mut i: usize = 0;
        while i < dispatches.len()
            invariant
                i <= dispatches.len(),
                self.wf(),
                self.widgets().len() == old(self).widgets().len(),
                forall|k: int|
                    0 <= k < dispatches@.len() ==> (#[trigger] dispatches@[k]).fits(
                        old(self).widgets().len(),
                    ),
                (self.widgets(), fired@) == delivered_all(old(self).widgets(), dispatches@, i as nat),
                self.current() == route(old(self).widgets(), old(self).current(), event).0,
                self.running() == (old(self).running() && event != Event::Quit),
                self.layouts() == old(self).layouts(),
                self.rate() == old(self).rate(),
            decreases dispatches.len() - i,
        {
            proof {
                lemma_delivered_same_widgets(self.widgets(), dispatches@[i as int]);
            }
            let mut more = self.deliver(dispatches[i]);
            fired.append(&mut more);
            i = i + 1;
        }
        fired
    }

    /// Tells every widget that a frame went by, at the time `now` in milliseconds.
    /// Gives the callbacks that are due.
    pub fn tick(&mut self, now: u64) -> (fired: Vec<PendingCallback>)
        requires
            old(self).wf(),
        ensures
            final(self).wf(),
            (final(self).widgets(), fired@) == ticked_all(
                old(self).widgets(),
                now,
                old(self).widgets().len(),
            ),
            final(self).layouts() == old(self).layouts(),
            final(self).current() == old(self).current(),
            final(self).rate() == old(self).rate(),
            final(self).running() == old(self).running(),
    {
        proof {
            lemma_ticked_all_same_widgets(self.widget_cache@, now, self.widget_cache@.len());
        }
        self.widget_cache.tick(now)
    }

    /// Tells every widget that a frame went by, at the time that the system clock
    /// shows. Gives that time, in milliseconds, and the callbacks that are due.
    pub fn tick_now(&mut self) -> (r: (u64, Vec<PendingCallback>))
        requires
            old(self).wf(),
        ensures
            final(self).wf(),
            (final(self).widgets(), r.1@) == ticked_all(
                old(self).widgets(),
                r.0,
                old(self).widgets().len(),
            ),
            final(self).layouts() == old(self).layouts(),
            final(self).current() == old(self).current(),
            final(self).rate() == old(self).rate(),
            final(self).running() == old(self).running(),
    {
        let now = time_ms();
        let fired = self.tick(now);
        (now, fired)
    }

    /// Computes every layout that has to be computed, in the order of the ids.
    pub fn do_layout(&mut self)
        requires
            old(self).wf(),
        ensures
            final(self).wf(),
            final(self).widgets() == laid_out::<H, L>(
                old(self).layouts(),
                old(self).widgets(),
                old(self).layouts().len(),
            ),
            all_computed::<H, L>(old(self).layouts(), final(self).layouts()),
            final(self).current() == old(self).current(),
            final(self).rate() == old(self).rate(),
            final(self).running() == old(self).running(),
    {
        self.layout_cache.do_layout(&mut self.widget_cache);
    }

    /// The paint requests of a frame: one for each widget that is shown, in the
    /// order of the ids, so that a widget added later is painted over one added
    /// before. Every widget that is asked for has its redraw flag taken down.
    pub fn draw_loop(&mut self) -> (requests: Vec<DrawRequest>)
        requires
            old(self).wf(),
        ensures
            final(self).wf(),
            requests@ == draw_requests(old(self).widgets(), old(self).widgets().len()),
            final(self).widgets() == old(self).widgets().map_values(
                |c: WidgetContainerView<H>| painted(c),
            ),
            final(self).layouts() == old(self).layouts(),
            final(self).current() == old(self).current(),
            final(self).rate() == old(self).rate(),
            final(self).running() == old(self).running(),
    {
        self.widget_cache.draw_loop()
    }

    /// The time between two frames, in milliseconds.
    pub fn frame_interval(&self) -> (interval: u64)
        ensures
            interval == frame_interval(self.rate()),
    {
        if self.frame_rate == 0 {
            u64::MAX
        } else {
            1000 / (self.frame_rate as u64)
        }
    }

    /// The time to sleep at the end of a frame whose work took `elapsed`
    /// milliseconds: what is left of the frame interval. A frame without work
    /// sleeps for the whole interval; a frame that overran its interval does not
    /// sleep, and the next frame owes nothing for it.
    pub fn frame_delay(&self, elapsed: u64) -> (delay: u64)
        ensures
            delay == frame_rest(self.rate(), elapsed),
            elapsed == 0 ==> delay == frame_interval(self.rate()),
            delay <= frame_interval(self.rate()),
            elapsed <= frame_interval(self.rate()) ==> elapsed + delay == frame_interval(
                self.rate(),
            ),
    {
        let interval = self.frame_interval();
        if elapsed < interval {
            interval - elapsed
        } else {
            0
        }
    }

    /// The widget with the id `widget_id`.
    pub fn get_widget(&self, widget_id: i32) -> (w: &WidgetStore<H>)
        requires
            0 <= widget_id < self.widgets().len(),
        ensures
            w@ == self.widgets()[widget_id as int].widget,
    {
        self.widget_cache.get_widget(widget_id)
    }

    /// The widget with the id `widget_id`, to change it.
    pub fn get_widget_mut(&mut self, widget_id: i32) -> (w: &mut WidgetStore<H>)
        requires
            0 <= widget_id < old(self).widgets().len(),
        ensures
            w@ == old(self).widgets()[widget_id as int].widget,
            final(self).widgets() == old(self).widgets().update(
                widget_id as int,
                old(self).widgets()[widget_id as int].with_widget(final(w)@),
            ),
            final(self).layouts() == old(self).layouts(),
            final(self).current() == old(self).current(),
            final(self).rate() == old(self).rate(),
            final(self).running() == old(self).running(),
            old(self).wf() ==> final(self).wf(),
    {
        self.widget_cache.get_widget_mut(widget_id)
    }

    /// Takes the handler of the widget `widget_id` out of `slot`, to run it.
    pub fn take_callback(&mut self, widget_id: i32, slot: CallbackSlot) -> (handler: Option<H>)
        requires
            old(self).wf(),
            0 <= widget_id < old(self).widgets().len(),
        ensures
            final(self).wf(),
            handler == old(self).widgets()[widget_id as int].widget.handler(slot),
            final(self).widgets() == old(self).widgets().update(
                widget_id as int,
                old(self).widgets()[widget_id as int].with_widget(
                    old(self).widgets()[widget_id as int].widget.with_handler(slot, None),
                ),
            ),
            final(self).layouts() == old(self).layouts(),
            final(self).current() == old(self).current(),
            final(self).rate() == old(self).rate(),
            final(self).running() == old(self).running(),
    {
        self.widget_cache.take_callback(widget_id, slot)
    }

    /// Puts `handler` back into `slot` of the widget `widget_id` after it has run.
    /// Hands the handler back where the widget has no such slot.
    pub fn restore_callback(&mut self, widget_id: i32, slot: CallbackSlot, handler: H) -> (rest:
        Option<H>)
        requires
            old(self).wf(),
            0 <= widget_id < old(self).widgets().len(),
        ensures
            final(self).wf(),
            rest is None ==> final(self).widgets() == old(self).widgets().update(
                widget_id as int,
                old(self).widgets()[widget_id as int].with_widget(
                    old(self).widgets()[widget_id as int].widget.with_handler(slot, Some(handler)),
                ),
            ),
            rest is Some ==> rest == Some(handler) && final(self).widgets() == old(self).widgets(),
            rest is Some <==> slot == CallbackSlot::Widget && !old(
                self,
            ).widgets()[widget_id as int].widget.has_own_slot(),
            final(self).layouts() == old(self).layouts(),
            final(self).current() == old(self).current(),
            final(self).rate() == old(self).rate(),
            final(self).running() == old(self).running(),
    {
        self.widget_cache.restore_callback(widget_id, slot, handler)
    }

    /// Binds the widget `widget_id` to the layout `layout_id`, at `position` of
    /// its grid.
    pub fn bind_widget(&mut self, layout_id: i32, widget_id: i32, position: LayoutPosition)
        requires
            old(self).wf(),
            0 <= layout_id < old(self).layouts().len(),
            0 <= widget_id < old(self).widgets().len(),
        ensures
            final(self).wf(),
            final(self).layouts().len() == old(self).layouts().len(),
            forall|i: int|
                0 <= i < old(self).layouts().len() && i != layout_id ==> final(self).layouts()[i]
                    == old(self).layouts()[i],
            final(self).layouts()[layout_id as int].layout_id == layout_id,
            final(self).layouts()[layout_id as int].layout.widget_ids() == old(
                self,
            ).layouts()[layout_id as int].layout.widget_ids().push(widget_id),
            final(self).layouts()[layout_id as int].layout.widget_positions() == old(
                self,
            ).layouts()[layout_id as int].layout.widget_positions().push(position),
            final(self).layouts()[layout_id as int].layout.padding() == old(
                self,
            ).layouts()[layout_id as int].layout.padding(),
            final(self).layouts()[layout_id as int].layout.dirty(),
            final(self).widgets() == old(self).widgets(),
            final(self).current() == old(self).current(),
            final(self).rate() == old(self).rate(),
            final(self).running() == old(self).running(),
    {
        self.layout_cache.get_layout_by_id(layout_id).layout.add_widget(widget_id, position);
    }

    /// Changes the padding of the layout `layout_id`.
    pub fn set_padding(&mut self, layout_id: i32, padding: PaddingConstraint)
        requires
            old(self).wf(),
            0 <= layout_id < old(self).layouts().len(),
        ensures
            final(self).wf(),
            final(self).layouts().len() == old(self).layouts().len(),
            forall|i: int|
                0 <= i < old(self).layouts().len() && i != layout_id ==> final(self).layouts()[i]
                    == old(self).layouts()[i],
            final(self).layouts()[layout_id as int].layout_id == layout_id,
            final(self).layouts()[layout_id as int].layout.widget_ids() == old(
                self,
            ).layouts()[layout_id as int].layout.widget_ids(),
            final(self).layouts()[layout_id as int].layout.widget_positions() == old(
                self,
            ).layouts()[layout_id as int].layout.widget_positions(),
            final(self).layouts()[layout_id as int].layout.padding() == padding,
            final(self).layouts()[layout_id as int].layout.dirty(),
            final(self).widgets() == old(self).widgets(),
            final(self).current() == old(self).current(),
            final(self).rate() == old(self).rate(),
            final(self).running() == old(self).running(),
    {
        self.layout_cache.get_layout_by_id(layout_id).layout.set_padding(padding);
    }

    /// The padding of the layout `layout_id`.
    pub fn get_padding(&self, layout_id: i32) -> (padding: PaddingConstraint)
        requires
            0 <= layout_id < self.layouts().len(),
        ensures
            padding == self.layouts()[layout_id as int].layout.padding(),
    {
        self.layout_cache.get_layout_cache()[layout_id as usize].layout.get_padding()
    }
}

} // verus!
