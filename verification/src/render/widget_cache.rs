use crate::render::Points;
use crate::render::callbacks::{Callback, CallbackSlot, pending_on, PendingCallback};
use crate::render::widget::{Rect, Widget};
use crate::render::widget_store::{WidgetStore, WidgetStoreView};
use vstd::prelude::*;

verus! {

/// A widget in the cache as a mathematical value: the widget, its name and its id.
pub struct WidgetContainerView<H> {
    pub widget: WidgetStoreView<H>,
    pub name: Seq<char>,
    pub id: i32,
}

impl<H> WidgetContainerView<H> {
    /// The container with `widget` in place of its own.
    pub open spec fn with_widget(self, widget: WidgetStoreView<H>) -> WidgetContainerView<H> {
        WidgetContainerView { widget, ..self }
    }
}

/// A widget as the cache keeps it: the widget, the name it was added under, and
/// the id it was given.
pub struct WidgetContainer<H> {
    widget: WidgetStore<H>,
    widget_name: String,
    widget_id: i32,
}

impl<H> View for WidgetContainer<H> {
    type V = WidgetContainerView<H>;

    closed spec fn view(&self) -> WidgetContainerView<H> {
        WidgetContainerView { widget: self.widget@, name: self.widget_name@, id: self.widget_id }
    }
}

impl<H> WidgetContainer<H> {
    /// A container for `widget` under the name `widget_name` and the id `widget_id`.
    pub fn new(widget: WidgetStore<H>, widget_name: String, widget_id: i32) -> (c: WidgetContainer<
        H,
    >)
        ensures
            c@ == (WidgetContainerView { widget: widget@, name: widget_name@, id: widget_id }),
    {
        WidgetContainer { widget, widget_name, widget_id }
    }

    /// The name of the widget.
    pub fn get_widget_name(&self) -> (name: String)
        ensures
            name@ == self@.name,
    {
        self.widget_name.clone()
    }

    /// Whether the widget goes by `name`.
    pub fn is_named(&self, name: &String) -> (b: bool)
        ensures
            b == (self@.name == name@),
    {
        self.widget_name == *name
    }

    /// The id of the widget.
    pub fn get_widget_id(&self) -> (id: i32)
        ensures
            id == self@.id,
    {
        self.widget_id
    }

    /// The widget.
    pub fn widget(&self) -> (w: &WidgetStore<H>)
        ensures
            w@ == self@.widget,
    {
        &self.widget
    }

    /// The widget, to change it.
    pub fn widget_mut(&mut self) -> (w: &mut WidgetStore<H>)
        ensures
            w@ == old(self)@.widget,
            final(self)@ == old(self)@.with_widget(final(w)@),
    {
        &mut self.widget
    }

    /// Asks for the redraw of the widget, unless its id is `skip_id`.
    pub fn invalidate_except(&mut self, skip_id: i32)
        ensures
            final(self)@ == invalidated_except(old(self)@, skip_id),
    {
        if self.widget_id != skip_id {
            self.widget.set_invalidated(true);
        }
    }

    /// The paint request for the widget, if it is shown. A widget that is asked
    /// for has its redraw flag taken down.
    pub fn paint(&mut self) -> (request: Option<DrawRequest>)
        ensures
            final(self)@ == painted(old(self)@),
            request == if old(self)@.widget.config().hidden {
                None
            } else {
                Some(draw_request(old(self)@))
            },
    {
        if self.widget.config().is_hidden() {
            None
        } else {
            let redraw = self.widget.is_invalidated();
            let area = self.widget.get_drawing_area();
            self.widget.set_invalidated(false);
            Some(DrawRequest { widget_id: self.widget_id, area, redraw })
        }
    }
}

/// A request to paint one widget: its id, its bounds on the screen, and whether its
/// picture has to be made anew or the last one still stands.
#[derive(Clone, Copy, Debug, PartialEq, Eq, Structural)]
pub struct DrawRequest {
    pub widget_id: i32,
    pub area: Rect,
    pub redraw: bool,
}

/// The id of the widget that a pointer at `(x, y)` hits, among the first `n`
/// widgets of `cache`: the last of them that is hit, or 0 where none is.
pub open spec fn hit_among<H>(cache: Seq<WidgetContainerView<H>>, x: int, y: int, n: nat) -> int
    decreases n,
{
    if n == 0 {
        0
    } else if cache[n - 1].widget.is_hit(x, y) {
        n - 1
    } else {
        hit_among(cache, x, y, (n - 1) as nat)
    }
}

/// The id of the widget that a pointer at `(x, y)` hits: of the widgets that are
/// shown, enabled and hold the point, the one that was added last. Where there is
/// none it is 0, the id of the first widget, which stands for the background.
pub open spec fn hit_test<H>(cache: Seq<WidgetContainerView<H>>, x: int, y: int) -> int {
    hit_among(cache, x, y, cache.len())
}

/// The widget that is hit is in the cache (or is 0), it is hit itself unless it is
/// 0, and no widget after it is hit.
pub proof fn lemma_hit_among<H>(cache: Seq<WidgetContainerView<H>>, x: int, y: int, n: nat)
    requires
        n <= cache.len(),
    ensures
        0 <= hit_among(cache, x, y, n),
        hit_among(cache, x, y, n) < n || hit_among(cache, x, y, n) == 0,
        hit_among(cache, x, y, n) != 0 ==> cache[hit_among(cache, x, y, n)].widget.is_hit(x, y),
        forall|j: int|
            hit_among(cache, x, y, n) < j < n ==> !(#[trigger] cache[j]).widget.is_hit(x, y),
    decreases n,
{
    if n > 0 && !cache[n - 1].widget.is_hit(x, y) {
        lemma_hit_among(cache, x, y, (n - 1) as nat);
    }
}

/// Where two widgets overlap, the one that was added later is hit: for widgets `a`
/// and `b` that both are hit at `(x, y)`, `a` added before `b`, the hit test does
/// not give `a`, and it gives `b` unless a widget added after `b` is hit as well.
pub proof fn lemma_later_widget_wins<H>(
    cache: Seq<WidgetContainerView<H>>,
    x: int,
    y: int,
    a: int,
    b: int,
)
    requires
        0 <= a < b < cache.len(),
        cache[a].widget.is_hit(x, y),
        cache[b].widget.is_hit(x, y),
    ensures
        hit_test(cache, x, y) >= b,
        hit_test(cache, x, y) != a,
        (forall|j: int| b < j < cache.len() ==> !(#[trigger] cache[j]).widget.is_hit(x, y))
            ==> hit_test(cache, x, y) == b,
{
    lemma_hit_among(cache, x, y, cache.len());
}

/// The containers after each of the first `n` widgets heard the mouse button, in
/// the order of their ids, and the callbacks that are due.
pub open spec fn clicked_all<H>(
    cache: Seq<WidgetContainerView<H>>,
    button: u8,
    clicks: u8,
    state: bool,
    n: nat,
) -> (Seq<WidgetContainerView<H>>, Seq<PendingCallback>)
    decreases n,
{
    if n == 0 {
        (cache, Seq::<PendingCallback>::empty())
    } else {
        let (before, fired) = clicked_all(cache, button, clicks, state, (n - 1) as nat);
        let (widget, more) = before[n - 1].widget.button_clicked(button, clicks, state);
        (
            before.update(n - 1, before[n - 1].with_widget(widget)),
            fired + pending_on(before[n - 1].id, more),
        )
    }
}

/// The containers after each of the first `n` widgets heard the tick at `now`, in
/// the order of their ids, and the callbacks that are due.
pub open spec fn ticked_all<H>(cache: Seq<WidgetContainerView<H>>, now: u64, n: nat) -> (
    Seq<WidgetContainerView<H>>,
    Seq<PendingCallback>,
)
    decreases n,
{
    if n == 0 {
        (cache, Seq::<PendingCallback>::empty())
    } else {
        let (before, fired) = ticked_all(cache, now, (n - 1) as nat);
        let (widget, more) = before[n - 1].widget.tick(now);
        (
            before.update(n - 1, before[n - 1].with_widget(widget)),
            fired + pending_on(before[n - 1].id, more),
        )
    }
}

/// Whether `after` holds as many widgets as `before`, under the same names and ids.
pub open spec fn same_widgets<H>(
    before: Seq<WidgetContainerView<H>>,
    after: Seq<WidgetContainerView<H>>,
) -> bool {
    &&& after.len() == before.len()
    &&& forall|j: int|
        0 <= j < before.len() ==> (#[trigger] after[j]).id == before[j].id && after[j].name
            == before[j].name
}

/// Telling the first `n` widgets of a mouse button neither adds nor removes a
/// widget, nor changes a name or an id.
pub proof fn lemma_clicked_all_same_widgets<H>(
    widgets: Seq<WidgetContainerView<H>>,
    button: u8,
    clicks: u8,
    state: bool,
    n: nat,
)
    requires
        n <= widgets.len(),
    ensures
        same_widgets(widgets, clicked_all(widgets, button, clicks, state, n).0),
    decreases n,
{
    if n > 0 {
        lemma_clicked_all_same_widgets(widgets, button, clicks, state, (n - 1) as nat);
    }
}

/// Telling the first `n` widgets of a tick neither adds nor removes a widget, nor
/// changes a name or an id.
pub proof fn lemma_ticked_all_same_widgets<H>(
    widgets: Seq<WidgetContainerView<H>>,
    now: u64,
    n: nat,
)
    requires
        n <= widgets.len(),
    ensures
        same_widgets(widgets, ticked_all(widgets, now, n).0),
    decreases n,
{
    if n > 0 {
        lemma_ticked_all_same_widgets(widgets, now, (n - 1) as nat);
    }
}

/// The paint request for the widget in `c`: its id, its bounds, and its redraw
/// flag.
pub open spec fn draw_request<H>(c: WidgetContainerView<H>) -> DrawRequest {
    DrawRequest {
        widget_id: c.id,
        area: Rect {
            x: c.widget.config().origin().0,
            y: c.widget.config().origin().1,
            w: c.widget.config().extent().0,
            h: c.widget.config().extent().1,
        },
        redraw: c.widget.config().invalidated,
    }
}

/// The paint requests for the first `n` widgets of `cache`: one for each widget
/// that is shown, in the order of the ids.
pub open spec fn draw_requests<H>(cache: Seq<WidgetContainerView<H>>, n: nat) -> Seq<DrawRequest>
    decreases n,
{
    if n == 0 {
        Seq::<DrawRequest>::empty()
    } else if cache[n - 1].widget.config().hidden {
        draw_requests(cache, (n - 1) as nat)
    } else {
        draw_requests(cache, (n - 1) as nat).push(draw_request(cache[n - 1]))
    }
}

/// A container after its widget was painted: a widget that is shown has its redraw
/// flag down, a hidden widget is as it was.
pub open spec fn painted<H>(c: WidgetContainerView<H>) -> WidgetContainerView<H> {
    if c.widget.config().hidden {
        c
    } else {
        c.with_widget(c.widget.with_config(c.widget.config().with_invalidated(false)))
    }
}

/// The widgets of an application, in the order in which they were added. A widget's
/// id is its place in that order; ids are never given twice.
pub struct WidgetCache<H> {
    cache: Vec<WidgetContainer<H>>,
}

impl<H> View for WidgetCache<H> {
    type V = Seq<WidgetContainerView<H>>;

    closed spec fn view(&self) -> Seq<WidgetContainerView<H>> {
        self.cache@.map_values(|c: WidgetContainer<H>| c@)
    }
}

/// Whether every container of `cache` holds its place in the cache as its id, and
/// the ids fit in 32 bits.
pub open spec fn ids_in_order<H>(cache: Seq<WidgetContainerView<H>>) -> bool {
    &&& cache.len() <= i32::MAX
    &&& forall|i: int| 0 <= i < cache.len() ==> (#[trigger] cache[i]).id == i
}

impl<H> WidgetCache<H> {
    /// Whether the cache is in order: see `ids_in_order`.
    pub open spec fn wf(&self) -> bool {
        ids_in_order(self@)
    }

    /// Whether `widget_id` is the id of a widget in the cache.
    pub open spec fn has(&self, widget_id: i32) -> bool {
        0 <= widget_id < self@.len()
    }

    /// A cache without widgets.
    pub fn new() -> (c: WidgetCache<H>)
        ensures
            c@ == Seq::<WidgetContainerView<H>>::empty(),
            c.wf(),
    {
        let c = WidgetCache { cache: Vec::new() };
        assert(c@ =~= Seq::<WidgetContainerView<H>>::empty());
        c
    }

    /// The number of widgets.
    pub fn len(&self) -> (n: usize)
        ensures
            n == self@.len(),
    {
        self.cache.len()
    }

    /// Whether one more widget can be added: the next id still fits in 32 bits.
    pub fn has_room(&self) -> (b: bool)
        ensures
            b == (self@.len() < i32::MAX),
    {
        self.cache.len() < i32::MAX as usize
    }

    /// Adds `widget` under the name `widget_name`. Its id is the number of widgets
    /// that were there before. A name may be given twice; a lookup by name finds
    /// the widget that got it first.
    pub fn add_widget(&mut self, widget: WidgetStore<H>, widget_name: String) -> (widget_id: i32)
        requires
            old(self).wf(),
            old(self)@.len() < i32::MAX,
        ensures
            widget_id == old(self)@.len(),
            final(self)@ == old(self)@.push(
                WidgetContainerView { widget: widget@, name: widget_name@, id: widget_id },
            ),
            final(self).wf(),
    {
        let widget_id = self.cache.len() as i32;
        self.cache.push(WidgetContainer::new(widget, widget_name, widget_id));
        assert(final(self)@ =~= old(self)@.push(
            WidgetContainerView { widget: widget@, name: widget_name@, id: widget_id },
        ));
        widget_id
    }

    /// The widgets with their names and ids, in the order of the ids.
    pub fn borrow_cache(&self) -> (cache: &[WidgetContainer<H>])
        ensures
            cache@.map_values(|c: WidgetContainer<H>| c@) == self@,
    {
        self.cache.as_slice()
    }

    /// The widget with the id `widget_id`.
    pub fn get_widget(&self, widget_id: i32) -> (w: &WidgetStore<H>)
        requires
            self.has(widget_id),
        ensures
            w@ == self@[widget_id as int].widget,
    {
        self.cache[widget_id as usize].widget()
    }

    /// The widget with the id `widget_id`, to change it.
    pub fn get_widget_mut(&mut self, widget_id: i32) -> (w: &mut WidgetStore<H>)
        requires
            old(self).has(widget_id),
        ensures
            w@ == old(self)@[widget_id as int].widget,
            final(self)@ == old(self)@.update(
                widget_id as int,
                old(self)@[widget_id as int].with_widget(final(w)@),
            ),
            old(self).wf() ==> final(self).wf(),
    {
        self.cache[widget_id as usize].widget_mut()
    }

    /// The id of the widget that a pointer at `(x, y)` hits. Of the widgets that
    /// are shown, enabled and hold the point, the one added last wins. Where there
    /// is none the answer is 0.
    pub fn find_widget(&self, x: i32, y: i32) -> (widget_id: i32)
        requires
            self.wf(),
        ensures
            widget_id == hit_test(self@, x as int, y as int),
            widget_id == 0 || self.has(widget_id),
    {
        let mut i: usize = self.cache.len();
        proof {
            lemma_hit_among(self@, x as int, y as int, self@.len());
        }
        while i > 0
            invariant
                i <= self.cache.len(),
                self.wf(),
                hit_test(self@, x as int, y as int) == hit_among(self@, x as int, y as int, i as nat),
            decreases i,
        {
            i = i - 1;
            if self.cache[i].widget().is_hit(x, y) {
                return i as i32;
            }
        }
        0
    }

    /// Tells the widget `widget_id` that the pointer came into its bounds.
    pub fn mouse_entered(&mut self, widget_id: i32) -> (fired: Vec<PendingCallback>)
        requires
            old(self).has(widget_id),
        ensures
            final(self)@ == old(self)@.update(
                widget_id as int,
                old(self)@[widget_id as int].with_widget(
                    old(self)@[widget_id as int].widget.mouse_entered().0,
                ),
            ),
            fired@ == pending_on(
                old(self)@[widget_id as int].id,
                old(self)@[widget_id as int].widget.mouse_entered().1,
            ),
            old(self).wf() ==> final(self).wf(),
    {
        let id = self.cache[widget_id as usize].get_widget_id();
        let fired = self.get_widget_mut(widget_id).mouse_entered();
        pending(id, fired)
    }

    /// Tells the widget `widget_id` that the pointer left its bounds.
    pub fn mouse_exited(&mut self, widget_id: i32) -> (fired: Vec<PendingCallback>)
        requires
            old(self).has(widget_id),
        ensures
            final(self)@ == old(self)@.update(
                widget_id as int,
                old(self)@[widget_id as int].with_widget(
                    old(self)@[widget_id as int].widget.mouse_exited().0,
                ),
            ),
            fired@ == pending_on(
                old(self)@[widget_id as int].id,
                old(self)@[widget_id as int].widget.mouse_exited().1,
            ),
            old(self).wf() ==> final(self).wf(),
    {
        let id = self.cache[widget_id as usize].get_widget_id();
        let fired = self.get_widget_mut(widget_id).mouse_exited();
        pending(id, fired)
    }

    /// Tells the widget `widget_id` that the pointer moved to `points`.
    pub fn mouse_moved(&mut self, widget_id: i32, points: Points) -> (fired: Vec<PendingCallback>)
        requires
            old(self).has(widget_id),
        ensures
            final(self)@ == old(self)@.update(
                widget_id as int,
                old(self)@[widget_id as int].with_widget(
                    old(self)@[widget_id as int].widget.mouse_moved(points[0], points[1]).0,
                ),
            ),
            fired@ == pending_on(
                old(self)@[widget_id as int].id,
                old(self)@[widget_id as int].widget.mouse_moved(points[0], points[1]).1,
            ),
            old(self).wf() ==> final(self).wf(),
    {
        let id = self.cache[widget_id as usize].get_widget_id();
        let fired = self.get_widget_mut(widget_id).mouse_moved(points);
        pending(id, fired)
    }

    /// Tells the widget `widget_id` that the wheel turned by `points`.
    pub fn mouse_scrolled(&mut self, widget_id: i32, points: Points) -> (fired: Vec<
        PendingCallback,
    >)
        requires
            old(self).has(widget_id),
        ensures
            final(self)@ == old(self)@.update(
                widget_id as int,
                old(self)@[widget_id as int].with_widget(
                    old(self)@[widget_id as int].widget.mouse_scrolled(points[0], points[1]).0,
                ),
            ),
            fired@ == pending_on(
                old(self)@[widget_id as int].id,
                old(self)@[widget_id as int].widget.mouse_scrolled(points[0], points[1]).1,
            ),
            old(self).wf() ==> final(self).wf(),
    {
        let id = self.cache[widget_id as usize].get_widget_id();
        let fired = self.get_widget_mut(widget_id).mouse_scrolled(points);
        pending(id, fired)
    }

    /// Tells the widget `widget_id` that a mouse button went down (`state`) or up.
    /// With -1 for `widget_id` every widget is told, in the order of the ids: a
    /// release is heard by all, so that the widget a press began on hears its end
    /// wherever the pointer has gone.
    pub fn button_clicked(&mut self, widget_id: i32, button: u8, clicks: u8, state: bool) -> (fired:
        Vec<PendingCallback>)
        requires
            widget_id == -1 || old(self).has(widget_id),
        ensures
            widget_id == -1 ==> (final(self)@, fired@) == clicked_all(
                old(self)@,
                button,
                clicks,
                state,
                old(self)@.len(),
            ),
            widget_id != -1 ==> final(self)@ == old(self)@.update(
                widget_id as int,
                old(self)@[widget_id as int].with_widget(
                    old(self)@[widget_id as int].widget.button_clicked(button, clicks, state).0,
                ),
            ) && fired@ == pending_on(
                old(self)@[widget_id as int].id,
                old(self)@[widget_id as int].widget.button_clicked(button, clicks, state).1,
            ),
            old(self).wf() ==> final(self).wf(),
    {
        if widget_id == -1 {
            proof {
                lemma_clicked_all_same_widgets(self@, button, clicks, state, self@.len());
            }
            let mut fired: Vec<PendingCallback> = Vec::new();
            let mut i: usize = 0;
            while i < self.cache.len()
                invariant
                    i <= self.cache.len(),
                    self@.len() == old(self)@.len(),
                    (self@, fired@) == clicked_all(old(self)@, button, clicks, state, i as nat),
                decreases self.cache.len() - i,
            {
                let ghost before = self@;
                let id = self.cache[i].get_widget_id();
                let more = self.cache[i].widget_mut().button_clicked(button, clicks, state);
                let mut more = pending(id, more);
                fired.append(&mut more);
                proof {
                    assert(self@ =~= before.update(
                        i as int,
                        before[i as int].with_widget(
                            before[i as int].widget.button_clicked(button, clicks, state).0,
                        ),
                    ));
                }
                i = i + 1;
            }
            fired
        } else {
            let id = self.cache[widget_id as usize].get_widget_id();
            let fired = self.get_widget_mut(widget_id).button_clicked(button, clicks, state);
            pending(id, fired)
        }
    }

    /// Tells the widget `widget_id` of an event that the engine has no name for.
    /// No widget of the library does anything about it.
    pub fn other_event(&mut self, widget_id: i32) -> (fired: Vec<PendingCallback>)
        requires
            old(self).has(widget_id),
        ensures
            final(self)@ == old(self)@,
            fired@ == Seq::<PendingCallback>::empty(),
            old(self).wf() ==> final(self).wf(),
    {
        Vec::new()
    }

    /// Tells every widget that a frame went by, at the time `now` in milliseconds,
    /// in the order of the ids. Hidden and disabled widgets are told as the others.
    pub fn tick(&mut self, now: u64) -> (fired: Vec<PendingCallback>)
        ensures
            (final(self)@, fired@) == ticked_all(old(self)@, now, old(self)@.len()),
            old(self).wf() ==> final(self).wf(),
    {
        proof {
            lemma_ticked_all_same_widgets(self@, now, self@.len());
        }
        let mut fired: Vec<PendingCallback> = Vec::new();
        let mut i: usize = 0;
        while i < self.cache.len()
            invariant
                i <= self.cache.len(),
                self@.len() == old(self)@.len(),
                (self@, fired@) == ticked_all(old(self)@, now, i as nat),
            decreases self.cache.len() - i,
        {
            let ghost before = self@;
            let id = self.cache[i].get_widget_id();
            let more = self.cache[i].widget_mut().tick(now);
            let mut more = pending(id, more);
            fired.append(&mut more);
            proof {
                assert(self@ =~= before.update(
                    i as int,
                    before[i as int].with_widget(before[i as int].widget.tick(now).0),
                ));
            }
            i = i + 1;
        }
        fired
    }

    /// The paint requests of a frame: one for each widget that is shown, in the
    /// order of the ids. Every widget that is asked for has its redraw flag taken
    /// down; the request says whether it was up.
    pub fn draw_loop(&mut self) -> (requests: Vec<DrawRequest>)
        ensures
            requests@ == draw_requests(old(self)@, old(self)@.len()),
            final(self)@ == old(self)@.map_values(|c: WidgetContainerView<H>| painted(c)),
            old(self).wf() ==> final(self).wf(),
    {
        let mut requests: Vec<DrawRequest> = Vec::new();
        let mut i: usize = 0;
        while i < self.cache.len()
            invariant
                i <= self.cache.len(),
                self@.len() == old(self)@.len(),
                requests@ == draw_requests(old(self)@, i as nat),
                forall|j: int| 0 <= j < i ==> self@[j] == painted(old(self)@[j]),
                forall|j: int| i <= j < self@.len() ==> self@[j] == old(self)@[j],
            decreases self.cache.len() - i,
        {
            let ghost before = self@;
            match self.cache[i].paint() {
                Some(request) => {
                    requests.push(request);
                },
                None => {},
            }
            proof {
                assert(self@ =~= before.update(i as int, painted(before[i as int])));
            }
            i = i + 1;
        }
        proof {
            assert(self@ =~= old(self)@.map_values(|c: WidgetContainerView<H>| painted(c)));
        }
        requests
    }

    /// Puts the widget `widget_id` at `(x, y)` with the size `w` by `h`, and asks
    /// for its redraw.
    pub fn place(&mut self, widget_id: i32, x: i32, y: i32, w: u32, h: u32)
        requires
            old(self).has(widget_id),
        ensures
            final(self)@ == old(self)@.update(
                widget_id as int,
                placed(old(self)@[widget_id as int], x, y, w, h),
            ),
            old(self).wf() ==> final(self).wf(),
    {
        self.get_widget_mut(widget_id).get_config().place(x, y, w, h);
    }

    /// Takes the handler of the widget `widget_id` out of `slot`, to run it.
    pub fn take_callback(&mut self, widget_id: i32, slot: CallbackSlot) -> (handler: Option<H>)
        requires
            old(self).has(widget_id),
        ensures
            handler == old(self)@[widget_id as int].widget.handler(slot),
            final(self)@ == old(self)@.update(
                widget_id as int,
                old(self)@[widget_id as int].with_widget(
                    old(self)@[widget_id as int].widget.with_handler(slot, None),
                ),
            ),
            old(self).wf() ==> final(self).wf(),
    {
        self.get_widget_mut(widget_id).take_callback(slot)
    }

    /// Puts `handler` back into `slot` of the widget `widget_id` after it has run.
    /// Hands the handler back where the widget has no such slot.
    pub fn restore_callback(&mut self, widget_id: i32, slot: CallbackSlot, handler: H) -> (rest:
        Option<H>)
        requires
            old(self).has(widget_id),
        ensures
            rest is None ==> final(self)@ == old(self)@.update(
                widget_id as int,
                old(self)@[widget_id as int].with_widget(
                    old(self)@[widget_id as int].widget.with_handler(slot, Some(handler)),
                ),
            ),
            rest is Some ==> rest == Some(handler) && final(self)@ == old(self)@,
            rest is Some <==> slot == CallbackSlot::Widget && !old(
                self,
            )@[widget_id as int].widget.has_own_slot(),
            old(self).wf() ==> final(self).wf(),
    {
        let rest = self.get_widget_mut(widget_id).restore_callback(slot, handler);
        proof {
            if rest is Some {
                assert(final(self)@ =~= old(self)@);
            }
        }
        rest
    }
}

/// A container after a layout has placed its widget at `(x, y)` with the size `w`
/// by `h`.
pub open spec fn placed<H>(c: WidgetContainerView<H>, x: i32, y: i32, w: u32, h: u32)
    -> WidgetContainerView<H> {
    c.with_widget(c.widget.with_config(c.widget.config().place(x, y, w, h)))
}

/// The callbacks `fired` as due on the widget `widget_id`.
pub fn pending(widget_id: i32, fired: Vec<Callback>) -> (list: Vec<PendingCallback>)
    ensures
        list@ == pending_on(widget_id, fired@),
{
    let mut list: Vec<PendingCallback> = Vec::new();
    let mut i: usize = 0;
    while i < fired.len()
        invariant
            i <= fired.len(),
            list@ == pending_on(widget_id, fired@.take(i as int)),
        decreases fired.len() - i,
    {
        list.push(PendingCallback { widget_id, callback: fired[i] });
        proof {
            assert(list@ =~= pending_on(widget_id, fired@.take(i + 1)));
        }
        i = i + 1;
    }
    proof {
        assert(fired@.take(fired.len() as int) =~= fired@);
    }
    list
}

/// The id that the first widget of the name `name` bears in `widgets`, or 0 where
/// no widget has the name.
pub open spec fn position_by_name<H>(widgets: Seq<WidgetContainerView<H>>, name: Seq<char>) -> i32
    decreases widgets.len(),
{
    if widgets.len() == 0 {
        0
    } else if widgets[0].name == name {
        widgets[0].id
    } else {
        position_by_name(widgets.skip(1), name)
    }
}

/// A name is found under the id of the first widget that bears it, and under 0
/// if none does: `k` is the place of that widget where no widget before it bears
/// the name, and the number of widgets where none bears it at all.
pub proof fn lemma_position_by_name<H>(
    widgets: Seq<WidgetContainerView<H>>,
    name: Seq<char>,
    k: int,
)
    requires
        0 <= k <= widgets.len(),
        forall|i: int| 0 <= i < k ==> (#[trigger] widgets[i]).name != name,
    ensures
        k < widgets.len() && widgets[k].name == name ==> position_by_name(widgets, name)
            == widgets[k].id,
        k == widgets.len() ==> position_by_name(widgets, name) == 0,
    decreases k,
{
    if k > 0 {
        let rest = widgets.skip(1);
        assert forall|i: int| 0 <= i < k - 1 implies (#[trigger] rest[i]).name != name by {
            assert(rest[i] == widgets[i + 1]);
        }
        lemma_position_by_name(rest, name, k - 1);
        if k < widgets.len() {
            assert(rest[k - 1] == widgets[k]);
        }
        assert(widgets[0].name != name);
    }
}

/// The id that the first widget of the name `name` bears in `widgets`, or 0 where
/// no widget has the name.
pub fn get_widget_position_by_name<H>(widgets: &[WidgetContainer<H>], name: String) -> (id: i32)
    ensures
        id == position_by_name(widgets@.map_values(|c: WidgetContainer<H>| c@), name@),
{
    let ghost views = widgets@.map_values(|c: WidgetContainer<H>| c@);
    let mut i: usize = 0;
    while i < widgets.len()
        invariant
            i <= widgets.len(),
            views == widgets@.map_values(|c: WidgetContainer<H>| c@),
            forall|j: int| 0 <= j < i ==> (#[trigger] views[j]).name != name@,
        decreases widgets.len() - i,
    {
        if widgets[i].is_named(&name) {
            proof {
                lemma_position_by_name(views, name@, i as int);
            }
            return widgets[i].get_widget_id();
        }
        i = i + 1;
    }
    proof {
        lemma_position_by_name(views, name@, i as int);
    }
    0
}

/// A container after its widget was asked to be drawn anew, unless its id is
/// `skip_id`.
pub open spec fn invalidated_except<H>(c: WidgetContainerView<H>, skip_id: i32)
    -> WidgetContainerView<H> {
    if c.id != skip_id {
        c.with_widget(c.widget.with_config(c.widget.config().invalidate()))
    } else {
        c
    }
}

/// Asks for the redraw of every widget but the one whose id is `skip_id`.
pub fn invalidate_all_widgets_except<H>(widgets: &mut WidgetCache<H>, skip_id: i32)
    ensures
        final(widgets)@ == old(widgets)@.map_values(
            |c: WidgetContainerView<H>| invalidated_except(c, skip_id),
        ),
        old(widgets).wf() ==> final(widgets).wf(),
{
    let mut i: usize = 0;
    while i < widgets.cache.len()
        invariant
            i <= widgets.cache.len(),
            widgets@.len() == old(widgets)@.len(),
            forall|j: int| 0 <= j < i ==> widgets@[j] == invalidated_except(old(widgets)@[j], skip_id),
            forall|j: int| i <= j < widgets@.len() ==> widgets@[j] == old(widgets)@[j],
        decreases widgets.cache.len() - i,
    {
        let ghost before = widgets@;
        widgets.cache[i].invalidate_except(skip_id);
        proof {
            assert(widgets@ =~= before.update(
                i as int,
                invalidated_except(before[i as int], skip_id),
            ));
        }
        i = i + 1;
    }
    proof {
        assert(widgets@ =~= old(widgets)@.map_values(
            |c: WidgetContainerView<H>| invalidated_except(c, skip_id),
        ));
    }
}

} // verus!
