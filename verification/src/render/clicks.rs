use crate::render::callbacks::{Callback, pending_on, PendingCallback};
use crate::render::engine::{delivered, delivered_all, Dispatch, Event, handled};
use crate::render::widget_cache::{
    clicked_all, hit_test, ids_in_order, lemma_hit_among, WidgetContainerView,
};
use crate::render::widget_store::WidgetStoreView;
use crate::widgets::push_button_widget::PushButtonWidgetView;
use vstd::prelude::*;

verus! {

/// How often `a` occurs in `s`.
pub open spec fn occurrences<A>(s: Seq<A>, a: A) -> nat
    decreases s.len(),
{
    if s.len() == 0 {
        0
    } else {
        occurrences(s.drop_last(), a) + if s.last() == a {
            1nat
        } else {
            0nat
        }
    }
}

/// What occurs in two sequences put together is what occurs in the one and what
/// occurs in the other.
pub proof fn lemma_occurrences_add<A>(s: Seq<A>, t: Seq<A>, a: A)
    ensures
        occurrences(s + t, a) == occurrences(s, a) + occurrences(t, a),
    decreases t.len(),
{
    if t.len() == 0 {
        assert(s + t =~= s);
    } else {
        assert((s + t).drop_last() =~= s + t.drop_last());
        assert((s + t).last() == t.last());
        lemma_occurrences_add(s, t.drop_last(), a);
    }
}

/// The callbacks that one widget fired are due on that widget and on no other.
pub proof fn lemma_occurrences_pending(
    widget_id: i32,
    fired: Seq<Callback>,
    on: i32,
    callback: Callback,
)
    ensures
        occurrences(pending_on(widget_id, fired), PendingCallback { widget_id: on, callback })
            == if widget_id == on {
            occurrences(fired, callback)
        } else {
            0
        },
    decreases fired.len(),
{
    if fired.len() > 0 {
        assert(pending_on(widget_id, fired).drop_last() =~= pending_on(
            widget_id,
            fired.drop_last(),
        ));
        lemma_occurrences_pending(widget_id, fired.drop_last(), on, callback);
    }
}

/// A mouse button told to the first `n` widgets leaves each of them as its own
/// hook leaves it, and every other widget as it was; and a callback is due on a
/// widget as often as the hook of that widget fired it.
pub proof fn lemma_clicked_all<H>(
    widgets: Seq<WidgetContainerView<H>>,
    button: u8,
    clicks: u8,
    state: bool,
    n: nat,
    on: i32,
    callback: Callback,
)
    requires
        n <= widgets.len(),
        ids_in_order(widgets),
        0 <= on < widgets.len(),
    ensures
        clicked_all(widgets, button, clicks, state, n).0.len() == widgets.len(),
        forall|j: int|
            0 <= j < widgets.len() ==> #[trigger] clicked_all(
                widgets,
                button,
                clicks,
                state,
                n,
            ).0[j] == if j < n {
                widgets[j].with_widget(widgets[j].widget.button_clicked(button, clicks, state).0)
            } else {
                widgets[j]
            },
        occurrences(
            clicked_all(widgets, button, clicks, state, n).1,
            PendingCallback { widget_id: on, callback },
        ) == if on < n {
            occurrences(widgets[on as int].widget.button_clicked(button, clicks, state).1, callback)
        } else {
            0
        },
    decreases n,
{
    if n > 0 {
        lemma_clicked_all(widgets, button, clicks, state, (n - 1) as nat, on, callback);
        let (before, fired) = clicked_all(widgets, button, clicks, state, (n - 1) as nat);
        let more = before[n - 1].widget.button_clicked(button, clicks, state).1;
        assert(before[n - 1] == widgets[n - 1]);
        lemma_occurrences_add(
            fired,
            pending_on(before[n - 1].id, more),
            PendingCallback { widget_id: on, callback },
        );
        lemma_occurrences_pending(before[n - 1].id, more, on, callback);
    }
}

/// A release of the left button fires the click callback of a push button once if
/// the release is a click and a click handler is in its slot, and not at all if not.
pub proof fn lemma_release_on_button<H>(button: PushButtonWidgetView<H>, clicks: u8)
    ensures
        occurrences(button.button_clicked(1, clicks, false).1, Callback::Clicked) == if button.release_clicks()
            && button.on_click is Some {
            1nat
        } else {
            0nat
        },
{
    let generic = button.callbacks.fired(Callback::MouseClicked { button: 1, clicks, state: false });
    assert(occurrences(generic, Callback::Clicked) == 0) by {
        reveal_with_fuel(occurrences, 2);
        if generic.len() > 0 {
            assert(generic.drop_last() =~= Seq::<Callback>::empty());
        }
    }
    let own = button.own_fired(Callback::Clicked);
    assert(occurrences(own, Callback::Clicked) == if button.on_click is Some {
        1nat
    } else {
        0nat
    }) by {
        reveal_with_fuel(occurrences, 2);
        if own.len() > 0 {
            assert(own.drop_last() =~= Seq::<Callback>::empty());
        }
    }
    lemma_occurrences_add(own, generic, Callback::Clicked);
}

/// A press of the left button with the pointer over the widget `a` is heard by
/// `a` alone, and leaves the pointer where it is.
pub proof fn lemma_press_handled<H>(widgets: Seq<WidgetContainerView<H>>, a: i32, clicks: u8)
    requires
        ids_in_order(widgets),
        0 <= a < widgets.len(),
    ensures
        ({
            let pressed = handled(widgets, a, Event::MouseButtonDown { button: 1, clicks });
            &&& pressed.1 == a
            &&& ids_in_order(pressed.0)
            &&& pressed.0.len() == widgets.len()
            &&& pressed.0[a as int].widget == widgets[a as int].widget.button_clicked(
                1,
                clicks,
                true,
            ).0
        }),
{
    reveal_with_fuel(delivered_all, 2);
}

/// A movement of the pointer from the widget `a` onto another widget is heard by
/// `a` as the pointer leaving, and as nothing else.
pub proof fn lemma_drag_handled<H>(widgets: Seq<WidgetContainerView<H>>, a: i32, x: i32, y: i32)
    requires
        ids_in_order(widgets),
        0 <= a < widgets.len(),
        hit_test(widgets, x as int, y as int) != a,
    ensures
        ({
            let dragged = handled(widgets, a, Event::MouseMotion { x, y });
            &&& dragged.1 == hit_test(widgets, x as int, y as int)
            &&& ids_in_order(dragged.0)
            &&& dragged.0.len() == widgets.len()
            &&& dragged.0[a as int].widget == widgets[a as int].widget.mouse_exited().0
        }),
{
    reveal_with_fuel(delivered_all, 4);
    lemma_hit_among(widgets, x as int, y as int, widgets.len());
    let hit = hit_test(widgets, x as int, y as int) as i32;
    let left = delivered(widgets, Dispatch::MouseExited { widget_id: a }).0;
    let entered = delivered(left, Dispatch::MouseEntered { widget_id: hit }).0;
    let moved = delivered(entered, Dispatch::MouseMoved { widget_id: hit, x, y }).0;
    assert(handled(widgets, a, Event::MouseMotion { x, y }).0 == moved);
    assert(entered[a as int] == left[a as int]);
    assert(moved[a as int] == left[a as int]);
}

/// A release of the left button is heard by every widget, and a callback is due
/// on the widget `on` as often as the hook of `on` fired it.
pub proof fn lemma_release_handled<H>(
    widgets: Seq<WidgetContainerView<H>>,
    current: i32,
    clicks: u8,
    on: i32,
    callback: Callback,
)
    requires
        ids_in_order(widgets),
        0 <= on < widgets.len(),
    ensures
        occurrences(
            handled(widgets, current, Event::MouseButtonUp { button: 1, clicks }).2,
            PendingCallback { widget_id: on, callback },
        ) == occurrences(widgets[on as int].widget.button_clicked(1, clicks, false).1, callback),
{
    reveal_with_fuel(delivered_all, 2);
    lemma_clicked_all(widgets, 1, clicks, false, widgets.len(), on, callback);
    assert(handled(widgets, current, Event::MouseButtonUp { button: 1, clicks }).2
        =~= clicked_all(widgets, 1, clicks, false, widgets.len()).1);
}

/// A click on a button, seen from the engine.
///
/// For a push button `a` with a click handler and the pointer over it: after a
/// press and a release of the left button, the click callback is due on `a`
/// exactly once. After a press, a movement of the pointer onto another widget,
/// and a release, it is not due on `a` at all.
pub proof fn lemma_click_on_button<H>(
    widgets: Seq<WidgetContainerView<H>>,
    a: i32,
    clicks: u8,
    x: i32,
    y: i32,
)
    requires
        ids_in_order(widgets),
        0 <= a < widgets.len(),
        widgets[a as int].widget is PushButton,
        widgets[a as int].widget->PushButton_0.in_bounds,
        widgets[a as int].widget->PushButton_0.on_click is Some,
    ensures
        ({
            let pressed = handled(widgets, a, Event::MouseButtonDown { button: 1, clicks });
            let released = handled(pressed.0, pressed.1, Event::MouseButtonUp { button: 1, clicks });
            occurrences(released.2, PendingCallback { widget_id: a, callback: Callback::Clicked })
                == 1
        }),
        ({
            let pressed = handled(widgets, a, Event::MouseButtonDown { button: 1, clicks });
            let dragged = handled(pressed.0, pressed.1, Event::MouseMotion { x, y });
            let released = handled(dragged.0, dragged.1, Event::MouseButtonUp { button: 1, clicks });
            hit_test(pressed.0, x as int, y as int) != a ==> occurrences(
                released.2,
                PendingCallback { widget_id: a, callback: Callback::Clicked },
            ) == 0
        }),
{
    let button = widgets[a as int].widget->PushButton_0;
    let held = button.button_clicked(1, clicks, true).0;
    let pressed = handled(widgets, a, Event::MouseButtonDown { button: 1, clicks });
    lemma_press_handled(widgets, a, clicks);
    assert(pressed.0[a as int].widget == WidgetStoreView::PushButton(held));
    lemma_release_handled(pressed.0, pressed.1, clicks, a, Callback::Clicked);
    lemma_release_on_button(held, clicks);
    if hit_test(pressed.0, x as int, y as int) != a {
        let away = held.mouse_exited().0;
        let dragged = handled(pressed.0, pressed.1, Event::MouseMotion { x, y });
        lemma_drag_handled(pressed.0, a, x, y);
        assert(dragged.0[a as int].widget == WidgetStoreView::PushButton(away));
        lemma_release_handled(dragged.0, dragged.1, clicks, a, Callback::Clicked);
        lemma_release_on_button(away, clicks);
    }
}

} // verus!
