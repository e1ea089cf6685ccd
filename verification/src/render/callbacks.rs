use crate::render::widget_cache::{
    get_widget_position_by_name, position_by_name, WidgetContainer, WidgetContainerView,
};
use vstd::prelude::*;

verus! {

/// A callback that is due, with the arguments to hand to it.
///
/// The library never runs a handler. An event hook returns the callbacks that
/// are due, in the order in which they are due; whoever drives the library takes
/// each handler out of its slot, runs it, and puts it back.
#[derive(Clone, Copy, Debug, PartialEq, Eq, Structural)]
pub enum Callback {
    /// A frame has gone by.
    Tick,
    /// The pointer came into the widget's bounds.
    MouseEntered,
    /// The pointer left the widget's bounds.
    MouseExited,
    /// The pointer moved to `(x, y)`.
    MouseMoved { x: i32, y: i32 },
    /// The wheel turned by `x` horizontally and `y` vertically.
    MouseScrolled { x: i32, y: i32 },
    /// Button `button` went down (`state`) or up, after `clicks` clicks.
    MouseClicked { button: u8, clicks: u8, state: bool },
    /// A button widget was clicked.
    Clicked,
    /// A widget that can be toggled changed its state to `selected`.
    Toggled { selected: bool },
    /// A slider moved to `value`.
    ValueChanged { value: u32 },
    /// A list took `item` as its selection.
    Selected { item: i32 },
    /// A tab bar took `tab` as its selection.
    TabSelected { tab: u16 },
    /// A timer ran out.
    TimedOut,
}

/// A button of the mouse.
#[derive(Clone, Copy, Debug, PartialEq, Eq, Structural)]
pub enum MouseButton {
    Unknown,
    Left,
    Right,
    Middle,
    X1,
    X2,
}

/// A button of any device.
#[derive(Clone, Copy, Debug, PartialEq, Eq, Structural)]
pub enum Button {
    /// A key of the keyboard.
    Keyboard,
    /// A button of the mouse.
    Mouse(MouseButton),
    /// A button of a controller.
    Controller,
}

/// An event as a widget is told of it by hand, and as a widget answers: the
/// pointer came or went, a button went down, a button went up inside or outside
/// the widget, the widget was clicked.
#[derive(Clone, Copy, Debug, PartialEq, Eq, Structural)]
pub enum CallbackEvent {
    MouseEntered { widget_id: i32 },
    MouseExited { widget_id: i32 },
    MouseButtonDown { widget_id: i32, button: Button },
    MouseButtonUpInside { widget_id: i32, button: Button },
    MouseButtonUpOutside { widget_id: i32, button: Button },
    WidgetClicked { widget_id: i32, button: Button },
}

/// The slot a handler is kept in.
#[derive(Clone, Copy, Debug, PartialEq, Eq, Structural)]
pub enum CallbackSlot {
    Tick,
    MouseEntered,
    MouseExited,
    MouseMoved,
    MouseScrolled,
    MouseClicked,
    /// The one slot of the widget's own kind: click, toggle, value change,
    /// selection or timeout.
    Widget,
}

impl Callback {
    /// The slot that holds the handler of this callback.
    pub open spec fn spec_slot(self) -> CallbackSlot {
        match self {
            Callback::Tick => CallbackSlot::Tick,
            Callback::MouseEntered => CallbackSlot::MouseEntered,
            Callback::MouseExited => CallbackSlot::MouseExited,
            Callback::MouseMoved { .. } => CallbackSlot::MouseMoved,
            Callback::MouseScrolled { .. } => CallbackSlot::MouseScrolled,
            Callback::MouseClicked { .. } => CallbackSlot::MouseClicked,
            _ => CallbackSlot::Widget,
        }
    }

    /// The slot that holds the handler of this callback.
    #[verifier::when_used_as_spec(spec_slot)]
    pub fn slot(self) -> (s: CallbackSlot)
        ensures
            s == self.spec_slot(),
    {
        match self {
            Callback::Tick => CallbackSlot::Tick,
            Callback::MouseEntered => CallbackSlot::MouseEntered,
            Callback::MouseExited => CallbackSlot::MouseExited,
            Callback::MouseMoved { .. } => CallbackSlot::MouseMoved,
            Callback::MouseScrolled { .. } => CallbackSlot::MouseScrolled,
            Callback::MouseClicked { .. } => CallbackSlot::MouseClicked,
            _ => CallbackSlot::Widget,
        }
    }
}

/// A callback that is due, and the widget it is due on.
#[derive(Clone, Copy, Debug, PartialEq, Eq, Structural)]
pub struct PendingCallback {
    pub widget_id: i32,
    pub callback: Callback,
}

/// The callbacks `fired` as due on widget `widget_id`.
pub open spec fn pending_on(widget_id: i32, fired: Seq<Callback>) -> Seq<PendingCallback> {
    fired.map(|i: int, c: Callback| PendingCallback { widget_id, callback: c })
}

/// The handlers of a widget for the six events that every widget hears, one slot
/// each, with a flag per slot that says whether a handler was ever set.
///
/// A handler is taken out of its slot while it runs and put back afterwards. The
/// flag stays up meanwhile, and a slot that is empty fires nothing: a handler that
/// is running is not started a second time.
pub struct CallbackRegistry<H> {
    /// Runs once per frame.
    pub on_tick: Option<H>,
    /// Runs when the pointer comes into the widget's bounds.
    pub on_mouse_entered: Option<H>,
    /// Runs when the pointer leaves the widget's bounds.
    pub on_mouse_exited: Option<H>,
    /// Runs when the pointer moves inside the widget's bounds.
    pub on_mouse_moved: Option<H>,
    /// Runs when the wheel turns over the widget.
    pub on_mouse_scrolled: Option<H>,
    /// Runs when a mouse button goes down or up.
    pub on_mouse_clicked: Option<H>,
    pub has_on_tick: bool,
    pub has_on_mouse_entered: bool,
    pub has_on_mouse_exited: bool,
    pub has_on_mouse_moved: bool,
    pub has_on_mouse_scrolled: bool,
    pub has_on_mouse_clicked: bool,
}

impl<H> CallbackRegistry<H> {
    /// The registry with no handler in any slot.
    pub open spec fn empty() -> CallbackRegistry<H> {
        CallbackRegistry {
            on_tick: None,
            on_mouse_entered: None,
            on_mouse_exited: None,
            on_mouse_moved: None,
            on_mouse_scrolled: None,
            on_mouse_clicked: None,
            has_on_tick: false,
            has_on_mouse_entered: false,
            has_on_mouse_exited: false,
            has_on_mouse_moved: false,
            has_on_mouse_scrolled: false,
            has_on_mouse_clicked: false,
        }
    }

    /// The handler in `slot`. The slot of the widget's own kind is not kept here.
    pub open spec fn handler(self, slot: CallbackSlot) -> Option<H> {
        match slot {
            CallbackSlot::Tick => self.on_tick,
            CallbackSlot::MouseEntered => self.on_mouse_entered,
            CallbackSlot::MouseExited => self.on_mouse_exited,
            CallbackSlot::MouseMoved => self.on_mouse_moved,
            CallbackSlot::MouseScrolled => self.on_mouse_scrolled,
            CallbackSlot::MouseClicked => self.on_mouse_clicked,
            CallbackSlot::Widget => None,
        }
    }

    /// Whether a handler was set for `slot`.
    pub open spec fn is_set(self, slot: CallbackSlot) -> bool {
        match slot {
            CallbackSlot::Tick => self.has_on_tick,
            CallbackSlot::MouseEntered => self.has_on_mouse_entered,
            CallbackSlot::MouseExited => self.has_on_mouse_exited,
            CallbackSlot::MouseMoved => self.has_on_mouse_moved,
            CallbackSlot::MouseScrolled => self.has_on_mouse_scrolled,
            CallbackSlot::MouseClicked => self.has_on_mouse_clicked,
            CallbackSlot::Widget => false,
        }
    }

    /// The registry with `handler` in `slot`, the flags as they are.
    pub open spec fn with_handler(self, slot: CallbackSlot, handler: Option<H>) -> CallbackRegistry<
        H,
    > {
        match slot {
            CallbackSlot::Tick => CallbackRegistry { on_tick: handler, ..self },
            CallbackSlot::MouseEntered => CallbackRegistry { on_mouse_entered: handler, ..self },
            CallbackSlot::MouseExited => CallbackRegistry { on_mouse_exited: handler, ..self },
            CallbackSlot::MouseMoved => CallbackRegistry { on_mouse_moved: handler, ..self },
            CallbackSlot::MouseScrolled => CallbackRegistry { on_mouse_scrolled: handler, ..self },
            CallbackSlot::MouseClicked => CallbackRegistry { on_mouse_clicked: handler, ..self },
            CallbackSlot::Widget => self,
        }
    }

    /// Whether `callback` would run now: its handler was set and sits in its slot.
    pub open spec fn is_due(self, callback: Callback) -> bool {
        self.is_set(callback.slot()) && self.handler(callback.slot()) is Some
    }

    /// What an event fires: `callback` alone where it is due, else nothing.
    pub open spec fn fired(self, callback: Callback) -> Seq<Callback> {
        if self.is_due(callback) {
            seq![callback]
        } else {
            Seq::<Callback>::empty()
        }
    }

    /// A registry without handlers.
    pub fn new() -> (r: CallbackRegistry<H>)
        ensures
            r == CallbackRegistry::<H>::empty(),
    {
        CallbackRegistry {
            on_tick: None,
            on_mouse_entered: None,
            on_mouse_exited: None,
            on_mouse_moved: None,
            on_mouse_scrolled: None,
            on_mouse_clicked: None,
            has_on_tick: false,
            has_on_mouse_entered: false,
            has_on_mouse_exited: false,
            has_on_mouse_moved: false,
            has_on_mouse_scrolled: false,
            has_on_mouse_clicked: false,
        }
    }

    /// Sets the handler that runs once per frame.
    pub fn on_tick(&mut self, callback: H)
        ensures
            *final(self) == (CallbackRegistry {
                on_tick: Some(callback),
                has_on_tick: true,
                ..*old(self)
            }),
    {
        self.on_tick = Some(callback);
        self.has_on_tick = true;
    }

    /// Sets the handler that runs when the pointer comes into the widget's bounds.
    pub fn on_mouse_entered(&mut self, callback: H)
        ensures
            *final(self) == (CallbackRegistry {
                on_mouse_entered: Some(callback),
                has_on_mouse_entered: true,
                ..*old(self)
            }),
    {
        self.on_mouse_entered = Some(callback);
        self.has_on_mouse_entered = true;
    }

    /// Sets the handler that runs when the pointer leaves the widget's bounds.
    pub fn on_mouse_exited(&mut self, callback: H)
        ensures
            *final(self) == (CallbackRegistry {
                on_mouse_exited: Some(callback),
                has_on_mouse_exited: true,
                ..*old(self)
            }),
    {
        self.on_mouse_exited = Some(callback);
        self.has_on_mouse_exited = true;
    }

    /// Sets the handler that runs when the pointer moves inside the widget's bounds.
    pub fn on_mouse_moved(&mut self, callback: H)
        ensures
            *final(self) == (CallbackRegistry {
                on_mouse_moved: Some(callback),
                has_on_mouse_moved: true,
                ..*old(self)
            }),
    {
        self.on_mouse_moved = Some(callback);
        self.has_on_mouse_moved = true;
    }

    /// Sets the handler that runs when the wheel turns over the widget.
    pub fn on_mouse_scrolled(&mut self, callback: H)
        ensures
            *final(self) == (CallbackRegistry {
                on_mouse_scrolled: Some(callback),
                has_on_mouse_scrolled: true,
                ..*old(self)
            }),
    {
        self.on_mouse_scrolled = Some(callback);
        self.has_on_mouse_scrolled = true;
    }

    /// Sets the handler that runs when a mouse button goes down or up.
    pub fn on_mouse_clicked(&mut self, callback: H)
        ensures
            *final(self) == (CallbackRegistry {
                on_mouse_clicked: Some(callback),
                has_on_mouse_clicked: true,
                ..*old(self)
            }),
    {
        self.on_mouse_clicked = Some(callback);
        self.has_on_mouse_clicked = true;
    }

    /// Whether a tick handler was set.
    pub fn has_on_tick(&self) -> (b: bool)
        ensures
            b == self.has_on_tick,
    {
        self.has_on_tick
    }

    /// Whether a handler for the pointer coming in was set.
    pub fn has_on_mouse_entered(&self) -> (b: bool)
        ensures
            b == self.has_on_mouse_entered,
    {
        self.has_on_mouse_entered
    }

    /// Whether a handler for the pointer leaving was set.
    pub fn has_on_mouse_exited(&self) -> (b: bool)
        ensures
            b == self.has_on_mouse_exited,
    {
        self.has_on_mouse_exited
    }

    /// Whether a handler for pointer movement was set.
    pub fn has_on_mouse_moved(&self) -> (b: bool)
        ensures
            b == self.has_on_mouse_moved,
    {
        self.has_on_mouse_moved
    }

    /// Whether a handler for the wheel was set.
    pub fn has_on_mouse_scrolled(&self) -> (b: bool)
        ensures
            b == self.has_on_mouse_scrolled,
    {
        self.has_on_mouse_scrolled
    }

    /// Whether a handler for the mouse buttons was set.
    pub fn has_on_mouse_clicked(&self) -> (b: bool)
        ensures
            b == self.has_on_mouse_clicked,
    {
        self.has_on_mouse_clicked
    }

    /// Takes the handler out of `slot`, to run it. The slot is empty until the
    /// handler is put back; the flag of the slot stays as it is.
    pub fn take(&mut self, slot: CallbackSlot) -> (handler: Option<H>)
        ensures
            handler == old(self).handler(slot),
            *final(self) == old(self).with_handler(slot, None),
    {
        match slot {
            CallbackSlot::Tick => self.on_tick.take(),
            CallbackSlot::MouseEntered => self.on_mouse_entered.take(),
            CallbackSlot::MouseExited => self.on_mouse_exited.take(),
            CallbackSlot::MouseMoved => self.on_mouse_moved.take(),
            CallbackSlot::MouseScrolled => self.on_mouse_scrolled.take(),
            CallbackSlot::MouseClicked => self.on_mouse_clicked.take(),
            CallbackSlot::Widget => None,
        }
    }

    /// Puts a handler back into `slot` after it has run, in place of whatever the
    /// slot holds by then. Hands the handler back where the registry keeps no
    /// such slot.
    pub fn restore(&mut self, slot: CallbackSlot, handler: H) -> (rest: Option<H>)
        ensures
            slot != CallbackSlot::Widget ==> rest is None && *final(self) == old(self).with_handler(
                slot,
                Some(handler),
            ),
            slot == CallbackSlot::Widget ==> rest == Some(handler) && *final(self) == *old(self),
    {
        match slot {
            CallbackSlot::Tick => {
                self.on_tick = Some(handler);
                None
            },
            CallbackSlot::MouseEntered => {
                self.on_mouse_entered = Some(handler);
                None
            },
            CallbackSlot::MouseExited => {
                self.on_mouse_exited = Some(handler);
                None
            },
            CallbackSlot::MouseMoved => {
                self.on_mouse_moved = Some(handler);
                None
            },
            CallbackSlot::MouseScrolled => {
                self.on_mouse_scrolled = Some(handler);
                None
            },
            CallbackSlot::MouseClicked => {
                self.on_mouse_clicked = Some(handler);
                None
            },
            CallbackSlot::Widget => Some(handler),
        }
    }

    /// The callbacks that an event fires: `callback` alone where its handler was
    /// set and sits in its slot, else none.
    pub fn fire(&self, callback: Callback) -> (fired: Vec<Callback>)
        ensures
            fired@ == self.fired(callback),
    {
        let due = match callback.slot() {
            CallbackSlot::Tick => self.has_on_tick && self.on_tick.is_some(),
            CallbackSlot::MouseEntered => self.has_on_mouse_entered
                && self.on_mouse_entered.is_some(),
            CallbackSlot::MouseExited => self.has_on_mouse_exited && self.on_mouse_exited.is_some(),
            CallbackSlot::MouseMoved => self.has_on_mouse_moved && self.on_mouse_moved.is_some(),
            CallbackSlot::MouseScrolled => self.has_on_mouse_scrolled
                && self.on_mouse_scrolled.is_some(),
            CallbackSlot::MouseClicked => self.has_on_mouse_clicked
                && self.on_mouse_clicked.is_some(),
            CallbackSlot::Widget => false,
        };
        let mut fired: Vec<Callback> = Vec::new();
        if due {
            fired.push(callback);
        }
        fired
    }
}

/// The id under which `name` is found in `widgets`: the id of the first widget of
/// that name, or 0 where no widget has it or the id found is negative. The id 0
/// stands for no widget in particular: the first widget of an engine is its
/// background.
pub open spec fn id_for_name<H>(widgets: Seq<WidgetContainerView<H>>, name: Seq<char>) -> nat {
    if position_by_name(widgets, name) >= 0 {
        position_by_name(widgets, name) as nat
    } else {
        0
    }
}

/// The id of the widget that goes by `name`: of the first such widget in `widgets`
/// where several do, and 0 where none does.
pub fn widget_id_for_name<H>(widgets: &[WidgetContainer<H>], name: String) -> (id: usize)
    ensures
        id == id_for_name(widgets@.map_values(|c: WidgetContainer<H>| c@), name@),
{
    let found = get_widget_position_by_name(widgets, name);
    if found >= 0 {
        found as usize
    } else {
        0
    }
}

} // verus!
