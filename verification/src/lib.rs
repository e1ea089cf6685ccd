//! A retained-mode widget toolkit core: widget configuration, callback slots,
//! the widget and layout caches, and the event routing of the engine.
//!
//! The library holds no window and draws nothing. It decides: which widget is under
//! the pointer, which widget hears which event and in what order, which callbacks
//! are due and with what arguments, where a layout puts its widgets, what has to be
//! redrawn, and how long a frame may still sleep. A backend polls the events, runs
//! the callbacks and paints the draw list.
//!
//! Handlers are values of a type `H` that the application chooses. The library
//! keeps them in the slots of their widgets and never runs one: an event hook
//! returns the callbacks that are due, and the backend takes each handler out of
//! its slot, runs it, and puts it back.

/// Points and sizes by named fields.
pub mod point;

/// The rendering and event core.
pub mod render;

/// The widgets that come with the library.
pub mod widgets;

/// The layout managers that come with the library.
pub mod layouts;
