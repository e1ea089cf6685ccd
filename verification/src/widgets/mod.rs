/// A widget that shows a text.
pub mod text_widget;

/// A widget that shows an image.
pub mod image_widget;

/// A box that can be checked.
pub mod checkbox_widget;

/// A progress bar.
pub mod progress_widget;

/// A timer.
pub mod timer_widget;

/// A button with a text.
pub mod push_button_widget;

/// A button with an image and a text.
pub mod image_button_widget;

/// A button that stays selected or not.
pub mod toggle_button_widget;

/// A tile with an image and a text.
pub mod tile_widget;

/// A slider.
pub mod slider_widget;

/// A list of texts.
pub mod list_widget;

/// A row of tabs.
pub mod tab_bar_widget;

/// A grid of lines.
pub mod grid_widget;

/// A window onto a larger area.
pub mod viewport_widget;

/// The body below a row of tabs.
pub mod tab_widget;
