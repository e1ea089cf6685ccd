use crate::render::callbacks::{Callback, CallbackRegistry};
use crate::render::draw::{DrawCommand, DrawCommandView, steps};
use crate::render::widget::Widget;
use crate::render::widget_config::{Config, ConfigValue, WidgetConfig, WidgetConfigView};
use std::time::{Duration, SystemTime, SystemTimeError, UNIX_EPOCH};
use vstd::prelude::*;

verus! {

/// The time of the system clock, as the standard library has it.
#[verifier::external_type_specification]
#[verifier::external_body]
pub struct ExSystemTime(SystemTime);

/// The error of a time that lies before the time it is measured from, as the
/// standard library has it.
#[verifier::external_type_specification]
#[verifier::external_body]
pub struct ExSystemTimeError(SystemTimeError);

/// The time now, as `SystemTime::now` gives it. Nothing is claimed of it: it is
/// whatever the system clock says.
#[verifier::external_body]
fn system_now() -> SystemTime {
    SystemTime::now()
}

/// The time from the Unix epoch to `time`, as `SystemTime::duration_since` gives it
/// for `UNIX_EPOCH`; the error where `time` lies before the epoch. Nothing is
/// claimed of the duration.
#[verifier::external_body]
fn since_epoch(time: &SystemTime) -> Result<Duration, SystemTimeError> {
    time.duration_since(UNIX_EPOCH)
}

/// The whole milliseconds in `duration`, as `Duration::as_millis` gives them.
/// Nothing is claimed of the number.
#[verifier::external_body]
fn whole_millis(duration: &Duration) -> u128 {
    duration.as_millis()
}

/// The time now in milliseconds since the Unix epoch, by the system clock. A clock
/// that stands before the epoch gives 0; a time beyond 64 bits gives the largest
/// number.
pub fn time_ms() -> u64 {
    let now = system_now();
    let since_the_epoch = since_epoch(&now);
    let reading: Option<u128> = match since_the_epoch {
        Ok(duration) => {
            let millis = whole_millis(&duration);
            Some(millis)
        },
        Err(_) => {
            None
        },
    };
    reading_to_ms(reading)
}

/// A timer as a mathematical value.
pub struct TimerWidgetView<H> {
    pub config: WidgetConfigView,
    pub callbacks: CallbackRegistry<H>,
    pub enabled: bool,
    pub timeout: u64,
    pub initiated: u64,
    pub on_timeout: Option<H>,
}

/// A widget without a picture that runs out again and again: once more than
/// `timeout` milliseconds have gone by since it was started, a tick starts it anew,
/// and the timeout callback is due.
pub struct TimerWidget<H> {
    config: WidgetConfig,
    callback_registry: CallbackRegistry<H>,
    enabled: bool,
    timeout: u64,
    initiated: u64,
    on_timeout: Option<H>,
}

impl<H> View for TimerWidget<H> {
    type V = TimerWidgetView<H>;

    closed spec fn view(&self) -> TimerWidgetView<H> {
        TimerWidgetView {
            config: self.config@,
            callbacks: self.callback_registry,
            enabled: self.enabled,
            timeout: self.timeout,
            initiated: self.initiated,
            on_timeout: self.on_timeout,
        }
    }
}

impl<H> Widget<H> for TimerWidget<H> {
    open spec fn config_of(v: TimerWidgetView<H>) -> WidgetConfigView {
        v.config
    }

    open spec fn callbacks_of(v: TimerWidgetView<H>) -> CallbackRegistry<H> {
        v.callbacks
    }

    open spec fn with_config(v: TimerWidgetView<H>, c: WidgetConfigView) -> TimerWidgetView<H> {
        TimerWidgetView { config: c, ..v }
    }

    open spec fn with_callbacks(v: TimerWidgetView<H>, r: CallbackRegistry<H>) -> TimerWidgetView<H> {
        TimerWidgetView { callbacks: r, ..v }
    }

    open spec fn config_changed(v: TimerWidgetView<H>, k: u8, value: ConfigValue) -> TimerWidgetView<H> {
        v
    }

    fn config(&self) -> (c: &WidgetConfig) {
        &self.config
    }

    fn get_config(&mut self) -> (c: &mut WidgetConfig) {
        &mut self.config
    }

    fn callbacks(&self) -> (r: &CallbackRegistry<H>) {
        &self.callback_registry
    }

    fn get_callbacks(&mut self) -> (r: &mut CallbackRegistry<H>) {
        &mut self.callback_registry
    }

    fn on_config_changed(&mut self, k: u8, v: Config) {
    }
}

impl<H> TimerWidgetView<H> {
    /// The timer that was made at the time `now`.
    pub open spec fn initial(timeout: u64, enabled: bool, now: u64) -> TimerWidgetView<H> {
        TimerWidgetView {
            config: WidgetConfigView::initial(0, 0, 0, 0),
            callbacks: CallbackRegistry::<H>::empty(),
            enabled,
            timeout,
            initiated: now,
            on_timeout: None,
        }
    }

    /// The time gone by at `now` since the timer was started. A clock that went
    /// back behind the start counts as no time gone by.
    pub open spec fn elapsed(self, now: u64) -> int {
        if now >= self.initiated {
            now - self.initiated
        } else {
            0
        }
    }

    /// Whether a tick at `now` finds the timer run out: it is enabled, and more
    /// than its timeout has gone by.
    pub open spec fn runs_out(self, now: u64) -> bool {
        self.enabled && self.elapsed(now) > self.timeout
    }

    /// A frame goes by at the time `now`. A timer that has run out starts anew
    /// at `now`, and its timeout callback is due where a handler is in its slot.
    pub open spec fn tick(self, now: u64) -> (TimerWidgetView<H>, Seq<Callback>) {
        if self.runs_out(now) {
            (
                TimerWidgetView { initiated: now, ..self },
                if self.on_timeout is Some {
                    seq![Callback::TimedOut]
                } else {
                    Seq::<Callback>::empty()
                },
            )
        } else {
            (self, Seq::<Callback>::empty())
        }
    }
}

impl<H> TimerWidget<H> {
    /// A timer of `timeout` milliseconds that was started at `now`.
    pub fn new_at(timeout: u64, enabled: bool, now: u64) -> (w: TimerWidget<H>)
        ensures
            w@ == TimerWidgetView::<H>::initial(timeout, enabled, now),
    {
        TimerWidget {
            config: WidgetConfig::new(0, 0, 0, 0),
            callback_registry: CallbackRegistry::new(),
            enabled,
            timeout,
            initiated: now,
            on_timeout: None,
        }
    }

    /// A timer of `timeout` milliseconds that starts now, by the system clock.
    pub fn new(timeout: u64, enabled: bool) -> (w: TimerWidget<H>)
        ensures
            w@ == TimerWidgetView::<H>::initial(timeout, enabled, w@.initiated),
    {
        TimerWidget::new_at(timeout, enabled, time_ms())
    }

    /// Starts the timer anew at `now` and lets it run.
    pub fn enable_at(&mut self, now: u64)
        ensures
            final(self)@ == (TimerWidgetView { initiated: now, enabled: true, ..old(self)@ }),
    {
        self.initiated = now;
        self.enabled = true;
    }

    /// Starts the timer anew now, by the system clock, and lets it run.
    pub fn enable(&mut self)
        ensures
            final(self)@ == (TimerWidgetView {
                initiated: final(self)@.initiated,
                enabled: true,
                ..old(self)@
            }),
    {
        self.enable_at(time_ms());
    }

    /// Stops the timer.
    pub fn disable(&mut self)
        ensures
            final(self)@ == (TimerWidgetView { enabled: false, ..old(self)@ }),
    {
        self.enabled = false;
    }

    /// Whether the timer runs.
    pub fn is_enabled(&self) -> (b: bool)
        ensures
            b == self@.enabled,
    {
        self.enabled
    }

    /// Sets the handler that runs when the timer has run out.
    pub fn on_timeout(&mut self, callback: H)
        ensures
            final(self)@ == (TimerWidgetView { on_timeout: Some(callback), ..old(self)@ }),
    {
        self.on_timeout = Some(callback);
    }

    /// Takes the timeout handler out of its slot, to run it.
    pub fn take_on_timeout(&mut self) -> (handler: Option<H>)
        ensures
            handler == old(self)@.on_timeout,
            final(self)@ == (TimerWidgetView { on_timeout: None, ..old(self)@ }),
    {
        self.on_timeout.take()
    }

    /// A frame goes by at the time `now`, in milliseconds.
    pub fn tick(&mut self, now: u64) -> (fired: Vec<Callback>)
        ensures
            (final(self)@, fired@) == old(self)@.tick(now),
    {
        let mut fired: Vec<Callback> = Vec::new();
        if !self.enabled {
            return fired;
        }
        let elapsed = now.saturating_sub(self.initiated);
        if elapsed > self.timeout {
            self.initiated = now;
            if self.on_timeout.is_some() {
                fired.push(Callback::TimedOut);
            }
        }
        fired
    }
}

impl<H> TimerWidgetView<H> {
    /// The steps of painting the widget: none, a timer has no picture.
    pub open spec fn drawn(self) -> Seq<DrawCommandView> {
        Seq::<DrawCommandView>::empty()
    }
}

impl<H> TimerWidget<H> {
    /// The steps of painting the widget: none.
    pub fn draw(&self) -> (commands: Vec<DrawCommand>)
        ensures
            steps(commands@) == self@.drawn(),
    {
        let commands: Vec<DrawCommand> = Vec::new();
        assert(steps(commands@) =~= self@.drawn());
        commands
    }
}

/// The time that a reading of the clock stands for, in milliseconds since the
/// Unix epoch: the milliseconds that were read, the largest number where they are
/// beyond 64 bits, and 0 where the clock stood before the epoch and gave none.
pub open spec fn time_of_reading(reading: Option<u128>) -> u64 {
    match reading {
        Some(millis) => if millis > u64::MAX {
            u64::MAX
        } else {
            millis as u64
        },
        None => 0,
    }
}

/// The time that a reading of the clock stands for, in milliseconds since the
/// Unix epoch. `time_ms` hands it what the system clock gave.
pub fn reading_to_ms(reading: Option<u128>) -> (time: u64)
    ensures
        time == time_of_reading(reading),
{
    match reading {
        Some(millis) => if millis > u64::MAX as u128 {
            u64::MAX
        } else {
            millis as u64
        },
        None => 0,
    }
}

} // verus!
