//! The splash screen: a queue of images, each shown for a fixed time with a
//! fade, then the request for the next screen.

use crate::fade::FadeInOut;
use crate::fade::Opacity;
use crate::timer::Countdown;
use crate::timer::CountdownMode;
use std::collections::VecDeque;
use vstd::prelude::*;

verus! {

/// How long one splash image is shown, in nanoseconds.
pub const SPLASH_DURATION: u64 = 1_800_000_000;

/// How long the fade of a splash image is set to take, in nanoseconds.
pub const SPLASH_FADE_DURATION: u64 = 600_000_000;

/// The screens of the application.
#[derive(Clone, Copy, Debug, PartialEq, Eq, Structural)]
pub enum Screen {
    Splash,
    Loading,
    Playing,
}

/// The images that the splash screen has yet to show, first one first.
pub struct SplashScreenImageList(pub VecDeque<&'static str>);

impl Default for SplashScreenImageList {
    fn default() -> (list: SplashScreenImageList)
        ensures
            list.0@ == seq!["images/splash.png"],
    {
        let mut images: VecDeque<&'static str> = VecDeque::new();
        images.push_back("images/splash.png");
        SplashScreenImageList(images)
    }
}

/// Counts the time that the present image has left.
#[derive(Clone, Copy, Debug)]
pub struct SplashTimer(pub Countdown);

impl Default for SplashTimer {
    fn default() -> (timer: SplashTimer)
        ensures
            timer.0 == SplashTimer::fresh(),
    {
        SplashTimer(Countdown::new(SPLASH_DURATION, CountdownMode::Once))
    }
}

impl SplashTimer {
    /// A one-shot countdown over the time of one image, not yet started.
    pub open spec fn fresh() -> Countdown {
        Countdown {
            duration: SPLASH_DURATION,
            elapsed: 0,
            mode: CountdownMode::Once,
            finished: false,
            completions: 0,
        }
    }
}

/// An image on display, with its fade.
#[derive(Clone, Copy, Debug)]
pub struct SplashImage {
    pub path: &'static str,
    pub fade: FadeInOut,
}

/// The image at `path` as it first appears: at the start of its fade.
pub open spec fn fresh_image(path: &'static str) -> SplashImage {
    SplashImage {
        path,
        fade: FadeInOut {
            total_duration: SPLASH_DURATION,
            fade_duration: SPLASH_FADE_DURATION,
            t: 0,
        },
    }
}

/// The image at `path` as it first appears: at the start of its fade.
pub fn splash_image_bundle(path: &'static str) -> (image: SplashImage)
    ensures
        image == fresh_image(path),
{
    SplashImage { path, fade: FadeInOut::new(SPLASH_DURATION, SPLASH_FADE_DURATION) }
}

/// What the splash screen shows: the one image on display.
#[derive(Clone, Copy, Debug)]
pub struct SplashScreenContainer {
    pub image: SplashImage,
}

/// Where the splash screen stands.
#[derive(Clone, Copy, Debug)]
pub enum SplashState {
    /// The queue was empty on entry: the next screen was asked for at once
    /// and no container was built. Nothing happens any more.
    Empty,
    /// An image is on display and its countdown runs.
    Displaying(SplashScreenContainer),
    /// The next screen has been asked for, because the queue ran out or the
    /// sequence was skipped. Nothing happens any more.
    Finished(SplashScreenContainer),
}

/// The splash screen while it is active. It is made on entry and dropped on
/// exit, and its countdown and queue with it.
pub struct SplashScreen {
    /// The images still to come.
    pub images: SplashScreenImageList,
    pub timer: SplashTimer,
    pub state: SplashState,
}

/// A `SplashScreen` with its queue as a sequence.
pub struct SplashModel {
    pub queue: Seq<&'static str>,
    pub timer: Countdown,
    pub state: SplashState,
}

impl View for SplashScreen {
    type V = SplashModel;

    open spec fn view(&self) -> SplashModel {
        SplashModel { queue: self.images.0@, timer: self.timer.0, state: self.state }
    }
}

/// One tick of the splash screen: the time that passed, and whether the skip
/// key went down on it.
pub struct SplashTick {
    pub dt: u64,
    pub skip: bool,
}

impl SplashModel {
    /// The screen on entry with the queue `images`, and the request made on
    /// entry. An empty queue asks for the next screen at once and builds no
    /// container; otherwise the first image goes on display.
    pub open spec fn entered(images: Seq<&'static str>) -> (SplashModel, Option<Screen>) {
        if images.len() == 0 {
            (
                SplashModel { queue: images, timer: SplashTimer::fresh(), state: SplashState::Empty },
                Some(Screen::Loading),
            )
        } else {
            (
                SplashModel {
                    queue: images.drop_first(),
                    timer: SplashTimer::fresh(),
                    state: SplashState::Displaying(
                        SplashScreenContainer { image: fresh_image(images[0]) },
                    ),
                },
                None,
            )
        }
    }

    /// Whether an image is on display and the sequence still runs.
    pub open spec fn displaying(self) -> bool {
        self.state is Displaying
    }

    /// The container, where one was built.
    pub open spec fn container(self) -> Option<SplashScreenContainer> {
        match self.state {
            SplashState::Empty => None,
            SplashState::Displaying(c) => Some(c),
            SplashState::Finished(c) => Some(c),
        }
    }

    /// The screen with the fade of its image `dt` nanoseconds further.
    pub open spec fn fade_ticked(self, dt: u64) -> SplashModel {
        match self.state {
            SplashState::Displaying(c) => SplashModel {
                state: SplashState::Displaying(
                    SplashScreenContainer {
                        image: SplashImage { fade: c.image.fade.ticked(dt), ..c.image },
                    },
                ),
                ..self
            },
            _ => self,
        }
    }

    /// The screen with its countdown `dt` nanoseconds further.
    pub open spec fn timer_ticked(self, dt: u64) -> SplashModel {
        if self.displaying() {
            SplashModel { timer: self.timer.ticked(dt), ..self }
        } else {
            self
        }
    }

    /// The screen after the check of its countdown, and the request that the
    /// check makes. Where the countdown has just completed, the next image
    /// replaces the one on display and the countdown starts again; with no
    /// image left the next screen is requested and the sequence is over.
    pub open spec fn checked(self) -> (SplashModel, Option<Screen>) {
        match self.state {
            SplashState::Displaying(c) => if !self.timer.fired() {
                (self, None)
            } else if self.queue.len() > 0 {
                (
                    SplashModel {
                        queue: self.queue.drop_first(),
                        timer: self.timer.restarted(),
                        state: SplashState::Displaying(
                            SplashScreenContainer { image: fresh_image(self.queue[0]) },
                        ),
                    },
                    None,
                )
            } else {
                (SplashModel { state: SplashState::Finished(c), ..self }, Some(Screen::Loading))
            },
            _ => (self, None),
        }
    }

    /// The screen after a skip, and the request that the skip makes: while
    /// an image is on display the next screen is requested and the sequence
    /// is over, whatever is left in the queue.
    pub open spec fn skipped(self) -> (SplashModel, Option<Screen>) {
        match self.state {
            SplashState::Displaying(c) => (
                SplashModel { state: SplashState::Finished(c), ..self },
                Some(Screen::Loading),
            ),
            _ => (self, None),
        }
    }

    /// The screen after one tick, and the request made on it. Fade and
    /// countdown advance first; then a skip ends the sequence, and without
    /// one the countdown is checked.
    pub open spec fn updated(self, dt: u64, skip: bool) -> (SplashModel, Option<Screen>) {
        let ticked = self.fade_ticked(dt).timer_ticked(dt);
        if skip {
            ticked.skipped()
        } else {
            ticked.checked()
        }
    }

    /// The opacity of the image on display, if there is one.
    pub open spec fn opacity(self) -> Option<Opacity> {
        match self.container() {
            Some(c) => Some(c.image.fade.opacity()),
            None => None,
        }
    }

    /// The screen after the ticks `ticks`, one after the other.
    pub open spec fn after(self, ticks: Seq<SplashTick>) -> SplashModel
        decreases ticks.len(),
    {
        if ticks.len() == 0 {
            self
        } else {
            self.after(ticks.drop_last()).updated(ticks.last().dt, ticks.last().skip).0
        }
    }

    /// How many requests for the next screen the ticks `ticks` make.
    pub open spec fn requests(self, ticks: Seq<SplashTick>) -> nat
        decreases ticks.len(),
    {
        if ticks.len() == 0 {
            0
        } else {
            self.requests(ticks.drop_last()) + if self.after(ticks.drop_last()).updated(
                ticks.last().dt,
                ticks.last().skip,
            ).1 is Some {
                1nat
            } else {
                0nat
            }
        }
    }
}

/// A skip while an image is on display asks for the next screen on the same
/// tick, whatever is left in the queue and however far the fade is, and
/// takes nothing from the queue.
pub proof fn skip_requests_next_screen(screen: SplashModel, dt: u64)
    requires
        screen.displaying(),
    ensures
        screen.updated(dt, true).1 == Some(Screen::Loading),
        screen.updated(dt, true).0.queue == screen.queue,
        !screen.updated(dt, true).0.displaying(),
{
}

/// A tick makes a request only while an image is on display, and then only
/// by a skip or by the countdown completing with nothing left in the queue.
/// The request is always for the loading screen, and the sequence is over
/// with it.
pub proof fn request_needs_skip_or_exhaustion(screen: SplashModel, dt: u64, skip: bool)
    ensures
        screen.updated(dt, skip).1 is Some <==> screen.displaying() && (skip || (
        screen.timer.ticked(dt).fired() && screen.queue.len() == 0)),
        screen.updated(dt, skip).1 is Some ==> screen.updated(dt, skip).1 == Some(Screen::Loading)
            && !screen.updated(dt, skip).0.displaying(),
{
}

/// Once the sequence is over, or where it never began, a tick changes
/// nothing and asks for nothing.
pub proof fn nothing_happens_after_the_end(screen: SplashModel, dt: u64, skip: bool)
    requires
        !screen.displaying(),
    ensures
        screen.updated(dt, skip) == (screen, None::<Screen>),
{
}

/// Over any run of ticks, with or without skips, the next screen is asked
/// for at most once; after it, and where the sequence was over before, it is
/// never asked for again.
pub proof fn next_screen_is_requested_once(screen: SplashModel, ticks: Seq<SplashTick>)
    ensures
        screen.requests(ticks) <= 1,
        !screen.displaying() ==> screen.requests(ticks) == 0 && screen.after(ticks) == screen,
        screen.requests(ticks) == 1 ==> !screen.after(ticks).displaying(),
        screen.displaying() && screen.requests(ticks) == 0 ==> screen.after(ticks).displaying(),
    decreases ticks.len(),
{
    if ticks.len() > 0 {
        next_screen_is_requested_once(screen, ticks.drop_last());
    }
}

/// The time that the ticks `ticks` add up to, in nanoseconds.
pub open spec fn splash_time(ticks: Seq<SplashTick>) -> nat
    decreases ticks.len(),
{
    if ticks.len() == 0 {
        0
    } else {
        splash_time(ticks.drop_last()) + ticks.last().dt as nat
    }
}

/// Whether none of the ticks `ticks` comes with a skip.
pub open spec fn unskipped(ticks: Seq<SplashTick>) -> bool {
    forall|i: int| 0 <= i < ticks.len() ==> !(#[trigger] ticks[i]).skip
}

/// Ticks that stay short of the duration only add up: while the time on the
/// countdown plus the time of the ticks is below its duration, the same
/// image stays on display, its fade and the countdown have advanced by the
/// time of the ticks, the queue is untouched and nothing is asked for.
pub proof fn short_ticks_add_up(screen: SplashModel, ticks: Seq<SplashTick>)
    requires
        screen.displaying(),
        screen.timer.mode == CountdownMode::Once,
        !screen.timer.finished,
        unskipped(ticks),
        screen.timer.elapsed + splash_time(ticks) < screen.timer.duration,
    ensures
        screen.requests(ticks) == 0,
        screen.after(ticks).displaying(),
        screen.after(ticks).queue == screen.queue,
        screen.after(ticks).timer.elapsed == screen.timer.elapsed + splash_time(ticks),
        screen.after(ticks).timer.duration == screen.timer.duration,
        screen.after(ticks).timer.mode == CountdownMode::Once,
        !screen.after(ticks).timer.finished,
        ticks.len() > 0 ==> !screen.after(ticks).timer.fired(),
        ({
            let before = screen.container().unwrap().image;
            let after = screen.after(ticks).container().unwrap().image;
            &&& after.path == before.path
            &&& after.fade.total_duration == before.fade.total_duration
            &&& after.fade.fade_duration == before.fade.fade_duration
            &&& after.fade.t == if before.fade.t + splash_time(ticks) > u64::MAX {
                u64::MAX as int
            } else {
                before.fade.t + splash_time(ticks)
            }
        }),
    decreases ticks.len(),
{
    if ticks.len() > 0 {
        let earlier = ticks.drop_last();
        assert(unskipped(earlier)) by {
            assert forall|i: int| 0 <= i < earlier.len() implies !(#[trigger] earlier[i]).skip by {
                assert(earlier[i] == ticks[i]);
            }
        }
        assert(!ticks.last().skip) by {
            assert(ticks.last() == ticks[ticks.len() - 1]);
        }
        short_ticks_add_up(screen, earlier);
    }
}

/// The tick on which the time on the countdown reaches its duration ends the
/// turn of the image on display: the next image of the queue takes its place
/// at the start of its fade and the countdown starts again, or, with nothing
/// left in the queue, the next screen is asked for, then and not before.
pub proof fn image_gives_way_as_its_duration_is_reached(screen: SplashModel, ticks: Seq<SplashTick>)
    requires
        screen.displaying(),
        screen.timer.mode == CountdownMode::Once,
        !screen.timer.finished,
        unskipped(ticks),
        ticks.len() > 0,
        screen.timer.elapsed + splash_time(ticks.drop_last()) < screen.timer.duration,
        screen.timer.elapsed + splash_time(ticks) >= screen.timer.duration,
    ensures
        screen.requests(ticks.drop_last()) == 0,
        screen.queue.len() > 0 ==> screen.requests(ticks) == 0 && screen.after(ticks) == (
        SplashModel {
            queue: screen.queue.drop_first(),
            timer: Countdown {
                duration: screen.timer.duration,
                elapsed: 0,
                mode: CountdownMode::Once,
                finished: false,
                completions: 0,
            },
            state: SplashState::Displaying(
                SplashScreenContainer { image: fresh_image(screen.queue[0]) },
            ),
        }),
        screen.queue.len() == 0 ==> screen.requests(ticks) == 1 && !screen.after(
            ticks,
        ).displaying(),
{
    let earlier = ticks.drop_last();
    assert(unskipped(earlier)) by {
        assert forall|i: int| 0 <= i < earlier.len() implies !(#[trigger] earlier[i]).skip by {
            assert(earlier[i] == ticks[i]);
        }
    }
    assert(!ticks.last().skip) by {
        assert(ticks.last() == ticks[ticks.len() - 1]);
    }
    short_ticks_add_up(screen, earlier);
}

/// However the time is cut into ticks, every image has its full duration
/// before the next screen is asked for: without a skip, no request is made
/// while the time on the countdown plus the time of the ticks is below one
/// duration for the image on display and one for each image in the queue.
pub proof fn no_request_before_every_image_had_its_turn(screen: SplashModel, ticks: Seq<SplashTick>)
    requires
        screen.timer.mode == CountdownMode::Once,
        unskipped(ticks),
        screen.timer.elapsed + splash_time(ticks) < (screen.queue.len() as int + 1) * (
        screen.timer.duration as int),
    ensures
        screen.requests(ticks) == 0,
        screen.after(ticks).timer.mode == CountdownMode::Once,
        screen.after(ticks).timer.duration == screen.timer.duration,
        screen.displaying() ==> screen.after(ticks).displaying(),
        (screen.after(ticks).queue.len() as int + 1) * (screen.timer.duration as int) + splash_time(
            ticks,
        ) + screen.timer.elapsed >= (screen.queue.len() as int + 1) * (screen.timer.duration as int)
            + screen.after(ticks).timer.elapsed,
    decreases ticks.len(),
{
    let d = screen.timer.duration as int;
    let q = screen.queue.len() as int;
    if !screen.displaying() {
        next_screen_is_requested_once(screen, ticks);
    } else if ticks.len() > 0 {
        let earlier = ticks.drop_last();
        let last = ticks.last();
        assert(unskipped(earlier)) by {
            assert forall|i: int| 0 <= i < earlier.len() implies !(#[trigger] earlier[i]).skip by {
                assert(earlier[i] == ticks[i]);
            }
        }
        assert(!last.skip) by {
            assert(last == ticks[ticks.len() - 1]);
        }
        no_request_before_every_image_had_its_turn(screen, earlier);
        let before = screen.after(earlier);
        let now = before.updated(last.dt, false);
        let qb = before.queue.len() as int;
        let timer = before.timer.ticked(last.dt);
        assert(before.fade_ticked(last.dt).timer_ticked(last.dt).timer == timer);
        assert(before.fade_ticked(last.dt).timer_ticked(last.dt).queue == before.queue);
        assert((qb + 1) * d == qb * d + d) by (nonlinear_arith);
        if timer.fired() {
            assert(before.timer.elapsed + last.dt >= d);
            if qb > 0 {
                assert(now.0.queue == before.queue.drop_first());
                assert(now.0.timer.elapsed == 0);
                assert(((qb - 1) + 1) * d == qb * d) by (nonlinear_arith);
            } else {
                // With an empty queue the time has reached the bound.
                assert(qb * d == 0) by (nonlinear_arith)
                    requires
                        qb == 0,
                ;
                assert(screen.timer.elapsed + splash_time(ticks) >= (q + 1) * d);
            }
        } else {
            assert(now.0.queue == before.queue);
            assert(now.0.timer.elapsed <= before.timer.elapsed + last.dt);
        }
    }
}

/// The time of a fade is set back only when its image is replaced: after a
/// tick the image on display is a new one at the start of its fade, taken
/// from the front of the queue, or the same one with its time advanced.
pub proof fn fade_restarts_only_on_replacement(screen: SplashModel, dt: u64, skip: bool)
    requires
        screen.displaying(),
    ensures
        screen.updated(dt, skip).0.container() is Some,
        ({
            let before = screen.container().unwrap().image;
            let after = screen.updated(dt, skip).0.container().unwrap().image;
            if !skip && screen.timer.ticked(dt).fired() && screen.queue.len() > 0 {
                after == fresh_image(screen.queue[0])
            } else {
                after.path == before.path && after.fade == before.fade.ticked(dt) && after.fade.t
                    >= before.fade.t
            }
        }),
{
}

/// `count` ticks without a skip, each as long as one image is shown.
pub open spec fn full_durations(count: nat) -> Seq<SplashTick> {
    Seq::new(count, |i: int| SplashTick { dt: SPLASH_DURATION, skip: false })
}

/// The images are shown in the order of the queue, each for one duration:
/// entered with `images`, the screen shows image `shown` after `shown`
/// durations, at the start of its fade and with the later images still
/// queued, and has asked for nothing yet.
pub proof fn images_are_shown_in_order(images: Seq<&'static str>, shown: nat)
    requires
        shown < images.len(),
    ensures
        SplashModel::entered(images).1 is None,
        SplashModel::entered(images).0.requests(full_durations(shown)) == 0,
        SplashModel::entered(images).0.after(full_durations(shown)) == (SplashModel {
            queue: images.skip(shown as int + 1),
            timer: SplashTimer::fresh(),
            state: SplashState::Displaying(
                SplashScreenContainer { image: fresh_image(images[shown as int]) },
            ),
        }),
    decreases shown,
{
    let entered = SplashModel::entered(images).0;
    if shown == 0 {
        assert(images.drop_first() == images.skip(1));
    } else {
        let earlier = (shown - 1) as nat;
        images_are_shown_in_order(images, earlier);
        assert(full_durations(shown).drop_last() == full_durations(earlier));
        assert(images.skip(earlier as int + 1).drop_first() == images.skip(shown as int + 1));
        assert(images.skip(earlier as int + 1)[0] == images[shown as int]);
    }
}

/// After as many durations as there were images the queue has run out, and
/// that tick, and no tick before it, asks for the next screen.
pub proof fn last_image_ends_in_a_request(images: Seq<&'static str>)
    requires
        images.len() > 0,
    ensures
        SplashModel::entered(images).0.requests(full_durations(images.len())) == 1,
        SplashModel::entered(images).0.requests(full_durations((images.len() - 1) as nat)) == 0,
        !SplashModel::entered(images).0.after(full_durations(images.len())).displaying(),
{
    let last = (images.len() - 1) as nat;
    images_are_shown_in_order(images, last);
    assert(full_durations(images.len()).drop_last() == full_durations(last));
    assert(images.skip(last as int + 1).len() == 0);
}

impl SplashScreen {
    /// Enters the splash screen with the queue `images`. Returns the screen
    /// and the request made on entry.
    pub fn spawn_splash(images: SplashScreenImageList) -> (r: (SplashScreen, Option<Screen>))
        ensures
            (r.0@, r.1) == SplashModel::entered(images.0@),
    {
        let mut images = images;
        let timer = SplashTimer::default();
        match images.0.pop_front() {
            Some(first) => {
                let container = SplashScreenContainer { image: splash_image_bundle(first) };
                (SplashScreen { images, timer, state: SplashState::Displaying(container) }, None)
            },
            None => (
                SplashScreen { images, timer, state: SplashState::Empty },
                Some(Screen::Loading),
            ),
        }
    }

    /// The container, where one was built.
    pub fn container(&self) -> (c: Option<SplashScreenContainer>)
        ensures
            c == self@.container(),
    {
        match self.state {
            SplashState::Empty => None,
            SplashState::Displaying(c) => Some(c),
            SplashState::Finished(c) => Some(c),
        }
    }

    /// Advances the fade of the image on display by `dt` nanoseconds.
    pub fn tick_fade_in_out(&mut self, dt: u64)
        ensures
            final(self)@ == old(self)@.fade_ticked(dt),
    {
        match self.state {
            SplashState::Displaying(container) => {
                let mut image = container.image;
                image.fade.tick(dt);
                self.state = SplashState::Displaying(SplashScreenContainer { image });
            },
            _ => {},
        }
    }

    /// The opacity to draw the image on display with, if there is one.
    pub fn apply_fade_in_out(&self) -> (alpha: Option<Opacity>)
        ensures
            alpha == self@.opacity(),
            alpha matches Some(a) ==> a.valid(),
    {
        match self.container() {
            Some(container) => Some(container.image.fade.alpha()),
            None => None,
        }
    }

    /// Advances the countdown by `dt` nanoseconds while an image is on
    /// display.
    pub fn tick_splash_timer(&mut self, dt: u64)
        ensures
            final(self)@ == old(self)@.timer_ticked(dt),
    {
        match self.state {
            SplashState::Displaying(_) => {
                self.timer.0.tick(dt);
            },
            _ => {},
        }
    }

    /// Acts on a countdown that has just completed: shows the next image and
    /// starts the countdown again, or asks for the next screen where no
    /// image is left.
    pub fn check_splash_timer(&mut self) -> (request: Option<Screen>)
        ensures
            (final(self)@, request) == old(self)@.checked(),
    {
        match self.state {
            SplashState::Displaying(container) => {
                if !self.timer.0.just_finished() {
                    return None;
                }
                match self.images.0.pop_front() {
                    Some(next_splash_image) => {
                        self.state = SplashState::Displaying(
                            SplashScreenContainer { image: splash_image_bundle(next_splash_image) },
                        );
                        self.timer.0.reset();
                        None
                    },
                    None => {
                        self.state = SplashState::Finished(container);
                        Some(Screen::Loading)
                    },
                }
            },
            _ => None,
        }
    }

    /// Acts on the skip key: ends the sequence and asks for the next screen
    /// while an image is on display.
    pub fn exit_splash_screen(&mut self) -> (request: Option<Screen>)
        ensures
            (final(self)@, request) == old(self)@.skipped(),
    {
        match self.state {
            SplashState::Displaying(container) => {
                self.state = SplashState::Finished(container);
                Some(Screen::Loading)
            },
            _ => None,
        }
    }

    /// One tick of `dt` nanoseconds. `skip` says whether the skip key went
    /// down on this tick. Returns the request for the next screen, if one is
    /// made.
    pub fn update(&mut self, dt: u64, skip: bool) -> (request: Option<Screen>)
        ensures
            (final(self)@, request) == old(self)@.updated(dt, skip),
    {
        self.tick_fade_in_out(dt);
        self.tick_splash_timer(dt);
        if skip {
            self.exit_splash_screen()
        } else {
            self.check_splash_timer()
        }
    }
}

} // verus!
