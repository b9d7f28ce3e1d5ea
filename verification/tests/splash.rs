use game_core::splash::{
    splash_image_bundle, Screen, SplashScreen, SplashScreenImageList, SplashState, SplashTimer,
    SPLASH_DURATION, SPLASH_FADE_DURATION,
};
use game_core::timer::CountdownMode;
use std::collections::VecDeque;

fn queue(paths: &[&'static str]) -> SplashScreenImageList {
    SplashScreenImageList(paths.iter().copied().collect::<VecDeque<&'static str>>())
}

fn shown(screen: &SplashScreen) -> Option<(&'static str, u64)> {
    screen.container().map(|c| (c.image.path, c.image.fade.t))
}

fn is_displaying(screen: &SplashScreen) -> bool {
    matches!(screen.state, SplashState::Displaying(_))
}

fn is_finished(screen: &SplashScreen) -> bool {
    matches!(screen.state, SplashState::Finished(_))
}

#[test]
fn default_list_holds_the_one_splash_image() {
    let list = SplashScreenImageList::default();
    assert_eq!(list.0, VecDeque::from(vec!["images/splash.png"]));
}

#[test]
fn default_timer_is_a_one_shot_over_the_splash_duration() {
    let timer = SplashTimer::default();
    assert_eq!(SPLASH_DURATION, 1_800_000_000);
    assert_eq!(SPLASH_FADE_DURATION, 600_000_000);
    assert_eq!(timer.0.duration, SPLASH_DURATION);
    assert_eq!(timer.0.mode, CountdownMode::Once);
    assert_eq!(timer.0.elapsed, 0);
    assert!(!timer.0.finished);
}

#[test]
fn image_bundle_starts_its_fade_at_zero() {
    let image = splash_image_bundle("images/a.png");
    assert_eq!(image.path, "images/a.png");
    assert_eq!(image.fade.total_duration, SPLASH_DURATION);
    assert_eq!(image.fade.fade_duration, SPLASH_FADE_DURATION);
    assert_eq!(image.fade.t, 0);
}

#[test]
fn empty_queue_asks_for_the_next_screen_on_entry() {
    let (screen, request) = SplashScreen::spawn_splash(queue(&[]));
    assert_eq!(request, Some(Screen::Loading));
    assert!(matches!(screen.state, SplashState::Empty));
    assert!(screen.container().is_none());
    assert!(screen.apply_fade_in_out().is_none());
}

#[test]
fn entry_shows_the_first_image() {
    let (screen, request) = SplashScreen::spawn_splash(queue(&["a", "b"]));
    assert_eq!(request, None);
    assert!(is_displaying(&screen));
    assert_eq!(shown(&screen), Some(("a", 0)));
    assert_eq!(screen.images.0, VecDeque::from(vec!["b"]));
    assert_eq!(screen.timer.0.elapsed, 0);
}

#[test]
fn two_images_then_one_request() {
    let (mut screen, request) = SplashScreen::spawn_splash(queue(&["a", "b"]));
    assert_eq!(request, None);
    let mut requests: u32 = 0;
    for _ in 0..17 {
        if screen.update(100_000_000, false).is_some() {
            requests += 1;
        }
    }
    assert_eq!(requests, 0);
    assert_eq!(shown(&screen), Some(("a", 1_700_000_000)));
    assert_eq!(screen.update(100_000_000, false), None);
    assert_eq!(shown(&screen), Some(("b", 0)));
    assert!(screen.images.0.is_empty());
    assert_eq!(screen.timer.0.elapsed, 0);
    assert!(!screen.timer.0.finished);
    for _ in 0..17 {
        assert_eq!(screen.update(100_000_000, false), None);
    }
    assert_eq!(shown(&screen), Some(("b", 1_700_000_000)));
    assert!(is_displaying(&screen));
    assert_eq!(screen.update(100_000_000, false), Some(Screen::Loading));
    assert!(is_finished(&screen));
    assert_eq!(shown(&screen), Some(("b", 1_800_000_000)));
    for _ in 0..40 {
        assert_eq!(screen.update(100_000_000, false), None);
        assert_eq!(screen.update(100_000_000, true), None);
    }
    assert_eq!(shown(&screen), Some(("b", 1_800_000_000)));
}

#[test]
fn one_image_is_shown_for_one_duration() {
    let (mut screen, request) = SplashScreen::spawn_splash(SplashScreenImageList::default());
    assert_eq!(request, None);
    assert_eq!(shown(&screen), Some(("images/splash.png", 0)));
    assert_eq!(screen.update(SPLASH_DURATION - 1, false), None);
    assert_eq!(screen.update(1, false), Some(Screen::Loading));
}

#[test]
fn three_images_each_for_one_duration() {
    let (mut screen, _) = SplashScreen::spawn_splash(queue(&["a", "b", "c"]));
    assert_eq!(shown(&screen), Some(("a", 0)));
    assert_eq!(screen.update(SPLASH_DURATION, false), None);
    assert_eq!(shown(&screen), Some(("b", 0)));
    assert_eq!(screen.update(SPLASH_DURATION, false), None);
    assert_eq!(shown(&screen), Some(("c", 0)));
    assert_eq!(screen.update(SPLASH_DURATION, false), Some(Screen::Loading));
    assert_eq!(shown(&screen), Some(("c", SPLASH_DURATION)));
}

#[test]
fn skip_asks_for_the_next_screen_on_the_same_tick() {
    let (mut screen, _) = SplashScreen::spawn_splash(queue(&["a", "b", "c"]));
    assert_eq!(screen.update(16_000_000, false), None);
    assert_eq!(screen.update(16_000_000, true), Some(Screen::Loading));
    assert_eq!(screen.images.0.len(), 2);
    assert_eq!(shown(&screen), Some(("a", 32_000_000)));
    assert!(is_finished(&screen));
}

#[test]
fn skip_wins_over_a_completion_on_the_same_tick() {
    let (mut screen, _) = SplashScreen::spawn_splash(queue(&["a", "b"]));
    assert_eq!(screen.update(SPLASH_DURATION, true), Some(Screen::Loading));
    assert_eq!(screen.images.0.len(), 1);
    assert_eq!(shown(&screen).map(|s| s.0), Some("a"));
}

#[test]
fn skip_on_the_first_tick_and_with_no_time_passed() {
    let (mut screen, _) = SplashScreen::spawn_splash(queue(&["a"]));
    assert_eq!(screen.update(0, true), Some(Screen::Loading));
}

#[test]
fn skip_late_in_the_last_fade() {
    let (mut screen, _) = SplashScreen::spawn_splash(queue(&["a", "b"]));
    assert_eq!(screen.update(SPLASH_DURATION, false), None);
    assert_eq!(screen.update(SPLASH_DURATION - 1, false), None);
    assert_eq!(screen.update(0, true), Some(Screen::Loading));
    assert_eq!(shown(&screen), Some(("b", SPLASH_DURATION - 1)));
}

#[test]
fn a_second_skip_asks_for_nothing() {
    let (mut screen, _) = SplashScreen::spawn_splash(queue(&["a", "b"]));
    assert_eq!(screen.exit_splash_screen(), Some(Screen::Loading));
    assert_eq!(screen.exit_splash_screen(), None);
    assert_eq!(screen.update(SPLASH_DURATION, true), None);
    assert_eq!(screen.update(SPLASH_DURATION, false), None);
    assert_eq!(screen.images.0.len(), 1);
    assert_eq!(shown(&screen), Some(("a", 0)));
}

#[test]
fn nothing_happens_where_the_queue_was_empty() {
    let (mut screen, request) = SplashScreen::spawn_splash(queue(&[]));
    assert_eq!(request, Some(Screen::Loading));
    assert_eq!(screen.update(16_000_000, true), None);
    assert_eq!(screen.update(SPLASH_DURATION, false), None);
    assert_eq!(screen.exit_splash_screen(), None);
    screen.images.0.push_back("late");
    screen.tick_splash_timer(SPLASH_DURATION);
    assert_eq!(screen.check_splash_timer(), None);
    assert!(screen.container().is_none());
    assert_eq!(screen.images.0.len(), 1);
    assert_eq!(screen.timer.0.elapsed, 0);
}

#[test]
fn opacity_follows_the_fade_of_the_image_on_display() {
    let (mut screen, _) = SplashScreen::spawn_splash(queue(&["a", "b"]));
    assert_eq!(screen.apply_fade_in_out().map(|a| (a.numerator, a.denominator)), Some((0, 600_000_000)));
    screen.update(150_000_000, false);
    assert_eq!(screen.apply_fade_in_out().map(|a| (a.numerator, a.denominator)), Some((300_000_000, 600_000_000)));
    screen.update(750_000_000, false);
    assert_eq!(screen.apply_fade_in_out().map(|a| a.is_opaque()), Some(true));
    screen.update(900_000_000, false);
    assert_eq!(shown(&screen), Some(("b", 0)));
    assert_eq!(screen.apply_fade_in_out().map(|a| a.is_transparent()), Some(true));
}

#[test]
fn the_parts_of_a_tick_can_be_run_one_by_one() {
    let (mut screen, _) = SplashScreen::spawn_splash(queue(&["a", "b"]));
    screen.tick_fade_in_out(1_000_000_000);
    assert_eq!(shown(&screen), Some(("a", 1_000_000_000)));
    assert_eq!(screen.timer.0.elapsed, 0);
    screen.tick_splash_timer(1_000_000_000);
    assert_eq!(screen.timer.0.elapsed, 1_000_000_000);
    assert_eq!(screen.check_splash_timer(), None);
    assert_eq!(shown(&screen), Some(("a", 1_000_000_000)));
    screen.tick_splash_timer(1_000_000_000);
    assert_eq!(screen.check_splash_timer(), None);
    assert_eq!(shown(&screen), Some(("b", 0)));
    assert_eq!(screen.check_splash_timer(), None);
    assert_eq!(shown(&screen), Some(("b", 0)));
    screen.tick_splash_timer(SPLASH_DURATION);
    assert_eq!(screen.check_splash_timer(), Some(Screen::Loading));
    assert_eq!(screen.check_splash_timer(), None);
    screen.tick_fade_in_out(5);
    assert_eq!(shown(&screen), Some(("b", 0)));
}

#[test]
fn two_images_with_ticks_of_half_a_duration() {
    let half = SPLASH_DURATION / 2;
    let (mut screen, request) = SplashScreen::spawn_splash(queue(&["a", "b"]));
    assert_eq!(request, None);
    assert_eq!(screen.update(half, false), None);
    assert_eq!(shown(&screen), Some(("a", half)));
    assert_eq!(screen.update(half, false), None);
    assert_eq!(shown(&screen), Some(("b", 0)));
    assert!(screen.images.0.is_empty());
    assert_eq!(screen.update(half, false), None);
    assert_eq!(shown(&screen), Some(("b", half)));
    assert_eq!(screen.update(half, false), Some(Screen::Loading));
    for _ in 0..10 {
        assert_eq!(screen.update(half, false), None);
    }
}

#[test]
fn no_request_before_each_image_had_its_duration() {
    let deltas: [u64; 6] = [700_000_000, 700_000_000, 399_999_999, 1, 1_799_999_999, 1];
    let (mut screen, _) = SplashScreen::spawn_splash(queue(&["a", "b"]));
    let mut total: u64 = 0;
    let mut requests: u32 = 0;
    for dt in deltas {
        let request = screen.update(dt, false);
        total += dt;
        if request.is_some() {
            requests += 1;
            assert!(total >= 2 * SPLASH_DURATION);
        }
    }
    assert_eq!(requests, 1);
    assert_eq!(total, 2 * SPLASH_DURATION);
    assert_eq!(shown(&screen), Some(("b", SPLASH_DURATION)));
}

#[test]
fn time_beyond_a_duration_is_not_carried_over() {
    let (mut screen, _) = SplashScreen::spawn_splash(queue(&["a", "b"]));
    assert_eq!(screen.update(1_000_000_000, false), None);
    assert_eq!(screen.update(1_000_000_000, false), None);
    assert_eq!(shown(&screen), Some(("b", 0)));
    assert_eq!(screen.timer.0.elapsed, 0);
    assert_eq!(screen.update(1_799_999_999, false), None);
    assert_eq!(screen.update(1, false), Some(Screen::Loading));
}
