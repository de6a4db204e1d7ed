use quatronaut::fade::{Fade, FadeStatus, Fader};

#[test]
fn a_fade_darkens_then_lightens_then_is_done() {
    let mut fader = Fader::new(2_000_000, Fade::Darken);
    assert_eq!(fader.alpha, 0);
    assert_eq!(fader.next_alpha_change(600_000), 1_000_000);
    assert_eq!(fader.fade_direction, Fade::Lighten);
    assert!(!fader.fade_completed());
    assert_eq!(fader.next_alpha_change(300_000), 400_000);
    assert_eq!(fader.fade_direction, Fade::Lighten);
    assert_eq!(fader.next_alpha_change(300_000), 0);
    assert_eq!(fader.fade_direction, Fade::Done);
    assert!(fader.fade_completed());
    for _ in 0..5 {
        assert_eq!(fader.next_alpha_change(600_000), 0);
        assert_eq!(fader.fade_direction, Fade::Done);
    }
}

#[test]
fn a_fade_moves_by_speed_times_time() {
    let mut fader = Fader::new(6_000_000, Fade::Darken);
    assert_eq!(fader.next_alpha_change(16_000), 96_000);
    assert_eq!(fader.next_alpha_change(16_000), 192_000);
    assert_eq!(fader.fade_direction, Fade::Darken);
    assert!(!fader.is_darkened());
}

#[test]
fn new_faders_start_at_the_right_end() {
    assert_eq!(Fader::new(1, Fade::Darken).alpha, 0);
    assert_eq!(Fader::new(1, Fade::Lighten).alpha, 1_000_000);
    assert_eq!(Fader::new(1, Fade::Done).alpha, 0);
    assert!(Fader::new(1, Fade::Done).fade_completed());
    assert!(Fader { fade_speed: 1, fade_direction: Fade::Darken, alpha: 1_000_000 }.is_darkened());
    assert!(Fader { fade_speed: 1, fade_direction: Fade::Lighten, alpha: 0 }.is_lightened());
    assert!(!Fader { fade_speed: 1, fade_direction: Fade::Lighten, alpha: 1 }.is_lightened());
}

#[test]
fn the_status_remembers_a_completed_fade() {
    let mut status = FadeStatus::default();
    assert!(!status.is_completed());
    status.update(Fader::new(1, Fade::Darken));
    assert!(!status.is_completed());
    status.update(Fader::new(1, Fade::Done));
    assert!(status.is_completed());
    status.update(Fader::new(1, Fade::Lighten));
    assert!(status.is_completed());
    status.clear();
    assert!(!status.is_completed());
}
