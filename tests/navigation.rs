use iced_tutorial::navigation::{Action, Message, Navigation};
use iced_tutorial::screen::{Screen, LAST_INDEX, SCREEN_COUNT};
use iced_tutorial::sliding::{AnimatedOffset, SlideOffset, ENTER_DISTANCE, TRANSITION_MS};

#[test]
fn backward_at_first_screen_is_noop() {
    let mut nav = Navigation::new();
    let action = nav.update(Message::PrevScreen);
    assert_eq!(action, Action::Nothing);
    assert_eq!(nav.screen().index(), 0);
    assert!(!nav.is_animating());
}

#[test]
fn three_forwards_reach_index_three() {
    let mut nav = Navigation::new();
    for _ in 0..3 {
        assert_eq!(nav.update(Message::NextScreen), Action::SlideChanged);
    }
    assert_eq!(nav.screen().index(), 3);
    assert_eq!(nav.screen(), Screen::View);
}

#[test]
fn forward_at_last_screen_is_noop() {
    let mut nav = Navigation::new();
    for _ in 0..LAST_INDEX {
        assert_eq!(nav.update(Message::NextScreen), Action::SlideChanged);
    }
    assert!(nav.screen().is_last());
    assert_eq!(nav.update(Message::NextScreen), Action::Nothing);
    assert_eq!(nav.screen(), Screen::Recap);
}

#[test]
fn index_stays_in_range_over_mixed_moves() {
    let mut nav = Navigation::new();
    let moves = [true, true, false, false, false, false, true];
    for _ in 0..5 {
        for fwd in moves {
            let _ = nav.update(if fwd { Message::NextScreen } else { Message::PrevScreen });
            assert!(nav.screen().index() <= LAST_INDEX);
        }
    }
    for _ in 0..60 {
        let _ = nav.update(Message::NextScreen);
        assert!(nav.screen().index() <= LAST_INDEX);
    }
    assert_eq!(nav.screen().index(), LAST_INDEX);
    for _ in 0..60 {
        let _ = nav.update(Message::PrevScreen);
    }
    assert_eq!(nav.screen().index(), 0);
}

#[test]
fn change_starts_animation_that_settles() {
    let mut nav = Navigation::new();
    assert_eq!(nav.update(Message::NextScreen), Action::SlideChanged);
    assert!(nav.is_animating());
    assert_eq!(nav.slide_offset().value(), SlideOffset::entering_forward());
    let mut frames: u32 = 0;
    while nav.is_animating() {
        let _ = nav.update(Message::SlideOffset(16));
        frames += 1;
        assert!(frames <= 16);
    }
    assert_eq!(frames, 16);
    assert_eq!(nav.slide_offset().value(), SlideOffset::settled());
}

#[test]
fn backward_enters_from_the_right() {
    let mut nav = Navigation::new();
    let _ = nav.update(Message::NextScreen);
    let _ = nav.update(Message::SlideOffset(TRANSITION_MS));
    assert!(!nav.is_animating());
    assert_eq!(nav.update(Message::PrevScreen), Action::SlideChanged);
    assert_eq!(nav.slide_offset().value(), SlideOffset { left: 0, right: ENTER_DISTANCE });
    assert_eq!(nav.screen(), Screen::Title);
}

#[test]
fn offset_moves_linearly() {
    let mut a = AnimatedOffset::new(SlideOffset::entering_forward());
    a.set_target(SlideOffset::settled());
    assert_eq!(a.value().left, 20);
    a.update(125);
    assert_eq!(a.value(), SlideOffset { left: 10, right: 0 });
    assert!(!a.is_finished());
    a.update(1000);
    assert!(a.is_finished());
    assert_eq!(a.value(), SlideOffset::settled());
}

#[test]
fn new_navigation_restarts_on_each_move() {
    let mut nav = Navigation::new();
    let _ = nav.update(Message::NextScreen);
    let _ = nav.update(Message::SlideOffset(100));
    let _ = nav.update(Message::NextScreen);
    assert_eq!(nav.slide_offset().value(), SlideOffset::entering_forward());
}

#[test]
fn screens_round_trip_through_index() {
    for i in 0..SCREEN_COUNT {
        let s = Screen::from_index(i).unwrap();
        assert_eq!(s.index(), i);
    }
    assert!(Screen::from_index(SCREEN_COUNT).is_none());
    assert!(Screen::first().is_first());
    assert_eq!(Screen::Title.label(), "");
    assert_eq!(Screen::Intro.label(), "0. The Elm Architecture");
    assert_eq!(Screen::Recap.label(), "22. Recap");
}

#[test]
fn forward_and_backward_clamp() {
    let mut s = Screen::Recap;
    s.forward();
    assert_eq!(s, Screen::Recap);
    s.backward();
    assert_eq!(s, Screen::Takeaways);
    let mut t = Screen::Title;
    t.backward();
    assert_eq!(t, Screen::Title);
    t.forward();
    assert_eq!(t, Screen::Intro);
}

#[test]
fn only_one_side_moves_in_flight() {
    let mut nav = Navigation::new();
    let _ = nav.update(Message::NextScreen);
    let _ = nav.update(Message::NextScreen);
    let _ = nav.update(Message::PrevScreen);
    for _ in 0..20 {
        let v = nav.slide_offset().value();
        if nav.is_animating() {
            assert!((v.left == 0) != (v.right == 0));
            assert_eq!(v.left, 0);
        } else {
            assert_eq!(v, SlideOffset::settled());
        }
        let _ = nav.update(Message::SlideOffset(20));
    }
    assert!(!nav.is_animating());
}
