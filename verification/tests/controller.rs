use ledboard::controller::{
    brightness, Action, Event, LifeController, LifePhase, StatusController, StatusPhase,
    MIN_INTERVAL,
};
use ledboard::leds::{Led, Leds};
use ledboard::rotary::RotaryEvent;
use ledboard::status::Status;
use ledboard::RotorUpdate;

const OFF: Led = Led { red: 0, green: 0, blue: 0, white: 0 };

fn white(level: u8) -> Led {
    Led { red: 0, green: 0, blue: 0, white: level }
}

fn bits(pattern: &str) -> Vec<bool> {
    pattern.chars().filter(|c| *c == '0' || *c == '1').map(|c| c == '1').collect()
}

/// Runs a controller into the wait of its first frame: seed 200 keeps changing.
fn waiting(interval: u64) -> LifeController<12, 12> {
    let mut c = LifeController::<12, 12>::new(200, interval);
    assert_eq!(c.on_event(Event::Sampled(160)), Action::Show);
    assert_eq!(c.on_event(Event::Shown), Action::Wait(interval));
    assert_eq!(c.phase(), LifePhase::Waiting);
    c
}

#[test]
fn full_scale_sample_is_full_brightness() {
    assert_eq!(brightness(4095), 255);
}

#[test]
fn zero_sample_is_dark() {
    assert_eq!(brightness(0), 0);
}

#[test]
fn brightness_rounds_up_and_clamps() {
    assert_eq!(brightness(1), 1);
    assert_eq!(brightness(16), 1);
    assert_eq!(brightness(17), 2);
    assert_eq!(brightness(2048), 128);
    assert_eq!(brightness(4064), 254);
    assert_eq!(brightness(4065), 255);
    assert_eq!(brightness(4080), 255);
    assert_eq!(brightness(4081), 255);
    assert_eq!(brightness(65520), 255);
    assert_eq!(brightness(u16::MAX), 255);
    for raw in 0..=u16::MAX {
        assert_eq!(brightness(raw) as u32, ((raw as u32 + 15) / 16).min(255));
    }
}

#[test]
fn zero_sample_renders_no_lit_cell() {
    let mut c = StatusController::new(33);
    assert_eq!(c.on_event(Event::Sampled(0)), Action::Show);
    assert_eq!(c.status().level, 0);
    assert_eq!(c.picture(), Vec::<Led>::new());
}

#[test]
fn zero_sample_sends_a_dark_frame() {
    let mut c = StatusController::new(33);
    c.on_event(Event::Input(RotorUpdate::Yellow(RotaryEvent::CW(9))));
    c.on_event(Event::Sampled(0));
    let frame = Leds::<144>::new(12).update(&c.picture());
    assert_eq!(frame.len(), 2432);
    assert!(frame[64..2368].iter().all(|b| *b == 0x88));
}

#[test]
fn status_frame_cycle() {
    let mut c = StatusController::new(33);
    assert_eq!(c.phase(), StatusPhase::Sampling);
    assert_eq!(c.pending(), Action::Sample);
    assert_eq!(c.interval(), 33);
    assert_eq!(c.status(), Status { yellow: 0, red: 0, level: 16 });

    assert_eq!(c.on_event(Event::Sampled(4095)), Action::Show);
    assert_eq!(c.phase(), StatusPhase::Showing);
    assert_eq!(c.status().level, 255);
    assert_eq!(c.picture(), vec![OFF; 72]);

    assert_eq!(c.on_event(Event::Shown), Action::Wait(33));
    assert_eq!(c.phase(), StatusPhase::Waiting);

    assert_eq!(c.on_event(Event::Elapsed), Action::Sample);
    assert_eq!(c.phase(), StatusPhase::Sampling);
}

#[test]
fn status_knob_events_do_not_cut_the_wait_short() {
    let mut c = StatusController::new(33);
    c.on_event(Event::Sampled(160));
    c.on_event(Event::Shown);
    let yellow = Event::Input(RotorUpdate::Yellow(RotaryEvent::CW(2)));
    assert_eq!(c.on_event(yellow), Action::KeepWaiting);
    let red = Event::Input(RotorUpdate::Red(RotaryEvent::CCW(19)));
    assert_eq!(c.on_event(red), Action::KeepWaiting);
    assert_eq!(c.phase(), StatusPhase::Waiting);
    assert_eq!(c.status(), Status { yellow: 2, red: 19, level: 10 });
    let pressed = Event::Input(RotorUpdate::Red(RotaryEvent::Down));
    assert_eq!(c.on_event(pressed), Action::KeepWaiting);
    assert_eq!(c.status(), Status { yellow: 2, red: 0, level: 10 });

    assert_eq!(c.on_event(Event::Elapsed), Action::Sample);
    assert_eq!(c.on_event(Event::Sampled(320)), Action::Show);
    let picture = c.picture();
    assert_eq!(picture.len(), 72);
    assert_eq!(picture[0], Led { red: 20, green: 6, blue: 0, white: 0 });
    assert_eq!(picture[1], Led { red: 20, green: 6, blue: 0, white: 0 });
    assert_eq!(picture[2], OFF);
    assert_eq!(picture[48], OFF);
}

#[test]
fn status_ignores_what_it_does_not_wait_for() {
    let mut c = StatusController::new(33);
    assert_eq!(c.on_event(Event::Elapsed), Action::Sample);
    assert_eq!(c.on_event(Event::Shown), Action::Sample);
    assert_eq!(c.on_event(Event::Seed(7)), Action::Sample);
    let turned = Event::Input(RotorUpdate::Red(RotaryEvent::CW(5)));
    assert_eq!(c.on_event(turned), Action::Sample);
    assert_eq!(c.status(), Status::new());
    assert_eq!(c.phase(), StatusPhase::Sampling);
    c.on_event(Event::Sampled(16));
    assert_eq!(c.on_event(Event::Sampled(4095)), Action::Show);
    assert_eq!(c.status().level, 1);
    c.on_event(Event::Shown);
    assert_eq!(c.on_event(Event::Shown), Action::KeepWaiting);
    assert_eq!(c.on_event(Event::Sampled(4095)), Action::KeepWaiting);
    assert_eq!(c.status().level, 1);
}

#[test]
fn life_starts_by_sampling() {
    let c = LifeController::<12, 12>::new(200, 500);
    assert_eq!(c.phase(), LifePhase::Sampling);
    assert_eq!(c.pending(), Action::Sample);
    assert_eq!(c.interval(), 500);
    assert_eq!(c.level(), 0);
    assert_eq!(c.cells().len(), 144);
    assert_eq!(c.cells()[..12], bits("000101011101"));
}

#[test]
fn life_frame_shows_the_cells_then_moves_on() {
    let mut c = LifeController::<12, 12>::new(200, 500);
    assert_eq!(c.on_event(Event::Sampled(1600)), Action::Show);
    assert_eq!(c.phase(), LifePhase::ShowingCells);
    assert_eq!(c.level(), 100);
    let picture = c.picture();
    assert_eq!(picture.len(), 144);
    let cells = c.cells();
    for (pixel, alive) in picture.iter().zip(cells.iter()) {
        assert_eq!(*pixel, if *alive { white(100) } else { OFF });
    }
    assert_eq!(picture[3], white(100));
    assert_eq!(picture[0], OFF);

    assert_eq!(c.on_event(Event::Shown), Action::Wait(500));
    assert_eq!(c.phase(), LifePhase::Waiting);
    assert_eq!(c.cells()[..12], bits("000001110111"));

    assert_eq!(c.on_event(Event::Elapsed), Action::Sample);
    assert_eq!(c.phase(), LifePhase::Sampling);
}

#[test]
fn dead_grid_is_flashed_red_and_reseeded() {
    let mut c = LifeController::<3, 3>::new(0, 500);
    let flash = Led { red: 40, green: 0, blue: 0, white: 0 };
    assert_eq!(c.on_event(Event::Sampled(1280)), Action::Flash(flash));
    assert_eq!(c.phase(), LifePhase::FlashingDead);
    assert_eq!(c.pending(), Action::Flash(flash));
    assert_eq!(c.on_event(Event::Shown), Action::Draw);
    assert_eq!(c.phase(), LifePhase::SeedingDead);
    // the fresh grid is moved on by one generation at once; this one stands still
    let stalled = Led { red: 0, green: 40, blue: 0, white: 0 };
    assert_eq!(c.on_event(Event::Seed(12345)), Action::Flash(stalled));
    assert_eq!(c.phase(), LifePhase::FlashingStalled);
    assert_eq!(c.cells(), bits("100 111 000"));
}

#[test]
fn dead_grid_reseeded_with_a_lively_seed_goes_on_to_wait() {
    let mut c = LifeController::<12, 12>::new(0, 250);
    assert_eq!(c.on_event(Event::Sampled(0)), Action::Flash(Led { red: 1, ..OFF }));
    assert_eq!(c.on_event(Event::Shown), Action::Draw);
    assert_eq!(c.on_event(Event::Seed(200)), Action::Wait(250));
    assert_eq!(c.phase(), LifePhase::Waiting);
    assert_eq!(c.cells()[..12], bits("000001110111"));
}

#[test]
fn stalled_grid_is_flashed_green_and_reseeded() {
    let mut c = LifeController::<3, 3>::new(12345, 500);
    assert_eq!(c.on_event(Event::Sampled(4095)), Action::Show);
    let flash = Led { red: 0, green: 127, blue: 0, white: 0 };
    assert_eq!(c.on_event(Event::Shown), Action::Flash(flash));
    assert_eq!(c.phase(), LifePhase::FlashingStalled);
    assert_eq!(c.cells(), bits("100 111 000"));
    assert_eq!(c.on_event(Event::Shown), Action::Draw);
    assert_eq!(c.phase(), LifePhase::SeedingStalled);
    assert_eq!(c.pending(), Action::Draw);
    assert_eq!(c.on_event(Event::Seed(200)), Action::Wait(500));
    assert_eq!(c.phase(), LifePhase::Waiting);
    assert_eq!(c.cells(), bits("000 101 011"));
}

#[test]
fn dead_three_by_three_is_reported_and_reseeded() {
    let mut c = LifeController::<3, 3>::new(0, 500);
    assert_eq!(c.cells(), vec![false; 9]);
    assert!(matches!(c.on_event(Event::Sampled(2000)), Action::Flash(_)));
    assert_eq!(c.on_event(Event::Shown), Action::Draw);
    // zero again: the grid stays dead, the step changes nothing
    assert!(matches!(c.on_event(Event::Seed(0)), Action::Flash(_)));
    assert_eq!(c.phase(), LifePhase::FlashingStalled);
    assert_eq!(c.on_event(Event::Shown), Action::Draw);
    assert_eq!(c.on_event(Event::Seed(0xdead_beef)), Action::Wait(500));
    assert_eq!(c.cells(), bits("111 101 110"));
}

#[test]
fn flashes_are_never_dark() {
    let mut c = LifeController::<3, 3>::new(0, 500);
    assert_eq!(c.on_event(Event::Sampled(16)), Action::Flash(Led { red: 1, ..OFF }));
    let mut c = LifeController::<3, 3>::new(0, 500);
    assert_eq!(c.on_event(Event::Sampled(48)), Action::Flash(Led { red: 1, ..OFF }));
    let mut c = LifeController::<3, 3>::new(0, 500);
    assert_eq!(c.on_event(Event::Sampled(64)), Action::Flash(Led { red: 2, ..OFF }));
    let mut c = LifeController::<3, 3>::new(12345, 500);
    c.on_event(Event::Sampled(0));
    assert_eq!(c.on_event(Event::Shown), Action::Flash(Led { green: 1, ..OFF }));
}

#[test]
fn clockwise_halves_the_interval_and_starts_a_frame() {
    let mut c = waiting(500);
    let turned = Event::Input(RotorUpdate::Red(RotaryEvent::CW(1)));
    assert_eq!(c.on_event(turned), Action::Sample);
    assert_eq!(c.interval(), 250);
    assert_eq!(c.phase(), LifePhase::Sampling);
    assert_eq!(c.on_event(Event::Sampled(160)), Action::Show);
    assert_eq!(c.on_event(Event::Shown), Action::Wait(250));
}

#[test]
fn interval_is_not_halved_below_the_minimum() {
    assert_eq!(MIN_INTERVAL, 1);
    let turned = Event::Input(RotorUpdate::Red(RotaryEvent::CW(1)));
    let mut c = waiting(3);
    assert_eq!(c.on_event(turned), Action::Sample);
    assert_eq!(c.interval(), 1);
    let mut c = waiting(1);
    assert_eq!(c.on_event(turned), Action::Sample);
    assert_eq!(c.interval(), 1);
    assert_eq!(c.phase(), LifePhase::Sampling);
    let mut c = waiting(0);
    assert_eq!(c.on_event(turned), Action::Sample);
    assert_eq!(c.interval(), 0);
}

#[test]
fn counter_clockwise_doubles_the_interval_and_keeps_waiting() {
    let mut c = waiting(500);
    let turned = Event::Input(RotorUpdate::Red(RotaryEvent::CCW(19)));
    assert_eq!(c.on_event(turned), Action::KeepWaiting);
    assert_eq!(c.interval(), 1000);
    assert_eq!(c.phase(), LifePhase::Waiting);
    assert_eq!(c.on_event(turned), Action::KeepWaiting);
    assert_eq!(c.interval(), 2000);
    assert_eq!(c.on_event(Event::Elapsed), Action::Sample);
    c.on_event(Event::Sampled(160));
    assert_eq!(c.on_event(Event::Shown), Action::Wait(2000));
    let mut c = waiting(u64::MAX / 2);
    assert_eq!(c.on_event(turned), Action::KeepWaiting);
    assert_eq!(c.interval(), u64::MAX - 1);
}

#[test]
fn red_button_reseeds_and_starts_a_frame() {
    let mut c = waiting(500);
    let pressed = Event::Input(RotorUpdate::Red(RotaryEvent::Down));
    assert_eq!(c.on_event(pressed), Action::Draw);
    assert_eq!(c.phase(), LifePhase::SeedingOnRequest);
    assert_eq!(c.on_event(Event::Seed(0xdead_beef)), Action::Sample);
    assert_eq!(c.phase(), LifePhase::Sampling);
    assert_eq!(c.cells()[..24], bits("111101110111110110110101"));
    assert_eq!(c.interval(), 500);
}

#[test]
fn other_knob_events_keep_waiting() {
    let mut c = waiting(500);
    let before = c.cells();
    for event in [
        Event::Input(RotorUpdate::Red(RotaryEvent::Up)),
        Event::Input(RotorUpdate::Yellow(RotaryEvent::Down)),
        Event::Input(RotorUpdate::Yellow(RotaryEvent::Up)),
        Event::Input(RotorUpdate::Yellow(RotaryEvent::CW(4))),
        Event::Input(RotorUpdate::Yellow(RotaryEvent::CCW(4))),
    ] {
        assert_eq!(c.on_event(event), Action::KeepWaiting);
        assert_eq!(c.phase(), LifePhase::Waiting);
        assert_eq!(c.interval(), 500);
        assert_eq!(c.cells(), before);
    }
}

#[test]
fn life_ignores_what_it_does_not_wait_for() {
    let mut c = LifeController::<12, 12>::new(200, 500);
    let before = c.cells();
    let turned = Event::Input(RotorUpdate::Red(RotaryEvent::CCW(1)));
    for event in [Event::Shown, Event::Seed(1), Event::Elapsed, turned] {
        assert_eq!(c.on_event(event), Action::Sample);
        assert_eq!(c.phase(), LifePhase::Sampling);
        assert_eq!(c.interval(), 500);
        assert_eq!(c.cells(), before);
    }
    c.on_event(Event::Sampled(160));
    for event in [Event::Sampled(4095), Event::Seed(1), Event::Elapsed, turned] {
        assert_eq!(c.on_event(event), Action::Show);
        assert_eq!(c.phase(), LifePhase::ShowingCells);
        assert_eq!(c.level(), 10);
        assert_eq!(c.cells(), before);
    }
    c.on_event(Event::Shown);
    let after = c.cells();
    for event in [Event::Sampled(4095), Event::Seed(1), Event::Shown] {
        assert_eq!(c.on_event(event), Action::KeepWaiting);
        assert_eq!(c.phase(), LifePhase::Waiting);
        assert_eq!(c.cells(), after);
    }
}

#[test]
fn interval_that_cannot_double_is_left_alone() {
    let turned = Event::Input(RotorUpdate::Red(RotaryEvent::CCW(19)));
    let mut c = waiting(u64::MAX / 2 + 1);
    let before = c.cells();
    assert_eq!(c.try_on_event(turned), None);
    assert_eq!(c.interval(), u64::MAX / 2 + 1);
    assert_eq!(c.phase(), LifePhase::Waiting);
    assert_eq!(c.cells(), before);
    assert_eq!(c.try_on_event(Event::Elapsed), Some(Action::Sample));
    // outside the wait the event is not taken up, so nothing can overflow
    assert_eq!(c.try_on_event(turned), Some(Action::Sample));
    let mut c = waiting(u64::MAX / 2);
    assert_eq!(c.try_on_event(turned), Some(Action::KeepWaiting));
    assert_eq!(c.interval(), u64::MAX - 1);
}
