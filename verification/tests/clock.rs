use gameclockbone::pane::clock::{to_text, Clock1PPane, ClockMessage, ClockPane, TICK_INTERVAL};

const SECOND: u128 = 1_000_000_000;

fn running_clock(limit: u128, since: u128) -> Clock1PPane {
    let mut clock = Clock1PPane::new(limit);
    clock.toggle(since);
    clock
}

fn remaining_of(pane: &ClockPane) -> Vec<u128> {
    pane.panes().iter().map(|clock| clock.remaining()).collect()
}

fn running_of(pane: &ClockPane) -> Vec<bool> {
    pane.panes().iter().map(|clock| clock.is_running()).collect()
}

#[test]
fn new_clock_is_stopped_with_its_limit() {
    let clock = Clock1PPane::new(3 * SECOND);
    assert_eq!(clock.remaining(), 3 * SECOND);
    assert!(!clock.is_running());
}

#[test]
fn tick_takes_elapsed_time_off_a_running_clock() {
    let mut clock = running_clock(10 * SECOND, 5 * SECOND);
    clock.on_tick(8 * SECOND);
    assert_eq!(clock.remaining(), 7 * SECOND);
    assert_eq!(clock.last_tick(), 8 * SECOND);
    assert!(clock.is_running());
}

#[test]
fn tick_of_the_whole_remaining_time_leaves_zero() {
    let mut clock = running_clock(10 * SECOND, 5 * SECOND);
    clock.on_tick(15 * SECOND);
    assert_eq!(clock.remaining(), 0);
}

#[test]
fn tick_of_nothing_takes_nothing() {
    let mut clock = running_clock(10 * SECOND, 5 * SECOND);
    clock.on_tick(5 * SECOND);
    assert_eq!(clock.remaining(), 10 * SECOND);
}

#[test]
fn tick_beyond_the_remaining_time_stops_at_zero() {
    let mut clock = running_clock(10 * SECOND, 5 * SECOND);
    clock.on_tick(15 * SECOND + 1);
    assert_eq!(clock.remaining(), 0);
    assert_eq!(clock.last_tick(), 15 * SECOND + 1);
    clock.on_tick(u128::MAX);
    assert_eq!(clock.remaining(), 0);
    assert!(clock.is_running());
}

#[test]
fn tick_counts_nanoseconds() {
    let mut clock = running_clock(1_000, 0);
    clock.on_tick(1);
    assert_eq!(clock.remaining(), 999);
    clock.on_tick(999);
    assert_eq!(clock.remaining(), 1);
    clock.on_tick(1_000);
    assert_eq!(clock.remaining(), 0);
}

#[test]
fn second_tick_with_the_same_timestamp_changes_nothing() {
    let mut clock = running_clock(10 * SECOND, 5 * SECOND);
    clock.on_tick(6 * SECOND);
    let (remaining, last_tick, running) = (clock.remaining(), clock.last_tick(), clock.is_running());
    clock.on_tick(6 * SECOND);
    assert_eq!(clock.remaining(), remaining);
    assert_eq!(clock.last_tick(), last_tick);
    assert_eq!(clock.is_running(), running);
    assert_eq!(clock.remaining(), 9 * SECOND);
}

#[test]
fn tick_from_the_past_resynchronizes_without_taking_time() {
    let mut clock = running_clock(10 * SECOND, 5 * SECOND);
    clock.on_tick(3 * SECOND);
    assert_eq!(clock.remaining(), 10 * SECOND);
    assert_eq!(clock.last_tick(), 3 * SECOND);
    assert!(clock.is_running());
    clock.on_tick(4 * SECOND);
    assert_eq!(clock.remaining(), 9 * SECOND);
}

#[test]
fn stopped_clock_ignores_ticks() {
    let mut clock = Clock1PPane::new(10 * SECOND);
    clock.on_tick(99 * SECOND);
    assert_eq!(clock.remaining(), 10 * SECOND);
    assert_eq!(clock.last_tick(), 0);
    assert!(!clock.is_running());
}

#[test]
fn single_clock_update_reacts_to_ticks_only() {
    let mut clock = Clock1PPane::new(10 * SECOND);
    clock.update(ClockMessage::Toggle(SECOND));
    assert!(!clock.is_running());
    clock.toggle(SECOND);
    clock.update(ClockMessage::Pause);
    assert!(clock.is_running());
    clock.update(ClockMessage::Tick(3 * SECOND));
    assert_eq!(clock.remaining(), 8 * SECOND);
}

#[test]
fn single_clock_toggle_starts_and_stops() {
    let mut clock = Clock1PPane::new(10 * SECOND);
    clock.toggle(2 * SECOND);
    assert!(clock.is_running());
    assert_eq!(clock.last_tick(), 2 * SECOND);
    clock.toggle(4 * SECOND);
    assert!(!clock.is_running());
    assert_eq!(clock.last_tick(), 2 * SECOND);
    assert_eq!(clock.remaining(), 10 * SECOND);
}

#[test]
fn single_clock_pause_request_never_starts() {
    let mut clock = Clock1PPane::new(10 * SECOND);
    clock.pause_request();
    assert!(!clock.is_running());
    clock.toggle(SECOND);
    clock.pause_request();
    assert!(!clock.is_running());
    clock.pause_request();
    assert!(!clock.is_running());
}

#[test]
fn new_screen_has_all_clocks_stopped_and_the_turn_with_the_last() {
    for count in 1..=4usize {
        let limits: Vec<u128> = (1..=count as u128).map(|i| i * SECOND).collect();
        let pane = ClockPane::new(&limits);
        assert_eq!(pane.len(), count);
        assert_eq!(pane.current_pane(), count - 1);
        assert_eq!(remaining_of(&pane), limits);
        assert_eq!(running_of(&pane), vec![false; count]);
    }
}

#[test]
fn turn_rotation_between_two_clocks() {
    let mut pane = ClockPane::new(&[60 * SECOND, 60 * SECOND]);
    assert_eq!(pane.current_pane(), 1);
    pane.update(ClockMessage::Toggle(SECOND));
    assert_eq!(pane.current_pane(), 0);
    assert_eq!(running_of(&pane), vec![true, false]);
    pane.update(ClockMessage::Toggle(2 * SECOND));
    assert_eq!(pane.current_pane(), 1);
    assert_eq!(running_of(&pane), vec![false, true]);
    assert_eq!(pane.panes()[1].last_tick(), 2 * SECOND);
}

#[test]
fn turn_rotation_among_four_clocks_goes_round() {
    let mut pane = ClockPane::new(&[SECOND, SECOND, SECOND, SECOND]);
    let mut turns = Vec::new();
    for now in 0..5u128 {
        pane.update(ClockMessage::Toggle(now));
        turns.push(pane.current_pane());
        let running: Vec<usize> = (0..4).filter(|&i| pane.panes()[i].is_running()).collect();
        assert_eq!(running, vec![pane.current_pane()]);
    }
    assert_eq!(turns, vec![0, 1, 2, 3, 0]);
}

#[test]
fn toggle_of_a_lone_clock_starts_and_stops_it() {
    let mut pane = ClockPane::new(&[60 * SECOND]);
    assert_eq!(pane.current_pane(), 0);
    pane.update(ClockMessage::Toggle(SECOND));
    assert_eq!(pane.current_pane(), 0);
    assert_eq!(running_of(&pane), vec![true]);
    assert_eq!(pane.panes()[0].last_tick(), SECOND);
    pane.update(ClockMessage::Toggle(2 * SECOND));
    assert_eq!(pane.current_pane(), 0);
    assert_eq!(running_of(&pane), vec![false]);
    assert_eq!(remaining_of(&pane), vec![60 * SECOND]);
    pane.update(ClockMessage::Pause);
    assert_eq!(pane.current_pane(), 0);
}

#[test]
fn tick_reaches_the_active_clock_only() {
    let mut pane = ClockPane::new(&[60 * SECOND, 50 * SECOND, 40 * SECOND]);
    pane.update(ClockMessage::Tick(5 * SECOND));
    assert_eq!(remaining_of(&pane), vec![60 * SECOND, 50 * SECOND, 40 * SECOND]);
    pane.update(ClockMessage::Toggle(10 * SECOND));
    pane.update(ClockMessage::Tick(13 * SECOND));
    assert_eq!(remaining_of(&pane), vec![57 * SECOND, 50 * SECOND, 40 * SECOND]);
    pane.update(ClockMessage::Toggle(14 * SECOND));
    pane.update(ClockMessage::Tick(24 * SECOND));
    assert_eq!(remaining_of(&pane), vec![57 * SECOND, 40 * SECOND, 40 * SECOND]);
    pane.update(ClockMessage::Tick(24 * SECOND));
    assert_eq!(remaining_of(&pane), vec![57 * SECOND, 40 * SECOND, 40 * SECOND]);
}

#[test]
fn time_between_toggle_and_next_tick_is_charged_to_the_new_clock_from_the_toggle() {
    let mut pane = ClockPane::new(&[60 * SECOND, 60 * SECOND]);
    pane.update(ClockMessage::Toggle(0));
    pane.update(ClockMessage::Tick(4 * SECOND));
    pane.update(ClockMessage::Toggle(5 * SECOND));
    pane.update(ClockMessage::Tick(6 * SECOND));
    assert_eq!(remaining_of(&pane), vec![56 * SECOND, 59 * SECOND]);
}

#[test]
fn pause_between_two_clocks_steps_the_turn_back() {
    let mut pane = ClockPane::new(&[60 * SECOND, 60 * SECOND]);
    pane.update(ClockMessage::Toggle(0));
    pane.update(ClockMessage::Tick(10 * SECOND));
    assert_eq!(pane.current_pane(), 0);
    pane.update(ClockMessage::Pause);
    assert_eq!(pane.current_pane(), 1);
    assert_eq!(running_of(&pane), vec![false, false]);
    assert_eq!(remaining_of(&pane), vec![50 * SECOND, 60 * SECOND]);
    pane.update(ClockMessage::Tick(500 * SECOND));
    assert_eq!(remaining_of(&pane), vec![50 * SECOND, 60 * SECOND]);
    pane.update(ClockMessage::Toggle(1000 * SECOND));
    assert_eq!(pane.current_pane(), 0);
    assert_eq!(running_of(&pane), vec![true, false]);
    pane.update(ClockMessage::Tick(1001 * SECOND));
    assert_eq!(remaining_of(&pane), vec![49 * SECOND, 60 * SECOND]);
}

#[test]
fn pause_among_three_clocks_steps_the_turn_back_round_the_end() {
    let mut pane = ClockPane::new(&[SECOND, SECOND, SECOND]);
    pane.update(ClockMessage::Toggle(0));
    assert_eq!(pane.current_pane(), 0);
    pane.update(ClockMessage::Pause);
    assert_eq!(pane.current_pane(), 2);
    pane.update(ClockMessage::Pause);
    assert_eq!(pane.current_pane(), 1);
    assert_eq!(running_of(&pane), vec![false, false, false]);
}

#[test]
fn methods_of_the_screen_agree_with_its_messages() {
    let mut by_message = ClockPane::new(&[9 * SECOND, 9 * SECOND]);
    let mut by_method = ClockPane::new(&[9 * SECOND, 9 * SECOND]);
    by_message.update(ClockMessage::Toggle(SECOND));
    by_method.toggle(SECOND);
    by_message.update(ClockMessage::Tick(3 * SECOND));
    by_method.on_tick(3 * SECOND);
    by_message.update(ClockMessage::Pause);
    by_method.pause_request();
    assert_eq!(remaining_of(&by_message), remaining_of(&by_method));
    assert_eq!(running_of(&by_message), running_of(&by_method));
    assert_eq!(by_message.current_pane(), by_method.current_pane());
    assert_eq!(remaining_of(&by_method), vec![7 * SECOND, 9 * SECOND]);
}

#[test]
fn clock_screen_asks_for_a_tick_every_ten_milliseconds() {
    let pane = ClockPane::new(&[SECOND]);
    assert_eq!(TICK_INTERVAL, 10_000_000);
    assert_eq!(pane.interval(), 10_000_000);
    assert_eq!(pane.subscription(), Some(10_000_000));
}

#[test]
fn layout_depends_on_the_number_of_clocks() {
    assert_eq!(ClockPane::new(&[0]).rows(), vec![vec![0]]);
    assert_eq!(ClockPane::new(&[0, 0]).rows(), vec![vec![0, 1]]);
    assert_eq!(ClockPane::new(&[0, 0, 0]).rows(), vec![vec![0], vec![1, 2]]);
    assert_eq!(ClockPane::new(&[0, 0, 0, 0]).rows(), vec![vec![0, 1], vec![2, 3]]);
}

#[test]
fn layout_stays_when_the_turn_passes() {
    let mut pane = ClockPane::new(&[SECOND, SECOND, SECOND]);
    let before = pane.rows();
    pane.update(ClockMessage::Toggle(0));
    assert_eq!(pane.rows(), before);
    pane.update(ClockMessage::Pause);
    assert_eq!(pane.rows(), before);
}

#[test]
fn text_of_a_time_has_hours_minutes_and_seconds() {
    assert_eq!(to_text(0), "00:00:00");
    assert_eq!(to_text(999_999_999), "00:00:00");
    assert_eq!(to_text(SECOND), "00:00:01");
    assert_eq!(to_text(59 * SECOND), "00:00:59");
    assert_eq!(to_text(60 * SECOND), "00:01:00");
    assert_eq!(to_text(3599 * SECOND), "00:59:59");
    assert_eq!(to_text(3600 * SECOND), "01:00:00");
    assert_eq!(to_text((12 * 3600 + 34 * 60 + 56) * SECOND + 789), "12:34:56");
    assert_eq!(to_text(100 * 3600 * SECOND), "100:00:00");
    assert_eq!(to_text(u64::MAX as u128 * SECOND), "5124095576030431:00:15");
}

#[test]
fn faces_show_the_clocks_in_their_rows() {
    let mut pane = ClockPane::new(&[90 * SECOND, 3600 * SECOND, 5 * SECOND]);
    assert_eq!(
        pane.faces(),
        vec![
            vec!["00:01:30".to_string()],
            vec!["01:00:00".to_string(), "00:00:05".to_string()]
        ]
    );
    pane.update(ClockMessage::Toggle(0));
    pane.update(ClockMessage::Tick(30 * SECOND + 1));
    assert_eq!(
        pane.faces(),
        vec![
            vec!["00:00:59".to_string()],
            vec!["01:00:00".to_string(), "00:00:05".to_string()]
        ]
    );
    let four = ClockPane::new(&[SECOND, 2 * SECOND, 3 * SECOND, 4 * SECOND]);
    assert_eq!(
        four.faces(),
        vec![
            vec!["00:00:01".to_string(), "00:00:02".to_string()],
            vec!["00:00:03".to_string(), "00:00:04".to_string()]
        ]
    );
    assert_eq!(ClockPane::new(&[61 * SECOND]).faces(), vec![vec!["00:01:01".to_string()]]);
}
