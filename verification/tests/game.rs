use flight_the_power::game::{
    cleanup, evr_spawn_power_button, pause_cleanup, pause_click, pause_startup, screen_click,
    spawn_power_button, startup, update_power_text, GameScreen, Power, PowerUnlockFlags, Powers,
    SpawnOutcome, SpawnPowerButton, TotalPower,
};
use flight_the_power::ui::Interaction;
use flight_the_power::{
    Cost, CurrentOwned, MaxOwned, PauseState, ProdAmount, ProdRate, Title, UnlockBound, ID,
};

fn flags_of(entries: &[(usize, bool)]) -> PowerUnlockFlags {
    PowerUnlockFlags::from_entries(&entries.to_vec())
}

fn power(id: usize, max_owned: i64, current_owned: i64) -> Power {
    Power {
        title: Title::new(format!("power {}", id)),
        id: ID::new(id),
        cost: Cost::new(10),
        production_amount: ProdAmount::new(1),
        production_rate: ProdRate::new(4607182418800017408),
        max_owned: MaxOwned::new(max_owned),
        current_owned: CurrentOwned::new(current_owned),
    }
}

#[test]
fn new_flags_are_empty() {
    let flags = PowerUnlockFlags::new();
    assert_eq!(flags.len(), 0);
    assert_eq!(flags.get(0), None);
    assert!(!flags.is_unlocked(0));
    assert!(flags.entries().is_empty());
}

#[test]
fn insert_sets_and_returns_the_old_flag() {
    let mut flags = PowerUnlockFlags::new();
    assert_eq!(flags.insert(3, true), None);
    assert_eq!(flags.get(3), Some(true));
    assert!(flags.is_unlocked(3));
    assert_eq!(flags.insert(3, false), Some(true));
    assert_eq!(flags.get(3), Some(false));
    assert!(!flags.is_unlocked(3));
    assert_eq!(flags.len(), 1);
    assert_eq!(flags.get(4), None);
}

#[test]
fn from_entries_keeps_the_last_entry_of_an_id() {
    let flags = flags_of(&[(0, true), (1, true), (0, false)]);
    assert_eq!(flags.len(), 2);
    assert_eq!(flags.get(0), Some(false));
    assert_eq!(flags.get(1), Some(true));
}

#[test]
fn entries_give_back_what_was_put_in() {
    let flags = flags_of(&[(7, false), (0, true), (2, true)]);
    let mut entries = flags.entries();
    entries.sort();
    assert_eq!(entries, vec![(0, true), (2, true), (7, false)]);
    let again = PowerUnlockFlags::from_entries(&entries);
    let mut second = again.entries();
    second.sort();
    assert_eq!(second, entries);
}

#[test]
fn entries_of_all_false_flags_round_trip() {
    let flags = flags_of(&[(0, false), (1, false), (2, false)]);
    let again = PowerUnlockFlags::from_entries(&flags.entries());
    assert_eq!(again.len(), 3);
    for id in 0..3 {
        assert_eq!(again.get(id), Some(false));
    }
}

#[test]
fn startup_requests_each_unlocked_power_once() {
    let flags = flags_of(&[(0, true), (1, false)]);
    let mut screen = GameScreen::new();
    let requests = startup(&mut screen, &flags);
    assert_eq!(requests, vec![SpawnPowerButton(0)]);
    assert!(screen.has_parent_node());
    assert!(screen.displays().is_empty());
}

#[test]
fn startup_requests_come_in_increasing_order() {
    let flags = flags_of(&[(3, true), (0, true), (2, false), (1, true)]);
    let mut screen = GameScreen::new();
    let requests = startup(&mut screen, &flags);
    assert_eq!(
        requests,
        vec![SpawnPowerButton(0), SpawnPowerButton(1), SpawnPowerButton(3)]
    );
}

#[test]
fn startup_looks_only_below_the_number_of_flags() {
    let flags = flags_of(&[(5, true)]);
    let mut screen = GameScreen::new();
    assert!(startup(&mut screen, &flags).is_empty());
    let none = PowerUnlockFlags::new();
    assert!(startup(&mut screen, &none).is_empty());
}

#[test]
fn second_request_for_a_power_is_rejected() {
    let flags = flags_of(&[(0, true), (1, false)]);
    let mut screen = GameScreen::new();
    startup(&mut screen, &flags);
    let events = vec![SpawnPowerButton(0), SpawnPowerButton(0)];
    let outcomes = evr_spawn_power_button(&mut screen, &flags, &events);
    assert_eq!(
        outcomes,
        vec![SpawnOutcome::Spawned, SpawnOutcome::AlreadySpawned]
    );
    assert_eq!(screen.displays(), &vec![0]);
    let later = evr_spawn_power_button(&mut screen, &flags, &vec![SpawnPowerButton(0)]);
    assert_eq!(later, vec![SpawnOutcome::AlreadySpawned]);
    assert_eq!(screen.displays(), &vec![0]);
}

#[test]
fn locked_and_unknown_powers_get_no_display() {
    let flags = flags_of(&[(0, true), (1, false)]);
    let mut screen = GameScreen::new();
    startup(&mut screen, &flags);
    let events = vec![SpawnPowerButton(1), SpawnPowerButton(9), SpawnPowerButton(0)];
    let outcomes = evr_spawn_power_button(&mut screen, &flags, &events);
    assert_eq!(
        outcomes,
        vec![
            SpawnOutcome::NotUnlocked,
            SpawnOutcome::NoSuchFlag,
            SpawnOutcome::Spawned
        ]
    );
    assert!(!screen.is_spawned(1));
    assert!(!screen.is_spawned(9));
    assert!(screen.is_spawned(0));
}

#[test]
fn nothing_spawns_without_the_parent_node() {
    let flags = flags_of(&[(0, true)]);
    let mut screen = GameScreen::new();
    assert!(!screen.has_parent_node());
    let outcome = spawn_power_button(&mut screen, &flags, SpawnPowerButton(0));
    assert_eq!(outcome, SpawnOutcome::NoParentNode);
    assert!(screen.displays().is_empty());
    startup(&mut screen, &flags);
    let outcome = spawn_power_button(&mut screen, &flags, SpawnPowerButton(0));
    assert_eq!(outcome, SpawnOutcome::Spawned);
    assert_eq!(screen.displays(), &vec![0]);
}

#[test]
fn an_empty_frame_changes_nothing() {
    let flags = flags_of(&[(0, true)]);
    let mut screen = GameScreen::new();
    startup(&mut screen, &flags);
    assert!(evr_spawn_power_button(&mut screen, &flags, &Vec::new()).is_empty());
    assert!(screen.displays().is_empty());
    assert!(screen.has_parent_node());
}

#[test]
fn cleanup_takes_every_display_down() {
    let flags = flags_of(&[(0, true), (1, true)]);
    let mut screen = GameScreen::new();
    let requests = startup(&mut screen, &flags);
    evr_spawn_power_button(&mut screen, &flags, &requests);
    pause_startup(&mut screen);
    assert_eq!(screen.displays(), &vec![0, 1]);
    cleanup(&mut screen);
    assert!(screen.displays().is_empty());
    assert!(!screen.has_parent_node());
    pause_cleanup(&mut screen);
    assert!(!screen.has_pause_overlay());
    let requests = startup(&mut screen, &flags);
    let outcomes = evr_spawn_power_button(&mut screen, &flags, &requests);
    assert_eq!(outcomes, vec![SpawnOutcome::Spawned, SpawnOutcome::Spawned]);
    assert_eq!(screen.displays(), &vec![0, 1]);
}

#[test]
fn cleanup_leaves_the_pause_overlay_as_it_is() {
    let mut screen = GameScreen::new();
    startup(&mut screen, &PowerUnlockFlags::new());
    pause_startup(&mut screen);
    cleanup(&mut screen);
    assert!(screen.has_pause_overlay());
    assert!(!screen.has_parent_node());
    pause_cleanup(&mut screen);
    cleanup(&mut screen);
    assert!(!screen.has_pause_overlay());
}

#[test]
fn adding_power_raises_the_total() {
    let mut total = TotalPower::new(-4);
    update_power_text(&mut total);
    total.add_power(0);
    assert_eq!(total.power(), -4);
    total.add_power(7);
    assert_eq!(total.power(), 3);
    assert_eq!(update_power_text(&mut total), Some("3".to_string()));
    let mut top = TotalPower::new(i64::MAX - 2);
    top.add_power(2);
    assert_eq!(top.power(), i64::MAX);
}

#[test]
fn pause_overlay_goes_up_and_down() {
    let mut screen = GameScreen::new();
    assert!(!screen.has_pause_overlay());
    pause_startup(&mut screen);
    assert!(screen.has_pause_overlay());
    pause_cleanup(&mut screen);
    assert!(!screen.has_pause_overlay());
}

#[test]
fn five_clicks_from_ten_make_fifteen() {
    let mut total = TotalPower::new(10);
    assert_eq!(update_power_text(&mut total), Some("10".to_string()));
    assert_eq!(update_power_text(&mut total), None);
    let clicks = vec![Interaction::Pressed; 5];
    screen_click(&mut total, &clicks);
    assert_eq!(total.power(), 15);
    assert_eq!(update_power_text(&mut total), Some("15".to_string()));
    assert_eq!(update_power_text(&mut total), None);
}

#[test]
fn clicks_in_separate_frames_refresh_the_text_each_frame() {
    let mut total = TotalPower::new(10);
    update_power_text(&mut total);
    let mut texts = Vec::new();
    for _ in 0..5 {
        screen_click(&mut total, &vec![Interaction::Pressed]);
        texts.push(update_power_text(&mut total).unwrap());
    }
    assert_eq!(texts, vec!["11", "12", "13", "14", "15"]);
}

#[test]
fn only_presses_earn() {
    let mut total = TotalPower::new(0);
    update_power_text(&mut total);
    screen_click(&mut total, &vec![Interaction::Hovered, Interaction::Idle]);
    assert_eq!(total.power(), 0);
    assert_eq!(update_power_text(&mut total), None);
    screen_click(
        &mut total,
        &vec![Interaction::Hovered, Interaction::Pressed, Interaction::Idle],
    );
    assert_eq!(total.power(), 1);
    assert_eq!(update_power_text(&mut total), Some("1".to_string()));
}

#[test]
fn clicks_never_lower_the_total() {
    let mut total = TotalPower::new(-3);
    let mut last = total.power();
    for presses in 0..4 {
        screen_click(&mut total, &vec![Interaction::Pressed; presses]);
        assert!(total.power() >= last);
        last = total.power();
    }
    assert_eq!(last, 3);
}

#[test]
fn the_last_unit_can_be_earned() {
    let mut total = TotalPower::new(i64::MAX - 1);
    screen_click(&mut total, &vec![Interaction::Pressed]);
    assert_eq!(total.power(), i64::MAX);
}

#[test]
fn power_text_is_decimal() {
    let text = |power: i64| update_power_text(&mut TotalPower::new(power)).unwrap();
    assert_eq!(text(0), "0");
    assert_eq!(text(7), "7");
    assert_eq!(text(-5), "-5");
    assert_eq!(text(1000), "1000");
    assert_eq!(text(i64::MAX), "9223372036854775807");
    assert_eq!(text(i64::MIN), "-9223372036854775808");
}

#[test]
fn default_total_is_zero() {
    let mut total = TotalPower::default();
    assert_eq!(total.power(), 0);
    assert_eq!(update_power_text(&mut total), Some("0".to_string()));
}

#[test]
fn pause_button_flips_the_pause() {
    let press = vec![Interaction::Pressed];
    assert_eq!(
        pause_click(PauseState::Unpaused, &press),
        Some(PauseState::Paused)
    );
    assert_eq!(
        pause_click(PauseState::Paused, &press),
        Some(PauseState::Unpaused)
    );
    assert_eq!(pause_click(PauseState::Paused, &Vec::new()), None);
    assert_eq!(
        pause_click(PauseState::Unpaused, &vec![Interaction::Hovered]),
        None
    );
}

#[test]
fn two_toggle_presses_restore_the_pause_state() {
    let press = vec![Interaction::Pressed];
    for start in [PauseState::Unpaused, PauseState::Paused] {
        let once = pause_click(start, &press).unwrap();
        assert_ne!(once, start);
        let twice = pause_click(once, &press).unwrap();
        assert_eq!(twice, start);
    }
}

#[test]
fn presses_within_one_frame_ask_for_one_flip() {
    let presses = vec![Interaction::Pressed, Interaction::Pressed];
    assert_eq!(
        pause_click(PauseState::Unpaused, &presses),
        Some(PauseState::Paused)
    );
}

#[test]
fn catalog_takes_powers_that_fit() {
    let catalog = Powers::new(vec![power(0, 5, 0), power(1, 5, 5), power(2, 0, 0)]).unwrap();
    assert_eq!(catalog.len(), 3);
    assert_eq!(*catalog.get(1).unwrap().current_owned.current_owned(), 5);
    assert_eq!(*catalog.get(2).unwrap().id.id(), 2);
    assert!(catalog.get(3).is_none());
    assert_eq!(catalog.powers().len(), 3);
}

#[test]
fn empty_catalog_is_a_catalog() {
    let catalog = Powers::new(Vec::new()).unwrap();
    assert_eq!(catalog.len(), 0);
    assert!(catalog.get(0).is_none());
}

#[test]
fn catalog_refuses_powers_that_do_not_fit() {
    assert!(Powers::new(vec![power(1, 5, 0)]).is_none());
    assert!(Powers::new(vec![power(0, 5, 0), power(0, 5, 0)]).is_none());
    assert!(Powers::new(vec![power(0, 5, 6)]).is_none());
    assert!(Powers::new(vec![power(0, 5, -1)]).is_none());
    assert!(Powers::new(vec![power(0, -1, 0)]).is_none());
}

#[test]
fn record_fields_hand_back_their_values() {
    let made = power(4, 9, 3);
    assert_eq!(made.title.title(), "power 4");
    assert_eq!(*made.id.id(), 4);
    assert_eq!(*made.cost.cost(), 10);
    assert_eq!(*made.cost.prod_amt(), 10);
    assert_eq!(*made.production_amount.amount(), 1);
    assert_eq!(*made.production_rate.prod_rate(), 4607182418800017408);
    assert_eq!(f64::from_bits(*made.production_rate.prod_rate()), 1.0);
    assert_eq!(*made.max_owned.max_owned(), 9);
    assert_eq!(*made.current_owned.current_owned(), 3);
    assert_eq!(*UnlockBound::new(-2).unlock_bound(), -2);
}
