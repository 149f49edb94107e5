use dev_menu::{
    Key, Menu, MenuEffect, MenuEvent, MenuItem, SliderMenuItem, SliderState, TextColor,
};

struct Settings {
    counter: i64,
    volume: i64,
}

fn apply(effect: MenuEffect, settings: &mut Settings) {
    match effect {
        MenuEffect::Nothing => {}
        MenuEffect::RunAction(0) => settings.counter += 1,
        MenuEffect::SetValue(1, v) => settings.volume = v,
        other => panic!("unexpected effect {:?}", other),
    }
}

fn send(menu: &mut Menu, e: MenuEvent, settings: &mut Settings) {
    let volume = settings.volume;
    let effect = menu.event(&e, |_| volume);
    apply(effect, settings);
}

fn three_actions() -> Menu {
    let mut menu = Menu::new();
    menu.add_item(MenuItem::action_item("a"));
    menu.add_item(MenuItem::action_item("b"));
    menu.add_item(MenuItem::action_item("c"));
    menu
}

#[test]
fn new_menu_is_empty() {
    let menu = Menu::new();
    assert_eq!(menu.len(), 0);
    assert_eq!(menu.selected_index(), 0);
    assert!(menu.selected_item().is_none());
}

#[test]
fn add_item_keeps_selection() {
    let mut menu = three_actions();
    menu.event(&MenuEvent::pressed(Key::Down), |_| 0);
    menu.add_item(MenuItem::action_item("d"));
    assert_eq!(menu.len(), 4);
    assert_eq!(menu.selected_index(), 1);
}

#[test]
fn down_n_times_returns_to_start() {
    let mut menu = three_actions();
    menu.event(&MenuEvent::pressed(Key::Down), |_| 0);
    let start = menu.selected_index();
    for _ in 0..3 {
        menu.event(&MenuEvent::pressed(Key::Down), |_| 0);
    }
    assert_eq!(menu.selected_index(), start);
}

#[test]
fn up_n_times_returns_to_start() {
    let mut menu = three_actions();
    for _ in 0..3 {
        menu.event(&MenuEvent::pressed(Key::Up), |_| 0);
    }
    assert_eq!(menu.selected_index(), 0);
}

#[test]
fn up_from_first_selects_last() {
    let mut menu = three_actions();
    menu.event(&MenuEvent::pressed(Key::Up), |_| 0);
    assert_eq!(menu.selected_index(), 2);
}

#[test]
fn down_from_last_selects_first() {
    let mut menu = three_actions();
    menu.event(&MenuEvent::pressed(Key::Up), |_| 0);
    menu.event(&MenuEvent::pressed(Key::Down), |_| 0);
    assert_eq!(menu.selected_index(), 0);
}

#[test]
fn other_presses_keep_selection() {
    let mut menu = three_actions();
    menu.event(&MenuEvent::pressed(Key::Down), |_| 0);
    for key in [Key::Left, Key::Right, Key::Space, Key::Other] {
        menu.event(&MenuEvent::pressed(key), |_| 0);
        assert_eq!(menu.selected_index(), 1);
    }
    menu.event(&MenuEvent::released(Key::Up), |_| 0);
    menu.event(&MenuEvent::tick(), |_| 0);
    assert_eq!(menu.selected_index(), 1);
}

#[test]
fn empty_menu_ignores_events() {
    let mut menu = Menu::new();
    for e in [MenuEvent::pressed(Key::Up), MenuEvent::pressed(Key::Down), MenuEvent::tick()] {
        assert_eq!(menu.event(&e, |_| 0), MenuEffect::Nothing);
        assert_eq!(menu.selected_index(), 0);
    }
}

fn counter_and_slider() -> Menu {
    let mut menu = Menu::new();
    menu.add_item(MenuItem::action_item("count"));
    menu.add_item(MenuItem::slider_item("volume", [0, 10], 1));
    menu
}

#[test]
fn action_runs_once_per_qualifying_press() {
    let mut menu = counter_and_slider();
    let mut settings = Settings { counter: 0, volume: 5 };
    for key in [Key::Space, Key::Left, Key::Right] {
        send(&mut menu, MenuEvent::pressed(key), &mut settings);
    }
    assert_eq!(settings.counter, 3);
    send(&mut menu, MenuEvent::released(Key::Space), &mut settings);
    send(&mut menu, MenuEvent::tick(), &mut settings);
    send(&mut menu, MenuEvent::pressed(Key::Other), &mut settings);
    assert_eq!(settings.counter, 3);
}

#[test]
fn action_untouched_while_other_item_selected() {
    let mut menu = counter_and_slider();
    let mut settings = Settings { counter: 0, volume: 5 };
    send(&mut menu, MenuEvent::pressed(Key::Down), &mut settings);
    for key in [Key::Space, Key::Left, Key::Right] {
        send(&mut menu, MenuEvent::pressed(key), &mut settings);
        send(&mut menu, MenuEvent::released(key), &mut settings);
    }
    assert_eq!(settings.counter, 0);
}

#[test]
fn action_press_effect_names_selected_item() {
    let mut menu = three_actions();
    menu.event(&MenuEvent::pressed(Key::Up), |_| 0);
    assert_eq!(menu.event(&MenuEvent::pressed(Key::Space), |_| 0), MenuEffect::RunAction(2));
}

#[test]
fn slider_press_right_then_tick_increases_by_step() {
    let mut menu = counter_and_slider();
    let mut settings = Settings { counter: 0, volume: 5 };
    send(&mut menu, MenuEvent::pressed(Key::Down), &mut settings);
    send(&mut menu, MenuEvent::pressed(Key::Right), &mut settings);
    assert_eq!(settings.volume, 5);
    send(&mut menu, MenuEvent::tick(), &mut settings);
    assert_eq!(settings.volume, 6);
}

#[test]
fn slider_clamps_at_max() {
    let mut menu = counter_and_slider();
    let mut settings = Settings { counter: 0, volume: 9 };
    send(&mut menu, MenuEvent::pressed(Key::Down), &mut settings);
    send(&mut menu, MenuEvent::pressed(Key::Right), &mut settings);
    for _ in 0..10 {
        send(&mut menu, MenuEvent::tick(), &mut settings);
    }
    assert_eq!(settings.volume, 10);
}

#[test]
fn slider_floors_at_min() {
    let mut menu = counter_and_slider();
    let mut settings = Settings { counter: 0, volume: 1 };
    send(&mut menu, MenuEvent::pressed(Key::Down), &mut settings);
    send(&mut menu, MenuEvent::pressed(Key::Left), &mut settings);
    send(&mut menu, MenuEvent::tick(), &mut settings);
    assert_eq!(settings.volume, 0);
    for _ in 0..10 {
        send(&mut menu, MenuEvent::tick(), &mut settings);
    }
    assert_eq!(settings.volume, 0);
}

#[test]
fn slider_release_stops_movement() {
    let mut menu = counter_and_slider();
    let mut settings = Settings { counter: 0, volume: 3 };
    send(&mut menu, MenuEvent::pressed(Key::Down), &mut settings);
    send(&mut menu, MenuEvent::pressed(Key::Right), &mut settings);
    send(&mut menu, MenuEvent::tick(), &mut settings);
    assert_eq!(settings.volume, 4);
    send(&mut menu, MenuEvent::released(Key::Right), &mut settings);
    for _ in 0..5 {
        send(&mut menu, MenuEvent::tick(), &mut settings);
    }
    assert_eq!(settings.volume, 4);
}

#[test]
fn slider_release_of_other_key_stops() {
    let mut slider = SliderMenuItem::new("v", [0, 10], 2);
    slider.event(&MenuEvent::pressed(Key::Right), 0);
    assert_eq!(slider.slider_state(), SliderState::Increasing);
    slider.event(&MenuEvent::released(Key::Left), 0);
    assert_eq!(slider.slider_state(), SliderState::Default);
}

#[test]
fn slider_update_is_seen_before_press() {
    let mut slider = SliderMenuItem::new("v", [0, 10], 2);
    let both = MenuEvent { press: Some(Key::Right), release: None, update: true };
    assert_eq!(slider.event(&both, 4), None);
    assert_eq!(slider.slider_state(), SliderState::Increasing);
    assert_eq!(slider.event(&MenuEvent::tick(), 4), Some(6));
}

#[test]
fn slider_steps_by_step_size() {
    let mut slider = SliderMenuItem::new("v", [-20, 20], 7);
    slider.event(&MenuEvent::pressed(Key::Left), 0);
    assert_eq!(slider.event(&MenuEvent::tick(), 0), Some(-7));
    assert_eq!(slider.event(&MenuEvent::tick(), -14), Some(-20));
    assert_eq!(slider.event(&MenuEvent::tick(), -20), Some(-20));
}

#[test]
fn slider_extreme_range_does_not_overflow() {
    let mut slider = SliderMenuItem::new("v", [i64::MIN, i64::MAX], i64::MAX);
    slider.event(&MenuEvent::pressed(Key::Right), 0);
    assert_eq!(slider.event(&MenuEvent::tick(), 5), Some(i64::MAX));
    slider.event(&MenuEvent::pressed(Key::Left), 0);
    assert_eq!(slider.event(&MenuEvent::tick(), -5), Some(i64::MIN));
}

#[test]
fn draw_positions_colors_and_text() {
    let mut menu = counter_and_slider();
    menu.event(&MenuEvent::pressed(Key::Down), |_| 0);
    let lines = menu.draw(|_| -42);
    assert_eq!(lines.len(), 2);
    assert_eq!(lines[0].text, "count");
    assert_eq!(lines[0].position, [10, 10]);
    assert_eq!(lines[0].color, TextColor::Plain);
    assert_eq!(lines[1].text, "volume -42");
    assert_eq!(lines[1].position, [10, 30]);
    assert_eq!(lines[1].color, TextColor::Highlight);
}

#[test]
fn draw_formats_value_in_decimal() {
    let slider = SliderMenuItem::new("speed", [0, 1000], 1);
    assert_eq!(slider.draw(907, [3, 4], false).text, "speed 907");
}

#[test]
fn draw_leaves_state_unchanged() {
    let mut menu = counter_and_slider();
    let mut settings = Settings { counter: 0, volume: 7 };
    send(&mut menu, MenuEvent::pressed(Key::Down), &mut settings);
    send(&mut menu, MenuEvent::pressed(Key::Right), &mut settings);
    let volume = settings.volume;
    for _ in 0..3 {
        let lines = menu.draw(|_| volume);
        assert_eq!(lines[1].text, "volume 7");
    }
    assert_eq!(menu.selected_index(), 1);
    match menu.selected_item() {
        Some(MenuItem::SliderItem(s)) => assert_eq!(s.slider_state(), SliderState::Increasing),
        _ => panic!("slider expected"),
    }
    assert_eq!(settings.volume, 7);
    assert_eq!(settings.counter, 0);
}
