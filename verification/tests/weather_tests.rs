use sim_core::broadcast::ClientView;
use sim_core::weather::{
    clear_weather, get_weather, handle_weather, on_weather_change_broadcast_weather, set_weather,
    LevelWeather, Weather, TICKS_DAY, TICKS_HALF_DAY, TICKS_WEEK,
};

fn level(
    raining: bool,
    rain_time: i32,
    thundering: bool,
    thunder_time: i32,
    clear_weather_time: i32,
) -> LevelWeather {
    LevelWeather { raining, rain_time, thundering, thunder_time, clear_weather_time }
}

#[test]
fn clear_timer_counts_down_without_transition() {
    let mut l = level(false, 1, false, 100, 5);
    for expected in [4, 3, 2, 1, 0] {
        let ev = handle_weather(&mut l);
        assert!(ev.is_none());
        assert_eq!(l.clear_weather_time, expected);
        assert_eq!(l.rain_time, 1);
        assert_eq!(l.thunder_time, 100);
    }
    // The sixth tick is free to transition: the rain timer expires.
    let ev = handle_weather(&mut l).expect("sixth tick should propose a transition");
    assert_eq!(ev.from, Weather::Clear);
    assert_eq!(ev.to, Weather::Rain);
    assert!(l.raining);
    assert!(ev.duration >= TICKS_HALF_DAY && ev.duration < TICKS_DAY);
    assert_eq!(l.rain_time, ev.duration);
}

#[test]
fn thunder_toggle_wins_ties() {
    // Both timers expire on the same tick; raining is on, thundering off.
    let mut l = level(true, 1, false, 1, 0);
    let ev = handle_weather(&mut l).expect("a transition must be proposed");
    assert_eq!(ev.from, Weather::Rain);
    assert_eq!(ev.to, Weather::Thunder);
    assert!(l.thundering);
    assert_eq!(l.thunder_time, ev.duration);
}

#[test]
fn set_weather_thunder_touches_only_thunder_fields() {
    let mut l = level(true, 77, false, 3, 0);
    let before = get_weather(&l);
    let from = set_weather(&mut l, Weather::Thunder, 100);
    assert_eq!(from, before);
    assert_eq!(from, Weather::Rain);
    assert!(l.thundering);
    assert_eq!(l.thunder_time, 100);
    assert!(l.raining);
    assert_eq!(l.rain_time, 77);
    assert_eq!(l.clear_weather_time, 0);
}

#[test]
fn set_weather_clear_resets_both() {
    let mut l = level(true, 50, true, 60, 0);
    let from = set_weather(&mut l, Weather::Clear, 30);
    assert_eq!(from, Weather::Thunder);
    assert!(!l.raining && !l.thundering);
    assert_eq!(l.rain_time, 0);
    assert_eq!(l.thunder_time, 0);
    assert_eq!(l.clear_weather_time, 30);
    assert_eq!(get_weather(&l), Weather::Clear);
}

#[test]
fn observable_weather_projection() {
    assert_eq!(get_weather(&level(true, 5, true, 5, 1)), Weather::Clear);
    assert_eq!(get_weather(&level(true, 5, true, 5, 0)), Weather::Thunder);
    assert_eq!(get_weather(&level(true, 5, false, 0, 0)), Weather::Rain);
    assert_eq!(get_weather(&level(false, 0, false, 0, 0)), Weather::Clear);
}

#[test]
fn no_transition_when_timers_are_running() {
    let mut l = level(true, 100, false, 100, 0);
    let ev = handle_weather(&mut l);
    assert!(ev.is_none());
    assert_eq!(l.rain_time, 99);
    assert_eq!(l.thunder_time, 99);
}

#[test]
fn clear_weather_draws_long_duration() {
    let mut l = level(true, 9, true, 9, 0);
    clear_weather(&mut l);
    assert!(!l.raining && !l.thundering);
    assert!(l.clear_weather_time >= TICKS_HALF_DAY);
    assert!(l.clear_weather_time < TICKS_WEEK + TICKS_HALF_DAY);
}

#[test]
fn weather_broadcast_reaches_every_client() {
    let clients = vec![
        ClientView { id: 1, loaded_chunks: vec![], visible_entities: vec![] },
        ClientView { id: 2, loaded_chunks: vec![], visible_entities: vec![] },
        ClientView { id: 3, loaded_chunks: vec![], visible_entities: vec![] },
    ];
    let (packet, recipients) = on_weather_change_broadcast_weather(&clients, Weather::Rain);
    assert_eq!(packet.reason, 2);
    assert_eq!(recipients, vec![1, 2, 3]);
    let (packet, recipients) = on_weather_change_broadcast_weather(&clients, Weather::Clear);
    assert_eq!(packet.reason, 1);
    assert_eq!(recipients, vec![1, 2, 3]);
}
