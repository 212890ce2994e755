//! The global environmental state machine: three observable weather states
//! backed by two flags and three countdown timers, advanced exactly once per
//! tick by a single caller.

use vstd::prelude::*;
use rand::RngExt;
use crate::broadcast::ClientView;
use crate::broadcast::spec_global_recipients;
use crate::broadcast::global_broadcast_recipients;

verus! {

/// Ticks in one in-game day.
pub const TICKS_DAY: i32 = 24_000;
/// Ticks in half an in-game day.
pub const TICKS_HALF_DAY: i32 = 12_000;
/// Ticks in one in-game week.
pub const TICKS_WEEK: i32 = 168_000;

/// The externally observable weather of the world.
#[derive(Debug, PartialEq, Eq, Structural, Clone, Copy)]
pub enum Weather {
    Clear,
    Rain,
    Thunder,
}

/// A proposed weather transition. Observers may overwrite `to` and
/// `duration` before the event is committed; the post-observation `to`
/// decides whether any state change happens at all.
#[derive(Debug, Clone, Copy, PartialEq, Eq, Structural)]
pub struct WeatherChangeEvent {
    pub from: Weather,
    pub to: Weather,
    pub duration: i32,
}

/// The persisted environmental state of the level: two flags and three
/// countdown timers. `clear_weather_time`, while positive, pins the
/// observable weather to `Clear` and freezes the other two timers.
#[derive(Debug, Clone, Copy, PartialEq, Eq, Structural)]
pub struct LevelWeather {
    pub raining: bool,
    pub rain_time: i32,
    pub thundering: bool,
    pub thunder_time: i32,
    pub clear_weather_time: i32,
}

/// The three-valued projection of the underlying flags and timers.
pub open spec fn spec_observable_weather(l: LevelWeather) -> Weather {
    if l.clear_weather_time > 0 {
        Weather::Clear
    } else if l.thundering {
        Weather::Thunder
    } else if l.raining {
        Weather::Rain
    } else {
        Weather::Clear
    }
}

/// The level after `set_weather(weather, duration)`: exactly the fields
/// relevant to the target state change.
pub open spec fn spec_set_weather(l: LevelWeather, weather: Weather, duration: i32) -> LevelWeather {
    match weather {
        Weather::Rain => LevelWeather { raining: true, rain_time: duration, ..l },
        Weather::Thunder => LevelWeather { thundering: true, thunder_time: duration, ..l },
        Weather::Clear => LevelWeather {
            raining: false,
            rain_time: 0,
            thundering: false,
            thunder_time: 0,
            clear_weather_time: duration,
        },
    }
}

/// The level after the per-tick decrement of `rain_time` and `thunder_time`
/// (steps two and three of the tick; only taken when `clear_weather_time`
/// did not short-circuit the tick).
pub open spec fn spec_tick_decrement(l: LevelWeather) -> LevelWeather {
    LevelWeather {
        rain_time: (l.rain_time - 1) as i32,
        thunder_time: (l.thunder_time - 1) as i32,
        ..l
    }
}

/// The candidate target weather of one tick, computed over the pre-tick
/// level. The rain timer proposes a toggle first; the thunder timer is
/// checked last and overrides the rain proposal on ties.
pub open spec fn spec_tick_candidate(l: LevelWeather) -> Weather {
    let from = spec_observable_weather(l);
    let after_rain = if l.rain_time - 1 <= 0 {
        if l.raining { Weather::Clear } else { Weather::Rain }
    } else {
        from
    };
    if l.thunder_time - 1 <= 0 {
        if l.thundering { Weather::Clear } else { Weather::Thunder }
    } else {
        after_rain
    }
}

/// The half-open duration range a fresh transition draws from: a long range
/// for turning clear, a short one for turning to rain or thunder.
pub open spec fn spec_duration_in_range(to: Weather, d: i32) -> bool {
    if to == Weather::Clear {
        TICKS_HALF_DAY <= d < TICKS_WEEK + TICKS_HALF_DAY
    } else {
        TICKS_HALF_DAY <= d < TICKS_DAY
    }
}

/// Relies on rand::RngExt::random_range on the thread generator: the result
/// lies in the given half-open range. Nothing further is assumed of it.
#[verifier::external_body]
fn random_duration(lo: i32, hi: i32) -> (r: i32)
    requires
        lo < hi,
    ensures
        lo <= r < hi,
{
    rand::rng().random_range(lo..hi)
}

/// The observable weather derived from the current flags and timers.
/// Performs no mutation.
pub fn get_weather(level: &LevelWeather) -> (w: Weather)
    ensures
        w == spec_observable_weather(*level),
{
    if level.clear_weather_time > 0 {
        Weather::Clear
    } else if level.thundering {
        Weather::Thunder
    } else if level.raining {
        Weather::Rain
    } else {
        Weather::Clear
    }
}

/// Sets exactly the fields relevant to the target weather and returns the
/// observable weather from immediately before the call.
pub fn set_weather(level: &mut LevelWeather, weather: Weather, duration: i32) -> (from: Weather)
    ensures
        from == spec_observable_weather(*old(level)),
        *final(level) == spec_set_weather(*old(level), weather, duration),
{
    let from = get_weather(level);
    match weather {
        Weather::Rain => {
            level.raining = true;
            level.rain_time = duration;
        }
        Weather::Thunder => {
            level.thundering = true;
            level.thunder_time = duration;
        }
        Weather::Clear => {
            level.raining = false;
            level.rain_time = 0;
            level.thundering = false;
            level.thunder_time = 0;
            level.clear_weather_time = duration;
        }
    }
    from
}

/// Forces clear weather for a random duration of half a day up to a week
/// and a half-day.
pub fn clear_weather(level: &mut LevelWeather)
    ensures
        (exists|d: i32|
            spec_duration_in_range(Weather::Clear, d)
            && *final(level) == spec_set_weather(*old(level), Weather::Clear, d)),
{
    let duration = random_duration(TICKS_HALF_DAY, TICKS_WEEK + TICKS_HALF_DAY);
    set_weather(level, Weather::Clear, duration);
    proof {
        let d = final(level).clear_weather_time;
        assert(spec_duration_in_range(Weather::Clear, d)
            && *final(level) == spec_set_weather(*old(level), Weather::Clear, d));
    }
}

/// Advances the timers of one tick and proposes a transition event, without
/// committing it. Returns `None` when the tick changes no observable
/// weather: either `clear_weather_time` was positive (it is decremented and
/// everything else is untouched) or the candidate equals the pre-tick
/// observable weather. A returned event carries a freshly drawn duration in
/// the range owed to its target weather; the caller lets observers mutate
/// the event and then commits it with [`commit_weather_event`].
pub fn weather_tick(level: &mut LevelWeather) -> (proposed: Option<WeatherChangeEvent>)
    requires
        old(level).clear_weather_time > i32::MIN,
        old(level).rain_time > i32::MIN,
        old(level).thunder_time > i32::MIN,
    ensures
        old(level).clear_weather_time > 0 ==> {
            &&& proposed is None
            &&& *final(level) == (LevelWeather {
                clear_weather_time: (old(level).clear_weather_time - 1) as i32,
                ..*old(level)
            })
        },
        old(level).clear_weather_time <= 0 ==> {
            let from = spec_observable_weather(*old(level));
            let to = spec_tick_candidate(*old(level));
            &&& *final(level) == spec_tick_decrement(*old(level))
            &&& (from == to ==> proposed is None)
            &&& (from != to ==> {
                &&& proposed matches Some(ev)
                &&& ev.from == from
                &&& ev.to == to
                &&& spec_duration_in_range(to, ev.duration)
            })
        },
{
    if level.clear_weather_time > 0 {
        level.clear_weather_time = level.clear_weather_time - 1;
        return None;
    }

    let from = get_weather(level);

    level.rain_time = level.rain_time - 1;
    let mut to = if level.rain_time <= 0 {
        if level.raining { Weather::Clear } else { Weather::Rain }
    } else {
        from
    };

    level.thunder_time = level.thunder_time - 1;
    to = if level.thunder_time <= 0 {
        if level.thundering { Weather::Clear } else { Weather::Thunder }
    } else {
        to
    };

    if from != to {
        let duration = match to {
            Weather::Clear => random_duration(TICKS_HALF_DAY, TICKS_WEEK + TICKS_HALF_DAY),
            _ => random_duration(TICKS_HALF_DAY, TICKS_DAY),
        };
        Some(WeatherChangeEvent { from, to, duration })
    } else {
        None
    }
}

/// Commits a (possibly observer-overridden) transition event: applies the
/// event's target weather and duration when its `to` still differs from the
/// pre-tick observable weather `from`, and discards it otherwise. Returns
/// whether a change was applied.
pub fn commit_weather_event(level: &mut LevelWeather, from: Weather, event: &WeatherChangeEvent) -> (committed: bool)
    ensures
        event.to != from ==> {
            &&& committed
            &&& *final(level) == spec_set_weather(*old(level), event.to, event.duration)
        },
        event.to == from ==> !committed && *final(level) == *old(level),
{
    if event.to != from {
        set_weather(level, event.to, event.duration);
        true
    } else {
        false
    }
}

/// One full tick of the state machine with no observers registered: the
/// proposed transition, if any, is committed as drawn. Returns the committed
/// event so the caller can broadcast it.
pub fn handle_weather(level: &mut LevelWeather) -> (committed: Option<WeatherChangeEvent>)
    requires
        old(level).clear_weather_time > i32::MIN,
        old(level).rain_time > i32::MIN,
        old(level).thunder_time > i32::MIN,
    ensures
        old(level).clear_weather_time > 0 ==> {
            &&& committed is None
            &&& *final(level) == (LevelWeather {
                clear_weather_time: (old(level).clear_weather_time - 1) as i32,
                ..*old(level)
            })
        },
        old(level).clear_weather_time <= 0 ==> {
            let from = spec_observable_weather(*old(level));
            let to = spec_tick_candidate(*old(level));
            if from == to {
                committed is None && *final(level) == spec_tick_decrement(*old(level))
            } else {
                &&& committed matches Some(ev)
                &&& ev.from == from
                &&& ev.to == to
                &&& spec_duration_in_range(to, ev.duration)
                &&& *final(level) == spec_set_weather(
                    spec_tick_decrement(*old(level)), to, ev.duration)
            }
        },
{
    let proposed = weather_tick(level);
    match proposed {
        Some(event) => {
            commit_weather_event(level, event.from, &event);
            Some(event)
        }
        None => None,
    }
}

/// The abstract payload of the change-game-state packet announcing a
/// weather transition. The transport collaborator supplies the fixed zero
/// value field of the wire form.
#[derive(Debug, Clone, Copy, PartialEq, Eq, Structural)]
pub struct ChangeGameStatePacket {
    pub reason: u8,
}

/// The packet for a transition: reason two begins rain or thunder, reason
/// one ends it.
pub open spec fn spec_weather_packet(to: Weather) -> ChangeGameStatePacket {
    match to {
        Weather::Rain | Weather::Thunder => ChangeGameStatePacket { reason: 2 },
        Weather::Clear => ChangeGameStatePacket { reason: 1 },
    }
}

fn create_weather_packet(to: Weather) -> (p: ChangeGameStatePacket)
    ensures
        p == spec_weather_packet(to),
{
    let reason: u8 = match to {
        Weather::Rain | Weather::Thunder => 2,
        Weather::Clear => 1,
    };
    ChangeGameStatePacket { reason }
}

/// The weather packet for one client. The caller checks that the client is
/// still alive and hands the packet to its connection.
pub fn send_weather(to: Weather) -> (p: ChangeGameStatePacket)
    ensures
        p == spec_weather_packet(to),
{
    create_weather_packet(to)
}

/// Translates a committed weather transition into the packet and the
/// recipients of its global broadcast: every connected client.
pub fn on_weather_change_broadcast_weather(clients: &Vec<ClientView>, to: Weather) -> (r: (
    ChangeGameStatePacket,
    Vec<u64>,
))
    ensures
        r.0 == spec_weather_packet(to),
        r.1@ == spec_global_recipients(clients@, None),
{
    let packet = create_weather_packet(to);
    let recipients = global_broadcast_recipients(clients, None);
    (packet, recipients)
}

/// Law: when the rain and thunder timers expire on the same tick, the
/// thunder check runs last and overrides the rain check's candidate, so
/// thunder's toggle decides the transition.
pub proof fn lemma_thunder_wins_ties(l: LevelWeather)
    requires
        l.clear_weather_time <= 0,
        l.rain_time - 1 <= 0,
        l.thunder_time - 1 <= 0,
        l.raining,
        !l.thundering,
    ensures
        spec_tick_candidate(l) == Weather::Thunder,
{
}

/// Law: while the clear-weather timer is positive, a tick only counts it
/// down: no transition is proposed and no other field moves.
pub proof fn lemma_clear_timer_pins_weather(l: LevelWeather)
    requires
        l.clear_weather_time > 0,
    ensures
        spec_observable_weather(l) == Weather::Clear,
{
}

/// Law: setting thunder touches exactly the thunder flag and timer; the
/// rain fields and the clear-weather timer keep their values.
pub proof fn lemma_set_thunder_leaves_rain(l: LevelWeather, duration: i32)
    ensures
        ({
            let s = spec_set_weather(l, Weather::Thunder, duration);
            &&& s.thundering
            &&& s.thunder_time == duration
            &&& s.raining == l.raining
            &&& s.rain_time == l.rain_time
            &&& s.clear_weather_time == l.clear_weather_time
        }),
{
}

} // verus!
