//! Bar segments: the formatted text-plus-style unit that the bar displays for
//! one data source, and the per-feed formatters that choose icons by fixed
//! numeric thresholds.

use vstd::prelude::*;
use crate::text::{dec_of, idec_of, u64_to_dec, i64_to_dec};
use crate::weather::{Observation, ObsV};

verus! {

/// One renderable unit of the bar: display text, an optional foreground
/// colour, and a count of padding spaces on each side.
pub struct Segment {
    pub text: String,
    pub fg: Option<String>,
    pub pad: u32,
}

/// The colour used for every error placeholder.
pub open spec fn warn_color() -> Seq<char> {
    "#bb1155"@
}

/// What the audio formatter displays: the muted icon alone when muted;
/// otherwise an icon picked from the rounded percentage (0 silent, 1–49 low,
/// 50 and up high), a space, and the percentage itself.
pub open spec fn volume_text(muted: bool, pct: nat) -> Seq<char> {
    if muted {
        "\u{1f507}"@
    } else if pct == 0 {
        "\u{1f508} "@ + dec_of(pct)
    } else if pct < 50 {
        "\u{1f509} "@ + dec_of(pct)
    } else {
        "\u{1f50a} "@ + dec_of(pct)
    }
}

/// Renders the audio segment from the mixer state. `pct` is the linear
/// volume already rounded to a whole percentage.
pub fn volume_segment(muted: bool, pct: u32) -> (r: Segment)
    ensures
        r.text@ == volume_text(muted, pct as nat),
        r.fg is None,
        r.pad == 0,
{
    let text = if muted {
        String::from_str("\u{1f507}")
    } else {
        let mut s = if pct == 0 {
            String::from_str("\u{1f508} ")
        } else if pct < 50 {
            String::from_str("\u{1f509} ")
        } else {
            String::from_str("\u{1f50a} ")
        };
        s.append(u64_to_dec(pct as u64).as_str());
        s
    };
    Segment { text, fg: None, pad: 0 }
}

/// What the battery formatter displays. `power` is the result of the
/// AC-power read (an error message when it failed); `pct` the remaining
/// charge as a rounded percentage, absent when that read failed. A plug on
/// AC, a battery otherwise; the percentage only when it could be read; the
/// error message alone when the power read failed.
pub open spec fn battery_text(power: Result<bool, Seq<char>>, pct: Option<u32>) -> Seq<char> {
    match power {
        Ok(on_ac) => {
            let icon = if on_ac {
                "\u{1f50c}"@
            } else {
                "\u{1f50b}"@
            };
            match pct {
                Some(p) => icon + " "@ + dec_of(p as nat) + "%"@,
                None => icon,
            }
        },
        Err(msg) => msg,
    }
}

/// Renders the battery segment. Only the failure of the power-source read
/// gets the warning colour; a missing charge reading still shows the icon.
pub fn battery_segment(power: Result<bool, String>, pct: Option<u32>) -> (r: Segment)
    ensures
        r.text@ == battery_text(
            match power {
                Ok(b) => Ok(b),
                Err(m) => Err(m@),
            },
            pct,
        ),
        r.fg matches Some(c) <==> power is Err,
        power is Err ==> (r.fg matches Some(c) && c@ == warn_color()),
        r.pad == 1,
{
    match power {
        Ok(on_ac) => {
            let mut s = if on_ac {
                String::from_str("\u{1f50c}")
            } else {
                String::from_str("\u{1f50b}")
            };
            match pct {
                Some(p) => {
                    s.append(" ");
                    s.append(u64_to_dec(p as u64).as_str());
                    s.append("%");
                    Segment { text: s, fg: None, pad: 1 }
                },
                None => Segment { text: s, fg: None, pad: 1 },
            }
        },
        Err(msg) => Segment { text: msg, fg: Some(String::from_str("#bb1155")), pad: 1 },
    }
}

/// What the CPU-temperature formatter displays: the rounded reading with a
/// degree suffix, or a fixed placeholder when the sensor read failed.
pub open spec fn cpu_temp_text(temp: Option<int>) -> Seq<char> {
    match temp {
        Some(t) => idec_of(t) + "\u{b0}C"@,
        None => "cpu temp error"@,
    }
}

/// Renders the CPU-temperature segment. `temp` is the sensor reading rounded
/// to whole degrees Celsius, absent when the read failed.
pub fn cpu_temp_segment(temp: Option<i64>) -> (r: Segment)
    ensures
        r.text@ == cpu_temp_text(
            match temp {
                Some(t) => Some(t as int),
                None => None,
            },
        ),
        r.fg matches Some(c) <==> temp is None,
        temp is None ==> (r.fg matches Some(c) && c@ == warn_color()),
        r.pad == 1,
{
    match temp {
        Some(t) => {
            let mut s = i64_to_dec(t);
            s.append("\u{b0}C");
            Segment { text: s, fg: None, pad: 1 }
        },
        None => Segment {
            text: String::from_str("cpu temp error"),
            fg: Some(String::from_str("#bb1155")),
            pad: 1,
        },
    }
}


/// What the weather formatter displays for a reading: rounded air and
/// apparent temperatures, the rain trace as the station wrote it, relative
/// humidity and wind speed. The pressure triplet has no place in the line.
pub open spec fn obs_text(o: ObsV) -> Seq<char> {
    "\u{1f321}"@ + idec_of(o.air_temp as int) + "\u{b0}c ("@ + idec_of(o.apparent_t as int)
        + "\u{b0}c)  \u{1f327}\u{2009}\u{fe0f}"@ + o.rain_trace
        + "mm  \u{1f32b}\u{2009}\u{fe0f}"@ + dec_of(o.rel_hum as nat)
        + "%  \u{1f6e9}\u{2009}\u{fe0f}"@ + dec_of(o.wind_spd_kmh as nat) + "km/h"@
}

/// The placeholder line shown while there is no reading.
pub open spec fn no_obs_text() -> Seq<char> {
    "\u{1f321} --"@
}

/// Renders the weather line: the reading when there is one, the placeholder
/// when the poll failed.
pub fn format_observation(observation: &Option<Observation>) -> (r: String)
    ensures
        match observation {
            Some(o) => r@ == obs_text(o@),
            None => r@ == no_obs_text(),
        },
{
    match observation {
        Some(o) => {
            let mut s = String::from_str("\u{1f321}");
            s.append(i64_to_dec(o.air_temp).as_str());
            s.append("\u{b0}c (");
            s.append(i64_to_dec(o.apparent_t).as_str());
            s.append("\u{b0}c)  \u{1f327}\u{2009}\u{fe0f}");
            s.append(o.rain_trace.as_str());
            s.append("mm  \u{1f32b}\u{2009}\u{fe0f}");
            s.append(u64_to_dec(o.rel_hum as u64).as_str());
            s.append("%  \u{1f6e9}\u{2009}\u{fe0f}");
            s.append(u64_to_dec(o.wind_spd_kmh as u64).as_str());
            s.append("km/h");
            s
        },
        None => String::from_str("\u{1f321} --"),
    }
}

/// The weather segment: the formatted line, one space of padding, no
/// special colour.
pub fn weather_segment(observation: &Option<Observation>) -> (r: Segment)
    ensures
        r.text@ == match observation {
            Some(o) => obs_text(o@),
            None => no_obs_text(),
        },
        r.fg is None,
        r.pad == 1,
{
    Segment { text: format_observation(observation), fg: None, pad: 1 }
}

/// The displayed weather line reads nothing but the temperatures, the rain
/// trace, the humidity and the wind speed; in particular the pressure
/// triplet never shows.
pub proof fn lemma_display_ignores_pressure(a: ObsV, b: ObsV)
    requires
        a.air_temp == b.air_temp,
        a.apparent_t == b.apparent_t,
        a.rain_trace == b.rain_trace,
        a.rel_hum == b.rel_hum,
        a.wind_spd_kmh == b.wind_spd_kmh,
    ensures
        obs_text(a) == obs_text(b),
{
}

} // verus!

