//! The weather feed: decodes the observation service's payload. The service
//! nests the station's readings under `observations.data`; only the first
//! row, the most recent reading, is consumed. Temperatures, coordinates and
//! pressures are held rounded to the nearest whole unit, the display model
//! of this library; `rain_trace` stays text, since the service writes
//! non-numeric sentinel values there.

use vstd::prelude::*;
use crate::json::{
    Jv, Json, DecodeError, jv_of, jv_get, jvs_of, obj_get, doc_of, parse_document,
    spec_get_u32, spec_get_round, spec_get_opt_round, spec_get_text, get_u32, get_round,
    get_opt_round, get_text,
};

verus! {

/// The weather feed. The HTTP round trip stands outside the library and
/// hands the payload text in.
pub struct Client {}

/// The two failure kinds of every feed: the HTTP round trip failed, or the
/// payload did not decode.
#[derive(Clone, Copy, Debug, PartialEq, Eq, Structural)]
pub enum WeatherError {
    HttpError,
    JsonError(DecodeError),
}

/// The closed seventeen-word compass vocabulary: sixteen points and calm.
#[derive(Clone, Copy, Debug, PartialEq, Eq, Structural)]
pub enum WindDirection {
    CALM,
    N,
    NE,
    E,
    SE,
    S,
    SW,
    W,
    NW,
    NNE,
    ENE,
    ESE,
    SSE,
    SSW,
    WSW,
    WNW,
    NNW,
}

/// The direction a payload word names, if any.
pub open spec fn wind_of_chars(s: Seq<char>) -> Option<WindDirection> {
    if s == "CALM"@ {
        Some(WindDirection::CALM)
    } else if s == "N"@ {
        Some(WindDirection::N)
    } else if s == "NE"@ {
        Some(WindDirection::NE)
    } else if s == "E"@ {
        Some(WindDirection::E)
    } else if s == "SE"@ {
        Some(WindDirection::SE)
    } else if s == "S"@ {
        Some(WindDirection::S)
    } else if s == "SW"@ {
        Some(WindDirection::SW)
    } else if s == "W"@ {
        Some(WindDirection::W)
    } else if s == "NW"@ {
        Some(WindDirection::NW)
    } else if s == "NNE"@ {
        Some(WindDirection::NNE)
    } else if s == "ENE"@ {
        Some(WindDirection::ENE)
    } else if s == "ESE"@ {
        Some(WindDirection::ESE)
    } else if s == "SSE"@ {
        Some(WindDirection::SSE)
    } else if s == "SSW"@ {
        Some(WindDirection::SSW)
    } else if s == "WSW"@ {
        Some(WindDirection::WSW)
    } else if s == "WNW"@ {
        Some(WindDirection::WNW)
    } else if s == "NNW"@ {
        Some(WindDirection::NNW)
    } else {
        None
    }
}

fn wind_from_text(s: &String) -> (r: Option<WindDirection>)
    ensures
        r == wind_of_chars(s@),
{
    if *s == String::from_str("CALM") {
        Some(WindDirection::CALM)
    } else if *s == String::from_str("N") {
        Some(WindDirection::N)
    } else if *s == String::from_str("NE") {
        Some(WindDirection::NE)
    } else if *s == String::from_str("E") {
        Some(WindDirection::E)
    } else if *s == String::from_str("SE") {
        Some(WindDirection::SE)
    } else if *s == String::from_str("S") {
        Some(WindDirection::S)
    } else if *s == String::from_str("SW") {
        Some(WindDirection::SW)
    } else if *s == String::from_str("W") {
        Some(WindDirection::W)
    } else if *s == String::from_str("NW") {
        Some(WindDirection::NW)
    } else if *s == String::from_str("NNE") {
        Some(WindDirection::NNE)
    } else if *s == String::from_str("ENE") {
        Some(WindDirection::ENE)
    } else if *s == String::from_str("ESE") {
        Some(WindDirection::ESE)
    } else if *s == String::from_str("SSE") {
        Some(WindDirection::SSE)
    } else if *s == String::from_str("SSW") {
        Some(WindDirection::SSW)
    } else if *s == String::from_str("WSW") {
        Some(WindDirection::WSW)
    } else if *s == String::from_str("WNW") {
        Some(WindDirection::WNW)
    } else if *s == String::from_str("NNW") {
        Some(WindDirection::NNW)
    } else {
        None
    }
}

/// One weather reading.
#[derive(Debug)]
pub struct Observation {
    pub sort_order: u32,
    pub name: String,
    pub history_product: String,
    pub local_date_time: String,
    pub local_date_time_full: String,
    pub aifstime_utc: String,
    pub lat: i64,
    pub lon: i64,
    pub apparent_t: i64,
    pub delta_t: i64,
    pub gust_kmh: u32,
    pub gust_kt: u32,
    pub air_temp: i64,
    pub dewpt: i64,
    pub press: Option<i64>,
    pub press_qnh: Option<i64>,
    pub press_msl: Option<i64>,
    pub press_tend: String,
    pub rain_trace: String,
    pub rel_hum: u32,
    pub wind_dir: WindDirection,
    pub wind_spd_kmh: u32,
    pub wind_spd_kt: u32,
}

/// The mathematical reading: an [`Observation`] with its texts as
/// character sequences.
pub struct ObsV {
    pub sort_order: u32,
    pub name: Seq<char>,
    pub history_product: Seq<char>,
    pub local_date_time: Seq<char>,
    pub local_date_time_full: Seq<char>,
    pub aifstime_utc: Seq<char>,
    pub lat: i64,
    pub lon: i64,
    pub apparent_t: i64,
    pub delta_t: i64,
    pub gust_kmh: u32,
    pub gust_kt: u32,
    pub air_temp: i64,
    pub dewpt: i64,
    pub press: Option<i64>,
    pub press_qnh: Option<i64>,
    pub press_msl: Option<i64>,
    pub press_tend: Seq<char>,
    pub rain_trace: Seq<char>,
    pub rel_hum: u32,
    pub wind_dir: WindDirection,
    pub wind_spd_kmh: u32,
    pub wind_spd_kt: u32,
}

impl View for Observation {
    type V = ObsV;

    open spec fn view(&self) -> ObsV {
        ObsV {
            sort_order: self.sort_order,
            name: self.name@,
            history_product: self.history_product@,
            local_date_time: self.local_date_time@,
            local_date_time_full: self.local_date_time_full@,
            aifstime_utc: self.aifstime_utc@,
            lat: self.lat,
            lon: self.lon,
            apparent_t: self.apparent_t,
            delta_t: self.delta_t,
            gust_kmh: self.gust_kmh,
            gust_kt: self.gust_kt,
            air_temp: self.air_temp,
            dewpt: self.dewpt,
            press: self.press,
            press_qnh: self.press_qnh,
            press_msl: self.press_msl,
            press_tend: self.press_tend@,
            rain_trace: self.rain_trace@,
            rel_hum: self.rel_hum,
            wind_dir: self.wind_dir,
            wind_spd_kmh: self.wind_spd_kmh,
            wind_spd_kt: self.wind_spd_kt,
        }
    }
}

/// What one observation row decodes to: required fields must be there with
/// the right kind, the pressure triplet may be absent or `null`, and the
/// wind direction must name a compass word.
pub open spec fn spec_decode_obs(j: Jv) -> Result<ObsV, DecodeError> {
    match j {
        Jv::Obj(m) => spec_decode_obs_fields(m),
        _ => Err(DecodeError::WrongType),
    }
}

/// The field-by-field reading of an observation row.
pub open spec fn spec_decode_obs_fields(m: Seq<(Seq<char>, Jv)>) -> Result<ObsV, DecodeError> {
    match spec_get_u32(m, "sort_order"@) {
        Err(e) => Err(e),
        Ok(sort_order) =>
            match spec_get_text(m, "name"@) {
                Err(e) => Err(e),
                Ok(name) =>
                    match spec_get_text(m, "history_product"@) {
                        Err(e) => Err(e),
                        Ok(history_product) =>
                            match spec_get_text(m, "local_date_time"@) {
                                Err(e) => Err(e),
                                Ok(local_date_time) =>
                                    match spec_get_text(m, "local_date_time_full"@) {
                                        Err(e) => Err(e),
                                        Ok(local_date_time_full) =>
                                            match spec_get_text(m, "aifstime_utc"@) {
                                                Err(e) => Err(e),
                                                Ok(aifstime_utc) =>
                                                    match spec_get_round(m, "lat"@) {
                                                        Err(e) => Err(e),
                                                        Ok(lat) =>
                                                            match spec_get_round(m, "lon"@) {
                                                                Err(e) => Err(e),
                                                                Ok(lon) =>
                                                                    match spec_get_round(m, "apparent_t"@) {
                                                                        Err(e) => Err(e),
                                                                        Ok(apparent_t) =>
                                                                            match spec_get_round(m, "delta_t"@) {
                                                                                Err(e) => Err(e),
                                                                                Ok(delta_t) =>
                                                                                    match spec_get_u32(m, "gust_kmh"@) {
                                                                                        Err(e) => Err(e),
                                                                                        Ok(gust_kmh) =>
                                                                                            match spec_get_u32(m, "gust_kt"@) {
                                                                                                Err(e) => Err(e),
                                                                                                Ok(gust_kt) =>
                                                                                                    match spec_get_round(m, "air_temp"@) {
                                                                                                        Err(e) => Err(e),
                                                                                                        Ok(air_temp) =>
                                                                                                            match spec_get_round(m, "dewpt"@) {
                                                                                                                Err(e) => Err(e),
                                                                                                                Ok(dewpt) =>
                                                                                                                    match spec_get_opt_round(m, "press"@) {
                                                                                                                        Err(e) => Err(e),
                                                                                                                        Ok(press) =>
                                                                                                                            match spec_get_opt_round(m, "press_qnh"@) {
                                                                                                                                Err(e) => Err(e),
                                                                                                                                Ok(press_qnh) =>
                                                                                                                                    match spec_get_opt_round(m, "press_msl"@) {
                                                                                                                                        Err(e) => Err(e),
                                                                                                                                        Ok(press_msl) =>
                                                                                                                                            match spec_get_text(m, "press_tend"@) {
                                                                                                                                                Err(e) => Err(e),
                                                                                                                                                Ok(press_tend) =>
                                                                                                                                                    match spec_get_text(m, "rain_trace"@) {
                                                                                                                                                        Err(e) => Err(e),
                                                                                                                                                        Ok(rain_trace) =>
                                                                                                                                                            match spec_get_u32(m, "rel_hum"@) {
                                                                                                                                                                Err(e) => Err(e),
                                                                                                                                                                Ok(rel_hum) =>
                                                                                                                                                                    match spec_get_text(m, "wind_dir"@) {
                                                                                                                                                                        Err(e) => Err(e),
                                                                                                                                                                        Ok(wind_word) => match wind_of_chars(wind_word) {
                                                                                                                                                                            None => Err(DecodeError::UnknownVariant),
                                                                                                                                                                            Some(wind_dir) =>
                                                                                                                                                                                match spec_get_u32(m, "wind_spd_kmh"@) {
                                                                                                                                                                                    Err(e) => Err(e),
                                                                                                                                                                                    Ok(wind_spd_kmh) =>
                                                                                                                                                                                        match spec_get_u32(m, "wind_spd_kt"@) {
                                                                                                                                                                                            Err(e) => Err(e),
                                                                                                                                                                                            Ok(wind_spd_kt) =>
                                                                                                                                                                                                Ok(ObsV { sort_order, name, history_product, local_date_time, local_date_time_full, aifstime_utc, lat, lon, apparent_t, delta_t, gust_kmh, gust_kt, air_temp, dewpt, press, press_qnh, press_msl, press_tend, rain_trace, rel_hum, wind_dir, wind_spd_kmh, wind_spd_kt })
                                                                                                                                                                                        }
                                                                                                                                                                                }
                                                                                                                                                                        },
                                                                                                                                                                    }
                                                                                                                                                            }
                                                                                                                                                    }
                                                                                                                                            }
                                                                                                                                    }
                                                                                                                            }
                                                                                                                    }
                                                                                                            }
                                                                                                    }
                                                                                            }
                                                                                    }
                                                                            }
                                                                    }
                                                            }
                                                    }
                                            }
                                    }
                            }
                    }
            }
    }
}

/// The decode outcome, reading-for-reading.
pub open spec fn obs_res(r: Result<Observation, DecodeError>) -> Result<ObsV, DecodeError> {
    match r {
        Ok(o) => Ok(o@),
        Err(e) => Err(e),
    }
}

/// Decodes one observation row.
#[verifier::rlimit(60)]
pub fn decode_observation(j: &Json) -> (r: Result<Observation, DecodeError>)
    ensures
        obs_res(r) == spec_decode_obs(j@),
{
    match j {
        Json::Obj(m) => {
            let sort_order = match get_u32(m, &String::from_str("sort_order")) {
                Ok(v) => v,
                Err(e) => {
                    return Err(e);
                },
            };
            let name = match get_text(m, &String::from_str("name")) {
                Ok(v) => v,
                Err(e) => {
                    return Err(e);
                },
            };
            let history_product = match get_text(m, &String::from_str("history_product")) {
                Ok(v) => v,
                Err(e) => {
                    return Err(e);
                },
            };
            let local_date_time = match get_text(m, &String::from_str("local_date_time")) {
                Ok(v) => v,
                Err(e) => {
                    return Err(e);
                },
            };
            let local_date_time_full = match get_text(m, &String::from_str("local_date_time_full")) {
                Ok(v) => v,
                Err(e) => {
                    return Err(e);
                },
            };
            let aifstime_utc = match get_text(m, &String::from_str("aifstime_utc")) {
                Ok(v) => v,
                Err(e) => {
                    return Err(e);
                },
            };
            let lat = match get_round(m, &String::from_str("lat")) {
                Ok(v) => v,
                Err(e) => {
                    return Err(e);
                },
            };
            let lon = match get_round(m, &String::from_str("lon")) {
                Ok(v) => v,
                Err(e) => {
                    return Err(e);
                },
            };
            let apparent_t = match get_round(m, &String::from_str("apparent_t")) {
                Ok(v) => v,
                Err(e) => {
                    return Err(e);
                },
            };
            let delta_t = match get_round(m, &String::from_str("delta_t")) {
                Ok(v) => v,
                Err(e) => {
                    return Err(e);
                },
            };
            let gust_kmh = match get_u32(m, &String::from_str("gust_kmh")) {
                Ok(v) => v,
                Err(e) => {
                    return Err(e);
                },
            };
            let gust_kt = match get_u32(m, &String::from_str("gust_kt")) {
                Ok(v) => v,
                Err(e) => {
                    return Err(e);
                },
            };
            let air_temp = match get_round(m, &String::from_str("air_temp")) {
                Ok(v) => v,
                Err(e) => {
                    return Err(e);
                },
            };
            let dewpt = match get_round(m, &String::from_str("dewpt")) {
                Ok(v) => v,
                Err(e) => {
                    return Err(e);
                },
            };
            let press = match get_opt_round(m, &String::from_str("press")) {
                Ok(v) => v,
                Err(e) => {
                    return Err(e);
                },
            };
            let press_qnh = match get_opt_round(m, &String::from_str("press_qnh")) {
                Ok(v) => v,
                Err(e) => {
                    return Err(e);
                },
            };
            let press_msl = match get_opt_round(m, &String::from_str("press_msl")) {
                Ok(v) => v,
                Err(e) => {
                    return Err(e);
                },
            };
            let press_tend = match get_text(m, &String::from_str("press_tend")) {
                Ok(v) => v,
                Err(e) => {
                    return Err(e);
                },
            };
            let rain_trace = match get_text(m, &String::from_str("rain_trace")) {
                Ok(v) => v,
                Err(e) => {
                    return Err(e);
                },
            };
            let rel_hum = match get_u32(m, &String::from_str("rel_hum")) {
                Ok(v) => v,
                Err(e) => {
                    return Err(e);
                },
            };
            let wind_word = match get_text(m, &String::from_str("wind_dir")) {
                Ok(v) => v,
                Err(e) => {
                    return Err(e);
                },
            };
            let wind_dir = match wind_from_text(&wind_word) {
                Some(w) => w,
                None => {
                    return Err(DecodeError::UnknownVariant);
                },
            };
            let wind_spd_kmh = match get_u32(m, &String::from_str("wind_spd_kmh")) {
                Ok(v) => v,
                Err(e) => {
                    return Err(e);
                },
            };
            let wind_spd_kt = match get_u32(m, &String::from_str("wind_spd_kt")) {
                Ok(v) => v,
                Err(e) => {
                    return Err(e);
                },
            };
            Ok(Observation { sort_order, name, history_product, local_date_time, local_date_time_full, aifstime_utc, lat, lon, apparent_t, delta_t, gust_kmh, gust_kt, air_temp, dewpt, press, press_qnh, press_msl, press_tend, rain_trace, rel_hum, wind_dir, wind_spd_kmh, wind_spd_kt })
        },
        _ => Err(DecodeError::WrongType),
    }
}


/// What a whole weather document decodes to: the station's rows sit under
/// `observations.data`; the first row is the current conditions, and a
/// missing first row is itself a decode error, never a default reading.
pub open spec fn spec_conditions_of_doc(j: Jv) -> Result<ObsV, WeatherError> {
    match j {
        Jv::Obj(m) => match jv_get(m, "observations"@) {
            None => Err(WeatherError::JsonError(DecodeError::MissingField)),
            Some(Jv::Obj(om)) => match jv_get(om, "data"@) {
                None => Err(WeatherError::JsonError(DecodeError::MissingField)),
                Some(Jv::Arr(rows)) => if rows.len() == 0 {
                    Err(WeatherError::JsonError(DecodeError::FirstRowMissing))
                } else {
                    match spec_decode_obs(rows[0]) {
                        Ok(o) => Ok(o),
                        Err(e) => Err(WeatherError::JsonError(e)),
                    }
                },
                Some(_) => Err(WeatherError::JsonError(DecodeError::WrongType)),
            },
            Some(_) => Err(WeatherError::JsonError(DecodeError::WrongType)),
        },
        _ => Err(WeatherError::JsonError(DecodeError::WrongType)),
    }
}

/// The outcome of a whole decode, reading-for-reading.
pub open spec fn cond_res(r: Result<Observation, WeatherError>) -> Result<ObsV, WeatherError> {
    match r {
        Ok(o) => Ok(o@),
        Err(e) => Err(e),
    }
}

/// Picks and decodes the current conditions out of a weather document.
pub fn conditions_of_doc(j: &Json) -> (r: Result<Observation, WeatherError>)
    ensures
        cond_res(r) == spec_conditions_of_doc(j@),
{
    match j {
        Json::Obj(m) => match obj_get(m, &String::from_str("observations")) {
            None => Err(WeatherError::JsonError(DecodeError::MissingField)),
            Some(Json::Obj(om)) => match obj_get(om, &String::from_str("data")) {
                None => Err(WeatherError::JsonError(DecodeError::MissingField)),
                Some(Json::Arr(rows)) => {
                    if rows.len() == 0 {
                        Err(WeatherError::JsonError(DecodeError::FirstRowMissing))
                    } else {
                        proof {
                            assert(jvs_of(*rows)[0] == jv_of(rows[0]));
                        }
                        match decode_observation(&rows[0]) {
                            Ok(o) => Ok(o),
                            Err(e) => Err(WeatherError::JsonError(e)),
                        }
                    }
                },
                Some(_) => Err(WeatherError::JsonError(DecodeError::WrongType)),
            },
            Some(_) => Err(WeatherError::JsonError(DecodeError::WrongType)),
        },
        _ => Err(WeatherError::JsonError(DecodeError::WrongType)),
    }
}

/// What a weather payload text decodes to.
pub open spec fn spec_conditions_of_text(s: Seq<char>) -> Result<ObsV, WeatherError> {
    match doc_of(s) {
        None => Err(WeatherError::JsonError(DecodeError::Syntax)),
        Some(j) => spec_conditions_of_doc(j),
    }
}

/// Decodes a weather payload text into the current conditions.
pub fn conditions_of_text(s: &str) -> (r: Result<Observation, WeatherError>)
    ensures
        cond_res(r) == spec_conditions_of_text(s@),
{
    match parse_document(s) {
        None => Err(WeatherError::JsonError(DecodeError::Syntax)),
        Some(j) => conditions_of_doc(&j),
    }
}

/// Turns the outcome of the HTTP round trip into the current conditions: a
/// failed round trip is exactly the transport error, a body is decoded.
pub fn conditions_from_fetch(body: Option<String>) -> (r: Result<Observation, WeatherError>)
    ensures
        match body {
            None => cond_res(r) == Err::<ObsV, WeatherError>(WeatherError::HttpError),
            Some(b) => cond_res(r) == spec_conditions_of_text(b@),
        },
{
    match body {
        None => Err(WeatherError::HttpError),
        Some(b) => conditions_of_text(b.as_str()),
    }
}

/// Decoding never reports the transport error: the two failure kinds stay
/// distinct.
pub proof fn lemma_conditions_never_transport_error(s: Seq<char>)
    ensures
        spec_conditions_of_text(s) != Err::<ObsV, WeatherError>(WeatherError::HttpError),
{
}

/// A document whose row list is empty fails with the first-row decode
/// error, never with a default reading and never with the transport error.
pub proof fn lemma_empty_rows_fail(j: Jv, m: Seq<(Seq<char>, Jv)>, om: Seq<(Seq<char>, Jv)>)
    requires
        j == Jv::Obj(m),
        jv_get(m, "observations"@) == Some(Jv::Obj(om)),
        jv_get(om, "data"@) == Some(Jv::Arr(Seq::<Jv>::empty())),
    ensures
        spec_conditions_of_doc(j) == Err::<ObsV, WeatherError>(
            WeatherError::JsonError(DecodeError::FirstRowMissing),
        ),
{
}

/// The pressure triplet may be written `null`: the reading then decodes
/// with those fields absent, and the rest of the row is untouched.
pub proof fn lemma_null_pressure_reads_absent(m: Seq<(Seq<char>, Jv)>, o: ObsV)
    requires
        spec_decode_obs_fields(m) == Ok::<ObsV, DecodeError>(o),
        jv_get(m, "press"@) == Some(Jv::Null),
    ensures
        o.press is None,
{
}

impl Client {
    /// A fresh client; it holds no state.
    pub fn new() -> (c: Client) {
        Client {}
    }
}

/// The value an omittable pressure reading is written as.
pub open spec fn opt_round_jv(v: Option<i64>) -> Jv {
    match v {
        None => Jv::Null,
        Some(x) => Jv::Num { val: x as int, exact: false },
    }
}

/// How each compass word is written in the payload.
pub open spec fn wind_chars(w: WindDirection) -> Seq<char> {
    match w {
        WindDirection::CALM => "CALM"@,
        WindDirection::N => "N"@,
        WindDirection::NE => "NE"@,
        WindDirection::E => "E"@,
        WindDirection::SE => "SE"@,
        WindDirection::S => "S"@,
        WindDirection::SW => "SW"@,
        WindDirection::W => "W"@,
        WindDirection::NW => "NW"@,
        WindDirection::NNE => "NNE"@,
        WindDirection::ENE => "ENE"@,
        WindDirection::ESE => "ESE"@,
        WindDirection::SSE => "SSE"@,
        WindDirection::SSW => "SSW"@,
        WindDirection::WSW => "WSW"@,
        WindDirection::WNW => "WNW"@,
        WindDirection::NNW => "NNW"@,
    }
}

/// Reading a compass word back yields the direction it was written from.
pub proof fn lemma_wind_faithful(w: WindDirection)
    ensures
        wind_of_chars(wind_chars(w)) == Some(w),
{
    reveal_strlit("CALM");
    reveal_strlit("N");
    reveal_strlit("NE");
    reveal_strlit("E");
    reveal_strlit("SE");
    reveal_strlit("S");
    reveal_strlit("SW");
    reveal_strlit("W");
    reveal_strlit("NW");
    reveal_strlit("NNE");
    reveal_strlit("ENE");
    reveal_strlit("ESE");
    reveal_strlit("SSE");
    reveal_strlit("SSW");
    reveal_strlit("WSW");
    reveal_strlit("WNW");
    reveal_strlit("NNW");
    assert("CALM"@.len() == 4 && "N"@.len() == 1 && "NE"@.len() == 2 && "E"@.len() == 1 && "SE"@.len() == 2 && "S"@.len() == 1 && "SW"@.len() == 2 && "W"@.len() == 1 && "NW"@.len() == 2 && "NNE"@.len() == 3 && "ENE"@.len() == 3 && "ESE"@.len() == 3 && "SSE"@.len() == 3 && "SSW"@.len() == 3 && "WSW"@.len() == 3 && "WNW"@.len() == 3 && "NNW"@.len() == 3);
    assert("CALM"@[0] == 'C' && "CALM"@[1] == 'A' && "CALM"@[2] == 'L' && "CALM"@[3] == 'M' && "N"@[0] == 'N' && "NE"@[0] == 'N' && "NE"@[1] == 'E' && "E"@[0] == 'E' && "SE"@[0] == 'S' && "SE"@[1] == 'E' && "S"@[0] == 'S' && "SW"@[0] == 'S' && "SW"@[1] == 'W' && "W"@[0] == 'W' && "NW"@[0] == 'N' && "NW"@[1] == 'W' && "NNE"@[0] == 'N' && "NNE"@[1] == 'N' && "NNE"@[2] == 'E' && "ENE"@[0] == 'E' && "ENE"@[1] == 'N' && "ENE"@[2] == 'E' && "ESE"@[0] == 'E' && "ESE"@[1] == 'S' && "ESE"@[2] == 'E' && "SSE"@[0] == 'S' && "SSE"@[1] == 'S' && "SSE"@[2] == 'E' && "SSW"@[0] == 'S' && "SSW"@[1] == 'S' && "SSW"@[2] == 'W' && "WSW"@[0] == 'W' && "WSW"@[1] == 'S' && "WSW"@[2] == 'W' && "WNW"@[0] == 'W' && "WNW"@[1] == 'N' && "WNW"@[2] == 'W' && "NNW"@[0] == 'N' && "NNW"@[1] == 'N' && "NNW"@[2] == 'W');
    assert(wind_of_chars("CALM"@) == Some(WindDirection::CALM));
    assert(wind_of_chars("N"@) == Some(WindDirection::N));
    assert(wind_of_chars("NE"@) == Some(WindDirection::NE));
    assert(wind_of_chars("E"@) == Some(WindDirection::E));
    assert(wind_of_chars("SE"@) == Some(WindDirection::SE));
    assert(wind_of_chars("S"@) == Some(WindDirection::S));
    assert(wind_of_chars("SW"@) == Some(WindDirection::SW));
    assert(wind_of_chars("W"@) == Some(WindDirection::W));
    assert(wind_of_chars("NW"@) == Some(WindDirection::NW));
    assert(wind_of_chars("NNE"@) == Some(WindDirection::NNE));
    assert(wind_of_chars("ENE"@) == Some(WindDirection::ENE));
    assert(wind_of_chars("ESE"@) == Some(WindDirection::ESE));
    assert(wind_of_chars("SSE"@) == Some(WindDirection::SSE));
    assert(wind_of_chars("SSW"@) == Some(WindDirection::SSW));
    assert(wind_of_chars("WSW"@) == Some(WindDirection::WSW));
    assert(wind_of_chars("WNW"@) == Some(WindDirection::WNW));
    assert(wind_of_chars("NNW"@) == Some(WindDirection::NNW));
}

/// A reading written out as one observation row.
pub open spec fn obs_jv(o: ObsV) -> Jv {
    Jv::Obj(
        seq![
            ("sort_order"@, Jv::Num { val: o.sort_order as int, exact: true }),
            ("name"@, Jv::Str(o.name)),
            ("history_product"@, Jv::Str(o.history_product)),
            ("local_date_time"@, Jv::Str(o.local_date_time)),
            ("local_date_time_full"@, Jv::Str(o.local_date_time_full)),
            ("aifstime_utc"@, Jv::Str(o.aifstime_utc)),
            ("lat"@, Jv::Num { val: o.lat as int, exact: false }),
            ("lon"@, Jv::Num { val: o.lon as int, exact: false }),
            ("apparent_t"@, Jv::Num { val: o.apparent_t as int, exact: false }),
            ("delta_t"@, Jv::Num { val: o.delta_t as int, exact: false }),
            ("gust_kmh"@, Jv::Num { val: o.gust_kmh as int, exact: true }),
            ("gust_kt"@, Jv::Num { val: o.gust_kt as int, exact: true }),
            ("air_temp"@, Jv::Num { val: o.air_temp as int, exact: false }),
            ("dewpt"@, Jv::Num { val: o.dewpt as int, exact: false }),
            ("press"@, opt_round_jv(o.press)),
            ("press_qnh"@, opt_round_jv(o.press_qnh)),
            ("press_msl"@, opt_round_jv(o.press_msl)),
            ("press_tend"@, Jv::Str(o.press_tend)),
            ("rain_trace"@, Jv::Str(o.rain_trace)),
            ("rel_hum"@, Jv::Num { val: o.rel_hum as int, exact: true }),
            ("wind_dir"@, Jv::Str(wind_chars(o.wind_dir))),
            ("wind_spd_kmh"@, Jv::Num { val: o.wind_spd_kmh as int, exact: true }),
            ("wind_spd_kt"@, Jv::Num { val: o.wind_spd_kt as int, exact: true }),
        ],
    )
}

proof fn lemma_key_chars()
    ensures
        "sort_order"@.len() == 10 && "name"@.len() == 4 && "history_product"@.len() == 15 && "local_date_time"@.len() == 15 && "local_date_time_full"@.len() == 20 && "aifstime_utc"@.len() == 12 && "lat"@.len() == 3 && "lon"@.len() == 3 && "apparent_t"@.len() == 10 && "delta_t"@.len() == 7 && "gust_kmh"@.len() == 8 && "gust_kt"@.len() == 7 && "air_temp"@.len() == 8 && "dewpt"@.len() == 5 && "press"@.len() == 5 && "press_qnh"@.len() == 9 && "press_msl"@.len() == 9 && "press_tend"@.len() == 10 && "rain_trace"@.len() == 10 && "rel_hum"@.len() == 7 && "wind_dir"@.len() == 8 && "wind_spd_kmh"@.len() == 12 && "wind_spd_kt"@.len() == 11,
        "sort_order"@[0] == 's' && "name"@[0] == 'n' && "history_product"@[0] == 'h' && "local_date_time"@[0] == 'l' && "local_date_time_full"@[0] == 'l' && "aifstime_utc"@[0] == 'a' && "lat"@[0] == 'l' && "lon"@[0] == 'l' && "apparent_t"@[0] == 'a' && "delta_t"@[0] == 'd' && "gust_kmh"@[0] == 'g' && "gust_kt"@[0] == 'g' && "air_temp"@[0] == 'a' && "dewpt"@[0] == 'd' && "press"@[0] == 'p' && "press_qnh"@[0] == 'p' && "press_msl"@[0] == 'p' && "press_tend"@[0] == 'p' && "rain_trace"@[0] == 'r' && "rel_hum"@[0] == 'r' && "wind_dir"@[0] == 'w' && "wind_spd_kmh"@[0] == 'w' && "wind_spd_kt"@[0] == 'w' && "lat"@[1] == 'a' && "lon"@[1] == 'o' && "press_qnh"@[6] == 'q' && "press_msl"@[6] == 'm',
{
    reveal_strlit("sort_order");
    reveal_strlit("name");
    reveal_strlit("history_product");
    reveal_strlit("local_date_time");
    reveal_strlit("local_date_time_full");
    reveal_strlit("aifstime_utc");
    reveal_strlit("lat");
    reveal_strlit("lon");
    reveal_strlit("apparent_t");
    reveal_strlit("delta_t");
    reveal_strlit("gust_kmh");
    reveal_strlit("gust_kt");
    reveal_strlit("air_temp");
    reveal_strlit("dewpt");
    reveal_strlit("press");
    reveal_strlit("press_qnh");
    reveal_strlit("press_msl");
    reveal_strlit("press_tend");
    reveal_strlit("rain_trace");
    reveal_strlit("rel_hum");
    reveal_strlit("wind_dir");
    reveal_strlit("wind_spd_kmh");
    reveal_strlit("wind_spd_kt");
}

proof fn lemma_obs_key_sort_order(o: ObsV)
    ensures
        jv_get(obs_jv(o)->Obj_0, "sort_order"@) == Some(Jv::Num { val: o.sort_order as int, exact: true }),
{
    lemma_key_chars();
    let m = obs_jv(o)->Obj_0;
    assert(jv_get(m, "sort_order"@) == Some(m[0].1));
}

proof fn lemma_obs_key_name(o: ObsV)
    ensures
        jv_get(obs_jv(o)->Obj_0, "name"@) == Some(Jv::Str(o.name)),
{
    lemma_key_chars();
    let m = obs_jv(o)->Obj_0;
    let m1 = m.drop_first();
    assert(m1[0] == m[1]);
    assert(jv_get(m1, "name"@) == Some(m[1].1));
    assert(m[0].0 != "name"@);
    assert(jv_get(m, "name"@) == jv_get(m1, "name"@));
}

proof fn lemma_obs_key_history_product(o: ObsV)
    ensures
        jv_get(obs_jv(o)->Obj_0, "history_product"@) == Some(Jv::Str(o.history_product)),
{
    lemma_key_chars();
    let m = obs_jv(o)->Obj_0;
    let m1 = m.drop_first();
    let m2 = m1.drop_first();
    assert(m1[0] == m[1]);
    assert(m2[0] == m[2]);
    assert(jv_get(m2, "history_product"@) == Some(m[2].1));
    assert(m[1].0 != "history_product"@);
    assert(jv_get(m1, "history_product"@) == jv_get(m2, "history_product"@));
    assert(m[0].0 != "history_product"@);
    assert(jv_get(m, "history_product"@) == jv_get(m1, "history_product"@));
}

proof fn lemma_obs_key_local_date_time(o: ObsV)
    ensures
        jv_get(obs_jv(o)->Obj_0, "local_date_time"@) == Some(Jv::Str(o.local_date_time)),
{
    lemma_key_chars();
    let m = obs_jv(o)->Obj_0;
    let m1 = m.drop_first();
    let m2 = m1.drop_first();
    let m3 = m2.drop_first();
    assert(m1[0] == m[1]);
    assert(m2[0] == m[2]);
    assert(m3[0] == m[3]);
    assert(jv_get(m3, "local_date_time"@) == Some(m[3].1));
    assert(m[2].0 != "local_date_time"@);
    assert(jv_get(m2, "local_date_time"@) == jv_get(m3, "local_date_time"@));
    assert(m[1].0 != "local_date_time"@);
    assert(jv_get(m1, "local_date_time"@) == jv_get(m2, "local_date_time"@));
    assert(m[0].0 != "local_date_time"@);
    assert(jv_get(m, "local_date_time"@) == jv_get(m1, "local_date_time"@));
}

proof fn lemma_obs_key_local_date_time_full(o: ObsV)
    ensures
        jv_get(obs_jv(o)->Obj_0, "local_date_time_full"@) == Some(Jv::Str(o.local_date_time_full)),
{
    lemma_key_chars();
    let m = obs_jv(o)->Obj_0;
    let m1 = m.drop_first();
    let m2 = m1.drop_first();
    let m3 = m2.drop_first();
    let m4 = m3.drop_first();
    assert(m1[0] == m[1]);
    assert(m2[0] == m[2]);
    assert(m3[0] == m[3]);
    assert(m4[0] == m[4]);
    assert(jv_get(m4, "local_date_time_full"@) == Some(m[4].1));
    assert(m[3].0 != "local_date_time_full"@);
    assert(jv_get(m3, "local_date_time_full"@) == jv_get(m4, "local_date_time_full"@));
    assert(m[2].0 != "local_date_time_full"@);
    assert(jv_get(m2, "local_date_time_full"@) == jv_get(m3, "local_date_time_full"@));
    assert(m[1].0 != "local_date_time_full"@);
    assert(jv_get(m1, "local_date_time_full"@) == jv_get(m2, "local_date_time_full"@));
    assert(m[0].0 != "local_date_time_full"@);
    assert(jv_get(m, "local_date_time_full"@) == jv_get(m1, "local_date_time_full"@));
}

proof fn lemma_obs_key_aifstime_utc(o: ObsV)
    ensures
        jv_get(obs_jv(o)->Obj_0, "aifstime_utc"@) == Some(Jv::Str(o.aifstime_utc)),
{
    lemma_key_chars();
    let m = obs_jv(o)->Obj_0;
    let m1 = m.drop_first();
    let m2 = m1.drop_first();
    let m3 = m2.drop_first();
    let m4 = m3.drop_first();
    let m5 = m4.drop_first();
    assert(m1[0] == m[1]);
    assert(m2[0] == m[2]);
    assert(m3[0] == m[3]);
    assert(m4[0] == m[4]);
    assert(m5[0] == m[5]);
    assert(jv_get(m5, "aifstime_utc"@) == Some(m[5].1));
    assert(m[4].0 != "aifstime_utc"@);
    assert(jv_get(m4, "aifstime_utc"@) == jv_get(m5, "aifstime_utc"@));
    assert(m[3].0 != "aifstime_utc"@);
    assert(jv_get(m3, "aifstime_utc"@) == jv_get(m4, "aifstime_utc"@));
    assert(m[2].0 != "aifstime_utc"@);
    assert(jv_get(m2, "aifstime_utc"@) == jv_get(m3, "aifstime_utc"@));
    assert(m[1].0 != "aifstime_utc"@);
    assert(jv_get(m1, "aifstime_utc"@) == jv_get(m2, "aifstime_utc"@));
    assert(m[0].0 != "aifstime_utc"@);
    assert(jv_get(m, "aifstime_utc"@) == jv_get(m1, "aifstime_utc"@));
}

proof fn lemma_obs_key_lat(o: ObsV)
    ensures
        jv_get(obs_jv(o)->Obj_0, "lat"@) == Some(Jv::Num { val: o.lat as int, exact: false }),
{
    lemma_key_chars();
    let m = obs_jv(o)->Obj_0;
    let m1 = m.drop_first();
    let m2 = m1.drop_first();
    let m3 = m2.drop_first();
    let m4 = m3.drop_first();
    let m5 = m4.drop_first();
    let m6 = m5.drop_first();
    assert(m1[0] == m[1]);
    assert(m2[0] == m[2]);
    assert(m3[0] == m[3]);
    assert(m4[0] == m[4]);
    assert(m5[0] == m[5]);
    assert(m6[0] == m[6]);
    assert(jv_get(m6, "lat"@) == Some(m[6].1));
    assert(m[5].0 != "lat"@);
    assert(jv_get(m5, "lat"@) == jv_get(m6, "lat"@));
    assert(m[4].0 != "lat"@);
    assert(jv_get(m4, "lat"@) == jv_get(m5, "lat"@));
    assert(m[3].0 != "lat"@);
    assert(jv_get(m3, "lat"@) == jv_get(m4, "lat"@));
    assert(m[2].0 != "lat"@);
    assert(jv_get(m2, "lat"@) == jv_get(m3, "lat"@));
    assert(m[1].0 != "lat"@);
    assert(jv_get(m1, "lat"@) == jv_get(m2, "lat"@));
    assert(m[0].0 != "lat"@);
    assert(jv_get(m, "lat"@) == jv_get(m1, "lat"@));
}

proof fn lemma_obs_key_lon(o: ObsV)
    ensures
        jv_get(obs_jv(o)->Obj_0, "lon"@) == Some(Jv::Num { val: o.lon as int, exact: false }),
{
    lemma_key_chars();
    let m = obs_jv(o)->Obj_0;
    let m1 = m.drop_first();
    let m2 = m1.drop_first();
    let m3 = m2.drop_first();
    let m4 = m3.drop_first();
    let m5 = m4.drop_first();
    let m6 = m5.drop_first();
    let m7 = m6.drop_first();
    assert(m1[0] == m[1]);
    assert(m2[0] == m[2]);
    assert(m3[0] == m[3]);
    assert(m4[0] == m[4]);
    assert(m5[0] == m[5]);
    assert(m6[0] == m[6]);
    assert(m7[0] == m[7]);
    assert(jv_get(m7, "lon"@) == Some(m[7].1));
    assert(m[6].0 != "lon"@);
    assert(jv_get(m6, "lon"@) == jv_get(m7, "lon"@));
    assert(m[5].0 != "lon"@);
    assert(jv_get(m5, "lon"@) == jv_get(m6, "lon"@));
    assert(m[4].0 != "lon"@);
    assert(jv_get(m4, "lon"@) == jv_get(m5, "lon"@));
    assert(m[3].0 != "lon"@);
    assert(jv_get(m3, "lon"@) == jv_get(m4, "lon"@));
    assert(m[2].0 != "lon"@);
    assert(jv_get(m2, "lon"@) == jv_get(m3, "lon"@));
    assert(m[1].0 != "lon"@);
    assert(jv_get(m1, "lon"@) == jv_get(m2, "lon"@));
    assert(m[0].0 != "lon"@);
    assert(jv_get(m, "lon"@) == jv_get(m1, "lon"@));
}

proof fn lemma_obs_key_apparent_t(o: ObsV)
    ensures
        jv_get(obs_jv(o)->Obj_0, "apparent_t"@) == Some(Jv::Num { val: o.apparent_t as int, exact: false }),
{
    lemma_key_chars();
    let m = obs_jv(o)->Obj_0;
    let m1 = m.drop_first();
    let m2 = m1.drop_first();
    let m3 = m2.drop_first();
    let m4 = m3.drop_first();
    let m5 = m4.drop_first();
    let m6 = m5.drop_first();
    let m7 = m6.drop_first();
    let m8 = m7.drop_first();
    assert(m1[0] == m[1]);
    assert(m2[0] == m[2]);
    assert(m3[0] == m[3]);
    assert(m4[0] == m[4]);
    assert(m5[0] == m[5]);
    assert(m6[0] == m[6]);
    assert(m7[0] == m[7]);
    assert(m8[0] == m[8]);
    assert(jv_get(m8, "apparent_t"@) == Some(m[8].1));
    assert(m[7].0 != "apparent_t"@);
    assert(jv_get(m7, "apparent_t"@) == jv_get(m8, "apparent_t"@));
    assert(m[6].0 != "apparent_t"@);
    assert(jv_get(m6, "apparent_t"@) == jv_get(m7, "apparent_t"@));
    assert(m[5].0 != "apparent_t"@);
    assert(jv_get(m5, "apparent_t"@) == jv_get(m6, "apparent_t"@));
    assert(m[4].0 != "apparent_t"@);
    assert(jv_get(m4, "apparent_t"@) == jv_get(m5, "apparent_t"@));
    assert(m[3].0 != "apparent_t"@);
    assert(jv_get(m3, "apparent_t"@) == jv_get(m4, "apparent_t"@));
    assert(m[2].0 != "apparent_t"@);
    assert(jv_get(m2, "apparent_t"@) == jv_get(m3, "apparent_t"@));
    assert(m[1].0 != "apparent_t"@);
    assert(jv_get(m1, "apparent_t"@) == jv_get(m2, "apparent_t"@));
    assert(m[0].0 != "apparent_t"@);
    assert(jv_get(m, "apparent_t"@) == jv_get(m1, "apparent_t"@));
}

proof fn lemma_obs_key_delta_t(o: ObsV)
    ensures
        jv_get(obs_jv(o)->Obj_0, "delta_t"@) == Some(Jv::Num { val: o.delta_t as int, exact: false }),
{
    lemma_key_chars();
    let m = obs_jv(o)->Obj_0;
    let m1 = m.drop_first();
    let m2 = m1.drop_first();
    let m3 = m2.drop_first();
    let m4 = m3.drop_first();
    let m5 = m4.drop_first();
    let m6 = m5.drop_first();
    let m7 = m6.drop_first();
    let m8 = m7.drop_first();
    let m9 = m8.drop_first();
    assert(m1[0] == m[1]);
    assert(m2[0] == m[2]);
    assert(m3[0] == m[3]);
    assert(m4[0] == m[4]);
    assert(m5[0] == m[5]);
    assert(m6[0] == m[6]);
    assert(m7[0] == m[7]);
    assert(m8[0] == m[8]);
    assert(m9[0] == m[9]);
    assert(jv_get(m9, "delta_t"@) == Some(m[9].1));
    assert(m[8].0 != "delta_t"@);
    assert(jv_get(m8, "delta_t"@) == jv_get(m9, "delta_t"@));
    assert(m[7].0 != "delta_t"@);
    assert(jv_get(m7, "delta_t"@) == jv_get(m8, "delta_t"@));
    assert(m[6].0 != "delta_t"@);
    assert(jv_get(m6, "delta_t"@) == jv_get(m7, "delta_t"@));
    assert(m[5].0 != "delta_t"@);
    assert(jv_get(m5, "delta_t"@) == jv_get(m6, "delta_t"@));
    assert(m[4].0 != "delta_t"@);
    assert(jv_get(m4, "delta_t"@) == jv_get(m5, "delta_t"@));
    assert(m[3].0 != "delta_t"@);
    assert(jv_get(m3, "delta_t"@) == jv_get(m4, "delta_t"@));
    assert(m[2].0 != "delta_t"@);
    assert(jv_get(m2, "delta_t"@) == jv_get(m3, "delta_t"@));
    assert(m[1].0 != "delta_t"@);
    assert(jv_get(m1, "delta_t"@) == jv_get(m2, "delta_t"@));
    assert(m[0].0 != "delta_t"@);
    assert(jv_get(m, "delta_t"@) == jv_get(m1, "delta_t"@));
}

proof fn lemma_obs_key_gust_kmh(o: ObsV)
    ensures
        jv_get(obs_jv(o)->Obj_0, "gust_kmh"@) == Some(Jv::Num { val: o.gust_kmh as int, exact: true }),
{
    lemma_key_chars();
    let m = obs_jv(o)->Obj_0;
    let m1 = m.drop_first();
    let m2 = m1.drop_first();
    let m3 = m2.drop_first();
    let m4 = m3.drop_first();
    let m5 = m4.drop_first();
    let m6 = m5.drop_first();
    let m7 = m6.drop_first();
    let m8 = m7.drop_first();
    let m9 = m8.drop_first();
    let m10 = m9.drop_first();
    assert(m1[0] == m[1]);
    assert(m2[0] == m[2]);
    assert(m3[0] == m[3]);
    assert(m4[0] == m[4]);
    assert(m5[0] == m[5]);
    assert(m6[0] == m[6]);
    assert(m7[0] == m[7]);
    assert(m8[0] == m[8]);
    assert(m9[0] == m[9]);
    assert(m10[0] == m[10]);
    assert(jv_get(m10, "gust_kmh"@) == Some(m[10].1));
    assert(m[9].0 != "gust_kmh"@);
    assert(jv_get(m9, "gust_kmh"@) == jv_get(m10, "gust_kmh"@));
    assert(m[8].0 != "gust_kmh"@);
    assert(jv_get(m8, "gust_kmh"@) == jv_get(m9, "gust_kmh"@));
    assert(m[7].0 != "gust_kmh"@);
    assert(jv_get(m7, "gust_kmh"@) == jv_get(m8, "gust_kmh"@));
    assert(m[6].0 != "gust_kmh"@);
    assert(jv_get(m6, "gust_kmh"@) == jv_get(m7, "gust_kmh"@));
    assert(m[5].0 != "gust_kmh"@);
    assert(jv_get(m5, "gust_kmh"@) == jv_get(m6, "gust_kmh"@));
    assert(m[4].0 != "gust_kmh"@);
    assert(jv_get(m4, "gust_kmh"@) == jv_get(m5, "gust_kmh"@));
    assert(m[3].0 != "gust_kmh"@);
    assert(jv_get(m3, "gust_kmh"@) == jv_get(m4, "gust_kmh"@));
    assert(m[2].0 != "gust_kmh"@);
    assert(jv_get(m2, "gust_kmh"@) == jv_get(m3, "gust_kmh"@));
    assert(m[1].0 != "gust_kmh"@);
    assert(jv_get(m1, "gust_kmh"@) == jv_get(m2, "gust_kmh"@));
    assert(m[0].0 != "gust_kmh"@);
    assert(jv_get(m, "gust_kmh"@) == jv_get(m1, "gust_kmh"@));
}

proof fn lemma_obs_key_gust_kt(o: ObsV)
    ensures
        jv_get(obs_jv(o)->Obj_0, "gust_kt"@) == Some(Jv::Num { val: o.gust_kt as int, exact: true }),
{
    lemma_key_chars();
    let m = obs_jv(o)->Obj_0;
    let m1 = m.drop_first();
    let m2 = m1.drop_first();
    let m3 = m2.drop_first();
    let m4 = m3.drop_first();
    let m5 = m4.drop_first();
    let m6 = m5.drop_first();
    let m7 = m6.drop_first();
    let m8 = m7.drop_first();
    let m9 = m8.drop_first();
    let m10 = m9.drop_first();
    let m11 = m10.drop_first();
    assert(m1[0] == m[1]);
    assert(m2[0] == m[2]);
    assert(m3[0] == m[3]);
    assert(m4[0] == m[4]);
    assert(m5[0] == m[5]);
    assert(m6[0] == m[6]);
    assert(m7[0] == m[7]);
    assert(m8[0] == m[8]);
    assert(m9[0] == m[9]);
    assert(m10[0] == m[10]);
    assert(m11[0] == m[11]);
    assert(jv_get(m11, "gust_kt"@) == Some(m[11].1));
    assert(m[10].0 != "gust_kt"@);
    assert(jv_get(m10, "gust_kt"@) == jv_get(m11, "gust_kt"@));
    assert(m[9].0 != "gust_kt"@);
    assert(jv_get(m9, "gust_kt"@) == jv_get(m10, "gust_kt"@));
    assert(m[8].0 != "gust_kt"@);
    assert(jv_get(m8, "gust_kt"@) == jv_get(m9, "gust_kt"@));
    assert(m[7].0 != "gust_kt"@);
    assert(jv_get(m7, "gust_kt"@) == jv_get(m8, "gust_kt"@));
    assert(m[6].0 != "gust_kt"@);
    assert(jv_get(m6, "gust_kt"@) == jv_get(m7, "gust_kt"@));
    assert(m[5].0 != "gust_kt"@);
    assert(jv_get(m5, "gust_kt"@) == jv_get(m6, "gust_kt"@));
    assert(m[4].0 != "gust_kt"@);
    assert(jv_get(m4, "gust_kt"@) == jv_get(m5, "gust_kt"@));
    assert(m[3].0 != "gust_kt"@);
    assert(jv_get(m3, "gust_kt"@) == jv_get(m4, "gust_kt"@));
    assert(m[2].0 != "gust_kt"@);
    assert(jv_get(m2, "gust_kt"@) == jv_get(m3, "gust_kt"@));
    assert(m[1].0 != "gust_kt"@);
    assert(jv_get(m1, "gust_kt"@) == jv_get(m2, "gust_kt"@));
    assert(m[0].0 != "gust_kt"@);
    assert(jv_get(m, "gust_kt"@) == jv_get(m1, "gust_kt"@));
}

proof fn lemma_obs_key_air_temp(o: ObsV)
    ensures
        jv_get(obs_jv(o)->Obj_0, "air_temp"@) == Some(Jv::Num { val: o.air_temp as int, exact: false }),
{
    lemma_key_chars();
    let m = obs_jv(o)->Obj_0;
    let m1 = m.drop_first();
    let m2 = m1.drop_first();
    let m3 = m2.drop_first();
    let m4 = m3.drop_first();
    let m5 = m4.drop_first();
    let m6 = m5.drop_first();
    let m7 = m6.drop_first();
    let m8 = m7.drop_first();
    let m9 = m8.drop_first();
    let m10 = m9.drop_first();
    let m11 = m10.drop_first();
    let m12 = m11.drop_first();
    assert(m1[0] == m[1]);
    assert(m2[0] == m[2]);
    assert(m3[0] == m[3]);
    assert(m4[0] == m[4]);
    assert(m5[0] == m[5]);
    assert(m6[0] == m[6]);
    assert(m7[0] == m[7]);
    assert(m8[0] == m[8]);
    assert(m9[0] == m[9]);
    assert(m10[0] == m[10]);
    assert(m11[0] == m[11]);
    assert(m12[0] == m[12]);
    assert(jv_get(m12, "air_temp"@) == Some(m[12].1));
    assert(m[11].0 != "air_temp"@);
    assert(jv_get(m11, "air_temp"@) == jv_get(m12, "air_temp"@));
    assert(m[10].0 != "air_temp"@);
    assert(jv_get(m10, "air_temp"@) == jv_get(m11, "air_temp"@));
    assert(m[9].0 != "air_temp"@);
    assert(jv_get(m9, "air_temp"@) == jv_get(m10, "air_temp"@));
    assert(m[8].0 != "air_temp"@);
    assert(jv_get(m8, "air_temp"@) == jv_get(m9, "air_temp"@));
    assert(m[7].0 != "air_temp"@);
    assert(jv_get(m7, "air_temp"@) == jv_get(m8, "air_temp"@));
    assert(m[6].0 != "air_temp"@);
    assert(jv_get(m6, "air_temp"@) == jv_get(m7, "air_temp"@));
    assert(m[5].0 != "air_temp"@);
    assert(jv_get(m5, "air_temp"@) == jv_get(m6, "air_temp"@));
    assert(m[4].0 != "air_temp"@);
    assert(jv_get(m4, "air_temp"@) == jv_get(m5, "air_temp"@));
    assert(m[3].0 != "air_temp"@);
    assert(jv_get(m3, "air_temp"@) == jv_get(m4, "air_temp"@));
    assert(m[2].0 != "air_temp"@);
    assert(jv_get(m2, "air_temp"@) == jv_get(m3, "air_temp"@));
    assert(m[1].0 != "air_temp"@);
    assert(jv_get(m1, "air_temp"@) == jv_get(m2, "air_temp"@));
    assert(m[0].0 != "air_temp"@);
    assert(jv_get(m, "air_temp"@) == jv_get(m1, "air_temp"@));
}

proof fn lemma_obs_key_dewpt(o: ObsV)
    ensures
        jv_get(obs_jv(o)->Obj_0, "dewpt"@) == Some(Jv::Num { val: o.dewpt as int, exact: false }),
{
    lemma_key_chars();
    let m = obs_jv(o)->Obj_0;
    let m1 = m.drop_first();
    let m2 = m1.drop_first();
    let m3 = m2.drop_first();
    let m4 = m3.drop_first();
    let m5 = m4.drop_first();
    let m6 = m5.drop_first();
    let m7 = m6.drop_first();
    let m8 = m7.drop_first();
    let m9 = m8.drop_first();
    let m10 = m9.drop_first();
    let m11 = m10.drop_first();
    let m12 = m11.drop_first();
    let m13 = m12.drop_first();
    assert(m1[0] == m[1]);
    assert(m2[0] == m[2]);
    assert(m3[0] == m[3]);
    assert(m4[0] == m[4]);
    assert(m5[0] == m[5]);
    assert(m6[0] == m[6]);
    assert(m7[0] == m[7]);
    assert(m8[0] == m[8]);
    assert(m9[0] == m[9]);
    assert(m10[0] == m[10]);
    assert(m11[0] == m[11]);
    assert(m12[0] == m[12]);
    assert(m13[0] == m[13]);
    assert(jv_get(m13, "dewpt"@) == Some(m[13].1));
    assert(m[12].0 != "dewpt"@);
    assert(jv_get(m12, "dewpt"@) == jv_get(m13, "dewpt"@));
    assert(m[11].0 != "dewpt"@);
    assert(jv_get(m11, "dewpt"@) == jv_get(m12, "dewpt"@));
    assert(m[10].0 != "dewpt"@);
    assert(jv_get(m10, "dewpt"@) == jv_get(m11, "dewpt"@));
    assert(m[9].0 != "dewpt"@);
    assert(jv_get(m9, "dewpt"@) == jv_get(m10, "dewpt"@));
    assert(m[8].0 != "dewpt"@);
    assert(jv_get(m8, "dewpt"@) == jv_get(m9, "dewpt"@));
    assert(m[7].0 != "dewpt"@);
    assert(jv_get(m7, "dewpt"@) == jv_get(m8, "dewpt"@));
    assert(m[6].0 != "dewpt"@);
    assert(jv_get(m6, "dewpt"@) == jv_get(m7, "dewpt"@));
    assert(m[5].0 != "dewpt"@);
    assert(jv_get(m5, "dewpt"@) == jv_get(m6, "dewpt"@));
    assert(m[4].0 != "dewpt"@);
    assert(jv_get(m4, "dewpt"@) == jv_get(m5, "dewpt"@));
    assert(m[3].0 != "dewpt"@);
    assert(jv_get(m3, "dewpt"@) == jv_get(m4, "dewpt"@));
    assert(m[2].0 != "dewpt"@);
    assert(jv_get(m2, "dewpt"@) == jv_get(m3, "dewpt"@));
    assert(m[1].0 != "dewpt"@);
    assert(jv_get(m1, "dewpt"@) == jv_get(m2, "dewpt"@));
    assert(m[0].0 != "dewpt"@);
    assert(jv_get(m, "dewpt"@) == jv_get(m1, "dewpt"@));
}

proof fn lemma_obs_key_press(o: ObsV)
    ensures
        jv_get(obs_jv(o)->Obj_0, "press"@) == Some(opt_round_jv(o.press)),
{
    lemma_key_chars();
    let m = obs_jv(o)->Obj_0;
    let m1 = m.drop_first();
    let m2 = m1.drop_first();
    let m3 = m2.drop_first();
    let m4 = m3.drop_first();
    let m5 = m4.drop_first();
    let m6 = m5.drop_first();
    let m7 = m6.drop_first();
    let m8 = m7.drop_first();
    let m9 = m8.drop_first();
    let m10 = m9.drop_first();
    let m11 = m10.drop_first();
    let m12 = m11.drop_first();
    let m13 = m12.drop_first();
    let m14 = m13.drop_first();
    assert(m1[0] == m[1]);
    assert(m2[0] == m[2]);
    assert(m3[0] == m[3]);
    assert(m4[0] == m[4]);
    assert(m5[0] == m[5]);
    assert(m6[0] == m[6]);
    assert(m7[0] == m[7]);
    assert(m8[0] == m[8]);
    assert(m9[0] == m[9]);
    assert(m10[0] == m[10]);
    assert(m11[0] == m[11]);
    assert(m12[0] == m[12]);
    assert(m13[0] == m[13]);
    assert(m14[0] == m[14]);
    assert(jv_get(m14, "press"@) == Some(m[14].1));
    assert(m[13].0 != "press"@);
    assert(jv_get(m13, "press"@) == jv_get(m14, "press"@));
    assert(m[12].0 != "press"@);
    assert(jv_get(m12, "press"@) == jv_get(m13, "press"@));
    assert(m[11].0 != "press"@);
    assert(jv_get(m11, "press"@) == jv_get(m12, "press"@));
    assert(m[10].0 != "press"@);
    assert(jv_get(m10, "press"@) == jv_get(m11, "press"@));
    assert(m[9].0 != "press"@);
    assert(jv_get(m9, "press"@) == jv_get(m10, "press"@));
    assert(m[8].0 != "press"@);
    assert(jv_get(m8, "press"@) == jv_get(m9, "press"@));
    assert(m[7].0 != "press"@);
    assert(jv_get(m7, "press"@) == jv_get(m8, "press"@));
    assert(m[6].0 != "press"@);
    assert(jv_get(m6, "press"@) == jv_get(m7, "press"@));
    assert(m[5].0 != "press"@);
    assert(jv_get(m5, "press"@) == jv_get(m6, "press"@));
    assert(m[4].0 != "press"@);
    assert(jv_get(m4, "press"@) == jv_get(m5, "press"@));
    assert(m[3].0 != "press"@);
    assert(jv_get(m3, "press"@) == jv_get(m4, "press"@));
    assert(m[2].0 != "press"@);
    assert(jv_get(m2, "press"@) == jv_get(m3, "press"@));
    assert(m[1].0 != "press"@);
    assert(jv_get(m1, "press"@) == jv_get(m2, "press"@));
    assert(m[0].0 != "press"@);
    assert(jv_get(m, "press"@) == jv_get(m1, "press"@));
}

proof fn lemma_obs_key_press_qnh(o: ObsV)
    ensures
        jv_get(obs_jv(o)->Obj_0, "press_qnh"@) == Some(opt_round_jv(o.press_qnh)),
{
    lemma_key_chars();
    let m = obs_jv(o)->Obj_0;
    let m1 = m.drop_first();
    let m2 = m1.drop_first();
    let m3 = m2.drop_first();
    let m4 = m3.drop_first();
    let m5 = m4.drop_first();
    let m6 = m5.drop_first();
    let m7 = m6.drop_first();
    let m8 = m7.drop_first();
    let m9 = m8.drop_first();
    let m10 = m9.drop_first();
    let m11 = m10.drop_first();
    let m12 = m11.drop_first();
    let m13 = m12.drop_first();
    let m14 = m13.drop_first();
    let m15 = m14.drop_first();
    assert(m1[0] == m[1]);
    assert(m2[0] == m[2]);
    assert(m3[0] == m[3]);
    assert(m4[0] == m[4]);
    assert(m5[0] == m[5]);
    assert(m6[0] == m[6]);
    assert(m7[0] == m[7]);
    assert(m8[0] == m[8]);
    assert(m9[0] == m[9]);
    assert(m10[0] == m[10]);
    assert(m11[0] == m[11]);
    assert(m12[0] == m[12]);
    assert(m13[0] == m[13]);
    assert(m14[0] == m[14]);
    assert(m15[0] == m[15]);
    assert(jv_get(m15, "press_qnh"@) == Some(m[15].1));
    assert(m[14].0 != "press_qnh"@);
    assert(jv_get(m14, "press_qnh"@) == jv_get(m15, "press_qnh"@));
    assert(m[13].0 != "press_qnh"@);
    assert(jv_get(m13, "press_qnh"@) == jv_get(m14, "press_qnh"@));
    assert(m[12].0 != "press_qnh"@);
    assert(jv_get(m12, "press_qnh"@) == jv_get(m13, "press_qnh"@));
    assert(m[11].0 != "press_qnh"@);
    assert(jv_get(m11, "press_qnh"@) == jv_get(m12, "press_qnh"@));
    assert(m[10].0 != "press_qnh"@);
    assert(jv_get(m10, "press_qnh"@) == jv_get(m11, "press_qnh"@));
    assert(m[9].0 != "press_qnh"@);
    assert(jv_get(m9, "press_qnh"@) == jv_get(m10, "press_qnh"@));
    assert(m[8].0 != "press_qnh"@);
    assert(jv_get(m8, "press_qnh"@) == jv_get(m9, "press_qnh"@));
    assert(m[7].0 != "press_qnh"@);
    assert(jv_get(m7, "press_qnh"@) == jv_get(m8, "press_qnh"@));
    assert(m[6].0 != "press_qnh"@);
    assert(jv_get(m6, "press_qnh"@) == jv_get(m7, "press_qnh"@));
    assert(m[5].0 != "press_qnh"@);
    assert(jv_get(m5, "press_qnh"@) == jv_get(m6, "press_qnh"@));
    assert(m[4].0 != "press_qnh"@);
    assert(jv_get(m4, "press_qnh"@) == jv_get(m5, "press_qnh"@));
    assert(m[3].0 != "press_qnh"@);
    assert(jv_get(m3, "press_qnh"@) == jv_get(m4, "press_qnh"@));
    assert(m[2].0 != "press_qnh"@);
    assert(jv_get(m2, "press_qnh"@) == jv_get(m3, "press_qnh"@));
    assert(m[1].0 != "press_qnh"@);
    assert(jv_get(m1, "press_qnh"@) == jv_get(m2, "press_qnh"@));
    assert(m[0].0 != "press_qnh"@);
    assert(jv_get(m, "press_qnh"@) == jv_get(m1, "press_qnh"@));
}

proof fn lemma_obs_key_press_msl(o: ObsV)
    ensures
        jv_get(obs_jv(o)->Obj_0, "press_msl"@) == Some(opt_round_jv(o.press_msl)),
{
    lemma_key_chars();
    let m = obs_jv(o)->Obj_0;
    let m1 = m.drop_first();
    let m2 = m1.drop_first();
    let m3 = m2.drop_first();
    let m4 = m3.drop_first();
    let m5 = m4.drop_first();
    let m6 = m5.drop_first();
    let m7 = m6.drop_first();
    let m8 = m7.drop_first();
    let m9 = m8.drop_first();
    let m10 = m9.drop_first();
    let m11 = m10.drop_first();
    let m12 = m11.drop_first();
    let m13 = m12.drop_first();
    let m14 = m13.drop_first();
    let m15 = m14.drop_first();
    let m16 = m15.drop_first();
    assert(m1[0] == m[1]);
    assert(m2[0] == m[2]);
    assert(m3[0] == m[3]);
    assert(m4[0] == m[4]);
    assert(m5[0] == m[5]);
    assert(m6[0] == m[6]);
    assert(m7[0] == m[7]);
    assert(m8[0] == m[8]);
    assert(m9[0] == m[9]);
    assert(m10[0] == m[10]);
    assert(m11[0] == m[11]);
    assert(m12[0] == m[12]);
    assert(m13[0] == m[13]);
    assert(m14[0] == m[14]);
    assert(m15[0] == m[15]);
    assert(m16[0] == m[16]);
    assert(jv_get(m16, "press_msl"@) == Some(m[16].1));
    assert(m[15].0 != "press_msl"@);
    assert(jv_get(m15, "press_msl"@) == jv_get(m16, "press_msl"@));
    assert(m[14].0 != "press_msl"@);
    assert(jv_get(m14, "press_msl"@) == jv_get(m15, "press_msl"@));
    assert(m[13].0 != "press_msl"@);
    assert(jv_get(m13, "press_msl"@) == jv_get(m14, "press_msl"@));
    assert(m[12].0 != "press_msl"@);
    assert(jv_get(m12, "press_msl"@) == jv_get(m13, "press_msl"@));
    assert(m[11].0 != "press_msl"@);
    assert(jv_get(m11, "press_msl"@) == jv_get(m12, "press_msl"@));
    assert(m[10].0 != "press_msl"@);
    assert(jv_get(m10, "press_msl"@) == jv_get(m11, "press_msl"@));
    assert(m[9].0 != "press_msl"@);
    assert(jv_get(m9, "press_msl"@) == jv_get(m10, "press_msl"@));
    assert(m[8].0 != "press_msl"@);
    assert(jv_get(m8, "press_msl"@) == jv_get(m9, "press_msl"@));
    assert(m[7].0 != "press_msl"@);
    assert(jv_get(m7, "press_msl"@) == jv_get(m8, "press_msl"@));
    assert(m[6].0 != "press_msl"@);
    assert(jv_get(m6, "press_msl"@) == jv_get(m7, "press_msl"@));
    assert(m[5].0 != "press_msl"@);
    assert(jv_get(m5, "press_msl"@) == jv_get(m6, "press_msl"@));
    assert(m[4].0 != "press_msl"@);
    assert(jv_get(m4, "press_msl"@) == jv_get(m5, "press_msl"@));
    assert(m[3].0 != "press_msl"@);
    assert(jv_get(m3, "press_msl"@) == jv_get(m4, "press_msl"@));
    assert(m[2].0 != "press_msl"@);
    assert(jv_get(m2, "press_msl"@) == jv_get(m3, "press_msl"@));
    assert(m[1].0 != "press_msl"@);
    assert(jv_get(m1, "press_msl"@) == jv_get(m2, "press_msl"@));
    assert(m[0].0 != "press_msl"@);
    assert(jv_get(m, "press_msl"@) == jv_get(m1, "press_msl"@));
}

proof fn lemma_obs_key_press_tend(o: ObsV)
    ensures
        jv_get(obs_jv(o)->Obj_0, "press_tend"@) == Some(Jv::Str(o.press_tend)),
{
    lemma_key_chars();
    let m = obs_jv(o)->Obj_0;
    let m1 = m.drop_first();
    let m2 = m1.drop_first();
    let m3 = m2.drop_first();
    let m4 = m3.drop_first();
    let m5 = m4.drop_first();
    let m6 = m5.drop_first();
    let m7 = m6.drop_first();
    let m8 = m7.drop_first();
    let m9 = m8.drop_first();
    let m10 = m9.drop_first();
    let m11 = m10.drop_first();
    let m12 = m11.drop_first();
    let m13 = m12.drop_first();
    let m14 = m13.drop_first();
    let m15 = m14.drop_first();
    let m16 = m15.drop_first();
    let m17 = m16.drop_first();
    assert(m1[0] == m[1]);
    assert(m2[0] == m[2]);
    assert(m3[0] == m[3]);
    assert(m4[0] == m[4]);
    assert(m5[0] == m[5]);
    assert(m6[0] == m[6]);
    assert(m7[0] == m[7]);
    assert(m8[0] == m[8]);
    assert(m9[0] == m[9]);
    assert(m10[0] == m[10]);
    assert(m11[0] == m[11]);
    assert(m12[0] == m[12]);
    assert(m13[0] == m[13]);
    assert(m14[0] == m[14]);
    assert(m15[0] == m[15]);
    assert(m16[0] == m[16]);
    assert(m17[0] == m[17]);
    assert(jv_get(m17, "press_tend"@) == Some(m[17].1));
    assert(m[16].0 != "press_tend"@);
    assert(jv_get(m16, "press_tend"@) == jv_get(m17, "press_tend"@));
    assert(m[15].0 != "press_tend"@);
    assert(jv_get(m15, "press_tend"@) == jv_get(m16, "press_tend"@));
    assert(m[14].0 != "press_tend"@);
    assert(jv_get(m14, "press_tend"@) == jv_get(m15, "press_tend"@));
    assert(m[13].0 != "press_tend"@);
    assert(jv_get(m13, "press_tend"@) == jv_get(m14, "press_tend"@));
    assert(m[12].0 != "press_tend"@);
    assert(jv_get(m12, "press_tend"@) == jv_get(m13, "press_tend"@));
    assert(m[11].0 != "press_tend"@);
    assert(jv_get(m11, "press_tend"@) == jv_get(m12, "press_tend"@));
    assert(m[10].0 != "press_tend"@);
    assert(jv_get(m10, "press_tend"@) == jv_get(m11, "press_tend"@));
    assert(m[9].0 != "press_tend"@);
    assert(jv_get(m9, "press_tend"@) == jv_get(m10, "press_tend"@));
    assert(m[8].0 != "press_tend"@);
    assert(jv_get(m8, "press_tend"@) == jv_get(m9, "press_tend"@));
    assert(m[7].0 != "press_tend"@);
    assert(jv_get(m7, "press_tend"@) == jv_get(m8, "press_tend"@));
    assert(m[6].0 != "press_tend"@);
    assert(jv_get(m6, "press_tend"@) == jv_get(m7, "press_tend"@));
    assert(m[5].0 != "press_tend"@);
    assert(jv_get(m5, "press_tend"@) == jv_get(m6, "press_tend"@));
    assert(m[4].0 != "press_tend"@);
    assert(jv_get(m4, "press_tend"@) == jv_get(m5, "press_tend"@));
    assert(m[3].0 != "press_tend"@);
    assert(jv_get(m3, "press_tend"@) == jv_get(m4, "press_tend"@));
    assert(m[2].0 != "press_tend"@);
    assert(jv_get(m2, "press_tend"@) == jv_get(m3, "press_tend"@));
    assert(m[1].0 != "press_tend"@);
    assert(jv_get(m1, "press_tend"@) == jv_get(m2, "press_tend"@));
    assert(m[0].0 != "press_tend"@);
    assert(jv_get(m, "press_tend"@) == jv_get(m1, "press_tend"@));
}

proof fn lemma_obs_key_rain_trace(o: ObsV)
    ensures
        jv_get(obs_jv(o)->Obj_0, "rain_trace"@) == Some(Jv::Str(o.rain_trace)),
{
    lemma_key_chars();
    let m = obs_jv(o)->Obj_0;
    let m1 = m.drop_first();
    let m2 = m1.drop_first();
    let m3 = m2.drop_first();
    let m4 = m3.drop_first();
    let m5 = m4.drop_first();
    let m6 = m5.drop_first();
    let m7 = m6.drop_first();
    let m8 = m7.drop_first();
    let m9 = m8.drop_first();
    let m10 = m9.drop_first();
    let m11 = m10.drop_first();
    let m12 = m11.drop_first();
    let m13 = m12.drop_first();
    let m14 = m13.drop_first();
    let m15 = m14.drop_first();
    let m16 = m15.drop_first();
    let m17 = m16.drop_first();
    let m18 = m17.drop_first();
    assert(m1[0] == m[1]);
    assert(m2[0] == m[2]);
    assert(m3[0] == m[3]);
    assert(m4[0] == m[4]);
    assert(m5[0] == m[5]);
    assert(m6[0] == m[6]);
    assert(m7[0] == m[7]);
    assert(m8[0] == m[8]);
    assert(m9[0] == m[9]);
    assert(m10[0] == m[10]);
    assert(m11[0] == m[11]);
    assert(m12[0] == m[12]);
    assert(m13[0] == m[13]);
    assert(m14[0] == m[14]);
    assert(m15[0] == m[15]);
    assert(m16[0] == m[16]);
    assert(m17[0] == m[17]);
    assert(m18[0] == m[18]);
    assert(jv_get(m18, "rain_trace"@) == Some(m[18].1));
    assert(m[17].0 != "rain_trace"@);
    assert(jv_get(m17, "rain_trace"@) == jv_get(m18, "rain_trace"@));
    assert(m[16].0 != "rain_trace"@);
    assert(jv_get(m16, "rain_trace"@) == jv_get(m17, "rain_trace"@));
    assert(m[15].0 != "rain_trace"@);
    assert(jv_get(m15, "rain_trace"@) == jv_get(m16, "rain_trace"@));
    assert(m[14].0 != "rain_trace"@);
    assert(jv_get(m14, "rain_trace"@) == jv_get(m15, "rain_trace"@));
    assert(m[13].0 != "rain_trace"@);
    assert(jv_get(m13, "rain_trace"@) == jv_get(m14, "rain_trace"@));
    assert(m[12].0 != "rain_trace"@);
    assert(jv_get(m12, "rain_trace"@) == jv_get(m13, "rain_trace"@));
    assert(m[11].0 != "rain_trace"@);
    assert(jv_get(m11, "rain_trace"@) == jv_get(m12, "rain_trace"@));
    assert(m[10].0 != "rain_trace"@);
    assert(jv_get(m10, "rain_trace"@) == jv_get(m11, "rain_trace"@));
    assert(m[9].0 != "rain_trace"@);
    assert(jv_get(m9, "rain_trace"@) == jv_get(m10, "rain_trace"@));
    assert(m[8].0 != "rain_trace"@);
    assert(jv_get(m8, "rain_trace"@) == jv_get(m9, "rain_trace"@));
    assert(m[7].0 != "rain_trace"@);
    assert(jv_get(m7, "rain_trace"@) == jv_get(m8, "rain_trace"@));
    assert(m[6].0 != "rain_trace"@);
    assert(jv_get(m6, "rain_trace"@) == jv_get(m7, "rain_trace"@));
    assert(m[5].0 != "rain_trace"@);
    assert(jv_get(m5, "rain_trace"@) == jv_get(m6, "rain_trace"@));
    assert(m[4].0 != "rain_trace"@);
    assert(jv_get(m4, "rain_trace"@) == jv_get(m5, "rain_trace"@));
    assert(m[3].0 != "rain_trace"@);
    assert(jv_get(m3, "rain_trace"@) == jv_get(m4, "rain_trace"@));
    assert(m[2].0 != "rain_trace"@);
    assert(jv_get(m2, "rain_trace"@) == jv_get(m3, "rain_trace"@));
    assert(m[1].0 != "rain_trace"@);
    assert(jv_get(m1, "rain_trace"@) == jv_get(m2, "rain_trace"@));
    assert(m[0].0 != "rain_trace"@);
    assert(jv_get(m, "rain_trace"@) == jv_get(m1, "rain_trace"@));
}

proof fn lemma_obs_key_rel_hum(o: ObsV)
    ensures
        jv_get(obs_jv(o)->Obj_0, "rel_hum"@) == Some(Jv::Num { val: o.rel_hum as int, exact: true }),
{
    lemma_key_chars();
    let m = obs_jv(o)->Obj_0;
    let m1 = m.drop_first();
    let m2 = m1.drop_first();
    let m3 = m2.drop_first();
    let m4 = m3.drop_first();
    let m5 = m4.drop_first();
    let m6 = m5.drop_first();
    let m7 = m6.drop_first();
    let m8 = m7.drop_first();
    let m9 = m8.drop_first();
    let m10 = m9.drop_first();
    let m11 = m10.drop_first();
    let m12 = m11.drop_first();
    let m13 = m12.drop_first();
    let m14 = m13.drop_first();
    let m15 = m14.drop_first();
    let m16 = m15.drop_first();
    let m17 = m16.drop_first();
    let m18 = m17.drop_first();
    let m19 = m18.drop_first();
    assert(m1[0] == m[1]);
    assert(m2[0] == m[2]);
    assert(m3[0] == m[3]);
    assert(m4[0] == m[4]);
    assert(m5[0] == m[5]);
    assert(m6[0] == m[6]);
    assert(m7[0] == m[7]);
    assert(m8[0] == m[8]);
    assert(m9[0] == m[9]);
    assert(m10[0] == m[10]);
    assert(m11[0] == m[11]);
    assert(m12[0] == m[12]);
    assert(m13[0] == m[13]);
    assert(m14[0] == m[14]);
    assert(m15[0] == m[15]);
    assert(m16[0] == m[16]);
    assert(m17[0] == m[17]);
    assert(m18[0] == m[18]);
    assert(m19[0] == m[19]);
    assert(jv_get(m19, "rel_hum"@) == Some(m[19].1));
    assert(m[18].0 != "rel_hum"@);
    assert(jv_get(m18, "rel_hum"@) == jv_get(m19, "rel_hum"@));
    assert(m[17].0 != "rel_hum"@);
    assert(jv_get(m17, "rel_hum"@) == jv_get(m18, "rel_hum"@));
    assert(m[16].0 != "rel_hum"@);
    assert(jv_get(m16, "rel_hum"@) == jv_get(m17, "rel_hum"@));
    assert(m[15].0 != "rel_hum"@);
    assert(jv_get(m15, "rel_hum"@) == jv_get(m16, "rel_hum"@));
    assert(m[14].0 != "rel_hum"@);
    assert(jv_get(m14, "rel_hum"@) == jv_get(m15, "rel_hum"@));
    assert(m[13].0 != "rel_hum"@);
    assert(jv_get(m13, "rel_hum"@) == jv_get(m14, "rel_hum"@));
    assert(m[12].0 != "rel_hum"@);
    assert(jv_get(m12, "rel_hum"@) == jv_get(m13, "rel_hum"@));
    assert(m[11].0 != "rel_hum"@);
    assert(jv_get(m11, "rel_hum"@) == jv_get(m12, "rel_hum"@));
    assert(m[10].0 != "rel_hum"@);
    assert(jv_get(m10, "rel_hum"@) == jv_get(m11, "rel_hum"@));
    assert(m[9].0 != "rel_hum"@);
    assert(jv_get(m9, "rel_hum"@) == jv_get(m10, "rel_hum"@));
    assert(m[8].0 != "rel_hum"@);
    assert(jv_get(m8, "rel_hum"@) == jv_get(m9, "rel_hum"@));
    assert(m[7].0 != "rel_hum"@);
    assert(jv_get(m7, "rel_hum"@) == jv_get(m8, "rel_hum"@));
    assert(m[6].0 != "rel_hum"@);
    assert(jv_get(m6, "rel_hum"@) == jv_get(m7, "rel_hum"@));
    assert(m[5].0 != "rel_hum"@);
    assert(jv_get(m5, "rel_hum"@) == jv_get(m6, "rel_hum"@));
    assert(m[4].0 != "rel_hum"@);
    assert(jv_get(m4, "rel_hum"@) == jv_get(m5, "rel_hum"@));
    assert(m[3].0 != "rel_hum"@);
    assert(jv_get(m3, "rel_hum"@) == jv_get(m4, "rel_hum"@));
    assert(m[2].0 != "rel_hum"@);
    assert(jv_get(m2, "rel_hum"@) == jv_get(m3, "rel_hum"@));
    assert(m[1].0 != "rel_hum"@);
    assert(jv_get(m1, "rel_hum"@) == jv_get(m2, "rel_hum"@));
    assert(m[0].0 != "rel_hum"@);
    assert(jv_get(m, "rel_hum"@) == jv_get(m1, "rel_hum"@));
}

proof fn lemma_obs_key_wind_dir(o: ObsV)
    ensures
        jv_get(obs_jv(o)->Obj_0, "wind_dir"@) == Some(Jv::Str(wind_chars(o.wind_dir))),
{
    lemma_key_chars();
    let m = obs_jv(o)->Obj_0;
    let m1 = m.drop_first();
    let m2 = m1.drop_first();
    let m3 = m2.drop_first();
    let m4 = m3.drop_first();
    let m5 = m4.drop_first();
    let m6 = m5.drop_first();
    let m7 = m6.drop_first();
    let m8 = m7.drop_first();
    let m9 = m8.drop_first();
    let m10 = m9.drop_first();
    let m11 = m10.drop_first();
    let m12 = m11.drop_first();
    let m13 = m12.drop_first();
    let m14 = m13.drop_first();
    let m15 = m14.drop_first();
    let m16 = m15.drop_first();
    let m17 = m16.drop_first();
    let m18 = m17.drop_first();
    let m19 = m18.drop_first();
    let m20 = m19.drop_first();
    assert(m1[0] == m[1]);
    assert(m2[0] == m[2]);
    assert(m3[0] == m[3]);
    assert(m4[0] == m[4]);
    assert(m5[0] == m[5]);
    assert(m6[0] == m[6]);
    assert(m7[0] == m[7]);
    assert(m8[0] == m[8]);
    assert(m9[0] == m[9]);
    assert(m10[0] == m[10]);
    assert(m11[0] == m[11]);
    assert(m12[0] == m[12]);
    assert(m13[0] == m[13]);
    assert(m14[0] == m[14]);
    assert(m15[0] == m[15]);
    assert(m16[0] == m[16]);
    assert(m17[0] == m[17]);
    assert(m18[0] == m[18]);
    assert(m19[0] == m[19]);
    assert(m20[0] == m[20]);
    assert(jv_get(m20, "wind_dir"@) == Some(m[20].1));
    assert(m[19].0 != "wind_dir"@);
    assert(jv_get(m19, "wind_dir"@) == jv_get(m20, "wind_dir"@));
    assert(m[18].0 != "wind_dir"@);
    assert(jv_get(m18, "wind_dir"@) == jv_get(m19, "wind_dir"@));
    assert(m[17].0 != "wind_dir"@);
    assert(jv_get(m17, "wind_dir"@) == jv_get(m18, "wind_dir"@));
    assert(m[16].0 != "wind_dir"@);
    assert(jv_get(m16, "wind_dir"@) == jv_get(m17, "wind_dir"@));
    assert(m[15].0 != "wind_dir"@);
    assert(jv_get(m15, "wind_dir"@) == jv_get(m16, "wind_dir"@));
    assert(m[14].0 != "wind_dir"@);
    assert(jv_get(m14, "wind_dir"@) == jv_get(m15, "wind_dir"@));
    assert(m[13].0 != "wind_dir"@);
    assert(jv_get(m13, "wind_dir"@) == jv_get(m14, "wind_dir"@));
    assert(m[12].0 != "wind_dir"@);
    assert(jv_get(m12, "wind_dir"@) == jv_get(m13, "wind_dir"@));
    assert(m[11].0 != "wind_dir"@);
    assert(jv_get(m11, "wind_dir"@) == jv_get(m12, "wind_dir"@));
    assert(m[10].0 != "wind_dir"@);
    assert(jv_get(m10, "wind_dir"@) == jv_get(m11, "wind_dir"@));
    assert(m[9].0 != "wind_dir"@);
    assert(jv_get(m9, "wind_dir"@) == jv_get(m10, "wind_dir"@));
    assert(m[8].0 != "wind_dir"@);
    assert(jv_get(m8, "wind_dir"@) == jv_get(m9, "wind_dir"@));
    assert(m[7].0 != "wind_dir"@);
    assert(jv_get(m7, "wind_dir"@) == jv_get(m8, "wind_dir"@));
    assert(m[6].0 != "wind_dir"@);
    assert(jv_get(m6, "wind_dir"@) == jv_get(m7, "wind_dir"@));
    assert(m[5].0 != "wind_dir"@);
    assert(jv_get(m5, "wind_dir"@) == jv_get(m6, "wind_dir"@));
    assert(m[4].0 != "wind_dir"@);
    assert(jv_get(m4, "wind_dir"@) == jv_get(m5, "wind_dir"@));
    assert(m[3].0 != "wind_dir"@);
    assert(jv_get(m3, "wind_dir"@) == jv_get(m4, "wind_dir"@));
    assert(m[2].0 != "wind_dir"@);
    assert(jv_get(m2, "wind_dir"@) == jv_get(m3, "wind_dir"@));
    assert(m[1].0 != "wind_dir"@);
    assert(jv_get(m1, "wind_dir"@) == jv_get(m2, "wind_dir"@));
    assert(m[0].0 != "wind_dir"@);
    assert(jv_get(m, "wind_dir"@) == jv_get(m1, "wind_dir"@));
}

proof fn lemma_obs_key_wind_spd_kmh(o: ObsV)
    ensures
        jv_get(obs_jv(o)->Obj_0, "wind_spd_kmh"@) == Some(Jv::Num { val: o.wind_spd_kmh as int, exact: true }),
{
    lemma_key_chars();
    let m = obs_jv(o)->Obj_0;
    let m1 = m.drop_first();
    let m2 = m1.drop_first();
    let m3 = m2.drop_first();
    let m4 = m3.drop_first();
    let m5 = m4.drop_first();
    let m6 = m5.drop_first();
    let m7 = m6.drop_first();
    let m8 = m7.drop_first();
    let m9 = m8.drop_first();
    let m10 = m9.drop_first();
    let m11 = m10.drop_first();
    let m12 = m11.drop_first();
    let m13 = m12.drop_first();
    let m14 = m13.drop_first();
    let m15 = m14.drop_first();
    let m16 = m15.drop_first();
    let m17 = m16.drop_first();
    let m18 = m17.drop_first();
    let m19 = m18.drop_first();
    let m20 = m19.drop_first();
    let m21 = m20.drop_first();
    assert(m1[0] == m[1]);
    assert(m2[0] == m[2]);
    assert(m3[0] == m[3]);
    assert(m4[0] == m[4]);
    assert(m5[0] == m[5]);
    assert(m6[0] == m[6]);
    assert(m7[0] == m[7]);
    assert(m8[0] == m[8]);
    assert(m9[0] == m[9]);
    assert(m10[0] == m[10]);
    assert(m11[0] == m[11]);
    assert(m12[0] == m[12]);
    assert(m13[0] == m[13]);
    assert(m14[0] == m[14]);
    assert(m15[0] == m[15]);
    assert(m16[0] == m[16]);
    assert(m17[0] == m[17]);
    assert(m18[0] == m[18]);
    assert(m19[0] == m[19]);
    assert(m20[0] == m[20]);
    assert(m21[0] == m[21]);
    assert(jv_get(m21, "wind_spd_kmh"@) == Some(m[21].1));
    assert(m[20].0 != "wind_spd_kmh"@);
    assert(jv_get(m20, "wind_spd_kmh"@) == jv_get(m21, "wind_spd_kmh"@));
    assert(m[19].0 != "wind_spd_kmh"@);
    assert(jv_get(m19, "wind_spd_kmh"@) == jv_get(m20, "wind_spd_kmh"@));
    assert(m[18].0 != "wind_spd_kmh"@);
    assert(jv_get(m18, "wind_spd_kmh"@) == jv_get(m19, "wind_spd_kmh"@));
    assert(m[17].0 != "wind_spd_kmh"@);
    assert(jv_get(m17, "wind_spd_kmh"@) == jv_get(m18, "wind_spd_kmh"@));
    assert(m[16].0 != "wind_spd_kmh"@);
    assert(jv_get(m16, "wind_spd_kmh"@) == jv_get(m17, "wind_spd_kmh"@));
    assert(m[15].0 != "wind_spd_kmh"@);
    assert(jv_get(m15, "wind_spd_kmh"@) == jv_get(m16, "wind_spd_kmh"@));
    assert(m[14].0 != "wind_spd_kmh"@);
    assert(jv_get(m14, "wind_spd_kmh"@) == jv_get(m15, "wind_spd_kmh"@));
    assert(m[13].0 != "wind_spd_kmh"@);
    assert(jv_get(m13, "wind_spd_kmh"@) == jv_get(m14, "wind_spd_kmh"@));
    assert(m[12].0 != "wind_spd_kmh"@);
    assert(jv_get(m12, "wind_spd_kmh"@) == jv_get(m13, "wind_spd_kmh"@));
    assert(m[11].0 != "wind_spd_kmh"@);
    assert(jv_get(m11, "wind_spd_kmh"@) == jv_get(m12, "wind_spd_kmh"@));
    assert(m[10].0 != "wind_spd_kmh"@);
    assert(jv_get(m10, "wind_spd_kmh"@) == jv_get(m11, "wind_spd_kmh"@));
    assert(m[9].0 != "wind_spd_kmh"@);
    assert(jv_get(m9, "wind_spd_kmh"@) == jv_get(m10, "wind_spd_kmh"@));
    assert(m[8].0 != "wind_spd_kmh"@);
    assert(jv_get(m8, "wind_spd_kmh"@) == jv_get(m9, "wind_spd_kmh"@));
    assert(m[7].0 != "wind_spd_kmh"@);
    assert(jv_get(m7, "wind_spd_kmh"@) == jv_get(m8, "wind_spd_kmh"@));
    assert(m[6].0 != "wind_spd_kmh"@);
    assert(jv_get(m6, "wind_spd_kmh"@) == jv_get(m7, "wind_spd_kmh"@));
    assert(m[5].0 != "wind_spd_kmh"@);
    assert(jv_get(m5, "wind_spd_kmh"@) == jv_get(m6, "wind_spd_kmh"@));
    assert(m[4].0 != "wind_spd_kmh"@);
    assert(jv_get(m4, "wind_spd_kmh"@) == jv_get(m5, "wind_spd_kmh"@));
    assert(m[3].0 != "wind_spd_kmh"@);
    assert(jv_get(m3, "wind_spd_kmh"@) == jv_get(m4, "wind_spd_kmh"@));
    assert(m[2].0 != "wind_spd_kmh"@);
    assert(jv_get(m2, "wind_spd_kmh"@) == jv_get(m3, "wind_spd_kmh"@));
    assert(m[1].0 != "wind_spd_kmh"@);
    assert(jv_get(m1, "wind_spd_kmh"@) == jv_get(m2, "wind_spd_kmh"@));
    assert(m[0].0 != "wind_spd_kmh"@);
    assert(jv_get(m, "wind_spd_kmh"@) == jv_get(m1, "wind_spd_kmh"@));
}

proof fn lemma_obs_key_wind_spd_kt(o: ObsV)
    ensures
        jv_get(obs_jv(o)->Obj_0, "wind_spd_kt"@) == Some(Jv::Num { val: o.wind_spd_kt as int, exact: true }),
{
    lemma_key_chars();
    let m = obs_jv(o)->Obj_0;
    let m1 = m.drop_first();
    let m2 = m1.drop_first();
    let m3 = m2.drop_first();
    let m4 = m3.drop_first();
    let m5 = m4.drop_first();
    let m6 = m5.drop_first();
    let m7 = m6.drop_first();
    let m8 = m7.drop_first();
    let m9 = m8.drop_first();
    let m10 = m9.drop_first();
    let m11 = m10.drop_first();
    let m12 = m11.drop_first();
    let m13 = m12.drop_first();
    let m14 = m13.drop_first();
    let m15 = m14.drop_first();
    let m16 = m15.drop_first();
    let m17 = m16.drop_first();
    let m18 = m17.drop_first();
    let m19 = m18.drop_first();
    let m20 = m19.drop_first();
    let m21 = m20.drop_first();
    let m22 = m21.drop_first();
    assert(m1[0] == m[1]);
    assert(m2[0] == m[2]);
    assert(m3[0] == m[3]);
    assert(m4[0] == m[4]);
    assert(m5[0] == m[5]);
    assert(m6[0] == m[6]);
    assert(m7[0] == m[7]);
    assert(m8[0] == m[8]);
    assert(m9[0] == m[9]);
    assert(m10[0] == m[10]);
    assert(m11[0] == m[11]);
    assert(m12[0] == m[12]);
    assert(m13[0] == m[13]);
    assert(m14[0] == m[14]);
    assert(m15[0] == m[15]);
    assert(m16[0] == m[16]);
    assert(m17[0] == m[17]);
    assert(m18[0] == m[18]);
    assert(m19[0] == m[19]);
    assert(m20[0] == m[20]);
    assert(m21[0] == m[21]);
    assert(m22[0] == m[22]);
    assert(jv_get(m22, "wind_spd_kt"@) == Some(m[22].1));
    assert(m[21].0 != "wind_spd_kt"@);
    assert(jv_get(m21, "wind_spd_kt"@) == jv_get(m22, "wind_spd_kt"@));
    assert(m[20].0 != "wind_spd_kt"@);
    assert(jv_get(m20, "wind_spd_kt"@) == jv_get(m21, "wind_spd_kt"@));
    assert(m[19].0 != "wind_spd_kt"@);
    assert(jv_get(m19, "wind_spd_kt"@) == jv_get(m20, "wind_spd_kt"@));
    assert(m[18].0 != "wind_spd_kt"@);
    assert(jv_get(m18, "wind_spd_kt"@) == jv_get(m19, "wind_spd_kt"@));
    assert(m[17].0 != "wind_spd_kt"@);
    assert(jv_get(m17, "wind_spd_kt"@) == jv_get(m18, "wind_spd_kt"@));
    assert(m[16].0 != "wind_spd_kt"@);
    assert(jv_get(m16, "wind_spd_kt"@) == jv_get(m17, "wind_spd_kt"@));
    assert(m[15].0 != "wind_spd_kt"@);
    assert(jv_get(m15, "wind_spd_kt"@) == jv_get(m16, "wind_spd_kt"@));
    assert(m[14].0 != "wind_spd_kt"@);
    assert(jv_get(m14, "wind_spd_kt"@) == jv_get(m15, "wind_spd_kt"@));
    assert(m[13].0 != "wind_spd_kt"@);
    assert(jv_get(m13, "wind_spd_kt"@) == jv_get(m14, "wind_spd_kt"@));
    assert(m[12].0 != "wind_spd_kt"@);
    assert(jv_get(m12, "wind_spd_kt"@) == jv_get(m13, "wind_spd_kt"@));
    assert(m[11].0 != "wind_spd_kt"@);
    assert(jv_get(m11, "wind_spd_kt"@) == jv_get(m12, "wind_spd_kt"@));
    assert(m[10].0 != "wind_spd_kt"@);
    assert(jv_get(m10, "wind_spd_kt"@) == jv_get(m11, "wind_spd_kt"@));
    assert(m[9].0 != "wind_spd_kt"@);
    assert(jv_get(m9, "wind_spd_kt"@) == jv_get(m10, "wind_spd_kt"@));
    assert(m[8].0 != "wind_spd_kt"@);
    assert(jv_get(m8, "wind_spd_kt"@) == jv_get(m9, "wind_spd_kt"@));
    assert(m[7].0 != "wind_spd_kt"@);
    assert(jv_get(m7, "wind_spd_kt"@) == jv_get(m8, "wind_spd_kt"@));
    assert(m[6].0 != "wind_spd_kt"@);
    assert(jv_get(m6, "wind_spd_kt"@) == jv_get(m7, "wind_spd_kt"@));
    assert(m[5].0 != "wind_spd_kt"@);
    assert(jv_get(m5, "wind_spd_kt"@) == jv_get(m6, "wind_spd_kt"@));
    assert(m[4].0 != "wind_spd_kt"@);
    assert(jv_get(m4, "wind_spd_kt"@) == jv_get(m5, "wind_spd_kt"@));
    assert(m[3].0 != "wind_spd_kt"@);
    assert(jv_get(m3, "wind_spd_kt"@) == jv_get(m4, "wind_spd_kt"@));
    assert(m[2].0 != "wind_spd_kt"@);
    assert(jv_get(m2, "wind_spd_kt"@) == jv_get(m3, "wind_spd_kt"@));
    assert(m[1].0 != "wind_spd_kt"@);
    assert(jv_get(m1, "wind_spd_kt"@) == jv_get(m2, "wind_spd_kt"@));
    assert(m[0].0 != "wind_spd_kt"@);
    assert(jv_get(m, "wind_spd_kt"@) == jv_get(m1, "wind_spd_kt"@));
}

/// Every well-formed observation row decodes, and the decode reproduces
/// each written field: the full round trip over one reading.
#[verifier::rlimit(100)]
pub proof fn lemma_observation_decode_faithful(o: ObsV)
    ensures
        spec_decode_obs(obs_jv(o)) == Ok::<ObsV, DecodeError>(o),
{
    lemma_obs_key_sort_order(o);
    lemma_obs_key_name(o);
    lemma_obs_key_history_product(o);
    lemma_obs_key_local_date_time(o);
    lemma_obs_key_local_date_time_full(o);
    lemma_obs_key_aifstime_utc(o);
    lemma_obs_key_lat(o);
    lemma_obs_key_lon(o);
    lemma_obs_key_apparent_t(o);
    lemma_obs_key_delta_t(o);
    lemma_obs_key_gust_kmh(o);
    lemma_obs_key_gust_kt(o);
    lemma_obs_key_air_temp(o);
    lemma_obs_key_dewpt(o);
    lemma_obs_key_press(o);
    lemma_obs_key_press_qnh(o);
    lemma_obs_key_press_msl(o);
    lemma_obs_key_press_tend(o);
    lemma_obs_key_rain_trace(o);
    lemma_obs_key_rel_hum(o);
    lemma_obs_key_wind_dir(o);
    lemma_obs_key_wind_spd_kmh(o);
    lemma_obs_key_wind_spd_kt(o);
    lemma_wind_faithful(o.wind_dir);
}

} // verus!


