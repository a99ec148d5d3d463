//! The garage-door feed: decodes the door monitor's payload.

use vstd::prelude::*;
use crate::json::{
    Jv, Json, DecodeError, jv_get, doc_of, parse_document, spec_get_text, spec_get_opt_u64,
    get_text, get_opt_u64,
};
use crate::weather::WeatherError;

verus! {

/// The garage-door feed. The HTTP round trip stands outside the library and
/// hands the payload text in.
pub struct Client {}

/// The door monitor's three answers.
#[derive(Clone, Copy, Debug, PartialEq, Eq, Structural)]
pub enum DoorState {
    Open,
    Closed,
    Unknown,
}

/// One door reading: the state, and two optional counters that the monitor
/// writes as `null` when it has nothing to say.
#[derive(Clone, Copy, Debug)]
pub struct Door {
    pub state: DoorState,
    pub secs_since_notified: Option<u64>,
    pub open_for: Option<u64>,
}

/// How each state is written in the payload.
pub open spec fn state_chars(st: DoorState) -> Seq<char> {
    match st {
        DoorState::Open => "Open"@,
        DoorState::Closed => "Closed"@,
        DoorState::Unknown => "Unknown"@,
    }
}

/// The state a payload word names, if any.
pub open spec fn state_of_chars(s: Seq<char>) -> Option<DoorState> {
    if s == "Open"@ {
        Some(DoorState::Open)
    } else if s == "Closed"@ {
        Some(DoorState::Closed)
    } else if s == "Unknown"@ {
        Some(DoorState::Unknown)
    } else {
        None
    }
}

fn state_from_text(s: &String) -> (r: Option<DoorState>)
    ensures
        r == state_of_chars(s@),
{
    if *s == String::from_str("Open") {
        Some(DoorState::Open)
    } else if *s == String::from_str("Closed") {
        Some(DoorState::Closed)
    } else if *s == String::from_str("Unknown") {
        Some(DoorState::Unknown)
    } else {
        None
    }
}

/// What a door document decodes to: the `state` word must name one of the
/// three states, the two counters may be numbers or `null`.
pub open spec fn spec_decode_door(j: Jv) -> Result<Door, DecodeError> {
    match j {
        Jv::Obj(m) => match spec_get_text(m, "state"@) {
            Err(e) => Err(e),
            Ok(w) => match state_of_chars(w) {
                None => Err(DecodeError::UnknownVariant),
                Some(state) => match spec_get_opt_u64(m, "secs_since_notified"@) {
                    Err(e) => Err(e),
                    Ok(secs_since_notified) => match spec_get_opt_u64(m, "open_for"@) {
                        Err(e) => Err(e),
                        Ok(open_for) => Ok(Door { state, secs_since_notified, open_for }),
                    },
                },
            },
        },
        _ => Err(DecodeError::WrongType),
    }
}

/// Decodes one door document.
pub fn decode_door(j: &Json) -> (r: Result<Door, DecodeError>)
    ensures
        r == spec_decode_door(j@),
{
    match j {
        Json::Obj(m) => {
            let w = match get_text(m, &String::from_str("state")) {
                Ok(w) => w,
                Err(e) => {
                    return Err(e);
                },
            };
            let state = match state_from_text(&w) {
                Some(st) => st,
                None => {
                    return Err(DecodeError::UnknownVariant);
                },
            };
            let secs_since_notified = match get_opt_u64(m, &String::from_str("secs_since_notified")) {
                Ok(v) => v,
                Err(e) => {
                    return Err(e);
                },
            };
            let open_for = match get_opt_u64(m, &String::from_str("open_for")) {
                Ok(v) => v,
                Err(e) => {
                    return Err(e);
                },
            };
            Ok(Door { state, secs_since_notified, open_for })
        },
        _ => Err(DecodeError::WrongType),
    }
}

/// What a door payload text decodes to.
pub open spec fn spec_door_of_text(s: Seq<char>) -> Result<Door, WeatherError> {
    match doc_of(s) {
        None => Err(WeatherError::JsonError(DecodeError::Syntax)),
        Some(j) => match spec_decode_door(j) {
            Ok(d) => Ok(d),
            Err(e) => Err(WeatherError::JsonError(e)),
        },
    }
}

/// Decodes a door payload text.
pub fn door_of_text(s: &str) -> (r: Result<Door, WeatherError>)
    ensures
        r == spec_door_of_text(s@),
{
    match parse_document(s) {
        None => Err(WeatherError::JsonError(DecodeError::Syntax)),
        Some(j) => match decode_door(&j) {
            Ok(d) => Ok(d),
            Err(e) => Err(WeatherError::JsonError(e)),
        },
    }
}

/// Turns the outcome of the HTTP round trip into a door reading: a failed
/// round trip is exactly the transport error, a body is decoded.
pub fn door_from_fetch(body: Option<String>) -> (r: Result<Door, WeatherError>)
    ensures
        match body {
            None => r == Err::<Door, WeatherError>(WeatherError::HttpError),
            Some(b) => r == spec_door_of_text(b@),
        },
{
    match body {
        None => Err(WeatherError::HttpError),
        Some(b) => door_of_text(b.as_str()),
    }
}

/// Decoding never reports the transport error: a payload that arrived can
/// only fail as a decode error, so the two kinds stay distinct.
pub proof fn lemma_decode_never_transport_error(s: Seq<char>)
    ensures
        spec_door_of_text(s) != Err::<Door, WeatherError>(WeatherError::HttpError),
{
}

/// The value a door reading is written as, counters as numbers or `null`.
pub open spec fn opt_u64_jv(v: Option<u64>) -> Jv {
    match v {
        None => Jv::Null,
        Some(x) => Jv::Num { val: x as int, exact: true },
    }
}

/// A door reading written out as a document.
pub open spec fn door_jv(d: Door) -> Jv {
    Jv::Obj(
        seq![
            ("state"@, Jv::Str(state_chars(d.state))),
            ("secs_since_notified"@, opt_u64_jv(d.secs_since_notified)),
            ("open_for"@, opt_u64_jv(d.open_for)),
        ],
    )
}

/// Every well-formed door document decodes, and the decode reproduces the
/// written state and counters.
pub proof fn lemma_door_decode_faithful(d: Door)
    ensures
        spec_decode_door(door_jv(d)) == Ok::<Door, DecodeError>(d),
{
    reveal_strlit("state");
    reveal_strlit("secs_since_notified");
    reveal_strlit("open_for");
    reveal_strlit("Open");
    reveal_strlit("Closed");
    reveal_strlit("Unknown");
    let m = door_jv(d)->Obj_0;
    let m1 = m.drop_first();
    let m2 = m1.drop_first();
    assert(m[0].0 == "state"@ && m[1].0 == "secs_since_notified"@ && m[2].0 == "open_for"@);
    assert(m1[0] == m[1] && m1[1] == m[2] && m1.len() == 2);
    assert(m2[0] == m[2] && m2.len() == 1);
    assert("state"@ != "secs_since_notified"@ && "state"@ != "open_for"@);
    assert("secs_since_notified"@ != "open_for"@);
    assert(jv_get(m, "state"@) == Some(Jv::Str(state_chars(d.state))));
    assert(jv_get(m1, "secs_since_notified"@) == Some(opt_u64_jv(d.secs_since_notified)));
    assert(jv_get(m, "secs_since_notified"@) == Some(opt_u64_jv(d.secs_since_notified)));
    assert(jv_get(m2, "open_for"@) == Some(opt_u64_jv(d.open_for)));
    assert(jv_get(m1, "open_for"@) == Some(opt_u64_jv(d.open_for)));
    assert(jv_get(m, "open_for"@) == Some(opt_u64_jv(d.open_for)));
    assert("Open"@.len() == 4 && "Closed"@.len() == 6 && "Unknown"@.len() == 7);
    assert("Open"@ != "Closed"@ && "Open"@ != "Unknown"@ && "Closed"@ != "Unknown"@);
    assert(state_of_chars(state_chars(d.state)) == Some(d.state));
}

impl Client {
    /// A fresh client; it holds no state.
    pub fn new() -> (c: Client) {
        Client {}
    }
}

} // verus!
