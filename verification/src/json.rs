//! The JSON shape that the feed decoders work on.
//!
//! The payloads arrive as text; `serde_json` checks the syntax and reprints
//! the document in its compact form, and the verified reader in this module
//! turns that reprint into a [`Json`] tree. Numbers are held as integers
//! rounded to the nearest whole value (the display model of this library),
//! together with a flag that records whether the written number was itself a
//! plain integer.

use vstd::prelude::*;
use vstd::string::*;

verus! {

broadcast use vstd::std_specs::vec::axiom_vec_index_decreases;

/// The mathematical JSON value: what a [`Json`] tree stands for.
pub enum Jv {
    Null,
    Bool(bool),
    /// `val` is the written number rounded to the nearest integer (halves
    /// away from zero); `exact` says the written number had no fraction.
    Num { val: int, exact: bool },
    Str(Seq<char>),
    Arr(Seq<Jv>),
    Obj(Seq<(Seq<char>, Jv)>),
}

/// One decoded JSON document. Object members keep the order in which they
/// were written.
pub enum Json {
    Null,
    Bool(bool),
    Num { val: i64, exact: bool },
    Str(String),
    Arr(Vec<Json>),
    Obj(Vec<(String, Json)>),
}

/// The value a tree stands for.
pub open spec fn jv_of(j: Json) -> Jv
    decreases j,
{
    match j {
        Json::Null => Jv::Null,
        Json::Bool(b) => Jv::Bool(b),
        Json::Num { val, exact } => Jv::Num { val: val as int, exact },
        Json::Str(s) => Jv::Str(s@),
        Json::Arr(v) => Jv::Arr(jvs_of(v)),
        Json::Obj(m) => Jv::Obj(jvm_of(m)),
    }
}

impl View for Json {
    type V = Jv;

    open spec fn view(&self) -> Jv {
        jv_of(*self)
    }
}

/// The values an array holds.
pub open spec fn jvs_of(v: Vec<Json>) -> Seq<Jv>
    decreases v,
{
    Seq::new(
        v@.len(),
        |k: int|
            if 0 <= k < v@.len() {
                jv_of(v[k])
            } else {
                Jv::Null
            },
    )
}

/// The members an object holds.
pub open spec fn jvm_of(m: Vec<(String, Json)>) -> Seq<(Seq<char>, Jv)>
    decreases m,
{
    Seq::new(
        m@.len(),
        |k: int|
            if 0 <= k < m@.len() {
                (m[k].0@, jv_of(m[k].1))
            } else {
                (Seq::empty(), Jv::Null)
            },
    )
}

/// Whether `c` is a decimal digit.
pub open spec fn is_digit(c: char) -> bool {
    48 <= c as u32 <= 57
}

/// The numeric value of a digit (zero for anything else).
pub open spec fn digit_val(c: char) -> nat {
    if is_digit(c) {
        (c as u32 - 48) as nat
    } else {
        0
    }
}

/// The first position at or after `i` that does not hold a digit.
pub open spec fn digits_end(t: Seq<char>, i: int) -> int
    decreases t.len() - i,
{
    if 0 <= i < t.len() && is_digit(t[i]) {
        digits_end(t, i + 1)
    } else {
        i
    }
}

/// The value of the digit run `t[i..end)`, most significant digit first.
pub open spec fn digits_val(t: Seq<char>, i: int, end: int) -> nat
    decreases end - i,
{
    if i < end {
        (digits_val(t, i, end - 1) * 10 + digit_val(t[end - 1])) as nat
    } else {
        0
    }
}

pub open spec fn pow10(k: nat) -> nat
    decreases k,
{
    if k == 0 {
        1
    } else {
        10 * pow10((k - 1) as nat)
    }
}

proof fn lemma_digits_end_bounds(t: Seq<char>, i: int)
    requires
        0 <= i <= t.len(),
    ensures
        i <= digits_end(t, i) <= t.len(),
    decreases t.len() - i,
{
    if i < t.len() && is_digit(t[i]) {
        lemma_digits_end_bounds(t, i + 1);
    }
}

proof fn lemma_digits_val_bound(t: Seq<char>, i: int, end: int)
    requires
        i <= end,
    ensures
        digits_val(t, i, end) < pow10((end - i) as nat),
    decreases end - i,
{
    if i < end {
        lemma_digits_val_bound(t, i, end - 1);
    }
}

proof fn lemma_pow10_mono(a: nat, b: nat)
    requires
        a <= b,
    ensures
        pow10(a) <= pow10(b),
    decreases b,
{
    if a < b {
        lemma_pow10_mono(a, (b - 1) as nat);
    }
}

/// A number, as written from position `i`: an optional minus sign, an
/// integer part of at most 18 digits, and an optional fraction whose first
/// digit rounds the value (halves away from zero). The parsed value and the
/// position after the number.
pub open spec fn sp_number(t: Seq<char>, i: int) -> Option<(Jv, int)> {
    let neg = 0 <= i < t.len() && t[i] == '-';
    let d0 = if neg {
        i + 1
    } else {
        i
    };
    let e1 = digits_end(t, d0);
    if e1 == d0 || e1 - d0 > 18 {
        None
    } else {
        let ip = digits_val(t, d0, e1);
        if e1 < t.len() && t[e1] == '.' {
            let e2 = digits_end(t, e1 + 1);
            if e2 == e1 + 1 {
                None
            } else {
                let mag = ip + if digit_val(t[e1 + 1]) >= 5 {
                    1int
                } else {
                    0int
                };
                Some((Jv::Num { val: if neg {
                    -mag
                } else {
                    mag
                }, exact: false }, e2))
            }
        } else {
            Some((Jv::Num { val: if neg {
                -(ip as int)
            } else {
                ip as int
            }, exact: true }, e1))
        }
    }
}

/// Where a string that opened just before `i` closes: the position of the
/// terminating quote. Strings with escapes are not accepted.
pub open spec fn str_end(t: Seq<char>, i: int) -> Option<int>
    decreases t.len() - i,
{
    if i < 0 || i >= t.len() {
        None
    } else if t[i] == '"' {
        Some(i)
    } else if t[i] == '\\' {
        None
    } else {
        str_end(t, i + 1)
    }
}

/// One JSON value written at position `i` of the compact form: no blanks
/// between tokens. Yields the value and the position after it. `fuel` bounds
/// the recursion; the reader hands in more than the text's length, which no
/// parse can use up.
pub open spec fn sp_value(t: Seq<char>, i: int, fuel: nat) -> Option<(Jv, int)>
    decreases fuel,
{
    if fuel == 0 || !(0 <= i < t.len()) {
        None
    } else {
        let c = t[i];
        if c == 'n' {
            if i + 4 <= t.len() && t.subrange(i, i + 4) == "null"@ {
                Some((Jv::Null, i + 4))
            } else {
                None
            }
        } else if c == 't' {
            if i + 4 <= t.len() && t.subrange(i, i + 4) == "true"@ {
                Some((Jv::Bool(true), i + 4))
            } else {
                None
            }
        } else if c == 'f' {
            if i + 5 <= t.len() && t.subrange(i, i + 5) == "false"@ {
                Some((Jv::Bool(false), i + 5))
            } else {
                None
            }
        } else if c == '"' {
            match str_end(t, i + 1) {
                Some(e) => Some((Jv::Str(t.subrange(i + 1, e)), e + 1)),
                None => None,
            }
        } else if c == '[' {
            if i + 2 <= t.len() && t[i + 1] == ']' {
                Some((Jv::Arr(Seq::empty()), i + 2))
            } else {
                match sp_elems(t, i + 1, (fuel - 1) as nat) {
                    Some((elems, e)) => Some((Jv::Arr(elems), e)),
                    None => None,
                }
            }
        } else if c == '{' {
            if i + 2 <= t.len() && t[i + 1] == '}' {
                Some((Jv::Obj(Seq::empty()), i + 2))
            } else {
                match sp_members(t, i + 1, (fuel - 1) as nat) {
                    Some((ms, e)) => Some((Jv::Obj(ms), e)),
                    None => None,
                }
            }
        } else if c == '-' || is_digit(c) {
            sp_number(t, i)
        } else {
            None
        }
    }
}

/// The elements of a non-empty array, from the position after `[` or `,`,
/// up to and including the closing `]`.
pub open spec fn sp_elems(t: Seq<char>, i: int, fuel: nat) -> Option<(Seq<Jv>, int)>
    decreases fuel,
{
    if fuel == 0 {
        None
    } else {
        match sp_value(t, i, (fuel - 1) as nat) {
            None => None,
            Some((j, e)) => {
                if e < t.len() && t[e] == ',' {
                    match sp_elems(t, e + 1, (fuel - 1) as nat) {
                        Some((rest, e2)) => Some((seq![j] + rest, e2)),
                        None => None,
                    }
                } else if e < t.len() && t[e] == ']' {
                    Some((seq![j], e + 1))
                } else {
                    None
                }
            },
        }
    }
}

/// The members of a non-empty object, from the position after `{` or `,`,
/// up to and including the closing `}`.
pub open spec fn sp_members(t: Seq<char>, i: int, fuel: nat) -> Option<
    (Seq<(Seq<char>, Jv)>, int),
>
    decreases fuel,
{
    if fuel == 0 {
        None
    } else if !(0 <= i < t.len() && t[i] == '"') {
        None
    } else {
        match str_end(t, i + 1) {
            None => None,
            Some(ke) => {
                let key = t.subrange(i + 1, ke);
                if ke + 1 < t.len() && t[ke + 1] == ':' {
                    match sp_value(t, ke + 2, (fuel - 1) as nat) {
                        None => None,
                        Some((j, e)) => {
                            if e < t.len() && t[e] == ',' {
                                match sp_members(t, e + 1, (fuel - 1) as nat) {
                                    Some((rest, e2)) => Some((seq![(key, j)] + rest, e2)),
                                    None => None,
                                }
                            } else if e < t.len() && t[e] == '}' {
                                Some((seq![(key, j)], e + 1))
                            } else {
                                None
                            }
                        },
                    }
                } else {
                    None
                }
            },
        }
    }
}

/// The value a whole compact document stands for: one JSON value filling the
/// text exactly.
pub open spec fn json_of_chars(t: Seq<char>) -> Option<Jv> {
    if t.len() + 1 > usize::MAX {
        None
    } else {
        match sp_value(t, 0, (t.len() + 1) as nat) {
            Some((j, e)) => if e == t.len() {
                Some(j)
            } else {
                None
            },
            None => None,
        }
    }
}

fn is_digit_exec(c: char) -> (r: bool)
    ensures
        r == is_digit(c),
{
    let u = c as u32;
    48 <= u && u <= 57
}

/// Scans the digit run that starts at `i`. Returns its end, and its value
/// unless the run is longer than 18 digits.
#[verifier::loop_isolation(false)]
fn scan_digits(s: &str, n: usize, i: usize) -> (r: (Option<u64>, usize))
    requires
        n == s@.len(),
        i <= n,
    ensures
        r.1 == digits_end(s@, i as int),
        i <= r.1 <= n,
        match r.0 {
            Some(v) => r.1 - i <= 18 && v == digits_val(s@, i as int, r.1 as int) && v
                < 1000000000000000000,
            None => r.1 - i > 18,
        },
{
    let ghost t = s@;
    let mut j = i;
    while j < n && is_digit_exec(s.get_char(j))
        invariant
            n == t.len(),
            i <= j <= n,
            forall|k: int| i <= k < j ==> is_digit(#[trigger] t[k]),
            digits_end(t, i as int) == digits_end(t, j as int),
        decreases n - j,
    {
        j = j + 1;
    }
    let end = j;
    proof {
        assert(digits_end(t, end as int) == end);
    }
    if end - i > 18 {
        (None, end)
    } else {
        let mut acc: u64 = 0;
        let mut k = i;
        while k < end
            invariant
                n == t.len(),
                i <= k <= end <= n,
                end - i <= 18,
                forall|m: int| i <= m < end ==> is_digit(#[trigger] t[m]),
                acc == digits_val(t, i as int, k as int),
            decreases end - k,
        {
            proof {
                lemma_digits_val_bound(t, i as int, k as int);
                lemma_pow10_mono((k - i) as nat, 17);
                reveal_with_fuel(pow10, 19);
            }
            let c = s.get_char(k);
            let d: u64 = (c as u32 - 48) as u64;
            acc = acc * 10 + d;
            k = k + 1;
        }
        proof {
            lemma_digits_val_bound(t, i as int, end as int);
            lemma_pow10_mono((end - i) as nat, 18);
            reveal_with_fuel(pow10, 19);
        }
        (Some(acc), end)
    }
}

/// Reads a number written at `i`.
fn p_number(s: &str, n: usize, i: usize) -> (r: Option<(Json, usize)>)
    requires
        n == s@.len(),
        i <= n,
    ensures
        match r {
            Some((j, e)) => sp_number(s@, i as int) == Some((j@, e as int)) && i <= e <= n,
            None => sp_number(s@, i as int) is None,
        },
{
    let ghost t = s@;
    let neg = i < n && s.get_char(i) == '-';
    let d0 = if neg {
        i + 1
    } else {
        i
    };
    proof {
        lemma_digits_end_bounds(t, d0 as int);
    }
    let (ip_opt, e1) = scan_digits(s, n, d0);
    if e1 == d0 {
        return None;
    }
    let ip = match ip_opt {
        Some(v) => v,
        None => {
            return None;
        },
    };
    if e1 < n && s.get_char(e1) == '.' {
        proof {
            lemma_digits_end_bounds(t, e1 + 1);
        }
        let (_, e2) = scan_digits(s, n, e1 + 1);
        if e2 == e1 + 1 {
            return None;
        }
        let c1 = s.get_char(e1 + 1);
        let up = is_digit_exec(c1) && (c1 as u32) >= 53;
        proof {
            assert(up == (digit_val(t[e1 + 1]) >= 5));
        }
        let mag: u64 = if up {
            ip + 1
        } else {
            ip
        };
        let val: i64 = if neg {
            -(mag as i64)
        } else {
            mag as i64
        };
        Some((Json::Num { val, exact: false }, e2))
    } else {
        let val: i64 = if neg {
            -(ip as i64)
        } else {
            ip as i64
        };
        Some((Json::Num { val, exact: true }, e1))
    }
}

/// Finds the closing quote of a string that opened just before `i`.
#[verifier::loop_isolation(false)]
fn scan_str_end(s: &str, n: usize, i: usize) -> (r: Option<usize>)
    requires
        n == s@.len(),
        i <= n,
    ensures
        match r {
            Some(e) => str_end(s@, i as int) == Some(e as int) && i <= e < n,
            None => str_end(s@, i as int) is None,
        },
{
    let ghost t = s@;
    let mut j = i;
    while j < n
        invariant
            n == t.len(),
            i <= j <= n,
            str_end(t, i as int) == str_end(t, j as int),
        decreases n - j,
    {
        let c = s.get_char(j);
        if c == '"' {
            return Some(j);
        }
        if c == '\\' {
            return None;
        }
        j = j + 1;
    }
    None
}

/// Checks that the text at `i` reads exactly as the literal `l`.
#[verifier::loop_isolation(false)]
fn lit_match(s: &str, n: usize, i: usize, l: &str) -> (r: bool)
    requires
        n == s@.len(),
        i <= n,
    ensures
        r == (i + l@.len() <= n && s@.subrange(i as int, i as int + l@.len() as int) == l@),
{
    let ghost t = s@;
    let llen = l.unicode_len();
    if llen > n - i {
        return false;
    }
    let mut k: usize = 0;
    while k < llen
        invariant
            n == t.len(),
            llen == l@.len(),
            i + llen <= n,
            0 <= k <= llen,
            forall|m: int| 0 <= m < k ==> t[i + m] == l@[m],
        decreases llen - k,
    {
        if s.get_char(i + k) != l.get_char(k) {
            proof {
                let sub = t.subrange(i as int, i as int + llen as int);
                if sub == l@ {
                    assert(sub[k as int] == t[i + k]);
                }
            }
            return false;
        }
        k = k + 1;
    }
    proof {
        assert(t.subrange(i as int, i as int + llen as int) =~= l@);
    }
    true
}


/// Reads one JSON value written at `i`.
fn p_value(s: &str, n: usize, i: usize, fuel: usize) -> (r: Option<(Json, usize)>)
    requires
        n == s@.len(),
        i <= n,
    ensures
        match r {
            Some((j, e)) => sp_value(s@, i as int, fuel as nat) == Some((j@, e as int)) && i <= e
                <= n,
            None => sp_value(s@, i as int, fuel as nat) is None,
        },
    decreases fuel,
{
    if fuel == 0 || i >= n {
        return None;
    }
    let c = s.get_char(i);
    if c == 'n' {
        proof {
            reveal_strlit("null");
        }
        if lit_match(s, n, i, "null") {
            Some((Json::Null, i + 4))
        } else {
            None
        }
    } else if c == 't' {
        proof {
            reveal_strlit("true");
        }
        if lit_match(s, n, i, "true") {
            Some((Json::Bool(true), i + 4))
        } else {
            None
        }
    } else if c == 'f' {
        proof {
            reveal_strlit("false");
        }
        if lit_match(s, n, i, "false") {
            Some((Json::Bool(false), i + 5))
        } else {
            None
        }
    } else if c == '"' {
        match scan_str_end(s, n, i + 1) {
            Some(e) => {
                let content = s.substring_char(i + 1, e);
                Some((Json::Str(content.to_owned()), e + 1))
            },
            None => None,
        }
    } else if c == '[' {
        if n - i >= 2 && s.get_char(i + 1) == ']' {
            let v: Vec<Json> = Vec::new();
            proof {
                assert(jvs_of(v) =~= Seq::<Jv>::empty());
            }
            Some((Json::Arr(v), i + 2))
        } else {
            match p_elems(s, n, i + 1, fuel - 1) {
                Some((ev, e)) => Some((Json::Arr(ev), e)),
                None => None,
            }
        }
    } else if c == '{' {
        if n - i >= 2 && s.get_char(i + 1) == '}' {
            let m: Vec<(String, Json)> = Vec::new();
            proof {
                assert(jvm_of(m) =~= Seq::<(Seq<char>, Jv)>::empty());
            }
            Some((Json::Obj(m), i + 2))
        } else {
            match p_members(s, n, i + 1, fuel - 1) {
                Some((mv, e)) => Some((Json::Obj(mv), e)),
                None => None,
            }
        }
    } else if c == '-' || is_digit_exec(c) {
        p_number(s, n, i)
    } else {
        None
    }
}

/// Reads the elements of a non-empty array, closing bracket included.
fn p_elems(s: &str, n: usize, i: usize, fuel: usize) -> (r: Option<(Vec<Json>, usize)>)
    requires
        n == s@.len(),
        i <= n,
    ensures
        match r {
            Some((v, e)) => sp_elems(s@, i as int, fuel as nat) == Some((jvs_of(v), e as int))
                && i <= e <= n,
            None => sp_elems(s@, i as int, fuel as nat) is None,
        },
    decreases fuel,
{
    if fuel == 0 {
        return None;
    }
    match p_value(s, n, i, fuel - 1) {
        None => None,
        Some((j, e)) => {
            if e < n && s.get_char(e) == ',' {
                match p_elems(s, n, e + 1, fuel - 1) {
                    Some((rest, e2)) => {
                        let ghost rest0 = rest;
                        let mut v = rest;
                        v.insert(0, j);
                        proof {
                            assert(jvs_of(v) =~= seq![j@] + jvs_of(rest0));
                        }
                        Some((v, e2))
                    },
                    None => None,
                }
            } else if e < n && s.get_char(e) == ']' {
                let mut v: Vec<Json> = Vec::new();
                v.push(j);
                proof {
                    assert(jvs_of(v) =~= seq![j@]);
                }
                Some((v, e + 1))
            } else {
                None
            }
        },
    }
}

/// Reads the members of a non-empty object, closing brace included.
fn p_members(s: &str, n: usize, i: usize, fuel: usize) -> (r: Option<
    (Vec<(String, Json)>, usize),
>)
    requires
        n == s@.len(),
        i <= n,
    ensures
        match r {
            Some((m, e)) => sp_members(s@, i as int, fuel as nat) == Some((jvm_of(m), e as int))
                && i <= e <= n,
            None => sp_members(s@, i as int, fuel as nat) is None,
        },
    decreases fuel,
{
    if fuel == 0 {
        return None;
    }
    if !(i < n && s.get_char(i) == '"') {
        return None;
    }
    match scan_str_end(s, n, i + 1) {
        None => None,
        Some(ke) => {
            let key = s.substring_char(i + 1, ke).to_owned();
            if ke + 1 < n && s.get_char(ke + 1) == ':' {
                match p_value(s, n, ke + 2, fuel - 1) {
                    None => None,
                    Some((j, e)) => {
                        if e < n && s.get_char(e) == ',' {
                            match p_members(s, n, e + 1, fuel - 1) {
                                Some((rest, e2)) => {
                                    let ghost rest0 = rest;
                                    let ghost key0 = key@;
                                    let mut m = rest;
                                    m.insert(0, (key, j));
                                    proof {
                                        assert(jvm_of(m) =~= seq![(key0, j@)] + jvm_of(rest0));
                                    }
                                    Some((m, e2))
                                },
                                None => None,
                            }
                        } else if e < n && s.get_char(e) == '}' {
                            let ghost key0 = key@;
                            let mut m: Vec<(String, Json)> = Vec::new();
                            m.push((key, j));
                            proof {
                                assert(jvm_of(m) =~= seq![(key0, j@)]);
                            }
                            Some((m, e + 1))
                        } else {
                            None
                        }
                    },
                }
            } else {
                None
            }
        },
    }
}

/// Reads one whole compact JSON document.
pub fn parse_json(s: &str) -> (r: Option<Json>)
    ensures
        match r {
            Some(j) => json_of_chars(s@) == Some(j@),
            None => json_of_chars(s@) is None,
        },
{
    let n = s.unicode_len();
    if n == usize::MAX {
        return None;
    }
    match p_value(s, n, 0, n + 1) {
        Some((j, e)) => {
            if e == n {
                Some(j)
            } else {
                None
            }
        },
        None => None,
    }
}


/// What `serde_json` makes of a JSON text: nothing when the text is not
/// JSON, else the same document reprinted in serde_json's compact form. The
/// reprint is a function of the text alone.
pub uninterp spec fn canon_of(s: Seq<char>) -> Option<Seq<char>>;

/// Relies on `serde_json::from_str` to check and read the payload and on
/// `serde_json::Value::to_string` for the compact reprint of it.
#[verifier::external_body]
fn canonical_json(s: &str) -> (r: Option<String>)
    ensures
        match r {
            Some(c) => canon_of(s@) == Some(c@),
            None => canon_of(s@) is None,
        },
{
    serde_json::from_str::<serde_json::Value>(s).ok().map(|v| v.to_string())
}

/// What a payload text stands for: serde_json's compact reprint of it, read
/// back as one whole document.
pub open spec fn doc_of(s: Seq<char>) -> Option<Jv> {
    match canon_of(s) {
        Some(c) => json_of_chars(c),
        None => None,
    }
}

/// Reads a payload: syntax checked and reprinted by serde_json, decoded by
/// the verified reader.
pub fn parse_document(s: &str) -> (r: Option<Json>)
    ensures
        match r {
            Some(j) => doc_of(s@) == Some(j@),
            None => doc_of(s@) is None,
        },
{
    match canonical_json(s) {
        Some(c) => parse_json(c.as_str()),
        None => None,
    }
}

/// The value under `key`: the first member that bears it.
pub open spec fn jv_get(m: Seq<(Seq<char>, Jv)>, key: Seq<char>) -> Option<Jv>
    decreases m.len(),
{
    if m.len() == 0 {
        None
    } else if m[0].0 == key {
        Some(m[0].1)
    } else {
        jv_get(m.drop_first(), key)
    }
}

proof fn lemma_jv_get_skip(m: Seq<(Seq<char>, Jv)>, key: Seq<char>, i: int)
    requires
        0 <= i <= m.len(),
        forall|k: int| 0 <= k < i ==> (#[trigger] m[k]).0 != key,
    ensures
        jv_get(m, key) == jv_get(m.skip(i), key),
    decreases i,
{
    if i > 0 {
        assert(m.skip(i - 1).drop_first() =~= m.skip(i));
        assert(m.skip(i - 1)[0] == m[i - 1]);
        lemma_jv_get_skip(m, key, i - 1);
    } else {
        assert(m.skip(0) =~= m);
    }
}

/// Looks a member up in a decoded object.
#[verifier::loop_isolation(false)]
pub fn obj_get<'a>(m: &'a Vec<(String, Json)>, key: &String) -> (r: Option<&'a Json>)
    ensures
        match r {
            Some(j) => jv_get(jvm_of(*m), key@) == Some(j@),
            None => jv_get(jvm_of(*m), key@) is None,
        },
{
    let ghost gm = jvm_of(*m);
    let mut i: usize = 0;
    while i < m.len()
        invariant
            0 <= i <= m@.len(),
            forall|k: int| 0 <= k < i ==> (#[trigger] gm[k]).0 != key@,
        decreases m@.len() - i,
    {
        proof {
            assert(gm[i as int] == (m@[i as int].0@, jv_of(m@[i as int].1)));
        }
        if m[i].0 == *key {
            proof {
                lemma_jv_get_skip(gm, key@, i as int);
                assert(gm.skip(i as int)[0] == gm[i as int]);
            }
            return Some(&m[i].1);
        }
        i = i + 1;
    }
    proof {
        lemma_jv_get_skip(gm, key@, m@.len() as int);
        assert(gm.skip(gm.len() as int) =~= Seq::empty());
    }
    None
}

/// What can go wrong while decoding a payload into a typed record.
#[derive(Clone, Copy, Debug, PartialEq, Eq, Structural)]
pub enum DecodeError {
    /// The text is not JSON that this library reads.
    Syntax,
    /// A required member is not there.
    MissingField,
    /// A member holds a value of the wrong kind.
    WrongType,
    /// The observation list holds no first row.
    FirstRowMissing,
    /// A closed enumeration met a word outside it.
    UnknownVariant,
}

/// A required whole number that fits `u32`.
pub open spec fn spec_get_u32(m: Seq<(Seq<char>, Jv)>, key: Seq<char>) -> Result<
    u32,
    DecodeError,
> {
    match jv_get(m, key) {
        None => Err(DecodeError::MissingField),
        Some(Jv::Num { val, exact }) => if exact && 0 <= val <= u32::MAX {
            Ok(val as u32)
        } else {
            Err(DecodeError::WrongType)
        },
        Some(_) => Err(DecodeError::WrongType),
    }
}

pub fn get_u32(m: &Vec<(String, Json)>, key: &String) -> (r: Result<u32, DecodeError>)
    ensures
        r == spec_get_u32(jvm_of(*m), key@),
{
    match obj_get(m, key) {
        None => Err(DecodeError::MissingField),
        Some(j) => match j {
            Json::Num { val, exact } => {
                if *exact && *val >= 0 && *val <= u32::MAX as i64 {
                    Ok(*val as u32)
                } else {
                    Err(DecodeError::WrongType)
                }
            },
            _ => Err(DecodeError::WrongType),
        },
    }
}

/// A required number, rounded to the nearest whole value.
pub open spec fn spec_get_round(m: Seq<(Seq<char>, Jv)>, key: Seq<char>) -> Result<
    i64,
    DecodeError,
> {
    match jv_get(m, key) {
        None => Err(DecodeError::MissingField),
        Some(Jv::Num { val, exact }) => Ok(val as i64),
        Some(_) => Err(DecodeError::WrongType),
    }
}

pub fn get_round(m: &Vec<(String, Json)>, key: &String) -> (r: Result<i64, DecodeError>)
    ensures
        r == spec_get_round(jvm_of(*m), key@),
{
    match obj_get(m, key) {
        None => Err(DecodeError::MissingField),
        Some(j) => match j {
            Json::Num { val, exact } => Ok(*val),
            _ => Err(DecodeError::WrongType),
        },
    }
}

/// A number that a station may omit: absent or written `null` means no
/// reading, anything but a number is refused.
pub open spec fn spec_get_opt_round(m: Seq<(Seq<char>, Jv)>, key: Seq<char>) -> Result<
    Option<i64>,
    DecodeError,
> {
    match jv_get(m, key) {
        None => Ok(None),
        Some(Jv::Null) => Ok(None),
        Some(Jv::Num { val, exact }) => Ok(Some(val as i64)),
        Some(_) => Err(DecodeError::WrongType),
    }
}

pub fn get_opt_round(m: &Vec<(String, Json)>, key: &String) -> (r: Result<
    Option<i64>,
    DecodeError,
>)
    ensures
        r == spec_get_opt_round(jvm_of(*m), key@),
{
    match obj_get(m, key) {
        None => Ok(None),
        Some(j) => match j {
            Json::Null => Ok(None),
            Json::Num { val, exact } => Ok(Some(*val)),
            _ => Err(DecodeError::WrongType),
        },
    }
}

/// A counter that may be `null` or absent; when written it must be a whole
/// number that is not negative.
pub open spec fn spec_get_opt_u64(m: Seq<(Seq<char>, Jv)>, key: Seq<char>) -> Result<
    Option<u64>,
    DecodeError,
> {
    match jv_get(m, key) {
        None => Ok(None),
        Some(Jv::Null) => Ok(None),
        Some(Jv::Num { val, exact }) => if exact && val >= 0 {
            Ok(Some(val as u64))
        } else {
            Err(DecodeError::WrongType)
        },
        Some(_) => Err(DecodeError::WrongType),
    }
}

pub fn get_opt_u64(m: &Vec<(String, Json)>, key: &String) -> (r: Result<
    Option<u64>,
    DecodeError,
>)
    ensures
        r == spec_get_opt_u64(jvm_of(*m), key@),
{
    match obj_get(m, key) {
        None => Ok(None),
        Some(j) => match j {
            Json::Null => Ok(None),
            Json::Num { val, exact } => {
                if *exact && *val >= 0 {
                    Ok(Some(*val as u64))
                } else {
                    Err(DecodeError::WrongType)
                }
            },
            _ => Err(DecodeError::WrongType),
        },
    }
}

/// A required text member.
pub open spec fn spec_get_text(m: Seq<(Seq<char>, Jv)>, key: Seq<char>) -> Result<
    Seq<char>,
    DecodeError,
> {
    match jv_get(m, key) {
        None => Err(DecodeError::MissingField),
        Some(Jv::Str(s)) => Ok(s),
        Some(_) => Err(DecodeError::WrongType),
    }
}

pub fn get_text(m: &Vec<(String, Json)>, key: &String) -> (r: Result<String, DecodeError>)
    ensures
        match r {
            Ok(s) => spec_get_text(jvm_of(*m), key@) == Ok::<Seq<char>, DecodeError>(s@),
            Err(e) => spec_get_text(jvm_of(*m), key@) == Err::<Seq<char>, DecodeError>(e),
        },
{
    match obj_get(m, key) {
        None => Err(DecodeError::MissingField),
        Some(j) => match j {
            Json::Str(s) => Ok(s.clone()),
            _ => Err(DecodeError::WrongType),
        },
    }
}

} // verus!



