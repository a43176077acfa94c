//! Cron expressions: standard five-field expressions are rewritten for the
//! `cron` crate (seconds field added, weekday numbers named), then the next
//! firing time after an instant is asked of it.

use vstd::prelude::*;

use crate::text::{
    all_ws, append_chars, chars_eq, chars_of, is_ws, join, join_vec, lead_ws, lemma_lead_ws,
    lemma_lead_ws_is_first, slice_chars, split_on, split_vec, string_of, trim, trim_chars,
};

verus! {

/// Why no next run could be computed from a cron expression.
#[derive(Debug, Clone, PartialEq, Eq)]
pub enum CronError {
    /// The expression was refused by the parser; the parser's message.
    Invalid(String),
    /// The expression never fires after the given instant.
    NoFutureSchedule,
}

/// What the `cron` crate makes of `expr` at the instant `after` (nanoseconds
/// since the Unix epoch, UTC): the first firing strictly after it, if there
/// is one that fits in that range, or the parser's message when it refuses
/// the expression.
pub uninterp spec fn cron_schedule(expr: Seq<char>, after: i64) -> Result<Option<i64>, Seq<char>>;

/// Parses `expr` with `cron::Schedule::from_str` and takes the first item of
/// `Schedule::after` at the instant `after_ns`. The source of `next_after`
/// starts from `after + 1s` and builds whole-second candidates, so the result
/// is a whole second strictly after `after_ns`. Which instant the schedule
/// picks, and the text of the parser's message, are not stated.
#[verifier::external_body]
fn cron_next_after(expr: &str, after_ns: i64) -> (r: Result<Option<i64>, String>)
    ensures
        match r {
            Ok(next) => cron_schedule(expr@, after_ns) == Ok::<Option<i64>, Seq<char>>(next),
            Err(m) => cron_schedule(expr@, after_ns) == Err::<Option<i64>, Seq<char>>(m@),
        },
        r matches Ok(Some(t)) ==> t > after_ns && t % 1_000_000_000 == 0,
{
    let schedule = <cron::Schedule as std::str::FromStr>::from_str(expr).map_err(|e| e.to_string())?;
    let after = chrono::DateTime::from_timestamp_nanos(after_ns);
    Ok(schedule.after(&after).next().and_then(|t| t.timestamp_nanos_opt()))
}

/// Whether `c` has the Unicode `Alphabetic` property.
pub uninterp spec fn alphabetic(c: char) -> bool;

/// `char::is_alphabetic`; on ASCII it holds exactly of the letters.
#[verifier::external_body]
fn char_is_alphabetic(c: char) -> (r: bool)
    ensures
        r == alphabetic(c),
        (c as u32) < 128 ==> (r <==> (('a' <= c && c <= 'z') || ('A' <= c && c <= 'Z'))),
{
    c.is_alphabetic()
}

/// The weekday name of a standard cron weekday number (0 and 7 are Sunday);
/// any other token comes back trimmed.
pub open spec fn weekday_token(token: Seq<char>) -> Seq<char> {
    let t = trim(token);
    if t == "0"@ || t == "7"@ {
        "Sun"@
    } else if t == "1"@ {
        "Mon"@
    } else if t == "2"@ {
        "Tue"@
    } else if t == "3"@ {
        "Wed"@
    } else if t == "4"@ {
        "Thu"@
    } else if t == "5"@ {
        "Fri"@
    } else if t == "6"@ {
        "Sat"@
    } else {
        t
    }
}

/// Standard cron weekday numbers name their days: 0 and 7 are Sunday, 1
/// Monday, 2 Tuesday, 3 Wednesday, 4 Thursday, 5 Friday, 6 Saturday
/// (surrounding whitespace ignored); any other token is only trimmed.
pub proof fn lemma_weekday_numbers(token: Seq<char>)
    ensures
        trim(token) == seq!['0'] ==> weekday_token(token) == seq!['S', 'u', 'n'],
        trim(token) == seq!['1'] ==> weekday_token(token) == seq!['M', 'o', 'n'],
        trim(token) == seq!['2'] ==> weekday_token(token) == seq!['T', 'u', 'e'],
        trim(token) == seq!['3'] ==> weekday_token(token) == seq!['W', 'e', 'd'],
        trim(token) == seq!['4'] ==> weekday_token(token) == seq!['T', 'h', 'u'],
        trim(token) == seq!['5'] ==> weekday_token(token) == seq!['F', 'r', 'i'],
        trim(token) == seq!['6'] ==> weekday_token(token) == seq!['S', 'a', 't'],
        trim(token) == seq!['7'] ==> weekday_token(token) == seq!['S', 'u', 'n'],
        !(trim(token) == seq!['0'] || trim(token) == seq!['1'] || trim(token) == seq!['2'] || trim(token) == seq!['3']
            || trim(token) == seq!['4'] || trim(token) == seq!['5'] || trim(token) == seq!['6'] || trim(token) == seq!['7'])
            ==> weekday_token(token) == trim(token),
{
    reveal_strlit("0");
    reveal_strlit("1");
    reveal_strlit("2");
    reveal_strlit("3");
    reveal_strlit("4");
    reveal_strlit("5");
    reveal_strlit("6");
    reveal_strlit("7");
    reveal_strlit("Sun");
    reveal_strlit("Mon");
    reveal_strlit("Tue");
    reveal_strlit("Wed");
    reveal_strlit("Thu");
    reveal_strlit("Fri");
    reveal_strlit("Sat");
    assert("0"@ =~= seq!['0']);
    assert("1"@ =~= seq!['1']);
    assert("2"@ =~= seq!['2']);
    assert("3"@ =~= seq!['3']);
    assert("4"@ =~= seq!['4']);
    assert("5"@ =~= seq!['5']);
    assert("6"@ =~= seq!['6']);
    assert("7"@ =~= seq!['7']);
    assert(seq!['0'] != seq!['1']) by { assert(seq!['0'][0] != seq!['1'][0]); }
    assert(seq!['0'] != seq!['2']) by { assert(seq!['0'][0] != seq!['2'][0]); }
    assert(seq!['0'] != seq!['3']) by { assert(seq!['0'][0] != seq!['3'][0]); }
    assert(seq!['0'] != seq!['4']) by { assert(seq!['0'][0] != seq!['4'][0]); }
    assert(seq!['0'] != seq!['5']) by { assert(seq!['0'][0] != seq!['5'][0]); }
    assert(seq!['0'] != seq!['6']) by { assert(seq!['0'][0] != seq!['6'][0]); }
    assert(seq!['0'] != seq!['7']) by { assert(seq!['0'][0] != seq!['7'][0]); }
    assert(seq!['1'] != seq!['2']) by { assert(seq!['1'][0] != seq!['2'][0]); }
    assert(seq!['1'] != seq!['3']) by { assert(seq!['1'][0] != seq!['3'][0]); }
    assert(seq!['1'] != seq!['4']) by { assert(seq!['1'][0] != seq!['4'][0]); }
    assert(seq!['1'] != seq!['5']) by { assert(seq!['1'][0] != seq!['5'][0]); }
    assert(seq!['1'] != seq!['6']) by { assert(seq!['1'][0] != seq!['6'][0]); }
    assert(seq!['1'] != seq!['7']) by { assert(seq!['1'][0] != seq!['7'][0]); }
    assert(seq!['2'] != seq!['3']) by { assert(seq!['2'][0] != seq!['3'][0]); }
    assert(seq!['2'] != seq!['4']) by { assert(seq!['2'][0] != seq!['4'][0]); }
    assert(seq!['2'] != seq!['5']) by { assert(seq!['2'][0] != seq!['5'][0]); }
    assert(seq!['2'] != seq!['6']) by { assert(seq!['2'][0] != seq!['6'][0]); }
    assert(seq!['2'] != seq!['7']) by { assert(seq!['2'][0] != seq!['7'][0]); }
    assert(seq!['3'] != seq!['4']) by { assert(seq!['3'][0] != seq!['4'][0]); }
    assert(seq!['3'] != seq!['5']) by { assert(seq!['3'][0] != seq!['5'][0]); }
    assert(seq!['3'] != seq!['6']) by { assert(seq!['3'][0] != seq!['6'][0]); }
    assert(seq!['3'] != seq!['7']) by { assert(seq!['3'][0] != seq!['7'][0]); }
    assert(seq!['4'] != seq!['5']) by { assert(seq!['4'][0] != seq!['5'][0]); }
    assert(seq!['4'] != seq!['6']) by { assert(seq!['4'][0] != seq!['6'][0]); }
    assert(seq!['4'] != seq!['7']) by { assert(seq!['4'][0] != seq!['7'][0]); }
    assert(seq!['5'] != seq!['6']) by { assert(seq!['5'][0] != seq!['6'][0]); }
    assert(seq!['5'] != seq!['7']) by { assert(seq!['5'][0] != seq!['7'][0]); }
    assert(seq!['6'] != seq!['7']) by { assert(seq!['6'][0] != seq!['7'][0]); }
    assert("Sun"@ =~= seq!['S', 'u', 'n']);
    assert("Mon"@ =~= seq!['M', 'o', 'n']);
    assert("Tue"@ =~= seq!['T', 'u', 'e']);
    assert("Wed"@ =~= seq!['W', 'e', 'd']);
    assert("Thu"@ =~= seq!['T', 'h', 'u']);
    assert("Fri"@ =~= seq!['F', 'r', 'i']);
    assert("Sat"@ =~= seq!['S', 'a', 't']);
}

/// Maps a standard cron weekday number to the weekday name the parser reads.
pub fn standard_weekday_token(token: &Vec<char>) -> (r: Vec<char>)
    ensures
        r@ == weekday_token(token@),
        trim(token@) == seq!['0'] || trim(token@) == seq!['7'] ==> r@ == seq!['S', 'u', 'n'],
        trim(token@) == seq!['1'] ==> r@ == seq!['M', 'o', 'n'],
        trim(token@) == seq!['2'] ==> r@ == seq!['T', 'u', 'e'],
        trim(token@) == seq!['3'] ==> r@ == seq!['W', 'e', 'd'],
        trim(token@) == seq!['4'] ==> r@ == seq!['T', 'h', 'u'],
        trim(token@) == seq!['5'] ==> r@ == seq!['F', 'r', 'i'],
        trim(token@) == seq!['6'] ==> r@ == seq!['S', 'a', 't'],
{
    proof {
        lemma_weekday_numbers(token@);
    }
    let t = trim_chars(token);
    if chars_eq(&t, &chars_of("0")) || chars_eq(&t, &chars_of("7")) {
        chars_of("Sun")
    } else if chars_eq(&t, &chars_of("1")) {
        chars_of("Mon")
    } else if chars_eq(&t, &chars_of("2")) {
        chars_of("Tue")
    } else if chars_eq(&t, &chars_of("3")) {
        chars_of("Wed")
    } else if chars_eq(&t, &chars_of("4")) {
        chars_of("Thu")
    } else if chars_eq(&t, &chars_of("5")) {
        chars_of("Fri")
    } else if chars_eq(&t, &chars_of("6")) {
        chars_of("Sat")
    } else {
        t
    }
}

/// `s` split at its first `c` (`str::split_once`).
pub open spec fn split_once(s: Seq<char>, c: char) -> Option<(Seq<char>, Seq<char>)> {
    match crate::text::find_from(s, c, 0) {
        Some(k) => if 0 <= k < s.len() { Some((s.take(k), s.skip(k + 1))) } else { None },
        None => None,
    }
}

/// Some character of `s` is alphabetic.
pub open spec fn has_alphabetic(s: Seq<char>) -> bool {
    exists|i: int| 0 <= i < s.len() && alphabetic(#[trigger] s[i])
}

/// One comma-separated weekday item (`a`, `a-b`, with an optional `/step`)
/// with its numbers turned into names; `*` and items with letters stay as they are.
pub open spec fn weekday_segment(segment: Seq<char>) -> Seq<char> {
    if segment == "*"@ || has_alphabetic(segment) {
        segment
    } else {
        let (base, step) = match split_once(segment, '/') {
            Some((b, s)) => (b, Some(s)),
            None => (segment, None::<Seq<char>>),
        };
        let normalized = match split_once(base, '-') {
            Some((start, end)) => weekday_token(start) + "-"@ + weekday_token(end),
            None => weekday_token(base),
        };
        match step {
            Some(s) => normalized + "/"@ + s,
            None => normalized,
        }
    }
}

/// A standard weekday field with each comma-separated item rewritten.
pub open spec fn weekday_field(field: Seq<char>) -> Seq<char> {
    join(split_on(field, ',').map_values(|seg: Seq<char>| weekday_segment(seg)), ","@)
}

/// Splits `v` at its first `c`.
fn split_once_vec(v: &Vec<char>, c: char) -> (r: Option<(Vec<char>, Vec<char>)>)
    ensures
        match r {
            Some((a, b)) => split_once(v@, c) == Some((a@, b@)),
            None => split_once(v@, c) is None,
        },
{
    let mut k: usize = 0;
    while k < v.len() && v[k] != c
        invariant
            k <= v.len(),
            forall|j: int| 0 <= j < k ==> v@[j] != c,
        decreases v.len() - k,
    {
        k = k + 1;
    }
    proof {
        crate::text::lemma_find_from_is(v@, c, 0, k as int);
    }
    if k == v.len() {
        None
    } else {
        let a = slice_chars(v, 0, k);
        let b = slice_chars(v, k + 1, v.len());
        assert(a@ =~= v@.take(k as int));
        assert(b@ =~= v@.skip(k + 1));
        Some((a, b))
    }
}

/// Rewrites one item of a standard weekday field.
pub fn normalize_standard_day_of_week_segment(segment: &Vec<char>) -> (r: Vec<char>)
    ensures
        r@ == weekday_segment(segment@),
{
    let star = chars_of("*");
    if chars_eq(segment, &star) {
        return slice_chars(segment, 0, segment.len());
    }
    let mut i: usize = 0;
    while i < segment.len()
        invariant
            i <= segment.len(),
            forall|j: int| 0 <= j < i ==> !alphabetic(#[trigger] segment@[j]),
        decreases segment.len() - i,
    {
        if char_is_alphabetic(segment[i]) {
            let r = slice_chars(segment, 0, segment.len());
            assert(r@ =~= segment@);
            return r;
        }
        i = i + 1;
    }
    assert(!has_alphabetic(segment@));
    let (base, step) = match split_once_vec(segment, '/') {
        Some((b, s)) => (b, Some(s)),
        None => (slice_chars(segment, 0, segment.len()), None),
    };
    assert(step is None ==> base@ =~= segment@);
    let mut normalized = match split_once_vec(&base, '-') {
        Some((start, end)) => {
            let mut n = standard_weekday_token(&start);
            append_chars(&mut n, &chars_of("-"));
            append_chars(&mut n, &standard_weekday_token(&end));
            n
        },
        None => standard_weekday_token(&base),
    };
    match step {
        Some(s) => {
            append_chars(&mut normalized, &chars_of("/"));
            append_chars(&mut normalized, &s);
            normalized
        },
        None => normalized,
    }
}

/// Rewrites every comma-separated item of a standard weekday field.
pub fn normalize_standard_day_of_week(field: &Vec<char>) -> (r: Vec<char>)
    ensures
        r@ == weekday_field(field@),
{
    let segs = split_vec(field, ',');
    let ghost all = split_on(field@, ',');
    let mut out: Vec<Vec<char>> = Vec::new();
    let mut i: usize = 0;
    while i < segs.len()
        invariant
            i <= segs.len(),
            all == segs@.map_values(|l: Vec<char>| l@),
            out@.len() == i,
            forall|j: int| 0 <= j < i ==> (#[trigger] out@[j])@ == weekday_segment(all[j]),
        decreases segs.len() - i,
    {
        assert(segs@[i as int]@ == all[i as int]);
        out.push(normalize_standard_day_of_week_segment(&segs[i]));
        i = i + 1;
    }
    assert(out@.map_values(|l: Vec<char>| l@) =~= all.map_values(|seg: Seq<char>| weekday_segment(seg)));
    join_vec(&out, &chars_of(","))
}

/// Index of the first whitespace character of `s`, or its length.
pub open spec fn first_ws(s: Seq<char>) -> nat
    decreases s.len(),
{
    if s.len() == 0 || is_ws(s[0]) {
        0
    } else {
        1 + first_ws(s.drop_first())
    }
}

/// The whitespace-separated words of `s` (`str::split_whitespace`).
pub open spec fn words(s: Seq<char>) -> Seq<Seq<char>>
    decreases s.len(),
{
    let t = s.skip(lead_ws(s) as int);
    if lead_ws(s) >= s.len() {
        Seq::empty()
    } else {
        let k = first_ws(t);
        if k == 0 || k > t.len() {
            Seq::empty()
        } else {
            seq![t.take(k as int)] + words(t.skip(k as int))
        }
    }
}

proof fn lemma_first_ws(s: Seq<char>)
    ensures
        first_ws(s) <= s.len(),
        forall|i: int| 0 <= i < first_ws(s) ==> !is_ws(#[trigger] s[i]),
        first_ws(s) < s.len() ==> is_ws(s[first_ws(s) as int]),
    decreases s.len(),
{
    if s.len() > 0 && !is_ws(s[0]) {
        lemma_first_ws(s.drop_first());
        assert forall|i: int| 0 <= i < first_ws(s) implies !is_ws(#[trigger] s[i]) by {
            if i > 0 {
                assert(s[i] == s.drop_first()[i - 1]);
            }
        }
    }
}

proof fn lemma_first_ws_is(s: Seq<char>, k: int)
    requires
        0 <= k <= s.len(),
        forall|i: int| 0 <= i < k ==> !is_ws(#[trigger] s[i]),
        k < s.len() ==> is_ws(s[k]),
    ensures
        first_ws(s) == k,
    decreases s.len(),
{
    if k > 0 {
        assert forall|i: int| 0 <= i < k - 1 implies !is_ws(#[trigger] s.drop_first()[i]) by {
            assert(s.drop_first()[i] == s[i + 1]);
        }
        if k < s.len() {
            assert(s.drop_first()[k - 1] == s[k]);
        }
        assert(!is_ws(s[0]));
        lemma_first_ws_is(s.drop_first(), k - 1);
    }
}

/// Splits `v` into its whitespace-separated words.
pub fn split_whitespace_vec(v: &Vec<char>) -> (r: Vec<Vec<char>>)
    ensures
        r@.map_values(|l: Vec<char>| l@) == words(v@),
{
    let mut r: Vec<Vec<char>> = Vec::new();
    let n = v.len();
    let mut i: usize = 0;
    assert(v@.skip(0) =~= v@);
    loop
        invariant
            i <= n == v.len(),
            words(v@) == r@.map_values(|l: Vec<char>| l@) + words(v@.skip(i as int)),
        decreases n - i,
    {
        let ghost rest = v@.skip(i as int);
        let mut a: usize = i;
        while a < n && crate::text::char_is_ws(v[a])
            invariant
                i <= a <= n == v.len(),
                forall|j: int| i <= j < a ==> is_ws(#[trigger] v@[j]),
            decreases n - a,
        {
            a = a + 1;
        }
        proof {
            assert forall|j: int| 0 <= j < a - i implies is_ws(#[trigger] rest[j]) by {
                assert(rest[j] == v@[j + i]);
            }
            if a < n {
                assert(rest[a - i] == v@[a as int]);
            }
            lemma_lead_ws_is_first(rest, (a - i) as int);
        }
        if a == n {
            proof {
                assert(words(rest) =~= Seq::<Seq<char>>::empty());
                assert(words(v@) =~= r@.map_values(|l: Vec<char>| l@));
            }
            return r;
        }
        let mut b: usize = a;
        while b < n && !crate::text::char_is_ws(v[b])
            invariant
                a <= b <= n == v.len(),
                forall|j: int| a <= j < b ==> !is_ws(#[trigger] v@[j]),
            decreases n - b,
        {
            b = b + 1;
        }
        let ghost t = rest.skip((a - i) as int);
        proof {
            assert(t =~= v@.skip(a as int));
            assert forall|j: int| 0 <= j < b - a implies !is_ws(#[trigger] t[j]) by {
                assert(t[j] == v@[j + a]);
            }
            if b < n {
                assert(t[b - a] == v@[b as int]);
            }
            lemma_first_ws_is(t, (b - a) as int);
        }
        let word = slice_chars(v, a, b);
        let ghost before = r@.map_values(|l: Vec<char>| l@);
        r.push(word);
        proof {
            assert(word@ =~= t.take((b - a) as int));
            assert(t.skip((b - a) as int) =~= v@.skip(b as int));
            assert(r@.map_values(|l: Vec<char>| l@) =~= before.push(word@));
            assert(words(v@) =~= r@.map_values(|l: Vec<char>| l@) + words(v@.skip(b as int)));
        }
        i = b;
    }
}

/// The expression the `cron` crate is given: a standard five-field expression
/// gets a `0` seconds field in front and named weekdays; anything else is only trimmed.
pub open spec fn normalized_cron(expr: Seq<char>) -> Seq<char> {
    let parts = words(expr);
    if parts.len() == 5 {
        "0 "@ + parts[0] + " "@ + parts[1] + " "@ + parts[2] + " "@ + parts[3] + " "@
            + weekday_field(parts[4])
    } else {
        trim(expr)
    }
}

/// Rewrites a cron expression for the `cron` crate.
pub fn normalize_cron_expression(expr: &str) -> (r: String)
    ensures
        r@ == normalized_cron(expr@),
{
    let v = chars_of(expr);
    let parts = split_whitespace_vec(&v);
    assert(parts@.len() == words(expr@).len());
    if parts.len() == 5 {
        assert(forall|j: int| 0 <= j < 5 ==> parts@[j]@ == words(expr@)[j]);
        let sp = chars_of(" ");
        let mut out = chars_of("0 ");
        append_chars(&mut out, &parts[0]);
        append_chars(&mut out, &sp);
        append_chars(&mut out, &parts[1]);
        append_chars(&mut out, &sp);
        append_chars(&mut out, &parts[2]);
        append_chars(&mut out, &sp);
        append_chars(&mut out, &parts[3]);
        append_chars(&mut out, &sp);
        append_chars(&mut out, &normalize_standard_day_of_week(&parts[4]));
        string_of(&out)
    } else {
        crate::text::trimmed(expr)
    }
}

/// The first firing of `expr` strictly after `after`, once the expression is normalised.
pub open spec fn next_fire(expr: Seq<char>, after: i64) -> Result<Option<i64>, Seq<char>> {
    cron_schedule(normalized_cron(expr), after)
}

/// The first firing of a cron expression strictly after `after`
/// (nanoseconds since the Unix epoch, UTC).
pub fn next_run_from_cron(expr: &str, after: i64) -> (r: Result<i64, CronError>)
    ensures
        match r {
            Ok(t) => next_fire(expr@, after) == Ok::<Option<i64>, Seq<char>>(Some(t)) && t > after,
            Err(CronError::Invalid(m)) => next_fire(expr@, after) == Err::<Option<i64>, Seq<char>>(m@),
            Err(CronError::NoFutureSchedule) => next_fire(expr@, after) == Ok::<Option<i64>, Seq<char>>(None),
        },
{
    let normalized = normalize_cron_expression(expr);
    next_run_from_schedule(cron_next_after(normalized.as_str(), after))
}

/// The next run, or the error, given what the cron evaluation of the
/// normalised expression returned: a firing time, no firing, or the parser's message.
pub fn next_run_from_schedule(evaluation: Result<Option<i64>, String>) -> (r: Result<i64, CronError>)
    ensures
        match evaluation {
            Ok(Some(t)) => r == Ok::<i64, CronError>(t),
            Ok(None) => r == Err::<i64, CronError>(CronError::NoFutureSchedule),
            Err(m) => r == Err::<i64, CronError>(CronError::Invalid(m)),
        },
{
    match evaluation {
        Ok(Some(t)) => Ok(t),
        Ok(None) => Err(CronError::NoFutureSchedule),
        Err(message) => Err(CronError::Invalid(message)),
    }
}

pub open spec fn cron_error_message(e: CronError) -> Seq<char> {
    match e {
        CronError::Invalid(m) => m@,
        CronError::NoFutureSchedule => "cron expression has no future schedule"@,
    }
}

impl CronError {
    /// The human-readable message of the error.
    pub fn message(&self) -> (r: String)
        ensures
            r@ == cron_error_message(*self),
    {
        match self {
            CronError::Invalid(m) => m.clone(),
            CronError::NoFutureSchedule => "cron expression has no future schedule".to_owned(),
        }
    }
}

} // verus!
