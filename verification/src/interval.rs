//! An upper bound on the seconds that a duration text can stand for, by the
//! units that `humantime` documents. `humantime::parse_duration` panics
//! only when its running total reaches `u64::MAX` seconds with a carry of
//! whole nanoseconds; a text whose bound stays within `u64::MAX` never gets
//! there.
use vstd::prelude::*;
use crate::text::{chars_of, digit_value, is_digit};

verus! {

/// A letter that may stand in a unit's name.
pub open spec fn unit_letter(c: char) -> bool {
    ('a' <= c && c <= 'z') || ('A' <= c && c <= 'Z') || c == 'µ'
}

/// The most seconds that a number `value` (with any fraction) followed by
/// a unit whose name starts with `first` and `second` can add, carries of
/// nanoseconds included. By the documented units: `n…`, `u…` and `µs` are
/// below a second, `s…` seconds, `m…` milliseconds or minutes, `mo…`
/// and `M` months (30.44 days), `h…` hours, `d…` days, `w…` weeks, and
/// anything else at most a year (365.25 days).
pub open spec fn span_seconds_bound(value: nat, first: char, second: char) -> nat {
    if first == 'n' || first == 'u' || first == 'µ' {
        value / 1000 + 2
    } else if first == 's' {
        value + 2
    } else if first == 'm' && second != 'o' {
        value * 60 + 61
    } else if first == 'h' {
        value * 3600 + 3601
    } else if first == 'd' {
        value * 86400 + 86401
    } else if first == 'w' {
        value * 604800 + 604801
    } else if first == 'm' || first == 'M' {
        value * 2630016 + 2630017
    } else {
        value * 31557600 + 31557601
    }
}

/// Where a scan of a duration text stands: the integer part of the number
/// being read, the bound so far, whether a fraction or a unit's name is
/// being read, and a number whose unit's first letter has been seen and
/// whose second character is awaited.
pub struct DurationScan {
    pub value: nat,
    pub total: nat,
    pub fraction: bool,
    pub in_word: bool,
    pub held: Option<(nat, char)>,
}

/// The scan before the first character.
pub open spec fn scan_start() -> DurationScan {
    DurationScan { value: 0, total: 0, fraction: false, in_word: false, held: None }
}

/// Adds the held number's bound, now that `c` follows its unit's first letter.
pub open spec fn scan_flush(s: DurationScan, c: char) -> DurationScan {
    match s.held {
        Some((v, f)) => DurationScan {
            value: s.value,
            total: s.total + span_seconds_bound(v, f, c),
            fraction: s.fraction,
            in_word: s.in_word,
            held: None,
        },
        None => s,
    }
}

/// The scan after the character `c`: digits make up the number (those of a
/// fraction are left out, as a fraction adds less than one unit), the
/// first letter of a unit's name holds the number until the next
/// character, `.` starts a fraction, and anything else ends a name.
pub open spec fn scan_step(s0: DurationScan, c: char) -> DurationScan {
    let s = scan_flush(s0, c);
    if is_digit(c) {
        DurationScan {
            value: if s.fraction { s.value } else { s.value * 10 + digit_value(c) },
            total: s.total,
            fraction: s.fraction,
            in_word: false,
            held: s.held,
        }
    } else if unit_letter(c) {
        if s.in_word {
            s
        } else {
            DurationScan { value: 0, total: s.total, fraction: false, in_word: true, held: Some((s.value, c)) }
        }
    } else if c == '.' {
        DurationScan { value: s.value, total: s.total, fraction: true, in_word: false, held: s.held }
    } else {
        DurationScan { value: s.value, total: s.total, fraction: s.fraction, in_word: false, held: s.held }
    }
}

/// The scan from `s` over the characters `cs`.
pub open spec fn scan(s: DurationScan, cs: Seq<char>) -> DurationScan
    decreases cs.len(),
{
    if cs.len() == 0 {
        s
    } else {
        scan(scan_step(s, cs[0]), cs.drop_first())
    }
}

/// The bound when the text ends: a held number counts with its unit, and a
/// number without a unit as if it counted years.
pub open spec fn scan_finish(s: DurationScan) -> nat {
    let held = match s.held {
        Some((v, f)) => span_seconds_bound(v, f, ' '),
        None => 0,
    };
    s.total + held + s.value * 31557600
}

/// The most seconds that `text` can stand for when `humantime` reads it.
pub open spec fn duration_bound(text: Seq<char>) -> nat {
    scan_finish(scan(scan_start(), text))
}

/// A number this large adds more than `u64::MAX` seconds, whatever its unit.
pub open spec fn value_cap() -> nat {
    18446744073709551615000
}

/// The scan has already gone beyond `u64::MAX` seconds, or holds a number
/// that will.
pub open spec fn scan_beyond(s: DurationScan) -> bool {
    ||| s.total > u64::MAX
    ||| s.value >= value_cap()
    ||| (s.held matches Some((v, f)) && v >= value_cap())
}

proof fn lemma_bound_at_least(v: nat, f: char, c: char)
    ensures
        span_seconds_bound(v, f, c) >= v / 1000 + 2,
{
    assert(v / 1000 <= v) by (nonlinear_arith);
    assert(v <= v * 60) by (nonlinear_arith);
    assert(v <= v * 3600) by (nonlinear_arith);
    assert(v <= v * 86400) by (nonlinear_arith);
    assert(v <= v * 604800) by (nonlinear_arith);
    assert(v <= v * 2630016) by (nonlinear_arith);
    assert(v <= v * 31557600) by (nonlinear_arith);
}

proof fn lemma_step_beyond(s: DurationScan, c: char)
    requires
        scan_beyond(s),
    ensures
        scan_beyond(scan_step(s, c)),
{
    if let Some((v, f)) = s.held {
        lemma_bound_at_least(v, f, c);
    }
    let t = scan_flush(s, c);
    assert(t.total >= s.total);
    if is_digit(c) && !t.fraction {
        assert(t.value * 10 + digit_value(c) >= t.value);
    }
}

proof fn lemma_scan_beyond(s: DurationScan, cs: Seq<char>)
    requires
        scan_beyond(s),
    ensures
        scan_beyond(scan(s, cs)),
    decreases cs.len(),
{
    if cs.len() > 0 {
        lemma_step_beyond(s, cs[0]);
        lemma_scan_beyond(scan_step(s, cs[0]), cs.drop_first());
    }
}

proof fn lemma_finish_beyond(s: DurationScan)
    requires
        scan_beyond(s),
    ensures
        scan_finish(s) > u64::MAX,
{
    if let Some((v, f)) = s.held {
        lemma_bound_at_least(v, f, ' ');
    }
    assert(s.value <= s.value * 31557600) by (nonlinear_arith);
}

/// The bound of the unit that `first` and `second` start, for a number
/// below the cap.
fn span_bound(value: u128, first: char, second: char) -> (r: u128)
    requires
        value < value_cap(),
    ensures
        r == span_seconds_bound(value as nat, first, second),
{
    if first == 'n' || first == 'u' || first == 'µ' {
        value / 1000 + 2
    } else if first == 's' {
        value + 2
    } else if first == 'm' && second != 'o' {
        value * 60 + 61
    } else if first == 'h' {
        value * 3600 + 3601
    } else if first == 'd' {
        value * 86400 + 86401
    } else if first == 'w' {
        value * 604800 + 604801
    } else if first == 'm' || first == 'M' {
        value * 2630016 + 2630017
    } else {
        value * 31557600 + 31557601
    }
}

/// Whether `humantime` reads `text` without reaching `u64::MAX` seconds,
/// by the bound on what the text can stand for.
pub fn duration_in_range(text: &str) -> (r: bool)
    ensures
        r == (duration_bound(text@) <= u64::MAX),
{
    let cs = chars_of(text);
    let cap: u128 = 18446744073709551615000;
    let max: u128 = 18446744073709551615;
    let mut value: u128 = 0;
    let mut total: u128 = 0;
    let mut fraction = false;
    let mut in_word = false;
    let mut held: Option<(u128, char)> = None;
    let mut i: usize = 0;
    assert(cs@.skip(0) =~= text@);
    while i < cs.len()
        invariant
            cs@ == text@,
            i <= cs@.len(),
            value < cap,
            total <= max,
            held matches Some((v, f)) ==> v < cap,
            cap == value_cap(),
            max == u64::MAX,
            scan(
                DurationScan {
                    value: value as nat,
                    total: total as nat,
                    fraction,
                    in_word,
                    held: match held {
                        Some((v, f)) => Some((v as nat, f)),
                        None => None,
                    },
                },
                cs@.skip(i as int),
            ) == scan(scan_start(), text@),
        decreases cs@.len() - i,
    {
        let ghost before = DurationScan {
            value: value as nat,
            total: total as nat,
            fraction,
            in_word,
            held: match held {
                Some((v, f)) => Some((v as nat, f)),
                None => None,
            },
        };
        let c = cs[i];
        match held {
            Some((v, f)) => {
                total = total + span_bound(v, f, c);
                held = None;
            },
            None => {},
        }
        if c >= '0' && c <= '9' {
            if !fraction {
                value = value * 10 + ((c as u128) - ('0' as u128));
            }
            in_word = false;
        } else if ('a' <= c && c <= 'z') || ('A' <= c && c <= 'Z') || c == 'µ' {
            if !in_word {
                held = Some((value, c));
                value = 0;
                fraction = false;
                in_word = true;
            }
        } else if c == '.' {
            fraction = true;
            in_word = false;
        } else {
            in_word = false;
        }
        let ghost after = DurationScan {
            value: value as nat,
            total: total as nat,
            fraction,
            in_word,
            held: match held {
                Some((v, f)) => Some((v as nat, f)),
                None => None,
            },
        };
        assert(after == scan_step(before, c));
        assert(cs@.skip(i as int).drop_first() =~= cs@.skip(i + 1));
        i = i + 1;
        let held_beyond = match held {
            Some((v, f)) => v >= cap,
            None => false,
        };
        if total > max || value >= cap || held_beyond {
            proof {
                lemma_scan_beyond(after, cs@.skip(i as int));
                lemma_finish_beyond(scan(scan_start(), text@));
            }
            return false;
        }
    }
    assert(cs@.skip(i as int) =~= Seq::<char>::empty());
    let held_bound: u128 = match held {
        Some((v, f)) => span_bound(v, f, ' '),
        None => 0,
    };
    total + held_bound + value * 31557600 <= max
}

} // verus!
