//! Spans of time with nanosecond precision, their human-readable notation
//! (a sequence of `<count> <unit>` groups such as `"90 seconds"` or
//! `"1500ms"`), and verified parsing and formatting between the two.

use vstd::prelude::*;

use crate::decimal::{
    dec_digits, digit_val, digit_val_of, digits_val, is_digit, lemma_dec_digits_are_digits,
    lemma_digits_round_trip, u128_to_decimal,
};
use crate::strutil::str_eq;

verus! {

/// Total nanoseconds of the largest representable duration:
/// `u64::MAX` whole seconds plus `999_999_999` nanoseconds.
pub const MAX_DURATION_NANOS: u128 = 18_446_744_073_709_551_615_999_999_999;

/// A span of time: whole seconds and a sub-second nanosecond part.
///
/// A well-formed value keeps the nanosecond part below one second; every
/// constructor of this module establishes that.
#[derive(Clone, Copy, Debug, PartialEq, Eq, Hash, Structural)]
pub struct Duration {
    /// Whole seconds.
    pub secs: u64,
    /// Sub-second part, in nanoseconds.
    pub nanos: u32,
}

impl View for Duration {
    type V = nat;

    /// A duration is modeled as its total length in nanoseconds.
    open spec fn view(&self) -> nat {
        self.secs as nat * 1_000_000_000 + self.nanos as nat
    }
}

impl Duration {
    /// The nanosecond part stays below one second.
    pub open spec fn wf(self) -> bool {
        self.nanos < 1_000_000_000
    }

    /// A duration of `secs` whole seconds.
    pub fn from_secs(secs: u64) -> (r: Duration)
        ensures
            r.wf(),
            r@ == secs as nat * 1_000_000_000,
            r.secs == secs,
            r.nanos == 0,
    {
        Duration { secs, nanos: 0 }
    }

    /// A duration of `secs` whole seconds and `nanos` extra nanoseconds.
    pub fn new(secs: u64, nanos: u32) -> (r: Duration)
        requires
            nanos < 1_000_000_000,
        ensures
            r.wf(),
            r@ == secs as nat * 1_000_000_000 + nanos as nat,
    {
        Duration { secs, nanos }
    }

    /// The duration whose total length is `total` nanoseconds.
    pub fn from_total_nanos(total: u128) -> (r: Duration)
        requires
            total <= MAX_DURATION_NANOS,
        ensures
            r.wf(),
            r@ == total as nat,
    {
        proof {
            lemma_nanos_split(total as nat);
        }
        let secs = (total / 1_000_000_000) as u64;
        let nanos = (total % 1_000_000_000) as u32;
        Duration { secs, nanos }
    }

    /// Two well-formed durations of the same total length are the same
    /// value.
    pub proof fn lemma_view_injective(a: Duration, b: Duration)
        requires
            a.wf(),
            b.wf(),
            a@ == b@,
        ensures
            a == b,
    {
        assert(a.secs == b.secs && a.nanos == b.nanos) by (nonlinear_arith)
            requires
                a.secs as nat * 1_000_000_000 + a.nanos as nat == b.secs as nat * 1_000_000_000
                    + b.nanos as nat,
                a.nanos < 1_000_000_000,
                b.nanos < 1_000_000_000,
        ;
    }

    /// The canonical notation of this duration: whole seconds are written
    /// with the `s` unit, anything finer as a total count of nanoseconds.
    pub open spec fn canonical(self) -> Seq<char> {
        if self.nanos == 0 {
            dec_digits(self.secs as nat) + "s"@
        } else {
            dec_digits(self@) + "ns"@
        }
    }

    /// Format this duration in its canonical notation.
    pub fn format(&self) -> (r: String)
        ensures
            r@ == self.canonical(),
    {
        if self.nanos == 0 {
            let mut s = u128_to_decimal(self.secs as u128);
            s.append("s");
            s
        } else {
            let total: u128 = self.secs as u128 * 1_000_000_000 + self.nanos as u128;
            let mut s = u128_to_decimal(total);
            s.append("ns");
            s
        }
    }
}

/// Splitting a nanosecond total at one second recovers it.
proof fn lemma_nanos_split(n: nat)
    requires
        n <= MAX_DURATION_NANOS,
    ensures
        n / 1_000_000_000 <= u64::MAX,
        n % 1_000_000_000 < 1_000_000_000,
        (n / 1_000_000_000) * 1_000_000_000 + n % 1_000_000_000 == n,
{
    assert(n / 1_000_000_000 <= u64::MAX && n % 1_000_000_000 < 1_000_000_000 && (n
        / 1_000_000_000) * 1_000_000_000 + n % 1_000_000_000 == n) by (nonlinear_arith)
        requires
            n <= MAX_DURATION_NANOS,
    ;
}

/// Whether `c` separates tokens of the duration notation.
pub open spec fn is_space(c: char) -> bool {
    c == ' '
}

/// Whether `c` can appear in a unit word.
pub open spec fn is_unit_letter(c: char) -> bool {
    'a' <= c && c <= 'z'
}

/// The first position at or after `i` that does not hold a digit.
pub open spec fn digit_run_end(s: Seq<char>, i: int) -> int
    decreases s.len() - i,
{
    if !(0 <= i < s.len()) {
        i
    } else if is_digit(s[i]) {
        digit_run_end(s, i + 1)
    } else {
        i
    }
}

/// The first position at or after `i` that does not hold a space.
pub open spec fn space_run_end(s: Seq<char>, i: int) -> int
    decreases s.len() - i,
{
    if !(0 <= i < s.len()) {
        i
    } else if is_space(s[i]) {
        space_run_end(s, i + 1)
    } else {
        i
    }
}

/// The first position at or after `i` that does not hold a unit letter.
pub open spec fn unit_run_end(s: Seq<char>, i: int) -> int
    decreases s.len() - i,
{
    if !(0 <= i < s.len()) {
        i
    } else if is_unit_letter(s[i]) {
        unit_run_end(s, i + 1)
    } else {
        i
    }
}

/// The length in nanoseconds of one unit named `u`, or 0 for an
/// unrecognized unit word.
pub open spec fn unit_mult(u: Seq<char>) -> nat {
    if u == "ns"@ || u == "nsec"@ || u == "nanos"@ {
        1
    } else if u == "us"@ || u == "usec"@ || u == "micros"@ {
        1_000
    } else if u == "ms"@ || u == "msec"@ || u == "millis"@ {
        1_000_000
    } else if u == "s"@ || u == "sec"@ || u == "secs"@ || u == "second"@ || u == "seconds"@ {
        1_000_000_000
    } else if u == "m"@ || u == "min"@ || u == "mins"@ || u == "minute"@ || u == "minutes"@ {
        60_000_000_000
    } else if u == "h"@ || u == "hr"@ || u == "hrs"@ || u == "hour"@ || u == "hours"@ {
        3_600_000_000_000
    } else if u == "d"@ || u == "day"@ || u == "days"@ {
        86_400_000_000_000
    } else if u == "w"@ || u == "week"@ || u == "weeks"@ {
        604_800_000_000_000
    } else if u == "month"@ || u == "months"@ {
        2_630_016_000_000_000
    } else if u == "year"@ || u == "years"@ {
        31_557_600_000_000_000
    } else {
        0
    }
}

/// The total nanoseconds denoted by the groups of the duration notation
/// from position `i` on: a digit run, an optional space run, a known unit
/// word, and either the end of the string or further groups.
pub open spec fn parse_groups(s: Seq<char>, i: int) -> Option<nat>
    decreases s.len() - i,
    when 0 <= i
    via parse_groups_decreases
{
    let j = digit_run_end(s, i);
    if j == i {
        None
    } else {
        let v = digits_val(s.subrange(i, j));
        let k = space_run_end(s, j);
        let l = unit_run_end(s, k);
        if l == k {
            None
        } else {
            let m = unit_mult(s.subrange(k, l));
            if m == 0 {
                None
            } else {
                let rest = space_run_end(s, l);
                if rest >= s.len() {
                    Some(v * m)
                } else {
                    match parse_groups(s, rest) {
                        Option::None => None,
                        Option::Some(r) => Some(v * m + r),
                    }
                }
            }
        }
    }
}

#[via_fn]
proof fn parse_groups_decreases(s: Seq<char>, i: int) {
    if i <= s.len() {
        lemma_digit_run_end_bounds(s, i);
        let j = digit_run_end(s, i);
        lemma_space_run_end_bounds(s, j);
        let k = space_run_end(s, j);
        lemma_unit_run_end_bounds(s, k);
        let l = unit_run_end(s, k);
        lemma_space_run_end_bounds(s, l);
    }
}

/// The total nanoseconds denoted by `s`: optional leading spaces, then at
/// least one group. `None` when `s` does not follow the notation.
pub open spec fn parse_duration_nanos(s: Seq<char>) -> Option<nat> {
    parse_groups(s, space_run_end(s, 0))
}

/// The duration denoted by `s`: its nanosecond total, when that fits the
/// representable range.
pub open spec fn parse_duration_spec(s: Seq<char>) -> Option<Duration> {
    match parse_duration_nanos(s) {
        Option::None => None,
        Option::Some(n) => {
            if n <= MAX_DURATION_NANOS {
                Some(
                    Duration {
                        secs: (n / 1_000_000_000) as u64,
                        nanos: (n % 1_000_000_000) as u32,
                    },
                )
            } else {
                None
            }
        },
    }
}

/// A digit run stays within the string and holds digits exactly up to its
/// end.
pub proof fn lemma_digit_run_end_bounds(s: Seq<char>, i: int)
    requires
        0 <= i <= s.len(),
    ensures
        i <= digit_run_end(s, i) <= s.len(),
        forall|k: int| i <= k < digit_run_end(s, i) ==> is_digit(#[trigger] s[k]),
        digit_run_end(s, i) == s.len() || !is_digit(s[digit_run_end(s, i)]),
    decreases s.len() - i,
{
    if i < s.len() && is_digit(s[i]) {
        lemma_digit_run_end_bounds(s, i + 1);
    }
}

/// A space run stays within the string and holds spaces exactly up to its
/// end.
pub proof fn lemma_space_run_end_bounds(s: Seq<char>, i: int)
    requires
        0 <= i <= s.len(),
    ensures
        i <= space_run_end(s, i) <= s.len(),
        forall|k: int| i <= k < space_run_end(s, i) ==> is_space(#[trigger] s[k]),
        space_run_end(s, i) == s.len() || !is_space(s[space_run_end(s, i)]),
    decreases s.len() - i,
{
    if i < s.len() && is_space(s[i]) {
        lemma_space_run_end_bounds(s, i + 1);
    }
}

/// A unit run stays within the string and holds unit letters exactly up to
/// its end.
pub proof fn lemma_unit_run_end_bounds(s: Seq<char>, i: int)
    requires
        0 <= i <= s.len(),
    ensures
        i <= unit_run_end(s, i) <= s.len(),
        forall|k: int| i <= k < unit_run_end(s, i) ==> is_unit_letter(#[trigger] s[k]),
        unit_run_end(s, i) == s.len() || !is_unit_letter(s[unit_run_end(s, i)]),
    decreases s.len() - i,
{
    if i < s.len() && is_unit_letter(s[i]) {
        lemma_unit_run_end_bounds(s, i + 1);
    }
}


/// `o` with `a` added to its value, when it has one.
pub open spec fn opt_add(a: nat, o: Option<nat>) -> Option<nat> {
    match o {
        Option::None => None,
        Option::Some(r) => Some(a + r),
    }
}

/// Whether `c` is a decimal digit (executable form).
fn is_digit_char(c: char) -> (r: bool)
    ensures
        r == is_digit(c),
{
    let d = digit_val_of(c);
    d < 10
}

/// Whether `c` separates tokens (executable form).
fn is_space_char(c: char) -> (r: bool)
    ensures
        r == is_space(c),
{
    c == ' '
}

/// Whether `c` can appear in a unit word (executable form).
fn is_unit_letter_char(c: char) -> (r: bool)
    ensures
        r == is_unit_letter(c),
{
    'a' <= c && c <= 'z'
}

/// The nanoseconds of one unit named `u`, or 0 when unrecognized
/// (executable form).
fn unit_mult_of(u: &str) -> (r: u64)
    ensures
        r as nat == unit_mult(u@),
{
    if str_eq(u, "ns") || str_eq(u, "nsec") || str_eq(u, "nanos") {
        1
    } else if str_eq(u, "us") || str_eq(u, "usec") || str_eq(u, "micros") {
        1_000
    } else if str_eq(u, "ms") || str_eq(u, "msec") || str_eq(u, "millis") {
        1_000_000
    } else if str_eq(u, "s") || str_eq(u, "sec") || str_eq(u, "secs") || str_eq(u, "second")
        || str_eq(u, "seconds") {
        1_000_000_000
    } else if str_eq(u, "m") || str_eq(u, "min") || str_eq(u, "mins") || str_eq(u, "minute")
        || str_eq(u, "minutes") {
        60_000_000_000
    } else if str_eq(u, "h") || str_eq(u, "hr") || str_eq(u, "hrs") || str_eq(u, "hour") || str_eq(
        u,
        "hours",
    ) {
        3_600_000_000_000
    } else if str_eq(u, "d") || str_eq(u, "day") || str_eq(u, "days") {
        86_400_000_000_000
    } else if str_eq(u, "w") || str_eq(u, "week") || str_eq(u, "weeks") {
        604_800_000_000_000
    } else if str_eq(u, "month") || str_eq(u, "months") {
        2_630_016_000_000_000
    } else if str_eq(u, "year") || str_eq(u, "years") {
        31_557_600_000_000_000
    } else {
        0
    }
}

/// Parse the duration notation: one or more `<count> <unit>` groups, with
/// optional spaces around tokens. Yields exactly the duration the
/// notation denotes, or `None` when `s` does not follow the notation or
/// denotes a length beyond the representable range.
pub fn parse_duration(s: &str) -> (r: Option<Duration>)
    ensures
        r == parse_duration_spec(s@),
{
    let n = s.unicode_len();
    let mut i: usize = 0;
    while i < n && is_space_char(s.get_char(i))
        invariant
            n == s@.len(),
            i <= n,
            space_run_end(s@, 0) == space_run_end(s@, i as int),
        decreases n - i,
    {
        i = i + 1;
    }
    let ghost start0: int = i as int;
    proof {
        assert(space_run_end(s@, i as int) == i as int);
    }
    if i >= n {
        // nothing but spaces: no group can start here
        proof {
            assert(digit_run_end(s@, start0) == start0);
            assert(parse_groups(s@, start0) is None);
        }
        return None;
    }
    let mut acc: u128 = 0;
    let mut over: bool = false;
    let ghost mut g_acc: nat = 0nat;
    loop
        invariant
            n == s@.len(),
            i < n,
            !over ==> acc as nat == g_acc && acc <= MAX_DURATION_NANOS,
            over ==> g_acc > MAX_DURATION_NANOS,
            parse_duration_nanos(s@) == opt_add(g_acc, parse_groups(s@, i as int)),
        decreases n - i,
    {
        let ghost i0: int = i as int;
        let ghost g_acc0: nat = g_acc;
        // the count: a run of digits
        let dstart = i;
        let mut v: u128 = 0;
        let mut vover: bool = false;
        while i < n && is_digit_char(s.get_char(i))
            invariant
                n == s@.len(),
                dstart <= i <= n,
                dstart == i0,
                digit_run_end(s@, i0) == digit_run_end(s@, i as int),
                !vover ==> v as nat == digits_val(s@.subrange(i0, i as int)) && v
                    <= MAX_DURATION_NANOS,
                vover ==> digits_val(s@.subrange(i0, i as int)) > MAX_DURATION_NANOS,
            decreases n - i,
        {
            let c = s.get_char(i);
            let d = digit_val_of(c);
            proof {
                assert(s@.subrange(i0, i as int + 1).drop_last() =~= s@.subrange(i0, i as int));
                assert(s@.subrange(i0, i as int + 1).last() == s@[i as int]);
            }
            if vover {
                proof {
                    assert(digits_val(s@.subrange(i0, i as int + 1)) == digits_val(
                        s@.subrange(i0, i as int),
                    ) * 10 + digit_val(s@[i as int]));
                }
            } else if v > (MAX_DURATION_NANOS - d as u128) / 10 {
                proof {
                    let w = digits_val(s@.subrange(i0, i as int));
                    assert(w * 10 + digit_val(s@[i as int]) > MAX_DURATION_NANOS)
                        by (nonlinear_arith)
                        requires
                            w > (MAX_DURATION_NANOS - digit_val(s@[i as int])) / 10,
                            digit_val(s@[i as int]) < 10,
                    ;
                }
                vover = true;
            } else {
                proof {
                    let w = v as nat;
                    assert(w * 10 + d as nat <= MAX_DURATION_NANOS) by (nonlinear_arith)
                        requires
                            w <= (MAX_DURATION_NANOS - d as nat) / 10,
                            d < 10,
                    ;
                }
                v = v * 10 + d as u128;
            }
            i = i + 1;
        }
        proof {
            assert(digit_run_end(s@, i as int) == i as int);
        }
        let ghost j0: int = i as int;
        if i == dstart {
            // a group must begin with at least one digit
            proof {
                assert(parse_groups(s@, i0) is None);
            }
            return None;
        }
        let ghost g_v: nat = digits_val(s@.subrange(i0, j0));
        // optional spaces between count and unit
        while i < n && is_space_char(s.get_char(i))
            invariant
                n == s@.len(),
                j0 <= i as int <= n,
                space_run_end(s@, j0) == space_run_end(s@, i as int),
            decreases n - i,
        {
            i = i + 1;
        }
        proof {
            assert(space_run_end(s@, i as int) == i as int);
        }
        let ghost k0: int = i as int;
        // the unit word: a run of letters
        let ustart = i;
        while i < n && is_unit_letter_char(s.get_char(i))
            invariant
                n == s@.len(),
                ustart <= i <= n,
                ustart as int == k0,
                unit_run_end(s@, k0) == unit_run_end(s@, i as int),
            decreases n - i,
        {
            i = i + 1;
        }
        proof {
            assert(unit_run_end(s@, i as int) == i as int);
        }
        let ghost l0: int = i as int;
        if i == ustart {
            // a group must name its unit
            proof {
                assert(parse_groups(s@, i0) is None);
            }
            return None;
        }
        let unit = s.substring_char(ustart, i);
        let m = unit_mult_of(unit);
        if m == 0 {
            // not one of the recognized unit words
            proof {
                assert(parse_groups(s@, i0) is None);
            }
            return None;
        }
        let ghost g_mult: nat = unit_mult(s@.subrange(k0, l0));
        let ghost g_part: nat = g_v * g_mult;
        proof {
            g_acc = g_acc + g_part;
        }
        // fold this group into the running total, tracking overflow
        let mut part: u128 = 0;
        let mut part_over: bool = vover;
        if vover {
            proof {
                assert(g_v * g_mult >= g_v) by (nonlinear_arith)
                    requires
                        g_mult >= 1,
                ;
            }
        } else if v > MAX_DURATION_NANOS / (m as u128) {
            part_over = true;
            proof {
                assert(v as nat * g_mult > MAX_DURATION_NANOS) by (nonlinear_arith)
                    requires
                        v as nat > MAX_DURATION_NANOS as nat / g_mult,
                        g_mult >= 1,
                ;
            }
        } else {
            proof {
                assert(v as nat * g_mult <= MAX_DURATION_NANOS) by (nonlinear_arith)
                    requires
                        v as nat <= MAX_DURATION_NANOS as nat / g_mult,
                        g_mult >= 1,
                ;
            }
            part = v * (m as u128);
        }
        if over || part_over {
            over = true;
        } else if acc > MAX_DURATION_NANOS - part {
            over = true;
        } else {
            acc = acc + part;
        }
        // optional spaces after the unit
        while i < n && is_space_char(s.get_char(i))
            invariant
                n == s@.len(),
                l0 <= i as int <= n,
                space_run_end(s@, l0) == space_run_end(s@, i as int),
            decreases n - i,
        {
            i = i + 1;
        }
        proof {
            assert(space_run_end(s@, i as int) == i as int);
        }
        let ghost rest0: int = i as int;
        if i >= n {
            proof {
                assert(parse_groups(s@, i0) == Some(g_part));
                assert(parse_duration_nanos(s@) == Some(g_acc));
            }
            if over {
                return None;
            }
            let d = Duration::from_total_nanos(acc);
            proof {
                lemma_nanos_split(acc as nat);
                let spec_d = parse_duration_spec(s@)->Some_0;
                assert(spec_d.wf());
                assert(spec_d@ == acc as nat);
                Duration::lemma_view_injective(d, spec_d);
            }
            return Some(d);
        }
        proof {
            assert(parse_groups(s@, i0) == opt_add(g_part, parse_groups(s@, rest0)));
            assert(parse_duration_nanos(s@) == opt_add(g_acc, parse_groups(s@, i as int)));
        }
    }
}

/// A run end is determined by the characters: if everything from `i` up to
/// `j` satisfies the class and `j` is the end or breaks it, the run ends
/// at `j`.
pub proof fn lemma_digit_run_end_exact(s: Seq<char>, i: int, j: int)
    requires
        0 <= i <= j <= s.len(),
        forall|k: int| i <= k < j ==> is_digit(#[trigger] s[k]),
        j == s.len() || !is_digit(s[j]),
    ensures
        digit_run_end(s, i) == j,
    decreases j - i,
{
    if i < j {
        lemma_digit_run_end_exact(s, i + 1, j);
    }
}

/// Spaces: the run from `i` ends exactly at `j` under the same conditions.
pub proof fn lemma_space_run_end_exact(s: Seq<char>, i: int, j: int)
    requires
        0 <= i <= j <= s.len(),
        forall|k: int| i <= k < j ==> is_space(#[trigger] s[k]),
        j == s.len() || !is_space(s[j]),
    ensures
        space_run_end(s, i) == j,
    decreases j - i,
{
    if i < j {
        lemma_space_run_end_exact(s, i + 1, j);
    }
}

/// Unit letters: the run from `i` ends exactly at `j` under the same
/// conditions.
pub proof fn lemma_unit_run_end_exact(s: Seq<char>, i: int, j: int)
    requires
        0 <= i <= j <= s.len(),
        forall|k: int| i <= k < j ==> is_unit_letter(#[trigger] s[k]),
        j == s.len() || !is_unit_letter(s[j]),
    ensures
        unit_run_end(s, i) == j,
    decreases j - i,
{
    if i < j {
        lemma_unit_run_end_exact(s, i + 1, j);
    }
}


/// Parsing the canonical notation of a well-formed duration yields that
/// duration back.
#[verifier::rlimit(60)]
pub proof fn lemma_canonical_round_trip(d: Duration)
    requires
        d.wf(),
    ensures
        parse_duration_spec(d.canonical()) == Some(d),
{
    reveal_strlit("s");
    reveal_strlit("ns");
    reveal_strlit("nsec");
    reveal_strlit("nanos");
    reveal_strlit("us");
    reveal_strlit("usec");
    reveal_strlit("micros");
    reveal_strlit("ms");
    reveal_strlit("msec");
    reveal_strlit("millis");
    assert("s"@.len() == 1 && "s"@[0] == 's');
    assert("ns"@.len() == 2 && "ns"@[0] == 'n' && "ns"@[1] == 's');
    assert("nsec"@.len() == 4);
    assert("nanos"@.len() == 5);
    assert("us"@.len() == 2);
    assert("usec"@.len() == 4);
    assert("micros"@.len() == 6);
    assert("ms"@.len() == 2);
    assert("msec"@.len() == 4);
    assert("millis"@.len() == 6);
    assert(digit_val(' ') == 10);
    assert(digit_val('s') == 10);
    assert(digit_val('n') == 10);
    let s = d.canonical();
    if d.nanos == 0 {
        let ds = dec_digits(d.secs as nat);
        lemma_dec_digits_are_digits(d.secs as nat);
        let dlen = ds.len() as int;
        assert(s.len() == dlen + 1);
        assert(forall|k: int| 0 <= k < dlen ==> s[k] == #[trigger] ds[k]);
        assert(s[dlen] == 's');
        assert(forall|k: int| 0 <= k < dlen ==> is_digit(#[trigger] s[k]));
        assert(!is_space(s[0]));
        lemma_space_run_end_exact(s, 0, 0);
        lemma_digit_run_end_exact(s, 0, dlen);
        assert(s.subrange(0, dlen) =~= ds);
        lemma_digits_round_trip(d.secs as nat);
        assert(digits_val(s.subrange(0, dlen)) == d.secs as nat);
        lemma_space_run_end_exact(s, dlen, dlen);
        assert(is_unit_letter('s'));
        lemma_unit_run_end_exact(s, dlen, dlen + 1);
        let u = s.subrange(dlen, dlen + 1);
        assert(u =~= "s"@);
        assert(unit_mult(u) == 1_000_000_000);
        lemma_space_run_end_exact(s, dlen + 1, dlen + 1);
        assert(parse_groups(s, 0) == Some((d.secs as nat) * 1_000_000_000));
        assert(parse_duration_nanos(s) == Some((d.secs as nat) * 1_000_000_000));
        assert((d.secs as nat) * 1_000_000_000 <= MAX_DURATION_NANOS) by (nonlinear_arith)
            requires
                d.secs as nat <= 18_446_744_073_709_551_615,
        ;
        let n = (d.secs as nat) * 1_000_000_000;
        assert(n / 1_000_000_000 == d.secs as nat && n % 1_000_000_000 == 0) by (nonlinear_arith)
            requires
                n == (d.secs as nat) * 1_000_000_000,
        ;
        assert(parse_duration_spec(s) == Some(d));
    } else {
        let total = d@;
        let ds = dec_digits(total);
        lemma_dec_digits_are_digits(total);
        let dlen = ds.len() as int;
        assert(s.len() == dlen + 2);
        assert(forall|k: int| 0 <= k < dlen ==> s[k] == #[trigger] ds[k]);
        assert(s[dlen] == 'n');
        assert(s[dlen + 1] == 's');
        assert(forall|k: int| 0 <= k < dlen ==> is_digit(#[trigger] s[k]));
        assert(!is_space(s[0]));
        lemma_space_run_end_exact(s, 0, 0);
        lemma_digit_run_end_exact(s, 0, dlen);
        assert(s.subrange(0, dlen) =~= ds);
        lemma_digits_round_trip(total);
        assert(digits_val(s.subrange(0, dlen)) == total);
        lemma_space_run_end_exact(s, dlen, dlen);
        assert(is_unit_letter('n') && is_unit_letter('s'));
        lemma_unit_run_end_exact(s, dlen, dlen + 2);
        let u = s.subrange(dlen, dlen + 2);
        assert(u =~= "ns"@);
        assert(unit_mult(u) == 1);
        lemma_space_run_end_exact(s, dlen + 2, dlen + 2);
        assert(parse_groups(s, 0) == Some(total * 1));
        assert(parse_duration_nanos(s) == Some(total));
        assert(total <= MAX_DURATION_NANOS);
        assert(total / 1_000_000_000 == d.secs as nat && total % 1_000_000_000 == d.nanos as nat)
            by (nonlinear_arith)
            requires
                total == d.secs as nat * 1_000_000_000 + d.nanos as nat,
                d.nanos < 1_000_000_000,
        ;
        assert(parse_duration_spec(s) == Some(d));
    }
}

} // verus!
