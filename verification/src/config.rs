//! Deferred configuration values: a value is either an already-parsed
//! typed value or a raw string, parsed on demand when the value is
//! actually needed. Malformed raw strings are only diagnosed at that
//! point, never at assignment.

use vstd::prelude::*;

use crate::decimal::{
    all_digits, dec_digits, digit_val, digit_val_of, digits_val, is_digit,
    lemma_dec_digits_are_digits, lemma_digits_round_trip, u64_to_decimal,
};
use crate::duration::{parse_duration, parse_duration_spec, Duration};
use crate::strutil::str_eq;

verus! {

/// A configuration value type: it can be parsed from a string and
/// formatted back to its canonical notation, and the two directions
/// agree.
pub trait ConfigParse: Sized + Copy {
    /// The well-formedness invariant of the type; parsing only yields
    /// values satisfying it.
    spec fn inv(self) -> bool;

    /// The value denoted by `s`, if `s` denotes one.
    spec fn parse_spec(s: Seq<char>) -> Option<Self>;

    /// The canonical notation of this value.
    spec fn canonical(self) -> Seq<char>;

    /// Parsing the canonical notation of a well-formed value yields that
    /// value back.
    proof fn canonical_round_trip(self)
        requires
            self.inv(),
        ensures
            Self::parse_spec(self.canonical()) == Some(self),
    ;

    /// Whatever parses is well-formed.
    proof fn parse_yields_inv(s: Seq<char>)
        ensures
            Self::parse_spec(s) matches Some(t) ==> t.inv(),
    ;

    /// Parse `s`; `None` exactly when `s` denotes no value.
    fn parse_conf(s: &str) -> (r: Option<Self>)
        ensures
            r == Self::parse_spec(s@),
    ;

    /// Format this value in its canonical notation.
    fn format_conf(self) -> (r: String)
        ensures
            r@ == self.canonical(),
    ;
}

/// A nonempty all-digit string, read in base ten.
pub open spec fn count_parse(s: Seq<char>) -> Option<nat> {
    if s.len() > 0 && all_digits(s) {
        Some(digits_val(s))
    } else {
        None
    }
}

/// Parse a nonempty string of decimal digits as a `u64`; `None` when the
/// string holds anything else or the value does not fit.
pub fn parse_u64_digits(s: &str) -> (r: Option<u64>)
    ensures
        match count_parse(s@) {
            Option::Some(n) => if n <= u64::MAX {
                r == Some(n as u64)
            } else {
                r is None
            },
            Option::None => r is None,
        },
{
    let n = s.unicode_len();
    if n == 0 {
        return None;
    }
    let mut i: usize = 0;
    let mut v: u64 = 0;
    let mut vover: bool = false;
    while i < n
        invariant
            n == s@.len(),
            i <= n,
            forall|k: int| 0 <= k < i ==> is_digit(#[trigger] s@[k]),
            !vover ==> v as nat == digits_val(s@.subrange(0, i as int)),
            vover ==> digits_val(s@.subrange(0, i as int)) > u64::MAX,
        decreases n - i,
    {
        let c = s.get_char(i);
        let d = digit_val_of(c);
        if d >= 10 {
            // a non-digit: the string is no count at all
            return None;
        }
        proof {
            assert(s@.subrange(0, i as int + 1).drop_last() =~= s@.subrange(0, i as int));
            assert(s@.subrange(0, i as int + 1).last() == s@[i as int]);
        }
        if vover {
        } else if v > (u64::MAX - d) / 10 {
            proof {
                let w = v as nat;
                assert(w * 10 + digit_val(s@[i as int]) > u64::MAX) by (nonlinear_arith)
                    requires
                        w > (u64::MAX - digit_val(s@[i as int])) / 10,
                        digit_val(s@[i as int]) < 10,
                ;
            }
            vover = true;
        } else {
            proof {
                let w = v as nat;
                assert(w * 10 + d as nat <= u64::MAX) by (nonlinear_arith)
                    requires
                        w <= (u64::MAX - d as nat) / 10,
                        d < 10,
                ;
            }
            v = v * 10 + d;
        }
        i = i + 1;
    }
    proof {
        assert(s@.subrange(0, n as int) =~= s@);
    }
    if vover {
        None
    } else {
        Some(v)
    }
}

impl ConfigParse for bool {
    open spec fn inv(self) -> bool {
        true
    }

    /// The strings `"true"` and `"false"`, and nothing else.
    open spec fn parse_spec(s: Seq<char>) -> Option<bool> {
        if s == "true"@ {
            Some(true)
        } else if s == "false"@ {
            Some(false)
        } else {
            None
        }
    }

    open spec fn canonical(self) -> Seq<char> {
        if self {
            "true"@
        } else {
            "false"@
        }
    }

    proof fn canonical_round_trip(self) {
        reveal_strlit("true");
        reveal_strlit("false");
        assert("true"@.len() == 4);
        assert("false"@.len() == 5);
    }

    proof fn parse_yields_inv(s: Seq<char>) {
    }

    fn parse_conf(s: &str) -> (r: Option<bool>) {
        if str_eq(s, "true") {
            Some(true)
        } else if str_eq(s, "false") {
            Some(false)
        } else {
            None
        }
    }

    fn format_conf(self) -> (r: String) {
        if self {
            "true".to_owned()
        } else {
            "false".to_owned()
        }
    }
}

impl ConfigParse for Duration {
    /// Durations must be well-formed: the nanosecond part stays below one
    /// second.
    open spec fn inv(self) -> bool {
        self.wf()
    }

    /// The duration notation of the `duration` module.
    open spec fn parse_spec(s: Seq<char>) -> Option<Duration> {
        parse_duration_spec(s)
    }

    open spec fn canonical(self) -> Seq<char> {
        Duration::canonical(self)
    }

    proof fn canonical_round_trip(self) {
        crate::duration::lemma_canonical_round_trip(self);
    }

    proof fn parse_yields_inv(s: Seq<char>) {
    }

    fn parse_conf(s: &str) -> (r: Option<Duration>) {
        parse_duration(s)
    }

    fn format_conf(self) -> (r: String) {
        self.format()
    }
}

impl ConfigParse for usize {
    open spec fn inv(self) -> bool {
        true
    }

    /// A nonempty digit string whose value fits the type.
    open spec fn parse_spec(s: Seq<char>) -> Option<usize> {
        match count_parse(s) {
            Option::None => None,
            Option::Some(n) => {
                if n <= usize::MAX {
                    Some(n as usize)
                } else {
                    None
                }
            },
        }
    }

    open spec fn canonical(self) -> Seq<char> {
        dec_digits(self as nat)
    }

    proof fn canonical_round_trip(self) {
        lemma_dec_digits_are_digits(self as nat);
        lemma_digits_round_trip(self as nat);
    }

    proof fn parse_yields_inv(s: Seq<char>) {
    }

    fn parse_conf(s: &str) -> (r: Option<usize>) {
        match parse_u64_digits(s) {
            Option::None => None,
            Option::Some(v) => {
                if v <= usize::MAX as u64 {
                    Some(v as usize)
                } else {
                    None
                }
            },
        }
    }

    fn format_conf(self) -> (r: String) {
        u64_to_decimal(self as u64)
    }
}

impl ConfigParse for u32 {
    open spec fn inv(self) -> bool {
        true
    }

    /// A nonempty digit string whose value fits the type.
    open spec fn parse_spec(s: Seq<char>) -> Option<u32> {
        match count_parse(s) {
            Option::None => None,
            Option::Some(n) => {
                if n <= u32::MAX {
                    Some(n as u32)
                } else {
                    None
                }
            },
        }
    }

    open spec fn canonical(self) -> Seq<char> {
        dec_digits(self as nat)
    }

    proof fn canonical_round_trip(self) {
        lemma_dec_digits_are_digits(self as nat);
        lemma_digits_round_trip(self as nat);
    }

    proof fn parse_yields_inv(s: Seq<char>) {
    }

    fn parse_conf(s: &str) -> (r: Option<u32>) {
        match parse_u64_digits(s) {
            Option::None => None,
            Option::Some(v) => {
                if v <= u32::MAX as u64 {
                    Some(v as u32)
                } else {
                    None
                }
            },
        }
    }

    fn format_conf(self) -> (r: String) {
        u64_to_decimal(self as u64)
    }
}

/// A configuration value: either already parsed, or a raw string kept
/// verbatim and parsed only on demand.
#[derive(Clone, Debug)]
pub enum ConfigValue<T> {
    /// An already-parsed typed value.
    Parsed(T),
    /// A raw string, to be parsed when the value is needed.
    Deferred(String),
}

/// The mathematical model of a [`ConfigValue`]: the typed value, or the
/// characters of the raw deferred string.
pub enum CvView<T> {
    /// An already-parsed typed value.
    Parsed(T),
    /// The characters of a raw string.
    Deferred(Seq<char>),
}

impl<T: ConfigParse> View for ConfigValue<T> {
    type V = CvView<T>;

    open spec fn view(&self) -> CvView<T> {
        match self {
            ConfigValue::Parsed(t) => CvView::Parsed(*t),
            ConfigValue::Deferred(s) => CvView::Deferred(s@),
        }
    }
}

/// The typed value a configuration value holds: a parsed value itself, a
/// deferred string whatever it denotes.
pub open spec fn cv_resolve<T: ConfigParse>(v: CvView<T>) -> Option<T> {
    match v {
        CvView::Parsed(t) => Some(t),
        CvView::Deferred(s) => T::parse_spec(s),
    }
}

/// The display form: a deferred value shows its original raw string, a
/// parsed value its canonical notation.
pub open spec fn cv_display<T: ConfigParse>(v: CvView<T>) -> Seq<char> {
    match v {
        CvView::Parsed(t) => t.canonical(),
        CvView::Deferred(s) => s,
    }
}

impl<T: ConfigParse> ConfigValue<T> {
    /// The typed value this holds: a parsed value itself, a deferred
    /// string whatever it denotes.
    pub open spec fn resolve_spec(self) -> Option<T> {
        cv_resolve(self@)
    }

    /// The display form: a deferred value shows its original raw string,
    /// a parsed value its canonical notation.
    pub open spec fn display_spec(self) -> Seq<char> {
        cv_display(self@)
    }

    /// Resolve to the typed value, parsing a deferred string on demand.
    /// `None` exactly when a deferred string is malformed.
    pub fn get(&self) -> (r: Option<T>)
        ensures
            r == self.resolve_spec(),
    {
        match self {
            ConfigValue::Parsed(t) => Some(*t),
            ConfigValue::Deferred(s) => T::parse_conf(s.as_str()),
        }
    }

    /// The display form of this value.
    pub fn display(&self) -> (r: String)
        ensures
            r@ == self.display_spec(),
    {
        match self {
            ConfigValue::Parsed(t) => t.format_conf(),
            ConfigValue::Deferred(s) => s.clone(),
        }
    }
}

/// Re-parsing the display form of a configuration value resolves to
/// exactly what the value itself resolves to: storing what a value
/// reports reconstructs an equivalent value. A deferred value shows its
/// raw string, so the two sides parse the same characters; a parsed
/// value must be well-formed, which parsing itself always guarantees.
pub proof fn lemma_display_reparse<T: ConfigParse>(v: CvView<T>)
    requires
        v matches CvView::Parsed(t) ==> t.inv(),
    ensures
        T::parse_spec(cv_display(v)) == cv_resolve(v),
{
    match v {
        CvView::Parsed(t) => t.canonical_round_trip(),
        CvView::Deferred(_) => {},
    }
}

} // verus!
