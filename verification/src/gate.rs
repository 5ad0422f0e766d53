//! Validity gates: predicates over the session state that decide whether a
//! page's forward control may be activated. A gate is re-evaluated from the
//! live state on every attempted advance; it is never cached.
//!
//! The library ships a small closed set of gate capabilities: the constant
//! true gate, "a named slot holds a non-empty value", and "a named slot holds
//! a currency amount that parses to a positive number of cents".

use vstd::prelude::*;

use crate::state::StateStore;

verus! {

/// Whether `c` is a decimal digit.
pub open spec fn is_digit(c: char) -> bool {
    48 <= c as u32 <= 57
}

/// The numeric value of a digit (0 for any other character).
pub open spec fn digit_val(c: char) -> nat {
    if is_digit(c) {
        (c as u32 - 48) as nat
    } else {
        0
    }
}

/// Whether every character of `s` is a decimal digit.
pub open spec fn all_digits(s: Seq<char>) -> bool {
    forall|i: int| 0 <= i < s.len() ==> is_digit(#[trigger] s[i])
}

/// The number written in decimal by the digit string `s`.
pub open spec fn digits_val(s: Seq<char>) -> nat
    decreases s.len(),
{
    if s.len() == 0 {
        0
    } else {
        digits_val(s.drop_last()) * 10 + digit_val(s.last())
    }
}

/// Ten to the `n`.
pub open spec fn pow10(n: nat) -> nat
    decreases n,
{
    if n == 0 {
        1nat
    } else {
        10 * pow10((n - 1) as nat)
    }
}

/// A digit string of length `n` writes a number below ten to the `n`.
pub proof fn lemma_digits_val_bound(s: Seq<char>)
    ensures
        digits_val(s) < pow10(s.len()),
    decreases s.len(),
{
    if s.len() > 0 {
        lemma_digits_val_bound(s.drop_last());
    }
}

/// The index of the first `'.'` in `s`, or `s.len()` if there is none.
pub open spec fn dot_index(s: Seq<char>) -> int
    decreases s.len(),
{
    if s.len() == 0 {
        0
    } else if s[0] == '.' {
        0
    } else {
        1 + dot_index(s.skip(1))
    }
}

/// `dot_index` points at the first dot: it is in range, the character there
/// (if any) is a dot, and no earlier character is.
pub proof fn lemma_dot_index(s: Seq<char>)
    ensures
        0 <= dot_index(s) <= s.len(),
        dot_index(s) < s.len() ==> s[dot_index(s)] == '.',
        forall|j: int| 0 <= j < dot_index(s) ==> s[j] != '.',
    decreases s.len(),
{
    if s.len() > 0 && s[0] != '.' {
        lemma_dot_index(s.skip(1));
        assert forall|j: int| 0 <= j < dot_index(s) implies s[j] != '.' by {
            if j > 0 {
                assert(s.skip(1)[j - 1] != '.');
            }
        }
    }
}

/// The number of cents written by a currency string: an optional leading
/// `'$'`, then one to sixteen digits of whole units, then optionally a dot
/// and one or two digits of cents. Anything else (including an amount of more
/// than sixteen whole digits) does not parse.
pub open spec fn parse_cents(s: Seq<char>) -> Option<nat> {
    let t = if s.len() > 0 && s[0] == '$' {
        s.skip(1)
    } else {
        s
    };
    let d = dot_index(t);
    if d < t.len() {
        let whole = t.take(d);
        let frac = t.skip(d + 1);
        if all_digits(whole) && 1 <= whole.len() <= 16 && all_digits(frac) && 1 <= frac.len()
            <= 2 {
            Some(
                digits_val(whole) * 100 + if frac.len() == 1 {
                    digits_val(frac) * 10
                } else {
                    digits_val(frac)
                },
            )
        } else {
            None
        }
    } else {
        if all_digits(t) && 1 <= t.len() <= 16 {
            Some(digits_val(t) * 100)
        } else {
            None
        }
    }
}

/// `pow10` is monotone.
pub proof fn lemma_pow10_mono(a: nat, b: nat)
    requires
        a <= b,
    ensures
        pow10(a) <= pow10(b),
    decreases b,
{
    if a < b {
        lemma_pow10_mono(a, (b - 1) as nat);
        lemma_pow10_pos((b - 1) as nat);
    }
}

/// `pow10` is positive.
pub proof fn lemma_pow10_pos(n: nat)
    ensures
        pow10(n) >= 1,
    decreases n,
{
    if n > 0 {
        lemma_pow10_pos((n - 1) as nat);
    }
}

/// Reads the decimal number written by `s[from..to]`, if those characters are
/// all digits.
fn read_digits(s: &str, from: usize, to: usize) -> (r: Option<u64>)
    requires
        from <= to <= s@.len(),
        to - from <= 16,
    ensures
        match r {
            Some(v) => all_digits(s@.subrange(from as int, to as int)) && v
                == digits_val(s@.subrange(from as int, to as int)) && v < pow10(16),
            None => !all_digits(s@.subrange(from as int, to as int)),
        },
{
    proof {
        assert(pow10(16) == 10000000000000000) by {
            reveal_with_fuel(pow10, 17);
        }
    }
    let mut acc: u64 = 0;
    let mut k = from;
    while k < to
        invariant
            from <= k <= to <= s@.len(),
            to - from <= 16,
            all_digits(s@.subrange(from as int, k as int)),
            acc == digits_val(s@.subrange(from as int, k as int)),
            acc < pow10((k - from) as nat),
            pow10(16) == 10000000000000000,
        decreases to - k,
    {
        let c = s.get_char(k);
        let u = c as u32;
        if !(48 <= u && u <= 57) {
            proof {
                assert(s@.subrange(from as int, to as int)[k - from] == s@[k as int]);
            }
            return None;
        }
        proof {
            lemma_pow10_mono((k - from) as nat, 15);
            assert(pow10(15) == 1000000000000000) by {
                reveal_with_fuel(pow10, 16);
            }
            assert(s@.subrange(from as int, k + 1).drop_last() =~= s@.subrange(
                from as int,
                k as int,
            ));
        }
        acc = acc * 10 + ((u - 48) as u64);
        k = k + 1;
    }
    proof {
        lemma_pow10_mono((to - from) as nat, 16);
    }
    Some(acc)
}

/// Parses a currency string into a number of cents.
///
/// Accepts an optional leading `'$'`, then one to sixteen digits of whole
/// units, then optionally a dot followed by one or two digits of cents
/// (`"$25"`, `"0.50"`). Returns `None` on anything else.
pub fn parse_currency(s: &str) -> (r: Option<u64>)
    ensures
        match r {
            Some(v) => parse_cents(s@) == Some(v as nat),
            None => parse_cents(s@) is None,
        },
{
    let n = s.unicode_len();
    let start: usize = if n > 0 && s.get_char(0) == '$' {
        1
    } else {
        0
    };
    let ghost t = if s@.len() > 0 && s@[0] == '$' {
        s@.skip(1)
    } else {
        s@
    };
    proof {
        lemma_dot_index(t);
    }
    // find the first dot at or after `start`
    let mut j = start;
    let mut dot: usize = n;
    while j < n
        invariant
            start <= j <= n,
            n == s@.len(),
            dot == n || (start <= dot < j && s@[dot as int] == '.'),
            forall|i: int| start <= i < j && i < dot ==> s@[i] != '.',
        decreases n - j,
    {
        if dot == n && s.get_char(j) == '.' {
            dot = j;
        }
        j = j + 1;
    }
    proof {
        // relate the scan over `s` to `dot_index(t)`
        assert forall|i: int| 0 <= i < t.len() implies t[i] == s@[i + start] by {
            if start == 1 {
                assert(t[i] == s@[i + 1]);
            }
        }
        if dot < n {
            assert(t[dot - start] == s@[dot as int]);
            // the scan found the first dot, which is what `dot_index` names
            if dot_index(t) < dot - start {
                assert(s@[dot_index(t) + start] == '.');
            }
        } else {
            if dot_index(t) < t.len() {
                assert(t[dot_index(t)] == '.');
                assert(s@[dot_index(t) + start] == '.');
            }
        }
    }
    if dot < n {
        // whole part in s[start..dot], cents part in s[dot+1..n]
        if dot - start < 1 || dot - start > 16 {
            proof {
                if all_digits(t.take(dot - start)) && t.take(dot - start).len() >= 1 {
                    assert(t.take(dot - start).len() == dot - start);
                }
            }
            return None;
        }
        let frac_len = n - (dot + 1);
        if frac_len < 1 || frac_len > 2 {
            return None;
        }
        proof {
            assert(t.take(dot - start) =~= s@.subrange(start as int, dot as int));
            assert(t.skip(dot - start + 1) =~= s@.subrange(dot + 1, n as int));
        }
        let whole = match read_digits(s, start, dot) {
            Some(v) => v,
            None => {
                return None;
            },
        };
        let frac = match read_digits(s, dot + 1, n) {
            Some(v) => v,
            None => {
                return None;
            },
        };
        proof {
            lemma_digits_val_bound(s@.subrange(dot + 1, n as int));
            assert(pow10(2) == 100) by {
                reveal_with_fuel(pow10, 3);
            }
            lemma_pow10_mono((n - (dot + 1)) as nat, 2);
            assert(pow10(16) == 10000000000000000) by {
                reveal_with_fuel(pow10, 17);
            }
        }
        let cents = if frac_len == 1 {
            frac * 10
        } else {
            frac
        };
        Some(whole * 100 + cents)
    } else {
        if n - start < 1 || n - start > 16 {
            proof {
                if all_digits(t) && t.len() >= 1 {
                    assert(t.len() == n - start);
                }
            }
            return None;
        }
        proof {
            assert(t =~= s@.subrange(start as int, n as int));
        }
        match read_digits(s, start, n) {
            Some(v) => {
                proof {
                    assert(pow10(16) == 10000000000000000) by {
                        reveal_with_fuel(pow10, 17);
                    }
                }
                Some(v * 100)
            },
            None => None,
        }
    }
}

/// A validity gate: a predicate over the session state, evaluated fresh on
/// each attempted advance.
pub enum ValidityGate {
    /// Always permits advancing (pages without a validity check).
    Always,
    /// Permits advancing when the named slot holds a non-empty value.
    NonEmpty { tag: String },
    /// Permits advancing when the named slot holds a currency amount that
    /// parses to a positive number of cents.
    AmountPositive { tag: String },
}

/// Mathematical view of a `ValidityGate`.
pub ghost enum ValidityGateV {
    Always,
    NonEmpty { tag: Seq<char> },
    AmountPositive { tag: Seq<char> },
}

impl ValidityGateV {
    /// Whether this predicate permits advancing under the given state.
    pub open spec fn holds(self, state: Map<Seq<char>, Seq<char>>) -> bool {
        match self {
            ValidityGateV::Always => true,
            ValidityGateV::NonEmpty { tag } => state.contains_key(tag) && state[tag].len() > 0,
            ValidityGateV::AmountPositive { tag } => state.contains_key(tag) && match parse_cents(
                state[tag],
            ) {
                Some(n) => n > 0,
                None => false,
            },
        }
    }
}

impl View for ValidityGate {
    type V = ValidityGateV;

    open spec fn view(&self) -> ValidityGateV {
        match self {
            ValidityGate::Always => ValidityGateV::Always,
            ValidityGate::NonEmpty { tag } => ValidityGateV::NonEmpty { tag: tag@ },
            ValidityGate::AmountPositive { tag } => ValidityGateV::AmountPositive { tag: tag@ },
        }
    }
}

impl Clone for ValidityGate {
    fn clone(&self) -> (r: Self)
        ensures
            r@ == self@,
    {
        match self {
            ValidityGate::Always => ValidityGate::Always,
            ValidityGate::NonEmpty { tag } => ValidityGate::NonEmpty { tag: tag.clone() },
            ValidityGate::AmountPositive { tag } => ValidityGate::AmountPositive {
                tag: tag.clone(),
            },
        }
    }
}

impl ValidityGate {
    /// A predicate that always permits advancing.
    pub fn always() -> (r: Self)
        ensures
            r@ == ValidityGateV::Always,
    {
        ValidityGate::Always
    }

    /// A gate on a named slot holding a non-empty value.
    pub fn non_empty(tag: &str) -> (r: Self)
        ensures
            r@ == (ValidityGateV::NonEmpty { tag: tag@ }),
    {
        ValidityGate::NonEmpty { tag: tag.to_owned() }
    }

    /// A gate on a named slot holding a positive currency amount.
    pub fn amount_positive(tag: &str) -> (r: Self)
        ensures
            r@ == (ValidityGateV::AmountPositive { tag: tag@ }),
    {
        ValidityGate::AmountPositive { tag: tag.to_owned() }
    }
}

/// A validity predicate over the session state, with its evaluation proved
/// against its mathematical statement.
pub trait ValidityFn {
    /// What the predicate states of a given state.
    spec fn validity(&self, state: Map<Seq<char>, Seq<char>>) -> bool;

    /// Evaluates the predicate against the live state.
    fn check(&self, state: &StateStore) -> (b: bool)
        ensures
            b == self.validity(state@),
    ;
}

impl ValidityFn for ValidityGate {
    open spec fn validity(&self, state: Map<Seq<char>, Seq<char>>) -> bool {
        self@.holds(state)
    }

    fn check(&self, state: &StateStore) -> (b: bool)
        ensures
            b == self.validity(state@),
    {
        match self {
            ValidityGate::Always => true,
            ValidityGate::NonEmpty { tag } => match state.get_named(tag.as_str()) {
                Some(v) => v.as_str().unicode_len() > 0,
                None => false,
            },
            ValidityGate::AmountPositive { tag } => match state.get_named(tag.as_str()) {
                Some(v) => match parse_currency(v.as_str()) {
                    Some(c) => c > 0,
                    None => false,
                },
                None => false,
            },
        }
    }
}

/// Whether every gate of a sequence holds: the aggregate gate of a page is
/// the conjunction of its fields' gates.
pub open spec fn gates_hold(gates: Seq<ValidityGateV>, state: Map<Seq<char>, Seq<char>>) -> bool {
    forall|i: int| 0 <= i < gates.len() ==> (#[trigger] gates[i]).holds(state)
}

/// The views of a sequence of gates.
pub open spec fn gate_views(gates: Seq<ValidityGate>) -> Seq<ValidityGateV> {
    Seq::new(gates.len(), |i: int| gates[i]@)
}

/// Clones a sequence of gates, preserving each gate's view.
pub(crate) fn clone_gates(v: &Vec<ValidityGate>) -> (r: Vec<ValidityGate>)
    ensures
        gate_views(r@) == gate_views(v@),
{
    let mut r: Vec<ValidityGate> = Vec::new();
    let mut i: usize = 0;
    while i < v.len()
        invariant
            i <= v@.len(),
            r@.len() == i as int,
            forall|j: int| 0 <= j < i ==> (#[trigger] r@[j])@ == v@[j]@,
        decreases v@.len() - i,
    {
        r.push(v[i].clone());
        i = i + 1;
    }
    proof {
        assert(gate_views(r@) =~= gate_views(v@));
    }
    r
}

/// Evaluates the conjunction of a page's gates against the live state.
pub fn check_all(gates: &Vec<ValidityGate>, state: &StateStore) -> (b: bool)
    ensures
        b == gates_hold(gate_views(gates@), state@),
{
    let mut i: usize = 0;
    while i < gates.len()
        invariant
            i <= gates@.len(),
            forall|j: int| 0 <= j < i ==> (#[trigger] gate_views(gates@)[j]).holds(state@),
        decreases gates@.len() - i,
    {
        if !gates[i].check(state) {
            proof {
                assert(!gate_views(gates@)[i as int].holds(state@));
            }
            return false;
        }
        i = i + 1;
    }
    true
}

} // verus!
