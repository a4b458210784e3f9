//! Rendering of a non-negative number of seconds as `"{h}hr:{m}m:{s}s"`,
//! where the hour and minute parts are left out while they are zero.

use vstd::prelude::*;
use vstd::string::*;

verus! {

/// The character of a decimal digit.
pub open spec fn digit_char(d: nat) -> char {
    if d == 0 {
        '0'
    } else if d == 1 {
        '1'
    } else if d == 2 {
        '2'
    } else if d == 3 {
        '3'
    } else if d == 4 {
        '4'
    } else if d == 5 {
        '5'
    } else if d == 6 {
        '6'
    } else if d == 7 {
        '7'
    } else if d == 8 {
        '8'
    } else {
        '9'
    }
}

/// The decimal digits of `n`, most significant first, without leading zeros.
pub open spec fn decimal(n: nat) -> Seq<char>
    decreases n,
{
    if n < 10 {
        seq![digit_char(n)]
    } else {
        decimal(n / 10).push(digit_char(n % 10))
    }
}

/// The text of a duration given by its parts.
pub open spec fn parts_text(h: nat, m: nat, s: nat) -> Seq<char> {
    (if h > 0 {
        decimal(h) + seq!['h', 'r', ':']
    } else {
        Seq::empty()
    }) + (if m > 0 {
        decimal(m) + seq!['m', ':']
    } else {
        Seq::empty()
    }) + decimal(s) + seq!['s']
}

/// The text of a duration of `total` seconds.
pub open spec fn duration_text(total: nat) -> Seq<char> {
    parts_text(total / 3600, (total % 3600) / 60, total % 60)
}

/// The value of a digit character, if it is one.
pub open spec fn digit_value(c: char) -> Option<int> {
    if '0' <= c && c <= '9' {
        Some(c as int - '0' as int)
    } else {
        None
    }
}

/// One character of a duration text read into `(seconds so far, pending number)`:
/// digits extend the pending number, and the unit letters `h`, `m` and `s`
/// add it to the total, weighted by the unit. Other characters are skipped.
pub open spec fn read_step(st: (int, int), c: char) -> (int, int) {
    if let Some(d) = digit_value(c) {
        (st.0, st.1 * 10 + d)
    } else if c == 'h' {
        (st.0 + st.1 * 3600, 0)
    } else if c == 'm' {
        (st.0 + st.1 * 60, 0)
    } else if c == 's' {
        (st.0 + st.1, 0)
    } else {
        st
    }
}

/// Reads `s` from the left, starting in state `st`.
pub open spec fn read_from(st: (int, int), s: Seq<char>) -> (int, int)
    decreases s.len(),
{
    if s.len() == 0 {
        st
    } else {
        read_from(read_step(st, s[0]), s.drop_first())
    }
}

/// The number of seconds that the numeric parts of a duration text add up to.
pub open spec fn read_duration(s: Seq<char>) -> int {
    read_from((0, 0), s).0
}

proof fn lemma_read_concat(st: (int, int), a: Seq<char>, b: Seq<char>)
    ensures
        read_from(st, a + b) == read_from(read_from(st, a), b),
    decreases a.len(),
{
    if a.len() == 0 {
        assert(a + b =~= b);
    } else {
        assert((a + b).drop_first() =~= a.drop_first() + b);
        lemma_read_concat(read_step(st, a[0]), a.drop_first(), b);
    }
}

proof fn lemma_digit_char(d: nat)
    requires
        d < 10,
    ensures
        digit_value(digit_char(d)) == Some(d as int),
{
}

proof fn lemma_read_decimal(t: int, n: nat)
    ensures
        read_from((t, 0), decimal(n)) == (t, n as int),
    decreases n,
{
    reveal_with_fuel(read_from, 2);
    lemma_digit_char(n % 10);
    assert((n / 10) * 10 + n % 10 == n);
    if n < 10 {
        assert(decimal(n).drop_first() =~= Seq::<char>::empty());
    } else {
        let d = seq![digit_char(n % 10)];
        assert(decimal(n) =~= decimal(n / 10) + d);
        lemma_read_concat((t, 0), decimal(n / 10), d);
        lemma_read_decimal(t, n / 10);
        assert(d.drop_first() =~= Seq::<char>::empty());
    }
}

proof fn lemma_read_inert(st: (int, int), u: Seq<char>)
    requires
        forall|i: int| 0 <= i < u.len() ==> digit_value(#[trigger] u[i]) is None && u[i] != 'h'
            && u[i] != 'm' && u[i] != 's',
    ensures
        read_from(st, u) == st,
    decreases u.len(),
{
    if u.len() > 0 {
        lemma_read_inert(st, u.drop_first());
    }
}

proof fn lemma_read_part(t: int, n: nat, unit: Seq<char>, weight: int)
    requires
        unit.len() >= 1,
        read_step((t, n as int), unit[0]) == (t + n * weight, 0int),
        forall|i: int| 1 <= i < unit.len() ==> digit_value(#[trigger] unit[i]) is None && unit[i] != 'h'
            && unit[i] != 'm' && unit[i] != 's',
    ensures
        read_from((t, 0), decimal(n) + unit) == (t + n * weight, 0int),
{
    lemma_read_concat((t, 0), decimal(n), unit);
    lemma_read_decimal(t, n);
    let rest = unit.drop_first();
    assert forall|i: int| 0 <= i < rest.len() implies digit_value(#[trigger] rest[i]) is None
        && rest[i] != 'h' && rest[i] != 'm' && rest[i] != 's' by {
        assert(rest[i] == unit[i + 1]);
    }
    lemma_read_inert((t + n * weight, 0int), rest);
}

/// Reading back the numeric parts of a rendered duration of `d` seconds,
/// as hours * 3600 + minutes * 60 + seconds, gives `d` again.
pub proof fn lemma_duration_round_trip(d: int)
    requires
        0 <= d < 99 * 3600,
    ensures
        read_duration(duration_text(d as nat)) == d,
{
    let n = d as nat;
    let h = n / 3600;
    let m = (n % 3600) / 60;
    let s = n % 60;
    let hp: Seq<char> = if h > 0 { decimal(h) + seq!['h', 'r', ':'] } else { Seq::empty() };
    let mp: Seq<char> = if m > 0 { decimal(m) + seq!['m', ':'] } else { Seq::empty() };
    let sp: Seq<char> = decimal(s) + seq!['s'];
    assert(duration_text(n) =~= hp + mp + sp);
    if h > 0 {
        lemma_read_part(0, h, seq!['h', 'r', ':'], 3600);
    } else {
        assert(read_from((0, 0), hp) == (0int, 0int));
    }
    let t1: int = (h * 3600) as int;
    if m > 0 {
        lemma_read_part(t1, m, seq!['m', ':'], 60);
    } else {
        assert(read_from((t1, 0), mp) == (t1, 0int));
    }
    let t2: int = t1 + m * 60;
    lemma_read_part(t2, s, seq!['s'], 1);
    lemma_read_concat((0, 0), hp, mp);
    lemma_read_concat((0, 0), hp + mp, sp);
    assert(h * 3600 + m * 60 + s == n) by (nonlinear_arith)
        requires
            h == n / 3600,
            m == (n % 3600) / 60,
            s == n % 60,
    ;
}

/// The one-character text of the digit `d`.
fn digit_str(d: u64) -> (r: &'static str)
    requires
        d < 10,
    ensures
        r@ == seq![digit_char(d as nat)],
{
    proof {
        reveal_strlit("0");
        reveal_strlit("1");
        reveal_strlit("2");
        reveal_strlit("3");
        reveal_strlit("4");
        reveal_strlit("5");
        reveal_strlit("6");
        reveal_strlit("7");
        reveal_strlit("8");
        reveal_strlit("9");
    }
    if d == 0 {
        "0"
    } else if d == 1 {
        "1"
    } else if d == 2 {
        "2"
    } else if d == 3 {
        "3"
    } else if d == 4 {
        "4"
    } else if d == 5 {
        "5"
    } else if d == 6 {
        "6"
    } else if d == 7 {
        "7"
    } else if d == 8 {
        "8"
    } else {
        "9"
    }
}

/// The decimal text of `n`.
pub fn decimal_text(n: u64) -> (r: String)
    ensures
        r@ == decimal(n as nat),
    decreases n,
{
    if n < 10 {
        String::from_str(digit_str(n))
    } else {
        let mut r = decimal_text(n / 10);
        r.append(digit_str(n % 10));
        r
    }
}

/// A duration split into whole hours, minutes and seconds.
pub struct PrintableTime {
    pub hours: i64,
    pub minutes: i64,
    pub seconds: i64,
}

impl PrintableTime {
    /// The parts are non-negative, and minutes and seconds are below 60.
    pub open spec fn wf(&self) -> bool {
        self.hours >= 0 && 0 <= self.minutes < 60 && 0 <= self.seconds < 60
    }

    /// The number of seconds that the parts add up to.
    pub open spec fn total(&self) -> int {
        self.hours * 3600 + self.minutes * 60 + self.seconds
    }

    /// Splits `d` seconds by successive division, so that the parts add up to `d`.
    pub fn from_duration(d: i64) -> (r: Self)
        requires
            d >= 0,
        ensures
            r.wf(),
            r.hours == d / 3600,
            r.minutes == (d % 3600) / 60,
            r.seconds == d % 60,
            r.total() == d,
    {
        let h = d / 3600;
        let m = (d % 3600) / 60;
        let s = d % 60;
        assert(h * 3600 + m * 60 + s == d) by (nonlinear_arith)
            requires
                d >= 0,
                h == d / 3600,
                m == (d % 3600) / 60,
                s == d % 60,
        ;
        PrintableTime { hours: h, minutes: m, seconds: s }
    }

    /// The text of the duration: `"{h}hr:"` when there are hours, then
    /// `"{m}m:"` when there are minutes, then always `"{s}s"`.
    pub fn to_string(&self) -> (r: String)
        requires
            self.wf(),
        ensures
            r@ == parts_text(self.hours as nat, self.minutes as nat, self.seconds as nat),
    {
        proof {
            reveal_strlit("hr:");
            reveal_strlit("m:");
            reveal_strlit("s");
        }
        let mut r = String::new();
        if self.hours > 0 {
            let h = decimal_text(self.hours as u64);
            r.append(h.as_str());
            r.append("hr:");
        }
        if self.minutes > 0 {
            let m = decimal_text(self.minutes as u64);
            r.append(m.as_str());
            r.append("m:");
        }
        let s = decimal_text(self.seconds as u64);
        r.append(s.as_str());
        r.append("s");
        assert(r@ =~= parts_text(self.hours as nat, self.minutes as nat, self.seconds as nat));
        r
    }
}

/// The text of a duration of `d` seconds.
pub fn format_duration(d: i64) -> (r: String)
    requires
        d >= 0,
    ensures
        r@ == duration_text(d as nat),
{
    PrintableTime::from_duration(d).to_string()
}

} // verus!
