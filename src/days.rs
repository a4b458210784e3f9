//! Reading a list of weekday names separated by white space.

use vstd::prelude::*;
use vstd::string::*;
use crate::clock::Weekday;

verus! {

/// Whether `c` has the Unicode `White_Space` property.
pub open spec fn white_space(c: char) -> bool {
    let v = c as u32;
    (0x09 <= v && v <= 0x0D) || v == 0x20 || v == 0x85 || v == 0xA0 || v == 0x1680 || (0x2000 <= v
        && v <= 0x200A) || v == 0x2028 || v == 0x2029 || v == 0x202F || v == 0x205F || v == 0x3000
}

/// Whether `c` is white space.
pub fn is_space(c: char) -> (r: bool)
    ensures
        r == white_space(c),
{
    let v = c as u32;
    (0x09 <= v && v <= 0x0D) || v == 0x20 || v == 0x85 || v == 0xA0 || v == 0x1680 || (0x2000 <= v
        && v <= 0x200A) || v == 0x2028 || v == 0x2029 || v == 0x202F || v == 0x205F || v == 0x3000
}

/// The length of the run of non-space characters that `s` starts with.
pub open spec fn run_len(s: Seq<char>) -> nat
    decreases s.len(),
{
    if s.len() == 0 || white_space(s[0]) {
        0
    } else {
        1 + run_len(s.drop_first())
    }
}

/// The words of `s`: its maximal runs of non-space characters, in order.
pub open spec fn words(s: Seq<char>) -> Seq<Seq<char>>
    decreases s.len(),
{
    if s.len() == 0 {
        Seq::empty()
    } else if white_space(s[0]) {
        words(s.drop_first())
    } else {
        let n = run_len(s);
        if 1 <= n <= s.len() {
            seq![s.take(n as int)] + words(s.skip(n as int))
        } else {
            Seq::empty()
        }
    }
}

proof fn lemma_run_len_at(s: Seq<char>, i: int, j: int)
    requires
        0 <= i <= j <= s.len(),
        forall|k: int| i <= k < j ==> !white_space(#[trigger] s[k]),
        j == s.len() || white_space(s[j]),
    ensures
        run_len(s.skip(i)) == j - i,
    decreases j - i,
{
    if i < j {
        assert(s.skip(i).drop_first() =~= s.skip(i + 1));
        lemma_run_len_at(s, i + 1, j);
    } else if j < s.len() {
        assert(s.skip(i)[0] == s[j]);
    }
}

/// What chrono's `Weekday` parsing gives for a word, as days from Monday.
pub uninterp spec fn weekday_parsed(s: Seq<char>) -> Option<u8>;

/// Relies on chrono's `FromStr` for `Weekday` (which its serde support uses
/// too): a day of the week, given by its number of days from Monday.
#[verifier::external_body]
fn parse_weekday(s: &str) -> (r: Option<u8>)
    ensures
        r == weekday_parsed(s@),
        r matches Some(i) ==> i < 7,
{
    match s.parse::<chrono::Weekday>() {
        Ok(d) => Some(d.num_days_from_monday() as u8),
        Err(_) => None,
    }
}

/// The day `i` days after Monday.
pub open spec fn weekday_at(i: u8) -> Weekday {
    if i == 0 {
        Weekday::Mon
    } else if i == 1 {
        Weekday::Tue
    } else if i == 2 {
        Weekday::Wed
    } else if i == 3 {
        Weekday::Thu
    } else if i == 4 {
        Weekday::Fri
    } else if i == 5 {
        Weekday::Sat
    } else {
        Weekday::Sun
    }
}

/// The day `i` days after Monday.
pub fn weekday_from_index(i: u8) -> (r: Weekday)
    requires
        i < 7,
    ensures
        r == weekday_at(i),
{
    if i == 0 {
        Weekday::Mon
    } else if i == 1 {
        Weekday::Tue
    } else if i == 2 {
        Weekday::Wed
    } else if i == 3 {
        Weekday::Thu
    } else if i == 4 {
        Weekday::Fri
    } else if i == 5 {
        Weekday::Sat
    } else {
        Weekday::Sun
    }
}

/// The days named by the words of `s`, in order, or `None` when a word names
/// no day.
pub fn space_separated(s: &str) -> (r: Option<Vec<Weekday>>)
    ensures
        r is Some <==> forall|k: int| 0 <= k < words(s@).len() ==> weekday_parsed(#[trigger] words(s@)[k]) is Some,
        r matches Some(v) ==> v@.len() == words(s@).len() && forall|k: int| 0 <= k < v@.len() ==> #[trigger] v@[k]
            == weekday_at(weekday_parsed(words(s@)[k])->Some_0),
{
    let ghost w = words(s@);
    let n = s.unicode_len();
    let mut days: Vec<Weekday> = Vec::new();
    let ghost mut done: Seq<Seq<char>> = Seq::empty();
    let mut i: usize = 0;
    proof {
        assert(s@.skip(0) =~= s@);
        assert(done + w =~= w);
    }
    while i < n
        invariant
            n == s@.len(),
            i <= n,
            w == words(s@),
            done + words(s@.skip(i as int)) == w,
            days@.len() == done.len(),
            forall|k: int| 0 <= k < done.len() ==> weekday_parsed(#[trigger] done[k]) is Some,
            forall|k: int| 0 <= k < done.len() ==> #[trigger] days@[k] == weekday_at(weekday_parsed(done[k])->Some_0),
        decreases n - i,
    {
        let ghost rest = s@.skip(i as int);
        if is_space(s.get_char(i)) {
            assert(rest.drop_first() =~= s@.skip(i + 1));
            i = i + 1;
        } else {
            let mut j: usize = i + 1;
            while j < n && !is_space(s.get_char(j))
                invariant
                    n == s@.len(),
                    i < j <= n,
                    forall|k: int| i <= k < j ==> !white_space(#[trigger] s@[k]),
                decreases n - j,
            {
                j = j + 1;
            }
            let word = s.substring_char(i, j);
            proof {
                lemma_run_len_at(s@, i as int, j as int);
                assert(rest.take(j - i) =~= word@);
                assert(rest.skip(j - i) =~= s@.skip(j as int));
                assert(done + seq![word@] + words(s@.skip(j as int)) =~= done + words(rest));
            }
            match parse_weekday(word) {
                Some(d) => {
                    days.push(weekday_from_index(d));
                    proof {
                        done = done.push(word@);
                    }
                },
                None => {
                    proof {
                        assert(w[done.len() as int] == word@);
                    }
                    return None;
                },
            }
            i = j;
        }
    }
    proof {
        assert(s@.skip(i as int) =~= Seq::<char>::empty());
        assert(done =~= w);
    }
    Some(days)
}

} // verus!
