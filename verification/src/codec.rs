//! The daily figure, written into the text of a post and read back from it.
//!
//! The figure of a text is the number denoted by the leftmost of its words
//! that denotes one. A published message carries the day's count as that
//! word, so the next run recovers it from the message alone.

use vstd::prelude::*;
use crate::calendar::{utc_date_label, utc_date_text, SECONDS_PER_DAY};
use crate::text::{
    characters, decimal_digits, is_digit, is_space, is_whitespace, lemma_decimal_digits,
    parse_number, parse_word, push_decimal,
};

verus! {

/// Whether `from..to` is a word of `s`: a run of characters without a
/// separator in it that cannot be extended on either side.
pub open spec fn is_word(s: Seq<char>, from: int, to: int) -> bool {
    &&& 0 <= from < to <= s.len()
    &&& from == 0 || is_space(s[from - 1])
    &&& to == s.len() || is_space(s[to])
    &&& forall|k: int| from <= k < to ==> !is_space(#[trigger] s[k])
}

/// Whether `from..to` is the leftmost word of `s` that denotes a number.
pub open spec fn is_first_numeral(s: Seq<char>, from: int, to: int) -> bool {
    &&& is_word(s, from, to)
    &&& parse_number(s.subrange(from, to)) is Some
    &&& forall|a: int, b: int| #[trigger]
        is_word(s, a, b) && a < from ==> parse_number(s.subrange(a, b)) is None
}

/// The figure that `s` carries: what its leftmost numeral denotes, if it has
/// one.
pub open spec fn statistic_in(s: Seq<char>) -> Option<usize> {
    if exists|i: int, j: int| is_first_numeral(s, i, j) {
        let (i, j) = choose|i: int, j: int| is_first_numeral(s, i, j);
        parse_number(s.subrange(i, j))
    } else {
        None
    }
}

/// A word is fixed by where it starts.
pub proof fn lemma_word_end_unique(s: Seq<char>, from: int, to: int, other: int)
    requires
        is_word(s, from, to),
        is_word(s, from, other),
    ensures
        to == other,
{
    if to < other {
        assert(is_space(s[to]));
    } else if other < to {
        assert(is_space(s[other]));
    }
}

/// A text has at most one leftmost numeral, and carries what it denotes.
pub proof fn lemma_statistic_found(s: Seq<char>, from: int, to: int)
    requires
        is_first_numeral(s, from, to),
    ensures
        statistic_in(s) == parse_number(s.subrange(from, to)),
{
    let (i, j) = choose|i: int, j: int| is_first_numeral(s, i, j);
    assert(is_first_numeral(s, i, j));
    assert(i == from) by {
        if i < from {
            assert(is_word(s, i, j));
        } else if from < i {
            assert(is_word(s, from, to));
        }
    }
    lemma_word_end_unique(s, from, to, j);
}

/// A text none of whose words denotes a number carries no figure.
pub proof fn lemma_statistic_absent(s: Seq<char>)
    requires
        forall|a: int, b: int| #[trigger] is_word(s, a, b) ==> parse_number(s.subrange(a, b)) is None,
    ensures
        statistic_in(s) is None,
{
}

/// Reads the figure that `text` carries: the number denoted by the first of
/// its whitespace-separated words that denotes one, `None` where no word does.
pub fn extract_statistics(text: &str) -> (r: Option<usize>)
    ensures
        r == statistic_in(text@),
{
    let chars = characters(text);
    let n = chars.len();
    let mut i: usize = 0;
    while i < n
        invariant
            chars@ == text@,
            n == chars.len(),
            i <= n,
            i == 0 || i == n || is_space(chars@[i - 1]) || is_space(chars@[i as int]),
            forall|a: int, b: int| #[trigger]
                is_word(chars@, a, b) && a < i ==> parse_number(chars@.subrange(a, b)) is None,
        decreases n - i,
    {
        if is_whitespace(chars[i]) {
            i = i + 1;
        } else {
            let mut j: usize = i + 1;
            while j < n && !is_whitespace(chars[j])
                invariant
                    n == chars.len(),
                    i < j <= n,
                    forall|k: int| i <= k < j ==> !is_space(#[trigger] chars@[k]),
                decreases n - j,
            {
                j = j + 1;
            }
            assert(is_word(chars@, i as int, j as int));
            match parse_word(&chars, i, j) {
                Some(v) => {
                    proof {
                        lemma_statistic_found(chars@, i as int, j as int);
                    }
                    return Some(v);
                },
                None => {
                    assert forall|a: int, b: int| #[trigger]
                        is_word(chars@, a, b) && a < j implies parse_number(
                        chars@.subrange(a, b),
                    ) is None by {
                        if a == i {
                            lemma_word_end_unique(chars@, a, b, j as int);
                        } else if a > i {
                            assert(!is_space(chars@[a - 1]));
                        }
                    }
                    i = j;
                },
            }
        }
    }
    proof {
        lemma_statistic_absent(chars@);
    }
    None
}

/// How a day's count stands to the count of the day before.
#[derive(Clone, Copy, Debug, PartialEq, Eq, Structural)]
pub enum Trend {
    /// More than the day before.
    Increase,
    /// Fewer than the day before.
    Decrease,
    /// As many as the day before.
    Unchanged,
}

/// A day's count held against the count of the day before.
#[derive(Clone, Copy, Debug, PartialEq, Eq, Structural)]
pub struct Change {
    /// By how many the two counts differ.
    pub amount: usize,
    /// The difference in hundredths of the earlier count, rounded to the
    /// nearest whole, a half upwards.
    pub percent: u128,
    /// Which way the count went.
    pub trend: Trend,
}

/// By how many `prev` and `cur` differ.
pub open spec fn change_amount(prev: nat, cur: nat) -> nat {
    if prev <= cur {
        (cur - prev) as nat
    } else {
        (prev - cur) as nat
    }
}

/// The difference of `prev` and `cur` as a percentage of `prev`, rounded to
/// the nearest whole number, a half upwards.
pub open spec fn change_percent(prev: nat, cur: nat) -> nat
    recommends
        prev > 0,
{
    (200 * change_amount(prev, cur) + prev) / (2 * prev)
}

/// Which way the count went from `prev` to `cur`.
pub open spec fn trend_of(prev: nat, cur: nat) -> Trend {
    if prev < cur {
        Trend::Increase
    } else if cur < prev {
        Trend::Decrease
    } else {
        Trend::Unchanged
    }
}

/// The percentage is the whole number nearest to a hundred times the
/// difference over the earlier count, the upper one of two equally near.
pub proof fn lemma_percent_is_nearest(prev: nat, cur: nat)
    requires
        prev > 0,
    ensures
        2 * prev * change_percent(prev, cur) <= 200 * change_amount(prev, cur) + prev,
        200 * change_amount(prev, cur) + prev < 2 * prev * (change_percent(prev, cur) + 1),
{
    let num = 200 * change_amount(prev, cur) + prev;
    let den = 2 * prev;
    vstd::arithmetic::div_mod::lemma_fundamental_div_mod(num as int, den as int);
    vstd::arithmetic::div_mod::lemma_mod_bound(num as int, den as int);
    assert(den * (change_percent(prev, cur) + 1) == den * change_percent(prev, cur) + den)
        by (nonlinear_arith);
}

/// Holds `cur_stat` against `prev_stat`. Where there is no earlier count to
/// hold it against (`prev_stat` is zero) there is nothing to say, and no
/// division takes place.
pub fn describe_change(prev_stat: usize, cur_stat: usize) -> (r: Option<Change>)
    ensures
        r is None <==> prev_stat == 0,
        r matches Some(c) ==> {
            &&& c.amount == change_amount(prev_stat as nat, cur_stat as nat)
            &&& c.percent == change_percent(prev_stat as nat, cur_stat as nat)
            &&& 2 * prev_stat * c.percent <= 200 * c.amount + prev_stat < 2 * prev_stat * (c.percent
                + 1)
            &&& c.trend == trend_of(prev_stat as nat, cur_stat as nat)
        },
{
    if prev_stat == 0 {
        return None;
    }
    proof {
        lemma_percent_is_nearest(prev_stat as nat, cur_stat as nat);
    }
    let amount: usize = if prev_stat <= cur_stat {
        cur_stat - prev_stat
    } else {
        prev_stat - cur_stat
    };
    let trend = if prev_stat < cur_stat {
        Trend::Increase
    } else if cur_stat < prev_stat {
        Trend::Decrease
    } else {
        Trend::Unchanged
    };
    let scaled: u128 = 200 * (amount as u128) + (prev_stat as u128);
    let percent: u128 = scaled / (2 * (prev_stat as u128));
    Some(Change { amount, percent, trend })
}

/// The remark that follows the count: nothing where there is no earlier
/// count, else how the count stands to it.
pub open spec fn comparison_text(prev: nat, cur: nat) -> Seq<char> {
    if prev == 0 {
        Seq::empty()
    } else if prev == cur {
        "\n\nTo wynik taki sam jak poprzedniego dnia. 📊"@
    } else if prev < cur {
        "\n\nTo wynik o "@ + decimal_digits(change_amount(prev, cur)) + " większy "@
            + "względem poprzedniego dnia "@ + "(+"@ + decimal_digits(change_percent(prev, cur))
            + "%). 📈"@
    } else {
        "\n\nTo wynik o "@ + decimal_digits(change_amount(prev, cur)) + " mniejszy "@
            + "względem poprzedniego dnia "@ + "(-"@ + decimal_digits(change_percent(prev, cur))
            + "%). 📉"@
    }
}

/// The sentence that reports the count `cur` for the day written `date`.
pub open spec fn report_text(date: Seq<char>, cur: nat) -> Seq<char> {
    "W dniu "@ + date + " wyrażenie 'na pewno' zostało błędnie napisane przez "@ + decimal_digits(
        cur,
    ) + " użytkowników Twittera."@
}

/// The message published for the day written `date`, on which `cur` authors
/// were counted, `prev` the day before.
pub open spec fn tweet_text(date: Seq<char>, prev: nat, cur: nat) -> Seq<char> {
    report_text(date, cur) + comparison_text(prev, cur)
}

/// Writes the message for the day written `date`: the count `cur_stat`, and
/// how it stands to `prev_stat` where that is not zero.
pub fn tweet_message(date: &str, prev_stat: usize, cur_stat: usize) -> (text: String)
    ensures
        text@ == tweet_text(date@, prev_stat as nat, cur_stat as nat),
{
    let mut out = String::new();
    out.append("W dniu ");
    out.append(date);
    out.append(" wyrażenie 'na pewno' zostało błędnie napisane przez ");
    push_decimal(&mut out, cur_stat as u128);
    out.append(" użytkowników Twittera.");
    assert(out@ =~= report_text(date@, cur_stat as nat));
    match describe_change(prev_stat, cur_stat) {
        None => {
            assert(out@ =~= tweet_text(date@, prev_stat as nat, cur_stat as nat));
        },
        Some(change) => {
            match change.trend {
                Trend::Unchanged => {
                    out.append("\n\nTo wynik taki sam jak poprzedniego dnia. 📊");
                },
                Trend::Increase => {
                    out.append("\n\nTo wynik o ");
                    push_decimal(&mut out, change.amount as u128);
                    out.append(" większy ");
                    out.append("względem poprzedniego dnia ");
                    out.append("(+");
                    push_decimal(&mut out, change.percent);
                    out.append("%). 📈");
                },
                Trend::Decrease => {
                    out.append("\n\nTo wynik o ");
                    push_decimal(&mut out, change.amount as u128);
                    out.append(" mniejszy ");
                    out.append("względem poprzedniego dnia ");
                    out.append("(-");
                    push_decimal(&mut out, change.percent);
                    out.append("%). 📉");
                },
            }
            assert(out@ =~= tweet_text(date@, prev_stat as nat, cur_stat as nat));
        },
    }
    out
}

/// Whether none of the words of `s` denotes a number.
pub open spec fn carries_no_number(s: Seq<char>) -> bool {
    forall|a: int, b: int| #[trigger] is_word(s, a, b) ==> parse_number(s.subrange(a, b)) is None
}

/// Whether `s` is free of digits and of `+`.
pub open spec fn is_plain(s: Seq<char>) -> bool {
    forall|k: int| 0 <= k < s.len() ==> !is_digit(#[trigger] s[k]) && s[k] != '+'
}

/// Whether `s` is empty or ends with a separator.
pub open spec fn ends_open(s: Seq<char>) -> bool {
    s.len() == 0 || is_space(s.last())
}

/// Whether `s` is empty or begins with a separator.
pub open spec fn starts_open(s: Seq<char>) -> bool {
    s.len() == 0 || is_space(s.first())
}

/// Whether `d` has the shape of a written calendar day: digits and signs
/// only, ending in `-` and two more characters, as in `2023-01-31`.
pub open spec fn is_date_label(d: Seq<char>) -> bool {
    &&& d.len() >= 10
    &&& forall|k: int| 0 <= k < d.len() ==> is_digit(#[trigger] d[k]) || d[k] == '-' || d[k] == '+'
    &&& d[d.len() - 3] == '-'
}

/// A text without digits has no word that denotes a number.
pub proof fn lemma_plain_carries_no_number(s: Seq<char>)
    requires
        is_plain(s),
    ensures
        carries_no_number(s),
{
    assert forall|a: int, b: int| #[trigger] is_word(s, a, b) implies parse_number(
        s.subrange(a, b),
    ) is None by {
        let word = s.subrange(a, b);
        assert(word[0] == s[a]);
    }
}

/// A written calendar day is one word, and that word denotes no number.
pub proof fn lemma_date_label_carries_no_number(d: Seq<char>)
    requires
        is_date_label(d),
    ensures
        carries_no_number(d),
{
    assert forall|a: int, b: int| #[trigger] is_word(d, a, b) implies parse_number(
        d.subrange(a, b),
    ) is None by {
        if a > 0 {
            assert(is_digit(d[a - 1]) || d[a - 1] == '-' || d[a - 1] == '+');
        }
        if b < d.len() {
            assert(is_digit(d[b]) || d[b] == '-' || d[b] == '+');
        }
        let word = d.subrange(a, b);
        assert(word =~= d);
        if d[0] == '+' {
            assert(d.drop_first()[d.len() - 4] == '-');
        } else {
            assert(d[d.len() - 3] == '-');
        }
    }
}

/// Two texts without numerals, set side by side with a separator at the seam,
/// make a text without numerals.
pub proof fn lemma_join_carries_no_number(x: Seq<char>, y: Seq<char>)
    requires
        carries_no_number(x),
        carries_no_number(y),
        ends_open(x) || starts_open(y),
    ensures
        carries_no_number(x + y),
{
    let s = x + y;
    let n = x.len() as int;
    assert forall|a: int, b: int| #[trigger] is_word(s, a, b) implies parse_number(
        s.subrange(a, b),
    ) is None by {
        if y.len() == 0 {
            assert(s =~= x);
        } else if x.len() == 0 {
            assert(s =~= y);
        } else if a < n {
            if b > n {
                assert(!is_space(s[n - 1]));
                assert(!is_space(s[n]));
                assert(false);
            }
            assert forall|k: int| a <= k < b implies !is_space(#[trigger] x[k]) by {
                assert(x[k] == s[k]);
            }
            if b < n {
                assert(x[b] == s[b]);
            }
            if a > 0 {
                assert(x[a - 1] == s[a - 1]);
            }
            assert(is_word(x, a, b));
            assert(s.subrange(a, b) =~= x.subrange(a, b));
        } else {
            if a > n {
                assert(y[a - 1 - n] == s[a - 1]);
            }
            assert forall|k: int| a - n <= k < b - n implies !is_space(#[trigger] y[k]) by {
                assert(y[k] == s[k + n]);
            }
            if b < s.len() {
                assert(y[b - n] == s[b]);
            }
            assert(is_word(y, a - n, b - n));
            assert(s.subrange(a, b) =~= y.subrange(a - n, b - n));
        }
    }
}

/// A numeral that stands as a word of its own behind a text without numerals
/// is what the whole carries.
pub proof fn lemma_numeral_after_plain_text(lead: Seq<char>, numeral: Seq<char>, rest: Seq<char>)
    requires
        carries_no_number(lead),
        ends_open(lead),
        numeral.len() > 0,
        forall|k: int| 0 <= k < numeral.len() ==> !is_space(#[trigger] numeral[k]),
        parse_number(numeral) is Some,
        starts_open(rest),
    ensures
        statistic_in(lead + numeral + rest) == parse_number(numeral),
{
    let s = lead + numeral + rest;
    let from = lead.len() as int;
    let to = from + numeral.len();
    assert(s.subrange(from, to) =~= numeral);
    assert forall|k: int| from <= k < to implies !is_space(#[trigger] s[k]) by {
        assert(s[k] == numeral[k - from]);
    }
    if from > 0 {
        assert(s[from - 1] == lead.last());
    }
    if to < s.len() {
        assert(s[to] == rest.first());
    }
    assert(is_word(s, from, to));
    assert forall|a: int, b: int| #[trigger] is_word(s, a, b) && a < from implies parse_number(
        s.subrange(a, b),
    ) is None by {
        if b >= from {
            assert(!is_space(s[from - 1]));
            assert(false);
        }
        assert forall|k: int| a <= k < b implies !is_space(#[trigger] lead[k]) by {
            assert(lead[k] == s[k]);
        }
        assert(lead[b] == s[b]);
        if a > 0 {
            assert(lead[a - 1] == s[a - 1]);
        }
        assert(is_word(lead, a, b));
        assert(s.subrange(a, b) =~= lead.subrange(a, b));
    }
    lemma_statistic_found(s, from, to);
}

/// The numeral written for a count that a machine integer holds is one word
/// and denotes that count.
pub proof fn lemma_decimal_digits_parse(n: nat)
    requires
        n <= usize::MAX,
    ensures
        decimal_digits(n).len() > 0,
        forall|k: int| 0 <= k < decimal_digits(n).len() ==> !is_space(#[trigger] decimal_digits(n)[k]),
        parse_number(decimal_digits(n)) == Some(n as usize),
{
    lemma_decimal_digits(n);
    let d = decimal_digits(n);
    assert(is_digit(d[0]));
    assert forall|k: int| 0 <= k < d.len() implies !is_space(#[trigger] d[k]) by {
        assert(is_digit(d[k]));
    }
}

/// What is written is read back: a message carries the count it was written
/// for, whatever the earlier count was, zero included, so long as the day's
/// own text holds no numeral.
pub proof fn lemma_round_trip(date: Seq<char>, prev: nat, cur: nat)
    requires
        carries_no_number(date),
        cur <= usize::MAX,
    ensures
        statistic_in(tweet_text(date, prev, cur)) == Some(cur as usize),
{
    let head = "W dniu "@;
    let middle = " wyrażenie 'na pewno' zostało błędnie napisane przez "@;
    let tail = " użytkowników Twittera."@;
    reveal_strlit("W dniu ");
    reveal_strlit(" wyrażenie 'na pewno' zostało błędnie napisane przez ");
    reveal_strlit(" użytkowników Twittera.");
    assert(is_plain(head));
    assert(is_plain(middle));
    assert(is_space(head.last()));
    assert(is_space(middle.first()));
    assert(is_space(middle.last()));
    assert(is_space(tail.first()));
    lemma_plain_carries_no_number(head);
    lemma_plain_carries_no_number(middle);
    lemma_join_carries_no_number(head, date);
    lemma_join_carries_no_number(head + date, middle);
    let lead = head + date + middle;
    assert(lead.last() == middle.last());
    let rest = tail + comparison_text(prev, cur);
    assert(rest.first() == tail.first());
    lemma_decimal_digits_parse(cur);
    lemma_numeral_after_plain_text(lead, decimal_digits(cur), rest);
    assert(tweet_text(date, prev, cur) =~= lead + decimal_digits(cur) + rest);
}

/// A first message, written with no earlier count to compare with, ends with
/// the report itself, and still carries its count.
pub proof fn lemma_cold_start(date: Seq<char>, cur: nat)
    requires
        carries_no_number(date),
        cur <= usize::MAX,
    ensures
        tweet_text(date, 0, cur) == report_text(date, cur),
        statistic_in(tweet_text(date, 0, cur)) == Some(cur as usize),
{
    assert(tweet_text(date, 0, cur) =~= report_text(date, cur));
    lemma_round_trip(date, 0, cur);
}

/// Writes the message that is published at the moment `now` (seconds since
/// the Unix epoch): the report for the day before, in UTC, with the count
/// `cur_stat`, and how it stands to `prev_stat` where that is not zero.
///
/// The message carries `cur_stat`: reading it back gives that count. `None`
/// where the calendar has no day before that of `now`.
pub fn generate_tweet(now: i64, prev_stat: usize, cur_stat: usize) -> (r: Option<String>)
    ensures
        r is Some <==> now - SECONDS_PER_DAY >= i64::MIN && utc_date_text(
            (now - SECONDS_PER_DAY) as i64,
        ) is Some,
        r matches Some(text) ==> {
            &&& text@ == tweet_text(
                utc_date_text((now - SECONDS_PER_DAY) as i64)->0,
                prev_stat as nat,
                cur_stat as nat,
            )
            &&& statistic_in(text@) == Some(cur_stat)
        },
{
    let yesterday = match now.checked_sub(SECONDS_PER_DAY) {
        Some(t) => t,
        None => {
            return None;
        },
    };
    match utc_date_label(yesterday) {
        Some(label) => {
            let text = tweet_message(label.as_str(), prev_stat, cur_stat);
            proof {
                lemma_date_label_carries_no_number(label@);
                lemma_round_trip(label@, prev_stat as nat, cur_stat as nat);
            }
            Some(text)
        },
        None => None,
    }
}

} // verus!
