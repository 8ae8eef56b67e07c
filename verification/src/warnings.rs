//! Warnings issued to members: expiry times, the warning record and the
//! texts that the warning commands send.
use vstd::prelude::*;
use crate::text::{chars_of, decimal, digit_char, push_decimal};

verus! {

/// Whether `c` is one of the ASCII digits `0` to `9`.
pub open spec fn is_digit(c: char) -> bool {
    '0' <= c && c <= '9'
}

/// The number written by a sequence of decimal digits (0 for no digits).
pub open spec fn digits_value(s: Seq<char>) -> nat
    decreases s.len(),
{
    if s.len() == 0 {
        0
    } else {
        digits_value(s.drop_last()) * 10 + ((s.last() as nat) - ('0' as nat)) as nat
    }
}

/// The digits that follow an optional leading `+`.
pub open spec fn unsigned_digits(s: Seq<char>) -> Seq<char> {
    if s.len() > 0 && s[0] == '+' { s.drop_first() } else { s }
}

/// What parsing `s` as a `u64` gives: the value when `s` is an optional `+`
/// followed by one or more ASCII digits whose value fits in a `u64`, and
/// `None` otherwise.
pub open spec fn parse_u64_spec(s: Seq<char>) -> Option<nat> {
    let d = unsigned_digits(s);
    if d.len() > 0 && (forall|i: int| 0 <= i < d.len() ==> #[trigger] is_digit(d[i]))
        && digits_value(d) <= u64::MAX {
        Some(digits_value(d))
    } else {
        None
    }
}

proof fn lemma_digits_value_grows(s: Seq<char>, k: int)
    requires
        0 <= k <= s.len(),
        forall|i: int| 0 <= i < s.len() ==> #[trigger] is_digit(s[i]),
    ensures
        digits_value(s.take(k)) <= digits_value(s),
    decreases s.len() - k,
{
    if k < s.len() {
        lemma_digits_value_grows(s, k + 1);
        assert(s.take(k + 1).drop_last() =~= s.take(k));
    } else {
        assert(s.take(k) =~= s);
    }
}

/// Parses the characters of `s` as a `u64`, in the way `str::parse::<u64>`
/// does.
pub fn parse_u64(s: &[char]) -> (r: Option<u64>)
    ensures
        match parse_u64_spec(s@) {
            Some(v) => r == Some(v as u64),
            None => r is None,
        },
{
    let start: usize = if s.len() > 0 && s[0] == '+' { 1 } else { 0 };
    let ghost d = unsigned_digits(s@);
    assert(d =~= s@.skip(start as int));
    if start >= s.len() {
        return None;
    }
    let mut value: u64 = 0;
    let mut i: usize = start;
    while i < s.len()
        invariant
            start <= i <= s.len(),
            d =~= s@.skip(start as int),
            d == unsigned_digits(s@),
            forall|j: int| 0 <= j < i - start ==> #[trigger] is_digit(d[j]),
            value == digits_value(d.take(i - start)),
        decreases s.len() - i,
    {
        let c = s[i];
        if !('0' <= c && c <= '9') {
            assert(!is_digit(d[i - start]));
            return None;
        }
        let dv: u64 = (c as u64) - ('0' as u64);
        assert(d.take(i + 1 - start).drop_last() =~= d.take(i - start));
        if value > (u64::MAX - dv) / 10 {
            proof {
                let ghost rest_digits = forall|j: int| 0 <= j < d.len() ==> #[trigger] is_digit(d[j]);
                if rest_digits {
                    lemma_digits_value_grows(d, i + 1 - start);
                }
            }
            return None;
        }
        value = value * 10 + dv;
        i = i + 1;
    }
    assert(d.take(i - start) =~= d);
    Some(value)
}

} // verus!

verus! {

/// The number of seconds that one unit of a warning length stands for:
/// `d`ay, `h`our, `w`eek, `m`onth (30 days) and `y`ear (365 days); 0 for any
/// other unit.
pub open spec fn unit_seconds(unit: char) -> nat {
    if unit == 'd' { 86400 }
    else if unit == 'h' { 3600 }
    else if unit == 'w' { 604800 }
    else if unit == 'm' { 2592000 }
    else if unit == 'y' { 31536000 }
    else { 0 }
}

/// The count written before the unit, or 0 when it does not parse.
pub open spec fn length_count(time: Seq<char>) -> nat {
    match parse_u64_spec(time.drop_last()) {
        Some(v) => v,
        None => 0,
    }
}

/// A warning length is readable: it is a count that parses followed by
/// one of the units `d`, `h`, `w`, `m` and `y`.
pub open spec fn length_is_valid(time: Seq<char>) -> bool {
    time.len() > 0 && parse_u64_spec(time.drop_last()) is Some && unit_seconds(time.last()) > 0
}

/// The number of seconds that a warning length such as `48h` or `2w`
/// stands for; 0 for an unreadable length.
pub open spec fn duration_seconds(time: Seq<char>) -> nat {
    if length_is_valid(time) {
        length_count(time) * unit_seconds(time.last())
    } else {
        0
    }
}

/// The count and unit of a non-empty warning length.
fn split_length(time: &str) -> (r: (Option<u64>, u64))
    requires
        time@.len() > 0,
    ensures
        match r.0 {
            Some(v) => parse_u64_spec(time@.drop_last()) == Some(v as nat),
            None => parse_u64_spec(time@.drop_last()) is None,
        },
        r.1 == unit_seconds(time@.last()),
{
    let chars = chars_of(time);
    let n = chars.len();
    let unit = chars[n - 1];
    let count_chars = chars.as_slice().split_at(n - 1).0;
    assert(count_chars@ =~= time@.drop_last());
    let per_unit: u64 = if unit == 'd' { 86400 }
        else if unit == 'h' { 3600 }
        else if unit == 'w' { 604800 }
        else if unit == 'm' { 2592000 }
        else if unit == 'y' { 31536000 }
        else { 0 };
    (parse_u64(count_chars), per_unit)
}

/// The number of seconds that the warning length `time` stands for, or
/// `None` when that number does not fit in a `u64`.
pub fn warning_duration(time: &str) -> (r: Option<u64>)
    ensures
        match r {
            Some(d) => d == duration_seconds(time@),
            None => duration_seconds(time@) > u64::MAX,
        },
{
    if time.is_empty() {
        return Some(0);
    }
    let (count, per_unit) = split_length(time);
    match count {
        None => Some(0),
        Some(c) => {
            if per_unit == 0 {
                Some(0)
            } else {
                c.checked_mul(per_unit)
            }
        },
    }
}

/// Whether the warning length `time` is readable.
pub fn valid_length(time: &str) -> (r: bool)
    ensures
        r == length_is_valid(time@),
{
    if time.is_empty() {
        return false;
    }
    let (count, per_unit) = split_length(time);
    count.is_some() && per_unit > 0
}

/// The expiry of a warning of length `time` given at UNIX time `now`: `now`
/// plus the length in seconds, or 0 (never) for an unreadable length.
pub open spec fn expiry_at(time: Seq<char>, now: nat) -> nat {
    if length_is_valid(time) {
        now + duration_seconds(time)
    } else {
        0
    }
}

/// The expiry timestamp of a warning of length `time` given at UNIX time
/// `now`; 0 for an unreadable length.
pub fn parse_time_at(time: &str, now: u64) -> (r: u64)
    requires
        length_is_valid(time@) ==> now + duration_seconds(time@) <= u64::MAX,
    ensures
        r == expiry_at(time@, now as nat),
{
    if !valid_length(time) {
        return 0;
    }
    match warning_duration(time) {
        Some(d) => now + d,
        None => now,
    }
}

/// Reads the system clock: whole seconds since the UNIX epoch, or `None`
/// when the clock is set before the epoch.
///
/// Wraps `SystemTime::elapsed` on `std::time::UNIX_EPOCH`, in whole seconds
/// (`Duration::as_secs`). Nothing is promised of the value, which depends
/// on the clock.
#[verifier::external_body]
fn unix_time_now() -> (now: Option<u64>) {
    match std::time::UNIX_EPOCH.elapsed() {
        Ok(elapsed) => Some(elapsed.as_secs()),
        Err(_) => None,
    }
}

/// The expiry timestamp of a warning of length `time` (such as `1d`, `48h`,
/// `1w`, `1m`, `1y`) given now; 0 (never) when the count does not parse or
/// the unit is unknown. A clock set before the UNIX epoch counts as the
/// epoch itself, and an expiry past the largest timestamp becomes the
/// largest timestamp.
pub fn parse_time(time: String) -> (r: u64)
    requires
        duration_seconds(time@) <= u64::MAX,
    ensures
        !length_is_valid(time@) ==> r == 0,
        length_is_valid(time@) ==> r >= duration_seconds(time@),
{
    let now = match unix_time_now() {
        Some(now) => now,
        None => 0,
    };
    if !valid_length(time.as_str()) {
        return 0;
    }
    let d = match warning_duration(time.as_str()) {
        Some(d) => d,
        None => 0,
    };
    if now <= u64::MAX - d {
        parse_time_at(time.as_str(), now)
    } else {
        u64::MAX
    }
}

} // verus!

verus! {

/// A warning given to a member of a guild.
#[derive(Debug)]
pub struct Warning {
    pub user: u64,
    pub issuer: u64,
    pub guild: u64,
    pub reason: String,
    /// When the warning expires, as a UNIX timestamp; 0 for never.
    pub expires_timestamp: u64,
}

/// The expiry of a warning given with the optional length `length`: never
/// (0) without a length or with an unreadable one, else the expiry that
/// `parse_time` gives.
pub fn warning_expiry(length: Option<String>) -> (expires: u64)
    requires
        length matches Some(t) ==> duration_seconds(t@) <= u64::MAX,
    ensures
        length is None ==> expires == 0,
        length matches Some(t) ==> (!length_is_valid(t@) ==> expires == 0) && (length_is_valid(t@)
            ==> expires >= duration_seconds(t@)),
{
    match length {
        Some(t) => parse_time(t),
        None => 0,
    }
}

/// How Discord writes a mention of the user `id`.
pub open spec fn mention(id: u64) -> Seq<char> {
    "<@"@ + decimal(id as nat) + ">"@
}

/// Appends a mention of the user `id`.
pub fn push_mention(s: &mut String, id: u64)
    ensures
        final(s)@ == old(s)@ + mention(id),
{
    s.append("<@");
    push_decimal(s, id);
    s.append(">");
}

/// Appends how Discord writes the timestamp `t`.
fn push_timestamp(s: &mut String, t: u64)
    ensures
        final(s)@ == old(s)@ + "<t:"@ + decimal(t as nat) + ">"@,
{
    s.append("<t:");
    push_decimal(s, t);
    s.append(">");
}

/// The line of the warning reply that tells when the warning expires;
/// nothing for a warning that never expires.
pub open spec fn expiry_notice(expires: u64) -> Seq<char> {
    if expires == 0 {
        Seq::empty()
    } else {
        "\n This warning will expire at "@ + "<t:"@ + decimal(expires as nat) + ">"@ + "."@
    }
}

/// The description of the reply to a warning given to `user`.
pub fn warn_description(user: u64, reason: &str, expires: u64) -> (r: String)
    ensures
        r@ == "Applied a warning to "@ + mention(user) + " for ``"@ + reason@ + "``."@
            + expiry_notice(expires),
{
    let mut r = String::from_str("Applied a warning to ");
    push_mention(&mut r, user);
    r.append(" for ``");
    r.append(reason);
    r.append("``.");
    if expires != 0 {
        r.append("\n This warning will expire at ");
        push_timestamp(&mut r, expires);
        r.append(".");
    }
    assert(r@ =~= "Applied a warning to "@ + mention(user) + " for ``"@ + reason@ + "``."@
        + expiry_notice(expires));
    r
}

/// The title of the reply to a warning.
pub const WARN_TITLE: &'static str = "Warn Applied.";

/// The reply to a member who asks for someone else's warnings without the
/// right to.
pub const NO_PERMISSION_REPLY: &'static str = "You do not have permission to view other users warnings.";

/// Whose warnings a request shows: the requested member's, or the author's
/// own when none is named; `None` when the author may not see them (only
/// members who may manage messages can see other members' warnings).
pub open spec fn warnings_shown(may_manage_messages: bool, requested: Option<u64>, author: u64) -> Option<u64> {
    if !may_manage_messages && requested is Some {
        None
    } else {
        match requested {
            Some(u) => Some(u),
            None => Some(author),
        }
    }
}

/// Decides whose warnings a request shows.
pub fn warnings_target(may_manage_messages: bool, requested: Option<u64>, author: u64) -> (r: Option<u64>)
    ensures
        r == warnings_shown(may_manage_messages, requested, author),
{
    if !may_manage_messages && requested.is_some() {
        return None;
    }
    match requested {
        Some(u) => Some(u),
        None => Some(author),
    }
}

/// How the warning at position `index` (from 0) of a member's list reads.
pub open spec fn warning_entry(index: nat, w: Warning) -> Seq<char> {
    "**Warning "@ + decimal(index + 1) + " by "@ + mention(w.issuer) + ":**\n\nReason: "@ + w.reason@
        + (if w.expires_timestamp == 0 {
        Seq::<char>::empty()
    } else {
        "\nExpires at "@ + "<t:"@ + decimal(w.expires_timestamp as nat) + ">"@ + "."@
    })
}

/// The pages that list a member's warnings, one warning a page.
pub fn warning_entries(warnings: &Vec<Warning>) -> (r: Vec<String>)
    ensures
        r@.len() == warnings@.len(),
        forall|i: int| 0 <= i < r@.len() ==> #[trigger] r@[i]@ == warning_entry(i as nat, warnings@[i]),
{
    let mut r: Vec<String> = Vec::new();
    let mut i: usize = 0;
    while i < warnings.len()
        invariant
            i <= warnings.len(),
            r@.len() == i,
            forall|j: int| 0 <= j < i ==> #[trigger] r@[j]@ == warning_entry(j as nat, warnings@[j]),
        decreases warnings.len() - i,
    {
        let w = &warnings[i];
        let mut s = String::from_str("**Warning ");
        push_decimal(&mut s, (i + 1) as u64);
        s.append(" by ");
        push_mention(&mut s, w.issuer);
        s.append(":**\n\nReason: ");
        s.append(w.reason.as_str());
        if w.expires_timestamp != 0 {
            s.append("\nExpires at ");
            push_timestamp(&mut s, w.expires_timestamp);
            s.append(".");
        }
        assert(s@ =~= warning_entry(i as nat, warnings@[i as int]));
        r.push(s);
        i = i + 1;
    }
    r
}

} // verus!

verus! {

/// A warning whose length cannot be read never expires.
pub proof fn law_unreadable_length_never_expires(time: Seq<char>, now: nat)
    requires
        !length_is_valid(time),
    ensures
        expiry_at(time, now) == 0,
{
}

/// Giving a warning `k` seconds later moves its expiry `k` seconds later.
pub proof fn law_expiry_shifts_with_clock(time: Seq<char>, now: nat, k: nat)
    requires
        length_is_valid(time),
    ensures
        expiry_at(time, now + k) == expiry_at(time, now) + k,
{
}

/// The units agree with one another: a day is 24 hours, a week 7 days, a
/// month 30 days and a year 365 days; so `48h` and `2d`, `14d` and `2w`,
/// `30d` and `1m`, `365d` and `1y` are the same length.
pub proof fn law_unit_ratios(count: nat)
    ensures
        (count * 24) * unit_seconds('h') == count * unit_seconds('d'),
        (count * 7) * unit_seconds('d') == count * unit_seconds('w'),
        (count * 30) * unit_seconds('d') == count * unit_seconds('m'),
        (count * 365) * unit_seconds('d') == count * unit_seconds('y'),
{
    assert((count * 24) * 3600 == count * 86400) by (nonlinear_arith);
    assert((count * 7) * 86400 == count * 604800) by (nonlinear_arith);
    assert((count * 30) * 86400 == count * 2592000) by (nonlinear_arith);
    assert((count * 365) * 86400 == count * 31536000) by (nonlinear_arith);
}

/// A longer count of the same unit gives a later expiry.
pub proof fn law_longer_count_expires_later(a: Seq<char>, b: Seq<char>, now: nat)
    requires
        length_is_valid(a),
        length_is_valid(b),
        a.last() == b.last(),
        length_count(a) < length_count(b),
    ensures
        expiry_at(a, now) < expiry_at(b, now),
{
    let u = unit_seconds(a.last());
    assert(length_count(a) * u < length_count(b) * u) by (nonlinear_arith)
        requires
            length_count(a) < length_count(b),
            u > 0,
    ;
}

/// A member who may not manage messages only ever sees their own
/// warnings.
pub proof fn law_only_own_warnings_without_permission(requested: Option<u64>, author: u64, shown: u64)
    requires
        warnings_shown(false, requested, author) == Some(shown),
    ensures
        shown == author,
{
}

} // verus!

verus! {

proof fn lemma_digit_value(d: nat)
    requires
        d < 10,
    ensures
        is_digit(digit_char(d)),
        ((digit_char(d) as nat) - ('0' as nat)) as nat == d,
{
}

proof fn lemma_decimal_parses(n: nat)
    ensures
        decimal(n).len() > 0,
        decimal(n)[0] != '+',
        forall|i: int| 0 <= i < decimal(n).len() ==> #[trigger] is_digit(decimal(n)[i]),
        digits_value(decimal(n)) == n,
    decreases n,
{
    if n >= 10 {
        lemma_decimal_parses(n / 10);
        lemma_digit_value(n % 10);
        let s = decimal(n);
        assert(s.drop_last() =~= decimal(n / 10));
        assert(s[0] == decimal(n / 10)[0]);
        assert(s.last() == digit_char(n % 10));
        assert(digits_value(s) == digits_value(decimal(n / 10)) * 10 + n % 10);
        assert((n / 10) * 10 + n % 10 == n);
    } else {
        lemma_digit_value(n);
        let s = decimal(n);
        assert(s.drop_last() =~= Seq::<char>::empty());
        assert(digits_value(Seq::<char>::empty()) == 0);
        assert(s.last() == digit_char(n));
        assert(digits_value(s) == digits_value(s.drop_last()) * 10 + ((s.last() as nat) - ('0' as nat)) as nat);
    }
}

/// The value of a count written in decimal.
proof fn lemma_written_count(c: u64, unit: char)
    ensures
        decimal(c as nat).push(unit).drop_last() =~= decimal(c as nat),
        decimal(c as nat).push(unit).last() == unit,
        parse_u64_spec(decimal(c as nat)) == Some(c as nat),
{
    lemma_decimal_parses(c as nat);
    assert(unsigned_digits(decimal(c as nat)) == decimal(c as nat));
}

/// A warning given at `now` with a length written as a count `c` followed
/// by a unit expires `c` days, hours, weeks, months (30 days) or years (365
/// days) later: `48h` at `now` expires at `now + 48 * 3600`.
pub proof fn law_written_length_expiry(c: u64, now: nat)
    ensures
        expiry_at(decimal(c as nat).push('d'), now) == now + c * 86400,
        expiry_at(decimal(c as nat).push('h'), now) == now + c * 3600,
        expiry_at(decimal(c as nat).push('w'), now) == now + c * 604800,
        expiry_at(decimal(c as nat).push('m'), now) == now + c * 2592000,
        expiry_at(decimal(c as nat).push('y'), now) == now + c * 31536000,
{
    lemma_written_count(c, 'd');
    lemma_written_count(c, 'h');
    lemma_written_count(c, 'w');
    lemma_written_count(c, 'm');
    lemma_written_count(c, 'y');
}

/// A length written as a count followed by anything other than `d`, `h`,
/// `w`, `m` or `y` gives a warning that never expires.
pub proof fn law_unknown_unit_never_expires(c: u64, unit: char, now: nat)
    requires
        unit != 'd' && unit != 'h' && unit != 'w' && unit != 'm' && unit != 'y',
    ensures
        expiry_at(decimal(c as nat).push(unit), now) == 0,
{
    lemma_written_count(c, unit);
}

} // verus!
