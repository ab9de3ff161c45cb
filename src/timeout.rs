//! The duration grammar of instance timeouts: one or more groups of a decimal
//! number followed by a unit `h`, `m` or `s`, in any order, summed.
use crate::error::Error;
use crate::model::ChallengeInstance;
use crate::text::{chars_of, owned};
use crate::time::{format_rfc3339, parse_rfc3339, rfc3339_instant, rfc3339_text, MICROS_PER_SECOND};
use vstd::prelude::*;

verus! {

/// Whether `c` is an ASCII decimal digit.
pub open spec fn is_digit(c: char) -> bool {
    '0' <= c && c <= '9'
}

/// The value of the decimal digit `c`.
pub open spec fn digit_value(c: char) -> int {
    c as int - '0' as int
}

/// Seconds in one unit `c`, or 0 when `c` is no unit.
pub open spec fn unit_seconds(c: char) -> int {
    if c == 'h' {
        3600
    } else if c == 'm' {
        60
    } else if c == 's' {
        1
    } else {
        0
    }
}

/// The state of a left-to-right reading: (no error so far, a number is open,
/// value of the open number, seconds of the closed groups).
pub type Scan = (bool, bool, int, int);

/// One character of the reading.
pub open spec fn scan_step(st: Scan, c: char) -> Scan {
    if !st.0 {
        st
    } else if is_digit(c) {
        (true, true, st.2 * 10 + digit_value(c), st.3)
    } else if st.1 && unit_seconds(c) > 0 {
        (true, false, 0, st.3 + st.2 * unit_seconds(c))
    } else {
        (false, st.1, st.2, st.3)
    }
}

/// The reading of the whole of `s`.
pub open spec fn scan(s: Seq<char>) -> Scan
    decreases s.len(),
{
    if s.len() == 0 {
        (true, false, 0, 0)
    } else {
        scan_step(scan(s.drop_last()), s.last())
    }
}

/// The seconds that the timeout text `s` stands for, or `None` when `s` is
/// empty, holds anything but digits and units, has a unit without a number
/// or ends in a number without a unit.
pub open spec fn timeout_seconds(s: Seq<char>) -> Option<int> {
    let st = scan(s);
    if s.len() > 0 && st.0 && !st.1 {
        Some(st.3)
    } else {
        None
    }
}

/// Seconds of closed groups plus the open number: it never falls as the reading goes on.
pub open spec fn progress(st: Scan) -> int {
    st.3 + st.2
}

proof fn scan_nonneg(s: Seq<char>)
    ensures
        scan(s).2 >= 0,
        scan(s).3 >= 0,
    decreases s.len(),
{
    if s.len() > 0 {
        scan_nonneg(s.drop_last());
    }
}

/// Along a reading that stays free of errors, `progress` never falls.
proof fn scan_progress(s: Seq<char>, i: int)
    requires
        0 <= i <= s.len(),
        scan(s).0,
    ensures
        scan(s.subrange(0, i)).0,
        progress(scan(s)) >= progress(scan(s.subrange(0, i))),
    decreases s.len(),
{
    if i == s.len() {
        assert(s.subrange(0, i) =~= s);
    } else {
        let t = s.drop_last();
        scan_nonneg(t);
        assert(scan(t).0);
        let c = s.last();
        if is_digit(c) {
            assert(scan(t).2 * 10 + digit_value(c) >= scan(t).2) by (nonlinear_arith)
                requires
                    scan(t).2 >= 0,
                    digit_value(c) >= 0,
            ;
        } else {
            assert(scan(t).2 * unit_seconds(c) >= scan(t).2) by (nonlinear_arith)
                requires
                    scan(t).2 >= 0,
                    unit_seconds(c) >= 1,
            ;
        }
        scan_progress(t, i);
        assert(t.subrange(0, i) =~= s.subrange(0, i));
    }
}

/// The largest number of seconds a timeout may come to.
pub const MAX_TIMEOUT_SECONDS: i64 = 0x7fff_ffff_ffff_ffff;

/// Parses a timeout such as `2h`, `30m` or `1h30m15s` into seconds.
pub fn parse_timeout(timeout_str: &str) -> (r: Result<i64, Error>)
    ensures
        r is Ok <==> (timeout_seconds(timeout_str@) is Some && timeout_seconds(timeout_str@)->0
            <= MAX_TIMEOUT_SECONDS),
        r matches Ok(n) ==> timeout_seconds(timeout_str@) == Some(n as int),
        r matches Err(e) ==> e is TimeoutParseError,
{
    let cs = chars_of(timeout_str);
    let ghost s = timeout_str@;
    let mut total: i64 = 0;
    let mut cur: i64 = 0;
    let mut open = false;
    let mut i: usize = 0;
    while i < cs.len()
        invariant
            s == timeout_str@,
            cs@ == s,
            i <= s.len(),
            scan(s.subrange(0, i as int)) == (true, open, cur as int, total as int),
        decreases s.len() - i,
    {
        let c = cs[i];
        proof {
            assert(s.subrange(0, i + 1).drop_last() =~= s.subrange(0, i as int));
            assert(s.subrange(0, i + 1).last() == c);
            assert(scan(s.subrange(0, i + 1)) == scan_step(scan(s.subrange(0, i as int)), c));
        }
        if '0' <= c && c <= '9' {
            let d = (c as u32 - '0' as u32) as i64;
            assert(d == digit_value(c));
            let next = match cur.checked_mul(10) {
                Some(t) => t.checked_add(d),
                None => None,
            };
            match next {
                Some(v) => {
                    cur = v;
                    open = true;
                },
                None => {
                    proof {
                        scan_nonneg(s.subrange(0, i as int));
                        if scan(s).0 {
                            scan_progress(s, i + 1);
                        }
                    }
                    return Err(Error::TimeoutParseError(owned("timeout exceeds the largest duration")));
                },
            }
        } else if open && (c == 'h' || c == 'm' || c == 's') {
            let u: i64 = if c == 'h' {
                3600
            } else if c == 'm' {
                60
            } else {
                1
            };
            let next = match cur.checked_mul(u) {
                Some(t) => total.checked_add(t),
                None => None,
            };
            match next {
                Some(v) => {
                    total = v;
                    cur = 0;
                    open = false;
                },
                None => {
                    proof {
                        scan_nonneg(s.subrange(0, i as int));
                        if scan(s).0 {
                            scan_progress(s, i + 1);
                        }
                    }
                    return Err(Error::TimeoutParseError(owned("timeout exceeds the largest duration")));
                },
            }
        } else {
            proof {
                assert(!scan(s.subrange(0, i + 1)).0);
                if scan(s).0 {
                    scan_progress(s, i + 1);
                }
            }

            return Err(Error::TimeoutParseError(owned("timeout holds a character that is no digit or unit")));
        }
        i += 1;
    }
    proof {
        assert(s.subrange(0, s.len() as int) =~= s);
    }
    if i == 0 {
        return Err(Error::TimeoutParseError(owned("timeout is empty")));
    }
    if open {
        return Err(Error::TimeoutParseError(owned("timeout must end with a unit (h/m/s)")));
    }
    Ok(total)
}

/// Whether `s` is a non-empty run of decimal digits.
pub open spec fn is_number(s: Seq<char>) -> bool {
    s.len() > 0 && forall|i: int| 0 <= i < s.len() ==> is_digit(#[trigger] s[i])
}

proof fn scan_concat(a: Seq<char>, b: Seq<char>)
    requires
        scan(a).0,
        !scan(a).1,
    ensures
        scan(a + b) == (scan(b).0, scan(b).1, scan(b).2, scan(a).3 + scan(b).3),
    decreases b.len(),
{
    if b.len() == 0 {
        assert(a + b =~= a);
    } else {
        scan_concat(a, b.drop_last());
        assert((a + b).drop_last() =~= a + b.drop_last());
        assert((a + b).last() == b.last());
    }
}

proof fn scan_number(s: Seq<char>)
    requires
        is_number(s),
    ensures
        scan(s).0,
        scan(s).1,
        scan(s).3 == 0,
    decreases s.len(),
{
    if s.len() > 1 {
        assert(is_number(s.drop_last())) by {
            assert forall|i: int| 0 <= i < s.drop_last().len() implies is_digit(#[trigger] s.drop_last()[i]) by {
                assert(s.drop_last()[i] == s[i]);
            }
        }
        scan_number(s.drop_last());
    } else {
        assert(s.drop_last() =~= Seq::<char>::empty());
        assert(scan(s.drop_last()) == (true, false, 0int, 0int));
    }
    assert(is_digit(s[s.len() - 1]));
    assert(s.last() == s[s.len() - 1]);
    assert(scan(s) == scan_step(scan(s.drop_last()), s.last()));
}

/// A number followed by a unit is a valid timeout of the number times the unit.
proof fn number_unit(n: Seq<char>, u: char)
    requires
        is_number(n),
        unit_seconds(u) > 0,
    ensures
        timeout_seconds(n.push(u)) == Some(scan(n).2 * unit_seconds(u)),
{
    scan_number(n);
    assert(n.push(u).drop_last() =~= n);
}

/// Two valid timeouts written one after the other form a valid timeout of
/// their summed seconds.
pub proof fn timeout_concat(a: Seq<char>, b: Seq<char>)
    requires
        timeout_seconds(a) is Some,
        timeout_seconds(b) is Some,
    ensures
        timeout_seconds(a + b) == Some(timeout_seconds(a)->0 + timeout_seconds(b)->0),
{
    scan_concat(a, b);
}

/// For numbers `X`, `Y` and `Z`, the seconds of `Xh`, `Ym` and `Zs` add up to
/// those of `XhYmZs`.
pub proof fn timeout_groups_sum(x: Seq<char>, y: Seq<char>, z: Seq<char>)
    requires
        is_number(x),
        is_number(y),
        is_number(z),
    ensures
        timeout_seconds(x.push('h')) is Some,
        timeout_seconds(y.push('m')) is Some,
        timeout_seconds(z.push('s')) is Some,
        timeout_seconds(x.push('h') + y.push('m') + z.push('s')) == Some(
            timeout_seconds(x.push('h'))->0 + timeout_seconds(y.push('m'))->0 + timeout_seconds(
                z.push('s'),
            )->0,
        ),
{
    number_unit(x, 'h');
    number_unit(y, 'm');
    number_unit(z, 's');
    timeout_concat(x.push('h'), y.push('m'));
    timeout_concat(x.push('h') + y.push('m'), z.push('s'));
}

/// Whether the RFC 3339 text `expires_at` names an instant strictly before `now`.
pub open spec fn expired_at(expires_at: Option<String>, now: i64) -> bool {
    match expires_at {
        Some(t) => match rfc3339_instant(t@) {
            Some(e) => now > e,
            None => false,
        },
        None => false,
    }
}

/// Whether the instance's recorded expiry is a valid instant strictly before `now`.
pub open spec fn instance_expired(i: ChallengeInstance, now: i64) -> bool {
    match i.status {
        Some(s) => expired_at(s.expires_at, now),
        None => false,
    }
}

/// Checks whether an instance has expired at `now` (microseconds since the epoch).
pub fn is_expired(instance: &ChallengeInstance, now: i64) -> (r: bool)
    ensures
        r == instance_expired(*instance, now),
{
    if let Some(status) = &instance.status {
        if let Some(t) = &status.expires_at {
            if let Some(e) = parse_rfc3339(t.as_str()) {
                return now > e;
            }
        }
    }
    false
}

/// The instant, in microseconds, that lies `timeout` after `now`, when the
/// timeout is valid.
pub open spec fn expiry_instant(timeout: Seq<char>, now: i64) -> Option<int> {
    match timeout_seconds(timeout) {
        Some(t) => Some(now + t * MICROS_PER_SECOND),
        None => None,
    }
}

/// Whether the timeout is valid and its expiry fits the range of instants.
pub open spec fn expiry_representable(timeout: Seq<char>, now: i64) -> bool {
    &&& timeout_seconds(timeout) is Some
    &&& timeout_seconds(timeout)->0 <= MAX_TIMEOUT_SECONDS
    &&& expiry_instant(timeout, now)->0 <= i64::MAX
    &&& expiry_instant(timeout, now)->0 >= i64::MIN
    &&& rfc3339_text(expiry_instant(timeout, now)->0 as i64) is Some
}

/// The RFC 3339 text of the instant `timeout` after `now`.
pub fn calculate_expiry(timeout_str: &str, now: i64) -> (r: Result<String, Error>)
    ensures
        r is Ok <==> expiry_representable(timeout_str@, now),
        r matches Ok(t) ==> rfc3339_text(expiry_instant(timeout_str@, now)->0 as i64) == Some(t@),
        r matches Err(e) ==> e is TimeoutParseError,
{
    let secs = match parse_timeout(timeout_str) {
        Ok(s) => s,
        Err(e) => return Err(e),
    };
    proof {
        scan_nonneg(timeout_str@);
    }
    assert(0 <= secs as int * MICROS_PER_SECOND <= 0x7fff_ffff_ffff_ffff * 1_000_000) by (nonlinear_arith)
        requires
            0 <= secs <= 0x7fff_ffff_ffff_ffff,
    ;
    let at: i128 = now as i128 + secs as i128 * (MICROS_PER_SECOND as i128);
    if at > i64::MAX as i128 || at < i64::MIN as i128 {
        return Err(Error::TimeoutParseError(owned("expiry lies outside the range of dates")));
    }
    match format_rfc3339(at as i64) {
        Some(t) => Ok(t),
        None => Err(Error::TimeoutParseError(owned("expiry lies outside the range of dates"))),
    }
}

/// Whole seconds from `now` until the instant `e`, rounded up; `e` is not before `now`.
pub open spec fn seconds_until(e: int, now: int) -> int {
    (e - now + MICROS_PER_SECOND - 1) / (MICROS_PER_SECOND as int)
}

/// Seconds until the RFC 3339 instant `expires_at` (0 once it is reached),
/// or `None` when there is none or it is unreadable.
pub open spec fn time_left(expires_at: Option<String>, now: i64) -> Option<int> {
    match expires_at {
        Some(t) => match rfc3339_instant(t@) {
            Some(e) => if e >= now {
                Some(seconds_until(e as int, now as int))
            } else {
                Some(0)
            },
            None => None,
        },
        None => None,
    }
}

/// Computes the whole seconds, rounded up, until `expires_at`; 0 once it is reached.
pub fn seconds_left(expires_at: &Option<String>, now: i64) -> (r: Option<u64>)
    ensures
        match time_left(*expires_at, now) {
            Some(s) => r == Some(s as u64),
            None => r is None,
        },
{
    if let Some(t) = expires_at {
        if let Some(e) = parse_rfc3339(t.as_str()) {
            if e >= now {
                let d: i128 = e as i128 - now as i128;
                let s: i128 = (d + 999_999) / 1_000_000;
                assert(s == seconds_until(e as int, now as int));
                assert(0 <= s <= u64::MAX) by (nonlinear_arith)
                    requires
                        s == (d + 999_999) / 1_000_000,
                        0 <= d <= 0x1_0000_0000_0000_0000,
                ;
                return Some(s as u64);
            }
            return Some(0);
        }
    }
    None
}

} // verus!
