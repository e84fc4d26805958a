//! Structural parsing of session tokens `user-<digits>.<expiry>.<signature>`.
//! No signature or expiry check happens here.

use crate::error::APIError;
use vstd::prelude::*;

verus! {

/// An ASCII decimal digit.
pub open spec fn is_digit(c: char) -> bool {
    '0' <= c && c <= '9'
}

/// The value of an ASCII digit.
pub open spec fn digit_value(c: char) -> nat {
    ((c as u32) - ('0' as u32)) as nat
}

/// The number that a run of ASCII digits writes in decimal.
pub open spec fn digits_value(s: Seq<char>) -> nat
    decreases s.len(),
{
    if s.len() == 0 {
        0
    } else {
        digits_value(s.drop_last()) * 10 + digit_value(s.last())
    }
}

/// `t` splits as `user-<digits>.<exp>.<sign><tail>`: the digits are ASCII,
/// expiry and signature are non-empty single-line text, the signature has no
/// `.` before its last character (the expiry takes the longest possible run),
/// and whatever follows starts a new line.
pub open spec fn token_shape(
    t: Seq<char>,
    digits: Seq<char>,
    exp: Seq<char>,
    sign: Seq<char>,
    tail: Seq<char>,
) -> bool {
    &&& t == "user-"@ + digits + "."@ + exp + "."@ + sign + tail
    &&& digits.len() > 0
    &&& forall|i: int| 0 <= i < digits.len() ==> is_digit(#[trigger] digits[i])
    &&& exp.len() > 0
    &&& forall|i: int| 0 <= i < exp.len() ==> #[trigger] exp[i] != '\n'
    &&& sign.len() > 0
    &&& forall|i: int| 0 <= i < sign.len() ==> #[trigger] sign[i] != '\n'
    &&& forall|i: int| 0 <= i < sign.len() - 1 ==> #[trigger] sign[i] != '.'
    &&& (tail.len() == 0 || tail[0] == '\n')
}

/// A token that splits as `token_shape` says, with a user id that fits in `u64`.
pub open spec fn token_accepted(t: Seq<char>) -> bool {
    exists|digits: Seq<char>, exp: Seq<char>, sign: Seq<char>, tail: Seq<char>|
        #[trigger] token_shape(t, digits, exp, sign, tail) && digits_value(digits)
            <= u64::MAX as nat
}

/// The parts that `parse_token` hands back for `t`.
pub open spec fn token_parts(t: Seq<char>, user_id: u64, exp: Seq<char>, sign: Seq<char>) -> bool {
    exists|digits: Seq<char>, tail: Seq<char>|
        #[trigger] token_shape(t, digits, exp, sign, tail) && digits_value(digits) == user_id as nat
}

proof fn lemma_digits_value_push(s: Seq<char>, c: char)
    ensures
        digits_value(s.push(c)) == digits_value(s) * 10 + digit_value(c),
{
    assert(s.push(c).drop_last() =~= s);
}

proof fn lemma_digits_value_grows(s: Seq<char>, k: int)
    requires
        0 <= k <= s.len(),
    ensures
        digits_value(s.subrange(0, k)) <= digits_value(s),
    decreases s.len() - k,
{
    if k < s.len() {
        lemma_digits_value_grows(s, k + 1);
        lemma_digits_value_push(s.subrange(0, k), s[k]);
        assert(s.subrange(0, k).push(s[k]) =~= s.subrange(0, k + 1));
    } else {
        assert(s.subrange(0, k) =~= s);
    }
}

/// A token splits in at most one way.
pub proof fn lemma_token_shape_unique(
    t: Seq<char>,
    d1: Seq<char>,
    e1: Seq<char>,
    s1: Seq<char>,
    t1: Seq<char>,
    d2: Seq<char>,
    e2: Seq<char>,
    s2: Seq<char>,
    t2: Seq<char>,
)
    requires
        token_shape(t, d1, e1, s1, t1),
        token_shape(t, d2, e2, s2, t2),
    ensures
        d1 == d2,
        e1 == e2,
        s1 == s2,
        t1 == t2,
{
    reveal_strlit("user-");
    reveal_strlit(".");
    lemma_shape_index(t, d1, e1, s1, t1);
    lemma_shape_index(t, d2, e2, s2, t2);
    // The digit run ends at the first `.`.
    if (d1.len() as int) < (d2.len() as int) {
        assert(t[5 + (d1.len() as int)] == '.');
        assert(is_digit(d2[(d1.len() as int)]));
    }
    if (d2.len() as int) < (d1.len() as int) {
        assert(t[5 + (d2.len() as int)] == '.');
        assert(is_digit(d1[(d2.len() as int)]));
    }
    assert((d1.len() as int) == (d2.len() as int));
    let a = 5 + (d1.len() as int) + 1;
    let end1 = a + (e1.len() as int) + 1 + (s1.len() as int);
    let end2 = a + (e2.len() as int) + 1 + (s2.len() as int);
    // The line ends at the first newline, or at the end of the token.
    if end1 < end2 {
        assert(t[end1] == t1[0]);
        assert(t[end1] != '\n');
    }
    if end2 < end1 {
        assert(t[end2] == t2[0]);
        assert(t[end2] != '\n');
    }
    assert(end1 == end2);
    // The expiry reaches the last `.` that leaves a signature behind it.
    if (e1.len() as int) < (e2.len() as int) {
        assert(t[a + (e2.len() as int)] == '.');
        assert(s1[(e2.len() as int) - (e1.len() as int) - 1] == '.');
    }
    if (e2.len() as int) < (e1.len() as int) {
        assert(t[a + (e1.len() as int)] == '.');
        assert(s2[(e1.len() as int) - (e2.len() as int) - 1] == '.');
    }
    assert(d1 =~= t.subrange(5, 5 + (d1.len() as int)));
    assert(d2 =~= t.subrange(5, 5 + (d2.len() as int)));
    assert(e1 =~= t.subrange(a, a + (e1.len() as int)));
    assert(e2 =~= t.subrange(a, a + (e2.len() as int)));
    assert(s1 =~= t.subrange(a + (e1.len() as int) + 1, end1));
    assert(s2 =~= t.subrange(a + (e2.len() as int) + 1, end2));
    assert(t1 =~= t.subrange(end1, (t.len() as int)));
    assert(t2 =~= t.subrange(end2, (t.len() as int)));
}

/// Where each part of a split token sits.
proof fn lemma_shape_index(t: Seq<char>, d: Seq<char>, e: Seq<char>, s: Seq<char>, tl: Seq<char>)
    requires
        token_shape(t, d, e, s, tl),
    ensures
        (t.len() as int) == 5 + (d.len() as int) + 1 + (e.len() as int) + 1 + (s.len() as int) + (tl.len() as int),
        t.subrange(0, 5) == "user-"@,
        forall|i: int| 0 <= i < (d.len() as int) ==> t[5 + i] == #[trigger] d[i],
        t[5 + (d.len() as int)] == '.',
        forall|i: int| 0 <= i < (e.len() as int) ==> t[5 + (d.len() as int) + 1 + i] == #[trigger] e[i],
        t[5 + (d.len() as int) + 1 + (e.len() as int)] == '.',
        forall|i: int|
            0 <= i < (s.len() as int) ==> t[5 + (d.len() as int) + 1 + (e.len() as int) + 1 + i] == #[trigger] s[i],
        forall|i: int|
            0 <= i < (tl.len() as int) ==> t[5 + (d.len() as int) + 1 + (e.len() as int) + 1 + (s.len() as int) + i]
                == #[trigger] tl[i],
{
    reveal_strlit("user-");
    reveal_strlit(".");
    let u = "user-"@;
    let dot = "."@;
    assert(t == u + d + dot + e + dot + s + tl);
    assert(t.subrange(0, 5) =~= u);
}


/// In a split token, the digit run ends where the leading run of ASCII
/// digits after `user-` ends.
proof fn lemma_shape_digits_end(
    t: Seq<char>,
    d: Seq<char>,
    e: Seq<char>,
    s: Seq<char>,
    tl: Seq<char>,
    i: int,
)
    requires
        token_shape(t, d, e, s, tl),
        5 <= i <= t.len(),
        forall|j: int| 5 <= j < i ==> is_digit(#[trigger] t[j]),
        i == t.len() || !is_digit(t[i]),
    ensures
        (d.len() as int) == i - 5,
{
    lemma_shape_index(t, d, e, s, tl);
    if 5 + (d.len() as int) < i {
        assert(is_digit(t[5 + (d.len() as int)]));
    }
    if 5 + (d.len() as int) > i {
        assert(t[i] == d[i - 5]);
    }
}

/// In a split token, the signature ends where the first line of the text
/// after the digits ends.
proof fn lemma_shape_line_end(
    t: Seq<char>,
    d: Seq<char>,
    e: Seq<char>,
    s: Seq<char>,
    tl: Seq<char>,
    le: int,
)
    requires
        token_shape(t, d, e, s, tl),
        6 + (d.len() as int) <= le <= t.len(),
        forall|m: int| 6 + (d.len() as int) <= m < le ==> #[trigger] t[m] != '\n',
        le == t.len() || t[le] == '\n',
    ensures
        6 + (d.len() as int) + (e.len() as int) + 1 + (s.len() as int) == le,
{
    lemma_shape_index(t, d, e, s, tl);
    let a = 6 + (d.len() as int);
    let end = a + (e.len() as int) + 1 + (s.len() as int);
    if end < le {
        assert(t[end] == tl[0]);
    }
    if le < end {
        if le < a + (e.len() as int) {
            assert(t[le] == e[le - a]);
        } else if le > a + (e.len() as int) {
            assert(t[le] == s[le - a - (e.len() as int) - 1]);
        }
    }
}

/// Splits a session token into user id, expiry and signature.
///
/// The token must read `user-<digits>.<exp>.<sign>` as `token_shape`
/// describes, with a user id that fits in `u64`; anything else is
/// `AuthFailTokenWrongFormat`. Expiry and signature are handed back as they
/// stand, unchecked.
pub fn parse_token(token: &str) -> (r: Result<(u64, String, String), APIError>)
    ensures
        match r {
            Ok((user_id, exp, sign)) => token_parts(token@, user_id, exp@, sign@),
            Err(e) => e == APIError::AuthFailTokenWrongFormat && !token_accepted(token@),
        },
{
    let ghost t = token@;
    let n = token.unicode_len();
    let prefix: &str = "user-";
    proof {
        reveal_strlit("user-");
        reveal_strlit(".");
    }
    if n < 5 {
        proof {
            if token_accepted(t) {
                let (d, e, s, tl) = choose|d: Seq<char>, e: Seq<char>, s: Seq<char>, tl: Seq<char>|
                    #[trigger] token_shape(t, d, e, s, tl) && digits_value(d) <= u64::MAX as nat;
                lemma_shape_index(t, d, e, s, tl);
            }
        }
        return Err(APIError::AuthFailTokenWrongFormat);
    }
    let mut k: usize = 0;
    while k < 5
        invariant
            k <= 5,
            n == t.len(),
            n >= 5,
            token@ == t,
            prefix@ == "user-"@,
            "user-"@.len() == 5,
            forall|j: int| 0 <= j < k ==> t[j] == "user-"@[j],
        decreases 5 - k,
    {
        if token.get_char(k) != prefix.get_char(k) {
            proof {
                if token_accepted(t) {
                    let (d, e, s, tl) = choose|
                        d: Seq<char>,
                        e: Seq<char>,
                        s: Seq<char>,
                        tl: Seq<char>,
                    | #[trigger] token_shape(t, d, e, s, tl) && digits_value(d) <= u64::MAX as nat;
                    lemma_shape_index(t, d, e, s, tl);
                    assert(t.subrange(0, 5)[k as int] == t[k as int]);
                }
            }
            return Err(APIError::AuthFailTokenWrongFormat);
        }
        k = k + 1;
    }
    assert(t.subrange(0, 5) =~= "user-"@);
    // The leading digit run, and the number it writes.
    let mut i: usize = 5;
    let mut value: u64 = 0;
    loop
        invariant
            5 <= i <= n,
            n == t.len(),
            token@ == t,
            t.subrange(0, 5) == "user-"@,
            forall|j: int| 5 <= j < i ==> is_digit(#[trigger] t[j]),
            value as nat == digits_value(t.subrange(5, i as int)),
        ensures
            i == n || !is_digit(t[i as int]),
        decreases n - i,
    {
        if i == n {
            break;
        }
        let c = token.get_char(i);
        if !('0' <= c && c <= '9') {
            break;
        }
        let dv: u64 = (c as u32 - '0' as u32) as u64;
        proof {
            lemma_digits_value_push(t.subrange(5, i as int), c);
            assert(t.subrange(5, i as int).push(c) =~= t.subrange(5, i + 1));
        }
        let next = match value.checked_mul(10) {
            Some(v) => v.checked_add(dv),
            None => None,
        };
        match next {
            Some(v) => {
                value = v;
            },
            None => {
                proof {
                    if token_accepted(t) {
                        let (d, e, s, tl) = choose|
                            d: Seq<char>,
                            e: Seq<char>,
                            s: Seq<char>,
                            tl: Seq<char>,
                        | #[trigger] token_shape(t, d, e, s, tl) && digits_value(d)
                            <= u64::MAX as nat;
                        lemma_shape_index(t, d, e, s, tl);
                        // The run of `d` reaches at least one past `i`.
                        if (d.len() as int) <= i - 5 {
                            assert(t[5 + (d.len() as int)] == '.');
                            assert(is_digit(t[5 + (d.len() as int)]));
                        }
                        assert(d.subrange(0, i + 1 - 5) =~= t.subrange(5, i + 1));
                        lemma_digits_value_grows(d, i + 1 - 5);
                    }
                }
                return Err(APIError::AuthFailTokenWrongFormat);
            },
        }
        i = i + 1;
    }
    if i == 5 || i == n || token.get_char(i) != '.' {
        proof {
            if token_accepted(t) {
                let (d, e, s, tl) = choose|d: Seq<char>, e: Seq<char>, s: Seq<char>, tl: Seq<char>|
                    #[trigger] token_shape(t, d, e, s, tl) && digits_value(d) <= u64::MAX as nat;
                lemma_shape_index(t, d, e, s, tl);
                lemma_shape_digits_end(t, d, e, s, tl, i as int);
            }
        }
        return Err(APIError::AuthFailTokenWrongFormat);
    }
    // The end of the first line after the `.`.
    let mut le: usize = i + 1;
    loop
        invariant
            i + 1 <= le <= n,
            n == t.len(),
            token@ == t,
            5 <= i < n,
            t[i as int] == '.',
            t.subrange(0, 5) == "user-"@,
            forall|j: int| 5 <= j < i ==> is_digit(#[trigger] t[j]),
            value as nat == digits_value(t.subrange(5, i as int)),
            forall|m: int| i + 1 <= m < le ==> #[trigger] t[m] != '\n',
        ensures
            le == n || t[le as int] == '\n',
        decreases n - le,
    {
        if le == n || token.get_char(le) == '\n' {
            break;
        }
        le = le + 1;
    }
    // The last `.` that leaves a non-empty expiry before it and a non-empty
    // signature after it.
    if le - i < 4 {
        proof {
            if token_accepted(t) {
                let (d, e, s, tl) = choose|d: Seq<char>, e: Seq<char>, s: Seq<char>, tl: Seq<char>|
                    #[trigger] token_shape(t, d, e, s, tl) && digits_value(d) <= u64::MAX as nat;
                lemma_shape_digits_end(t, d, e, s, tl, i as int);
                lemma_shape_line_end(t, d, e, s, tl, le as int);
            }
        }
        return Err(APIError::AuthFailTokenWrongFormat);
    }
    let mut q: usize = le - 1;
    loop
        invariant_except_break
            forall|m: int| q <= m < le - 1 ==> #[trigger] t[m] != '.',
        invariant
            i + 2 <= q <= le - 1,
            le <= n,
            n == t.len(),
            token@ == t,
            5 <= i < n,
            t[i as int] == '.',
            t.subrange(0, 5) == "user-"@,
            forall|j: int| 5 <= j < i ==> is_digit(#[trigger] t[j]),
            value as nat == digits_value(t.subrange(5, i as int)),
            forall|m: int| i + 1 <= m < le ==> #[trigger] t[m] != '\n',
            le == n || t[le as int] == '\n',
        ensures
            i + 2 <= q < le - 1,
            t[q as int] == '.',
            forall|m: int| q < m < le - 1 ==> #[trigger] t[m] != '.',
        decreases q,
    {
        if q == i + 2 {
            proof {
                if token_accepted(t) {
                    let (d, e, s, tl) = choose|
                        d: Seq<char>,
                        e: Seq<char>,
                        s: Seq<char>,
                        tl: Seq<char>,
                    | #[trigger] token_shape(t, d, e, s, tl) && digits_value(d) <= u64::MAX as nat;
                    lemma_shape_index(t, d, e, s, tl);
                    lemma_shape_digits_end(t, d, e, s, tl, i as int);
                    lemma_shape_line_end(t, d, e, s, tl, le as int);
                    assert(t[i + 1 + (e.len() as int)] == '.');
                }
            }
            return Err(APIError::AuthFailTokenWrongFormat);
        }
        q = q - 1;
        if token.get_char(q) == '.' {
            break;
        }
    }
    let p = q;
    let exp = String::from_str(token.substring_char(i + 1, p));
    let sign = String::from_str(token.substring_char(p + 1, le));
    proof {
        let d = t.subrange(5, i as int);
        let tl = t.subrange(le as int, n as int);
        assert(t =~= "user-"@ + d + "."@ + exp@ + "."@ + sign@ + tl);
        assert(token_shape(t, d, exp@, sign@, tl));
    }
    Ok((value, exp, sign))
}

} // verus!
