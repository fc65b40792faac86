use vstd::prelude::*;

verus! {

/// Whether `c` is an ASCII decimal digit.
pub open spec fn is_digit(c: char) -> bool {
    '0' <= c && c <= '9'
}

pub open spec fn all_digits(s: Seq<char>) -> bool {
    forall|i: int| 0 <= i < s.len() ==> is_digit(#[trigger] s[i])
}

/// The number written by a string of decimal digits, most significant first.
pub open spec fn decimal_value(s: Seq<char>) -> nat
    decreases s.len(),
{
    if s.len() == 0 {
        0
    } else {
        decimal_value(s.drop_last()) * 10 + (s.last() as nat - '0' as nat) as nat
    }
}

/// The digits of an unsigned number: an optional leading `+` is dropped.
pub open spec fn unsigned_digits(s: Seq<char>) -> Seq<char> {
    if s.len() > 0 && s[0] == '+' {
        s.drop_first()
    } else {
        s
    }
}

/// Whether `s` is the text of a `u32`: an optional `+`, then at least one digit,
/// with a value that fits in 32 bits.
pub open spec fn is_u32_text(s: Seq<char>) -> bool {
    let d = unsigned_digits(s);
    d.len() > 0 && all_digits(d) && decimal_value(d) <= u32::MAX
}

pub open spec fn u32_text_value(s: Seq<char>) -> u32 {
    decimal_value(unsigned_digits(s)) as u32
}

/// Where the last path segment of `s` begins: just after its last `/`, or at 0.
pub open spec fn segment_start(s: Seq<char>) -> int
    decreases s.len(),
{
    if s.len() == 0 {
        0
    } else if s.last() == '/' {
        s.len() as int
    } else {
        segment_start(s.drop_last())
    }
}

/// The text after the last `/` of `s` (all of `s` where it has none).
pub open spec fn last_segment(s: Seq<char>) -> Seq<char> {
    s.subrange(segment_start(s), s.len() as int)
}

/// The number an opaque identifier names, if its last segment is a `u32`.
pub open spec fn id_value(s: Seq<char>) -> Option<u32> {
    if is_u32_text(last_segment(s)) {
        Some(u32_text_value(last_segment(s)))
    } else {
        None
    }
}

pub proof fn lemma_segment_start_bounds(s: Seq<char>)
    ensures
        0 <= segment_start(s) <= s.len(),
    decreases s.len(),
{
    if s.len() > 0 && s.last() != '/' {
        lemma_segment_start_bounds(s.drop_last());
    }
}

/// Parses the text of a `u32` as std does: an optional `+` and decimal digits.
pub fn parse_u32(s: &str) -> (r: Option<u32>)
    ensures
        r == (if is_u32_text(s@) {
            Some(u32_text_value(s@))
        } else {
            None::<u32>
        }),
{
    let n = s.unicode_len();
    let mut start: usize = 0;
    if n > 0 && s.get_char(0) == '+' {
        start = 1;
    }
    let ghost d = unsigned_digits(s@);
    assert(d =~= s@.subrange(start as int, n as int));
    if start == n {
        return None;
    }
    let mut acc: u64 = 0;
    let mut overflow = false;
    let mut i: usize = start;
    while i < n
        invariant
            start <= i <= n,
            n == s@.len(),
            d == s@.subrange(start as int, n as int),
            d == unsigned_digits(s@),
            all_digits(d.take(i - start)),
            !overflow ==> acc == decimal_value(d.take(i - start)) && acc <= u32::MAX,
            overflow ==> decimal_value(d.take(i - start)) > u32::MAX,
        decreases n - i,
    {
        let c = s.get_char(i);
        if !('0' <= c && c <= '9') {
            assert(d[i - start] == s@[i as int]);
            assert(!is_digit(d[i - start]));
            assert(!all_digits(d));
            return None;
        }
        let ghost prev = d.take(i - start);
        let ghost next = d.take(i - start + 1);
        assert(next.drop_last() =~= prev);
        assert(next.last() == c);
        let digit = (c as u32 - '0' as u32) as u64;
        if !overflow {
            acc = acc * 10 + digit;
            if acc > u32::MAX as u64 {
                overflow = true;
            }
        } else {
            assert(decimal_value(next) >= decimal_value(prev)) by (nonlinear_arith)
                requires
                    decimal_value(next) == decimal_value(prev) * 10 + digit,
            ;
        }
        i = i + 1;
        assert(all_digits(next)) by {
            assert forall|j: int| 0 <= j < next.len() implies is_digit(#[trigger] next[j]) by {
                if j < prev.len() {
                    assert(next[j] == prev[j]);
                }
            }
        }
    }
    assert(d.take(n - start) =~= d);
    if overflow {
        None
    } else {
        Some(acc as u32)
    }
}

/// A numeric key decoded from an opaque identifier.
#[derive(Clone, Debug, PartialEq, Eq)]
pub struct Id(pub u32);

/// Why an opaque identifier could not be decoded.
#[derive(Clone, Debug, PartialEq, Eq)]
pub enum IdError {
    /// The identifier, as it was given.
    ParseError(String),
}

impl Id {
    /// Decodes `scheme://ns/Kind/<n>` into `n`: the text after the last `/`
    /// must be a `u32`, or the whole string is reported back as an error.
    pub fn try_from(value: &str) -> (r: Result<Id, IdError>)
        ensures
            id_value(value@) is Some ==> (r matches Ok(id) && id.0 == id_value(value@)->0),
            id_value(value@) is None ==> (r matches Err(IdError::ParseError(t)) && t@ == value@),
    {
        let n = value.unicode_len();
        let mut k: usize = 0;
        let mut i: usize = 0;
        while i < n
            invariant
                i <= n,
                n == value@.len(),
                k == segment_start(value@.take(i as int)),
            decreases n - i,
        {
            let ghost next = value@.take(i + 1);
            assert(next.drop_last() =~= value@.take(i as int));
            if value.get_char(i) == '/' {
                k = i + 1;
            }
            i = i + 1;
        }
        assert(value@.take(n as int) =~= value@);
        proof {
            lemma_segment_start_bounds(value@);
        }
        let part = value.substring_char(k, n);
        match parse_u32(part) {
            Some(id) => Ok(Id(id)),
            None => Err(IdError::ParseError(value.to_owned())),
        }
    }
}

proof fn lemma_segment_start_after(s: Seq<char>, k: int)
    requires
        0 < k <= s.len(),
        s[k - 1] == '/',
        forall|i: int| k <= i < s.len() ==> s[i] != '/',
    ensures
        segment_start(s) == k,
    decreases s.len(),
{
    if s.len() > k {
        lemma_segment_start_after(s.drop_last(), k);
    }
}

/// An identifier whose last segment is a number that fits in a `u32`
/// decodes to exactly that number, whatever precedes the last `/`.
pub proof fn lemma_id_of_digits(prefix: Seq<char>, digits: Seq<char>)
    requires
        digits.len() > 0,
        all_digits(digits),
        decimal_value(digits) <= u32::MAX,
    ensures
        id_value(prefix + seq!['/'] + digits) == Some(decimal_value(digits) as u32),
{
    let s = prefix + seq!['/'] + digits;
    let k = prefix.len() + 1int;
    assert forall|i: int| k <= i < s.len() implies s[i] != '/' by {
        assert(s[i] == digits[i - k]);
    }
    lemma_segment_start_after(s, k);
    assert(last_segment(s) =~= digits);
    assert(is_digit(digits[0]));
    assert(unsigned_digits(digits) == digits);
}

} // verus!
