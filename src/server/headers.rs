use vstd::prelude::*;
use vstd::string::*;

verus! {

/// The byte with ASCII upper-case letters turned to lower case.
pub open spec fn ascii_lower(b: u8) -> u8 {
    if 65 <= b <= 90 {
        (b + 32) as u8
    } else {
        b
    }
}

/// Whether two byte strings are equal when ASCII letters are compared without case.
pub open spec fn eq_ignore_ascii_case(a: Seq<u8>, b: Seq<u8>) -> bool {
    &&& a.len() == b.len()
    &&& forall|i: int| 0 <= i < a.len() ==> ascii_lower(#[trigger] a[i]) == ascii_lower(b[i])
}

fn lower(b: u8) -> (r: u8)
    ensures
        r == ascii_lower(b),
{
    if 65 <= b && b <= 90 {
        b + 32
    } else {
        b
    }
}

/// Compares two byte strings, ASCII letters without case.
pub fn bytes_eq_ignore_ascii_case(a: &[u8], b: &[u8]) -> (r: bool)
    ensures
        r == eq_ignore_ascii_case(a@, b@),
{
    if a.len() != b.len() {
        return false;
    }
    let mut i: usize = 0;
    while i < a.len()
        invariant
            a@.len() == b@.len(),
            0 <= i <= a@.len(),
            forall|j: int| 0 <= j < i ==> ascii_lower(#[trigger] a@[j]) == ascii_lower(b@[j]),
        decreases a@.len() - i,
    {
        if lower(a[i]) != lower(b[i]) {
            return false;
        }
        i = i + 1;
    }
    true
}

/// The index of the first header named `name` (ASCII letters without case), if any.
pub open spec fn first_named(headers: Seq<(Vec<u8>, Vec<u8>)>, name: Seq<u8>) -> Option<int> {
    if exists|i: int| 0 <= i < headers.len() && eq_ignore_ascii_case(#[trigger] headers[i].0@, name) {
        let i = choose|i: int|
            0 <= i < headers.len() && eq_ignore_ascii_case(#[trigger] headers[i].0@, name) && forall|
                j: int,
            |
                0 <= j < i ==> !eq_ignore_ascii_case(#[trigger] headers[j].0@, name);
        Some(i)
    } else {
        None
    }
}

/// Finds the first header named `name`, ASCII letters without case.
pub fn find_header(headers: &Vec<(Vec<u8>, Vec<u8>)>, name: &[u8]) -> (r: Option<usize>)
    ensures
        match r {
            Some(i) => {
                &&& i < headers@.len()
                &&& eq_ignore_ascii_case(headers@[i as int].0@, name@)
                &&& forall|j: int| 0 <= j < i ==> !eq_ignore_ascii_case(#[trigger] headers@[j].0@, name@)
            },
            None => forall|j: int|
                0 <= j < headers@.len() ==> !eq_ignore_ascii_case(#[trigger] headers@[j].0@, name@),
        },
        r matches Some(i) ==> first_named(headers@, name@) == Some(i as int),
        r is None ==> first_named(headers@, name@) is None,
{
    let mut i: usize = 0;
    while i < headers.len()
        invariant
            0 <= i <= headers@.len(),
            forall|j: int| 0 <= j < i ==> !eq_ignore_ascii_case(#[trigger] headers@[j].0@, name@),
        decreases headers@.len() - i,
    {
        if bytes_eq_ignore_ascii_case(headers[i].0.as_slice(), name) {
            proof {
                let k = choose|k: int|
                    0 <= k < headers@.len() && eq_ignore_ascii_case(#[trigger] headers@[k].0@, name@)
                        && forall|j: int|
                        0 <= j < k ==> !eq_ignore_ascii_case(#[trigger] headers@[j].0@, name@);
                if k < i {
                } else if k > i {
                    assert(!eq_ignore_ascii_case(headers@[i as int].0@, name@));
                }
            }
            return Some(i);
        }
        i = i + 1;
    }
    None
}

/// Whether `b` is an ASCII decimal digit.
pub open spec fn is_ascii_digit(b: u8) -> bool {
    48 <= b <= 57
}

pub open spec fn all_digits(s: Seq<u8>) -> bool {
    forall|i: int| 0 <= i < s.len() ==> is_ascii_digit(#[trigger] s[i])
}

/// The number that a string of decimal digits spells.
pub open spec fn decimal_value(s: Seq<u8>) -> nat
    decreases s.len(),
{
    if s.len() == 0 {
        0
    } else {
        decimal_value(s.drop_last()) * 10 + (s.last() - 48) as nat
    }
}

/// The number that `s` spells as `usize::from_str` reads it: an optional `+`, then one or
/// more decimal digits, and nothing else; `None` when it is not such a number or does not
/// fit in a `usize`.
pub open spec fn parsed_usize(s: Seq<u8>) -> Option<usize> {
    let d = without_plus(s);
    if d.len() > 0 && all_digits(d) && decimal_value(d) <= usize::MAX {
        Some(decimal_value(d) as usize)
    } else {
        None
    }
}

/// `s` without its leading `+`, if it has one.
pub open spec fn without_plus(s: Seq<u8>) -> Seq<u8> {
    if s.len() > 0 && s[0] == 43 {
        s.drop_first()
    } else {
        s
    }
}

proof fn lemma_decimal_prefix_le(d: Seq<u8>, k: int)
    requires
        all_digits(d),
        0 <= k <= d.len(),
    ensures
        decimal_value(d.subrange(0, k)) <= decimal_value(d),
    decreases d.len() - k,
{
    if k < d.len() {
        lemma_decimal_prefix_le(d, k + 1);
        let p = d.subrange(0, k + 1);
        assert(p.drop_last() =~= d.subrange(0, k));
        assert(is_ascii_digit(d[k]));
        assert(decimal_value(p) == decimal_value(d.subrange(0, k)) * 10 + (d[k] - 48) as nat);
    } else {
        assert(d.subrange(0, k) =~= d);
    }
}

/// Reads a decimal number as `usize::from_str` does.
pub fn parse_usize(s: &[u8]) -> (r: Option<usize>)
    ensures
        r == parsed_usize(s@),
{
    let start: usize = if s.len() > 0 && s[0] == 43 {
        1
    } else {
        0
    };
    let ghost d = without_plus(s@);
    proof {
        assert(d =~= s@.subrange(start as int, s@.len() as int));
    }
    if start >= s.len() {
        return None;
    }
    let mut v: usize = 0;
    let mut i: usize = start;
    proof {
        assert(s@.subrange(start as int, start as int) =~= Seq::<u8>::empty());
    }
    while i < s.len()
        invariant
            start <= i <= s@.len(),
            start < s@.len(),
            d == without_plus(s@),
            d == s@.subrange(start as int, s@.len() as int),
            all_digits(s@.subrange(start as int, i as int)),
            v == decimal_value(s@.subrange(start as int, i as int)),
        decreases s@.len() - i,
    {
        let b = s[i];
        if b < 48 || b > 57 {
            proof {
                assert(d[i - start] == b);
                assert(!is_ascii_digit(d[i - start]));
            }
            return None;
        }
        let ghost next = s@.subrange(start as int, i + 1);
        proof {
            assert(next.drop_last() =~= s@.subrange(start as int, i as int));
            assert(next.last() == b);
            assert(all_digits(next));
            assert(decimal_value(next) == v * 10 + (b - 48) as nat);
            if all_digits(d) {
                lemma_decimal_prefix_le(d, i + 1 - start);
                assert(d.subrange(0, i + 1 - start) =~= next);
            }
        }
        match v.checked_mul(10) {
            Some(m) => match m.checked_add((b - 48) as usize) {
                Some(n) => {
                    v = n;
                },
                None => {
                    return None;
                },
            },
            None => {
                return None;
            },
        }
        i = i + 1;
    }
    proof {
        assert(s@.subrange(start as int, s@.len() as int) =~= d);
    }
    Some(v)
}

/// The length that a request announces: its first `Content-Length` header (name without
/// ASCII case) read as a number, or 0 when there is none or it is not a number.
pub open spec fn content_length(headers: Seq<(Vec<u8>, Vec<u8>)>) -> usize {
    match first_named(headers, "content-length".spec_bytes()) {
        Some(i) => match parsed_usize(headers[i].1@) {
            Some(n) => n,
            None => 0,
        },
        None => 0,
    }
}

pub fn get_content_length(headers: &Vec<(Vec<u8>, Vec<u8>)>) -> (r: usize)
    ensures
        r == content_length(headers@),
{
    match find_header(headers, "content-length".as_bytes()) {
        Some(i) => match parse_usize(headers[i].1.as_slice()) {
            Some(n) => n,
            None => 0,
        },
        None => 0,
    }
}

} // verus!
