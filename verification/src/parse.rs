//! Parsing of a coordinate input line.
//!
//! A turn's input is one line holding two non-negative integers
//! separated by a comma, e.g. `1,2`, read as `(x, y)`. ASCII whitespace
//! around each number is tolerated; text after a second comma is
//! ignored. A line with no comma, a field that is empty or not all
//! digits, or a coordinate above 2 yields no point.

use vstd::prelude::*;

use crate::board::Point;

verus! {

/// The comma byte `,`.
pub const COMMA: u8 = 44;

/// `c` is an ASCII whitespace byte: space, tab, line feed, vertical
/// tab, form feed, or carriage return.
pub open spec fn is_ws(c: u8) -> bool {
    c == 32 || c == 9 || c == 10 || c == 11 || c == 12 || c == 13
}

/// `c` is an ASCII decimal digit.
pub open spec fn is_digit(c: u8) -> bool {
    48 <= c <= 57
}

/// The first index of a comma in `s` at or after `from`, or `s.len()`
/// if there is none.
pub open spec fn comma_pos(s: Seq<u8>, from: int) -> int
    decreases s.len() - from,
{
    if from < 0 || from >= s.len() {
        s.len() as int
    } else if s[from] == COMMA {
        from
    } else {
        comma_pos(s, from + 1)
    }
}

/// The first index in `[from, hi)` holding a non-whitespace byte, or
/// `hi` if there is none.
pub open spec fn skip_ws(s: Seq<u8>, from: int, hi: int) -> int
    decreases hi - from,
{
    if from >= hi {
        hi
    } else if is_ws(s[from]) {
        skip_ws(s, from + 1, hi)
    } else {
        from
    }
}

/// One past the last index in `[lo, upto)` holding a non-whitespace
/// byte, or `lo` if there is none.
pub open spec fn ws_end(s: Seq<u8>, lo: int, upto: int) -> int
    decreases upto - lo,
{
    if upto <= lo {
        lo
    } else if is_ws(s[upto - 1]) {
        ws_end(s, lo, upto - 1)
    } else {
        upto
    }
}

/// Every byte of `s` in `[lo, hi)` is a decimal digit.
pub open spec fn all_digits(s: Seq<u8>, lo: int, hi: int) -> bool {
    forall|i: int| lo <= i < hi ==> is_digit(s[i])
}

/// The value of the decimal digits of `s` in `[lo, hi)`, most
/// significant first.
pub open spec fn digits_value(s: Seq<u8>, lo: int, hi: int) -> int
    decreases hi - lo,
{
    if hi <= lo {
        0
    } else {
        digits_value(s, lo, hi - 1) * 10 + (s[hi - 1] - 48)
    }
}

/// The coordinate encoded by the field `s[lo..hi)`: after trimming
/// whitespace it must be non-empty, all digits, and of value at most 2.
pub open spec fn coord_in(s: Seq<u8>, lo: int, hi: int) -> Option<int> {
    let a = skip_ws(s, lo, hi);
    let b = ws_end(s, a, hi);
    if a < b && all_digits(s, a, b) && digits_value(s, a, b) <= 2 {
        Some(digits_value(s, a, b))
    } else {
        None
    }
}

/// The pair of coordinates encoded by the input line `s`: the first
/// field runs to the first comma, the second to the next comma or the
/// end of the line; anything after a second comma is ignored. `None`
/// when the line has no comma or either field encodes no coordinate.
pub open spec fn line_coords(s: Seq<u8>) -> Option<(int, int)> {
    let c1 = comma_pos(s, 0);
    if c1 == s.len() {
        None
    } else {
        let c2 = comma_pos(s, c1 + 1);
        match (coord_in(s, 0, c1), coord_in(s, c1 + 1, c2)) {
            (Some(x), Some(y)) => Some((x, y)),
            _ => None,
        }
    }
}

/// `c` is an ASCII whitespace byte.
fn ws_byte(c: u8) -> (r: bool)
    ensures
        r == is_ws(c),
{
    c == 32 || c == 9 || c == 10 || c == 11 || c == 12 || c == 13
}

/// The first index of a comma in `line` at or after `from`, or
/// `line.len()` if there is none.
fn find_comma(line: &Vec<u8>, from: usize) -> (r: usize)
    requires
        from <= line.len(),
    ensures
        r == comma_pos(line@, from as int),
        from <= r <= line.len(),
{
    let mut i: usize = from;
    while i < line.len()
        invariant
            from <= i <= line.len(),
            comma_pos(line@, from as int) == comma_pos(line@, i as int),
        decreases line.len() - i,
    {
        if line[i] == COMMA {
            return i;
        }
        i = i + 1;
    }
    i
}

/// The coordinate encoded by the field `line[lo..hi)`, per [`coord_in`].
fn parse_coord(line: &Vec<u8>, lo: usize, hi: usize) -> (r: Option<usize>)
    requires
        lo <= hi <= line.len(),
    ensures
        r is Some <==> coord_in(line@, lo as int, hi as int) is Some,
        r matches Some(v) ==> coord_in(line@, lo as int, hi as int) == Some(v as int) && v <= 2,
{
    let ghost s = line@;
    let mut a: usize = lo;
    while a < hi && ws_byte(line[a])
        invariant
            s == line@,
            lo <= a <= hi <= line.len(),
            skip_ws(s, lo as int, hi as int) == skip_ws(s, a as int, hi as int),
        decreases hi - a,
    {
        proof {
            assert(skip_ws(s, a as int, hi as int) == skip_ws(s, a as int + 1, hi as int));
        }
        a = a + 1;
    }
    assert(skip_ws(s, lo as int, hi as int) == a as int);
    let mut b: usize = hi;
    while b > a && ws_byte(line[b - 1])
        invariant
            s == line@,
            a <= b <= hi <= line.len(),
            ws_end(s, a as int, hi as int) == ws_end(s, a as int, b as int),
        decreases b,
    {
        proof {
            assert(ws_end(s, a as int, b as int) == ws_end(s, a as int, b as int - 1));
        }
        b = b - 1;
    }
    assert(ws_end(s, a as int, hi as int) == b as int);
    if a == b {
        return None;
    }
    let mut val: usize = 0;
    let mut k: usize = a;
    while k < b
        invariant
            s == line@,
            lo <= a < b <= hi <= line.len(),
            skip_ws(s, lo as int, hi as int) == a as int,
            ws_end(s, a as int, hi as int) == b as int,
            a <= k <= b,
            all_digits(s, a as int, k as int),
            val <= 29,
            digits_value(s, a as int, k as int) <= 2 ==> val == digits_value(s, a as int, k as int),
            digits_value(s, a as int, k as int) > 2 ==> val >= 3,
        decreases b - k,
    {
        let ch = line[k];
        if ch < 48 || ch > 57 {
            assert(!is_digit(s[k as int]));
            assert(!all_digits(s, a as int, b as int));
            return None;
        }
        let d: usize = (ch - 48) as usize;
        val = if val >= 3 {
            3
        } else {
            val * 10 + d
        };
        k = k + 1;
    }
    if val <= 2 {
        Some(val)
    } else {
        None
    }
}

/// Parses a coordinate input line into a point, per [`line_coords`].
/// Returns `Some` exactly when the line holds a comma and both fields
/// encode a coordinate in `[0, 2]`.
pub fn parse_point(line: &Vec<u8>) -> (r: Option<Point<usize>>)
    ensures
        r is Some <==> line_coords(line@) is Some,
        r matches Some(p) ==> line_coords(line@) == Some((p.x as int, p.y as int)),
        r matches Some(p) ==> p.x <= 2 && p.y <= 2,
{
    let c1 = find_comma(line, 0);
    if c1 == line.len() {
        return None;
    }
    let c2 = find_comma(line, c1 + 1);
    let x = parse_coord(line, 0, c1);
    let y = parse_coord(line, c1 + 1, c2);
    match (x, y) {
        (Some(x), Some(y)) => Some(Point { x, y }),
        _ => None,
    }
}

} // verus!
