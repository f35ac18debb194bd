//! Small text helpers shared by the rest of the library: decimal rendering
//! for cgroup writes and command lines, decimal parsing for cgroup reads,
//! and byte-level splitting for the pid lists the kernel hands back.

use vstd::prelude::*;
use vstd::slice::slice_subrange;
use vstd::slice::slice_to_vec;

verus! {

/// The digit character for `d`, which must lie below 10.
pub open spec fn dec_digit(d: int) -> char {
    if d == 0 {
        '0'
    } else if d == 1 {
        '1'
    } else if d == 2 {
        '2'
    } else if d == 3 {
        '3'
    } else if d == 4 {
        '4'
    } else if d == 5 {
        '5'
    } else if d == 6 {
        '6'
    } else if d == 7 {
        '7'
    } else if d == 8 {
        '8'
    } else {
        '9'
    }
}

/// The decimal rendering of `n`, most significant digit first.
pub open spec fn dec_chars(n: int) -> Seq<char>
    decreases n,
{
    if n < 10 {
        seq![dec_digit(n)]
    } else {
        dec_chars(n / 10).push(dec_digit(n % 10))
    }
}

/// The decimal rendering of a signed value: a leading `-` for negatives.
pub open spec fn dec_chars_signed(n: int) -> Seq<char> {
    if n < 0 {
        seq!['-'] + dec_chars(-n)
    } else {
        dec_chars(n)
    }
}

/// One decimal digit as a string.
fn digit_str(d: u64) -> (r: String)
    requires
        d < 10,
    ensures
        r@ =~= seq![dec_digit(d as int)],
{
    proof {
        reveal_strlit("0");
        reveal_strlit("1");
        reveal_strlit("2");
        reveal_strlit("3");
        reveal_strlit("4");
        reveal_strlit("5");
        reveal_strlit("6");
        reveal_strlit("7");
        reveal_strlit("8");
        reveal_strlit("9");
    }
    let s: &str = if d == 0 {
        "0"
    } else if d == 1 {
        "1"
    } else if d == 2 {
        "2"
    } else if d == 3 {
        "3"
    } else if d == 4 {
        "4"
    } else if d == 5 {
        "5"
    } else if d == 6 {
        "6"
    } else if d == 7 {
        "7"
    } else if d == 8 {
        "8"
    } else {
        "9"
    };
    s.to_owned()
}

/// Render `n` in decimal.
pub fn u64_to_string(n: u64) -> (r: String)
    ensures
        r@ =~= dec_chars(n as int),
    decreases n,
{
    if n < 10 {
        digit_str(n)
    } else {
        let mut s = u64_to_string(n / 10);
        let d = digit_str(n % 10);
        s.append(d.as_str());
        s
    }
}

/// Render `n` in decimal, with a leading `-` when it is negative.
pub fn i64_to_string(n: i64) -> (r: String)
    requires
        n > i64::MIN,
    ensures
        r@ =~= dec_chars_signed(n as int),
{
    if n < 0 {
        proof {
            reveal_strlit("-");
        }
        let mut s: String = "-".to_owned();
        let d = u64_to_string((-n) as u64);
        s.append(d.as_str());
        s
    } else {
        u64_to_string(n as u64)
    }
}

/// A decimal rendering is never empty.
pub proof fn lemma_dec_chars_nonempty(n: int)
    ensures
        dec_chars(n).len() >= 1,
    decreases n,
{
    if n >= 10 {
        lemma_dec_chars_nonempty(n / 10);
    }
}

/// Distinct numbers have distinct decimal renderings.
pub proof fn lemma_dec_chars_inj(a: int, b: int)
    requires
        0 <= a,
        0 <= b,
        a != b,
    ensures
        dec_chars(a) != dec_chars(b),
    decreases a + b,
{
    if a < 10 && b < 10 {
        assert(dec_chars(a)[0] != dec_chars(b)[0]);
    } else if a < 10 && b >= 10 {
        lemma_dec_chars_nonempty(b / 10);
        assert(dec_chars(b).len() >= 2);
        assert(dec_chars(a).len() == 1);
    } else if a >= 10 && b < 10 {
        lemma_dec_chars_nonempty(a / 10);
        assert(dec_chars(a).len() >= 2);
        assert(dec_chars(b).len() == 1);
    } else {
        vstd::arithmetic::div_mod::lemma_fundamental_div_mod(a, 10);
        vstd::arithmetic::div_mod::lemma_fundamental_div_mod(b, 10);
        if dec_chars(a) == dec_chars(b) {
            assert(dec_chars(a).last() == dec_chars(b).last());
            assert(dec_chars(a).last() == dec_digit(a % 10));
            assert(dec_chars(b).last() == dec_digit(b % 10));
            if a % 10 == b % 10 {
                assert(a / 10 != b / 10);
                lemma_dec_chars_inj(a / 10, b / 10);
                assert(dec_chars(a).drop_last() == dec_chars(a / 10));
                assert(dec_chars(b).drop_last() == dec_chars(b / 10));
            } else {
                assert(dec_digit(a % 10) != dec_digit(b % 10));
            }
            assert(false);
        }
    }
}

/// Appending distinct suffixes to one prefix gives distinct strings.
pub proof fn lemma_concat_inj(p: Seq<char>, x: Seq<char>, y: Seq<char>)
    requires
        x != y,
    ensures
        p + x != p + y,
{
    if p + x == p + y {
        assert((p + x).subrange(p.len() as int, (p + x).len() as int) =~= x);
        assert((p + y).subrange(p.len() as int, (p + y).len() as int) =~= y);
        assert(false);
    }
}

/// Find the first occurrence of `c` in `s`.
pub fn find_char(s: &str, c: char) -> (r: Option<usize>)
    ensures
        match r {
            Some(i) => i < s@.len() && s@[i as int] == c && forall|j: int|
                0 <= j < i ==> s@[j] != c,
            None => forall|j: int| 0 <= j < s@.len() ==> s@[j] != c,
        },
{
    let n = s.unicode_len();
    let mut i: usize = 0;
    while i < n
        invariant
            n == s@.len(),
            i <= n,
            forall|j: int| 0 <= j < i ==> s@[j] != c,
        decreases n - i,
    {
        if s.get_char(i) == c {
            return Some(i);
        }
        i += 1;
    }
    None
}

/// An ASCII decimal digit.
pub open spec fn is_digit(b: u8) -> bool {
    48 <= b <= 57
}

/// Every byte of `s` is a decimal digit.
pub open spec fn all_digits(s: Seq<u8>) -> bool {
    forall|i: int| 0 <= i < s.len() ==> is_digit(#[trigger] s[i])
}

/// The value of the decimal digit string `s`.
pub open spec fn dec_value(s: Seq<u8>) -> int
    decreases s.len(),
{
    if s.len() == 0 {
        0
    } else {
        dec_value(s.drop_last()) * 10 + (s.last() - 48)
    }
}

/// A digit string has a nonnegative value.
proof fn lemma_dec_value_nonneg(s: Seq<u8>)
    requires
        all_digits(s),
    ensures
        dec_value(s) >= 0,
    decreases s.len(),
{
    if s.len() > 0 {
        assert(all_digits(s.drop_last()));
        lemma_dec_value_nonneg(s.drop_last());
    }
}

/// A longer digit prefix never has a smaller value.
proof fn lemma_dec_value_mono(s: Seq<u8>, i: int, j: int)
    requires
        all_digits(s),
        0 <= i <= j <= s.len(),
    ensures
        dec_value(s.subrange(0, i)) <= dec_value(s.subrange(0, j)),
    decreases j - i,
{
    if i < j {
        lemma_dec_value_mono(s, i, j - 1);
        assert(s.subrange(0, j).drop_last() =~= s.subrange(0, j - 1));
        assert(all_digits(s.subrange(0, j - 1)));
        lemma_dec_value_nonneg(s.subrange(0, j - 1));
        assert(dec_value(s.subrange(0, j - 1)) <= dec_value(s.subrange(0, j)));
    } else {
        assert(s.subrange(0, i) =~= s.subrange(0, j));
    }
}

/// Parse a decimal digit string. `None` when the input is empty, holds a
/// non-digit byte, or exceeds `u64::MAX`.
pub fn parse_u64(bytes: &[u8]) -> (r: Option<u64>)
    ensures
        match r {
            Some(v) => bytes@.len() > 0 && all_digits(bytes@) && v == dec_value(bytes@),
            None => bytes@.len() == 0 || !all_digits(bytes@) || dec_value(bytes@) > u64::MAX,
        },
{
    let n = bytes.len();
    if n == 0 {
        return None;
    }
    let mut acc: u64 = 0;
    let mut i: usize = 0;
    while i < n
        invariant
            n == bytes@.len(),
            i <= n,
            all_digits(bytes@.subrange(0, i as int)),
            acc == dec_value(bytes@.subrange(0, i as int)),
        decreases n - i,
    {
        let b = bytes[i];
        if b < 48 || b > 57 {
            assert(!is_digit(bytes@[i as int]));
            return None;
        }
        let d: u64 = (b - 48) as u64;
        let shifted = match acc.checked_mul(10) {
            Some(x) => x,
            None => {
                proof {
                    let pre1 = bytes@.subrange(0, i + 1);
                    assert(pre1.drop_last() =~= bytes@.subrange(0, i as int));
                    assert(pre1.last() == bytes@[i as int]);
                    assert(dec_value(pre1) == acc * 10 + (b - 48));
                    assert(dec_value(pre1) > u64::MAX);
                    if all_digits(bytes@) {
                        lemma_dec_value_mono(bytes@, i + 1, n as int);
                        assert(bytes@.subrange(0, n as int) =~= bytes@);
                    }
                }
                return None;
            },
        };
        let next = match shifted.checked_add(d) {
            Some(x) => x,
            None => {
                proof {
                    let pre1 = bytes@.subrange(0, i + 1);
                    assert(pre1.drop_last() =~= bytes@.subrange(0, i as int));
                    assert(pre1.last() == bytes@[i as int]);
                    assert(dec_value(pre1) == acc * 10 + (b - 48));
                    assert(dec_value(pre1) > u64::MAX);
                    if all_digits(bytes@) {
                        lemma_dec_value_mono(bytes@, i + 1, n as int);
                        assert(bytes@.subrange(0, n as int) =~= bytes@);
                    }
                }
                return None;
            },
        };
        proof {
            assert(bytes@.subrange(0, i + 1).drop_last() =~= bytes@.subrange(0, i as int));
        }
        acc = next;
        i += 1;
    }
    proof {
        assert(bytes@.subrange(0, n as int) =~= bytes@);
    }
    Some(acc)
}

/// A byte the kernel pads line ends with: newline, carriage return, space, tab.
pub open spec fn is_trail_ws(b: u8) -> bool {
    b == 10 || b == 13 || b == 32 || b == 9
}

/// `s` with every trailing whitespace byte removed.
pub open spec fn trimmed(s: Seq<u8>) -> Seq<u8>
    decreases s.len(),
{
    if s.len() > 0 && is_trail_ws(s.last()) {
        trimmed(s.drop_last())
    } else {
        s
    }
}

/// Drop trailing whitespace bytes, as reads of kernel files need before
/// parsing.
pub fn trim_trailing_ws(v: &mut Vec<u8>)
    ensures
        final(v)@ == trimmed(old(v)@),
{
    loop
        invariant
            trimmed(v@) == trimmed(old(v)@),
        ensures
            v@ == trimmed(old(v)@),
        decreases v@.len(),
    {
        if v.len() == 0 {
            assert(trimmed(v@) =~= v@);
            break ;
        }
        let b = v[v.len() - 1];
        if b == 10 || b == 13 || b == 32 || b == 9 {
            assert(is_trail_ws(v@.last()));
            assert(trimmed(v@) == trimmed(v@.drop_last()));
            v.pop();
        } else {
            assert(!is_trail_ws(v@.last()));
            assert(trimmed(v@) =~= v@);
            break ;
        }
    }
}

/// A copy of a byte vector.
pub fn clone_bytes(v: &Vec<u8>) -> (r: Vec<u8>)
    ensures
        r@ == v@,
{
    let mut out: Vec<u8> = Vec::new();
    let n = v.len();
    let mut i: usize = 0;
    while i < n
        invariant
            n == v@.len(),
            i <= n,
            out@ == v@.subrange(0, i as int),
        decreases n - i,
    {
        out.push(v[i]);
        i += 1;
        proof {
            assert(out@ =~= v@.subrange(0, i as int));
        }
    }
    proof {
        assert(v@.subrange(0, n as int) =~= v@);
    }
    out
}

/// Find the first occurrence of `b` in `s`.
pub fn find_byte(s: &[u8], b: u8) -> (r: Option<usize>)
    ensures
        match r {
            Some(i) => i < s@.len() && s@[i as int] == b && forall|j: int|
                0 <= j < i ==> s@[j] != b,
            None => forall|j: int| 0 <= j < s@.len() ==> s@[j] != b,
        },
{
    let n = s.len();
    let mut i: usize = 0;
    while i < n
        invariant
            n == s@.len(),
            i <= n,
            forall|j: int| 0 <= j < i ==> s@[j] != b,
        decreases n - i,
    {
        if s[i] == b {
            return Some(i);
        }
        i += 1;
    }
    None
}

/// The pieces glued back together with one newline between each pair.
pub open spec fn join_nl(pieces: Seq<Seq<u8>>) -> Seq<u8>
    decreases pieces.len(),
{
    if pieces.len() == 0 {
        Seq::empty()
    } else if pieces.len() == 1 {
        pieces[0]
    } else {
        pieces[0] + seq![10u8] + join_nl(pieces.drop_first())
    }
}

/// Split `s` at every newline. The result is the unique sequence of
/// newline-free pieces whose newline-joined form is `s` again.
pub fn split_lines(s: &[u8]) -> (r: Vec<Vec<u8>>)
    ensures
        r@.len() >= 1,
        join_nl(r@.map_values(|p: Vec<u8>| p@)) == s@,
        forall|i: int, j: int|
            0 <= i < r@.len() && 0 <= j < r@[i]@.len() ==> (#[trigger] r@[i]@[j]) != 10u8,
    decreases s@.len(),
{
    match find_byte(s, 10) {
        None => {
            let piece = slice_to_vec(s);
            let r = vec![piece];
            proof {
                assert(r@.map_values(|p: Vec<u8>| p@) =~= seq![s@]);
            }
            r
        },
        Some(i) => {
            let n = s.len();
            assert(i < n);
            let head = slice_to_vec(slice_subrange(s, 0, i));
            let tail = slice_subrange(s, i + 1, n);
            let mut r = split_lines(tail);
            let ghost rest_ps = r@.map_values(|p: Vec<u8>| p@);
            r.insert(0, head);
            proof {
                let ps = r@.map_values(|p: Vec<u8>| p@);
                assert(ps.len() >= 2);
                assert(ps[0] =~= s@.subrange(0, i as int));
                assert(ps.drop_first() =~= rest_ps);
                assert(join_nl(ps.drop_first()) == s@.subrange(i + 1, s@.len() as int));
                assert(join_nl(ps) =~= s@);
            }
            r
        },
    }
}

/// A piece that names a process id: nonempty, all digits, and within `i32`.
pub open spec fn is_pid_token(p: Seq<u8>) -> bool {
    p.len() > 0 && all_digits(p) && dec_value(p) <= i32::MAX
}

/// The process ids named by the pieces, in order, skipping pieces that do
/// not name one.
pub open spec fn pids_of(pieces: Seq<Seq<u8>>) -> Seq<i32>
    decreases pieces.len(),
{
    if pieces.len() == 0 {
        Seq::empty()
    } else {
        let rest = pids_of(pieces.drop_first());
        if is_pid_token(pieces[0]) {
            seq![dec_value(pieces[0]) as i32] + rest
        } else {
            rest
        }
    }
}

/// Collect the process ids from split lines of a `cgroup.procs` read.
pub fn collect_pids(pieces: &Vec<Vec<u8>>) -> (r: Vec<i32>)
    ensures
        r@ == pids_of(pieces@.map_values(|p: Vec<u8>| p@)),
{
    let ghost ps = pieces@.map_values(|p: Vec<u8>| p@);
    let n = pieces.len();
    let mut r: Vec<i32> = Vec::new();
    let mut i: usize = 0;
    proof {
        assert(ps.subrange(0, n as int) =~= ps);
        assert(r@ + pids_of(ps.subrange(0, n as int)) =~= pids_of(ps));
    }
    while i < n
        invariant
            n == ps.len(),
            ps == pieces@.map_values(|p: Vec<u8>| p@),
            i <= n,
            pids_of(ps) == r@ + pids_of(ps.subrange(i as int, n as int)),
        decreases n - i,
    {
        proof {
            assert(ps.subrange(i as int, n as int).drop_first() =~= ps.subrange(
                i + 1,
                n as int,
            ));
            assert(ps.subrange(i as int, n as int)[0] == ps[i as int]);
        }
        let piece: &Vec<u8> = &pieces[i];
        if piece.len() > 0 {
            match parse_u64(piece.as_slice()) {
                Some(v) => {
                    if v <= i32::MAX as u64 {
                        assert(is_pid_token(ps[i as int]));
                        assert(v as i32 == dec_value(ps[i as int]) as i32);
                        r.push(v as i32);
                    } else {
                        assert(!is_pid_token(ps[i as int]));
                    }
                },
                None => {
                    assert(!is_pid_token(ps[i as int]));
                },
            }
        } else {
            assert(!is_pid_token(ps[i as int]));
        }
        i += 1;
        proof {
            assert(pids_of(ps) =~= r@ + pids_of(ps.subrange(i as int, n as int)));
        }
    }
    proof {
        assert(ps.subrange(n as int, n as int) =~= Seq::<Seq<u8>>::empty());
        assert(r@ + pids_of(ps.subrange(n as int, n as int)) =~= r@);
    }
    r
}

} // verus!
