use vstd::prelude::*;
use vstd::string::*;

verus! {

/// The value of a hexadecimal digit (either case), if `c` is one.
pub open spec fn hex_digit_value(c: char) -> Option<nat> {
    let u = c as u32;
    if 48 <= u <= 57 {
        Some((u - 48) as nat)
    } else if 97 <= u <= 102 {
        Some((u - 87) as nat)
    } else if 65 <= u <= 70 {
        Some((u - 55) as nat)
    } else {
        None
    }
}

/// The value of a string of hexadecimal digits, most significant first;
/// `None` if any character is not a hexadecimal digit.
pub open spec fn hex_digits_value(s: Seq<char>) -> Option<nat>
    decreases s.len(),
{
    if s.len() == 0 {
        Some(0)
    } else {
        match (hex_digits_value(s.drop_last()), hex_digit_value(s.last())) {
            (Some(a), Some(d)) => Some(a * 16 + d),
            _ => None,
        }
    }
}

/// How a segment reads as a base-16 `u8`: an optional leading `+`, then at
/// least one hexadecimal digit, and a value below 256.
pub open spec fn parse_hex_octet(s: Seq<char>) -> Option<u8> {
    let digits = if s.len() > 1 && s[0] == '+' {
        s.drop_first()
    } else {
        s
    };
    if s.len() == 0 {
        None
    } else {
        match hex_digits_value(digits) {
            Some(v) => if v < 256 {
                Some(v as u8)
            } else {
                None
            },
            None => None,
        }
    }
}

/// The octet a segment stands for: segments that do not read as one count as 0.
pub open spec fn segment_octet(s: Seq<char>) -> u8 {
    match parse_hex_octet(s) {
        Some(v) => v,
        None => 0,
    }
}

/// The upper-case hexadecimal digits, by value.
pub open spec fn upper_hex_digits() -> Seq<char> {
    seq!['0', '1', '2', '3', '4', '5', '6', '7', '8', '9', 'A', 'B', 'C', 'D', 'E', 'F']
}

/// An octet as exactly two upper-case hexadecimal digits.
pub open spec fn octet_text(v: u8) -> Seq<char> {
    seq![upper_hex_digits()[v as int / 16], upper_hex_digits()[v as int % 16]]
}

/// `s` split at every `:`; there is always at least one (possibly empty) segment.
pub open spec fn split_colon(s: Seq<char>) -> Seq<Seq<char>>
    decreases s.len(),
{
    if s.len() == 0 {
        seq![Seq::<char>::empty()]
    } else {
        let rest = split_colon(s.drop_last());
        if s.last() == ':' {
            rest.push(Seq::<char>::empty())
        } else {
            rest.update(rest.len() - 1, rest.last().push(s.last()))
        }
    }
}

/// Segments joined with `:` between neighbours.
pub open spec fn join_colon(segs: Seq<Seq<char>>) -> Seq<char>
    decreases segs.len(),
{
    if segs.len() == 0 {
        Seq::<char>::empty()
    } else if segs.len() == 1 {
        segs[0]
    } else {
        join_colon(segs.drop_last()) + seq![':'] + segs.last()
    }
}

/// The canonical rendering of one segment.
pub open spec fn canonical_segment(s: Seq<char>) -> Seq<char> {
    octet_text(segment_octet(s))
}

/// The canonical form of a BSSID: each `:`-separated segment read as a
/// hexadecimal octet (0 where it is not one) and written as two upper-case
/// digits, joined by `:`.
pub open spec fn canonical_bssid(s: Seq<char>) -> Seq<char> {
    join_colon(canonical_segments(split_colon(s)))
}

/// Each segment in canonical form.
pub open spec fn canonical_segments(segs: Seq<Seq<char>>) -> Seq<Seq<char>> {
    segs.map_values(|seg: Seq<char>| canonical_segment(seg))
}

fn hex_digit_of(c: char) -> (r: Option<u32>)
    ensures
        match hex_digit_value(c) {
            Some(d) => r == Some(d as u32),
            None => r is None,
        },
{
    let u = c as u32;
    if 48 <= u && u <= 57 {
        Some(u - 48)
    } else if 97 <= u && u <= 102 {
        Some(u - 87)
    } else if 65 <= u && u <= 70 {
        Some(u - 55)
    } else {
        None
    }
}

/// Reads the characters `from..to` of `s` as a base-16 `u8`.
fn parse_octet_in(s: &str, from: usize, to: usize) -> (r: Option<u8>)
    requires
        from <= to <= s@.len(),
    ensures
        r == parse_hex_octet(s@.subrange(from as int, to as int)),
{
    let ghost seg = s@.subrange(from as int, to as int);
    if from == to {
        return None;
    }
    let mut start: usize = from;
    if to - from > 1 && s.get_char(from) == '+' {
        start = from + 1;
    }
    let ghost digits = s@.subrange(start as int, to as int);
    assert(seg.len() > 1 && seg[0] == '+' ==> digits =~= seg.drop_first());
    assert(!(seg.len() > 1 && seg[0] == '+') ==> digits =~= seg);
    let mut valid = true;
    let mut big = false;
    let mut acc: u32 = 0;
    let mut i: usize = start;
    while i < to
        invariant
            from <= start <= i <= to <= s@.len(),
            acc < 256,
            digits == s@.subrange(start as int, to as int),
            ({
                let v = hex_digits_value(s@.subrange(start as int, i as int));
                &&& !valid ==> v is None
                &&& valid ==> v is Some
                &&& valid && !big ==> v == Some(acc as nat)
                &&& valid && big ==> v->0 >= 256
            }),
        decreases to - i,
    {
        let ghost pre = s@.subrange(start as int, i as int);
        let ghost next = s@.subrange(start as int, i + 1);
        assert(next.drop_last() =~= pre);
        assert(next.last() == s@[i as int]);
        let c = s.get_char(i);
        match hex_digit_of(c) {
            Some(d) => {
                if valid && !big {
                    let n = acc * 16 + d;
                    if n >= 256 {
                        big = true;
                        acc = 0;
                    } else {
                        acc = n;
                    }
                }
            },
            None => {
                valid = false;
            },
        }
        i = i + 1;
    }
    assert(s@.subrange(start as int, i as int) =~= digits);
    if valid && !big {
        Some(acc as u8)
    } else {
        None
    }
}

/// The one-character string of an upper-case hexadecimal digit.
fn upper_hex_str(d: u8) -> (r: &'static str)
    requires
        d < 16,
    ensures
        r@ == seq![upper_hex_digits()[d as int]],
{
    proof {
        reveal_strlit("0");
        reveal_strlit("1");
        reveal_strlit("2");
        reveal_strlit("3");
        reveal_strlit("4");
        reveal_strlit("5");
        reveal_strlit("6");
        reveal_strlit("7");
        reveal_strlit("8");
        reveal_strlit("9");
        reveal_strlit("A");
        reveal_strlit("B");
        reveal_strlit("C");
        reveal_strlit("D");
        reveal_strlit("E");
        reveal_strlit("F");
    }
    let r = match d {
        0 => "0",
        1 => "1",
        2 => "2",
        3 => "3",
        4 => "4",
        5 => "5",
        6 => "6",
        7 => "7",
        8 => "8",
        9 => "9",
        10 => "A",
        11 => "B",
        12 => "C",
        13 => "D",
        14 => "E",
        _ => "F",
    };
    assert(r@ =~= seq![upper_hex_digits()[d as int]]);
    r
}

/// Appends the two upper-case hexadecimal digits of `v` to `out`.
fn push_octet(out: &mut String, v: u8)
    ensures
        final(out)@ == old(out)@ + octet_text(v),
{
    out.append(upper_hex_str(v / 16));
    out.append(upper_hex_str(v % 16));
    assert(final(out)@ =~= old(out)@ + octet_text(v));
}

/// Appends the canonical form of the segment `from..to` of `s` to `out`,
/// after a `:` unless it is the first segment.
fn append_segment(out: &mut String, first: bool, s: &str, from: usize, to: usize)
    requires
        from <= to <= s@.len(),
    ensures
        final(out)@ == old(out)@ + (if first {
            Seq::<char>::empty()
        } else {
            seq![':']
        }) + canonical_segment(s@.subrange(from as int, to as int)),
{
    let v = match parse_octet_in(s, from, to) {
        Some(v) => v,
        None => 0,
    };
    let ghost start = out@;
    if !first {
        proof {
            reveal_strlit(":");
        }
        out.append(":");
    }
    push_octet(out, v);
    assert(final(out)@ =~= start + (if first {
        Seq::<char>::empty()
    } else {
        seq![':']
    }) + canonical_segment(s@.subrange(from as int, to as int)));
}

proof fn lemma_join_push(done: Seq<Seq<char>>, seg: Seq<char>)
    ensures
        join_colon(canonical_segments(done.push(seg))) == join_colon(canonical_segments(done)) + (
        if done.len() == 0 {
            Seq::<char>::empty()
        } else {
            seq![':']
        }) + canonical_segment(seg),
{
    let nd = done.push(seg);
    assert(canonical_segments(nd) =~= canonical_segments(done).push(canonical_segment(seg)));
    assert(canonical_segments(nd).drop_last() =~= canonical_segments(done));
    if done.len() == 0 {
        assert(join_colon(canonical_segments(done)) =~= Seq::<char>::empty());
        assert(join_colon(canonical_segments(nd)) =~= Seq::<char>::empty() + Seq::<char>::empty()
            + canonical_segment(seg));
    }
}

/// Canonicalises a BSSID as some clients send it, with octets that lack
/// their leading zero (`a:2:c`), into upper-case, zero-padded form
/// (`0A:02:0C`). A segment that is not a hexadecimal octet becomes `00`.
pub fn fix_owntracks_bssid_error(received_bssid: &str) -> (r: String)
    ensures
        r@ == canonical_bssid(received_bssid@),
{
    let ghost s = received_bssid@;
    let n = received_bssid.unicode_len();
    let mut out = String::new();
    let mut seg_start: usize = 0;
    let mut first = true;
    let ghost mut done: Seq<Seq<char>> = Seq::empty();
    let mut i: usize = 0;
    assert(s.subrange(0, 0) =~= Seq::<char>::empty());
    while i < n
        invariant
            n == s.len(),
            s == received_bssid@,
            seg_start <= i <= n,
            first == (done.len() == 0),
            split_colon(s.subrange(0, i as int)) == done.push(s.subrange(seg_start as int, i as int)),
            out@ == join_colon(canonical_segments(done)),
        decreases n - i,
    {
        assert(s.subrange(0, i + 1).drop_last() =~= s.subrange(0, i as int));
        if received_bssid.get_char(i) == ':' {
            append_segment(&mut out, first, received_bssid, seg_start, i);
            proof {
                lemma_join_push(done, s.subrange(seg_start as int, i as int));
                done = done.push(s.subrange(seg_start as int, i as int));
            }
            first = false;
            seg_start = i + 1;
            assert(s.subrange(seg_start as int, i + 1) =~= Seq::<char>::empty());
        } else {
            assert(s.subrange(seg_start as int, i + 1) =~= s.subrange(seg_start as int, i as int).push(
                s[i as int],
            ));
        }
        i = i + 1;
    }
    append_segment(&mut out, first, received_bssid, seg_start, n);
    proof {
        lemma_join_push(done, s.subrange(seg_start as int, n as int));
        assert(s.subrange(0, n as int) =~= s);
    }
    out
}

/// No character of `s` is a `:`.
pub open spec fn colon_free(s: Seq<char>) -> bool {
    forall|k: int| 0 <= k < s.len() ==> s[k] != ':'
}

proof fn lemma_upper_hex_digit(d: int)
    requires
        0 <= d < 16,
    ensures
        hex_digit_value(upper_hex_digits()[d]) == Some(d as nat),
        upper_hex_digits()[d] != ':',
        upper_hex_digits()[d] != '+',
{
    let t = upper_hex_digits();
    assert(t[0] == '0' && t[1] == '1' && t[2] == '2' && t[3] == '3');
    assert(t[4] == '4' && t[5] == '5' && t[6] == '6' && t[7] == '7');
    assert(t[8] == '8' && t[9] == '9' && t[10] == 'A' && t[11] == 'B');
    assert(t[12] == 'C' && t[13] == 'D' && t[14] == 'E' && t[15] == 'F');
}

/// Two digits written for an octet read back as that octet.
proof fn lemma_octet_text_reads_back(v: u8)
    ensures
        parse_hex_octet(octet_text(v)) == Some(v),
        segment_octet(octet_text(v)) == v,
        colon_free(octet_text(v)),
{
    let t = octet_text(v);
    let hi = v as int / 16;
    let lo = v as int % 16;
    lemma_upper_hex_digit(hi);
    lemma_upper_hex_digit(lo);
    assert(t.drop_last() =~= seq![upper_hex_digits()[hi]]);
    assert(t.drop_last().drop_last() =~= Seq::<char>::empty());
    assert(hex_digits_value(t.drop_last().drop_last()) == Some(0nat));
    assert(t.drop_last().last() == upper_hex_digits()[hi]);
    assert(hex_digits_value(t.drop_last()) == Some(hi as nat));
    assert(hex_digits_value(t) == Some((hi * 16 + lo) as nat));
}

proof fn lemma_split_nonempty(s: Seq<char>)
    ensures
        split_colon(s).len() >= 1,
    decreases s.len(),
{
    if s.len() > 0 {
        lemma_split_nonempty(s.drop_last());
    }
}

/// A string without `:` is one segment.
proof fn lemma_split_colon_free(b: Seq<char>)
    requires
        colon_free(b),
    ensures
        split_colon(b) == seq![b],
    decreases b.len(),
{
    if b.len() > 0 {
        let p = b.drop_last();
        assert(colon_free(p));
        lemma_split_colon_free(p);
        assert(b.last() != ':');
        assert(p.push(b.last()) =~= b);
        assert(seq![p].update(0, p.push(b.last())) =~= seq![b]);
    } else {
        assert(b =~= Seq::<char>::empty());
    }
}

/// Splitting after a `:` that is followed by a colon-free tail adds that
/// tail as the last segment.
proof fn lemma_split_after_colon(a: Seq<char>, b: Seq<char>)
    requires
        colon_free(b),
    ensures
        split_colon(a + seq![':'] + b) == split_colon(a).push(b),
    decreases b.len(),
{
    let s = a + seq![':'] + b;
    if b.len() == 0 {
        assert(s.drop_last() =~= a);
        assert(s =~= a + seq![':']);
        assert(b =~= Seq::<char>::empty());
        assert(split_colon(a).push(Seq::<char>::empty()) =~= split_colon(a).push(b));
    } else {
        let p = b.drop_last();
        assert(colon_free(p));
        lemma_split_after_colon(a, p);
        assert(s.drop_last() =~= a + seq![':'] + p);
        assert(s.last() == b.last());
        let rest = split_colon(a).push(p);
        assert(p.push(b.last()) =~= b);
        assert(rest.update(rest.len() - 1, rest.last().push(b.last())) =~= split_colon(a).push(b));
    }
}

/// Splitting a join of colon-free segments gives the segments back.
proof fn lemma_split_join(segs: Seq<Seq<char>>)
    requires
        segs.len() >= 1,
        forall|k: int| 0 <= k < segs.len() ==> colon_free(#[trigger] segs[k]),
    ensures
        split_colon(join_colon(segs)) == segs,
    decreases segs.len(),
{
    if segs.len() == 1 {
        lemma_split_colon_free(segs[0]);
        assert(seq![segs[0]] =~= segs);
    } else {
        let p = segs.drop_last();
        assert forall|k: int| 0 <= k < p.len() implies colon_free(#[trigger] p[k]) by {
            assert(p[k] == segs[k]);
        }
        lemma_split_join(p);
        assert(colon_free(segs.last()));
        lemma_split_after_colon(join_colon(p), segs.last());
        assert(p.push(segs.last()) =~= segs);
    }
}

/// Canonicalising is idempotent: a BSSID already in canonical form (such as
/// `0A:02:0C`) is left as it is.
pub proof fn lemma_canonical_bssid_idempotent(s: Seq<char>)
    ensures
        canonical_bssid(canonical_bssid(s)) == canonical_bssid(s),
{
    let c = canonical_segments(split_colon(s));
    lemma_split_nonempty(s);
    assert forall|k: int| 0 <= k < c.len() implies colon_free(#[trigger] c[k])
        && canonical_segment(c[k]) == c[k] by {
        lemma_octet_text_reads_back(segment_octet(split_colon(s)[k]));
    }
    lemma_split_join(c);
    assert(canonical_segments(c) =~= c);
}

} // verus!
