//! Reading the address of the card from its text attributes: the MAC address as six hex
//! bytes joined by colons, and the GIDs as lines of eight hex groups joined by colons.
use vstd::prelude::*;

verus! {

/// Index of the first `sep` in `s` at or after `i`; `s.len()` when there is none.
pub open spec fn first_index(s: Seq<u8>, sep: u8, i: int) -> int
    decreases s.len() - i,
{
    if i < 0 || i >= s.len() {
        s.len() as int
    } else if s[i] == sep {
        i
    } else {
        first_index(s, sep, i + 1)
    }
}

/// The pieces of `s` between occurrences of `sep`, empty ones included; the empty text has
/// one empty piece.
pub open spec fn split_seq(s: Seq<u8>, sep: u8) -> Seq<Seq<u8>>
    decreases s.len(),
{
    let i = first_index(s, sep, 0);
    if i >= s.len() {
        seq![s]
    } else {
        proof {
            lemma_first_index(s, sep, 0);
        }
        seq![s.subrange(0, i)] + split_seq(s.subrange(i + 1, s.len() as int), sep)
    }
}

/// `first_index` lies in range, skips only other bytes, and stops at a separator.
pub proof fn lemma_first_index(s: Seq<u8>, sep: u8, i: int)
    requires
        0 <= i <= s.len(),
    ensures
        i <= first_index(s, sep, i) <= s.len(),
        forall|j: int| i <= j < first_index(s, sep, i) ==> s[j] != sep,
        first_index(s, sep, i) < s.len() ==> s[first_index(s, sep, i)] == sep,
    decreases s.len() - i,
{
    if i < s.len() && s[i] != sep {
        lemma_first_index(s, sep, i + 1);
    }
}

/// Splits `s` at every `sep`.
pub fn split(s: &[u8], sep: u8) -> (r: Vec<Vec<u8>>)
    ensures
        r@.map_values(|v: Vec<u8>| v@) == split_seq(s@, sep),
{
    let n = s.len();
    let mut out: Vec<Vec<u8>> = Vec::new();
    let mut cur: Vec<u8> = Vec::new();
    let mut start: usize = 0;
    let mut j: usize = 0;
    proof {
        assert(s@.subrange(0, n as int) =~= s@);
    }
    while j < n
        invariant
            n == s@.len(),
            start <= j <= n,
            cur@ == s@.subrange(start as int, j as int),
            forall|k: int| start <= k < j ==> s@[k] != sep,
            out@.map_values(|v: Vec<u8>| v@) + split_seq(s@.subrange(start as int, n as int), sep)
                == split_seq(s@, sep),
        decreases n - j,
    {
        if s[j] == sep {
            let ghost t = s@.subrange(start as int, n as int);
            proof {
                lemma_first_index(t, sep, 0);
                assert(first_index(t, sep, 0) == j - start) by {
                    if first_index(t, sep, 0) < j - start {
                        assert(t[first_index(t, sep, 0)] == s@[start + first_index(t, sep, 0)]);
                    }
                    if first_index(t, sep, 0) > j - start {
                        assert(t[j - start] == s@[j as int]);
                    }
                }
                assert(t.subrange(0, j - start) =~= s@.subrange(start as int, j as int));
                assert(t.subrange(j - start + 1, t.len() as int) =~= s@.subrange(
                    j + 1,
                    n as int,
                ));
            }
            let ghost old_out = out@.map_values(|v: Vec<u8>| v@);
            let ghost piece = cur@;
            out.push(cur);
            cur = Vec::new();
            start = j + 1;
            proof {
                assert(out@.map_values(|v: Vec<u8>| v@) =~= old_out.push(piece));
                assert(old_out.push(piece) =~= old_out + seq![piece]);
                assert(cur@ =~= s@.subrange(start as int, (j + 1) as int));
            }
        } else {
            cur.push(s[j]);
            proof {
                assert(cur@ =~= s@.subrange(start as int, j + 1));
            }
        }
        j = j + 1;
    }
    let ghost t = s@.subrange(start as int, n as int);
    proof {
        lemma_first_index(t, sep, 0);
        assert(first_index(t, sep, 0) == t.len()) by {
            if first_index(t, sep, 0) < t.len() {
                assert(t[first_index(t, sep, 0)] == s@[start + first_index(t, sep, 0)]);
            }
        }
    }
    let ghost old_out = out@.map_values(|v: Vec<u8>| v@);
    out.push(cur);
    proof {
        assert(out@.map_values(|v: Vec<u8>| v@) =~= old_out.push(t));
        assert(split_seq(t, sep) == seq![t]);
        assert(old_out.push(t) =~= old_out + seq![t]);
    }
    out
}

/// Whether `c` is a hex digit.
pub open spec fn is_hex_digit(c: u8) -> bool {
    (0x30 <= c <= 0x39) || (0x41 <= c <= 0x46) || (0x61 <= c <= 0x66)
}

/// The value of hex digit `c`.
pub open spec fn hex_digit_value(c: u8) -> nat {
    if 0x30 <= c <= 0x39 {
        (c - 0x30) as nat
    } else if 0x41 <= c <= 0x46 {
        (c - 0x41 + 10) as nat
    } else {
        (c - 0x61 + 10) as nat
    }
}

/// Every byte of `s` is a hex digit.
pub open spec fn all_hex(s: Seq<u8>) -> bool {
    forall|i: int| 0 <= i < s.len() ==> is_hex_digit(#[trigger] s[i])
}

/// The value of the hex digits `s`, most significant first.
pub open spec fn hex_value(s: Seq<u8>) -> nat
    decreases s.len(),
{
    if s.len() == 0 {
        0
    } else {
        hex_value(s.drop_last()) * 16 + hex_digit_value(s.last())
    }
}

/// The value of `s` read as an unsigned hex number of at most `max`: digits, after an
/// optional `+`; `None` for an empty number, another byte, or a value above `max`.
pub open spec fn parse_hex(s: Seq<u8>, max: nat) -> Option<nat> {
    let d = if s.len() > 0 && s[0] == 0x2b {
        s.drop_first()
    } else {
        s
    };
    if d.len() == 0 || !all_hex(d) || hex_value(d) > max {
        None
    } else {
        Some(hex_value(d))
    }
}

/// A prefix of hex digits is worth no more than the whole.
proof fn lemma_hex_value_prefix(s: Seq<u8>, k: int)
    requires
        0 <= k <= s.len(),
    ensures
        hex_value(s.take(k)) <= hex_value(s),
    decreases s.len() - k,
{
    if k < s.len() {
        lemma_hex_value_prefix(s, k + 1);
        assert(s.take(k + 1).drop_last() =~= s.take(k));
    } else {
        assert(s.take(k) =~= s);
    }
}

/// The value of a hex digit.
fn hex_digit(c: u8) -> (r: Option<u64>)
    ensures
        r is Some <==> is_hex_digit(c),
        r matches Some(v) ==> v == hex_digit_value(c),
{
    if 0x30 <= c && c <= 0x39 {
        Some((c - 0x30) as u64)
    } else if 0x41 <= c && c <= 0x46 {
        Some((c - 0x41 + 10) as u64)
    } else if 0x61 <= c && c <= 0x66 {
        Some((c - 0x61 + 10) as u64)
    } else {
        None
    }
}

/// Reads `s` as an unsigned hex number of at most `max`.
pub fn parse_hex_number(s: &[u8], max: u64) -> (r: Option<u64>)
    requires
        max <= 0xffff_ffff,
    ensures
        r matches Some(v) ==> parse_hex(s@, max as nat) == Some(v as nat),
        r is None ==> parse_hex(s@, max as nat) is None,
{
    let start: usize = if s.len() > 0 && s[0] == 0x2b {
        1
    } else {
        0
    };
    let ghost d = if s@.len() > 0 && s@[0] == 0x2b {
        s@.drop_first()
    } else {
        s@
    };
    proof {
        assert(d =~= s@.subrange(start as int, s@.len() as int));
    }
    if start >= s.len() {
        proof {
            assert(d.len() == 0);
        }
        return None;
    }
    let mut v: u64 = 0;
    let mut i: usize = start;
    while i < s.len()
        invariant
            start <= i <= s@.len(),
            d == s@.subrange(start as int, s@.len() as int),
            d == (if s@.len() > 0 && s@[0] == 0x2b {
                s@.drop_first()
            } else {
                s@
            }),
            max <= 0xffff_ffff,
            v == hex_value(d.take(i - start)),
            v <= max,
            all_hex(d.take(i - start)),
        decreases s@.len() - i,
    {
        let ghost k = i - start;
        proof {
            assert(d.take(k + 1).drop_last() =~= d.take(k));
            assert(d.take(k + 1).last() == s@[i as int]);
        }
        match hex_digit(s[i]) {
            None => {
                proof {
                    assert(!is_hex_digit(d[k]));
                    assert(!all_hex(d));
                    assert(parse_hex(s@, max as nat) is None);
                }
                return None;
            },
            Some(x) => {
                v = v * 16 + x;
                proof {
                    assert(v == hex_value(d.take(k + 1)));
                    assert(is_hex_digit(d[k]));
                }
                if v > max {
                    proof {
                        assert(all_hex(d.take(k + 1)));
                        if all_hex(d) {
                            lemma_hex_value_prefix(d, k + 1);
                        }
                        assert(parse_hex(s@, max as nat) is None);
                    }
                    return None;
                }
            },
        }
        i = i + 1;
        proof {
            assert(all_hex(d.take(i - start)));
        }
    }
    proof {
        assert(d.take(i - start) =~= d);
    }
    Some(v)
}

/// The MAC address written as `text`: six hex bytes joined by colons, most significant
/// first; `None` when the text is not that.
pub open spec fn spec_mac_from_text(text: Seq<u8>) -> Option<u64> {
    let p = split_seq(text, 0x3a);
    if p.len() == 6 && forall|i: int| 0 <= i < 6 ==> #[trigger] parse_hex(p[i], 0xff) is Some {
        Some(
            (parse_hex(p[0], 0xff)->Some_0 * 0x100_0000_0000 + parse_hex(p[1], 0xff)->Some_0
                * 0x1_0000_0000 + parse_hex(p[2], 0xff)->Some_0 * 0x100_0000 + parse_hex(
                p[3],
                0xff,
            )->Some_0 * 0x1_0000 + parse_hex(p[4], 0xff)->Some_0 * 0x100 + parse_hex(
                p[5],
                0xff,
            )->Some_0) as u64,
        )
    } else {
        None
    }
}

/// Reads a MAC address written as six hex bytes joined by colons.
pub fn mac_from_text(text: &[u8]) -> (r: Option<u64>)
    ensures
        r == spec_mac_from_text(text@),
{
    let pieces = split(text, 0x3a);
    let ghost p = split_seq(text@, 0x3a);
    proof {
        assert(forall|i: int| 0 <= i < pieces@.len() ==> #[trigger] pieces@[i]@ == p[i]) by {
            assert forall|i: int| 0 <= i < pieces@.len() implies #[trigger] pieces@[i]@ == p[i] by {
                assert(pieces@.map_values(|v: Vec<u8>| v@)[i] == pieces@[i]@);
            }
        }
    }
    let mut bytes: Vec<u64> = Vec::new();
    let mut i: usize = 0;
    while i < pieces.len()
        invariant
            p == split_seq(text@, 0x3a),
            p.len() == pieces@.len(),
            forall|j: int| 0 <= j < pieces@.len() ==> #[trigger] pieces@[j]@ == p[j],
            i <= pieces@.len(),
            bytes@.len() == i,
            forall|j: int| 0 <= j < i ==> parse_hex(p[j], 0xff) == Some(#[trigger] bytes@[j] as nat),
        decreases pieces@.len() - i,
    {
        match parse_hex_number(pieces[i].as_slice(), 0xff) {
            Some(b) => bytes.push(b),
            None => {
                proof {
                    assert(!(parse_hex(p[i as int], 0xff) is Some));
                }
                return None;
            },
        }
        i = i + 1;
    }
    if bytes.len() != 6 {
        return None;
    }
    let mut result: u64 = 0;
    let mut k: usize = 0;
    while k < 6
        invariant
            bytes@.len() == 6,
            forall|j: int| 0 <= j < 6 ==> #[trigger] bytes@[j] <= 0xff,
            k <= 6,
            result == mac_prefix(bytes@, k as int),
            result < pow256(k as int),
        decreases 6 - k,
    {
        proof {
            assert(bytes@[k as int] <= 0xff);
        }
        result = (result << 8u64) | bytes[k];
        proof {
            lemma_shift_or(mac_prefix(bytes@, k as int) as u64, bytes@[k as int], k as int);
        }
        k = k + 1;
    }
    proof {
        reveal_with_fuel(mac_prefix, 7);
    }
    Some(result)
}

/// 256 to the power `k`, for `k` up to six.
pub open spec fn pow256(k: int) -> int {
    if k <= 0 {
        1
    } else if k == 1 {
        0x100
    } else if k == 2 {
        0x1_0000
    } else if k == 3 {
        0x100_0000
    } else if k == 4 {
        0x1_0000_0000
    } else if k == 5 {
        0x100_0000_0000
    } else {
        0x1_0000_0000_0000
    }
}

/// The value of the first `k` bytes of `b`, most significant first.
pub open spec fn mac_prefix(b: Seq<u64>, k: int) -> int
    decreases k,
{
    if k <= 0 {
        0
    } else {
        mac_prefix(b, k - 1) * 0x100 + b[k - 1]
    }
}

/// Shifting in a byte multiplies by 256 and adds it.
proof fn lemma_shift_or(acc: u64, b: u64, k: int)
    requires
        0 <= k < 6,
        acc < pow256(k),
        b <= 0xff,
    ensures
        (acc << 8u64) | b == acc * 0x100 + b,
        acc * 0x100 + b < pow256(k + 1),
{
    assert(acc < 0x1_0000_0000_0000);
    assert(acc < 0x1_0000_0000_0000 && b <= 0xff ==> (acc << 8u64) | b == acc * 0x100 + b)
        by (bit_vector);
}

/// The IPv4 address a GID line carries, if it maps one: the five first groups zero and the
/// sixth all ones. The address combines the last two groups with `&`, which keeps no bit.
pub open spec fn gid_ipv4(g: Seq<nat>) -> Option<u32> {
    if g[0] == 0 && g[1] == 0 && g[2] == 0 && g[3] == 0 && g[4] == 0 && g[5] == 0xffff {
        Some((((g[6] as u32) << 16u32) & (g[7] as u32)) as u32)
    } else {
        None
    }
}

/// The address read from a GID line is always zero: its two halves share no bit.
pub proof fn lemma_gid_ipv4_is_zero(g: Seq<nat>)
    requires
        g.len() == 8,
        g[7] <= 0xffff,
    ensures
        gid_ipv4(g) matches Some(ip) ==> ip == 0,
{
    let hi = g[6] as u32;
    let lo = g[7] as u32;
    assert(lo <= 0xffff ==> ((hi << 16u32) & lo) == 0) by (bit_vector);
}

/// The groups of a GID line, eight hex numbers of sixteen bits joined by colons; `None`
/// when the line is not that.
pub open spec fn parse_gid(line: Seq<u8>) -> Option<Seq<nat>> {
    let p = split_seq(line, 0x3a);
    if p.len() == 8 && forall|i: int| 0 <= i < 8 ==> #[trigger] parse_hex(p[i], 0xffff) is Some {
        Some(Seq::new(8, |i: int| parse_hex(p[i], 0xffff)->Some_0))
    } else {
        None
    }
}

/// The lines of `text` as `str::lines` yields them: split at line feeds, a carriage return
/// before a line feed dropped, and no empty last line.
pub open spec fn lines_of(text: Seq<u8>) -> Seq<Seq<u8>> {
    let p = split_seq(text, 0x0a);
    let q = if p.last().len() == 0 {
        p.drop_last()
    } else {
        p
    };
    Seq::new(
        q.len(),
        |i: int|
            if i < p.len() - 1 && q[i].len() > 0 && q[i].last() == 0x0d {
                q[i].drop_last()
            } else {
                q[i]
            },
    )
}

/// The IPv4 address of the first GID line, of `lines` on, that maps one: `Some(None)` when
/// none does, `None` when a line before it is not a GID.
pub open spec fn ip_of_lines(lines: Seq<Seq<u8>>) -> Option<Option<u32>>
    decreases lines.len(),
{
    if lines.len() == 0 {
        Some(None)
    } else {
        match parse_gid(lines[0]) {
            None => None,
            Some(g) => match gid_ipv4(g) {
                Some(ip) => Some(Some(ip)),
                None => ip_of_lines(lines.drop_first()),
            },
        }
    }
}

/// Reads the groups of one GID line.
fn gid_from_line(line: &[u8]) -> (r: Option<Vec<u64>>)
    ensures
        r is Some <==> parse_gid(line@) is Some,
        r matches Some(v) ==> v@.len() == 8 && forall|i: int|
            0 <= i < 8 ==> #[trigger] v@[i] as nat == parse_gid(line@)->Some_0[i],
{
    let pieces = split(line, 0x3a);
    let ghost p = split_seq(line@, 0x3a);
    proof {
        assert forall|i: int| 0 <= i < pieces@.len() implies #[trigger] pieces@[i]@ == p[i] by {
            assert(pieces@.map_values(|v: Vec<u8>| v@)[i] == pieces@[i]@);
        }
    }
    if pieces.len() != 8 {
        return None;
    }
    let mut groups: Vec<u64> = Vec::new();
    let mut i: usize = 0;
    while i < 8
        invariant
            p == split_seq(line@, 0x3a),
            p.len() == 8,
            pieces@.len() == 8,
            forall|j: int| 0 <= j < 8 ==> #[trigger] pieces@[j]@ == p[j],
            i <= 8,
            groups@.len() == i,
            forall|j: int| 0 <= j < i ==> parse_hex(p[j], 0xffff) == Some(#[trigger] groups@[j] as nat),
        decreases 8 - i,
    {
        match parse_hex_number(pieces[i].as_slice(), 0xffff) {
            Some(g) => groups.push(g),
            None => {
                proof {
                    assert(!(parse_hex(p[i as int], 0xffff) is Some));
                }
                return None;
            },
        }
        i = i + 1;
    }
    proof {
        assert forall|j: int| 0 <= j < 8 implies #[trigger] parse_hex(p[j], 0xffff) is Some by {
            assert(parse_hex(p[j], 0xffff) == Some(groups@[j] as nat));
        }
        let gs = parse_gid(line@)->Some_0;
        assert forall|j: int| 0 <= j < 8 implies #[trigger] groups@[j] as nat == gs[j] by {
            assert(parse_hex(p[j], 0xffff) == Some(groups@[j] as nat));
        }
    }
    Some(groups)
}

/// Reads the IPv4 address of the first GID line that maps one: `Some(None)` when no line
/// does, `None` when a line before it is not a GID.
pub fn ip_from_gids(text: &[u8]) -> (r: Option<Option<u32>>)
    ensures
        r == ip_of_lines(lines_of(text@)),
{
    let pieces = split(text, 0x0a);
    let ghost p = split_seq(text@, 0x0a);
    let ghost lines = lines_of(text@);
    proof {
        assert forall|i: int| 0 <= i < pieces@.len() implies #[trigger] pieces@[i]@ == p[i] by {
            assert(pieces@.map_values(|v: Vec<u8>| v@)[i] == pieces@[i]@);
        }
        lemma_split_nonempty(text@, 0x0a);
    }
    let n = pieces.len();
    let count: usize = if pieces[n - 1].len() == 0 {
        n - 1
    } else {
        n
    };
    let mut i: usize = 0;
    proof {
        assert(lines.skip(0) =~= lines);
    }
    while i < count
        invariant
            n == pieces@.len(),
            n == p.len(),
            n >= 1,
            count == lines.len(),
            count <= n,
            forall|j: int| 0 <= j < n ==> #[trigger] pieces@[j]@ == p[j],
            lines == lines_of(text@),
            p == split_seq(text@, 0x0a),
            i <= count,
            ip_of_lines(lines.skip(i as int)) == ip_of_lines(lines),
        decreases count - i,
    {
        let piece = &pieces[i];
        let len = piece.len();
        let line: &[u8] = if i < n - 1 && len > 0 && piece[len - 1] == 0x0d {
            vstd::slice::slice_subrange(piece.as_slice(), 0, len - 1)
        } else {
            piece.as_slice()
        };
        proof {
            assert(line@ == lines[i as int]);
            assert(lines.skip(i as int)[0] == lines[i as int]);
            assert(lines.skip(i as int).drop_first() =~= lines.skip(i + 1));
        }
        match gid_from_line(line) {
            None => {
                return None;
            },
            Some(g) => {
                let ghost gs = parse_gid(line@)->Some_0;
                if g[0] == 0 && g[1] == 0 && g[2] == 0 && g[3] == 0 && g[4] == 0 && g[5] == 0xffff {
                    let hi = g[6] as u32;
                    let lo = g[7] as u32;
                    proof {
                        assert(gid_ipv4(gs) == Some((((hi as u32) << 16u32) & (lo as u32)) as u32));
                    }
                    return Some(Some((hi << 16u32) & lo));
                }
                proof {
                    assert(gid_ipv4(gs) is None);
                }
            },
        }
        i = i + 1;
    }
    proof {
        assert(lines.skip(count as int) =~= Seq::<Seq<u8>>::empty());
    }
    Some(None)
}

/// Splitting yields at least one piece.
proof fn lemma_split_nonempty(s: Seq<u8>, sep: u8)
    ensures
        split_seq(s, sep).len() >= 1,
    decreases s.len(),
{
    let i = first_index(s, sep, 0);
    lemma_first_index(s, sep, 0);
    if i < s.len() {
        lemma_split_nonempty(s.subrange(i + 1, s.len() as int), sep);
    }
}

} // verus!
