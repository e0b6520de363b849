use vstd::prelude::*;

verus! {

/// ASCII whitespace: horizontal tab through carriage return, and space —
/// the characters that `char::is_whitespace` accepts below 0x80.
pub open spec fn is_ws(b: u8) -> bool {
    b == 32 || (9 <= b && b <= 13)
}

/// A buffer is blank when every byte is ASCII whitespace. Both transcoding
/// directions return an empty result immediately on blank input.
pub open spec fn blank(s: Seq<u8>) -> bool {
    forall|i: int| 0 <= i < s.len() ==> is_ws(s[i])
}

pub fn is_blank(s: &Vec<u8>) -> (r: bool)
    ensures
        r == blank(s@),
{
    let mut i: usize = 0;
    while i < s.len()
        invariant
            i <= s@.len(),
            forall|j: int| 0 <= j < i ==> is_ws(s@[j]),
        decreases s@.len() - i,
    {
        let b: u8 = s[i];
        if !(b == 32 || (9 <= b && b <= 13)) {
            assert(!is_ws(s@[i as int]));
            return false;
        }
        i += 1;
    }
    true
}

/// The numeric value of an ASCII hexadecimal digit, upper or lower case.
pub open spec fn hex_digit_val(b: u8) -> Option<u8> {
    if 48 <= b && b <= 57 {
        Some((b - 48) as u8)
    } else if 97 <= b && b <= 102 {
        Some((b - 87) as u8)
    } else if 65 <= b && b <= 70 {
        Some((b - 55) as u8)
    } else {
        None
    }
}

pub fn hex_digit(b: u8) -> (r: Option<u8>)
    ensures
        r == hex_digit_val(b),
{
    if 48 <= b && b <= 57 {
        Some(b - 48)
    } else if 97 <= b && b <= 102 {
        Some(b - 87)
    } else if 65 <= b && b <= 70 {
        Some(b - 55)
    } else {
        None
    }
}

/// A byte token is valid exactly when it is two hexadecimal digits.
pub open spec fn valid_token(t: Seq<u8>) -> bool {
    t.len() == 2 && hex_digit_val(t[0]) is Some && hex_digit_val(t[1]) is Some
}

/// The byte a valid token denotes.
pub open spec fn token_value(t: Seq<u8>) -> u8
    recommends
        valid_token(t),
{
    match (hex_digit_val(t[0]), hex_digit_val(t[1])) {
        (Some(h), Some(l)) => (h * 16 + l) as u8,
        _ => 0,
    }
}

/// The length of the leading run of non-whitespace bytes.
pub open spec fn token_len(s: Seq<u8>) -> int
    decreases s.len(),
{
    if s.len() == 0 || is_ws(s[0]) {
        0
    } else {
        1 + token_len(s.skip(1))
    }
}

pub proof fn lemma_token_len(s: Seq<u8>)
    ensures
        0 <= token_len(s) <= s.len(),
        forall|j: int| 0 <= j < token_len(s) ==> !is_ws(s[j]),
        token_len(s) < s.len() ==> is_ws(s[token_len(s)]),
    decreases s.len(),
{
    if s.len() == 0 || is_ws(s[0]) {
    } else {
        lemma_token_len(s.skip(1));
        assert forall|j: int| 0 <= j < token_len(s) implies !is_ws(s[j]) by {
            if j > 0 {
                assert(!is_ws(s.skip(1)[j - 1]));
            }
        }
        if token_len(s) < s.len() {
            assert(is_ws(s.skip(1)[token_len(s) - 1]));
        }
    }
}

/// A position bounded by the length, preceded only by non-whitespace and
/// followed by whitespace or the end, is the token length.
pub proof fn lemma_token_len_is(s: Seq<u8>, m: int)
    requires
        0 <= m <= s.len(),
        forall|j: int| 0 <= j < m ==> !is_ws(s[j]),
        m < s.len() ==> is_ws(s[m]),
    ensures
        token_len(s) == m,
    decreases s.len(),
{
    if s.len() == 0 {
    } else if is_ws(s[0]) {
        assert(m == 0);
    } else {
        assert(m >= 1);
        assert forall|j: int| 0 <= j < m - 1 implies !is_ws(s.skip(1)[j]) by {
            assert(s.skip(1)[j] == s[j + 1]);
        }
        if m - 1 < s.skip(1).len() {
            assert(s.skip(1)[m - 1] == s[m]);
        }
        lemma_token_len_is(s.skip(1), m - 1);
    }
}

/// The byte sequence a hex buffer denotes: tokens are runs of non-whitespace,
/// each must be exactly two hexadecimal digits, and the first malformed token
/// fails the whole parse, carried in the error.
pub open spec fn parse_hex(s: Seq<u8>) -> Result<Seq<u8>, Seq<u8>>
    decreases s.len(),
    via parse_hex_dec
{
    if s.len() == 0 {
        Ok(Seq::empty())
    } else if is_ws(s[0]) {
        parse_hex(s.skip(1))
    } else {
        let k = token_len(s);
        let t = s.take(k);
        if valid_token(t) {
            match parse_hex(s.skip(k)) {
                Ok(rest) => Ok(seq![token_value(t)] + rest),
                Err(e) => Err(e),
            }
        } else {
            Err(t)
        }
    }
}

#[via_fn]
proof fn parse_hex_dec(s: Seq<u8>) {
    if s.len() > 0 && !is_ws(s[0]) {
        lemma_token_len(s);
        assert(token_len(s) >= 1);
    }
}

/// A blank buffer parses to no bytes at all.
pub proof fn lemma_parse_blank(s: Seq<u8>)
    requires
        blank(s),
    ensures
        parse_hex(s) == Ok::<Seq<u8>, Seq<u8>>(Seq::empty()),
    decreases s.len(),
{
    if s.len() == 0 {
    } else {
        assert(forall|j: int| 0 <= j < s.skip(1).len() ==> is_ws(s.skip(1)[j]));
        lemma_parse_blank(s.skip(1));
    }
}

/// Prepends already-produced bytes to the outcome of the remaining parse.
pub open spec fn res_glue(pre: Seq<u8>, r: Result<Seq<u8>, Seq<u8>>) -> Result<Seq<u8>, Seq<u8>> {
    match r {
        Ok(v) => Ok(pre + v),
        Err(e) => Err(e),
    }
}

/// Copies `src[start..end]` into a fresh vector.
pub fn copy_range(src: &Vec<u8>, start: usize, end: usize) -> (r: Vec<u8>)
    requires
        start <= end <= src@.len(),
    ensures
        r@ == src@.subrange(start as int, end as int),
{
    let mut r: Vec<u8> = Vec::new();
    let mut j: usize = start;
    while j < end
        invariant
            start <= j <= end <= src@.len(),
            r@ == src@.subrange(start as int, j as int),
        decreases end - j,
    {
        r.push(src[j]);
        proof {
            assert(src@.subrange(start as int, (j + 1) as int) =~= src@.subrange(
                start as int,
                j as int,
            ).push(src@[j as int]));
        }
        j += 1;
    }
    r
}

/// Appends all of `src` to `dst`.
pub fn append_bytes(dst: &mut Vec<u8>, src: &Vec<u8>)
    ensures
        final(dst)@ == old(dst)@ + src@,
{
    let mut j: usize = 0;
    while j < src.len()
        invariant
            j <= src@.len(),
            dst@ == old(dst)@ + src@.take(j as int),
        decreases src@.len() - j,
    {
        dst.push(src[j]);
        proof {
            assert(old(dst)@ + src@.take((j + 1) as int) =~= (old(dst)@ + src@.take(
                j as int,
            )).push(src@[j as int]));
        }
        j += 1;
    }
    proof {
        assert(src@.take(src@.len() as int) =~= src@);
    }
}

/// Parses a whole hex buffer into its bytes, or returns the first malformed
/// token.
pub fn parse_hex_bytes(s: &Vec<u8>) -> (r: Result<Vec<u8>, Vec<u8>>)
    ensures
        match r {
            Ok(v) => parse_hex(s@) == Ok::<Seq<u8>, Seq<u8>>(v@),
            Err(t) => parse_hex(s@) == Err::<Seq<u8>, Seq<u8>>(t@),
        },
{
    let n = s.len();
    let mut out: Vec<u8> = Vec::new();
    let mut i: usize = 0;
    proof {
        assert(s@.skip(0) =~= s@);
        if let Ok(v) = parse_hex(s@) {
            assert(Seq::<u8>::empty() + v =~= v);
        }
    }
    while i < n
        invariant
            n == s@.len(),
            i <= n,
            parse_hex(s@) == res_glue(out@, parse_hex(s@.skip(i as int))),
        decreases n - i,
    {
        let b: u8 = s[i];
        if b == 32 || (9 <= b && b <= 13) {
            proof {
                assert(s@.skip(i as int)[0] == s@[i as int]);
                vstd::seq_lib::lemma_seq_skip_of_skip(s@, i as int, 1);
            }
            i += 1;
        } else {
            let ghost su = s@.skip(i as int);
            assert(su[0] == s@[i as int] && !is_ws(su[0]));
            let mut k: usize = i + 1;
            while k < n && !(s[k] == 32 || (9 <= s[k] && s[k] <= 13))
                invariant
                    n == s@.len(),
                    i < k <= n,
                    forall|j: int| i <= j < k ==> !is_ws(s@[j]),
                decreases n - k,
            {
                k += 1;
            }
            proof {
                assert forall|j: int| 0 <= j < k - i implies !is_ws(su[j]) by {
                    assert(su[j] == s@[i + j]);
                }
                if k < n {
                    assert(su[k - i] == s@[k as int]);
                }
                lemma_token_len_is(su, k - i);
            }
            let ghost t = su.take(k - i);
            if k - i == 2 {
                let h = hex_digit(s[i]);
                let l = hex_digit(s[i + 1]);
                proof {
                    assert(t[0] == s@[i as int] && t[1] == s@[i + 1]);
                }
                match (h, l) {
                    (Some(hv), Some(lv)) => {
                        assert(hv <= 15 && lv <= 15);
                        let v: u8 = hv * 16 + lv;
                        proof {
                            assert(valid_token(t));
                            assert(token_value(t) == v);
                            vstd::seq_lib::lemma_seq_skip_of_skip(s@, i as int, 2);
                            assert(parse_hex(su) == res_glue(
                                seq![v],
                                parse_hex(s@.skip(i + 2)),
                            ));
                            if let Ok(rest) = parse_hex(s@.skip(i + 2)) {
                                assert(out@ + (seq![v] + rest) =~= out@.push(v) + rest);
                            }
                        }
                        out.push(v);
                        i = k;
                    },
                    _ => {
                        let tok = copy_range(s, i, k);
                        proof {
                            assert(tok@ =~= t);
                            assert(!valid_token(t));
                            assert(parse_hex(su) == Err::<Seq<u8>, Seq<u8>>(t));
                        }
                        return Err(tok);
                    },
                }
            } else {
                let tok = copy_range(s, i, k);
                proof {
                    assert(tok@ =~= t);
                    assert(t.len() != 2);
                    assert(parse_hex(su) == Err::<Seq<u8>, Seq<u8>>(t));
                }
                return Err(tok);
            }
        }
    }
    proof {
        assert(s@.skip(n as int) =~= Seq::<u8>::empty());
        assert(out@ + Seq::<u8>::empty() =~= out@);
    }
    Ok(out)
}

/// The lowercase hexadecimal character of a value below 16.
pub open spec fn hex_digit_char(v: u8) -> u8
    recommends
        v < 16,
{
    if v < 10 {
        (48 + v) as u8
    } else {
        (87 + v) as u8
    }
}

/// Two lowercase hexadecimal digits, zero-padded, for one byte.
pub open spec fn byte_hex(b: u8) -> Seq<u8> {
    seq![hex_digit_char(b / 16), hex_digit_char(b % 16)]
}

/// A byte sequence rendered as two-digit lowercase hex bytes, space-joined,
/// on a single line with no trailing newline.
pub open spec fn hex_line(bs: Seq<u8>) -> Seq<u8>
    decreases bs.len(),
{
    if bs.len() == 0 {
        Seq::empty()
    } else if bs.len() == 1 {
        byte_hex(bs[0])
    } else {
        byte_hex(bs[0]) + seq![32u8] + hex_line(bs.skip(1))
    }
}

pub fn render_hex(bs: &Vec<u8>) -> (r: Vec<u8>)
    ensures
        r@ == hex_line(bs@),
{
    let n = bs.len();
    let mut out: Vec<u8> = Vec::new();
    let mut i: usize = 0;
    proof {
        assert(bs@.skip(0) =~= bs@);
        assert(Seq::<u8>::empty() + hex_line(bs@) =~= hex_line(bs@));
    }
    while i < n
        invariant
            n == bs@.len(),
            i <= n,
            hex_line(bs@) == out@ + hex_line(bs@.skip(i as int)),
        decreases n - i,
    {
        let ghost su = bs@.skip(i as int);
        let ghost pre = out@;
        let b: u8 = bs[i];
        assert(su[0] == b);
        let hi: u8 = b / 16;
        let lo: u8 = b % 16;
        out.push(if hi < 10 { 48 + hi } else { 87 + hi });
        out.push(if lo < 10 { 48 + lo } else { 87 + lo });
        if i + 1 < n {
            out.push(32);
            proof {
                vstd::seq_lib::lemma_seq_skip_of_skip(bs@, i as int, 1);
                assert(hex_line(su) == byte_hex(su[0]) + seq![32u8] + hex_line(
                    bs@.skip(i + 1),
                ));
                assert(pre + (byte_hex(b) + seq![32u8] + hex_line(bs@.skip(i + 1))) =~= out@
                    + hex_line(bs@.skip(i + 1)));
            }
        } else {
            proof {
                assert(su.len() == 1);
                assert(hex_line(su) == byte_hex(su[0]));
                assert(bs@.skip(i + 1) =~= Seq::<u8>::empty());
                assert(pre + byte_hex(b) =~= out@ + hex_line(bs@.skip(i + 1)));
            }
        }
        i += 1;
    }
    proof {
        assert(bs@.skip(n as int) =~= Seq::<u8>::empty());
        assert(out@ + Seq::<u8>::empty() =~= out@);
    }
    out
}

/// Hexadecimal characters are not whitespace and decode back to their value.
pub proof fn lemma_hex_digit_char(v: u8)
    requires
        v < 16,
    ensures
        !is_ws(hex_digit_char(v)),
        hex_digit_val(hex_digit_char(v)) == Some(v),
{
}

/// Rendering bytes as a hex line and parsing that line returns the same
/// bytes: the textual byte form loses nothing.
pub proof fn lemma_hex_round_trip(bs: Seq<u8>)
    ensures
        parse_hex(hex_line(bs)) == Ok::<Seq<u8>, Seq<u8>>(bs),
    decreases bs.len(),
{
    let s = hex_line(bs);
    if bs.len() == 0 {
        assert(bs =~= Seq::<u8>::empty());
    } else {
        let b = bs[0];
        let d0 = hex_digit_char(b / 16);
        let d1 = hex_digit_char(b % 16);
        assert(b / 16 < 16 && b % 16 < 16);
        lemma_hex_digit_char(b / 16);
        lemma_hex_digit_char(b % 16);
        assert(b == (b / 16) * 16 + b % 16) by {
            vstd::arithmetic::div_mod::lemma_fundamental_div_mod(b as int, 16);
        }
        if bs.len() == 1 {
            assert(s == byte_hex(b));
            assert(s.len() == 2 && s[0] == d0 && s[1] == d1);
            lemma_token_len_is(s, 2);
            assert(s.take(2) =~= s);
            assert(valid_token(s));
            assert(token_value(s) == b);
            assert(s.skip(2) =~= Seq::<u8>::empty());
            assert(parse_hex(s) == Ok::<Seq<u8>, Seq<u8>>(seq![b] + Seq::<u8>::empty()));
            assert(seq![b] + Seq::<u8>::empty() =~= bs);
        } else {
            let rest = hex_line(bs.skip(1));
            assert(s == byte_hex(b) + seq![32u8] + rest);
            assert(s[0] == d0 && s[1] == d1 && s[2] == 32);
            assert(!is_ws(s[0]) && !is_ws(s[1]) && is_ws(s[2]));
            lemma_token_len_is(s, 2);
            let t = s.take(2);
            assert(t.len() == 2 && t[0] == d0 && t[1] == d1);
            assert(valid_token(t));
            assert(token_value(t) == b);
            let s2 = s.skip(2);
            assert(s2[0] == 32 && is_ws(s2[0]));
            assert(s2.skip(1) =~= rest);
            lemma_hex_round_trip(bs.skip(1));
            assert(parse_hex(s2) == Ok::<Seq<u8>, Seq<u8>>(bs.skip(1)));
            assert(parse_hex(s) == Ok::<Seq<u8>, Seq<u8>>(seq![b] + bs.skip(1)));
            assert(seq![b] + bs.skip(1) =~= bs);
        }
    }
}

/// A hex buffer that parses reaches a fixed point after one render cycle:
/// rendering its bytes and parsing the rendering returns the same bytes, so
/// repeated cycles cannot drift.
pub proof fn lemma_hex_fixed_point(s: Seq<u8>)
    ensures
        parse_hex(s) matches Ok(bs) ==> parse_hex(hex_line(bs)) == Ok::<Seq<u8>, Seq<u8>>(bs),
{
    if let Ok(bs) = parse_hex(s) {
        lemma_hex_round_trip(bs);
    }
}

} // verus!
