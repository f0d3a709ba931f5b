//! Wide strings: the sixteen-bit text the window system exchanges.
//!
//! Texts cross the boundary encoded as sequences of sixteen-bit units, a
//! character outside the basic plane as a surrogate pair, and a multi-string
//! as runs of units separated by single zero terminators and ended by an
//! empty run. Encoding, decoding and the multi-string parse are the
//! library's own verified logic.

use vstd::prelude::*;

verus! {

/// A unit that opens a surrogate pair.
pub open spec fn is_high_surrogate(u: u16) -> bool {
    0xD800 <= u <= 0xDBFF
}

/// A unit that closes a surrogate pair.
pub open spec fn is_low_surrogate(u: u16) -> bool {
    0xDC00 <= u <= 0xDFFF
}

/// A value that is a character: not a surrogate, not past the last code
/// point.
pub open spec fn is_valid_scalar(v: u32) -> bool {
    v < 0xD800 || (0xE000 <= v <= 0x10FFFF)
}

/// The one or two units a character encodes to.
pub open spec fn utf16_units(c: char) -> Seq<u16> {
    if (c as int) < 0x10000 {
        seq![c as u16]
    } else {
        seq![
            (0xD800 + ((c as int - 0x10000) / 0x400)) as u16,
            (0xDC00 + ((c as int - 0x10000) % 0x400)) as u16,
        ]
    }
}

/// The units a text encodes to.
pub open spec fn utf16_encode(s: Seq<char>) -> Seq<u16>
    decreases s.len(),
{
    if s.len() == 0 {
        Seq::<u16>::empty()
    } else {
        utf16_units(s[0]) + utf16_encode(s.skip(1))
    }
}

/// Encoding one more character appends its units.
pub proof fn lemma_encode_push(s: Seq<char>, c: char)
    ensures
        utf16_encode(s.push(c)) == utf16_encode(s) + utf16_units(c),
    decreases s.len(),
{
    if s.len() == 0 {
        assert(s.push(c)[0] == c);
        assert(s.push(c).skip(1) =~= Seq::<char>::empty());
        assert(utf16_encode(s.push(c)) == utf16_units(c) + utf16_encode(Seq::<char>::empty()));
        assert(utf16_units(c) + Seq::<u16>::empty() =~= utf16_units(c));
        assert(utf16_encode(s) + utf16_units(c) =~= utf16_units(c));
    } else {
        assert(s.push(c)[0] == s[0]);
        assert(s.push(c).skip(1) =~= s.skip(1).push(c));
        lemma_encode_push(s.skip(1), c);
        assert(utf16_encode(s.push(c)) == utf16_units(s[0]) + (utf16_encode(s.skip(1))
            + utf16_units(c)));
        assert(utf16_units(s[0]) + (utf16_encode(s.skip(1)) + utf16_units(c)) =~= (utf16_units(
            s[0],
        ) + utf16_encode(s.skip(1))) + utf16_units(c));
    }
}

/// A character of the basic plane is its one encoded unit: the unit holds
/// the same value, is no surrogate, and casts back to the character.
proof fn lemma_char_bmp_unit(c: char)
    requires
        (c as int) < 0x10000,
    ensures
        (c as u16) as int == c as int,
        !is_high_surrogate(c as u16),
        !is_low_surrogate(c as u16),
        ((c as u16) as char) == c,
{
    assert((c as u32) as int == c as int);
    assert(((c as u32) as u16) as int == c as int);
    assert((c as u16) as int == c as int);
}

/// A character beyond the basic plane is its surrogate pair: the two
/// encoded units are a high and a low surrogate, and combining them gives
/// the character back.
proof fn lemma_char_astral_units(c: char)
    requires
        0x10000 <= c as int,
    ensures
        is_high_surrogate((0xD800 + ((c as int - 0x10000) / 0x400)) as u16),
        is_low_surrogate((0xDC00 + ((c as int - 0x10000) % 0x400)) as u16),
        combine_surrogates(
            (0xD800 + ((c as int - 0x10000) / 0x400)) as u16,
            (0xDC00 + ((c as int - 0x10000) % 0x400)) as u16,
        ) == c,
{
    assert(0 <= (c as int - 0x10000) / 0x400 <= 0x3FF && 0 <= (c as int - 0x10000) % 0x400
        < 0x400) by (nonlinear_arith)
        requires
            0x10000 <= c as int <= 0x10FFFF,
    ;
    vstd::arithmetic::div_mod::lemma_fundamental_div_mod(c as int - 0x10000, 0x400);
    let q = (c as int - 0x10000) / 0x400;
    let rm = (c as int - 0x10000) % 0x400;
    let hi = (0xD800 + q) as u16;
    let lo = (0xDC00 + rm) as u16;
    assert(hi as int == 0xD800 + q);
    assert(lo as int == 0xDC00 + rm);
    assert(c as int - 0x10000 == 0x400 * q + rm);
    assert((hi - 0xD800) * 0x400 + (lo - 0xDC00) + 0x10000 == c as int);
    assert(combine_surrogates(hi, lo) == c);
}

/// Encoding loses nothing: decoding the units a text encoded to yields
/// the text again, character for character.
pub proof fn lemma_utf16_round_trip(s: Seq<char>)
    ensures
        utf16_decode(utf16_encode(s)) == s,
    decreases s.len(),
{
    if s.len() == 0 {
        assert(utf16_decode(utf16_encode(s)) =~= s);
    } else {
        let c = s[0];
        let u = utf16_units(c);
        let rest = utf16_encode(s.skip(1));
        lemma_utf16_round_trip(s.skip(1));
        assert(utf16_encode(s) == u + rest);
        if (c as int) < 0x10000 {
            lemma_char_bmp_unit(c);
            assert(u =~= seq![c as u16]);
            assert((u + rest)[0] == c as u16);
            assert((u + rest).skip(1) =~= rest);
            assert(utf16_decode(u + rest) == seq![c] + utf16_decode(rest));
        } else {
            lemma_char_astral_units(c);
            let hi = (0xD800 + ((c as int - 0x10000) / 0x400)) as u16;
            let lo = (0xDC00 + ((c as int - 0x10000) % 0x400)) as u16;
            assert(u =~= seq![hi, lo]);
            assert((u + rest)[0] == hi);
            assert((u + rest)[1] == lo);
            assert((u + rest).skip(2) =~= rest);
            assert(utf16_decode(u + rest) == seq![c] + utf16_decode(rest));
        }
        assert(seq![c] + s.skip(1) =~= s);
    }
}

/// The character a surrogate pair stands for.
pub open spec fn combine_surrogates(hi: u16, lo: u16) -> char {
    ((hi - 0xD800) * 0x400 + (lo - 0xDC00) + 0x10000) as char
}

/// The text a sequence of units decodes to: a well-formed pair becomes its
/// character, an unpaired surrogate the replacement character, any other
/// unit itself.
pub open spec fn utf16_decode(u: Seq<u16>) -> Seq<char>
    decreases u.len(),
{
    if u.len() == 0 {
        Seq::<char>::empty()
    } else if is_high_surrogate(u[0]) && u.len() >= 2 && is_low_surrogate(u[1]) {
        seq![combine_surrogates(u[0], u[1])] + utf16_decode(u.skip(2))
    } else if is_high_surrogate(u[0]) || is_low_surrogate(u[0]) {
        seq!['\u{FFFD}'] + utf16_decode(u.skip(1))
    } else {
        seq![u[0] as char] + utf16_decode(u.skip(1))
    }
}

/// Relies on char::from_u32 of std: the value as a character where it is
/// one — not a surrogate, not past the last code point — and nothing
/// otherwise.
pub assume_specification[ char::from_u32 ](i: u32) -> (r: Option<char>)
    ensures
        is_valid_scalar(i) ==> r == Some(i as char),
        !is_valid_scalar(i) ==> r is None,
;

/// Relies on String::push of std: appends the character to the string.
pub assume_specification[ String::push ](s: &mut String, ch: char)
    ensures
        final(s)@ == old(s)@.push(ch),
;

/// A wide string: text held as its sixteen-bit units.
pub struct WString {
    buf: Vec<u16>,
}

impl WString {
    /// The units held, without a terminator.
    pub closed spec fn units_spec(&self) -> Seq<u16> {
        self.buf@
    }

    /// Encodes a text into its units.
    pub fn from_str(s: &str) -> (w: WString)
        ensures
            w.units_spec() == utf16_encode(s@),
    {
        let n = s.unicode_len();
        let mut buf: Vec<u16> = Vec::new();
        let mut i: usize = 0;
        proof {
            assert(s@.take(0) =~= Seq::<char>::empty());
        }
        while i < n
            invariant
                i <= n,
                n == s@.len(),
                buf@ == utf16_encode(s@.take(i as int)),
            decreases n - i,
        {
            let c = s.get_char(i);
            let v = c as u32;
            proof {
                lemma_encode_push(s@.take(i as int), s@[i as int]);
                assert(s@.take(i + 1) =~= s@.take(i as int).push(s@[i as int]));
            }
            if v < 0x10000 {
                buf.push(v as u16);
                proof {
                    assert(utf16_units(c) =~= seq![c as u16]);
                    assert(buf@ =~= utf16_encode(s@.take(i as int)) + utf16_units(c));
                }
            } else {
                proof {
                    assert((v - 0x10000) / 0x400 <= 0x3FF && (v - 0x10000) % 0x400 <= 0x3FF)
                        by (nonlinear_arith)
                        requires
                            0x10000 <= v <= 0x10FFFF,
                    ;
                }
                let hi = (0xD800 + (v - 0x10000) / 0x400) as u16;
                let lo = (0xDC00 + (v - 0x10000) % 0x400) as u16;
                buf.push(hi);
                buf.push(lo);
                proof {
                    assert(utf16_units(c) =~= seq![hi, lo]);
                    assert(buf@ =~= utf16_encode(s@.take(i as int)) + utf16_units(c));
                }
            }
            i = i + 1;
        }
        proof {
            assert(s@.take(n as int) =~= s@);
        }
        WString { buf }
    }

    /// Wraps units already in hand.
    pub fn from_wchars_slice(src: &[u16]) -> (w: WString)
        ensures
            w.units_spec() == src@,
    {
        let n = src.len();
        let mut buf: Vec<u16> = Vec::new();
        let mut i: usize = 0;
        while i < n
            invariant
                i <= n,
                n == src@.len(),
                buf@.len() == i,
                forall|j: int| 0 <= j < i ==> buf@[j] == src@[j],
            decreases n - i,
        {
            buf.push(src[i]);
            i = i + 1;
        }
        proof {
            assert(buf@ =~= src@);
        }
        WString { buf }
    }

    /// The units held, without a terminator.
    pub fn as_units(&self) -> (v: &Vec<u16>)
        ensures
            v@ == self.units_spec(),
    {
        &self.buf
    }

    /// The units held, with the zero terminator the platform's calls
    /// expect.
    pub fn as_units_z(&self) -> (v: Vec<u16>)
        ensures
            v@ == self.units_spec().push(0u16),
    {
        let mut out = self.buf.clone();
        out.push(0);
        proof {
            assert(out@ =~= self.buf@.push(0u16));
        }
        out
    }

    /// Decodes the units held back into a text.
    pub fn to_string(&self) -> (r: String)
        ensures
            r@ == utf16_decode(self.units_spec()),
    {
        utf16_to_string(self.buf.as_slice())
    }
}

/// Decodes a sequence of units into a text: a well-formed surrogate pair
/// becomes its character, an unpaired surrogate the replacement character,
/// any other unit itself.
pub fn utf16_to_string(units: &[u16]) -> (r: String)
    ensures
        r@ == utf16_decode(units@),
{
    let n = units.len();
    let mut out = String::new();
    let mut i: usize = 0;
    proof {
        assert(units@.skip(0) =~= units@);
        assert(out@ + utf16_decode(units@) =~= utf16_decode(units@));
    }
    while i < n
        invariant
            i <= n,
            n == units@.len(),
            utf16_decode(units@) == out@ + utf16_decode(units@.skip(i as int)),
        decreases n - i,
    {
        let u = units[i];
        proof {
            assert(units@.skip(i as int)[0] == units@[i as int]);
        }
        if u >= 0xD800 && u <= 0xDBFF && i + 1 < n && units[i + 1] >= 0xDC00 && units[i + 1]
            <= 0xDFFF {
            let lo = units[i + 1];
            let code: u32 = ((u as u32) - 0xD800) * 0x400 + ((lo as u32) - 0xDC00) + 0x10000;
            proof {
                assert(((u as u32) - 0xD800) * 0x400 <= 0x3FF * 0x400) by (nonlinear_arith)
                    requires
                        (u as u32) - 0xD800 <= 0x3FF,
                ;
            }
            let c = match char::from_u32(code) {
                Some(c) => c,
                None => '\u{FFFD}',
            };
            proof {
                assert(units@.skip(i as int)[1] == units@[i + 1]);
                assert(units@.skip(i as int).skip(2) =~= units@.skip(i + 2));
                assert(utf16_decode(units@.skip(i as int)) == seq![
                    combine_surrogates(units@[i as int], units@[i + 1]),
                ] + utf16_decode(units@.skip(i + 2)));
                assert(out@.push(c) + utf16_decode(units@.skip(i + 2)) =~= out@ + (seq![c]
                    + utf16_decode(units@.skip(i + 2))));
            }
            out.push(c);
            i = i + 2;
        } else {
            let c = if u >= 0xD800 && u <= 0xDFFF {
                '\u{FFFD}'
            } else {
                match char::from_u32(u as u32) {
                    Some(c) => c,
                    None => '\u{FFFD}',
                }
            };
            proof {
                assert(units@.skip(i as int).skip(1) =~= units@.skip(i + 1));
                if i + 1 < n {
                    assert(units@.skip(i as int)[1] == units@[i + 1]);
                }
                assert(utf16_decode(units@.skip(i as int)) == seq![c] + utf16_decode(
                    units@.skip(i + 1),
                ));
                assert(out@.push(c) + utf16_decode(units@.skip(i + 1)) =~= out@ + (seq![c]
                    + utf16_decode(units@.skip(i + 1))));
            }
            out.push(c);
            i = i + 1;
        }
    }
    proof {
        assert(units@.skip(n as int) =~= Seq::<u16>::empty());
        assert(out@ + Seq::<char>::empty() =~= out@);
    }
    out
}

/// Encodes each text of an optional list into a wide string, for the
/// platform calls that take an array of texts; no list encodes as none.
pub fn create_wstr_vecs(strings: Option<&[String]>) -> (r: Vec<WString>)
    ensures
        strings is None ==> r@.len() == 0,
        strings matches Some(ss) ==> r@.len() == ss@.len() && forall|i: int|
            0 <= i < ss@.len() ==> (#[trigger] r@[i]).units_spec() == utf16_encode(ss@[i]@),
{
    match strings {
        Some(ss) => {
            let n = ss.len();
            let mut out: Vec<WString> = Vec::new();
            let mut i: usize = 0;
            while i < n
                invariant
                    i <= n,
                    n == ss@.len(),
                    out@.len() == i,
                    forall|j: int|
                        0 <= j < i ==> (#[trigger] out@[j]).units_spec() == utf16_encode(ss@[j]@),
                decreases n - i,
            {
                out.push(WString::from_str(ss[i].as_str()));
                i = i + 1;
            }
            out
        },
        None => Vec::new(),
    }
}

/// The number of units before the first zero, or the whole length where
/// none is zero.
pub open spec fn first_zero(s: Seq<u16>) -> nat
    decreases s.len(),
{
    if s.len() == 0 {
        0
    } else if s[0] == 0 {
        0
    } else {
        1 + first_zero(s.skip(1))
    }
}

/// The position where every unit before it is nonzero and it holds zero —
/// or the end, where no unit is zero — is where the first zero is.
pub proof fn lemma_first_zero_at(s: Seq<u16>, k: int)
    requires
        0 <= k <= s.len(),
        forall|m: int| 0 <= m < k ==> s[m] != 0,
        k < s.len() ==> s[k] == 0,
    ensures
        first_zero(s) == k,
    decreases k,
{
    if k == 0 {
    } else {
        assert(s[0] != 0);
        assert forall|m: int| 0 <= m < k - 1 implies s.skip(1)[m] != 0 by {
            assert(s.skip(1)[m] == s[m + 1]);
        }
        assert(k - 1 < s.skip(1).len() ==> s.skip(1)[k - 1] == s[k]);
        lemma_first_zero_at(s.skip(1), k - 1);
    }
}

/// The runs of a zero-delimited multi-string: maximal nonzero runs, each
/// ended by a zero terminator, the whole ended by an empty run — a second
/// zero, or the end of the units.
pub open spec fn parse_mz(s: Seq<u16>) -> Seq<Seq<u16>>
    decreases s.len(),
{
    if s.len() == 0 || s[0] == 0 {
        Seq::<Seq<u16>>::empty()
    } else {
        let k = first_zero(s);
        if k >= s.len() {
            seq![s]
        } else {
            seq![s.take(k as int)] + parse_mz(s.skip(k as int + 1))
        }
    }
}

/// A copy of the units between two positions.
fn copy_range(src: &[u16], from: usize, to: usize) -> (v: Vec<u16>)
    requires
        from <= to <= src@.len(),
    ensures
        v@ == src@.subrange(from as int, to as int),
{
    let mut out: Vec<u16> = Vec::new();
    let mut m: usize = from;
    while m < to
        invariant
            from <= m <= to,
            to <= src@.len(),
            out@.len() == m - from,
            forall|t: int| 0 <= t < out@.len() ==> out@[t] == src@[from + t],
        decreases to - m,
    {
        out.push(src[m]);
        m = m + 1;
    }
    proof {
        assert(out@ =~= src@.subrange(from as int, to as int));
    }
    out
}

/// Parses a zero-delimited multi-string into its runs, each decoded to a
/// text: a run ends at a zero terminator or at the end of the units, and
/// an empty run — a second zero in a row, or a leading zero — ends the
/// parse.
pub fn parse_multi_z_str(src: &[u16]) -> (r: Vec<String>)
    ensures
        r@.len() == parse_mz(src@).len(),
        forall|j: int| 0 <= j < r@.len() ==> (#[trigger] r@[j])@ == utf16_decode(parse_mz(src@)[j]),
{
    let n = src.len();
    let mut out: Vec<String> = Vec::new();
    let mut i: usize = 0;
    let ghost mut done: Seq<Seq<u16>> = Seq::<Seq<u16>>::empty();
    proof {
        assert(src@.skip(0) =~= src@);
        assert(done + parse_mz(src@) =~= parse_mz(src@));
    }
    while i < n && src[i] != 0
        invariant
            i <= n,
            n == src@.len(),
            parse_mz(src@) == done + parse_mz(src@.skip(i as int)),
            out@.len() == done.len(),
            forall|j: int| 0 <= j < done.len() ==> (#[trigger] out@[j])@ == utf16_decode(done[j]),
        decreases n - i,
    {
        let mut j: usize = i;
        while j < n && src[j] != 0
            invariant
                i <= j <= n,
                n == src@.len(),
                forall|m: int| i <= m < j ==> src@[m] != 0,
            decreases n - j,
        {
            j = j + 1;
        }
        let run = copy_range(src, i, j);
        let text = utf16_to_string(run.as_slice());
        out.push(text);
        proof {
            let ghost tail = src@.skip(i as int);
            assert(tail[0] == src@[i as int]);
            assert forall|m: int| 0 <= m < j - i implies tail[m] != 0 by {
                assert(tail[m] == src@[i + m]);
            }
            if (j as int) - (i as int) < tail.len() {
                assert(tail[j - i] == src@[j as int]);
            }
            lemma_first_zero_at(tail, j - i);
            assert(tail.take(j - i) =~= src@.subrange(i as int, j as int));
            let ghost prev = done;
            done = done.push(src@.subrange(i as int, j as int));
            if j < n {
                assert(tail.skip(j - i + 1) =~= src@.skip(j + 1));
                assert(parse_mz(tail) == seq![src@.subrange(i as int, j as int)] + parse_mz(
                    src@.skip(j + 1),
                ));
                assert(prev + parse_mz(tail) =~= done + parse_mz(src@.skip(j + 1)));
            } else {
                assert(tail =~= src@.subrange(i as int, j as int));
                assert(parse_mz(tail) == seq![tail]);
                assert(src@.skip(n as int) =~= Seq::<u16>::empty());
                assert(prev + parse_mz(tail) =~= done + parse_mz(src@.skip(n as int)));
            }
        }
        if j < n {
            i = j + 1;
        } else {
            i = n;
        }
    }
    proof {
        if i < n {
            assert(src@.skip(i as int)[0] == src@[i as int]);
        }
        assert(parse_mz(src@.skip(i as int)) =~= Seq::<Seq<u16>>::empty());
        assert(parse_mz(src@) =~= done);
    }
    out
}

} // verus!
