//! Length-prefixed framing of protocol payloads over a byte stream.
//!
//! A frame is a header naming the payload length in decimal, a blank line,
//! then the payload bytes: `Content-Length: <n>\r\n\r\n<payload>`.

use vstd::prelude::*;

verus! {

/// The fixed header prefix, `"Content-Length: "` as bytes.
pub open spec fn header_lit() -> Seq<u8> {
    seq![67u8, 111u8, 110u8, 116u8, 101u8, 110u8, 116u8, 45u8, 76u8, 101u8, 110u8, 103u8, 116u8, 104u8, 58u8, 32u8]
}

/// The header/payload separator, `"\r\n\r\n"` as bytes.
pub open spec fn crlf2() -> Seq<u8> {
    seq![13u8, 10u8, 13u8, 10u8]
}

/// Whether `b` is an ASCII decimal digit.
pub open spec fn is_digit(b: u8) -> bool {
    48 <= b && b <= 57
}

/// The shortest decimal digit string of `n`, most significant first.
pub open spec fn dec_digits(n: int) -> Seq<u8>
    decreases n,
{
    if n < 10 {
        seq![(48 + n) as u8]
    } else {
        dec_digits(n / 10).push((48 + n % 10) as u8)
    }
}

/// The numeric value of a digit string, most significant first.
pub open spec fn fold_val(s: Seq<u8>) -> int
    decreases s.len(),
{
    if s.len() == 0 {
        0
    } else {
        fold_val(s.drop_last()) * 10 + (s.last() - 48)
    }
}

/// Whether every byte of `s` is a decimal digit.
pub open spec fn all_digits(s: Seq<u8>) -> bool {
    forall|j: int| 0 <= j < s.len() ==> is_digit(#[trigger] s[j])
}

/// Ten to the `k`.
pub open spec fn pow10(k: int) -> int
    decreases k,
{
    if k <= 0 {
        1
    } else {
        10 * pow10(k - 1)
    }
}

/// The frame that carries `p`: header, decimal length, blank line, payload.
pub open spec fn frame_of(p: Seq<u8>) -> Seq<u8> {
    header_lit() + dec_digits(p.len() as int) + crlf2() + p
}

/// The digit string of a non-negative number is non-empty, all digits,
/// leads with a zero only for zero itself, folds back to the number, and
/// witnesses `n < pow10(len)`.
pub proof fn lemma_dec_digits_basic(n: int)
    requires
        n >= 0,
    ensures
        dec_digits(n).len() >= 1,
        all_digits(dec_digits(n)),
        dec_digits(n)[0] == 48 ==> n == 0,
        fold_val(dec_digits(n)) == n,
        n < pow10(dec_digits(n).len() as int),
    decreases n,
{
    if n < 10 {
        assert(dec_digits(n) =~= seq![(48 + n) as u8]);
        assert(dec_digits(n).drop_last() =~= Seq::<u8>::empty());
        assert(dec_digits(n).last() == (48 + n) as u8);
        assert(fold_val(dec_digits(n)) == fold_val(Seq::<u8>::empty()) * 10 + n);
        assert(pow10(1) == 10 * pow10(0));
    } else {
        lemma_dec_digits_basic(n / 10);
        let pre = dec_digits(n / 10);
        let d = (48 + n % 10) as u8;
        assert(dec_digits(n) == pre.push(d));
        assert(dec_digits(n)[0] == pre[0]);
        assert(n / 10 >= 1);
        assert forall|j: int| 0 <= j < dec_digits(n).len() implies is_digit(
            #[trigger] dec_digits(n)[j],
        ) by {
            if j < pre.len() {
                assert(dec_digits(n)[j] == pre[j]);
            } else {
                assert(dec_digits(n)[j] == d);
            }
        }
        assert(pre.push(d).drop_last() =~= pre);
        assert(fold_val(pre.push(d)) == fold_val(pre) * 10 + (d - 48));
        assert(fold_val(dec_digits(n)) == (n / 10) * 10 + n % 10);
        assert((n / 10) * 10 + n % 10 == n);
        assert(pow10(pre.len() as int + 1) == 10 * pow10(pre.len() as int));
        assert(n <= 10 * (n / 10) + 9);
        assert(10 * (n / 10) + 9 < 10 * pow10(pre.len() as int));
    }
}

/// A digit string with a non-zero leading digit folds to at least one.
pub proof fn lemma_fold_first_nonzero(s: Seq<u8>)
    requires
        all_digits(s),
        s.len() >= 1,
        s[0] != 48,
    ensures
        fold_val(s) >= 1,
    decreases s.len(),
{
    lemma_fold_bounds(s);
    if s.len() == 1 {
        assert(s.drop_last().len() == 0);
    } else {
        let pre = s.drop_last();
        assert(pre[0] == s[0]);
        assert forall|j: int| 0 <= j < pre.len() implies is_digit(#[trigger] pre[j]) by {
            assert(pre[j] == s[j]);
        }
        lemma_fold_first_nonzero(pre);
        lemma_fold_bounds(pre);
        assert(fold_val(s) == fold_val(pre) * 10 + (s.last() - 48));
        assert(fold_val(pre) * 10 >= 10);
    }
}

/// A digit string folds to a value in `[0, pow10(len))`.
pub proof fn lemma_fold_bounds(s: Seq<u8>)
    requires
        all_digits(s),
    ensures
        0 <= fold_val(s),
        fold_val(s) < pow10(s.len() as int),
    decreases s.len(),
{
    if s.len() == 0 {
    } else {
        let pre = s.drop_last();
        assert forall|j: int| 0 <= j < pre.len() implies is_digit(#[trigger] pre[j]) by {
            assert(pre[j] == s[j]);
        }
        lemma_fold_bounds(pre);
        assert(is_digit(s.last()));
        assert(pow10(s.len() as int) == 10 * pow10(pre.len() as int));
        assert(fold_val(pre) * 10 <= (pow10(pre.len() as int) - 1) * 10);
    }
}

/// Folding then re-printing a well-formed digit string gives it back: the
/// decimal encoding is injective on strings without leading zeros.
pub proof fn lemma_dec_of_fold(s: Seq<u8>)
    requires
        all_digits(s),
        s.len() >= 1,
        s.len() > 1 ==> s[0] != 48,
    ensures
        dec_digits(fold_val(s)) == s,
    decreases s.len(),
{
    lemma_fold_bounds(s);
    if s.len() == 1 {
        assert(s.drop_last().len() == 0);
        assert(s.last() == s[0]);
        assert(fold_val(s) == fold_val(s.drop_last()) * 10 + (s.last() - 48));
        assert(fold_val(s) == s[0] - 48);
        assert(dec_digits(fold_val(s)) =~= s);
    } else {
        let pre = s.drop_last();
        assert(pre[0] == s[0]);
        assert forall|j: int| 0 <= j < pre.len() implies is_digit(#[trigger] pre[j]) by {
            assert(pre[j] == s[j]);
        }
        lemma_fold_first_nonzero(pre);
        lemma_dec_of_fold(pre);
        let d = (s.last() - 48) as int;
        let n = fold_val(s);
        assert(n == fold_val(pre) * 10 + d);
        assert(n >= 10) by {
            assert(fold_val(pre) * 10 >= 10);
        }
        assert(n / 10 == fold_val(pre) && n % 10 == d) by (nonlinear_arith)
            requires
                n == fold_val(pre) * 10 + d,
                0 <= d < 10,
                fold_val(pre) >= 0,
        ;
        assert(dec_digits(n) == dec_digits(n / 10).push((48 + n % 10) as u8));
        assert(dec_digits(n) =~= s);
    }
}

/// The outcome of trying to read one frame from the front of a buffer.
pub enum FrameStep {
    /// One complete frame: its payload, and how many bytes it occupied.
    Frame { payload: Vec<u8>, used: usize },
    /// The buffer ends before the frame does; read more bytes.
    NeedMore,
    /// The buffer cannot begin with a well-formed frame.
    Malformed,
}

/// Appends the decimal digits of `n` to `out`, most significant first.
fn push_dec_digits(n: u64, out: &mut Vec<u8>)
    ensures
        final(out)@ == old(out)@ + dec_digits(n as int),
    decreases n,
{
    if n < 10 {
        out.push(48 + n as u8);
        proof {
            assert(old(out)@.push((48 + n as int) as u8) =~= old(out)@ + dec_digits(n as int));
        }
    } else {
        push_dec_digits(n / 10, out);
        let d: u8 = 48 + (n % 10) as u8;
        out.push(d);
        proof {
            assert(dec_digits(n as int) == dec_digits(n as int / 10).push(
                (48 + n as int % 10) as u8,
            ));
            assert(n as int / 10 == (n / 10) as int);
            assert((old(out)@ + dec_digits((n / 10) as int)).push(d) =~= old(out)@ + dec_digits(
                n as int,
            ));
        }
    }
}

/// The fixed header prefix as bytes.
fn header_bytes() -> (r: Vec<u8>)
    ensures
        r@ == header_lit(),
{
    let mut h: Vec<u8> = Vec::new();
    h.push(67);
    h.push(111);
    h.push(110);
    h.push(116);
    h.push(101);
    h.push(110);
    h.push(116);
    h.push(45);
    h.push(76);
    h.push(101);
    h.push(110);
    h.push(103);
    h.push(116);
    h.push(104);
    h.push(58);
    h.push(32);
    proof {
        assert(h@ =~= header_lit());
    }
    h
}

/// Wraps one payload in a frame: `frame_of` exactly.
pub fn encode_frame(payload: &Vec<u8>) -> (r: Vec<u8>)
    ensures
        r@ == frame_of(payload@),
{
    let mut out = header_bytes();
    push_dec_digits(payload.len() as u64, &mut out);
    out.push(13);
    out.push(10);
    out.push(13);
    out.push(10);
    let ghost head = header_lit() + dec_digits(payload@.len() as int) + crlf2();
    proof {
        assert(out@ =~= head);
        assert(payload@.take(0) =~= Seq::<u8>::empty());
        assert(out@ =~= head + payload@.take(0));
    }
    let n: usize = payload.len();
    let mut i: usize = 0;
    while i < n
        invariant
            n == payload@.len(),
            i <= n,
            out@ == head + payload@.take(i as int),
        decreases n - i,
    {
        out.push(payload[i]);
        proof {
            assert((head + payload@.take(i as int)).push(payload@[i as int]) =~= head
                + payload@.take(i as int + 1));
        }
        i = i + 1;
    }
    proof {
        assert(payload@.take(n as int) =~= payload@);
        assert(out@ =~= frame_of(payload@));
    }
    out
}

/// Ten to the `a` is at most ten to the `b` when `a <= b`.
pub proof fn lemma_pow10_le(a: int, b: int)
    requires
        a <= b,
    ensures
        pow10(a) <= pow10(b),
    decreases b - a,
{
    if b <= 0 {
    } else if a < b {
        lemma_pow10_le(a, b - 1);
        assert(pow10(b) == 10 * pow10(b - 1));
        assert(pow10(b - 1) >= 1) by {
            lemma_pow10_pos(b - 1);
        }
    }
}

/// Ten to the `k` is positive.
pub proof fn lemma_pow10_pos(k: int)
    ensures
        pow10(k) >= 1,
    decreases (if k <= 0 { 0int } else { k }),
{
    if k > 0 {
        lemma_pow10_pos(k - 1);
    }
}

/// No frame of a payload within the length cap starts the buffer.
pub open spec fn no_complete_frame(b: Seq<u8>) -> bool {
    forall|q: Seq<u8>| q.len() <= 0xFFFF_FFFF ==> !(#[trigger] frame_of(q)).is_prefix_of(b)
}

/// A number below ten to the `k` prints in at most `k` digits.
pub proof fn lemma_dec_digits_len_bound(n: int, k: int)
    requires
        0 <= n,
        1 <= k,
        n < pow10(k),
    ensures
        dec_digits(n).len() <= k,
    decreases n,
{
    if n < 10 {
    } else {
        assert(pow10(k) == 10 * pow10(k - 1));
        assert(k >= 2) by {
            if k == 1 {
                assert(pow10(1) == 10 * pow10(0));
            }
        }
        assert(n / 10 < pow10(k - 1)) by (nonlinear_arith)
            requires
                n < 10 * pow10(k - 1),
                n >= 10,
                pow10(k - 1) >= 1,
        ;
        lemma_pow10_pos(k - 1);
        lemma_dec_digits_len_bound(n / 10, k - 1);
    }
}

/// What a frame at the head of the buffer forces on its bytes: the
/// header, the digit run of the payload length, and the blank line all
/// sit where the decoder looks for them.
proof fn lemma_frame_prefix_shape(b: Seq<u8>, q: Seq<u8>)
    requires
        frame_of(q).is_prefix_of(b),
        q.len() <= 0xFFFF_FFFF,
    ensures
        ({
            let dd = dec_digits(q.len() as int);
            &&& b.len() >= 20 + dd.len() + q.len()
            &&& 1 <= dd.len() <= 10
            &&& forall|j: int| 0 <= j < 16 ==> b[j] == header_lit()[j]
            &&& forall|j: int| 0 <= j < dd.len() ==> b[16 + j] == dd[j]
            &&& forall|j: int| 0 <= j < dd.len() ==> is_digit(#[trigger] b[16 + j])
            &&& (dd.len() > 1 ==> b[16] != 48)
            &&& b[16 + dd.len() as int] == 13
            &&& b[17 + dd.len() as int] == 10
            &&& b[18 + dd.len() as int] == 13
            &&& b[19 + dd.len() as int] == 10
            &&& forall|j: int| 0 <= j < q.len() ==> #[trigger] b[20 + dd.len() as int + j] == q[j]
            &&& fold_val(dec_digits(q.len() as int)) == q.len()
        }),
{
    let f = frame_of(q);
    let dd = dec_digits(q.len() as int);
    lemma_dec_digits_basic(q.len() as int);
    reveal_with_fuel(pow10, 12);
    lemma_dec_digits_len_bound(q.len() as int, 10);
    assert(f.len() == 20 + dd.len() + q.len());
    assert forall|j: int| 0 <= j < f.len() implies b[j] == f[j] by {
        assert(f =~= b.subrange(0, f.len() as int));
        assert(f[j] == b.subrange(0, f.len() as int)[j]);
    }
    assert forall|j: int| 0 <= j < 16 implies b[j] == header_lit()[j] by {
        assert(f[j] == header_lit()[j]);
    }
    assert forall|j: int| 0 <= j < dd.len() implies b[16 + j] == dd[j] by {
        assert(f[16 + j] == dd[j]);
    }
    assert(f[16 + dd.len() as int] == crlf2()[0]);
    assert(f[17 + dd.len() as int] == crlf2()[1]);
    assert(f[18 + dd.len() as int] == crlf2()[2]);
    assert(f[19 + dd.len() as int] == crlf2()[3]);
    if dd.len() > 1 {
        assert(dd[0] != 48) by {
            if dd[0] == 48 {
                assert(q.len() == 0);
                assert(dd.len() == 1);
            }
        }
        assert(b[16] == dd[0]);
    }
    assert forall|j: int| 0 <= j < q.len() implies #[trigger] b[20 + dd.len() as int + j]
        == q[j] by {
        assert(f[20 + dd.len() as int + j] == q[j]);
    }
}

/// Two frames that both start one buffer are the same frame: the framing
/// is unambiguous, so a decoded frame is the only reading of the stream.
pub proof fn lemma_frame_prefix_unique(b: Seq<u8>, a: Seq<u8>, c: Seq<u8>)
    requires
        frame_of(a).is_prefix_of(b),
        a.len() <= 0xFFFF_FFFF,
        frame_of(c).is_prefix_of(b),
        c.len() <= 0xFFFF_FFFF,
    ensures
        a == c,
{
    let da = dec_digits(a.len() as int);
    let dc = dec_digits(c.len() as int);
    lemma_frame_prefix_shape(b, a);
    lemma_frame_prefix_shape(b, c);
    if da.len() < dc.len() {
        assert(is_digit(b[16 + da.len() as int])) by {
            assert(b[16 + da.len() as int] == dc[da.len() as int]);
        }
        assert(b[16 + da.len() as int] == 13);
    }
    if dc.len() < da.len() {
        assert(is_digit(b[16 + dc.len() as int])) by {
            assert(b[16 + dc.len() as int] == da[dc.len() as int]);
        }
        assert(b[16 + dc.len() as int] == 13);
    }
    assert(da.len() == dc.len());
    assert(da =~= dc) by {
        assert forall|j: int| 0 <= j < da.len() implies da[j] == dc[j] by {
            assert(b[16 + j] == da[j]);
            assert(b[16 + j] == dc[j]);
        }
    }
    assert(a.len() == c.len());
    assert(a =~= c) by {
        assert forall|j: int| 0 <= j < a.len() implies a[j] == c[j] by {
            assert(b[20 + da.len() as int + j] == a[j]);
            assert(b[20 + dc.len() as int + j] == c[j]);
        }
    }
}

/// Where the decoder's digit scan must stop when a frame heads the
/// buffer: exactly at the end of the length's digit run, whose value is
/// the payload length.
proof fn lemma_frame_digit_run(b: Seq<u8>, q: Seq<u8>, i: int)
    requires
        frame_of(q).is_prefix_of(b),
        q.len() <= 0xFFFF_FFFF,
        16 <= i < b.len(),
        forall|m: int| 16 <= m < i ==> is_digit(#[trigger] b[m]),
        !is_digit(b[i]),
    ensures
        i == 16 + dec_digits(q.len() as int).len() as int,
        fold_val(b.subrange(16, i)) == q.len(),
{
    let dd = dec_digits(q.len() as int);
    lemma_frame_prefix_shape(b, q);
    if i < 16 + dd.len() {
        assert(is_digit(b[i])) by {
            assert(b[i] == dd[i - 16]);
        }
    }
    if i > 16 + dd.len() {
        assert(is_digit(b[16 + dd.len() as int]));
        assert(b[16 + dd.len() as int] == 13);
    }
    assert(i == 16 + dd.len());
    assert(b.subrange(16, i) =~= dd);
}

/// Reads one frame off the front of `buf`. On `Frame`, the consumed prefix
/// of the buffer is exactly the framing of the returned payload; on the
/// other outcomes, no frame of a payload within the cap starts the
/// buffer yet — `NeedMore` when more bytes may still complete one,
/// `Malformed` when none ever can.
pub fn decode_frame(buf: &Vec<u8>) -> (r: FrameStep)
    ensures
        match r {
            FrameStep::Frame { payload, used } => {
                &&& used as int <= buf@.len()
                &&& buf@.take(used as int) == frame_of(payload@)
                &&& payload@.len() <= 0xFFFF_FFFF
            },
            FrameStep::NeedMore => no_complete_frame(buf@),
            FrameStep::Malformed => no_complete_frame(buf@),
        },
{
    let hdr = header_bytes();
    let blen: usize = buf.len();
    let lim: usize = if blen < 16 {
        blen
    } else {
        16
    };
    let mut j: usize = 0;
    while j < lim
        invariant
            lim <= 16,
            lim as int <= buf@.len(),
            j <= lim,
            hdr@ == header_lit(),
            forall|m: int| 0 <= m < j ==> buf@[m] == header_lit()[m],
        decreases lim - j,
    {
        if buf[j] != hdr[j] {
            proof {
                assert forall|q: Seq<u8>|
                    q.len() <= 0xFFFF_FFFF implies !(#[trigger] frame_of(q)).is_prefix_of(
                    buf@,
                ) by {
                    if frame_of(q).is_prefix_of(buf@) {
                        lemma_frame_prefix_shape(buf@, q);
                        assert(buf@[j as int] == header_lit()[j as int]);
                    }
                }
            }
            return FrameStep::Malformed;
        }
        j = j + 1;
    }
    if blen < 16 {
        proof {
            assert forall|q: Seq<u8>|
                q.len() <= 0xFFFF_FFFF implies !(#[trigger] frame_of(q)).is_prefix_of(buf@) by {
                if frame_of(q).is_prefix_of(buf@) {
                    lemma_frame_prefix_shape(buf@, q);
                    assert(buf@.len() >= 21);
                }
            }
        }
        return FrameStep::NeedMore;
    }
    let mut i: usize = 16;
    while i < blen && 48 <= buf[i] && buf[i] <= 57
        invariant
            16 <= i && i <= blen,
            blen == buf@.len(),
            forall|m: int| 16 <= m < i ==> is_digit(#[trigger] buf@[m]),
        decreases blen - i,
    {
        i = i + 1;
    }
    if i == blen {
        proof {
            assert forall|q: Seq<u8>|
                q.len() <= 0xFFFF_FFFF implies !(#[trigger] frame_of(q)).is_prefix_of(buf@) by {
                if frame_of(q).is_prefix_of(buf@) {
                    lemma_frame_prefix_shape(buf@, q);
                    let dd = dec_digits(q.len() as int);
                    assert(16 + dd.len() < buf@.len());
                    assert(is_digit(buf@[16 + dd.len() as int]));
                    assert(buf@[16 + dd.len() as int] == 13);
                }
            }
        }
        return FrameStep::NeedMore;
    }
    let dlen: usize = i - 16;
    if dlen == 0 {
        proof {
            assert forall|q: Seq<u8>|
                q.len() <= 0xFFFF_FFFF implies !(#[trigger] frame_of(q)).is_prefix_of(buf@) by {
                if frame_of(q).is_prefix_of(buf@) {
                    lemma_frame_prefix_shape(buf@, q);
                    lemma_frame_digit_run(buf@, q, i as int);
                }
            }
        }
        return FrameStep::Malformed;
    }
    if dlen > 10 {
        proof {
            assert forall|q: Seq<u8>|
                q.len() <= 0xFFFF_FFFF implies !(#[trigger] frame_of(q)).is_prefix_of(buf@) by {
                if frame_of(q).is_prefix_of(buf@) {
                    lemma_frame_prefix_shape(buf@, q);
                    lemma_frame_digit_run(buf@, q, i as int);
                }
            }
        }
        return FrameStep::Malformed;
    }
    if dlen > 1 && buf[16] == 48 {
        proof {
            assert forall|q: Seq<u8>|
                q.len() <= 0xFFFF_FFFF implies !(#[trigger] frame_of(q)).is_prefix_of(buf@) by {
                if frame_of(q).is_prefix_of(buf@) {
                    lemma_frame_prefix_shape(buf@, q);
                    lemma_frame_digit_run(buf@, q, i as int);
                    assert(dec_digits(q.len() as int).len() > 1);
                    assert(buf@[16] != 48);
                }
            }
        }
        return FrameStep::Malformed;
    }
    let mut nval: u64 = 0;
    let mut k: usize = 16;
    proof {
        assert(buf@.subrange(16, 16) =~= Seq::<u8>::empty());
    }
    while k < i
        invariant
            16 <= k && k <= i,
            16 <= i && i < blen,
            blen == buf@.len(),
            i - 16 <= 10,
            forall|m: int| 16 <= m < i ==> is_digit(#[trigger] buf@[m]),
            nval as int == fold_val(buf@.subrange(16, k as int)),
        decreases i - k,
    {
        proof {
            assert forall|m: int| 0 <= m < buf@.subrange(16, k as int).len() implies is_digit(
                #[trigger] buf@.subrange(16, k as int)[m],
            ) by {
                assert(buf@.subrange(16, k as int)[m] == buf@[16 + m]);
            }
            lemma_fold_bounds(buf@.subrange(16, k as int));
            lemma_pow10_le(k as int - 16, 9);
            reveal_with_fuel(pow10, 12);
            assert(pow10(9) == 1000000000);
        }
        let d: u8 = buf[k];
        nval = nval * 10 + (d - 48) as u64;
        proof {
            assert(buf@.subrange(16, k as int + 1).drop_last() =~= buf@.subrange(16, k as int));
            assert(buf@.subrange(16, k as int + 1).last() == buf@[k as int]);
        }
        k = k + 1;
    }
    if nval > 0xFFFF_FFFF {
        proof {
            assert forall|q: Seq<u8>|
                q.len() <= 0xFFFF_FFFF implies !(#[trigger] frame_of(q)).is_prefix_of(buf@) by {
                if frame_of(q).is_prefix_of(buf@) {
                    lemma_frame_prefix_shape(buf@, q);
                    lemma_frame_digit_run(buf@, q, i as int);
                }
            }
        }
        return FrameStep::Malformed;
    }
    if blen - i < 4 {
        proof {
            assert forall|q: Seq<u8>|
                q.len() <= 0xFFFF_FFFF implies !(#[trigger] frame_of(q)).is_prefix_of(buf@) by {
                if frame_of(q).is_prefix_of(buf@) {
                    lemma_frame_prefix_shape(buf@, q);
                    lemma_frame_digit_run(buf@, q, i as int);
                    assert(buf@.len() >= i + 4 + q.len());
                }
            }
        }
        return FrameStep::NeedMore;
    }
    if buf[i] != 13 || buf[i + 1] != 10 || buf[i + 2] != 13 || buf[i + 3] != 10 {
        proof {
            assert forall|q: Seq<u8>|
                q.len() <= 0xFFFF_FFFF implies !(#[trigger] frame_of(q)).is_prefix_of(buf@) by {
                if frame_of(q).is_prefix_of(buf@) {
                    lemma_frame_prefix_shape(buf@, q);
                    lemma_frame_digit_run(buf@, q, i as int);
                    assert(buf@[i as int] == 13);
                    assert(buf@[i as int + 1] == 10);
                    assert(buf@[i as int + 2] == 13);
                    assert(buf@[i as int + 3] == 10);
                }
            }
        }
        return FrameStep::Malformed;
    }
    let body: usize = i + 4;
    let nu: usize = nval as usize;
    if blen - body < nu {
        proof {
            assert forall|q: Seq<u8>|
                q.len() <= 0xFFFF_FFFF implies !(#[trigger] frame_of(q)).is_prefix_of(buf@) by {
                if frame_of(q).is_prefix_of(buf@) {
                    lemma_frame_prefix_shape(buf@, q);
                    lemma_frame_digit_run(buf@, q, i as int);
                    assert(q.len() == nval as int);
                    assert(buf@.len() >= body + q.len());
                }
            }
        }
        return FrameStep::NeedMore;
    }
    let mut payload: Vec<u8> = Vec::new();
    let mut t: usize = 0;
    proof {
        assert(buf@.subrange(body as int, body as int) =~= Seq::<u8>::empty());
    }
    while t < nu
        invariant
            t <= nu,
            body + nu <= blen,
            blen == buf@.len(),
            payload@ == buf@.subrange(body as int, body as int + t as int),
        decreases nu - t,
    {
        payload.push(buf[body + t]);
        proof {
            assert(buf@.subrange(body as int, body as int + t as int).push(
                buf@[body as int + t as int],
            ) =~= buf@.subrange(body as int, body as int + t as int + 1));
        }
        t = t + 1;
    }
    let used: usize = body + nu;
    proof {
        let s = buf@.subrange(16, i as int);
        assert forall|m: int| 0 <= m < s.len() implies is_digit(#[trigger] s[m]) by {
            assert(s[m] == buf@[16 + m]);
        }
        assert(s.len() >= 1);
        if s.len() > 1 {
            assert(s[0] == buf@[16]);
            assert(s[0] != 48);
        }
        lemma_dec_of_fold(s);
        assert(dec_digits(nval as int) == s);
        assert(payload@.len() == nu as int);
        let f = frame_of(payload@);
        assert(f.len() == 16 + s.len() + 4 + nu as int);
        assert(buf@.take(used as int).len() == f.len());
        assert forall|m: int| 0 <= m < f.len() implies buf@.take(used as int)[m] == f[m] by {
            assert(buf@.take(used as int)[m] == buf@[m]);
            if m < 16 {
                assert(f[m] == header_lit()[m]);
            } else if m < 16 + s.len() {
                assert(f[m] == s[m - 16]);
                assert(s[m - 16] == buf@[m]);
            } else if m < 16 + s.len() + 4 {
                assert(f[m] == crlf2()[m - 16 - s.len()]);
            } else {
                assert(f[m] == payload@[m - 16 - s.len() - 4]);
                assert(payload@[m - (16 + s.len() + 4)] == buf@[body + (m - (16 + s.len() + 4))]);
            }
        }
        assert(buf@.take(used as int) =~= f);
    }
    FrameStep::Frame { payload, used }
}

} // verus!
