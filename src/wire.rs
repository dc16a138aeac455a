use vstd::prelude::*;
use vstd::string::StringSliceAdditionalSpecFns;

verus! {

/// Separator between two parts of the multipart stream.
pub const BOUNDARY: &'static str = "basic_stream_boundary";

/// Response head sent to a viewer whose request was accepted.
pub const ACCEPTED_HEAD: &'static str = "HTTP/1.1 200 OK\r\nContent-Type: multipart/x-mixed-replace; boundary=basic_stream_boundary\r\nConnection: close\r\nExpires: 0\r\nMax-Age: 0\r\nCache-Control: no-cache, private\r\nAccept-Range: bytes\r\nPragma: no-cache\r\n\r\n";

/// Response sent to a request for another method or path.
pub const NOT_FOUND_HEAD: &'static str = "HTTP/1.1 404 Not Found\r\n\r\n";

/// Start of every frame part, up to the value of `Content-Length`.
pub const PART_OPEN: &'static str = "--basic_stream_boundary\r\nContent-Type: image/jpeg\r\nContent-Length: ";

/// End of a part's headers, before the frame bytes.
pub const PART_HEAD_END: &'static str = "\r\n\r\n";

/// ASCII code of the digit zero.
pub const DIGIT_ZERO: u8 = 48;

/// Decimal digits of `n`, most significant first, without leading zeros.
pub open spec fn decimal(n: nat) -> Seq<u8>
    decreases n,
{
    if n < 10 {
        seq![(DIGIT_ZERO + n) as u8]
    } else {
        decimal(n / 10).push((DIGIT_ZERO + n % 10) as u8)
    }
}

/// The number that a sequence of decimal digits writes.
pub open spec fn decimal_value(s: Seq<u8>) -> nat
    decreases s.len(),
{
    if s.len() == 0 {
        0
    } else {
        decimal_value(s.drop_last()) * 10 + (s.last() - DIGIT_ZERO) as nat
    }
}

/// Whether every byte of `s` is an ASCII digit.
pub open spec fn all_digits(s: Seq<u8>) -> bool {
    forall|i: int| 0 <= i < s.len() ==> DIGIT_ZERO <= #[trigger] s[i] <= DIGIT_ZERO + 9
}

/// The bytes of one multipart part that carries `frame`.
pub open spec fn part_of(frame: Seq<u8>) -> Seq<u8> {
    PART_OPEN.spec_bytes() + decimal(frame.len()) + PART_HEAD_END.spec_bytes() + frame
}

/// Appends the UTF-8 bytes of `s` to `out`.
fn push_text(out: &mut Vec<u8>, s: &str)
    ensures
        final(out)@ == old(out)@ + s.spec_bytes(),
{
    let b = s.as_bytes();
    let mut i: usize = 0;
    while i < b.len()
        invariant
            b@ == s.spec_bytes(),
            i <= b@.len(),
            out@ == old(out)@ + b@.subrange(0, i as int),
        decreases b@.len() - i,
    {
        out.push(b[i]);
        i = i + 1;
        proof {
            assert(b@.subrange(0, i as int) =~= b@.subrange(0, i - 1 as int).push(b@[i - 1]));
        }
    }
    proof {
        assert(b@.subrange(0, b@.len() as int) =~= b@);
    }
}

/// Appends the decimal digits of `n` to `out`.
fn push_decimal(out: &mut Vec<u8>, n: usize)
    ensures
        final(out)@ == old(out)@ + decimal(n as nat),
    decreases n,
{
    if n >= 10 {
        push_decimal(out, n / 10);
    }
    let digit: u8 = (n % 10) as u8;
    out.push(DIGIT_ZERO + digit);
    proof {
        if n < 10 {
            assert(old(out)@ + decimal(n as nat) =~= old(out)@.push((DIGIT_ZERO + n) as u8));
        } else {
            assert(old(out)@ + decimal(n as nat) =~= (old(out)@ + decimal(n as nat / 10)).push(
                (DIGIT_ZERO + n % 10) as u8,
            ));
        }
    }
}

/// The decimal digits of `n`, as written in a `Content-Length` header.
pub fn decimal_digits(n: usize) -> (r: Vec<u8>)
    ensures
        r@ == decimal(n as nat),
{
    let mut out: Vec<u8> = Vec::new();
    push_decimal(&mut out, n);
    proof {
        assert(out@ =~= decimal(n as nat));
    }
    out
}

/// The response head for an accepted viewer.
pub fn accepted_response() -> (r: Vec<u8>)
    ensures
        r@ == ACCEPTED_HEAD.spec_bytes(),
{
    let mut out: Vec<u8> = Vec::new();
    push_text(&mut out, ACCEPTED_HEAD);
    proof {
        assert(out@ =~= ACCEPTED_HEAD.spec_bytes());
    }
    out
}

/// The response to a rejected request.
pub fn not_found_response() -> (r: Vec<u8>)
    ensures
        r@ == NOT_FOUND_HEAD.spec_bytes(),
{
    let mut out: Vec<u8> = Vec::new();
    push_text(&mut out, NOT_FOUND_HEAD);
    proof {
        assert(out@ =~= NOT_FOUND_HEAD.spec_bytes());
    }
    out
}

/// The multipart part that carries `frame` to a viewer: the boundary line,
/// `Content-Type: image/jpeg`, `Content-Length` with the frame's length,
/// a blank line, then the frame bytes unchanged.
pub fn frame_part(frame: &Vec<u8>) -> (r: Vec<u8>)
    ensures
        r@ == part_of(frame@),
{
    let mut out: Vec<u8> = Vec::new();
    push_text(&mut out, PART_OPEN);
    push_decimal(&mut out, frame.len());
    push_text(&mut out, PART_HEAD_END);
    let mut i: usize = 0;
    while i < frame.len()
        invariant
            i <= frame@.len(),
            out@ == PART_OPEN.spec_bytes() + decimal(frame@.len()) + PART_HEAD_END.spec_bytes()
                + frame@.subrange(0, i as int),
        decreases frame@.len() - i,
    {
        out.push(frame[i]);
        i = i + 1;
        proof {
            assert(frame@.subrange(0, i as int) =~= frame@.subrange(0, i - 1 as int).push(
                frame@[i - 1],
            ));
        }
    }
    proof {
        assert(frame@.subrange(0, frame@.len() as int) =~= frame@);
    }
    out
}

/// The digits of a number read back as that number, and are all digits.
pub proof fn decimal_round_trip(n: nat)
    ensures
        decimal_value(decimal(n)) == n,
        all_digits(decimal(n)),
        decimal(n).len() > 0,
    decreases n,
{
    if n < 10 {
        assert(decimal(n).drop_last() =~= Seq::<u8>::empty());
        assert(decimal_value(Seq::<u8>::empty()) == 0);
        assert(decimal(n).last() == (DIGIT_ZERO + n) as u8);
    } else {
        decimal_round_trip(n / 10);
        assert(decimal(n).drop_last() =~= decimal(n / 10));
        assert(decimal(n).last() == (DIGIT_ZERO + n % 10) as u8);
        assert((n / 10) * 10 + n % 10 == n) by (nonlinear_arith);
        assert(decimal_value(decimal(n)) == decimal_value(decimal(n / 10)) * 10 + n % 10);
    }
}

/// Every part announces in `Content-Length` exactly the length of its frame,
/// and ends with the frame bytes unchanged.
pub proof fn part_carries_frame(frame: Seq<u8>)
    ensures
        part_of(frame) == PART_OPEN.spec_bytes() + decimal(frame.len())
            + PART_HEAD_END.spec_bytes() + frame,
        decimal_value(decimal(frame.len())) == frame.len(),
        all_digits(decimal(frame.len())),
        part_of(frame).subrange(part_of(frame).len() - frame.len(), part_of(frame).len() as int)
            == frame,
{
    decimal_round_trip(frame.len());
    let p = part_of(frame);
    assert(p.subrange(p.len() - frame.len(), p.len() as int) =~= frame);
}

} // verus!
