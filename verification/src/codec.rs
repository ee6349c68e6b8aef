//! The wire codec: a canonical protobuf-style encoding of the domain types
//! into `Any` envelopes keyed by type URL.
//!
//! Encoding is total and canonical: semantically equal values encode to the
//! same byte sequence, because encoding is a function of the value's model
//! alone. Decoding is strict: it accepts exactly the canonical encodings,
//! reports `MissingField` when a required sub-message is absent,
//! `MalformedEncoding` on any other structural fault, and round-trips every
//! encoded value.

use vstd::prelude::*;
use vstd::string::{StrSliceExecFns, StringSliceAdditionalSpecFns};
use crate::error::ContractError;
use crate::height::Height;

verus! {

/// The outcome of a strict decode: a value with the count of bytes
/// consumed, a missing required field, or structurally malformed bytes.
pub ghost enum Dec<T> {
    Val(T, int),
    Missing,
    Bad,
}

/// The canonical little-endian base-128 encoding of `n`, low seven bits
/// first, high bit marking continuation.
pub open spec fn spec_varint(n: u64) -> Seq<u8>
    decreases n,
{
    if n < 0x80 {
        seq![n as u8]
    } else {
        seq![(n % 0x80 + 0x80) as u8] + spec_varint(n / 0x80)
    }
}

/// Strict decode of a canonical varint from the front of `s`: rejects
/// non-minimal encodings and values beyond `u64`.
pub open spec fn spec_dec_varint(s: Seq<u8>) -> Dec<u64>
    decreases s.len(),
{
    if s.len() == 0 {
        Dec::Bad
    } else if s[0] < 0x80 {
        Dec::Val(s[0] as u64, 1)
    } else {
        match spec_dec_varint(s.subrange(1, s.len() as int)) {
            Dec::Val(v, k) => {
                if v == 0 {
                    Dec::Bad
                } else if v > (u64::MAX - ((s[0] - 0x80) as u64)) / 0x80 {
                    Dec::Bad
                } else {
                    Dec::Val((v * 0x80 + ((s[0] - 0x80) as u64)) as u64, k + 1)
                }
            },
            _ => Dec::Bad,
        }
    }
}

/// Decoding inverts encoding: a canonical varint at the front of any input
/// is decoded back to the value it encodes.
pub proof fn lemma_varint_round_trip(n: u64, rest: Seq<u8>)
    ensures
        spec_dec_varint(spec_varint(n) + rest) == Dec::Val(n, spec_varint(n).len() as int),
        spec_varint(n).len() >= 1,
    decreases n,
{
    let s = spec_varint(n) + rest;
    if n < 0x80 {
        assert(s[0] == n as u8);
    } else {
        let lo = n % 0x80;
        let hi = n / 0x80;
        assert(hi >= 1) by (nonlinear_arith)
            requires
                hi == n / 0x80,
                n >= 0x80,
        ;
        lemma_varint_round_trip(hi, rest);
        assert(s[0] == (lo + 0x80) as u8);
        assert(s.subrange(1, s.len() as int) =~= spec_varint(hi) + rest);
        assert((s[0] - 0x80) as u64 == lo as u64);
        assert(hi * 0x80 + lo == n) by (nonlinear_arith)
            requires
                lo == n % 0x80,
                hi == n / 0x80,
        ;
        assert(!(hi > (u64::MAX - (lo as u64)) / 0x80)) by (nonlinear_arith)
            requires
                hi * 0x80 + lo == n,
                0 <= lo < 0x80,
                n <= u64::MAX,
                hi >= 0,
        ;
    }
}

/// Appends the canonical varint encoding of `n` to `out`.
pub fn encode_varint(out: &mut Vec<u8>, n: u64)
    ensures
        final(out)@ == old(out)@ + spec_varint(n),
    decreases n,
{
    if n < 0x80 {
        out.push(n as u8);
        proof {
            assert(final(out)@ =~= old(out)@ + spec_varint(n));
        }
    } else {
        out.push((n % 0x80 + 0x80) as u8);
        encode_varint(out, n / 0x80);
        proof {
            assert(final(out)@ =~= old(out)@ + spec_varint(n));
        }
    }
}

/// Decodes a canonical varint starting at `pos`; returns the value and the
/// position after it.
pub fn decode_varint(buf: &Vec<u8>, pos: usize) -> (r: Option<(u64, usize)>)
    requires
        pos <= buf@.len(),
    ensures
        ({
            let s = buf@.subrange(pos as int, buf@.len() as int);
            match r {
                Some(p) => spec_dec_varint(s) == Dec::Val(p.0, p.1 - pos) && pos < p.1 <= buf@.len(),
                None => !(spec_dec_varint(s) matches Dec::Val(_, _)),
            }
        }),
    decreases buf@.len() - pos,
{
    let ghost s = buf@.subrange(pos as int, buf@.len() as int);
    if pos == buf.len() {
        return None;
    }
    let b = buf[pos];
    if b < 0x80 {
        Some((b as u64, pos + 1))
    } else {
        proof {
            assert(s.subrange(1, s.len() as int) =~= buf@.subrange(
                pos + 1,
                buf@.len() as int,
            ));
        }
        match decode_varint(buf, pos + 1) {
            Some((v, np)) => {
                if v == 0 {
                    return None;
                }
                if v > (u64::MAX - ((b - 0x80) as u64)) / 0x80 {
                    return None;
                }
                proof {
                    let vv = v as int;
                    let lo = (b - 0x80) as int;
                    let m = u64::MAX as int;
                    assert(vv * 0x80 + lo <= m) by (nonlinear_arith)
                        requires
                            vv <= (m - lo) / 0x80,
                            0 <= lo < 0x80,
                            vv >= 0,
                            m >= 0,
                    ;
                }
                Some((v * 0x80 + ((b - 0x80) as u64), np))
            },
            None => None,
        }
    }
}

/// Powers of 128, the base of the varint encoding.
pub open spec fn pow128(k: nat) -> int
    decreases k,
{
    if k == 0 {
        1
    } else {
        128 * pow128((k - 1) as nat)
    }
}

/// A value below the k-th power of 128 encodes in at most k bytes.
proof fn lemma_varint_len_bound(n: u64, k: nat)
    requires
        k >= 1,
        n < pow128(k),
    ensures
        spec_varint(n).len() <= k,
    decreases k,
{
    if n < 0x80 {
    } else {
        if k == 1 {
            assert(pow128(0) == 1);
            assert(pow128(1) == 128);
            assert(false);
        }
        let p = pow128((k - 1) as nat);
        assert(pow128(k) == 128 * p);
        assert(n / 0x80 < p) by (nonlinear_arith)
            requires
                n < 128 * p,
                n >= 0,
                p > 0,
        ;
        lemma_varint_len_bound(n / 0x80, (k - 1) as nat);
    }
}

/// Every varint encoding takes between one and ten bytes.
pub proof fn lemma_varint_len(n: u64)
    ensures
        1 <= spec_varint(n).len() <= 10,
    decreases n,
{
    assert(pow128(0) == 1);
    assert(pow128(1) == 128);
    assert(pow128(2) == 128 * 128);
    assert(pow128(3) == 128 * pow128(2));
    assert(pow128(4) == 128 * pow128(3));
    assert(pow128(5) == 128 * pow128(4));
    assert(pow128(6) == 128 * pow128(5));
    assert(pow128(7) == 128 * pow128(6));
    assert(pow128(8) == 128 * pow128(7));
    assert(pow128(9) == 128 * pow128(8));
    assert(pow128(10) == 128 * pow128(9));
    assert(n < pow128(10));
    lemma_varint_len_bound(n, 10);
    if n < 0x80 {
    } else {
        lemma_varint_len(n / 0x80);
    }
}

/// The tag byte of a varint-typed field.
pub open spec fn tag_varint(field: u64) -> u8
    recommends
        1 <= field <= 15,
{
    (field * 8) as u8
}

/// The tag byte of a length-delimited field.
pub open spec fn tag_len(field: u64) -> u8
    recommends
        1 <= field <= 15,
{
    (field * 8 + 2) as u8
}

/// A varint-typed field: its tag byte followed by the canonical varint.
pub open spec fn spec_u64_field(field: u64, v: u64) -> Seq<u8> {
    seq![tag_varint(field)] + spec_varint(v)
}

/// A length-delimited field: its tag byte, the length, then the payload.
pub open spec fn spec_bytes_field(field: u64, b: Seq<u8>) -> Seq<u8> {
    seq![tag_len(field)] + spec_varint(b.len() as u64) + b
}

/// Strict decode of a varint-typed field with the given tag.
pub open spec fn spec_dec_u64_field(s: Seq<u8>, field: u64) -> Dec<u64> {
    if s.len() == 0 || s[0] != tag_varint(field) {
        Dec::Missing
    } else {
        match spec_dec_varint(s.subrange(1, s.len() as int)) {
            Dec::Val(v, k) => Dec::Val(v, k + 1),
            _ => Dec::Bad,
        }
    }
}

/// Strict decode of a length-delimited field with the given tag.
pub open spec fn spec_dec_bytes_field(s: Seq<u8>, field: u64) -> Dec<Seq<u8>> {
    if s.len() == 0 || s[0] != tag_len(field) {
        Dec::Missing
    } else {
        match spec_dec_varint(s.subrange(1, s.len() as int)) {
            Dec::Val(n, k) => {
                if 1 + k + n <= s.len() {
                    Dec::Val(s.subrange(1 + k, 1 + k + n as int), 1 + k + n as int)
                } else {
                    Dec::Bad
                }
            },
            _ => Dec::Bad,
        }
    }
}

/// A field encoding never encodes an empty sequence, and its first byte is
/// its tag.
pub proof fn lemma_u64_field_round_trip(field: u64, v: u64, rest: Seq<u8>)
    requires
        1 <= field <= 15,
    ensures
        spec_dec_u64_field(spec_u64_field(field, v) + rest, field) == Dec::<u64>::Val(
            v,
            spec_u64_field(field, v).len() as int,
        ),
        spec_u64_field(field, v).len() >= 2,
        (spec_u64_field(field, v) + rest)[0] == tag_varint(field),
{
    let s = spec_u64_field(field, v) + rest;
    lemma_varint_round_trip(v, rest);
    assert(s.subrange(1, s.len() as int) =~= spec_varint(v) + rest);
}

/// Decoding a length-delimited field at the front of its own encoding
/// returns the payload and consumes exactly the field.
pub proof fn lemma_bytes_field_round_trip(field: u64, b: Seq<u8>, rest: Seq<u8>)
    requires
        1 <= field <= 15,
        b.len() <= u64::MAX,
    ensures
        spec_dec_bytes_field(spec_bytes_field(field, b) + rest, field) == Dec::<Seq<u8>>::Val(
            b,
            spec_bytes_field(field, b).len() as int,
        ),
        spec_bytes_field(field, b).len() >= 2,
        (spec_bytes_field(field, b) + rest)[0] == tag_len(field),
{
    let s = spec_bytes_field(field, b) + rest;
    lemma_varint_round_trip(b.len() as u64, b + rest);
    let lv = spec_varint(b.len() as u64);
    let k = lv.len() as int;
    assert(s.subrange(1, s.len() as int) =~= lv + (b + rest));
    assert(spec_dec_varint(s.subrange(1, s.len() as int)) == Dec::<u64>::Val(
        b.len() as u64,
        k,
    ));
    assert(s.subrange(1 + k, 1 + k + b.len() as int) =~= b);
}

/// Copies `buf[from..to]` into a fresh vector.
pub fn copy_range(buf: &Vec<u8>, from: usize, to: usize) -> (r: Vec<u8>)
    requires
        from <= to <= buf@.len(),
    ensures
        r@ == buf@.subrange(from as int, to as int),
{
    let mut r: Vec<u8> = Vec::new();
    let mut i: usize = from;
    while i < to
        invariant
            from <= i <= to <= buf@.len(),
            r@ == buf@.subrange(from as int, i as int),
        decreases to - i,
    {
        r.push(buf[i]);
        proof {
            assert(r@ =~= buf@.subrange(from as int, i + 1));
        }
        i = i + 1;
    }
    r
}

/// Appends a varint-typed field to `out`.
pub fn encode_u64_field(out: &mut Vec<u8>, field: u64, v: u64)
    requires
        1 <= field <= 15,
    ensures
        final(out)@ == old(out)@ + spec_u64_field(field, v),
{
    out.push((field * 8) as u8);
    encode_varint(out, v);
    proof {
        assert(final(out)@ =~= old(out)@ + spec_u64_field(field, v));
    }
}

/// Appends a length-delimited field to `out`.
pub fn encode_bytes_field(out: &mut Vec<u8>, field: u64, b: &Vec<u8>)
    requires
        1 <= field <= 15,
    ensures
        final(out)@ == old(out)@ + spec_bytes_field(field, b@),
{
    out.push((field * 8 + 2) as u8);
    encode_varint(out, b.len() as u64);
    let mut i: usize = 0;
    let n = b.len();
    let ghost mid = old(out)@ + seq![tag_len(field)] + spec_varint(b@.len() as u64);
    proof {
        assert(out@ =~= mid);
    }
    while i < n
        invariant
            n == b@.len(),
            i <= n,
            out@ == mid + b@.subrange(0, i as int),
        decreases n - i,
    {
        out.push(b[i]);
        proof {
            assert(out@ =~= mid + b@.subrange(0, i + 1));
        }
        i = i + 1;
    }
    proof {
        assert(b@.subrange(0, n as int) =~= b@);
        assert(final(out)@ =~= old(out)@ + spec_bytes_field(field, b@));
    }
}

/// Decodes a varint-typed field with the given tag starting at `pos`.
pub fn decode_u64_field(buf: &Vec<u8>, pos: usize, field: u64) -> (r: Result<
    (u64, usize),
    ContractError,
>)
    requires
        pos <= buf@.len(),
        1 <= field <= 15,
    ensures
        ({
            let s = buf@.subrange(pos as int, buf@.len() as int);
            match r {
                Ok(p) => spec_dec_u64_field(s, field) == Dec::Val(p.0, p.1 - pos) && pos < p.1
                    <= buf@.len(),
                Err(e) => match spec_dec_u64_field(s, field) {
                    Dec::Val(_, _) => false,
                    Dec::Missing => e == ContractError::MissingField,
                    Dec::Bad => e == ContractError::MalformedEncoding,
                },
            }
        }),
{
    let ghost s = buf@.subrange(pos as int, buf@.len() as int);
    if pos == buf.len() || buf[pos] != (field * 8) as u8 {
        return Err(ContractError::MissingField);
    }
    proof {
        assert(s.subrange(1, s.len() as int) =~= buf@.subrange(pos + 1, buf@.len() as int));
    }
    match decode_varint(buf, pos + 1) {
        Some((v, np)) => Ok((v, np)),
        None => Err(ContractError::MalformedEncoding),
    }
}

/// Decodes a length-delimited field with the given tag starting at `pos`;
/// returns the payload and the position after the field.
pub fn decode_bytes_field(buf: &Vec<u8>, pos: usize, field: u64) -> (r: Result<
    (Vec<u8>, usize),
    ContractError,
>)
    requires
        pos <= buf@.len(),
        1 <= field <= 15,
    ensures
        ({
            let s = buf@.subrange(pos as int, buf@.len() as int);
            match r {
                Ok(p) => spec_dec_bytes_field(s, field) == Dec::Val(p.0@, p.1 - pos) && pos < p.1
                    <= buf@.len(),
                Err(e) => match spec_dec_bytes_field(s, field) {
                    Dec::Val(_, _) => false,
                    Dec::Missing => e == ContractError::MissingField,
                    Dec::Bad => e == ContractError::MalformedEncoding,
                },
            }
        }),
{
    let ghost s = buf@.subrange(pos as int, buf@.len() as int);
    if pos == buf.len() || buf[pos] != (field * 8 + 2) as u8 {
        return Err(ContractError::MissingField);
    }
    proof {
        assert(s.subrange(1, s.len() as int) =~= buf@.subrange(pos + 1, buf@.len() as int));
    }
    match decode_varint(buf, pos + 1) {
        Some((n, np)) => {
            if n > (buf.len() - np) as u64 {
                return Err(ContractError::MalformedEncoding);
            }
            let end = np + (n as usize);
            let payload = copy_range(buf, np, end);
            proof {
                let k = (np - pos) as int - 1;
                assert(payload@ =~= s.subrange(1 + k, 1 + k + n as int));
            }
            Ok((payload, end))
        },
        None => Err(ContractError::MalformedEncoding),
    }
}

// ------------------------------------------------------------------
// Height
// ------------------------------------------------------------------

/// The wire form of a height: revision number then revision height.
pub open spec fn spec_encode_height(h: Height) -> Seq<u8> {
    spec_u64_field(1, h.revision_number) + spec_u64_field(2, h.revision_height)
}

/// Strict decode of a height message.
pub open spec fn spec_dec_height(s: Seq<u8>) -> Dec<Height> {
    match spec_dec_u64_field(s, 1) {
        Dec::Val(rn, p1) => match spec_dec_u64_field(s.subrange(p1, s.len() as int), 2) {
            Dec::Val(rh, p2) => Dec::Val(
                Height { revision_number: rn, revision_height: rh },
                p1 + p2,
            ),
            Dec::Missing => Dec::Missing,
            Dec::Bad => Dec::Bad,
        },
        Dec::Missing => Dec::Missing,
        Dec::Bad => Dec::Bad,
    }
}

/// Decoding a height inverts encoding it.
pub proof fn lemma_height_round_trip(h: Height)
    ensures
        spec_dec_height(spec_encode_height(h)) == Dec::Val(
            h,
            spec_encode_height(h).len() as int,
        ),
        spec_encode_height(h).len() >= 4,
{
    let s = spec_encode_height(h);
    let f1 = spec_u64_field(1, h.revision_number);
    let f2 = spec_u64_field(2, h.revision_height);
    lemma_u64_field_round_trip(1, h.revision_number, f2);
    assert(s =~= f1 + f2);
    assert(s.subrange(f1.len() as int, s.len() as int) =~= f2 + Seq::<u8>::empty());
    lemma_u64_field_round_trip(2, h.revision_height, Seq::<u8>::empty());
    assert(f2 + Seq::<u8>::empty() =~= f2);
}

/// Encodes a height message.
pub fn encode_height(h: &Height) -> (r: Vec<u8>)
    ensures
        r@ == spec_encode_height(*h),
{
    let mut out: Vec<u8> = Vec::new();
    encode_u64_field(&mut out, 1, h.revision_number);
    encode_u64_field(&mut out, 2, h.revision_height);
    proof {
        assert(out@ =~= spec_encode_height(*h));
    }
    out
}

/// Decodes a height message, consuming the whole buffer.
pub fn decode_height(buf: &Vec<u8>) -> (r: Result<Height, ContractError>)
    ensures
        match r {
            Ok(h) => spec_dec_height(buf@) == Dec::Val(h, buf@.len() as int),
            Err(e) => match spec_dec_height(buf@) {
                Dec::Val(_, k) => k != buf@.len() && e == ContractError::MalformedEncoding,
                Dec::Missing => e == ContractError::MissingField,
                Dec::Bad => e == ContractError::MalformedEncoding,
            },
        },
{
    proof {
        assert(buf@.subrange(0, buf@.len() as int) =~= buf@);
    }
    let (rn, p1) = match decode_u64_field(buf, 0, 1) {
        Ok(x) => x,
        Err(e) => {
            return Err(e);
        },
    };
    let (rh, p2) = match decode_u64_field(buf, p1, 2) {
        Ok(x) => x,
        Err(e) => {
            return Err(e);
        },
    };
    if p2 != buf.len() {
        return Err(ContractError::MalformedEncoding);
    }
    Ok(Height { revision_number: rn, revision_height: rh })
}

// ------------------------------------------------------------------
// DaParams
// ------------------------------------------------------------------

/// The wire form of the data-availability parameters.
pub open spec fn spec_encode_da_params(v: crate::da_params::DaParamsView) -> Seq<u8> {
    spec_bytes_field(1, v.client_id) + spec_u64_field(2, v.fraud_period_window)
}

/// Strict decode of a data-availability parameters message.
pub open spec fn spec_dec_da_params(s: Seq<u8>) -> Dec<crate::da_params::DaParamsView> {
    match spec_dec_bytes_field(s, 1) {
        Dec::Val(cid, p1) => match spec_dec_u64_field(s.subrange(p1, s.len() as int), 2) {
            Dec::Val(w, p2) => Dec::Val(
                crate::da_params::DaParamsView { client_id: cid, fraud_period_window: w },
                p1 + p2,
            ),
            Dec::Missing => Dec::Missing,
            Dec::Bad => Dec::Bad,
        },
        Dec::Missing => Dec::Missing,
        Dec::Bad => Dec::Bad,
    }
}

/// Decoding the parameters inverts encoding them.
pub proof fn lemma_da_params_round_trip(v: crate::da_params::DaParamsView)
    requires
        v.client_id.len() <= u64::MAX,
    ensures
        spec_dec_da_params(spec_encode_da_params(v)) == Dec::Val(
            v,
            spec_encode_da_params(v).len() as int,
        ),
{
    let s = spec_encode_da_params(v);
    let f1 = spec_bytes_field(1, v.client_id);
    let f2 = spec_u64_field(2, v.fraud_period_window);
    lemma_bytes_field_round_trip(1, v.client_id, f2);
    assert(s =~= f1 + f2);
    assert(s.subrange(f1.len() as int, s.len() as int) =~= f2 + Seq::<u8>::empty());
    lemma_u64_field_round_trip(2, v.fraud_period_window, Seq::<u8>::empty());
    assert(f2 + Seq::<u8>::empty() =~= f2);
}

/// Encodes the data-availability parameters.
pub fn encode_da_params(v: &crate::da_params::DaParams) -> (r: Vec<u8>)
    ensures
        r@ == spec_encode_da_params(v@),
{
    let mut out: Vec<u8> = Vec::new();
    encode_bytes_field(&mut out, 1, &v.client_id);
    encode_u64_field(&mut out, 2, v.fraud_period_window);
    proof {
        assert(out@ =~= spec_encode_da_params(v@));
    }
    out
}

/// Decodes a data-availability parameters message, consuming the whole
/// buffer.
pub fn decode_da_params(buf: &Vec<u8>) -> (r: Result<crate::da_params::DaParams, ContractError>)
    ensures
        match r {
            Ok(v) => spec_dec_da_params(buf@) == Dec::Val(v@, buf@.len() as int),
            Err(e) => match spec_dec_da_params(buf@) {
                Dec::Val(_, k) => k != buf@.len() && e == ContractError::MalformedEncoding,
                Dec::Missing => e == ContractError::MissingField,
                Dec::Bad => e == ContractError::MalformedEncoding,
            },
        },
{
    proof {
        assert(buf@.subrange(0, buf@.len() as int) =~= buf@);
    }
    let (cid, p1) = match decode_bytes_field(buf, 0, 1) {
        Ok(x) => x,
        Err(e) => {
            return Err(e);
        },
    };
    let (w, p2) = match decode_u64_field(buf, p1, 2) {
        Ok(x) => x,
        Err(e) => {
            return Err(e);
        },
    };
    if p2 != buf.len() {
        return Err(ContractError::MalformedEncoding);
    }
    Ok(crate::da_params::DaParams { client_id: cid, fraud_period_window: w })
}

// ------------------------------------------------------------------
// DaData
// ------------------------------------------------------------------

/// The wire form of the data-availability evidence.
pub open spec fn spec_encode_da_data(v: crate::da_data::DaDataView) -> Seq<u8> {
    spec_bytes_field(1, v.shared_proof)
}

/// Strict decode of a data-availability evidence message.
pub open spec fn spec_dec_da_data(s: Seq<u8>) -> Dec<crate::da_data::DaDataView> {
    match spec_dec_bytes_field(s, 1) {
        Dec::Val(p, p1) => Dec::Val(crate::da_data::DaDataView { shared_proof: p }, p1),
        Dec::Missing => Dec::Missing,
        Dec::Bad => Dec::Bad,
    }
}

/// Decoding the evidence inverts encoding it.
pub proof fn lemma_da_data_round_trip(v: crate::da_data::DaDataView)
    requires
        v.shared_proof.len() <= u64::MAX,
    ensures
        spec_dec_da_data(spec_encode_da_data(v)) == Dec::Val(
            v,
            spec_encode_da_data(v).len() as int,
        ),
{
    let s = spec_encode_da_data(v);
    lemma_bytes_field_round_trip(1, v.shared_proof, Seq::<u8>::empty());
    assert(s =~= spec_bytes_field(1, v.shared_proof) + Seq::<u8>::empty());
}

/// Encodes the data-availability evidence.
pub fn encode_da_data(v: &crate::da_data::DaData) -> (r: Vec<u8>)
    ensures
        r@ == spec_encode_da_data(v@),
{
    let mut out: Vec<u8> = Vec::new();
    encode_bytes_field(&mut out, 1, &v.shared_proof);
    proof {
        assert(out@ =~= spec_encode_da_data(v@));
    }
    out
}

/// Decodes a data-availability evidence message, consuming the whole
/// buffer.
pub fn decode_da_data(buf: &Vec<u8>) -> (r: Result<crate::da_data::DaData, ContractError>)
    ensures
        match r {
            Ok(v) => spec_dec_da_data(buf@) == Dec::Val(v@, buf@.len() as int),
            Err(e) => match spec_dec_da_data(buf@) {
                Dec::Val(_, k) => k != buf@.len() && e == ContractError::MalformedEncoding,
                Dec::Missing => e == ContractError::MissingField,
                Dec::Bad => e == ContractError::MalformedEncoding,
            },
        },
{
    proof {
        assert(buf@.subrange(0, buf@.len() as int) =~= buf@);
    }
    let (p, p1) = match decode_bytes_field(buf, 0, 1) {
        Ok(x) => x,
        Err(e) => {
            return Err(e);
        },
    };
    if p1 != buf.len() {
        return Err(ContractError::MalformedEncoding);
    }
    Ok(crate::da_data::DaData { shared_proof: p })
}

// ------------------------------------------------------------------
// ConsensusState
// ------------------------------------------------------------------

/// The wire form of a consensus state: timestamp, commitment root, next
/// validators hash.
pub open spec fn spec_encode_consensus_state(
    v: crate::consensus_state::ConsensusStateView,
) -> Seq<u8> {
    spec_u64_field(1, v.timestamp) + (spec_bytes_field(2, v.root) + spec_bytes_field(
        3,
        v.next_validators_hash,
    ))
}

/// Strict decode of a consensus-state message.
pub open spec fn spec_dec_consensus_state(s: Seq<u8>) -> Dec<
    crate::consensus_state::ConsensusStateView,
> {
    match spec_dec_u64_field(s, 1) {
        Dec::Val(ts, p1) => match spec_dec_bytes_field(s.subrange(p1, s.len() as int), 2) {
            Dec::Val(root, p2) => match spec_dec_bytes_field(
                s.subrange(p1 + p2, s.len() as int),
                3,
            ) {
                Dec::Val(nvh, p3) => Dec::Val(
                    crate::consensus_state::ConsensusStateView {
                        timestamp: ts,
                        root,
                        next_validators_hash: nvh,
                    },
                    p1 + p2 + p3,
                ),
                Dec::Missing => Dec::Missing,
                Dec::Bad => Dec::Bad,
            },
            Dec::Missing => Dec::Missing,
            Dec::Bad => Dec::Bad,
        },
        Dec::Missing => Dec::Missing,
        Dec::Bad => Dec::Bad,
    }
}

/// Decoding a consensus state inverts encoding it.
pub proof fn lemma_consensus_state_round_trip(v: crate::consensus_state::ConsensusStateView)
    requires
        v.root.len() <= u64::MAX,
        v.next_validators_hash.len() <= u64::MAX,
    ensures
        spec_dec_consensus_state(spec_encode_consensus_state(v)) == Dec::Val(
            v,
            spec_encode_consensus_state(v).len() as int,
        ),
{
    let s = spec_encode_consensus_state(v);
    let f1 = spec_u64_field(1, v.timestamp);
    let f2 = spec_bytes_field(2, v.root);
    let f3 = spec_bytes_field(3, v.next_validators_hash);
    lemma_u64_field_round_trip(1, v.timestamp, f2 + f3);
    assert(s == f1 + (f2 + f3));
    assert(s.subrange(0, s.len() as int) =~= s);
    lemma_concat_subrange(f1, f2 + f3, s, 0);
    assert(s.subrange(f1.len() as int, s.len() as int) == f2 + f3);
    lemma_bytes_field_round_trip(2, v.root, f3);
    assert((f2 + f3).subrange(f2.len() as int, (f2 + f3).len() as int) =~= f3
        + Seq::<u8>::empty());
    assert(s.subrange(f1.len() + f2.len() as int, s.len() as int) =~= f3 + Seq::<u8>::empty());
    lemma_bytes_field_round_trip(3, v.next_validators_hash, Seq::<u8>::empty());
    assert(f3 + Seq::<u8>::empty() =~= f3);
}

/// Encodes a consensus state.
pub fn encode_consensus_state(v: &crate::consensus_state::ConsensusState) -> (r: Vec<u8>)
    ensures
        r@ == spec_encode_consensus_state(v@),
{
    let mut out: Vec<u8> = Vec::new();
    encode_u64_field(&mut out, 1, v.timestamp);
    encode_bytes_field(&mut out, 2, &v.root);
    encode_bytes_field(&mut out, 3, &v.next_validators_hash);
    proof {
        assert(out@ =~= spec_encode_consensus_state(v@));
    }
    out
}

/// Decodes a consensus-state message, consuming the whole buffer.
pub fn decode_consensus_state(buf: &Vec<u8>) -> (r: Result<
    crate::consensus_state::ConsensusState,
    ContractError,
>)
    ensures
        match r {
            Ok(v) => spec_dec_consensus_state(buf@) == Dec::Val(v@, buf@.len() as int),
            Err(e) => match spec_dec_consensus_state(buf@) {
                Dec::Val(_, k) => k != buf@.len() && e == ContractError::MalformedEncoding,
                Dec::Missing => e == ContractError::MissingField,
                Dec::Bad => e == ContractError::MalformedEncoding,
            },
        },
{
    proof {
        assert(buf@.subrange(0, buf@.len() as int) =~= buf@);
    }
    let (ts, p1) = match decode_u64_field(buf, 0, 1) {
        Ok(x) => x,
        Err(e) => {
            return Err(e);
        },
    };
    let (root, p2) = match decode_bytes_field(buf, p1, 2) {
        Ok(x) => x,
        Err(e) => {
            return Err(e);
        },
    };
    let (nvh, p3) = match decode_bytes_field(buf, p2, 3) {
        Ok(x) => x,
        Err(e) => {
            return Err(e);
        },
    };
    if p3 != buf.len() {
        return Err(ContractError::MalformedEncoding);
    }
    Ok(
        crate::consensus_state::ConsensusState {
            timestamp: ts,
            root,
            next_validators_hash: nvh,
        },
    )
}

// ------------------------------------------------------------------
// Sub-message and repeated fields
// ------------------------------------------------------------------

/// Strict decode of a height carried as a length-delimited sub-message
/// with the given tag; the payload must be consumed exactly.
pub open spec fn spec_dec_height_field(s: Seq<u8>, field: u64) -> Dec<Height> {
    match spec_dec_bytes_field(s, field) {
        Dec::Val(payload, p) => match spec_dec_height(payload) {
            Dec::Val(h, k) => if k == payload.len() {
                Dec::Val(h, p)
            } else {
                Dec::Bad
            },
            Dec::Missing => Dec::Missing,
            Dec::Bad => Dec::Bad,
        },
        Dec::Missing => Dec::Missing,
        Dec::Bad => Dec::Bad,
    }
}

/// A height sub-message field decodes back to the height it encodes.
pub proof fn lemma_height_field_round_trip(field: u64, h: Height, rest: Seq<u8>)
    requires
        1 <= field <= 15,
    ensures
        spec_dec_height_field(spec_bytes_field(field, spec_encode_height(h)) + rest, field)
            == Dec::<Height>::Val(
            h,
            spec_bytes_field(field, spec_encode_height(h)).len() as int,
        ),
        (spec_bytes_field(field, spec_encode_height(h)) + rest)[0] == tag_len(field),
        spec_bytes_field(field, spec_encode_height(h)).len() >= 2,
{
    lemma_height_round_trip(h);
    lemma_varint_len(h.revision_number);
    lemma_varint_len(h.revision_height);
    assert(spec_encode_height(h).len() <= u64::MAX);
    lemma_bytes_field_round_trip(field, spec_encode_height(h), rest);
}

/// Encodes a height as a sub-message field.
pub fn encode_height_field(out: &mut Vec<u8>, field: u64, h: &Height)
    requires
        1 <= field <= 15,
    ensures
        final(out)@ == old(out)@ + spec_bytes_field(field, spec_encode_height(*h)),
{
    let payload = encode_height(h);
    encode_bytes_field(out, field, &payload);
}

/// Decodes a height sub-message field with the given tag at `pos`.
pub fn decode_height_field(buf: &Vec<u8>, pos: usize, field: u64) -> (r: Result<
    (Height, usize),
    ContractError,
>)
    requires
        pos <= buf@.len(),
        1 <= field <= 15,
    ensures
        ({
            let s = buf@.subrange(pos as int, buf@.len() as int);
            match r {
                Ok(p) => spec_dec_height_field(s, field) == Dec::Val(p.0, p.1 - pos) && pos < p.1
                    <= buf@.len(),
                Err(e) => match spec_dec_height_field(s, field) {
                    Dec::Val(_, _) => false,
                    Dec::Missing => e == ContractError::MissingField,
                    Dec::Bad => e == ContractError::MalformedEncoding,
                },
            }
        }),
{
    let (payload, np) = match decode_bytes_field(buf, pos, field) {
        Ok(x) => x,
        Err(e) => {
            return Err(e);
        },
    };
    match decode_height(&payload) {
        Ok(h) => Ok((h, np)),
        Err(e) => Err(e),
    }
}

/// The wire form of a repeated length-delimited field: the rows in order.
pub open spec fn spec_encode_repeated_bytes(field: u64, rows: Seq<Seq<u8>>) -> Seq<u8>
    decreases rows.len(),
{
    if rows.len() == 0 {
        Seq::<u8>::empty()
    } else {
        spec_bytes_field(field, rows[0]) + spec_encode_repeated_bytes(
            field,
            rows.subrange(1, rows.len() as int),
        )
    }
}

/// Strict decode of a trailing repeated length-delimited field: rows until
/// the end of input.
pub open spec fn spec_dec_repeated_bytes(s: Seq<u8>, field: u64) -> Dec<Seq<Seq<u8>>>
    decreases s.len(),
{
    if s.len() == 0 {
        Dec::Val(Seq::<Seq<u8>>::empty(), 0)
    } else if s[0] != tag_len(field) {
        Dec::Bad
    } else {
        match spec_dec_bytes_field(s, field) {
            Dec::Val(b, p) => {
                if p < 1 || p > s.len() {
                    Dec::Bad
                } else {
                    match spec_dec_repeated_bytes(s.subrange(p, s.len() as int), field) {
                        Dec::Val(rows, k) => Dec::Val(seq![b] + rows, p + k),
                        Dec::Missing => Dec::Missing,
                        Dec::Bad => Dec::Bad,
                    }
                }
            },
            _ => Dec::Bad,
        }
    }
}

/// A trailing repeated field decodes back to the rows it encodes.
pub proof fn lemma_repeated_bytes_round_trip(field: u64, rows: Seq<Seq<u8>>)
    requires
        1 <= field <= 15,
        forall|i: int| 0 <= i < rows.len() ==> (#[trigger] rows[i]).len() <= u64::MAX,
    ensures
        spec_dec_repeated_bytes(spec_encode_repeated_bytes(field, rows), field) == Dec::Val(
            rows,
            spec_encode_repeated_bytes(field, rows).len() as int,
        ),
    decreases rows.len(),
{
    let s = spec_encode_repeated_bytes(field, rows);
    if rows.len() == 0 {
        assert(s =~= Seq::<u8>::empty());
        assert(rows =~= Seq::<Seq<u8>>::empty());
    } else {
        let tail = rows.subrange(1, rows.len() as int);
        let enc_tail = spec_encode_repeated_bytes(field, tail);
        lemma_bytes_field_round_trip(field, rows[0], enc_tail);
        let f0 = spec_bytes_field(field, rows[0]);
        assert(s =~= f0 + enc_tail);
        assert(s.len() > 0 && s[0] == tag_len(field));
        assert(spec_dec_bytes_field(s, field) == Dec::<Seq<u8>>::Val(rows[0], f0.len() as int));
        assert(s.subrange(f0.len() as int, s.len() as int) =~= enc_tail);
        lemma_repeated_bytes_round_trip(field, tail);
        assert(seq![rows[0]] + tail =~= rows);
    }
}

/// Encodes a trailing repeated length-delimited field.
pub fn encode_repeated_bytes(out: &mut Vec<u8>, field: u64, rows: &Vec<Vec<u8>>)
    requires
        1 <= field <= 15,
    ensures
        final(out)@ == old(out)@ + spec_encode_repeated_bytes(field, rows.deep_view()),
{
    let n = rows.len();
    let mut i: usize = 0;
    while i < n
        invariant
            1 <= field <= 15,
            n == rows@.len(),
            i <= n,
            out@ == old(out)@ + spec_encode_repeated_bytes(
                field,
                rows.deep_view().subrange(0, i as int),
            ),
        decreases n - i,
    {
        let ghost pre = out@;
        encode_bytes_field(out, field, &rows[i]);
        proof {
            assert(rows@[i as int].deep_view() =~= rows@[i as int]@);
            lemma_repeated_encode_snoc(field, rows.deep_view(), i as int);
            assert(out@ =~= old(out)@ + spec_encode_repeated_bytes(
                field,
                rows.deep_view().subrange(0, i + 1),
            ));
        }
        i = i + 1;
    }
    proof {
        assert(rows.deep_view().subrange(0, n as int) =~= rows.deep_view());
    }
}

/// Extending a row prefix by one row appends that row's field encoding.
proof fn lemma_repeated_encode_snoc(field: u64, rows: Seq<Seq<u8>>, i: int)
    requires
        0 <= i < rows.len(),
    ensures
        spec_encode_repeated_bytes(field, rows.subrange(0, i + 1))
            == spec_encode_repeated_bytes(field, rows.subrange(0, i)) + spec_bytes_field(
            field,
            rows[i],
        ),
    decreases i,
{
    if i == 0 {
        assert(rows.subrange(0, 1)[0] == rows[0]);
        assert(rows.subrange(0, 1).subrange(1, 1) =~= Seq::<Seq<u8>>::empty());
        assert(rows.subrange(0, 0) =~= Seq::<Seq<u8>>::empty());
        assert(spec_encode_repeated_bytes(field, Seq::<Seq<u8>>::empty()) == Seq::<u8>::empty());
        assert(spec_encode_repeated_bytes(field, rows.subrange(0, 1)) =~= spec_bytes_field(
            field,
            rows[0],
        ) + Seq::<u8>::empty());
        assert(spec_encode_repeated_bytes(field, rows.subrange(0, 0)) + spec_bytes_field(
            field,
            rows[0],
        ) =~= spec_bytes_field(field, rows[0]) + Seq::<u8>::empty());
    } else {
        let t = rows.subrange(1, rows.len() as int);
        lemma_repeated_encode_snoc(field, t, i - 1);
        assert(rows.subrange(0, i + 1)[0] == rows[0]);
        assert(rows.subrange(0, i + 1).subrange(1, i + 1) =~= t.subrange(0, i));
        assert(rows.subrange(0, i)[0] == rows[0]);
        assert(rows.subrange(0, i).subrange(1, i) =~= t.subrange(0, i - 1));
        assert(t.subrange(0, i)[i - 1] == t[i - 1]);
        assert(t[i - 1] == rows[i]);
        assert(spec_encode_repeated_bytes(field, rows.subrange(0, i + 1)) == spec_bytes_field(
            field,
            rows[0],
        ) + spec_encode_repeated_bytes(field, t.subrange(0, i)));
        assert(spec_encode_repeated_bytes(field, rows.subrange(0, i)) == spec_bytes_field(
            field,
            rows[0],
        ) + spec_encode_repeated_bytes(field, t.subrange(0, i - 1)));
        assert(spec_bytes_field(field, rows[0]) + (spec_encode_repeated_bytes(
            field,
            t.subrange(0, i - 1),
        ) + spec_bytes_field(field, rows[i])) =~= (spec_bytes_field(field, rows[0])
            + spec_encode_repeated_bytes(field, t.subrange(0, i - 1))) + spec_bytes_field(
            field,
            rows[i],
        ));
    }
}

/// Decodes a trailing repeated length-delimited field starting at `pos`;
/// the field must run to the end of the buffer.
pub fn decode_repeated_bytes(buf: &Vec<u8>, pos: usize, field: u64) -> (r: Result<
    Vec<Vec<u8>>,
    ContractError,
>)
    requires
        pos <= buf@.len(),
        1 <= field <= 15,
    ensures
        ({
            let s = buf@.subrange(pos as int, buf@.len() as int);
            match r {
                Ok(rows) => spec_dec_repeated_bytes(s, field) == Dec::Val(
                    rows.deep_view(),
                    s.len() as int,
                ),
                Err(e) => match spec_dec_repeated_bytes(s, field) {
                    Dec::Val(_, k) => k != s.len() && e == ContractError::MalformedEncoding,
                    Dec::Missing => e == ContractError::MissingField,
                    Dec::Bad => e == ContractError::MalformedEncoding,
                },
            }
        }),
    decreases buf@.len() - pos,
{
    let ghost s = buf@.subrange(pos as int, buf@.len() as int);
    if pos == buf.len() {
        let r: Vec<Vec<u8>> = Vec::new();
        proof {
            assert(r.deep_view() =~= Seq::<Seq<u8>>::empty());
        }
        return Ok(r);
    }
    if buf[pos] != (field * 8 + 2) as u8 {
        return Err(ContractError::MalformedEncoding);
    }
    let (row, np) = match decode_bytes_field(buf, pos, field) {
        Ok(x) => x,
        Err(e) => {
            return Err(ContractError::MalformedEncoding);
        },
    };
    proof {
        assert(s.subrange((np - pos) as int, s.len() as int) =~= buf@.subrange(
            np as int,
            buf@.len() as int,
        ));
    }
    match decode_repeated_bytes(buf, np, field) {
        Ok(mut rows) => {
            let ghost tail_rows = rows.deep_view();
            rows.insert(0, row);
            proof {
                assert(row.deep_view() =~= row@);
                assert(rows.deep_view() =~= seq![row@] + tail_rows);
            }
            Ok(rows)
        },
        Err(e) => Err(e),
    }
}

/// Each row is no longer than the whole repeated-field encoding.
proof fn lemma_repeated_rows_len(field: u64, rows: Seq<Seq<u8>>)
    ensures
        forall|i: int|
            0 <= i < rows.len() ==> (#[trigger] rows[i]).len() <= spec_encode_repeated_bytes(
                field,
                rows,
            ).len(),
    decreases rows.len(),
{
    if rows.len() > 0 {
        let tail = rows.subrange(1, rows.len() as int);
        lemma_repeated_rows_len(field, tail);
        assert forall|i: int|
            0 <= i < rows.len() implies (#[trigger] rows[i]).len() <= spec_encode_repeated_bytes(
            field,
            rows,
        ).len() by {
            if i > 0 {
                assert(tail[i - 1] == rows[i]);
            }
        }
    }
}

/// Strict decode of an optional height sub-message field: absent when the
/// next byte is not the field's tag.
pub open spec fn spec_dec_opt_height_field(s: Seq<u8>, field: u64) -> Dec<Option<Height>> {
    if s.len() > 0 && s[0] == tag_len(field) {
        match spec_dec_height_field(s, field) {
            Dec::Val(h, p) => Dec::Val(Some(h), p),
            Dec::Missing => Dec::Missing,
            Dec::Bad => Dec::Bad,
        }
    } else {
        Dec::Val(None, 0)
    }
}

// ------------------------------------------------------------------
// TendermintClientParams
// ------------------------------------------------------------------

/// The wire form of the Tendermint client parameters.
pub open spec fn spec_encode_tm_params(
    v: crate::client_state::TendermintClientParamsView,
) -> Seq<u8> {
    spec_bytes_field(1, v.chain_id) + (spec_u64_field(2, v.trust_level_numerator) + (
    spec_u64_field(3, v.trust_level_denominator) + (spec_u64_field(4, v.trusting_period) + (
    spec_u64_field(5, v.unbonding_period) + (spec_u64_field(6, v.max_clock_drift) + ((
    match v.frozen_height {
        Some(h) => spec_bytes_field(7, spec_encode_height(h)),
        None => Seq::<u8>::empty(),
    }) + (spec_bytes_field(8, spec_encode_height(v.latest_height))
        + spec_encode_repeated_bytes(9, v.upgrade_path))))))))
}

/// Strict decode of a Tendermint client parameters message.
pub open spec fn spec_dec_tm_params(s: Seq<u8>) -> Dec<
    crate::client_state::TendermintClientParamsView,
> {
    match spec_dec_bytes_field(s, 1) {
        Dec::Val(chain_id, p1) => match spec_dec_u64_field(s.subrange(p1, s.len() as int), 2) {
            Dec::Val(num, q2) => {
                let p2 = p1 + q2;
                match spec_dec_u64_field(s.subrange(p2, s.len() as int), 3) {
                    Dec::Val(den, q3) => {
                        let p3 = p2 + q3;
                        match spec_dec_u64_field(s.subrange(p3, s.len() as int), 4) {
                            Dec::Val(tp, q4) => {
                                let p4 = p3 + q4;
                                match spec_dec_u64_field(s.subrange(p4, s.len() as int), 5) {
                                    Dec::Val(up, q5) => {
                                        let p5 = p4 + q5;
                                        match spec_dec_u64_field(
                                            s.subrange(p5, s.len() as int),
                                            6,
                                        ) {
                                            Dec::Val(dr, q6) => {
                                                let p6 = p5 + q6;
                                                spec_dec_tm_params_rest(
                                                    s,
                                                    p6,
                                                    chain_id,
                                                    num,
                                                    den,
                                                    tp,
                                                    up,
                                                    dr,
                                                )
                                            },
                                            Dec::Missing => Dec::Missing,
                                            Dec::Bad => Dec::Bad,
                                        }
                                    },
                                    Dec::Missing => Dec::Missing,
                                    Dec::Bad => Dec::Bad,
                                }
                            },
                            Dec::Missing => Dec::Missing,
                            Dec::Bad => Dec::Bad,
                        }
                    },
                    Dec::Missing => Dec::Missing,
                    Dec::Bad => Dec::Bad,
                }
            },
            Dec::Missing => Dec::Missing,
            Dec::Bad => Dec::Bad,
        },
        Dec::Missing => Dec::Missing,
        Dec::Bad => Dec::Bad,
    }
}

/// The tail of the parameters message: the optional frozen height, the
/// latest height, and the trailing upgrade path.
pub open spec fn spec_dec_tm_params_rest(
    s: Seq<u8>,
    p6: int,
    chain_id: Seq<u8>,
    num: u64,
    den: u64,
    tp: u64,
    up: u64,
    dr: u64,
) -> Dec<crate::client_state::TendermintClientParamsView>
    recommends
        0 <= p6 <= s.len(),
{
    match spec_dec_opt_height_field(s.subrange(p6, s.len() as int), 7) {
        Dec::Val(frozen, q7) => {
            let p7 = p6 + q7;
            if !(0 <= p7 <= s.len()) {
                Dec::Bad
            } else {
                match spec_dec_height_field(s.subrange(p7, s.len() as int), 8) {
                    Dec::Val(latest, q8) => {
                        let p8 = p7 + q8;
                        if !(0 <= p8 <= s.len()) {
                            Dec::Bad
                        } else {
                            match spec_dec_repeated_bytes(s.subrange(p8, s.len() as int), 9) {
                                Dec::Val(path, q9) => Dec::Val(
                                    crate::client_state::TendermintClientParamsView {
                                        chain_id,
                                        trust_level_numerator: num,
                                        trust_level_denominator: den,
                                        trusting_period: tp,
                                        unbonding_period: up,
                                        max_clock_drift: dr,
                                        frozen_height: frozen,
                                        latest_height: latest,
                                        upgrade_path: path,
                                    },
                                    p8 + q9,
                                ),
                                Dec::Missing => Dec::Missing,
                                Dec::Bad => Dec::Bad,
                            }
                        }
                    },
                    Dec::Missing => Dec::Missing,
                    Dec::Bad => Dec::Bad,
                }
            }
        },
        Dec::Missing => Dec::Missing,
        Dec::Bad => Dec::Bad,
    }
}

/// If the suffix of `s` at `p` is `a + b`, the suffix at `p + |a|` is `b`.
proof fn lemma_concat_subrange(a: Seq<u8>, b: Seq<u8>, s: Seq<u8>, p: int)
    requires
        0 <= p,
        p + a.len() + b.len() == s.len(),
        s.subrange(p, s.len() as int) == a + b,
    ensures
        s.subrange(p + a.len(), s.len() as int) == b,
{
    assert forall|i: int|
        0 <= i < b.len() implies s.subrange(p + a.len(), s.len() as int)[i] == b[i] by {
        assert((a + b)[a.len() + i] == b[i]);
        assert(s.subrange(p, s.len() as int)[a.len() + i] == s[p + a.len() + i]);
    }
    assert(s.subrange(p + a.len(), s.len() as int) =~= b);
}

/// The tail of the parameters message decodes back to what it encodes.
#[verifier::rlimit(100)]
proof fn lemma_tm_params_rest_round_trip(
    v: crate::client_state::TendermintClientParamsView,
    s: Seq<u8>,
    p6: int,
)
    requires
        0 <= p6 <= s.len(),
        s.len() <= u64::MAX,
        s.subrange(p6, s.len() as int) == (match v.frozen_height {
            Some(h) => spec_bytes_field(7, spec_encode_height(h)),
            None => Seq::<u8>::empty(),
        }) + (spec_bytes_field(8, spec_encode_height(v.latest_height))
            + spec_encode_repeated_bytes(9, v.upgrade_path)),
    ensures
        spec_dec_tm_params_rest(
            s,
            p6,
            v.chain_id,
            v.trust_level_numerator,
            v.trust_level_denominator,
            v.trusting_period,
            v.unbonding_period,
            v.max_clock_drift,
        ) == Dec::Val(v, s.len() as int),
{
    let f7 = match v.frozen_height {
        Some(h) => spec_bytes_field(7, spec_encode_height(h)),
        None => Seq::<u8>::empty(),
    };
    let f8 = spec_bytes_field(8, spec_encode_height(v.latest_height));
    let f9 = spec_encode_repeated_bytes(9, v.upgrade_path);
    let r6 = s.subrange(p6, s.len() as int);
    let r7 = f8 + f9;
    assert(r6 == f7 + r7);
    let p7 = p6 + f7.len() as int;
    match v.frozen_height {
        Some(h) => {
            lemma_height_field_round_trip(7, h, r7);
            assert(spec_dec_opt_height_field(r6, 7) == Dec::<Option<Height>>::Val(
                Some(h),
                f7.len() as int,
            ));
        },
        None => {
            assert(r6 =~= r7);
            assert(r6 == r7);
            lemma_height_field_round_trip(8, v.latest_height, f9);
            assert(r6[0] == tag_len(8));
            assert(tag_len(8) != tag_len(7));
            assert(spec_dec_opt_height_field(r6, 7) == Dec::<Option<Height>>::Val(
                None::<Height>,
                0int,
            ));
        },
    }
    lemma_concat_subrange(f7, r7, s, p6);
    assert(s.subrange(p7, s.len() as int) == r7);
    lemma_height_field_round_trip(8, v.latest_height, f9);
    let p8 = p7 + f8.len() as int;
    lemma_concat_subrange(f8, f9, s, p7);
    assert(s.subrange(p8, s.len() as int) == f9);
    lemma_repeated_rows_len(9, v.upgrade_path);
    assert(forall|i: int|
        0 <= i < v.upgrade_path.len() ==> (#[trigger] v.upgrade_path[i]).len() <= u64::MAX);
    lemma_repeated_bytes_round_trip(9, v.upgrade_path);
    assert(p8 + f9.len() as int == s.len() as int);
}

/// Decoding the parameters inverts encoding them.
#[verifier::rlimit(100)]
#[verifier::spinoff_prover]
pub proof fn lemma_tm_params_round_trip(v: crate::client_state::TendermintClientParamsView)
    requires
        spec_encode_tm_params(v).len() <= u64::MAX,
    ensures
        spec_dec_tm_params(spec_encode_tm_params(v)) == Dec::Val(
            v,
            spec_encode_tm_params(v).len() as int,
        ),
{
    let s = spec_encode_tm_params(v);
    let f1 = spec_bytes_field(1, v.chain_id);
    let f2 = spec_u64_field(2, v.trust_level_numerator);
    let f3 = spec_u64_field(3, v.trust_level_denominator);
    let f4 = spec_u64_field(4, v.trusting_period);
    let f5 = spec_u64_field(5, v.unbonding_period);
    let f6 = spec_u64_field(6, v.max_clock_drift);
    let f7 = match v.frozen_height {
        Some(h) => spec_bytes_field(7, spec_encode_height(h)),
        None => Seq::<u8>::empty(),
    };
    let f8 = spec_bytes_field(8, spec_encode_height(v.latest_height));
    let f9 = spec_encode_repeated_bytes(9, v.upgrade_path);
    let r1 = f2 + (f3 + (f4 + (f5 + (f6 + (f7 + (f8 + f9))))));
    let r2 = f3 + (f4 + (f5 + (f6 + (f7 + (f8 + f9)))));
    let r3 = f4 + (f5 + (f6 + (f7 + (f8 + f9))));
    let r4 = f5 + (f6 + (f7 + (f8 + f9)));
    let r5 = f6 + (f7 + (f8 + f9));
    let r6 = f7 + (f8 + f9);
    assert(s == f1 + r1);
    assert(s.subrange(0, s.len() as int) =~= s);
    assert(v.chain_id.len() <= u64::MAX);
    lemma_bytes_field_round_trip(1, v.chain_id, r1);
    let p1 = f1.len() as int;
    lemma_concat_subrange(f1, r1, s, 0);
    lemma_u64_field_round_trip(2, v.trust_level_numerator, r2);
    let p2 = p1 + f2.len() as int;
    lemma_concat_subrange(f2, r2, s, p1);
    lemma_u64_field_round_trip(3, v.trust_level_denominator, r3);
    let p3 = p2 + f3.len() as int;
    lemma_concat_subrange(f3, r3, s, p2);
    lemma_u64_field_round_trip(4, v.trusting_period, r4);
    let p4 = p3 + f4.len() as int;
    lemma_concat_subrange(f4, r4, s, p3);
    lemma_u64_field_round_trip(5, v.unbonding_period, r5);
    let p5 = p4 + f5.len() as int;
    lemma_concat_subrange(f5, r5, s, p4);
    lemma_u64_field_round_trip(6, v.max_clock_drift, r6);
    let p6 = p5 + f6.len() as int;
    lemma_concat_subrange(f6, r6, s, p5);
    assert(s.subrange(p6, s.len() as int) == f7 + (spec_bytes_field(
        8,
        spec_encode_height(v.latest_height),
    ) + spec_encode_repeated_bytes(9, v.upgrade_path)));
    lemma_tm_params_rest_round_trip(v, s, p6);
}

/// Encodes the Tendermint client parameters.
#[verifier::rlimit(100)]
#[verifier::spinoff_prover]
pub fn encode_tm_params(v: &crate::client_state::TendermintClientParams) -> (r: Vec<u8>)
    ensures
        r@ == spec_encode_tm_params(v@),
{
    let mut out: Vec<u8> = Vec::new();
    encode_bytes_field(&mut out, 1, &v.chain_id);
    encode_u64_field(&mut out, 2, v.trust_level_numerator);
    encode_u64_field(&mut out, 3, v.trust_level_denominator);
    encode_u64_field(&mut out, 4, v.trusting_period);
    encode_u64_field(&mut out, 5, v.unbonding_period);
    encode_u64_field(&mut out, 6, v.max_clock_drift);
    match &v.frozen_height {
        Some(h) => {
            encode_height_field(&mut out, 7, h);
        },
        None => {},
    }
    encode_height_field(&mut out, 8, &v.latest_height);
    encode_repeated_bytes(&mut out, 9, &v.upgrade_path);
    proof {
        assert(out@ =~= spec_encode_tm_params(v@));
    }
    out
}

/// Decodes a Tendermint client parameters message, consuming the whole
/// buffer.
#[verifier::rlimit(100)]
pub fn decode_tm_params(buf: &Vec<u8>) -> (r: Result<
    crate::client_state::TendermintClientParams,
    ContractError,
>)
    ensures
        match r {
            Ok(v) => spec_dec_tm_params(buf@) == Dec::Val(v@, buf@.len() as int),
            Err(e) => match spec_dec_tm_params(buf@) {
                Dec::Val(_, k) => k != buf@.len() && e == ContractError::MalformedEncoding,
                Dec::Missing => e == ContractError::MissingField,
                Dec::Bad => e == ContractError::MalformedEncoding,
            },
        },
{
    proof {
        assert(buf@.subrange(0, buf@.len() as int) =~= buf@);
    }
    let (chain_id, p1) = match decode_bytes_field(buf, 0, 1) {
        Ok(x) => x,
        Err(e) => {
            return Err(e);
        },
    };
    let (num, p2) = match decode_u64_field(buf, p1, 2) {
        Ok(x) => x,
        Err(e) => {
            return Err(e);
        },
    };
    let (den, p3) = match decode_u64_field(buf, p2, 3) {
        Ok(x) => x,
        Err(e) => {
            return Err(e);
        },
    };
    let (tp, p4) = match decode_u64_field(buf, p3, 4) {
        Ok(x) => x,
        Err(e) => {
            return Err(e);
        },
    };
    let (up, p5) = match decode_u64_field(buf, p4, 5) {
        Ok(x) => x,
        Err(e) => {
            return Err(e);
        },
    };
    let (dr, p6) = match decode_u64_field(buf, p5, 6) {
        Ok(x) => x,
        Err(e) => {
            return Err(e);
        },
    };
    let (frozen, p7) = if p6 < buf.len() && buf[p6] == (7 * 8 + 2) as u8 {
        match decode_height_field(buf, p6, 7) {
            Ok((h, np)) => (Some(h), np),
            Err(e) => {
                return Err(e);
            },
        }
    } else {
        (None, p6)
    };
    let (latest, p8) = match decode_height_field(buf, p7, 8) {
        Ok(x) => x,
        Err(e) => {
            return Err(e);
        },
    };
    let path = match decode_repeated_bytes(buf, p8, 9) {
        Ok(x) => x,
        Err(e) => {
            return Err(e);
        },
    };
    Ok(
        crate::client_state::TendermintClientParams {
            chain_id,
            trust_level_numerator: num,
            trust_level_denominator: den,
            trusting_period: tp,
            unbonding_period: up,
            max_clock_drift: dr,
            frozen_height: frozen,
            latest_height: latest,
            upgrade_path: path,
        },
    )
}

// ------------------------------------------------------------------
// ClientState
// ------------------------------------------------------------------

/// The wire form of the client state: the Tendermint parameters and the
/// data-availability parameters, each as a sub-message.
pub open spec fn spec_encode_client_state(v: crate::client_state::ClientStateView) -> Seq<u8> {
    spec_bytes_field(1, spec_encode_tm_params(v.tendermint_client_state)) + spec_bytes_field(
        2,
        spec_encode_da_params(v.da_params),
    )
}

/// Strict decode of a client-state message.
pub open spec fn spec_dec_client_state(s: Seq<u8>) -> Dec<crate::client_state::ClientStateView> {
    match spec_dec_bytes_field(s, 1) {
        Dec::Val(b1, p1) => match spec_dec_tm_params(b1) {
            Dec::Val(tm, k1) => {
                if k1 != b1.len() {
                    Dec::Bad
                } else {
                    match spec_dec_bytes_field(s.subrange(p1, s.len() as int), 2) {
                        Dec::Val(b2, p2) => match spec_dec_da_params(b2) {
                            Dec::Val(da, k2) => {
                                if k2 != b2.len() {
                                    Dec::Bad
                                } else {
                                    Dec::Val(
                                        crate::client_state::ClientStateView {
                                            tendermint_client_state: tm,
                                            da_params: da,
                                        },
                                        p1 + p2,
                                    )
                                }
                            },
                            Dec::Missing => Dec::Missing,
                            Dec::Bad => Dec::Bad,
                        },
                        Dec::Missing => Dec::Missing,
                        Dec::Bad => Dec::Bad,
                    }
                }
            },
            Dec::Missing => Dec::Missing,
            Dec::Bad => Dec::Bad,
        },
        Dec::Missing => Dec::Missing,
        Dec::Bad => Dec::Bad,
    }
}

/// Decoding a client state inverts encoding it.
pub proof fn lemma_client_state_round_trip(v: crate::client_state::ClientStateView)
    requires
        spec_encode_client_state(v).len() <= u64::MAX,
    ensures
        spec_dec_client_state(spec_encode_client_state(v)) == Dec::Val(
            v,
            spec_encode_client_state(v).len() as int,
        ),
{
    let s = spec_encode_client_state(v);
    let b1 = spec_encode_tm_params(v.tendermint_client_state);
    let b2 = spec_encode_da_params(v.da_params);
    let f1 = spec_bytes_field(1, b1);
    let f2 = spec_bytes_field(2, b2);
    assert(s =~= f1 + f2);
    assert(s.subrange(0, s.len() as int) =~= f1 + f2);
    lemma_bytes_field_round_trip(1, b1, f2);
    lemma_tm_params_round_trip(v.tendermint_client_state);
    let p1 = f1.len() as int;
    lemma_concat_subrange(f1, f2, s, 0);
    assert(f2 =~= f2 + Seq::<u8>::empty());
    lemma_bytes_field_round_trip(2, b2, Seq::<u8>::empty());
    lemma_da_params_round_trip(v.da_params);
}

/// Encodes a client state.
pub fn encode_client_state(v: &crate::client_state::ClientState) -> (r: Vec<u8>)
    ensures
        r@ == spec_encode_client_state(v@),
{
    let mut out: Vec<u8> = Vec::new();
    let b1 = encode_tm_params(&v.tendermint_client_state);
    encode_bytes_field(&mut out, 1, &b1);
    let b2 = encode_da_params(&v.da_params);
    encode_bytes_field(&mut out, 2, &b2);
    proof {
        assert(out@ =~= spec_encode_client_state(v@));
    }
    out
}

/// Decodes a client-state message, consuming the whole buffer.
pub fn decode_client_state(buf: &Vec<u8>) -> (r: Result<
    crate::client_state::ClientState,
    ContractError,
>)
    ensures
        match r {
            Ok(v) => spec_dec_client_state(buf@) == Dec::Val(v@, buf@.len() as int),
            Err(e) => match spec_dec_client_state(buf@) {
                Dec::Val(_, k) => k != buf@.len() && e == ContractError::MalformedEncoding,
                Dec::Missing => e == ContractError::MissingField,
                Dec::Bad => e == ContractError::MalformedEncoding,
            },
        },
{
    proof {
        assert(buf@.subrange(0, buf@.len() as int) =~= buf@);
    }
    let (b1, p1) = match decode_bytes_field(buf, 0, 1) {
        Ok(x) => x,
        Err(e) => {
            return Err(e);
        },
    };
    let tm = match decode_tm_params(&b1) {
        Ok(x) => x,
        Err(e) => {
            return Err(e);
        },
    };
    let (b2, p2) = match decode_bytes_field(buf, p1, 2) {
        Ok(x) => x,
        Err(e) => {
            return Err(e);
        },
    };
    let da = match decode_da_params(&b2) {
        Ok(x) => x,
        Err(e) => {
            return Err(e);
        },
    };
    if p2 != buf.len() {
        return Err(ContractError::MalformedEncoding);
    }
    Ok(crate::client_state::ClientState { tendermint_client_state: tm, da_params: da })
}

// ------------------------------------------------------------------
// TendermintHeader
// ------------------------------------------------------------------

/// The wire form of the modelled Tendermint header.
pub open spec fn spec_encode_tm_header(v: crate::header::TendermintHeaderView) -> Seq<u8> {
    spec_bytes_field(1, v.chain_id) + (spec_bytes_field(2, spec_encode_height(v.height)) + (
    spec_u64_field(3, v.timestamp) + (spec_bytes_field(4, spec_encode_height(v.trusted_height))
        + (spec_bytes_field(5, v.next_validators_hash) + (spec_bytes_field(
        6,
        v.commitment_root,
    ) + spec_bytes_field(7, v.evidence))))))
}

/// Strict decode of a Tendermint header message.
pub open spec fn spec_dec_tm_header(s: Seq<u8>) -> Dec<crate::header::TendermintHeaderView> {
    match spec_dec_bytes_field(s, 1) {
        Dec::Val(cid, p1) => match spec_dec_height_field(s.subrange(p1, s.len() as int), 2) {
            Dec::Val(h, q2) => {
                let p2 = p1 + q2;
                match spec_dec_u64_field(s.subrange(p2, s.len() as int), 3) {
                    Dec::Val(ts, q3) => {
                        let p3 = p2 + q3;
                        match spec_dec_height_field(s.subrange(p3, s.len() as int), 4) {
                            Dec::Val(th, q4) => {
                                let p4 = p3 + q4;
                                match spec_dec_bytes_field(s.subrange(p4, s.len() as int), 5) {
                                    Dec::Val(nvh, q5) => {
                                        let p5 = p4 + q5;
                                        match spec_dec_bytes_field(
                                            s.subrange(p5, s.len() as int),
                                            6,
                                        ) {
                                            Dec::Val(root, q6) => {
                                                let p6 = p5 + q6;
                                                match spec_dec_bytes_field(
                                                    s.subrange(p6, s.len() as int),
                                                    7,
                                                ) {
                                                    Dec::Val(ev, q7) => Dec::Val(
                                                        crate::header::TendermintHeaderView {
                                                            chain_id: cid,
                                                            height: h,
                                                            timestamp: ts,
                                                            trusted_height: th,
                                                            next_validators_hash: nvh,
                                                            commitment_root: root,
                                                            evidence: ev,
                                                        },
                                                        p6 + q7,
                                                    ),
                                                    Dec::Missing => Dec::Missing,
                                                    Dec::Bad => Dec::Bad,
                                                }
                                            },
                                            Dec::Missing => Dec::Missing,
                                            Dec::Bad => Dec::Bad,
                                        }
                                    },
                                    Dec::Missing => Dec::Missing,
                                    Dec::Bad => Dec::Bad,
                                }
                            },
                            Dec::Missing => Dec::Missing,
                            Dec::Bad => Dec::Bad,
                        }
                    },
                    Dec::Missing => Dec::Missing,
                    Dec::Bad => Dec::Bad,
                }
            },
            Dec::Missing => Dec::Missing,
            Dec::Bad => Dec::Bad,
        },
        Dec::Missing => Dec::Missing,
        Dec::Bad => Dec::Bad,
    }
}

/// Decoding a Tendermint header inverts encoding it.
#[verifier::rlimit(100)]
#[verifier::spinoff_prover]
pub proof fn lemma_tm_header_round_trip(v: crate::header::TendermintHeaderView)
    requires
        spec_encode_tm_header(v).len() <= u64::MAX,
    ensures
        spec_dec_tm_header(spec_encode_tm_header(v)) == Dec::Val(
            v,
            spec_encode_tm_header(v).len() as int,
        ),
{
    let s = spec_encode_tm_header(v);
    let f1 = spec_bytes_field(1, v.chain_id);
    let f2 = spec_bytes_field(2, spec_encode_height(v.height));
    let f3 = spec_u64_field(3, v.timestamp);
    let f4 = spec_bytes_field(4, spec_encode_height(v.trusted_height));
    let f5 = spec_bytes_field(5, v.next_validators_hash);
    let f6 = spec_bytes_field(6, v.commitment_root);
    let f7 = spec_bytes_field(7, v.evidence);
    let r1 = f2 + (f3 + (f4 + (f5 + (f6 + f7))));
    let r2 = f3 + (f4 + (f5 + (f6 + f7)));
    let r3 = f4 + (f5 + (f6 + f7));
    let r4 = f5 + (f6 + f7);
    let r5 = f6 + f7;
    assert(s == f1 + r1);
    assert(s.subrange(0, s.len() as int) =~= s);
    assert(v.chain_id.len() <= u64::MAX);
    lemma_bytes_field_round_trip(1, v.chain_id, r1);
    let p1 = f1.len() as int;
    lemma_concat_subrange(f1, r1, s, 0);
    lemma_height_field_round_trip(2, v.height, r2);
    let p2 = p1 + f2.len() as int;
    lemma_concat_subrange(f2, r2, s, p1);
    lemma_u64_field_round_trip(3, v.timestamp, r3);
    let p3 = p2 + f3.len() as int;
    lemma_concat_subrange(f3, r3, s, p2);
    lemma_height_field_round_trip(4, v.trusted_height, r4);
    let p4 = p3 + f4.len() as int;
    lemma_concat_subrange(f4, r4, s, p3);
    assert(v.next_validators_hash.len() <= u64::MAX);
    lemma_bytes_field_round_trip(5, v.next_validators_hash, r5);
    let p5 = p4 + f5.len() as int;
    lemma_concat_subrange(f5, r5, s, p4);
    assert(v.commitment_root.len() <= u64::MAX);
    lemma_bytes_field_round_trip(6, v.commitment_root, f7);
    let p6 = p5 + f6.len() as int;
    lemma_concat_subrange(f6, f7, s, p5);
    assert(v.evidence.len() <= u64::MAX);
    lemma_bytes_field_round_trip(7, v.evidence, Seq::<u8>::empty());
    assert(f7 =~= f7 + Seq::<u8>::empty());
}

/// Encodes a Tendermint header.
#[verifier::rlimit(100)]
#[verifier::spinoff_prover]
pub fn encode_tm_header(v: &crate::header::TendermintHeader) -> (r: Vec<u8>)
    ensures
        r@ == spec_encode_tm_header(v@),
{
    let mut out: Vec<u8> = Vec::new();
    encode_bytes_field(&mut out, 1, &v.chain_id);
    encode_height_field(&mut out, 2, &v.height);
    encode_u64_field(&mut out, 3, v.timestamp);
    encode_height_field(&mut out, 4, &v.trusted_height);
    encode_bytes_field(&mut out, 5, &v.next_validators_hash);
    encode_bytes_field(&mut out, 6, &v.commitment_root);
    encode_bytes_field(&mut out, 7, &v.evidence);
    proof {
        assert(out@ =~= spec_encode_tm_header(v@));
    }
    out
}

/// Decodes a Tendermint header message, consuming the whole buffer.
#[verifier::rlimit(100)]
pub fn decode_tm_header(buf: &Vec<u8>) -> (r: Result<
    crate::header::TendermintHeader,
    ContractError,
>)
    ensures
        match r {
            Ok(v) => spec_dec_tm_header(buf@) == Dec::Val(v@, buf@.len() as int),
            Err(e) => match spec_dec_tm_header(buf@) {
                Dec::Val(_, k) => k != buf@.len() && e == ContractError::MalformedEncoding,
                Dec::Missing => e == ContractError::MissingField,
                Dec::Bad => e == ContractError::MalformedEncoding,
            },
        },
{
    proof {
        assert(buf@.subrange(0, buf@.len() as int) =~= buf@);
    }
    let (cid, p1) = match decode_bytes_field(buf, 0, 1) {
        Ok(x) => x,
        Err(e) => {
            return Err(e);
        },
    };
    let (h, p2) = match decode_height_field(buf, p1, 2) {
        Ok(x) => x,
        Err(e) => {
            return Err(e);
        },
    };
    let (ts, p3) = match decode_u64_field(buf, p2, 3) {
        Ok(x) => x,
        Err(e) => {
            return Err(e);
        },
    };
    let (th, p4) = match decode_height_field(buf, p3, 4) {
        Ok(x) => x,
        Err(e) => {
            return Err(e);
        },
    };
    let (nvh, p5) = match decode_bytes_field(buf, p4, 5) {
        Ok(x) => x,
        Err(e) => {
            return Err(e);
        },
    };
    let (root, p6) = match decode_bytes_field(buf, p5, 6) {
        Ok(x) => x,
        Err(e) => {
            return Err(e);
        },
    };
    let (ev, p7) = match decode_bytes_field(buf, p6, 7) {
        Ok(x) => x,
        Err(e) => {
            return Err(e);
        },
    };
    if p7 != buf.len() {
        return Err(ContractError::MalformedEncoding);
    }
    Ok(
        crate::header::TendermintHeader {
            chain_id: cid,
            height: h,
            timestamp: ts,
            trusted_height: th,
            next_validators_hash: nvh,
            commitment_root: root,
            evidence: ev,
        },
    )
}

// ------------------------------------------------------------------
// Header and Misbehaviour
// ------------------------------------------------------------------

/// The wire form of a rollup header: the Tendermint header and the
/// data-availability evidence, each as a sub-message.
pub open spec fn spec_encode_header(v: crate::header::HeaderView) -> Seq<u8> {
    spec_bytes_field(1, spec_encode_tm_header(v.tendermint_header)) + spec_bytes_field(
        2,
        spec_encode_da_data(v.da_data),
    )
}

/// Strict decode of a rollup header message.
pub open spec fn spec_dec_header(s: Seq<u8>) -> Dec<crate::header::HeaderView> {
    match spec_dec_bytes_field(s, 1) {
        Dec::Val(b1, p1) => match spec_dec_tm_header(b1) {
            Dec::Val(tm, k1) => {
                if k1 != b1.len() {
                    Dec::Bad
                } else {
                    match spec_dec_bytes_field(s.subrange(p1, s.len() as int), 2) {
                        Dec::Val(b2, p2) => match spec_dec_da_data(b2) {
                            Dec::Val(da, k2) => {
                                if k2 != b2.len() {
                                    Dec::Bad
                                } else {
                                    Dec::Val(
                                        crate::header::HeaderView {
                                            tendermint_header: tm,
                                            da_data: da,
                                        },
                                        p1 + p2,
                                    )
                                }
                            },
                            Dec::Missing => Dec::Missing,
                            Dec::Bad => Dec::Bad,
                        },
                        Dec::Missing => Dec::Missing,
                        Dec::Bad => Dec::Bad,
                    }
                }
            },
            Dec::Missing => Dec::Missing,
            Dec::Bad => Dec::Bad,
        },
        Dec::Missing => Dec::Missing,
        Dec::Bad => Dec::Bad,
    }
}

/// Decoding a rollup header inverts encoding it.
pub proof fn lemma_header_round_trip(v: crate::header::HeaderView)
    requires
        spec_encode_header(v).len() <= u64::MAX,
    ensures
        spec_dec_header(spec_encode_header(v)) == Dec::Val(
            v,
            spec_encode_header(v).len() as int,
        ),
{
    let s = spec_encode_header(v);
    let b1 = spec_encode_tm_header(v.tendermint_header);
    let b2 = spec_encode_da_data(v.da_data);
    let f1 = spec_bytes_field(1, b1);
    let f2 = spec_bytes_field(2, b2);
    assert(s =~= f1 + f2);
    assert(s.subrange(0, s.len() as int) =~= f1 + f2);
    lemma_bytes_field_round_trip(1, b1, f2);
    lemma_tm_header_round_trip(v.tendermint_header);
    lemma_concat_subrange(f1, f2, s, 0);
    assert(f2 =~= f2 + Seq::<u8>::empty());
    lemma_bytes_field_round_trip(2, b2, Seq::<u8>::empty());
    lemma_da_data_round_trip(v.da_data);
}

/// Encodes a rollup header.
pub fn encode_header(v: &crate::header::Header) -> (r: Vec<u8>)
    ensures
        r@ == spec_encode_header(v@),
{
    let mut out: Vec<u8> = Vec::new();
    let b1 = encode_tm_header(&v.tendermint_header);
    encode_bytes_field(&mut out, 1, &b1);
    let b2 = encode_da_data(&v.da_data);
    encode_bytes_field(&mut out, 2, &b2);
    proof {
        assert(out@ =~= spec_encode_header(v@));
    }
    out
}

/// Decodes a rollup header message, consuming the whole buffer.
pub fn decode_header(buf: &Vec<u8>) -> (r: Result<crate::header::Header, ContractError>)
    ensures
        match r {
            Ok(v) => spec_dec_header(buf@) == Dec::Val(v@, buf@.len() as int),
            Err(e) => match spec_dec_header(buf@) {
                Dec::Val(_, k) => k != buf@.len() && e == ContractError::MalformedEncoding,
                Dec::Missing => e == ContractError::MissingField,
                Dec::Bad => e == ContractError::MalformedEncoding,
            },
        },
{
    proof {
        assert(buf@.subrange(0, buf@.len() as int) =~= buf@);
    }
    let (b1, p1) = match decode_bytes_field(buf, 0, 1) {
        Ok(x) => x,
        Err(e) => {
            return Err(e);
        },
    };
    let tm = match decode_tm_header(&b1) {
        Ok(x) => x,
        Err(e) => {
            return Err(e);
        },
    };
    let (b2, p2) = match decode_bytes_field(buf, p1, 2) {
        Ok(x) => x,
        Err(e) => {
            return Err(e);
        },
    };
    let da = match decode_da_data(&b2) {
        Ok(x) => x,
        Err(e) => {
            return Err(e);
        },
    };
    if p2 != buf.len() {
        return Err(ContractError::MalformedEncoding);
    }
    Ok(crate::header::Header { tendermint_header: tm, da_data: da })
}

/// The wire form of misbehaviour evidence: the client id and the two
/// conflicting Tendermint headers.
pub open spec fn spec_encode_misbehaviour(v: crate::client_message::MisbehaviourView) -> Seq<
    u8,
> {
    spec_bytes_field(1, v.client_id) + (spec_bytes_field(
        2,
        spec_encode_tm_header(v.header1),
    ) + spec_bytes_field(3, spec_encode_tm_header(v.header2)))
}

/// Strict decode of a misbehaviour message.
pub open spec fn spec_dec_misbehaviour(s: Seq<u8>) -> Dec<
    crate::client_message::MisbehaviourView,
> {
    match spec_dec_bytes_field(s, 1) {
        Dec::Val(cid, p1) => match spec_dec_bytes_field(s.subrange(p1, s.len() as int), 2) {
            Dec::Val(b1, q2) => match spec_dec_tm_header(b1) {
                Dec::Val(h1, k1) => {
                    if k1 != b1.len() {
                        Dec::Bad
                    } else {
                        let p2 = p1 + q2;
                        match spec_dec_bytes_field(s.subrange(p2, s.len() as int), 3) {
                            Dec::Val(b2, q3) => match spec_dec_tm_header(b2) {
                                Dec::Val(h2, k2) => {
                                    if k2 != b2.len() {
                                        Dec::Bad
                                    } else {
                                        Dec::Val(
                                            crate::client_message::MisbehaviourView {
                                                client_id: cid,
                                                header1: h1,
                                                header2: h2,
                                            },
                                            p2 + q3,
                                        )
                                    }
                                },
                                Dec::Missing => Dec::Missing,
                                Dec::Bad => Dec::Bad,
                            },
                            Dec::Missing => Dec::Missing,
                            Dec::Bad => Dec::Bad,
                        }
                    }
                },
                Dec::Missing => Dec::Missing,
                Dec::Bad => Dec::Bad,
            },
            Dec::Missing => Dec::Missing,
            Dec::Bad => Dec::Bad,
        },
        Dec::Missing => Dec::Missing,
        Dec::Bad => Dec::Bad,
    }
}

/// Decoding misbehaviour evidence inverts encoding it.
#[verifier::rlimit(100)]
#[verifier::spinoff_prover]
pub proof fn lemma_misbehaviour_round_trip(v: crate::client_message::MisbehaviourView)
    requires
        spec_encode_misbehaviour(v).len() <= u64::MAX,
    ensures
        spec_dec_misbehaviour(spec_encode_misbehaviour(v)) == Dec::Val(
            v,
            spec_encode_misbehaviour(v).len() as int,
        ),
{
    let s = spec_encode_misbehaviour(v);
    let b1 = spec_encode_tm_header(v.header1);
    let b2 = spec_encode_tm_header(v.header2);
    let f1 = spec_bytes_field(1, v.client_id);
    let f2 = spec_bytes_field(2, b1);
    let f3 = spec_bytes_field(3, b2);
    let r1 = f2 + f3;
    assert(s == f1 + r1);
    assert(s.subrange(0, s.len() as int) =~= s);
    assert(v.client_id.len() <= u64::MAX);
    lemma_bytes_field_round_trip(1, v.client_id, r1);
    let p1 = f1.len() as int;
    lemma_concat_subrange(f1, r1, s, 0);
    lemma_bytes_field_round_trip(2, b1, f3);
    lemma_tm_header_round_trip(v.header1);
    let p2 = p1 + f2.len() as int;
    lemma_concat_subrange(f2, f3, s, p1);
    assert(f3 =~= f3 + Seq::<u8>::empty());
    lemma_bytes_field_round_trip(3, b2, Seq::<u8>::empty());
    lemma_tm_header_round_trip(v.header2);
}

/// Encodes misbehaviour evidence.
pub fn encode_misbehaviour(v: &crate::client_message::Misbehaviour) -> (r: Vec<u8>)
    ensures
        r@ == spec_encode_misbehaviour(v@),
{
    let mut out: Vec<u8> = Vec::new();
    encode_bytes_field(&mut out, 1, &v.client_id);
    let b1 = encode_tm_header(&v.header1);
    encode_bytes_field(&mut out, 2, &b1);
    let b2 = encode_tm_header(&v.header2);
    encode_bytes_field(&mut out, 3, &b2);
    proof {
        assert(out@ =~= spec_encode_misbehaviour(v@));
    }
    out
}

/// Decodes a misbehaviour message, consuming the whole buffer.
pub fn decode_misbehaviour(buf: &Vec<u8>) -> (r: Result<
    crate::client_message::Misbehaviour,
    ContractError,
>)
    ensures
        match r {
            Ok(v) => spec_dec_misbehaviour(buf@) == Dec::Val(v@, buf@.len() as int),
            Err(e) => match spec_dec_misbehaviour(buf@) {
                Dec::Val(_, k) => k != buf@.len() && e == ContractError::MalformedEncoding,
                Dec::Missing => e == ContractError::MissingField,
                Dec::Bad => e == ContractError::MalformedEncoding,
            },
        },
{
    proof {
        assert(buf@.subrange(0, buf@.len() as int) =~= buf@);
    }
    let (cid, p1) = match decode_bytes_field(buf, 0, 1) {
        Ok(x) => x,
        Err(e) => {
            return Err(e);
        },
    };
    let (b1, p2) = match decode_bytes_field(buf, p1, 2) {
        Ok(x) => x,
        Err(e) => {
            return Err(e);
        },
    };
    let h1 = match decode_tm_header(&b1) {
        Ok(x) => x,
        Err(e) => {
            return Err(e);
        },
    };
    let (b2, p3) = match decode_bytes_field(buf, p2, 3) {
        Ok(x) => x,
        Err(e) => {
            return Err(e);
        },
    };
    let h2 = match decode_tm_header(&b2) {
        Ok(x) => x,
        Err(e) => {
            return Err(e);
        },
    };
    if p3 != buf.len() {
        return Err(ContractError::MalformedEncoding);
    }
    Ok(crate::client_message::Misbehaviour { client_id: cid, header1: h1, header2: h2 })
}

// ------------------------------------------------------------------
// Any envelopes and the type-URL table
// ------------------------------------------------------------------

/// A protobuf `Any` envelope: a type URL naming the payload's type, and
/// the payload bytes.
#[derive(Clone, Debug, PartialEq, Eq)]
pub struct AnyEnvelope {
    /// The type URL naming the payload's registered domain type.
    pub type_url: Vec<u8>,
    /// The encoded payload.
    pub value: Vec<u8>,
}

/// The wire form of an `Any` envelope.
pub open spec fn spec_encode_any(url: Seq<u8>, value: Seq<u8>) -> Seq<u8> {
    spec_bytes_field(1, url) + spec_bytes_field(2, value)
}

/// Strict decode of an `Any` envelope.
pub open spec fn spec_dec_any(s: Seq<u8>) -> Dec<(Seq<u8>, Seq<u8>)> {
    match spec_dec_bytes_field(s, 1) {
        Dec::Val(url, p1) => match spec_dec_bytes_field(s.subrange(p1, s.len() as int), 2) {
            Dec::Val(value, p2) => Dec::Val((url, value), p1 + p2),
            Dec::Missing => Dec::Missing,
            Dec::Bad => Dec::Bad,
        },
        Dec::Missing => Dec::Missing,
        Dec::Bad => Dec::Bad,
    }
}

/// Decoding an envelope inverts encoding it.
pub proof fn lemma_any_round_trip(url: Seq<u8>, value: Seq<u8>)
    requires
        url.len() <= u64::MAX,
        value.len() <= u64::MAX,
    ensures
        spec_dec_any(spec_encode_any(url, value)) == Dec::Val(
            (url, value),
            spec_encode_any(url, value).len() as int,
        ),
{
    let s = spec_encode_any(url, value);
    let f1 = spec_bytes_field(1, url);
    let f2 = spec_bytes_field(2, value);
    assert(s =~= f1 + f2);
    assert(s.subrange(0, s.len() as int) =~= f1 + f2);
    lemma_bytes_field_round_trip(1, url, f2);
    lemma_concat_subrange(f1, f2, s, 0);
    assert(f2 =~= f2 + Seq::<u8>::empty());
    lemma_bytes_field_round_trip(2, value, Seq::<u8>::empty());
}

/// Encodes an `Any` envelope.
pub fn encode_any(v: &AnyEnvelope) -> (r: Vec<u8>)
    ensures
        r@ == spec_encode_any(v.type_url@, v.value@),
{
    let mut out: Vec<u8> = Vec::new();
    encode_bytes_field(&mut out, 1, &v.type_url);
    encode_bytes_field(&mut out, 2, &v.value);
    proof {
        assert(out@ =~= spec_encode_any(v.type_url@, v.value@));
    }
    out
}

/// Decodes an `Any` envelope, consuming the whole buffer.
pub fn decode_any(buf: &Vec<u8>) -> (r: Result<AnyEnvelope, ContractError>)
    ensures
        match r {
            Ok(v) => spec_dec_any(buf@) == Dec::Val((v.type_url@, v.value@), buf@.len() as int),
            Err(e) => match spec_dec_any(buf@) {
                Dec::Val(_, k) => k != buf@.len() && e == ContractError::MalformedEncoding,
                Dec::Missing => e == ContractError::MissingField,
                Dec::Bad => e == ContractError::MalformedEncoding,
            },
        },
{
    proof {
        assert(buf@.subrange(0, buf@.len() as int) =~= buf@);
    }
    let (url, p1) = match decode_bytes_field(buf, 0, 1) {
        Ok(x) => x,
        Err(e) => {
            return Err(e);
        },
    };
    let (value, p2) = match decode_bytes_field(buf, p1, 2) {
        Ok(x) => x,
        Err(e) => {
            return Err(e);
        },
    };
    if p2 != buf.len() {
        return Err(ContractError::MalformedEncoding);
    }
    Ok(AnyEnvelope { type_url: url, value })
}

/// The registered type URL of the rollup client state.
pub open spec fn spec_client_state_type_url() -> Seq<u8> {
    "/ibc.lightclients.rollkit.v1.ClientState".spec_bytes()
}

/// The registered type URL of the rollup header.
pub open spec fn spec_header_type_url() -> Seq<u8> {
    "/ibc.lightclients.rollkit.v1.Header".spec_bytes()
}

/// The registered type URL of Tendermint misbehaviour evidence.
pub open spec fn spec_misbehaviour_type_url() -> Seq<u8> {
    "/ibc.lightclients.tendermint.v1.Misbehaviour".spec_bytes()
}

/// The registered type URL of the Tendermint consensus state.
pub open spec fn spec_consensus_state_type_url() -> Seq<u8> {
    "/ibc.lightclients.tendermint.v1.ConsensusState".spec_bytes()
}

/// Returns the registered type URL of the rollup client state.
pub fn client_state_type_url() -> (r: Vec<u8>)
    ensures
        r@ == spec_client_state_type_url(),
{
    let s: &str = "/ibc.lightclients.rollkit.v1.ClientState";
    s.as_bytes_vec()
}

/// Returns the registered type URL of the rollup header.
pub fn header_type_url() -> (r: Vec<u8>)
    ensures
        r@ == spec_header_type_url(),
{
    let s: &str = "/ibc.lightclients.rollkit.v1.Header";
    s.as_bytes_vec()
}

/// Returns the registered type URL of Tendermint misbehaviour evidence.
pub fn misbehaviour_type_url() -> (r: Vec<u8>)
    ensures
        r@ == spec_misbehaviour_type_url(),
{
    let s: &str = "/ibc.lightclients.tendermint.v1.Misbehaviour";
    s.as_bytes_vec()
}

/// Returns the registered type URL of the Tendermint consensus state.
pub fn consensus_state_type_url() -> (r: Vec<u8>)
    ensures
        r@ == spec_consensus_state_type_url(),
{
    let s: &str = "/ibc.lightclients.tendermint.v1.ConsensusState";
    s.as_bytes_vec()
}

/// The registered type URLs name pairwise distinct types.
pub proof fn lemma_type_urls_distinct()
    ensures
        spec_client_state_type_url() != spec_header_type_url(),
        spec_client_state_type_url() != spec_misbehaviour_type_url(),
        spec_client_state_type_url() != spec_consensus_state_type_url(),
        spec_header_type_url() != spec_misbehaviour_type_url(),
        spec_header_type_url() != spec_consensus_state_type_url(),
        spec_misbehaviour_type_url() != spec_consensus_state_type_url(),
{
    let a: &str = "/ibc.lightclients.rollkit.v1.ClientState";
    let b: &str = "/ibc.lightclients.rollkit.v1.Header";
    let c: &str = "/ibc.lightclients.tendermint.v1.Misbehaviour";
    let d: &str = "/ibc.lightclients.tendermint.v1.ConsensusState";
    reveal_strlit("/ibc.lightclients.rollkit.v1.ClientState");
    reveal_strlit("/ibc.lightclients.rollkit.v1.Header");
    reveal_strlit("/ibc.lightclients.tendermint.v1.Misbehaviour");
    reveal_strlit("/ibc.lightclients.tendermint.v1.ConsensusState");
    assert(vstd::string::is_ascii(a));
    assert(vstd::string::is_ascii(b));
    assert(vstd::string::is_ascii(c));
    assert(vstd::string::is_ascii(d));
    vstd::string::is_ascii_spec_bytes(a);
    vstd::string::is_ascii_spec_bytes(b);
    vstd::string::is_ascii_spec_bytes(c);
    vstd::string::is_ascii_spec_bytes(d);
    assert(a.spec_bytes().len() == 40);
    assert(b.spec_bytes().len() == 35);
    assert(c.spec_bytes().len() == 44);
    assert(d.spec_bytes().len() == 46);
}

// ------------------------------------------------------------------
// Typed envelopes
// ------------------------------------------------------------------

/// The envelope encoding of a client message, keyed by its type URL.
pub open spec fn spec_encode_client_message(m: crate::client_message::ClientMessageView) -> Seq<
    u8,
> {
    match m {
        crate::client_message::ClientMessageView::Header(h) => spec_encode_any(
            spec_header_type_url(),
            spec_encode_header(h),
        ),
        crate::client_message::ClientMessageView::Misbehaviour(mi) => spec_encode_any(
            spec_misbehaviour_type_url(),
            spec_encode_misbehaviour(mi),
        ),
    }
}

/// Strict decode of a client message from its envelope: dispatches on the
/// registered type URLs; any other URL fails as an invalid update-client
/// message.
pub open spec fn spec_dec_client_message(bytes: Seq<u8>) -> Result<
    crate::client_message::ClientMessageView,
    ContractError,
> {
    match spec_dec_any(bytes) {
        Dec::Val((url, value), k) => {
            if k != bytes.len() {
                Err(ContractError::MalformedEncoding)
            } else if url == spec_header_type_url() {
                match spec_dec_header(value) {
                    Dec::Val(h, kk) => if kk == value.len() {
                        Ok(crate::client_message::ClientMessageView::Header(h))
                    } else {
                        Err(ContractError::MalformedEncoding)
                    },
                    Dec::Missing => Err(ContractError::MissingField),
                    Dec::Bad => Err(ContractError::MalformedEncoding),
                }
            } else if url == spec_misbehaviour_type_url() {
                match spec_dec_misbehaviour(value) {
                    Dec::Val(mi, kk) => if kk == value.len() {
                        Ok(crate::client_message::ClientMessageView::Misbehaviour(mi))
                    } else {
                        Err(ContractError::MalformedEncoding)
                    },
                    Dec::Missing => Err(ContractError::MissingField),
                    Dec::Bad => Err(ContractError::MalformedEncoding),
                }
            } else {
                Err(ContractError::InvalidUpdateClientMessage)
            }
        },
        Dec::Missing => Err(ContractError::MissingField),
        Dec::Bad => Err(ContractError::MalformedEncoding),
    }
}

impl crate::client_message::ClientMessage {
    /// Decodes a client message from an `Any` envelope's bytes.
    pub fn decode(value: Vec<u8>) -> (r: Result<
        crate::client_message::ClientMessage,
        ContractError,
    >)
        ensures
            match r {
                Ok(m) => spec_dec_client_message(value@) == Ok::<
                    crate::client_message::ClientMessageView,
                    ContractError,
                >(m@),
                Err(e) => spec_dec_client_message(value@) == Err::<
                    crate::client_message::ClientMessageView,
                    ContractError,
                >(e),
            },
    {
        let envelope = match decode_any(&value) {
            Ok(x) => x,
            Err(e) => {
                return Err(e);
            },
        };
        if crate::bytes::bytes_eq(&envelope.type_url, &header_type_url()) {
            match decode_header(&envelope.value) {
                Ok(h) => Ok(crate::client_message::ClientMessage::Header(h)),
                Err(e) => Err(e),
            }
        } else if crate::bytes::bytes_eq(&envelope.type_url, &misbehaviour_type_url()) {
            match decode_misbehaviour(&envelope.value) {
                Ok(mi) => Ok(crate::client_message::ClientMessage::Misbehaviour(mi)),
                Err(e) => Err(e),
            }
        } else {
            Err(ContractError::InvalidUpdateClientMessage)
        }
    }

    /// Encodes a client message into its `Any` envelope's bytes.
    pub fn encode(&self) -> (r: Vec<u8>)
        ensures
            r@ == spec_encode_client_message(self@),
    {
        match self {
            crate::client_message::ClientMessage::Header(h) => {
                let envelope = AnyEnvelope { type_url: header_type_url(), value: encode_header(h) };
                encode_any(&envelope)
            },
            crate::client_message::ClientMessage::Misbehaviour(mi) => {
                let envelope = AnyEnvelope {
                    type_url: misbehaviour_type_url(),
                    value: encode_misbehaviour(mi),
                };
                encode_any(&envelope)
            },
        }
    }
}

/// Decoding a client message's envelope inverts encoding it.
pub proof fn lemma_client_message_round_trip(m: crate::client_message::ClientMessageView)
    requires
        spec_encode_client_message(m).len() <= u64::MAX,
    ensures
        spec_dec_client_message(spec_encode_client_message(m)) == Ok::<
            crate::client_message::ClientMessageView,
            ContractError,
        >(m),
{
    lemma_type_urls_distinct();
    match m {
        crate::client_message::ClientMessageView::Header(h) => {
            let url = spec_header_type_url();
            let body = spec_encode_header(h);
            assert(url.len() <= u64::MAX && body.len() <= u64::MAX);
            lemma_any_round_trip(url, body);
            lemma_header_round_trip(h);
        },
        crate::client_message::ClientMessageView::Misbehaviour(mi) => {
            let url = spec_misbehaviour_type_url();
            let body = spec_encode_misbehaviour(mi);
            assert(url.len() <= u64::MAX && body.len() <= u64::MAX);
            lemma_any_round_trip(url, body);
            lemma_misbehaviour_round_trip(mi);
        },
    }
}

/// The envelope encoding of a client state, keyed by its type URL.
pub open spec fn spec_encode_client_state_any(v: crate::client_state::ClientStateView) -> Seq<
    u8,
> {
    spec_encode_any(spec_client_state_type_url(), spec_encode_client_state(v))
}

/// Strict decode of a client state from its envelope.
pub open spec fn spec_dec_client_state_any(bytes: Seq<u8>) -> Result<
    crate::client_state::ClientStateView,
    ContractError,
> {
    match spec_dec_any(bytes) {
        Dec::Val((url, value), k) => {
            if k != bytes.len() {
                Err(ContractError::MalformedEncoding)
            } else if url == spec_client_state_type_url() {
                match spec_dec_client_state(value) {
                    Dec::Val(v, kk) => if kk == value.len() {
                        Ok(v)
                    } else {
                        Err(ContractError::MalformedEncoding)
                    },
                    Dec::Missing => Err(ContractError::MissingField),
                    Dec::Bad => Err(ContractError::MalformedEncoding),
                }
            } else {
                Err(ContractError::UnknownTypeUrl)
            }
        },
        Dec::Missing => Err(ContractError::MissingField),
        Dec::Bad => Err(ContractError::MalformedEncoding),
    }
}

/// Decodes a client state from an `Any` envelope's bytes.
pub fn decode_client_state_any(bytes: &Vec<u8>) -> (r: Result<
    crate::client_state::ClientState,
    ContractError,
>)
    ensures
        match r {
            Ok(v) => spec_dec_client_state_any(bytes@) == Ok::<
                crate::client_state::ClientStateView,
                ContractError,
            >(v@),
            Err(e) => spec_dec_client_state_any(bytes@) == Err::<
                crate::client_state::ClientStateView,
                ContractError,
            >(e),
        },
{
    let envelope = match decode_any(bytes) {
        Ok(x) => x,
        Err(e) => {
            return Err(e);
        },
    };
    if crate::bytes::bytes_eq(&envelope.type_url, &client_state_type_url()) {
        decode_client_state(&envelope.value)
    } else {
        Err(ContractError::UnknownTypeUrl)
    }
}

/// Encodes a client state into its `Any` envelope's bytes.
pub fn encode_client_state_any(v: &crate::client_state::ClientState) -> (r: Vec<u8>)
    ensures
        r@ == spec_encode_client_state_any(v@),
{
    let envelope = AnyEnvelope { type_url: client_state_type_url(), value: encode_client_state(v) };
    encode_any(&envelope)
}

/// Decoding a client state's envelope inverts encoding it.
pub proof fn lemma_client_state_any_round_trip(v: crate::client_state::ClientStateView)
    requires
        spec_encode_client_state_any(v).len() <= u64::MAX,
    ensures
        spec_dec_client_state_any(spec_encode_client_state_any(v)) == Ok::<
            crate::client_state::ClientStateView,
            ContractError,
        >(v),
{
    let url = spec_client_state_type_url();
    let body = spec_encode_client_state(v);
    assert(url.len() <= u64::MAX && body.len() <= u64::MAX);
    lemma_any_round_trip(url, body);
    lemma_client_state_round_trip(v);
}

/// The envelope encoding of a consensus state, keyed by its type URL.
pub open spec fn spec_encode_consensus_state_any(
    v: crate::consensus_state::ConsensusStateView,
) -> Seq<u8> {
    spec_encode_any(spec_consensus_state_type_url(), spec_encode_consensus_state(v))
}

/// Strict decode of a consensus state from its envelope; any other type
/// URL is rejected as an unknown consensus-state type.
pub open spec fn spec_dec_consensus_state_any(bytes: Seq<u8>) -> Result<
    crate::consensus_state::ConsensusStateView,
    ContractError,
> {
    match spec_dec_any(bytes) {
        Dec::Val((url, value), k) => {
            if k != bytes.len() {
                Err(ContractError::MalformedEncoding)
            } else if url == spec_consensus_state_type_url() {
                match spec_dec_consensus_state(value) {
                    Dec::Val(v, kk) => if kk == value.len() {
                        Ok(v)
                    } else {
                        Err(ContractError::MalformedEncoding)
                    },
                    Dec::Missing => Err(ContractError::MissingField),
                    Dec::Bad => Err(ContractError::MalformedEncoding),
                }
            } else {
                Err(ContractError::UnknownConsensusStateType)
            }
        },
        Dec::Missing => Err(ContractError::MissingField),
        Dec::Bad => Err(ContractError::MalformedEncoding),
    }
}

/// Decodes a consensus state from an `Any` envelope's bytes; an envelope
/// of any other registered type fails with `UnknownConsensusStateType`.
pub fn decode_consensus_state_any(bytes: &Vec<u8>) -> (r: Result<
    crate::consensus_state::AnyConsensusState,
    ContractError,
>)
    ensures
        match r {
            Ok(v) => spec_dec_consensus_state_any(bytes@) == Ok::<
                crate::consensus_state::ConsensusStateView,
                ContractError,
            >(v@),
            Err(e) => spec_dec_consensus_state_any(bytes@) == Err::<
                crate::consensus_state::ConsensusStateView,
                ContractError,
            >(e),
        },
{
    let envelope = match decode_any(bytes) {
        Ok(x) => x,
        Err(e) => {
            return Err(e);
        },
    };
    if crate::bytes::bytes_eq(&envelope.type_url, &consensus_state_type_url()) {
        match decode_consensus_state(&envelope.value) {
            Ok(cs) => Ok(crate::consensus_state::AnyConsensusState::Rollkit(cs)),
            Err(e) => Err(e),
        }
    } else {
        Err(ContractError::UnknownConsensusStateType)
    }
}

/// Encodes a consensus state into its `Any` envelope's bytes.
pub fn encode_consensus_state_any(v: &crate::consensus_state::AnyConsensusState) -> (r: Vec<u8>)
    ensures
        r@ == spec_encode_consensus_state_any(v@),
{
    match v {
        crate::consensus_state::AnyConsensusState::Rollkit(cs) => {
            let envelope = AnyEnvelope {
                type_url: consensus_state_type_url(),
                value: encode_consensus_state(cs),
            };
            encode_any(&envelope)
        },
    }
}

/// Decoding a consensus state's envelope inverts encoding it.
pub proof fn lemma_consensus_state_any_round_trip(
    v: crate::consensus_state::ConsensusStateView,
)
    requires
        spec_encode_consensus_state_any(v).len() <= u64::MAX,
    ensures
        spec_dec_consensus_state_any(spec_encode_consensus_state_any(v)) == Ok::<
            crate::consensus_state::ConsensusStateView,
            ContractError,
        >(v),
{
    let url = spec_consensus_state_type_url();
    let body = spec_encode_consensus_state(v);
    assert(url.len() <= u64::MAX && body.len() <= u64::MAX);
    lemma_any_round_trip(url, body);
    lemma_consensus_state_round_trip(v);
}

} // verus!
