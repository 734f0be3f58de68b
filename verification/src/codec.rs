//! The context codec: serializes an [`ExecutionContext`] into one compact,
//! self-contained byte buffer that fits a single transport message, and
//! reconstructs a context from such a buffer, rejecting truncated, malformed
//! or internally inconsistent input.
//!
//! Wire layout, with every length a little-endian `u32`:
//! a length-prefixed UTF-8 string for the working directory, one for the
//! command, then the argument count followed by one length-prefixed string
//! per argument, then the environment-pair count followed by two
//! length-prefixed strings (key, value) per pair.
use vstd::prelude::*;
use crate::context::{ContextView, ExecutionContext};
use vstd::utf8::{encode_utf8, decode_utf8, valid_utf8};
use vstd::string::StrSliceExecFns;
use vstd::slice::slice_subrange;

verus! {

/// Largest serialized context the transport carries in one message, in bytes.
pub const MAX_PAYLOAD: usize = 16384;

/// Why the codec refused an input.
#[derive(Debug, Clone, Copy, PartialEq, Eq, Structural)]
pub enum CodecError {
    /// Serialization: the encoded context exceeds [`MAX_PAYLOAD`] bytes.
    TooLarge,
    /// Deserialization: the buffer is truncated, not valid UTF-8 where a
    /// string is declared, or inconsistent with its declared lengths.
    Malformed,
}

/// The four little-endian bytes of `n`.
pub open spec fn u32_le(n: u32) -> Seq<u8> {
    seq![
        (n % 256) as u8,
        ((n / 256) % 256) as u8,
        ((n / 65536) % 256) as u8,
        ((n / 16777216) % 256) as u8,
    ]
}

/// The value of four little-endian bytes.
pub open spec fn le_val(b: Seq<u8>) -> u32
    recommends
        b.len() == 4,
{
    ((b[0] as int) + 256 * (b[1] as int) + 65536 * (b[2] as int) + 16777216 * (b[3] as int)) as u32
}

/// A length-prefixed UTF-8 string: the byte length, then the bytes.
pub open spec fn enc_str(s: Seq<char>) -> Seq<u8> {
    u32_le(encode_utf8(s).len() as u32) + encode_utf8(s)
}

/// The concatenated encodings of a list of strings, in order.
pub open spec fn enc_str_list(v: Seq<Seq<char>>) -> Seq<u8>
    decreases v.len(),
{
    if v.len() == 0 {
        Seq::<u8>::empty()
    } else {
        enc_str(v[0]) + enc_str_list(v.drop_first())
    }
}

/// The concatenated encodings of a list of (key, value) pairs, in order.
pub open spec fn enc_pair_list(v: Seq<(Seq<char>, Seq<char>)>) -> Seq<u8>
    decreases v.len(),
{
    if v.len() == 0 {
        Seq::<u8>::empty()
    } else {
        enc_str(v[0].0) + enc_str(v[0].1) + enc_pair_list(v.drop_first())
    }
}

/// The full wire encoding of a context.
pub open spec fn enc_ctx(c: ContextView) -> Seq<u8> {
    enc_str(c.working_dir) + enc_str(c.command) + u32_le(c.args.len() as u32) + enc_str_list(
        c.args,
    ) + u32_le(c.env.len() as u32) + enc_pair_list(c.env)
}

/// Reads a `u32` off the front of the buffer; fails on fewer than 4 bytes.
pub open spec fn dec_u32(b: Seq<u8>) -> Option<(u32, Seq<u8>)> {
    if b.len() >= 4 {
        Some((le_val(b.take(4)), b.skip(4)))
    } else {
        None
    }
}

/// Reads one length-prefixed UTF-8 string off the front of the buffer.
pub open spec fn dec_str(b: Seq<u8>) -> Option<(Seq<char>, Seq<u8>)> {
    match dec_u32(b) {
        Some((n, rest)) => if rest.len() >= n && valid_utf8(rest.take(n as int)) {
            Some((decode_utf8(rest.take(n as int)), rest.skip(n as int)))
        } else {
            None
        },
        None => None,
    }
}

/// Reads `n` length-prefixed strings off the front of the buffer.
pub open spec fn dec_str_list(b: Seq<u8>, n: nat) -> Option<(Seq<Seq<char>>, Seq<u8>)>
    decreases n,
{
    if n == 0 {
        Some((Seq::<Seq<char>>::empty(), b))
    } else {
        match dec_str(b) {
            Some((s, rest)) => match dec_str_list(rest, (n - 1) as nat) {
                Some((v, rest2)) => Some((seq![s] + v, rest2)),
                None => None,
            },
            None => None,
        }
    }
}

/// Reads `n` (key, value) string pairs off the front of the buffer.
pub open spec fn dec_pair_list(b: Seq<u8>, n: nat) -> Option<
    (Seq<(Seq<char>, Seq<char>)>, Seq<u8>),
>
    decreases n,
{
    if n == 0 {
        Some((Seq::<(Seq<char>, Seq<char>)>::empty(), b))
    } else {
        match dec_str(b) {
            Some((k, rest)) => match dec_str(rest) {
                Some((val, rest2)) => match dec_pair_list(rest2, (n - 1) as nat) {
                    Some((v, rest3)) => Some((seq![(k, val)] + v, rest3)),
                    None => None,
                },
                None => None,
            },
            None => None,
        }
    }
}

/// Parses a whole buffer as one context; fails unless every field parses and
/// the buffer holds nothing beyond the encoding.
pub open spec fn dec_ctx(b: Seq<u8>) -> Option<ContextView> {
    match dec_str(b) {
        Some((wd, r1)) => match dec_str(r1) {
            Some((cmd, r2)) => match dec_u32(r2) {
                Some((na, r3)) => match dec_str_list(r3, na as nat) {
                    Some((args, r4)) => match dec_u32(r4) {
                        Some((ne, r5)) => match dec_pair_list(r5, ne as nat) {
                            Some((env, r6)) => if r6.len() == 0 {
                                Some(ContextView { working_dir: wd, command: cmd, args, env })
                            } else {
                                None
                            },
                            None => None,
                        },
                        None => None,
                    },
                    None => None,
                },
                None => None,
            },
            None => None,
        },
        None => None,
    }
}

/// The little-endian bytes of a `u32` read back as the same value.
proof fn lemma_le_roundtrip(n: u32)
    ensures
        u32_le(n).len() == 4,
        le_val(u32_le(n)) == n,
{
    assert(n == (n % 256) + 256 * ((n / 256) % 256) + 65536 * ((n / 65536) % 256) + 16777216 * ((n
        / 16777216) % 256)) by (nonlinear_arith);
}

/// Prefixing four length bytes and reading them back yields the value and the rest.
proof fn lemma_dec_u32(n: u32, rest: Seq<u8>)
    ensures
        dec_u32(u32_le(n) + rest) == Some((n, rest)),
{
    lemma_le_roundtrip(n);
    let b = u32_le(n) + rest;
    assert(b.take(4) =~= u32_le(n));
    assert(b.skip(4) =~= rest);
}

/// An encoded string reads back as the same characters, leaving the rest.
proof fn lemma_dec_str(s: Seq<char>, rest: Seq<u8>)
    requires
        encode_utf8(s).len() < 0x1_0000_0000,
    ensures
        dec_str(enc_str(s) + rest) == Some((s, rest)),
{
    let b = encode_utf8(s);
    let n: u32 = b.len() as u32;
    assert(enc_str(s) + rest =~= u32_le(n) + (b + rest));
    lemma_dec_u32(n, b + rest);
    assert((b + rest).take(n as int) =~= b);
    assert((b + rest).skip(n as int) =~= rest);
    vstd::utf8::encode_utf8_valid_utf8(s);
    vstd::utf8::encode_utf8_decode_utf8(s);
}

/// Every string of a list contributes at least its length prefix, and each
/// element's UTF-8 bytes are contained in the list's encoding.
proof fn lemma_enc_str_list_len(v: Seq<Seq<char>>)
    ensures
        enc_str_list(v).len() >= 4 * v.len(),
        forall|i: int|
            0 <= i < v.len() ==> encode_utf8(#[trigger] v[i]).len() <= enc_str_list(v).len(),
    decreases v.len(),
{
    if v.len() > 0 {
        lemma_enc_str_list_len(v.drop_first());
        assert forall|i: int|
            0 <= i < v.len() implies encode_utf8(#[trigger] v[i]).len() <= enc_str_list(
            v,
        ).len() by {
            if i > 0 {
                assert(v.drop_first()[i - 1] == v[i]);
            }
        }
    }
}

/// Every pair of a list contributes at least its two length prefixes, and
/// each component's UTF-8 bytes are contained in the list's encoding.
proof fn lemma_enc_pair_list_len(v: Seq<(Seq<char>, Seq<char>)>)
    ensures
        enc_pair_list(v).len() >= 8 * v.len(),
        forall|i: int|
            0 <= i < v.len() ==> encode_utf8((#[trigger] v[i]).0).len() <= enc_pair_list(v).len()
                && encode_utf8(v[i].1).len() <= enc_pair_list(v).len(),
    decreases v.len(),
{
    if v.len() > 0 {
        lemma_enc_pair_list_len(v.drop_first());
        assert forall|i: int|
            0 <= i < v.len() implies encode_utf8((#[trigger] v[i]).0).len() <= enc_pair_list(
            v,
        ).len() && encode_utf8(v[i].1).len() <= enc_pair_list(v).len() by {
            if i > 0 {
                assert(v.drop_first()[i - 1] == v[i]);
            }
        }
    }
}

/// An encoded string list reads back as the same strings, leaving the rest.
proof fn lemma_dec_str_list(v: Seq<Seq<char>>, rest: Seq<u8>)
    requires
        forall|i: int| 0 <= i < v.len() ==> encode_utf8(#[trigger] v[i]).len() < 0x1_0000_0000,
    ensures
        dec_str_list(enc_str_list(v) + rest, v.len()) == Some((v, rest)),
    decreases v.len(),
{
    if v.len() == 0 {
        assert(enc_str_list(v) + rest =~= rest);
    } else {
        let tail = v.drop_first();
        assert(enc_str_list(v) + rest =~= enc_str(v[0]) + (enc_str_list(tail) + rest));
        lemma_dec_str(v[0], enc_str_list(tail) + rest);
        assert(forall|i: int|
            0 <= i < tail.len() ==> encode_utf8(#[trigger] tail[i]).len() < 0x1_0000_0000);
        lemma_dec_str_list(tail, rest);
        assert(seq![v[0]] + tail =~= v);
    }
}

/// An encoded pair list reads back as the same pairs, leaving the rest.
#[verifier::rlimit(60)]
proof fn lemma_dec_pair_list(v: Seq<(Seq<char>, Seq<char>)>, rest: Seq<u8>)
    requires
        forall|i: int|
            0 <= i < v.len() ==> encode_utf8((#[trigger] v[i]).0).len() < 0x1_0000_0000
                && encode_utf8(v[i].1).len() < 0x1_0000_0000,
    ensures
        dec_pair_list(enc_pair_list(v) + rest, v.len()) == Some((v, rest)),
    decreases v.len(),
{
    if v.len() == 0 {
        assert(enc_pair_list(v) + rest =~= rest);
    } else {
        let tail = v.drop_first();
        assert(enc_pair_list(v) + rest =~= enc_str(v[0].0) + (enc_str(v[0].1) + (enc_pair_list(
            tail,
        ) + rest)));
        lemma_dec_str(v[0].0, enc_str(v[0].1) + (enc_pair_list(tail) + rest));
        lemma_dec_str(v[0].1, enc_pair_list(tail) + rest);
        assert(forall|i: int|
            0 <= i < tail.len() ==> encode_utf8((#[trigger] tail[i]).0).len() < 0x1_0000_0000
                && encode_utf8(tail[i].1).len() < 0x1_0000_0000);
        lemma_dec_pair_list(tail, rest);
        assert(seq![v[0]] + tail =~= v);
    }
}

/// Round trip: decoding the encoding of any context that fits the transport
/// capacity yields exactly that context — every field, in original order.
#[verifier::rlimit(60)]
pub proof fn lemma_codec_round_trip(c: ContextView)
    requires
        enc_ctx(c).len() <= MAX_PAYLOAD as int,
    ensures
        dec_ctx(enc_ctx(c)) == Some(c),
{
    let a = enc_str(c.working_dir);
    let b = enc_str(c.command);
    let na = u32_le(c.args.len() as u32);
    let d = enc_str_list(c.args);
    let ne = u32_le(c.env.len() as u32);
    let f = enc_pair_list(c.env);
    lemma_enc_str_list_len(c.args);
    lemma_enc_pair_list_len(c.env);
    assert(enc_ctx(c).len() == a.len() + b.len() + na.len() + d.len() + ne.len() + f.len());

    assert(enc_ctx(c) =~= a + (b + (na + (d + (ne + (f + Seq::<u8>::empty()))))));
    lemma_dec_str(c.working_dir, b + (na + (d + (ne + (f + Seq::<u8>::empty())))));
    lemma_dec_str(c.command, na + (d + (ne + (f + Seq::<u8>::empty()))));
    lemma_dec_u32(c.args.len() as u32, d + (ne + (f + Seq::<u8>::empty())));
    assert(c.args.len() as u32 as nat == c.args.len());
    lemma_dec_str_list(c.args, ne + (f + Seq::<u8>::empty()));
    lemma_dec_u32(c.env.len() as u32, f + Seq::<u8>::empty());
    assert(c.env.len() as u32 as nat == c.env.len());
    lemma_dec_pair_list(c.env, Seq::<u8>::empty());
    assert(dec_ctx(enc_ctx(c)) == Some(
        ContextView {
            working_dir: c.working_dir,
            command: c.command,
            args: c.args,
            env: c.env,
        },
    ));
    assert(ContextView {
        working_dir: c.working_dir,
        command: c.command,
        args: c.args,
        env: c.env,
    } =~= c);
}

/// Appending one string's encoding at the end of a list's encoding.
proof fn lemma_enc_str_list_snoc(v: Seq<Seq<char>>, s: Seq<char>)
    ensures
        enc_str_list(v.push(s)) == enc_str_list(v) + enc_str(s),
    decreases v.len(),
{
    if v.len() == 0 {
        assert(v.push(s)[0] == s);
        assert(v.push(s).drop_first() =~= v);
        assert(enc_str_list(v.push(s)) =~= enc_str_list(v) + enc_str(s));
    } else {
        assert(v.push(s)[0] == v[0]);
        assert(v.push(s).drop_first() =~= v.drop_first().push(s));
        lemma_enc_str_list_snoc(v.drop_first(), s);
        assert(enc_str_list(v.push(s)) =~= enc_str_list(v) + enc_str(s));
    }
}

/// Appending one pair's encoding at the end of a pair list's encoding.
proof fn lemma_enc_pair_list_snoc(v: Seq<(Seq<char>, Seq<char>)>, p: (Seq<char>, Seq<char>))
    ensures
        enc_pair_list(v.push(p)) == enc_pair_list(v) + enc_str(p.0) + enc_str(p.1),
    decreases v.len(),
{
    if v.len() == 0 {
        assert(v.push(p)[0] == p);
        assert(v.push(p).drop_first() =~= v);
        assert(enc_pair_list(v.push(p)) =~= enc_pair_list(v) + enc_str(p.0) + enc_str(p.1));
    } else {
        assert(v.push(p)[0] == v[0]);
        assert(v.push(p).drop_first() =~= v.drop_first().push(p));
        lemma_enc_pair_list_snoc(v.drop_first(), p);
        assert(enc_pair_list(v.push(p)) =~= enc_pair_list(v) + enc_str(p.0) + enc_str(p.1));
    }
}

/// Relies on str::from_utf8: it succeeds exactly on valid UTF-8 byte
/// sequences, and the returned slice consists of the characters the bytes
/// encode.
#[verifier::external_body]
fn bytes_to_str(b: &[u8]) -> (r: Option<&str>)
    ensures
        r is Some <==> valid_utf8(b@),
        r matches Some(s) ==> s@ == decode_utf8(b@),
{
    core::str::from_utf8(b).ok()
}

/// Appends the four little-endian bytes of `n`.
fn push_u32(out: &mut Vec<u8>, n: u32)
    ensures
        final(out)@ == old(out)@ + u32_le(n),
{
    out.push((n % 256) as u8);
    out.push(((n / 256) % 256) as u8);
    out.push(((n / 65536) % 256) as u8);
    out.push(((n / 16777216) % 256) as u8);
    proof {
        assert(out@ =~= old(out)@ + u32_le(n));
    }
}

/// Appends one length-prefixed string, or fails when the string alone
/// already exceeds the transport capacity.
fn write_str(out: &mut Vec<u8>, s: &String) -> (r: Result<(), CodecError>)
    ensures
        match r {
            Ok(u) => final(out)@ == old(out)@ + enc_str(s@),
            Err(e) => e == CodecError::TooLarge && encode_utf8(s@).len() > MAX_PAYLOAD as int
                && final(out)@ == old(out)@,
        },
{
    let bytes = s.as_str().as_bytes_vec();
    if bytes.len() > MAX_PAYLOAD {
        return Err(CodecError::TooLarge);
    }
    push_u32(out, bytes.len() as u32);
    out.extend_from_slice(bytes.as_slice());
    proof {
        assert(out@ =~= old(out)@ + enc_str(s@));
    }
    Ok(())
}

impl ExecutionContext {
    /// Serializes this context into its wire encoding. The result fits in
    /// one transport message; an encoding over [`MAX_PAYLOAD`] bytes is a
    /// hard failure, never a truncation.
    pub fn serialize(&self) -> (r: Result<Vec<u8>, CodecError>)
        ensures
            match r {
                Ok(b) => b@ == enc_ctx(self@) && b@.len() <= MAX_PAYLOAD as int,
                Err(e) => e == CodecError::TooLarge && enc_ctx(self@).len() > MAX_PAYLOAD as int,
            },
    {
        let ghost c = self@;
        let mut out: Vec<u8> = Vec::new();
        match write_str(&mut out, &self.working_dir) {
            Err(e) => {
                return Err(e);
            },
            Ok(u) => {},
        }
        match write_str(&mut out, &self.command) {
            Err(e) => {
                return Err(e);
            },
            Ok(u) => {},
        }
        if self.args.len() > MAX_PAYLOAD {
            proof {
                lemma_enc_str_list_len(c.args);
            }
            return Err(CodecError::TooLarge);
        }
        push_u32(&mut out, self.args.len() as u32);
        let ghost args_base = out@;
        let mut i: usize = 0;
        while i < self.args.len()
            invariant
                i <= self.args.len(),
                self.args.len() <= MAX_PAYLOAD,
                c == self@,
                out@ == args_base + enc_str_list(c.args.take(i as int)),
            decreases self.args.len() - i,
        {
            match write_str(&mut out, &self.args[i]) {
                Err(e) => {
                    proof {
                        lemma_enc_str_list_len(c.args);
                        assert(c.args[i as int] == self.args[i as int]@);
                    }
                    return Err(e);
                },
                Ok(u) => {},
            }
            proof {
                lemma_enc_str_list_snoc(c.args.take(i as int), c.args[i as int]);
                assert(c.args.take(i as int).push(c.args[i as int]) =~= c.args.take(i + 1));
            }
            i += 1;
        }
        proof {
            assert(c.args.take(self.args.len() as int) =~= c.args);
        }
        if self.env.len() > MAX_PAYLOAD {
            proof {
                lemma_enc_pair_list_len(c.env);
            }
            return Err(CodecError::TooLarge);
        }
        push_u32(&mut out, self.env.len() as u32);
        let ghost env_base = out@;
        let mut j: usize = 0;
        while j < self.env.len()
            invariant
                j <= self.env.len(),
                self.env.len() <= MAX_PAYLOAD,
                c == self@,
                out@ == env_base + enc_pair_list(c.env.take(j as int)),
            decreases self.env.len() - j,
        {
            proof {
                assert(c.env[j as int] == (self.env[j as int].0@, self.env[j as int].1@));
            }
            match write_str(&mut out, &self.env[j].0) {
                Err(e) => {
                    proof {
                        lemma_enc_pair_list_len(c.env);
                    }
                    return Err(e);
                },
                Ok(u) => {},
            }
            match write_str(&mut out, &self.env[j].1) {
                Err(e) => {
                    proof {
                        lemma_enc_pair_list_len(c.env);
                    }
                    return Err(e);
                },
                Ok(u) => {},
            }
            proof {
                lemma_enc_pair_list_snoc(c.env.take(j as int), c.env[j as int]);
                assert(c.env.take(j as int).push(c.env[j as int]) =~= c.env.take(j + 1));
                assert(out@ =~= env_base + enc_pair_list(c.env.take(j + 1)));
            }
            j += 1;
        }
        proof {
            assert(c.env.take(self.env.len() as int) =~= c.env);
            assert(out@ =~= enc_ctx(c));
        }
        if out.len() > MAX_PAYLOAD {
            return Err(CodecError::TooLarge);
        }
        Ok(out)
    }
}

/// Reads four little-endian length bytes at `pos`.
fn read_u32(bytes: &Vec<u8>, pos: usize) -> (r: Option<(u32, usize)>)
    requires
        pos <= bytes@.len(),
    ensures
        match r {
            Some(p) => pos <= p.1 <= bytes@.len() && dec_u32(bytes@.skip(pos as int)) == Some(
                (p.0, bytes@.skip(p.1 as int)),
            ),
            None => dec_u32(bytes@.skip(pos as int)) is None,
        },
{
    if bytes.len() - pos >= 4 {
        let b0 = bytes[pos] as u32;
        let b1 = bytes[pos + 1] as u32;
        let b2 = bytes[pos + 2] as u32;
        let b3 = bytes[pos + 3] as u32;
        let n = b0 + 256 * b1 + 65536 * b2 + 16777216 * b3;
        proof {
            let s = bytes@.skip(pos as int);
            assert(s.take(4)[0] == bytes@[pos as int]);
            assert(s.take(4)[1] == bytes@[pos as int + 1]);
            assert(s.take(4)[2] == bytes@[pos as int + 2]);
            assert(s.take(4)[3] == bytes@[pos as int + 3]);
            assert(s.skip(4) =~= bytes@.skip(pos as int + 4));
        }
        Some((n, pos + 4))
    } else {
        None
    }
}

/// Reads one length-prefixed UTF-8 string at `pos`.
fn read_str(bytes: &Vec<u8>, pos: usize) -> (r: Option<(String, usize)>)
    requires
        pos <= bytes@.len(),
    ensures
        match r {
            Some(p) => pos <= p.1 <= bytes@.len() && dec_str(bytes@.skip(pos as int)) == Some(
                (p.0@, bytes@.skip(p.1 as int)),
            ),
            None => dec_str(bytes@.skip(pos as int)) is None,
        },
{
    match read_u32(bytes, pos) {
        None => None,
        Some((n, p1)) => {
            if (n as usize) > bytes.len() - p1 {
                None
            } else {
                let p2 = p1 + (n as usize);
                let sl = slice_subrange(bytes.as_slice(), p1, p2);
                proof {
                    assert(sl@ =~= bytes@.skip(p1 as int).take(n as int));
                }
                match bytes_to_str(sl) {
                    None => None,
                    Some(st) => {
                        let s = st.to_owned();
                        proof {
                            assert(bytes@.skip(p1 as int).skip(n as int) =~= bytes@.skip(
                                p2 as int,
                            ));
                        }
                        Some((s, p2))
                    },
                }
            }
        },
    }
}

/// Reads `count` length-prefixed strings starting at `pos`.
fn read_str_list(bytes: &Vec<u8>, pos: usize, count: u32) -> (r: Option<(Vec<String>, usize)>)
    requires
        pos <= bytes@.len(),
    ensures
        match r {
            Some(p) => pos <= p.1 <= bytes@.len() && dec_str_list(
                bytes@.skip(pos as int),
                count as nat,
            ) == Some((p.0.deep_view(), bytes@.skip(p.1 as int))),
            None => dec_str_list(bytes@.skip(pos as int), count as nat) is None,
        },
{
    let mut acc: Vec<String> = Vec::new();
    let mut p = pos;
    let mut i: u32 = 0;
    while i < count
        invariant
            i <= count,
            pos <= p <= bytes@.len(),
            match dec_str_list(bytes@.skip(p as int), (count - i) as nat) {
                Some(q) => dec_str_list(bytes@.skip(pos as int), count as nat) == Some(
                    (acc.deep_view() + q.0, q.1),
                ),
                None => dec_str_list(bytes@.skip(pos as int), count as nat) is None,
            },
        decreases count - i,
    {
        let ghost acc0 = acc.deep_view();
        match read_str(bytes, p) {
            None => {
                return None;
            },
            Some((s, p2)) => {
                acc.push(s);
                proof {
                    assert(acc.deep_view() =~= acc0.push(s@));
                    match dec_str_list(bytes@.skip(p2 as int), (count - i - 1) as nat) {
                        Some(q) => {
                            assert(acc0 + (seq![s@] + q.0) =~= acc0.push(s@) + q.0);
                        },
                        None => {},
                    }
                }
                p = p2;
                i += 1;
            },
        }
    }
    proof {
        assert(acc.deep_view() + Seq::<Seq<char>>::empty() =~= acc.deep_view());
    }
    Some((acc, p))
}

/// The pair view of an environment list: each entry as its two character
/// sequences, in order.
pub open spec fn pairs_view(v: Seq<(String, String)>) -> Seq<(Seq<char>, Seq<char>)> {
    v.map_values(|p: (String, String)| (p.0@, p.1@))
}

/// Reads `count` (key, value) string pairs starting at `pos`.
fn read_pair_list(bytes: &Vec<u8>, pos: usize, count: u32) -> (r: Option<
    (Vec<(String, String)>, usize),
>)
    requires
        pos <= bytes@.len(),
    ensures
        match r {
            Some(p) => pos <= p.1 <= bytes@.len() && dec_pair_list(
                bytes@.skip(pos as int),
                count as nat,
            ) == Some((pairs_view(p.0@), bytes@.skip(p.1 as int))),
            None => dec_pair_list(bytes@.skip(pos as int), count as nat) is None,
        },
{
    let mut acc: Vec<(String, String)> = Vec::new();
    let mut p = pos;
    let mut i: u32 = 0;
    while i < count
        invariant
            i <= count,
            pos <= p <= bytes@.len(),
            match dec_pair_list(bytes@.skip(p as int), (count - i) as nat) {
                Some(q) => dec_pair_list(bytes@.skip(pos as int), count as nat) == Some(
                    (pairs_view(acc@) + q.0, q.1),
                ),
                None => dec_pair_list(bytes@.skip(pos as int), count as nat) is None,
            },
        decreases count - i,
    {
        let ghost acc0 = pairs_view(acc@);
        match read_str(bytes, p) {
            None => {
                return None;
            },
            Some((k, p2)) => {
                match read_str(bytes, p2) {
                    None => {
                        return None;
                    },
                    Some((val, p3)) => {
                        let ghost kk = k@;
                        let ghost vv = val@;
                        acc.push((k, val));
                        proof {
                            assert(pairs_view(acc@) =~= acc0.push((kk, vv)));
                            match dec_pair_list(bytes@.skip(p3 as int), (count - i - 1) as nat) {
                                Some(q) => {
                                    assert(acc0 + (seq![(kk, vv)] + q.0) =~= acc0.push((kk, vv))
                                        + q.0);
                                },
                                None => {},
                            }
                        }
                        p = p3;
                        i += 1;
                    },
                }
            },
        }
    }
    proof {
        assert(pairs_view(acc@) + Seq::<(Seq<char>, Seq<char>)>::empty() =~= pairs_view(acc@));
    }
    Some((acc, p))
}

/// Reconstructs a context from one wire buffer. Succeeds exactly on buffers
/// that are a whole, well-formed encoding; a truncated, malformed or
/// internally inconsistent buffer is rejected, never partially decoded.
pub fn deserialize(bytes: &Vec<u8>) -> (r: Result<ExecutionContext, CodecError>)
    ensures
        match r {
            Ok(c) => dec_ctx(bytes@) == Some(c@),
            Err(e) => e == CodecError::Malformed && dec_ctx(bytes@) is None,
        },
{
    proof {
        assert(bytes@.skip(0) =~= bytes@);
    }
    let wd = match read_str(bytes, 0) {
        None => {
            return Err(CodecError::Malformed);
        },
        Some(x) => x,
    };
    let cmd = match read_str(bytes, wd.1) {
        None => {
            return Err(CodecError::Malformed);
        },
        Some(x) => x,
    };
    let na = match read_u32(bytes, cmd.1) {
        None => {
            return Err(CodecError::Malformed);
        },
        Some(x) => x,
    };
    let args = match read_str_list(bytes, na.1, na.0) {
        None => {
            return Err(CodecError::Malformed);
        },
        Some(x) => x,
    };
    let ne = match read_u32(bytes, args.1) {
        None => {
            return Err(CodecError::Malformed);
        },
        Some(x) => x,
    };
    let env = match read_pair_list(bytes, ne.1, ne.0) {
        None => {
            return Err(CodecError::Malformed);
        },
        Some(x) => x,
    };
    if env.1 != bytes.len() {
        return Err(CodecError::Malformed);
    }
    let c = ExecutionContext { working_dir: wd.0, command: cmd.0, args: args.0, env: env.0 };
    proof {
        assert(bytes@.skip(env.1 as int).len() == 0);
    }
    Ok(c)
}

} // verus!
