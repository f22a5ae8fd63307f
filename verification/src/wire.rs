use vstd::prelude::*;

use vstd::bytes::{lemma_auto_spec_u32_to_from_le_bytes, lemma_auto_spec_u64_to_from_le_bytes,
    spec_u32_from_le_bytes, spec_u32_to_le_bytes, spec_u64_from_le_bytes, spec_u64_to_le_bytes,
    u32_from_le_bytes, u32_to_le_bytes, u64_from_le_bytes, u64_to_le_bytes};
use vstd::slice::{slice_subrange, slice_to_vec};
use vstd::string::{StrSliceExecFns, StringSliceAdditionalSpecFns};
use vstd::utf8::{decode_utf8, encode_utf8, encode_utf8_decode_utf8, encode_utf8_valid_utf8,
    valid_utf8};

use crate::codes::SUCCESS_CODE;
use crate::collaborators::string_from_utf8;
use crate::envelope::ApiResponse;

verus! {

// The wire form of an envelope frames its three fields one after the
// other: the code as a sign byte and a four-byte little-endian
// magnitude, then each optional text as a presence byte, an eight-byte
// little-endian byte count, and that many bytes of UTF-8. Length
// prefixes need no escaping, so decoding is exact.

/// The characters of an optional string.
pub open spec fn opt_chars(s: Option<String>) -> Option<Seq<char>> {
    match s {
        None => None,
        Some(x) => Some(x@),
    }
}

/// Wire form of the envelope code.
pub open spec fn wire_code(v: i32) -> Seq<u8> {
    if v >= 0 {
        seq![0u8] + spec_u32_to_le_bytes(v as u32)
    } else {
        seq![1u8] + spec_u32_to_le_bytes((0 - v as int) as u32)
    }
}

/// Wire form of an optional text field.
pub open spec fn wire_opt(s: Option<Seq<char>>) -> Seq<u8> {
    match s {
        None => seq![0u8],
        Some(cs) => seq![1u8] + spec_u64_to_le_bytes(encode_utf8(cs).len() as u64) + encode_utf8(
            cs,
        ),
    }
}

/// Wire form of a whole envelope.
pub open spec fn wire_spec(code: i32, data: Option<Seq<char>>, message: Option<Seq<char>>) -> Seq<
    u8,
> {
    wire_code(code) + wire_opt(data) + wire_opt(message)
}

/// Read an envelope code off the front of a wire; also yields the rest.
pub open spec fn parse_code(b: Seq<u8>) -> Option<(i32, Seq<u8>)> {
    if b.len() < 5 {
        None
    } else {
        let mag = spec_u32_from_le_bytes(b.subrange(1, 5));
        let rest = b.skip(5);
        if b[0] == 0 && mag <= i32::MAX as u32 {
            Some((mag as i32, rest))
        } else if b[0] == 1 && 1 <= mag && mag <= 0x8000_0000u32 {
            Some(((0 - mag as int) as i32, rest))
        } else {
            None
        }
    }
}

/// Read an optional text field off the front of a wire.
pub open spec fn parse_opt(b: Seq<u8>) -> Option<(Option<Seq<char>>, Seq<u8>)> {
    if b.len() < 1 {
        None
    } else if b[0] == 0 {
        Some((None, b.skip(1)))
    } else if b[0] == 1 {
        if b.len() < 9 {
            None
        } else {
            let n = spec_u64_from_le_bytes(b.subrange(1, 9)) as int;
            if b.len() < 9 + n {
                None
            } else {
                let payload = b.subrange(9, 9 + n);
                if valid_utf8(payload) {
                    Some((Some(decode_utf8(payload)), b.skip(9 + n)))
                } else {
                    None
                }
            }
        }
    } else {
        None
    }
}

/// Read a whole envelope: code, data, message, nothing left over.
pub open spec fn parse_wire(b: Seq<u8>) -> Option<(i32, Option<Seq<char>>, Option<Seq<char>>)> {
    match parse_code(b) {
        None => None,
        Some((code, r1)) => match parse_opt(r1) {
            None => None,
            Some((data, r2)) => match parse_opt(r2) {
                None => None,
                Some((message, r3)) => if r3.len() == 0 {
                    Some((code, data, message))
                } else {
                    None
                },
            },
        },
    }
}

proof fn lemma_parse_code_prefix(v: i32, tail: Seq<u8>)
    ensures
        parse_code(wire_code(v) + tail) == Some((v, tail)),
{
    lemma_auto_spec_u32_to_from_le_bytes();
    let b = wire_code(v) + tail;
    if v >= 0 {
        let le = spec_u32_to_le_bytes(v as u32);
        assert(b.subrange(1, 5) =~= le);
        assert(b[0] == 0);
        assert(spec_u32_from_le_bytes(le) == v as u32);
        assert(b.skip(5) =~= tail);
        assert((v as u32) as i32 == v);
    } else {
        let mag = (0 - v as int) as u32;
        let le = spec_u32_to_le_bytes(mag);
        assert(b.subrange(1, 5) =~= le);
        assert(b[0] == 1);
        assert(spec_u32_from_le_bytes(le) == mag);
        assert(1 <= mag && mag <= 0x8000_0000u32);
        assert((0 - mag as int) as i32 == v);
        assert(b.skip(5) =~= tail);
    }
}

proof fn lemma_parse_opt_prefix(s: Option<Seq<char>>, tail: Seq<u8>)
    requires
        s matches Some(cs) ==> encode_utf8(cs).len() <= u64::MAX,
    ensures
        parse_opt(wire_opt(s) + tail) == Some((s, tail)),
{
    let b = wire_opt(s) + tail;
    match s {
        None => {
            assert(b[0] == 0);
            assert(b.skip(1) =~= tail);
        },
        Some(cs) => {
            broadcast use encode_utf8_valid_utf8, encode_utf8_decode_utf8;

            lemma_auto_spec_u64_to_from_le_bytes();
            let payload = encode_utf8(cs);
            let n = payload.len();
            let le = spec_u64_to_le_bytes(n as u64);
            assert(b.len() == 9 + n + tail.len());
            assert(b[0] == 1);
            assert(b.subrange(1, 9) =~= le);
            assert(spec_u64_from_le_bytes(le) == n as u64);
            assert(b.subrange(9, 9 + n as int) =~= payload);
            assert(decode_utf8(payload) == cs);
            assert(b.skip(9 + n as int) =~= tail);
        },
    }
}

/// Law: the wire loses nothing. Reading back the wire form of any
/// envelope yields exactly the code, payload and message that went in.
pub proof fn lemma_wire_round_trip(code: i32, data: Option<Seq<char>>, message: Option<Seq<char>>)
    requires
        data matches Some(d) ==> encode_utf8(d).len() <= u64::MAX,
        message matches Some(m) ==> encode_utf8(m).len() <= u64::MAX,
    ensures
        parse_wire(wire_spec(code, data, message)) == Some((code, data, message)),
{
    let b = wire_spec(code, data, message);
    assert(b =~= wire_code(code) + (wire_opt(data) + wire_opt(message)));
    lemma_parse_code_prefix(code, wire_opt(data) + wire_opt(message));
    assert(wire_opt(data) + wire_opt(message) =~= wire_opt(data) + (wire_opt(message)
        + Seq::<u8>::empty()));
    lemma_parse_opt_prefix(data, wire_opt(message) + Seq::<u8>::empty());
    assert(wire_opt(message) + Seq::<u8>::empty() =~= wire_opt(message) + Seq::<u8>::empty());
    lemma_parse_opt_prefix(message, Seq::<u8>::empty());
    assert((wire_opt(message) + Seq::<u8>::empty()) =~= wire_opt(message));
}

fn push_code(out: &mut Vec<u8>, v: i32)
    ensures
        final(out)@ == old(out)@ + wire_code(v),
{
    if v >= 0 {
        out.push(0u8);
        let mut le = u32_to_le_bytes(v as u32);
        out.append(&mut le);
    } else {
        out.push(1u8);
        let mag64: i64 = -(v as i64);
        let mag: u32 = mag64 as u32;
        let mut le = u32_to_le_bytes(mag);
        out.append(&mut le);
    }
    assert(out@ =~= old(out)@ + wire_code(v));
}

fn push_opt(out: &mut Vec<u8>, s: &Option<String>)
    ensures
        final(out)@ == old(out)@ + wire_opt(opt_chars(*s)),
{
    match s {
        None => {
            out.push(0u8);
        },
        Some(x) => {
            out.push(1u8);
            let bytes = x.as_str().as_bytes_vec();
            assert(bytes@ == encode_utf8(x@));
            let n: u64 = bytes.len() as u64;
            let mut le = u64_to_le_bytes(n);
            out.append(&mut le);
            let mut payload = bytes;
            out.append(&mut payload);
        },
    }
    assert(out@ =~= old(out)@ + wire_opt(opt_chars(*s)));
}

/// Put an envelope on the wire.
pub fn encode_envelope(env: &ApiResponse<String>) -> (r: Vec<u8>)
    ensures
        r@ == wire_spec(env.code, opt_chars(env.data), opt_chars(env.message)),
{
    let mut out: Vec<u8> = Vec::new();
    push_code(&mut out, env.code);
    push_opt(&mut out, &env.data);
    push_opt(&mut out, &env.message);
    assert(out@ =~= wire_spec(env.code, opt_chars(env.data), opt_chars(env.message)));
    out
}

fn read_code(wire: &Vec<u8>, pos: usize) -> (r: Option<(i32, usize)>)
    requires
        pos <= wire@.len(),
    ensures
        r matches Some((v, end)) ==> pos <= end <= wire@.len() && parse_code(
            wire@.skip(pos as int),
        ) == Some((v, wire@.skip(end as int))),
        r is None ==> parse_code(wire@.skip(pos as int)) is None,
{
    if wire.len() - pos < 5 {
        return None;
    }
    let tag = wire[pos];
    let sub = slice_subrange(wire.as_slice(), pos + 1, pos + 5);
    let mag = u32_from_le_bytes(sub);
    proof {
        assert(sub@ =~= wire@.skip(pos as int).subrange(1, 5));
        assert(wire@.skip(pos as int).skip(5) =~= wire@.skip(pos as int + 5));
    }
    if tag == 0 {
        if mag <= 0x7fff_ffffu32 {
            Some((mag as i32, pos + 5))
        } else {
            None
        }
    } else if tag == 1 {
        if 1 <= mag && mag <= 0x8000_0000u32 {
            let v: i32 = (-(mag as i64)) as i32;
            Some((v, pos + 5))
        } else {
            None
        }
    } else {
        None
    }
}

fn read_opt(wire: &Vec<u8>, pos: usize) -> (r: Option<(Option<String>, usize)>)
    requires
        pos <= wire@.len(),
    ensures
        r matches Some((s, end)) ==> pos <= end <= wire@.len() && parse_opt(
            wire@.skip(pos as int),
        ) == Some((opt_chars(s), wire@.skip(end as int))),
        r is None ==> parse_opt(wire@.skip(pos as int)) is None,
{
    broadcast use encode_utf8_valid_utf8, encode_utf8_decode_utf8;

    if wire.len() - pos < 1 {
        return None;
    }
    let tag = wire[pos];
    if tag == 0 {
        proof {
            assert(wire@.skip(pos as int).skip(1) =~= wire@.skip(pos as int + 1));
        }
        return Some((None, pos + 1));
    }
    if tag != 1 {
        return None;
    }
    if wire.len() - pos < 9 {
        return None;
    }
    let lensub = slice_subrange(wire.as_slice(), pos + 1, pos + 9);
    let n64 = u64_from_le_bytes(lensub);
    proof {
        assert(lensub@ =~= wire@.skip(pos as int).subrange(1, 9));
    }
    let rem: usize = wire.len() - (pos + 9);
    if n64 > rem as u64 {
        return None;
    }
    let n: usize = n64 as usize;
    let payload_slice = slice_subrange(wire.as_slice(), pos + 9, pos + 9 + n);
    let payload = slice_to_vec(payload_slice);
    proof {
        assert(payload@ =~= wire@.skip(pos as int).subrange(9, 9 + n64 as int));
        assert(wire@.skip(pos as int).skip(9 + n64 as int) =~= wire@.skip(
            pos as int + 9 + n as int,
        ));
    }
    match string_from_utf8(payload) {
        Some(s) => Some((Some(s), pos + 9 + n)),
        None => None,
    }
}

/// Read an envelope back off the wire; `None` on any malformed image
/// and on trailing bytes.
pub fn decode_envelope(wire: &Vec<u8>) -> (r: Option<ApiResponse<String>>)
    ensures
        r matches Some(env) ==> parse_wire(wire@) == Some(
            (env.code, opt_chars(env.data), opt_chars(env.message)),
        ),
        r is None ==> parse_wire(wire@) is None,
{
    proof {
        assert(wire@.skip(0) =~= wire@);
    }
    let (code, p1) = match read_code(wire, 0) {
        Some(x) => x,
        None => {
            return None;
        },
    };
    let (data, p2) = match read_opt(wire, p1) {
        Some(x) => x,
        None => {
            return None;
        },
    };
    let (message, p3) = match read_opt(wire, p2) {
        Some(x) => x,
        None => {
            return None;
        },
    };
    if p3 != wire.len() {
        return None;
    }
    Some(ApiResponse { code, data, message })
}

/// Law: a success envelope survives the wire unchanged: decoding its
/// encoding yields the same payload, and no message.
pub proof fn lemma_success_round_trip(data: Seq<char>)
    requires
        encode_utf8(data).len() <= u64::MAX,
    ensures
        parse_wire(wire_spec(SUCCESS_CODE, Some(data), None)) == Some(
            (SUCCESS_CODE, Some(data), None::<Seq<char>>),
        ),
{
    lemma_wire_round_trip(SUCCESS_CODE, Some(data), None);
}

} // verus!
