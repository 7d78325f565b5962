use vstd::prelude::*;
use crate::headers::{ines_header, make_ines_header, make_raw_prelude_header, raw_prelude};
use crate::layout::{
    rom_bytes, payload_fits, zero_bytes, BODY_LEN, PAYLOAD_MAX,
};

verus! {

/// The one way building an image can fail: the payload is too long to leave
/// room for the body inside the fixed-size region.
#[derive(Clone, Copy, Debug, PartialEq, Eq, Structural)]
pub enum RomError {
    PayloadTooLarge,
}

/// Appends `n` zero bytes to `out`.
pub(crate) fn push_zeros(out: &mut Vec<u8>, n: usize)
    ensures
        final(out)@ == old(out)@ + zero_bytes(n as nat),
{
    let ghost entry = out@;
    let mut i: usize = 0;
    proof {
        assert(out@ =~= entry + zero_bytes(0));
    }
    while i < n
        invariant
            i <= n,
            out@ == entry + zero_bytes(i as nat),
        decreases n - i,
    {
        out.push(0u8);
        i = i + 1;
        proof {
            assert(out@ =~= entry + zero_bytes(i as nat));
        }
    }
}

/// Appends every byte of `src` to `out`, in order.
pub(crate) fn push_all(out: &mut Vec<u8>, src: &Vec<u8>)
    ensures
        final(out)@ == old(out)@ + src@,
{
    let ghost entry = out@;
    let mut i: usize = 0;
    proof {
        assert(out@ =~= entry + src@.subrange(0, 0));
    }
    while i < src.len()
        invariant
            i <= src.len(),
            out@ == entry + src@.subrange(0, i as int),
        decreases src.len() - i,
    {
        out.push(src[i]);
        i = i + 1;
        proof {
            assert(out@ =~= entry + src@.subrange(0, i as int));
        }
    }
    proof {
        assert(out@ =~= entry + src@);
    }
}

/// Builds the complete image for the given header and payload: the header,
/// a zero-filled body, the payload, zero padding up to REGION_LEN bytes past
/// the header, and the trailer. Rejects a payload too long to leave room for
/// the body.
pub fn build_rom(header: &Vec<u8>, payload: &Vec<u8>) -> (r: Result<Vec<u8>, RomError>)
    ensures
        payload_fits(payload@) ==> (r matches Ok(bytes) && bytes@ == rom_bytes(
            header@,
            payload@,
        )),
        !payload_fits(payload@) ==> (r matches Err(e) && e == RomError::PayloadTooLarge),
{
    if payload.len() > PAYLOAD_MAX {
        return Err(RomError::PayloadTooLarge);
    }
    let mut out: Vec<u8> = Vec::new();
    push_all(&mut out, header);
    push_zeros(&mut out, BODY_LEN);
    push_all(&mut out, payload);
    push_zeros(&mut out, PAYLOAD_MAX - payload.len());
    out.push(0x00);
    out.push(0x86);
    out.push(0x00);
    out.push(0x00);
    proof {
        assert(out@ =~= rom_bytes(header@, payload@));
    }
    Ok(out)
}

/// Builds the image of the headerless variant: the raw 6502 prelude header
/// and an empty payload.
pub fn build_raw_prelude_rom() -> (r: Vec<u8>)
    ensures
        r@ == rom_bytes(raw_prelude(), Seq::empty()),
{
    let header = make_raw_prelude_header();
    let payload: Vec<u8> = Vec::new();
    let built = build_rom(&header, &payload);
    built.unwrap()
}

/// Builds the image of the container variant: the 16-byte container-format
/// header and an empty payload.
pub fn build_ines_rom() -> (r: Vec<u8>)
    ensures
        r@ == rom_bytes(ines_header(), Seq::empty()),
{
    let header = make_ines_header();
    let payload: Vec<u8> = Vec::new();
    let built = build_rom(&header, &payload);
    built.unwrap()
}

} // verus!
