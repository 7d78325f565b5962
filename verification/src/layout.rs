use vstd::prelude::*;

verus! {

/// Length in bytes of the zero-filled body region that follows the header.
pub const BODY_LEN: usize = 0x600;

/// Length in bytes of the whole region between header and trailer: body,
/// payload and padding together always span exactly this many bytes.
pub const REGION_LEN: usize = 0xFFFC - 0x8000;

/// Length in bytes of the fixed trailer at the end of the image.
pub const TRAILER_LEN: usize = 4;

/// Largest payload that still leaves room for the body inside the region.
pub const PAYLOAD_MAX: usize = REGION_LEN - BODY_LEN;

/// A run of `n` zero bytes.
pub open spec fn zero_bytes(n: nat) -> Seq<u8> {
    Seq::new(n, |i: int| 0u8)
}

/// The fixed four-byte trailer, a reset-vector-like footer.
pub open spec fn trailer_bytes() -> Seq<u8> {
    seq![0x00u8, 0x86u8, 0x00u8, 0x00u8]
}

/// A payload fits when body and payload together stay within the region.
pub open spec fn payload_fits(payload: Seq<u8>) -> bool {
    payload.len() <= PAYLOAD_MAX
}

/// The complete image for a given header and payload: the header, the
/// zero-filled body, the payload, zero padding up to REGION_LEN bytes past
/// the end of the header, and the trailer.
pub open spec fn rom_bytes(header: Seq<u8>, payload: Seq<u8>) -> Seq<u8> {
    header + zero_bytes(BODY_LEN as nat) + payload
        + zero_bytes((REGION_LEN - BODY_LEN - payload.len()) as nat)
        + trailer_bytes()
}

/// Law: for any header and any payload that fits, the image's total length
/// is the header length plus REGION_LEN plus the trailer length.
pub proof fn lemma_rom_len(header: Seq<u8>, payload: Seq<u8>)
    requires
        payload_fits(payload),
    ensures
        rom_bytes(header, payload).len() == header.len() + REGION_LEN + TRAILER_LEN,
{
}

/// Law: when the payload is empty, the first BODY_LEN bytes of the region
/// that follows the header are all zero.
pub proof fn lemma_body_zero(header: Seq<u8>)
    ensures
        forall|i: int|
            0 <= i < BODY_LEN ==> #[trigger] rom_bytes(header, Seq::empty())[header.len() + i]
                == 0u8,
{
    assert forall|i: int| 0 <= i < BODY_LEN implies #[trigger] rom_bytes(header, Seq::empty())[
        header.len() + i] == 0u8 by {
        assert(rom_bytes(header, Seq::empty())[header.len() + i] == zero_bytes(
            BODY_LEN as nat,
        )[i]);
    }
}

/// Law: the last four bytes of any image whose payload fits are the trailer.
pub proof fn lemma_trailer_at_end(header: Seq<u8>, payload: Seq<u8>)
    requires
        payload_fits(payload),
    ensures
        ({
            let r = rom_bytes(header, payload);
            r.subrange(r.len() - TRAILER_LEN, r.len() as int) == trailer_bytes()
        }),
{
    let r = rom_bytes(header, payload);
    assert(r.subrange(r.len() - TRAILER_LEN, r.len() as int) =~= trailer_bytes());
}

/// Law: building an image is deterministic; two images built from the same
/// header and payload are identical byte for byte.
pub proof fn lemma_deterministic(header: Seq<u8>, payload: Seq<u8>, a: Seq<u8>, b: Seq<u8>)
    requires
        a == rom_bytes(header, payload),
        b == rom_bytes(header, payload),
    ensures
        a == b,
{
}

} // verus!
