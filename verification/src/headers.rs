use vstd::prelude::*;
use crate::layout::zero_bytes;
use crate::image::push_zeros;

verus! {

/// Number of bytes in the raw 6502 prelude header.
pub const RAW_PRELUDE_LEN: usize = 899;

/// Number of zero bytes that pad the raw prelude out to RAW_PRELUDE_LEN.
pub const PRELUDE_TAIL_LEN: usize = 640;

/// Number of bytes in the container-format header.
pub const INES_HEADER_LEN: usize = 16;

pub open spec fn prelude_part_a() -> Seq<u8> {
    seq![
        0xa2, 0x00, 0x86, 0x20, 0xa9, 0x05, 0x85, 0x21, 0xa5, 0xfe, 0x85,
        0x22, 0xc6, 0x21, 0xa5, 0x21, 0xf0, 0x03, 0x4c, 0x8b, 0x06, 0xa9,
        0x05, 0x85, 0x21, 0xa2, 0x21, 0xe6, 0x22, 0xa5, 0x22, 0x29, 0x07,
        0xa8, 0xbd, 0x00, 0x10, 0xf0, 0x06, 0xb9, 0xfb, 0x06, 0x9d, 0x00,
        0x10, 0xbd, 0x40, 0x10, 0xf0, 0x06, 0xb9, 0xfb, 0x06, 0x9d, 0x40,
        0x10, 0xbd, 0x80, 0x10, 0xf0, 0x06, 0xb9, 0xfb, 0x06, 0x9d,
    ]
}

pub open spec fn prelude_part_b() -> Seq<u8> {
    seq![
        0x80, 0x10, 0xbd, 0xc0, 0x10, 0xf0, 0x06, 0xb9, 0xfb, 0x06, 0x9d,
        0xc0, 0x10, 0xbd, 0x00, 0x11, 0xf0, 0x06, 0xb9, 0xfb, 0x06, 0x9d,
        0x00, 0x11, 0xbd, 0x40, 0x11, 0xf0, 0x06, 0xb9, 0xfb, 0x06, 0x9d,
        0x40, 0x11, 0xbd, 0x80, 0x11, 0xf0, 0x06, 0xb9, 0xfb, 0x06, 0x9d,
        0x80, 0x11, 0xbd, 0xc0, 0x11, 0xf0, 0x06, 0xb9, 0xfb, 0x06, 0x9d,
        0xc0, 0x11, 0xbd, 0x00, 0x12, 0xf0, 0x06, 0xb9, 0xfb, 0x06,
    ]
}

pub open spec fn prelude_part_c() -> Seq<u8> {
    seq![
        0x9d, 0x00, 0x12, 0xe8, 0x8a, 0x29, 0x3f, 0xd0, 0x97, 0xe6, 0x20,
        0xa5, 0x20, 0x29, 0x3f, 0xa8, 0x29, 0x1f, 0xaa, 0xbd, 0xdb, 0x06,
        0xaa, 0xa9, 0x00, 0x9d, 0xe0, 0x02, 0x9d, 0xe0, 0x03, 0xb9, 0x00,
        0x10, 0x9d, 0x00, 0x03, 0xb9, 0x80, 0x10, 0x9d, 0x20, 0x03, 0xb9,
        0x00, 0x11, 0x9d, 0x40, 0x03, 0xb9, 0x80, 0x11, 0x9d, 0x60, 0x03,
        0xb9, 0x00, 0x12, 0x9d, 0x80, 0x03, 0xb9, 0x80, 0x12, 0x9d,
    ]
}

pub open spec fn prelude_part_d() -> Seq<u8> {
    seq![
        0xa0, 0x03, 0xb9, 0x00, 0x13, 0x9d, 0xc0, 0x03, 0xb9, 0x80, 0x13,
        0x9d, 0xc0, 0x03, 0xe8, 0xc8, 0x8a, 0x29, 0x1f, 0xd0, 0xc1, 0x4c,
        0x0c, 0x06, 0x00, 0x00, 0x00, 0x00, 0x20, 0x20, 0x20, 0x40, 0x40,
        0x60, 0x80, 0xa0, 0xa0, 0xc0, 0xc0, 0xc0, 0xe0, 0xe0, 0xe0, 0xe0,
        0xc0, 0xc0, 0xc0, 0xa0, 0xa0, 0x80, 0x60, 0x40, 0x40, 0x20, 0x20,
        0x20, 0x07, 0x08, 0x09, 0x02, 0x04, 0x06, 0x0e, 0x03,
    ]
}

/// The raw 6502 prelude header: the instruction and data table followed by
/// a tail of zero bytes.
pub open spec fn raw_prelude() -> Seq<u8> {
    prelude_part_a() + prelude_part_b() + prelude_part_c() + prelude_part_d()
        + zero_bytes(PRELUDE_TAIL_LEN as nat)
}

/// The 16-byte container-format header: the magic bytes `NES` and 0x1a,
/// then the bank counts and flag bytes.
pub open spec fn ines_header() -> Seq<u8> {
    seq![
        0x4e, 0x45, 0x53, 0x1a, 0x02, 0x00, 0x01, 0x00,
        0x00, 0x00, 0x00, 0x00, 0x00, 0x00, 0x00, 0x00,
    ]
}

#[verifier::rlimit(50)]
fn push_prelude_part_a(v: &mut Vec<u8>)
    ensures
        final(v)@ == old(v)@ + prelude_part_a(),
{
    let ghost entry = v@;
    v.push(0xa2);
    v.push(0x00);
    v.push(0x86);
    v.push(0x20);
    v.push(0xa9);
    v.push(0x05);
    v.push(0x85);
    v.push(0x21);
    v.push(0xa5);
    v.push(0xfe);
    v.push(0x85);
    v.push(0x22);
    v.push(0xc6);
    v.push(0x21);
    v.push(0xa5);
    v.push(0x21);
    v.push(0xf0);
    v.push(0x03);
    v.push(0x4c);
    v.push(0x8b);
    v.push(0x06);
    v.push(0xa9);
    v.push(0x05);
    v.push(0x85);
    v.push(0x21);
    v.push(0xa2);
    v.push(0x21);
    v.push(0xe6);
    v.push(0x22);
    v.push(0xa5);
    v.push(0x22);
    v.push(0x29);
    v.push(0x07);
    v.push(0xa8);
    v.push(0xbd);
    v.push(0x00);
    v.push(0x10);
    v.push(0xf0);
    v.push(0x06);
    v.push(0xb9);
    v.push(0xfb);
    v.push(0x06);
    v.push(0x9d);
    v.push(0x00);
    v.push(0x10);
    v.push(0xbd);
    v.push(0x40);
    v.push(0x10);
    v.push(0xf0);
    v.push(0x06);
    v.push(0xb9);
    v.push(0xfb);
    v.push(0x06);
    v.push(0x9d);
    v.push(0x40);
    v.push(0x10);
    v.push(0xbd);
    v.push(0x80);
    v.push(0x10);
    v.push(0xf0);
    v.push(0x06);
    v.push(0xb9);
    v.push(0xfb);
    v.push(0x06);
    v.push(0x9d);
    proof {
        assert(v@ =~= entry + prelude_part_a());
    }
}

#[verifier::rlimit(50)]
fn push_prelude_part_b(v: &mut Vec<u8>)
    ensures
        final(v)@ == old(v)@ + prelude_part_b(),
{
    let ghost entry = v@;
    v.push(0x80);
    v.push(0x10);
    v.push(0xbd);
    v.push(0xc0);
    v.push(0x10);
    v.push(0xf0);
    v.push(0x06);
    v.push(0xb9);
    v.push(0xfb);
    v.push(0x06);
    v.push(0x9d);
    v.push(0xc0);
    v.push(0x10);
    v.push(0xbd);
    v.push(0x00);
    v.push(0x11);
    v.push(0xf0);
    v.push(0x06);
    v.push(0xb9);
    v.push(0xfb);
    v.push(0x06);
    v.push(0x9d);
    v.push(0x00);
    v.push(0x11);
    v.push(0xbd);
    v.push(0x40);
    v.push(0x11);
    v.push(0xf0);
    v.push(0x06);
    v.push(0xb9);
    v.push(0xfb);
    v.push(0x06);
    v.push(0x9d);
    v.push(0x40);
    v.push(0x11);
    v.push(0xbd);
    v.push(0x80);
    v.push(0x11);
    v.push(0xf0);
    v.push(0x06);
    v.push(0xb9);
    v.push(0xfb);
    v.push(0x06);
    v.push(0x9d);
    v.push(0x80);
    v.push(0x11);
    v.push(0xbd);
    v.push(0xc0);
    v.push(0x11);
    v.push(0xf0);
    v.push(0x06);
    v.push(0xb9);
    v.push(0xfb);
    v.push(0x06);
    v.push(0x9d);
    v.push(0xc0);
    v.push(0x11);
    v.push(0xbd);
    v.push(0x00);
    v.push(0x12);
    v.push(0xf0);
    v.push(0x06);
    v.push(0xb9);
    v.push(0xfb);
    v.push(0x06);
    proof {
        assert(v@ =~= entry + prelude_part_b());
    }
}

#[verifier::rlimit(50)]
fn push_prelude_part_c(v: &mut Vec<u8>)
    ensures
        final(v)@ == old(v)@ + prelude_part_c(),
{
    let ghost entry = v@;
    v.push(0x9d);
    v.push(0x00);
    v.push(0x12);
    v.push(0xe8);
    v.push(0x8a);
    v.push(0x29);
    v.push(0x3f);
    v.push(0xd0);
    v.push(0x97);
    v.push(0xe6);
    v.push(0x20);
    v.push(0xa5);
    v.push(0x20);
    v.push(0x29);
    v.push(0x3f);
    v.push(0xa8);
    v.push(0x29);
    v.push(0x1f);
    v.push(0xaa);
    v.push(0xbd);
    v.push(0xdb);
    v.push(0x06);
    v.push(0xaa);
    v.push(0xa9);
    v.push(0x00);
    v.push(0x9d);
    v.push(0xe0);
    v.push(0x02);
    v.push(0x9d);
    v.push(0xe0);
    v.push(0x03);
    v.push(0xb9);
    v.push(0x00);
    v.push(0x10);
    v.push(0x9d);
    v.push(0x00);
    v.push(0x03);
    v.push(0xb9);
    v.push(0x80);
    v.push(0x10);
    v.push(0x9d);
    v.push(0x20);
    v.push(0x03);
    v.push(0xb9);
    v.push(0x00);
    v.push(0x11);
    v.push(0x9d);
    v.push(0x40);
    v.push(0x03);
    v.push(0xb9);
    v.push(0x80);
    v.push(0x11);
    v.push(0x9d);
    v.push(0x60);
    v.push(0x03);
    v.push(0xb9);
    v.push(0x00);
    v.push(0x12);
    v.push(0x9d);
    v.push(0x80);
    v.push(0x03);
    v.push(0xb9);
    v.push(0x80);
    v.push(0x12);
    v.push(0x9d);
    proof {
        assert(v@ =~= entry + prelude_part_c());
    }
}

#[verifier::rlimit(50)]
fn push_prelude_part_d(v: &mut Vec<u8>)
    ensures
        final(v)@ == old(v)@ + prelude_part_d(),
{
    let ghost entry = v@;
    v.push(0xa0);
    v.push(0x03);
    v.push(0xb9);
    v.push(0x00);
    v.push(0x13);
    v.push(0x9d);
    v.push(0xc0);
    v.push(0x03);
    v.push(0xb9);
    v.push(0x80);
    v.push(0x13);
    v.push(0x9d);
    v.push(0xc0);
    v.push(0x03);
    v.push(0xe8);
    v.push(0xc8);
    v.push(0x8a);
    v.push(0x29);
    v.push(0x1f);
    v.push(0xd0);
    v.push(0xc1);
    v.push(0x4c);
    v.push(0x0c);
    v.push(0x06);
    v.push(0x00);
    v.push(0x00);
    v.push(0x00);
    v.push(0x00);
    v.push(0x20);
    v.push(0x20);
    v.push(0x20);
    v.push(0x40);
    v.push(0x40);
    v.push(0x60);
    v.push(0x80);
    v.push(0xa0);
    v.push(0xa0);
    v.push(0xc0);
    v.push(0xc0);
    v.push(0xc0);
    v.push(0xe0);
    v.push(0xe0);
    v.push(0xe0);
    v.push(0xe0);
    v.push(0xc0);
    v.push(0xc0);
    v.push(0xc0);
    v.push(0xa0);
    v.push(0xa0);
    v.push(0x80);
    v.push(0x60);
    v.push(0x40);
    v.push(0x40);
    v.push(0x20);
    v.push(0x20);
    v.push(0x20);
    v.push(0x07);
    v.push(0x08);
    v.push(0x09);
    v.push(0x02);
    v.push(0x04);
    v.push(0x06);
    v.push(0x0e);
    v.push(0x03);
    proof {
        assert(v@ =~= entry + prelude_part_d());
    }
}

/// Builds the raw 6502 prelude header used by the headerless image variant.
pub fn make_raw_prelude_header() -> (r: Vec<u8>)
    ensures
        r@ == raw_prelude(),
        r@.len() == RAW_PRELUDE_LEN,
{
    let mut v: Vec<u8> = Vec::new();
    push_prelude_part_a(&mut v);
    push_prelude_part_b(&mut v);
    push_prelude_part_c(&mut v);
    push_prelude_part_d(&mut v);
    push_zeros(&mut v, PRELUDE_TAIL_LEN);
    proof {
        assert(v@ =~= raw_prelude());
    }
    v
}

/// Builds the 16-byte container-format header used by the container variant.
pub fn make_ines_header() -> (r: Vec<u8>)
    ensures
        r@ == ines_header(),
        r@.len() == INES_HEADER_LEN,
{
    let mut v: Vec<u8> = Vec::new();
    v.push(0x4e);
    v.push(0x45);
    v.push(0x53);
    v.push(0x1a);
    v.push(0x02);
    v.push(0x00);
    v.push(0x01);
    v.push(0x00);
    v.push(0x00);
    v.push(0x00);
    v.push(0x00);
    v.push(0x00);
    v.push(0x00);
    v.push(0x00);
    v.push(0x00);
    v.push(0x00);
    proof {
        assert(v@ =~= ines_header());
    }
    v
}

} // verus!
