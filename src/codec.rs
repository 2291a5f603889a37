use vstd::prelude::*;

verus! {

/// The 5-6-5 packed value of one 8-bit-per-channel pixel: the low bits of
/// each channel are dropped and the rest packed as red, green, blue.
pub open spec fn rgb565_of(r: u8, g: u8, b: u8) -> u16 {
    ((r as int / 8) * 2048 + (g as int / 4) * 32 + (b as int / 8)) as u16
}

/// The byte at position `i` of the packed output for the 24-bit buffer `s`:
/// each pixel becomes its 5-6-5 value, high byte first.
pub open spec fn rgb565_byte_at(s: Seq<u8>, i: int) -> u8 {
    let p = i / 2;
    let px = rgb565_of(s[3 * p], s[3 * p + 1], s[3 * p + 2]);
    if i % 2 == 0 {
        (px as int / 256) as u8
    } else {
        (px as int % 256) as u8
    }
}

/// The packed 16-bit buffer for a 24-bit buffer; a trailing partial triple
/// is dropped.
pub open spec fn rgb565_bytes(s: Seq<u8>) -> Seq<u8> {
    Seq::new(2 * (s.len() / 3), |i: int| rgb565_byte_at(s, i))
}

/// Packs one pixel into 5-6-5.
pub fn rgb888_to_rgb565(r: u8, g: u8, b: u8) -> (px: u16)
    ensures
        px == rgb565_of(r, g, b),
{
    let red = (r / 8) as u16;
    let green = (g / 4) as u16;
    let blue = (b / 8) as u16;
    assert((red << 11) | (green << 5) | blue == red * 2048 + green * 32 + blue) by (bit_vector)
        requires
            red < 32,
            green < 64,
            blue < 32,
    ;
    (red << 11) | (green << 5) | blue
}

/// Converts a buffer of (R, G, B) byte triples into big-endian 5-6-5 pixels,
/// two bytes per pixel. Bytes past the last whole triple are ignored.
pub fn convert_vec_rgb888_to_rgb565(rgb888_vec: &Vec<u8>) -> (out: Vec<u8>)
    ensures
        out@ == rgb565_bytes(rgb888_vec@),
        out@.len() == 2 * (rgb888_vec@.len() / 3),
{
    let len: usize = rgb888_vec.len();
    let n: usize = len / 3;
    let mut out: Vec<u8> = Vec::with_capacity(n * 2);
    let mut k: usize = 0;
    while k < n
        invariant
            len == rgb888_vec@.len(),
            n == len / 3,
            k <= n,
            out@.len() == 2 * k,
            forall|i: int| 0 <= i < 2 * k ==> out@[i] == #[trigger] rgb565_byte_at(rgb888_vec@, i),
        decreases n - k,
    {
        assert(3 * k + 2 < len) by (nonlinear_arith)
            requires
                k < n,
                n == len / 3,
        ;
        let base: usize = 3 * k;
        let r = rgb888_vec[base];
        let g = rgb888_vec[base + 1];
        let b = rgb888_vec[base + 2];
        let px = rgb888_to_rgb565(r, g, b);
        let hi = (px / 256) as u8;
        let lo = (px % 256) as u8;
        out.push(hi);
        out.push(lo);
        assert((2 * k as int) / 2 == k && (2 * k as int) % 2 == 0);
        assert((2 * k as int + 1) / 2 == k && (2 * k as int + 1) % 2 == 1);
        k += 1;
    }
    assert(out@ =~= rgb565_bytes(rgb888_vec@));
    out
}

/// A buffer of `3n + k` bytes, `k` below 3, converts to `2n` bytes: the
/// trailing `k` bytes are dropped.
pub proof fn lemma_converted_length(s: Seq<u8>, n: nat, k: nat)
    requires
        k < 3,
        s.len() == 3 * n + k,
    ensures
        rgb565_bytes(s).len() == 2 * n,
{
    assert(s.len() / 3 == n) by (nonlinear_arith)
        requires
            k < 3,
            s.len() == 3 * n + k,
    ;
}

} // verus!
