//! Pixel format conversion for captured screen frames.

use vstd::prelude::*;

verus! {

/// Number of pixels (groups of up to four bytes) in a BGRA buffer.
pub open spec fn pixel_count(len: int) -> int {
    (len + 3) / 4
}

/// The RGB bytes of BGRA pixels: byte `c` of pixel `k` is byte `2 - c`
/// of the pixel's group of four.
pub open spec fn rgb_of(bgra: Seq<u8>) -> Seq<u8> {
    Seq::new((3 * pixel_count(bgra.len() as int)) as nat, |i: int| bgra[4 * (i / 3) + 2 - i % 3])
}

/// Converts BGRA pixels to RGB: each group of four bytes gives its third,
/// second and first byte, in that order. A last group shorter than four
/// bytes still needs three.
pub fn bgra_to_rgb(bgra: &[u8]) -> (rgb: Vec<u8>)
    requires
        bgra@.len() % 4 == 0 || bgra@.len() % 4 == 3,
    ensures
        rgb@ == rgb_of(bgra@),
{
    let n = bgra.len();
    let pixels: usize = n / 4 + if n % 4 == 3 {
        1
    } else {
        0
    };
    let mut rgb: Vec<u8> = Vec::new();
    let mut done: usize = 0;
    while done < pixels
        invariant
            n == bgra@.len(),
            n % 4 == 0 || n % 4 == 3,
            pixels == pixel_count(n as int),
            done <= pixels,
            rgb@ == rgb_of(bgra@).take(3 * done),
        decreases pixels - done,
    {
        let base = 4 * done;
        rgb.push(bgra[base + 2]);
        rgb.push(bgra[base + 1]);
        rgb.push(bgra[base]);
        proof {
            let target = rgb_of(bgra@);
            let d = done as int;
            assert((3 * d) / 3 == d && (3 * d) % 3 == 0);
            assert((3 * d + 1) / 3 == d && (3 * d + 1) % 3 == 1);
            assert((3 * d + 2) / 3 == d && (3 * d + 2) % 3 == 2);
            assert(rgb@ =~= target.take(3 * d + 3));
        }
        done = done + 1;
    }
    proof {
        assert(rgb_of(bgra@).take(3 * done) =~= rgb_of(bgra@));
    }
    rgb
}

} // verus!
