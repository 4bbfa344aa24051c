use vstd::prelude::*;

verus! {

/// An opaque colour given by its red, green and blue bytes.
#[derive(Debug, Clone, Copy, PartialEq, Eq, Structural)]
pub struct Rgb8 {
    pub r: u8,
    pub g: u8,
    pub b: u8,
}

/// The colour behind the pages: a dark blue-grey when colours are inverted for dark
/// mode, a light warm grey otherwise.
pub fn get_background_color(invert_colors: bool) -> (color: Rgb8)
    ensures
        color == (if invert_colors {
            Rgb8 { r: 21, g: 22, b: 32 }
        } else {
            Rgb8 { r: 220, g: 219, b: 218 }
        }),
{
    if invert_colors {
        Rgb8 { r: 21, g: 22, b: 32 }
    } else {
        Rgb8 { r: 220, g: 219, b: 218 }
    }
}

/// The brightness of pixel `pixel` of RGBA samples: the mean of its red, green and
/// blue values, rounded down.
pub open spec fn brightness(samples: Seq<u8>, pixel: int) -> int {
    (samples[4 * pixel] + samples[4 * pixel + 1] + samples[4 * pixel + 2]) / 3
}

/// Sample `i` after dark-mode shading: every whole RGBA pixel is replaced by the
/// gradient colour at its brightness; bytes after the last whole pixel stay as they
/// are.
pub open spec fn shaded_sample(samples: Seq<u8>, gradient: Seq<[u8; 4]>, i: int) -> u8 {
    if i < (samples.len() / 4) * 4 {
        gradient[brightness(samples, i / 4)]@[i % 4]
    } else {
        samples[i]
    }
}

/// Recolours RGBA pixel samples for dark mode: each pixel (four bytes: red, green,
/// blue, alpha) takes the colour that `gradient_cache` holds for the pixel's
/// brightness, so white paper turns into the background colour and black ink stays
/// light.
pub fn cpu_pdf_dark_mode_shader(samples: &mut [u8], gradient_cache: &[[u8; 4]; 256])
    ensures
        final(samples)@.len() == old(samples)@.len(),
        forall|i: int|
            0 <= i < old(samples)@.len() ==> #[trigger] final(samples)@[i] == shaded_sample(
                old(samples)@,
                gradient_cache@,
                i,
            ),
{
    let ghost original = samples@;
    let pixels = samples.len() / 4;
    let mut p: usize = 0;
    while p < pixels
        invariant
            original == old(samples)@,
            pixels == original.len() / 4,
            original.len() <= usize::MAX,
            p <= pixels,
            samples@.len() == original.len(),
            gradient_cache@.len() == 256,
            forall|i: int|
                0 <= i < 4 * p ==> #[trigger] samples@[i] == shaded_sample(
                    original,
                    gradient_cache@,
                    i,
                ),
            forall|i: int| 4 * p <= i < original.len() ==> #[trigger] samples@[i] == original[i],
        decreases pixels - p,
    {
        assert(4 * p + 4 <= original.len()) by (nonlinear_arith)
            requires
                p < pixels,
                pixels == original.len() / 4,
        ;
        let base = 4 * p;
        let red = samples[base] as u16;
        let green = samples[base + 1] as u16;
        let blue = samples[base + 2] as u16;
        let level = ((red + green + blue) / 3) as usize;
        assert(level == brightness(original, p as int));
        let color = gradient_cache[level];
        samples[base] = color[0];
        samples[base + 1] = color[1];
        samples[base + 2] = color[2];
        samples[base + 3] = color[3];
        assert forall|i: int| 0 <= i < 4 * (p + 1) implies #[trigger] samples@[i] == shaded_sample(
            original,
            gradient_cache@,
            i,
        ) by {
            if i >= base {
                assert(i / 4 == p as int);
                assert(i % 4 == i - base);
            }
        }
        p = p + 1;
    }
}

/// Every whole pixel takes the gradient entry at the rounded-down mean of its red,
/// green and blue bytes, each channel counting alike; its alpha byte plays no part.
pub proof fn lemma_pixel_takes_mean_colour(
    samples: Seq<u8>,
    gradient: Seq<[u8; 4]>,
    pixel: int,
    channel: int,
)
    requires
        0 <= pixel < samples.len() / 4,
        0 <= channel < 4,
    ensures
        shaded_sample(samples, gradient, 4 * pixel + channel) == gradient[(samples[4 * pixel]
            + samples[4 * pixel + 1] + samples[4 * pixel + 2]) / 3]@[channel],
{
    assert((4 * pixel + channel) / 4 == pixel);
    assert((4 * pixel + channel) % 4 == channel);
    assert(4 * pixel + channel < (samples.len() / 4) * 4) by (nonlinear_arith)
        requires
            0 <= pixel < samples.len() / 4,
            0 <= channel < 4,
    ;
}

/// Bytes after the last whole pixel keep their value.
pub proof fn lemma_partial_pixel_kept(samples: Seq<u8>, gradient: Seq<[u8; 4]>, i: int)
    requires
        samples.len() - samples.len() % 4 <= i < samples.len(),
    ensures
        shaded_sample(samples, gradient, i) == samples[i],
{
    assert((samples.len() / 4) * 4 == samples.len() - samples.len() % 4);
}

} // verus!
