use vstd::prelude::*;
use crate::color::Color;

verus! {

/// The order in which the four bytes of a pixel stand in the buffer. `A` is
/// the byte that carries no colour; it is written as zero.
#[derive(Clone, Copy, Debug, PartialEq, Eq, Structural)]
pub enum ChannelOrder {
    Rgba,
    Argb,
    Bgra,
    Abgr,
}

/// The colour that pixel `i` of a buffer shows.
pub open spec fn pixel_at(buffer: Seq<u8>, order: ChannelOrder, i: int) -> Color {
    let o = 4 * i;
    match order {
        ChannelOrder::Rgba => Color { r: buffer[o], g: buffer[o + 1], b: buffer[o + 2] },
        ChannelOrder::Argb => Color { r: buffer[o + 1], g: buffer[o + 2], b: buffer[o + 3] },
        ChannelOrder::Bgra => Color { r: buffer[o + 2], g: buffer[o + 1], b: buffer[o] },
        ChannelOrder::Abgr => Color { r: buffer[o + 3], g: buffer[o + 2], b: buffer[o + 1] },
    }
}

/// The byte of pixel `i` that carries no colour.
pub open spec fn padding_at(buffer: Seq<u8>, order: ChannelOrder, i: int) -> u8 {
    let o = 4 * i;
    match order {
        ChannelOrder::Rgba => buffer[o + 3],
        ChannelOrder::Argb => buffer[o],
        ChannelOrder::Bgra => buffer[o + 3],
        ChannelOrder::Abgr => buffer[o],
    }
}

/// Pixel `i` is the same in both buffers, byte for byte.
pub open spec fn same_pixel(a: Seq<u8>, b: Seq<u8>, i: int) -> bool {
    &&& a[4 * i] == b[4 * i]
    &&& a[4 * i + 1] == b[4 * i + 1]
    &&& a[4 * i + 2] == b[4 * i + 2]
    &&& a[4 * i + 3] == b[4 * i + 3]
}

/// The largest hit count of a histogram, and zero for one with no cell.
pub open spec fn peak(d: Seq<usize>) -> int
    decreases d.len(),
{
    if d.len() == 0 {
        0
    } else if d.last() > peak(d.drop_last()) {
        d.last() as int
    } else {
        peak(d.drop_last())
    }
}

/// No cell holds more than the peak, and some cell of a histogram that has
/// cells holds exactly that.
pub proof fn lemma_peak_is_largest(d: Seq<usize>)
    ensures
        forall|i: int| 0 <= i < d.len() ==> #[trigger] d[i] <= peak(d),
        d.len() > 0 ==> exists|i: int| 0 <= i < d.len() && #[trigger] d[i] == peak(d),
        d.len() == 0 ==> peak(d) == 0,
    decreases d.len(),
{
    if d.len() > 0 {
        let rest = d.drop_last();
        lemma_peak_is_largest(rest);
        assert forall|i: int| 0 <= i < d.len() implies #[trigger] d[i] <= peak(d) by {
            if i < rest.len() {
                assert(d[i] == rest[i]);
            }
        }
        if d.last() > peak(rest) {
            assert(d[d.len() - 1] == peak(d));
        } else if rest.len() > 0 {
            let i = choose|i: int| 0 <= i < rest.len() && #[trigger] rest[i] == peak(rest);
            assert(d[i] == peak(d));
        } else {
            assert(d[0] == peak(d));
        }
    }
}

pub fn max_density(density: &Vec<usize>) -> (most: usize)
    ensures
        most == peak(density@),
{
    let mut most: usize = 0;
    let mut i: usize = 0;
    while i < density.len()
        invariant
            i <= density.len(),
            most == peak(density@.take(i as int)),
        decreases density.len() - i,
    {
        assert(density@.take(i + 1).drop_last() =~= density@.take(i as int));
        if density[i] > most {
            most = density[i];
        }
        i = i + 1;
    }
    assert(density@.take(i as int) =~= density@);
    most
}

/// What a cell with `hits` hits shows of its colour `plain` when the fullest
/// cell has `most` hits. While no cell has more than one hit the colour stays
/// as it is, and the fullest cells always show theirs in full. The channels of
/// every other cell go through `curve`, each on its own, with the two counts.
pub open spec fn toned_by<F: Fn(u8, usize, usize) -> u8>(
    curve: F,
    plain: Color,
    hits: usize,
    most: usize,
    toned: Color,
) -> bool {
    if most <= 1 || hits >= most {
        toned == plain
    } else {
        &&& call_ensures(curve, (plain.r, hits, most), toned.r)
        &&& call_ensures(curve, (plain.g, hits, most), toned.g)
        &&& call_ensures(curve, (plain.b, hits, most), toned.b)
    }
}

/// Pixel `i` after tone mapping: untouched where the cell has no hit, and else
/// the toned colour of the cell with a zero in the fourth byte.
pub open spec fn pixel_mapped<F: Fn(u8, usize, usize) -> u8>(
    curve: F,
    order: ChannelOrder,
    before: Seq<u8>,
    after: Seq<u8>,
    plain: Color,
    hits: usize,
    most: usize,
    i: int,
) -> bool {
    if hits == 0 {
        same_pixel(before, after, i)
    } else {
        &&& toned_by(curve, plain, hits, most, pixel_at(after, order, i))
        &&& padding_at(after, order, i) == 0
    }
}

fn write_pixel(buffer: &mut [u8], i: usize, order: ChannelOrder, c: Color)
    requires
        4 * i + 4 <= old(buffer)@.len(),
    ensures
        final(buffer)@.len() == old(buffer)@.len(),
        pixel_at(final(buffer)@, order, i as int) == c,
        padding_at(final(buffer)@, order, i as int) == 0,
        forall|k: int|
            0 <= k < old(buffer)@.len() && !(4 * i <= k < 4 * i + 4) ==> final(buffer)@[k] == old(
                buffer,
            )@[k],
{
    let o: usize = 4 * i;
    match order {
        ChannelOrder::Rgba => {
            buffer[o] = c.r;
            buffer[o + 1] = c.g;
            buffer[o + 2] = c.b;
            buffer[o + 3] = 0;
        },
        ChannelOrder::Argb => {
            buffer[o] = 0;
            buffer[o + 1] = c.r;
            buffer[o + 2] = c.g;
            buffer[o + 3] = c.b;
        },
        ChannelOrder::Bgra => {
            buffer[o] = c.b;
            buffer[o + 1] = c.g;
            buffer[o + 2] = c.r;
            buffer[o + 3] = 0;
        },
        ChannelOrder::Abgr => {
            buffer[o] = 0;
            buffer[o + 1] = c.b;
            buffer[o + 2] = c.g;
            buffer[o + 3] = c.r;
        },
    }
}

/// Writes a histogram pair into a buffer of four bytes to the pixel, one pixel
/// to the cell and in the cells' order. The brightness of a cell follows its
/// hit count relative to the fullest cell of this very call; a cell without a
/// hit leaves its pixel as the caller had it.
pub fn tone_map<F: Fn(u8, usize, usize) -> u8>(
    density: &Vec<usize>,
    color: &Vec<Color>,
    buffer: &mut [u8],
    order: ChannelOrder,
    curve: F,
)
    requires
        density.len() == color.len(),
        4 * density.len() <= old(buffer)@.len(),
        forall|c: u8, hits: usize, most: usize|
            0 < hits < most ==> call_requires(curve, (c, hits, most)),
    ensures
        final(buffer)@.len() == old(buffer)@.len(),
        forall|i: int|
            0 <= i < density.len() ==> #[trigger] pixel_mapped(
                curve,
                order,
                old(buffer)@,
                final(buffer)@,
                color[i],
                density[i],
                peak(density@) as usize,
                i,
            ),
        forall|k: int|
            4 * density.len() <= k < old(buffer)@.len() ==> final(buffer)@[k] == old(buffer)@[k],
{
    let most: usize = max_density(density);
    let ghost before = buffer@;
    let mut i: usize = 0;
    while i < density.len()
        invariant
            i <= density.len(),
            density.len() == color.len(),
            buffer@.len() == before.len(),
            4 * density.len() <= before.len(),
            most == peak(density@),
            forall|c: u8, hits: usize, most: usize|
                0 < hits < most ==> call_requires(curve, (c, hits, most)),
            forall|j: int|
                0 <= j < i ==> #[trigger] pixel_mapped(
                    curve,
                    order,
                    before,
                    buffer@,
                    color[j],
                    density[j],
                    most,
                    j,
                ),
            forall|k: int| 4 * i <= k < before.len() ==> buffer@[k] == before[k],
        decreases density.len() - i,
    {
        let hits: usize = density[i];
        let ghost earlier = buffer@;
        if hits > 0 {
            let plain: Color = color[i];
            let toned: Color = if most <= 1 || hits >= most {
                plain
            } else {
                Color {
                    r: curve(plain.r, hits, most),
                    g: curve(plain.g, hits, most),
                    b: curve(plain.b, hits, most),
                }
            };
            write_pixel(buffer, i, order, toned);
        }
        assert forall|j: int| 0 <= j < i + 1 implies #[trigger] pixel_mapped(
            curve,
            order,
            before,
            buffer@,
            color[j],
            density[j],
            most,
            j,
        ) by {
            if j < i {
                assert(pixel_mapped(curve, order, before, earlier, color[j], density[j], most, j));
                assert(same_pixel(earlier, buffer@, j));
            }
        }
        i = i + 1;
    }
}

/// The fullest cells show their colour in full, whatever the curve, and a
/// cell without a hit leaves its pixel alone.
pub proof fn lemma_tone_extremes<F: Fn(u8, usize, usize) -> u8>(
    curve: F,
    order: ChannelOrder,
    before: Seq<u8>,
    after: Seq<u8>,
    plain: Color,
    hits: usize,
    most: usize,
    i: int,
)
    requires
        pixel_mapped(curve, order, before, after, plain, hits, most, i),
    ensures
        hits == 0 ==> same_pixel(before, after, i),
        hits > 0 && hits == most ==> pixel_at(after, order, i) == plain && padding_at(
            after,
            order,
            i,
        ) == 0,
        hits > 0 && most <= 1 ==> pixel_at(after, order, i) == plain,
{
}

} // verus!
