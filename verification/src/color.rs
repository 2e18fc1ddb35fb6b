use vstd::prelude::*;

verus! {

/// Red byte of a packed `0xAARRGGBB` color.
pub open spec fn red_of(c: u32) -> u32 {
    (c >> 16u32) & 255u32
}

/// Green byte of a packed `0xAARRGGBB` color.
pub open spec fn green_of(c: u32) -> u32 {
    (c >> 8u32) & 255u32
}

/// Blue byte of a packed `0xAARRGGBB` color.
pub open spec fn blue_of(c: u32) -> u32 {
    c & 255u32
}

/// Alpha byte of a packed `0xAARRGGBB` color.
pub open spec fn alpha_of(c: u32) -> u32 {
    c >> 24u32
}

/// The low byte of a channel value, as the packer keeps it: the value taken
/// as a 32-bit two's complement word, modulo 256.
pub open spec fn channel_byte(x: i32) -> int {
    ((x as u32) % 256) as int
}

/// The opaque packed color with the given low bytes of red, green and blue.
pub open spec fn packed(r: int, g: int, b: int) -> int {
    0xff00_0000 + r * 0x1_0000 + g * 0x100 + b
}

/// Packs three channel values into an opaque `0xFFRRGGBB` word; each channel
/// keeps only its low byte.
pub fn rgb(r: i32, g: i32, b: i32) -> (c: u32)
    ensures
        c == packed(channel_byte(r), channel_byte(g), channel_byte(b)),
        red_of(c) == channel_byte(r),
        green_of(c) == channel_byte(g),
        blue_of(c) == channel_byte(b),
        alpha_of(c) == 255,
{
    let ru = r as u32;
    let gu = g as u32;
    let bu = b as u32;
    let c = 0xff00_0000u32 | ((ru & 255u32) << 16u32) | ((gu & 255u32) << 8u32) | (bu & 255u32);
    assert(c == 0xff00_0000u32 + (ru % 256) * 0x1_0000 + (gu % 256) * 0x100 + bu % 256
        && (c >> 16u32) & 255u32 == ru % 256 && (c >> 8u32) & 255u32 == gu % 256
        && c & 255u32 == bu % 256 && c >> 24u32 == 255u32) by (bit_vector)
        requires
            c == 0xff00_0000u32 | ((ru & 255u32) << 16u32) | ((gu & 255u32) << 8u32) | (bu
                & 255u32),
    ;
    c
}

/// A control point of a palette ring: its position in the circular
/// `0..1024` domain and its red, green and blue values.
#[derive(Clone, Copy, Debug, PartialEq, Eq)]
pub struct Node {
    pub pos: i32,
    pub r: i32,
    pub g: i32,
    pub b: i32,
}

/// Channel `ch` of a node: 0 is red, 1 is green, anything else is blue.
pub open spec fn chan_of(n: Node, ch: usize) -> i32 {
    if ch == 0 {
        n.r
    } else if ch == 1 {
        n.g
    } else {
        n.b
    }
}

/// Channel `ch` of a node: 0 is red, 1 is green, anything else is blue.
pub fn chan(n: &Node, ch: usize) -> (v: i32)
    ensures
        v == chan_of(*n, ch),
{
    match ch {
        0 => n.r,
        1 => n.g,
        _ => n.b,
    }
}

/// The opaque color whose channels are the rounded-down means of the
/// channels of four colors (the edge anti-aliasing average).
pub fn average_color(colors: [u32; 4]) -> (c: u32)
    ensures
        ({
            let s = colors@;
            let r = (red_of(s[0]) + red_of(s[1]) + red_of(s[2]) + red_of(s[3])) / 4;
            let g = (green_of(s[0]) + green_of(s[1]) + green_of(s[2]) + green_of(s[3])) / 4;
            let b = (blue_of(s[0]) + blue_of(s[1]) + blue_of(s[2]) + blue_of(s[3])) / 4;
            &&& c == packed(r, g, b)
            &&& red_of(c) == r
            &&& green_of(c) == g
            &&& blue_of(c) == b
        }),
{
    let mut r: u32 = 0;
    let mut g: u32 = 0;
    let mut b: u32 = 0;
    let mut k: usize = 0;
    while k < 4
        invariant
            k <= 4,
            r == if k == 0 {
                0
            } else if k == 1 {
                red_of(colors@[0]) as int
            } else if k == 2 {
                red_of(colors@[0]) + red_of(colors@[1])
            } else if k == 3 {
                red_of(colors@[0]) + red_of(colors@[1]) + red_of(colors@[2])
            } else {
                red_of(colors@[0]) + red_of(colors@[1]) + red_of(colors@[2]) + red_of(colors@[3])
            },
            g == if k == 0 {
                0
            } else if k == 1 {
                green_of(colors@[0]) as int
            } else if k == 2 {
                green_of(colors@[0]) + green_of(colors@[1])
            } else if k == 3 {
                green_of(colors@[0]) + green_of(colors@[1]) + green_of(colors@[2])
            } else {
                green_of(colors@[0]) + green_of(colors@[1]) + green_of(colors@[2]) + green_of(
                    colors@[3],
                )
            },
            b == if k == 0 {
                0
            } else if k == 1 {
                blue_of(colors@[0]) as int
            } else if k == 2 {
                blue_of(colors@[0]) + blue_of(colors@[1])
            } else if k == 3 {
                blue_of(colors@[0]) + blue_of(colors@[1]) + blue_of(colors@[2])
            } else {
                blue_of(colors@[0]) + blue_of(colors@[1]) + blue_of(colors@[2]) + blue_of(
                    colors@[3],
                )
            },
            r <= 255 * k,
            g <= 255 * k,
            b <= 255 * k,
        decreases 4 - k,
    {
        let c = colors[k];
        let cr = (c >> 16u32) & 255u32;
        let cg = (c >> 8u32) & 255u32;
        let cb = c & 255u32;
        assert(cr <= 255 && cg <= 255 && cb <= 255) by (bit_vector)
            requires
                cr == (c >> 16u32) & 255u32,
                cg == (c >> 8u32) & 255u32,
                cb == c & 255u32,
        ;
        r = r + cr;
        g = g + cg;
        b = b + cb;
        k = k + 1;
    }
    let c = rgb((r / 4) as i32, (g / 4) as i32, (b / 4) as i32);
    c
}

/// An opaque color is the average of four copies of itself.
pub proof fn lemma_average_of_equal(c: u32)
    requires
        alpha_of(c) == 255,
    ensures
        c == packed(
            (red_of(c) + red_of(c) + red_of(c) + red_of(c)) / 4,
            (green_of(c) + green_of(c) + green_of(c) + green_of(c)) / 4,
            (blue_of(c) + blue_of(c) + blue_of(c) + blue_of(c)) / 4,
        ),
{
    assert(c == 0xff00_0000u32 + ((c >> 16u32) & 255u32) * 0x1_0000 + ((c >> 8u32) & 255u32)
        * 0x100 + (c & 255u32)) by (bit_vector)
        requires
            c >> 24u32 == 255u32,
    ;
}

/// Packing and then reading the channels back gives the channel values of
/// any color whose channels are bytes.
pub proof fn lemma_channels_round_trip(r: i32, g: i32, b: i32)
    requires
        0 <= r < 256,
        0 <= g < 256,
        0 <= b < 256,
    ensures
        channel_byte(r) == r,
        channel_byte(g) == g,
        channel_byte(b) == b,
{
}

/// The RGBA bytes of a dense palette table, four per entry, alpha opaque.
pub fn palette_rgba(dense: &Vec<u32>) -> (bytes: Vec<u8>)
    requires
        dense.len() * 4 <= usize::MAX,
    ensures
        bytes.len() == 4 * dense.len(),
        forall|i: int|
            0 <= i < dense.len() ==> {
                &&& bytes[4 * i] == red_of(#[trigger] dense[i])
                &&& bytes[4 * i + 1] == green_of(dense[i])
                &&& bytes[4 * i + 2] == blue_of(dense[i])
                &&& bytes[4 * i + 3] == 255
            },
{
    let mut bytes: Vec<u8> = Vec::new();
    let mut i: usize = 0;
    while i < dense.len()
        invariant
            i <= dense.len(),
            dense.len() * 4 <= usize::MAX,
            bytes.len() == 4 * i,
            forall|j: int|
                0 <= j < i ==> {
                    &&& bytes[4 * j] == red_of(#[trigger] dense[j])
                    &&& bytes[4 * j + 1] == green_of(dense[j])
                    &&& bytes[4 * j + 2] == blue_of(dense[j])
                    &&& bytes[4 * j + 3] == 255
                },
        decreases dense.len() - i,
    {
        let px = dense[i];
        let r = (px >> 16u32) & 255u32;
        let g = (px >> 8u32) & 255u32;
        let b = px & 255u32;
        assert(r < 256 && g < 256 && b < 256) by (bit_vector)
            requires
                r == (px >> 16u32) & 255u32,
                g == (px >> 8u32) & 255u32,
                b == px & 255u32,
        ;
        bytes.push(r as u8);
        bytes.push(g as u8);
        bytes.push(b as u8);
        bytes.push(255u8);
        i = i + 1;
    }
    bytes
}

/// Index into a trigonometric table of 65536 entries for an already rounded
/// phase: the phase as a 32-bit word, modulo 65536.
pub fn wrap_lut_index(phase: i32) -> (i: usize)
    ensures
        i == (phase as u32) % 65536,
        i < 65536,
{
    let w = (phase as u32) & 0xffffu32;
    assert(w == (phase as u32) % 65536 && w < 65536) by (bit_vector)
        requires
            w == (phase as u32) & 0xffffu32,
    ;
    w as usize
}

} // verus!
