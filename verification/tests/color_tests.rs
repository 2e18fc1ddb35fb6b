use gold_lace::color::{average_color, chan, palette_rgba, rgb, wrap_lut_index, Node};

#[test]
fn rgb_packs_opaque_color() {
    assert_eq!(rgb(0x12, 0x34, 0x56), 0xff12_3456);
    assert_eq!(rgb(0, 0, 0), 0xff00_0000);
    assert_eq!(rgb(255, 255, 255), 0xffff_ffff);
}

#[test]
fn rgb_keeps_low_bytes_only() {
    assert_eq!(rgb(256 + 1, 512 + 2, 3), 0xff01_0203);
    assert_eq!(rgb(-1, 0, 0), 0xffff_0000);
}

#[test]
fn chan_selects_channel() {
    let n = Node { pos: 5, r: 10, g: 20, b: 30 };
    assert_eq!(chan(&n, 0), 10);
    assert_eq!(chan(&n, 1), 20);
    assert_eq!(chan(&n, 2), 30);
    assert_eq!(chan(&n, 7), 30);
}

#[test]
fn average_color_rounds_down_per_channel() {
    let c = average_color([0xff00_0000, 0xff01_0101, 0xff02_0202, 0xff03_0303]);
    assert_eq!(c, 0xff01_0101);
    let d = average_color([0xffff_0000, 0xff00_ff00, 0xff00_00ff, 0xff00_0000]);
    assert_eq!(d, 0xff3f_3f3f);
}

#[test]
fn average_of_equal_colors_is_that_color() {
    let c = 0xff80_40c0u32;
    assert_eq!(average_color([c, c, c, c]), c);
}

#[test]
fn palette_rgba_spells_out_bytes() {
    let dense = vec![0xff12_3456u32, 0xffab_cdef];
    assert_eq!(palette_rgba(&dense), vec![0x12, 0x34, 0x56, 255, 0xab, 0xcd, 0xef, 255]);
    assert!(palette_rgba(&Vec::new()).is_empty());
}

#[test]
fn lut_index_wraps() {
    assert_eq!(wrap_lut_index(5), 5);
    assert_eq!(wrap_lut_index(65536 + 7), 7);
    assert_eq!(wrap_lut_index(-1), 65535);
}
