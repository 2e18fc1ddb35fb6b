use gold_lace::color::{chan, rgb, Node};
use gold_lace::palette::{
    build_dense_palette, color_at, palettes_from_records, segment_for, sort_nodes, Palette,
    PaletteError, PaletteRecord, PAL_N,
};

fn node(pos: i32, r: i32, g: i32, b: i32) -> Node {
    Node { pos, r, g, b }
}

fn rec(name: &str, phase: i32, nodes: Vec<[i32; 4]>) -> PaletteRecord {
    PaletteRecord { name: name.to_string(), phase, nodes }
}

#[test]
fn sort_orders_by_position() {
    let mut v = vec![node(700, 1, 1, 1), node(10, 2, 2, 2), node(300, 3, 3, 3)];
    sort_nodes(&mut v);
    let pos: Vec<i32> = v.iter().map(|n| n.pos).collect();
    assert_eq!(pos, vec![10, 300, 700]);
    assert_eq!(v[0], node(10, 2, 2, 2));
}

#[test]
fn sort_keeps_order_of_equal_positions() {
    let mut v = vec![node(5, 1, 0, 0), node(1, 9, 9, 9), node(5, 2, 0, 0), node(5, 3, 0, 0)];
    sort_nodes(&mut v);
    assert_eq!(
        v,
        vec![node(1, 9, 9, 9), node(5, 1, 0, 0), node(5, 2, 0, 0), node(5, 3, 0, 0)]
    );
}

#[test]
fn sort_of_sorted_is_unchanged() {
    let sorted = vec![node(0, 1, 2, 3), node(512, 4, 5, 6), node(1000, 7, 8, 9)];
    let mut v = sorted.clone();
    sort_nodes(&mut v);
    assert_eq!(v, sorted);
    sort_nodes(&mut v);
    assert_eq!(v, sorted);
}

#[test]
fn records_empty_list_is_refused() {
    match palettes_from_records(Vec::new()) {
        Err(PaletteError::NoPalettes) => {}
        other => panic!("unexpected: {:?}", other.err()),
    }
}

#[test]
fn records_first_empty_palette_is_named() {
    let recs = vec![
        rec("A", 0, vec![[0, 1, 2, 3]]),
        rec("B", 0, vec![]),
        rec("C", 0, vec![]),
    ];
    match palettes_from_records(recs) {
        Err(PaletteError::EmptyPalette(name)) => assert_eq!(name, "B"),
        other => panic!("unexpected: {:?}", other.err()),
    }
}

#[test]
fn records_become_palettes() {
    let recs = vec![
        rec("Camomile", 12, vec![[0, 255, 255, 200], [512, 200, 150, 0]]),
        rec("Ice III", -3, vec![[100, 1, 2, 3]]),
    ];
    let pals = palettes_from_records(recs).unwrap();
    assert_eq!(pals.len(), 2);
    assert_eq!(pals[0].name, "Camomile");
    assert_eq!(pals[0].phase, 12);
    assert_eq!(pals[0].nodes, vec![node(0, 255, 255, 200), node(512, 200, 150, 0)]);
    assert_eq!(pals[0].dense.len(), PAL_N);
    assert!(pals[0].dense.iter().all(|&c| c == 0));
    assert_eq!(pals[1].name, "Ice III");
    assert_eq!(pals[1].phase, -3);
    assert_eq!(pals[1].nodes, vec![node(100, 1, 2, 3)]);
}

#[test]
fn segment_inside_ring() {
    let v = vec![node(0, 0, 0, 0), node(256, 0, 0, 0), node(512, 0, 0, 0), node(768, 0, 0, 0)];
    let s = segment_for(&v, 300);
    assert_eq!((s.prev, s.cur, s.next, s.after), (0, 1, 2, 3));
    assert_eq!((s.xp, s.x0, s.x1, s.x2, s.at), (0, 256, 512, 768, 300));
}

#[test]
fn segment_wrapping_past_the_end() {
    let v = vec![node(0, 0, 0, 0), node(256, 0, 0, 0), node(512, 0, 0, 0), node(768, 0, 0, 0)];
    let s = segment_for(&v, 900);
    assert_eq!((s.prev, s.cur, s.next, s.after), (2, 3, 0, 1));
    assert_eq!((s.xp, s.x0, s.x1, s.x2, s.at), (512, 768, 1024, 1280, 900));
}

#[test]
fn segment_lifts_phase_below_first_node() {
    let v = vec![node(100, 0, 0, 0), node(600, 0, 0, 0)];
    let s = segment_for(&v, 0);
    assert_eq!((s.prev, s.cur, s.next, s.after), (0, 1, 0, 1));
    assert_eq!((s.xp, s.x0, s.x1, s.x2, s.at), (100, 600, 1124, 1624, 1024));
}

#[test]
fn segment_of_single_node_ring() {
    let v = vec![node(10, 0, 0, 0)];
    let s = segment_for(&v, 5);
    assert_eq!((s.prev, s.cur, s.next, s.after), (0, 0, 0, 0));
    assert_eq!((s.xp, s.x0, s.x1, s.x2, s.at), (10, 10, 1034, 2058, 1029));
}

#[test]
fn segment_not_found_falls_back_to_first() {
    let v = vec![node(2000, 0, 0, 0), node(3000, 0, 0, 0)];
    let s = segment_for(&v, 5);
    assert_eq!(s.cur, 0);
    assert_eq!(s.at, 5);
    assert_eq!((s.x0, s.x1), (2000, 3000));
}

#[test]
fn dense_palette_packs_sampled_channels() {
    let mut p = Palette {
        name: "T".to_string(),
        phase: 0,
        nodes: vec![node(500, 7, 8, 9), node(20, 1, 2, 3)],
        dense: vec![0; PAL_N + 2],
    };
    p.dense[PAL_N] = 77;
    build_dense_palette(&mut p, |nodes: &Vec<Node>, ph: i32, ch: usize| {
        if ch == 0 {
            ph
        } else {
            chan(&nodes[0], ch)
        }
    });
    assert_eq!(p.nodes, vec![node(20, 1, 2, 3), node(500, 7, 8, 9)]);
    assert_eq!(p.dense.len(), PAL_N + 2);
    assert_eq!(p.dense[0], rgb(0, 2, 3));
    assert_eq!(p.dense[300], rgb(300, 2, 3));
    assert_eq!(p.dense[300], 0xff2c_0203);
    assert_eq!(p.dense[PAL_N - 1], rgb(1023, 2, 3));
    assert_eq!(p.dense[PAL_N], 77);
    assert_eq!(p.dense[PAL_N + 1], 0);
}

#[test]
fn color_at_wraps_index() {
    let mut dense = vec![0u32; PAL_N];
    for (i, c) in dense.iter_mut().enumerate() {
        *c = i as u32;
    }
    let p = Palette { name: "W".to_string(), phase: 0, nodes: vec![node(0, 0, 0, 0)], dense };
    assert_eq!(color_at(&p, 5), 5);
    assert_eq!(color_at(&p, 1024 + 9), 9);
    assert_eq!(color_at(&p, -1), 1023);
}

#[test]
fn ordered_ring_covers_every_phase() {
    let v = vec![node(3, 0, 0, 0), node(200, 0, 0, 0), node(200, 0, 0, 0), node(1000, 0, 0, 0)];
    for phase in 0..1024 {
        let s = segment_for(&v, phase);
        assert!(s.x0 <= s.at && s.at < s.x1, "phase {}", phase);
        assert!(s.at == phase as i64 || s.at == phase as i64 + 1024);
    }
}

#[test]
fn dense_table_ignores_node_order() {
    let nodes = vec![node(700, 10, 20, 30), node(5, 40, 50, 60), node(300, 70, 80, 90)];
    let mut rev = nodes.clone();
    rev.reverse();
    let mk = |ns: Vec<Node>| Palette { name: "X".to_string(), phase: 3, nodes: ns, dense: vec![0; PAL_N] };
    let mut p1 = mk(nodes);
    let mut p2 = mk(rev);
    let sampler = |ns: &Vec<Node>, ph: i32, ch: usize| chan(&ns[(ph as usize) % ns.len()], ch) + ph;
    build_dense_palette(&mut p1, sampler);
    build_dense_palette(&mut p2, sampler);
    assert_eq!(p1.nodes, p2.nodes);
    assert_eq!(p1.dense, p2.dense);
}
