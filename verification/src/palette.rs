use vstd::prelude::*;

use crate::color::{channel_byte, packed, rgb, Node};

verus! {

/// Number of entries of a dense palette table.
pub const PAL_N: usize = 1024;

/// Where a node with position `p` goes when it is added to `s`: right after
/// the last node, counted from the back, whose position is at most `p`.
pub open spec fn insert_pos(s: Seq<Node>, p: i32) -> nat
    decreases s.len(),
{
    if s.len() == 0 {
        0
    } else if s.last().pos <= p {
        s.len()
    } else {
        insert_pos(s.drop_last(), p)
    }
}

/// The nodes ordered by position; nodes with equal positions keep their
/// input order (a stable sort).
pub open spec fn sorted_nodes(s: Seq<Node>) -> Seq<Node>
    decreases s.len(),
{
    if s.len() == 0 {
        s
    } else {
        let r = sorted_nodes(s.drop_last());
        r.insert(insert_pos(r, s.last().pos) as int, s.last())
    }
}

/// Positions never decrease along the sequence.
pub open spec fn is_sorted_by_pos(s: Seq<Node>) -> bool {
    forall|i: int, j: int| 0 <= i <= j < s.len() ==> s[i].pos <= s[j].pos
}

proof fn lemma_insert_pos_bounds(s: Seq<Node>, p: i32)
    ensures
        insert_pos(s, p) <= s.len(),
        forall|k: int| insert_pos(s, p) <= k < s.len() ==> s[k].pos > p,
        insert_pos(s, p) > 0 ==> s[insert_pos(s, p) - 1].pos <= p,
    decreases s.len(),
{
    if s.len() > 0 && s.last().pos > p {
        let t = s.drop_last();
        lemma_insert_pos_bounds(t, p);
        assert forall|k: int| insert_pos(s, p) <= k < s.len() implies s[k].pos > p by {
            if k < t.len() {
                assert(s[k] == t[k]);
            }
        }
    }
}

proof fn lemma_insert_pos_take(s: Seq<Node>, p: i32, j: int)
    requires
        0 <= j <= s.len(),
        forall|k: int| j <= k < s.len() ==> s[k].pos > p,
    ensures
        insert_pos(s, p) == insert_pos(s.take(j), p),
    decreases s.len() - j,
{
    if j < s.len() {
        assert(s.drop_last().take(j) =~= s.take(j));
        lemma_insert_pos_take(s.drop_last(), p, j);
    } else {
        assert(s.take(j) =~= s);
    }
}

/// The stable order by position is sorted and holds the same nodes.
pub proof fn lemma_sorted_nodes(s: Seq<Node>)
    ensures
        is_sorted_by_pos(sorted_nodes(s)),
        sorted_nodes(s).to_multiset() =~= s.to_multiset(),
        sorted_nodes(s).len() == s.len(),
    decreases s.len(),
{
    if s.len() > 0 {
        let r = sorted_nodes(s.drop_last());
        lemma_sorted_nodes(s.drop_last());
        let x = s.last();
        let k = insert_pos(r, x.pos) as int;
        lemma_insert_pos_bounds(r, x.pos);
        let out = r.insert(k, x);
        assert forall|i: int, j: int| 0 <= i <= j < out.len() implies out[i].pos <= out[j].pos by {
            if i < k && j < k {
            } else if i < k && j == k {
                assert(r[i].pos <= r[k - 1].pos);
            } else if i < k && j > k {
                assert(r[i].pos <= r[j - 1].pos);
            } else if i == k && j > k {
                assert(r[j - 1].pos > x.pos);
            } else if i > k {
            }
        }
        vstd::seq_lib::to_multiset_insert(r, k, x);
        assert(s =~= s.drop_last().push(x));
        vstd::seq_lib::to_multiset_build(s.drop_last(), x);
    }
}

/// Ordering nodes that are already in order changes nothing.
pub proof fn lemma_sorted_is_fixed(s: Seq<Node>)
    requires
        is_sorted_by_pos(s),
    ensures
        sorted_nodes(s) == s,
    decreases s.len(),
{
    if s.len() > 0 {
        let t = s.drop_last();
        assert(is_sorted_by_pos(t)) by {
            assert forall|i: int, j: int| 0 <= i <= j < t.len() implies t[i].pos <= t[j].pos by {
                assert(t[i] == s[i] && t[j] == s[j]);
            }
        }
        lemma_sorted_is_fixed(t);
        if t.len() > 0 {
            assert(t.last() == s[s.len() - 2]);
            assert(t.last().pos <= s.last().pos);
        }
        assert(insert_pos(t, s.last().pos) == t.len());
        assert(t.insert(t.len() as int, s.last()) =~= s);
    }
}

/// Ordering is idempotent: ordering an ordered ring changes nothing.
pub proof fn lemma_sort_idempotent(s: Seq<Node>)
    ensures
        sorted_nodes(sorted_nodes(s)) == sorted_nodes(s),
{
    lemma_sorted_nodes(s);
    lemma_sorted_is_fixed(sorted_nodes(s));
}

proof fn lemma_first_cover_at_most(s: Seq<Node>, phase: int, i: int, c: int)
    requires
        0 <= i <= c < s.len(),
        covers(s, c, phase),
    ensures
        first_cover_from(s, phase, i) <= c,
    decreases c - i,
{
    if !covers(s, i, phase) {
        lemma_first_cover_at_most(s, phase, i + 1, c);
    }
}

proof fn lemma_find_gap(s: Seq<Node>, phase: int, i: int) -> (c: int)
    requires
        0 <= i < s.len() - 1,
        s[i].pos <= phase,
        s[s.len() - 1].pos > phase,
    ensures
        i <= c < s.len() - 1,
        s[c].pos <= phase < s[c + 1].pos,
    decreases s.len() - i,
{
    if s[i + 1].pos > phase {
        i
    } else {
        lemma_find_gap(s, phase, i + 1)
    }
}

/// On an ordered ring whose positions lie in `0..1024`, every phase in
/// `0..1024` lies in some segment, so the segment search always finds one.
pub proof fn lemma_ordered_ring_covers(s: Seq<Node>, phase: int)
    requires
        s.len() > 0,
        is_sorted_by_pos(s),
        forall|i: int| 0 <= i < s.len() ==> 0 <= #[trigger] s[i].pos < 1024,
        0 <= phase < 1024,
    ensures
        first_cover_from(s, phase, 0) < s.len(),
{
    let n = s.len() as int;
    let last = n - 1;
    assert(0 <= s[0].pos < 1024);
    assert(0 <= s[last].pos < 1024);
    if phase >= s[last].pos || phase < s[0].pos {
        assert((last + 1) % n == 0) by {
            vstd::arithmetic::div_mod::lemma_mod_self_0(n);
        }
        assert(s[0].pos <= s[last].pos);
        assert(covers(s, last, phase));
        lemma_first_cover_at_most(s, phase, 0, last);
    } else {
        let c = lemma_find_gap(s, phase, 0);
        assert((c + 1) % n == c + 1) by {
            vstd::arithmetic::div_mod::lemma_small_mod((c + 1) as nat, n as nat);
        }
        assert(covers(s, c, phase));
        lemma_first_cover_at_most(s, phase, 0, c);
    }
}

/// Orders the nodes by position, keeping the input order of nodes with
/// equal positions.
pub fn sort_nodes(nodes: &mut Vec<Node>)
    ensures
        final(nodes)@ == sorted_nodes(old(nodes)@),
{
    let mut out: Vec<Node> = Vec::new();
    let n = nodes.len();
    let mut i: usize = 0;
    while i < n
        invariant
            n == nodes.len(),
            i <= n,
            out@ == sorted_nodes(nodes@.take(i as int)),
        decreases n - i,
    {
        let x = nodes[i];
        let mut j = out.len();
        while j > 0 && out[j - 1].pos > x.pos
            invariant
                j <= out.len(),
                forall|k: int| j <= k < out.len() ==> out@[k].pos > x.pos,
            decreases j,
        {
            j = j - 1;
        }
        proof {
            lemma_insert_pos_take(out@, x.pos, j as int);
            assert(insert_pos(out@.take(j as int), x.pos) == j) by {
                if j > 0 {
                    assert(out@.take(j as int).last().pos <= x.pos);
                } else {
                    assert(out@.take(0) =~= Seq::<Node>::empty());
                }
            }
            assert(nodes@.take(i + 1).drop_last() =~= nodes@.take(i as int));
        }
        out.insert(j, x);
        i = i + 1;
    }
    assert(nodes@.take(n as int) =~= nodes@);
    *nodes = out;
}

/// A palette ring as stored: a name, a phase (rotation of the ring in the
/// `0..1024` domain) and control points given as `[pos, r, g, b]`.
pub struct PaletteRecord {
    pub name: String,
    pub phase: i32,
    pub nodes: Vec<[i32; 4]>,
}

/// A palette ring with its control points and its dense color table.
pub struct Palette {
    pub name: String,
    pub phase: i32,
    pub nodes: Vec<Node>,
    pub dense: Vec<u32>,
}

/// Why a list of palette records was refused.
#[derive(Debug)]
pub enum PaletteError {
    /// The list holds no palette.
    NoPalettes,
    /// The named palette has no control point.
    EmptyPalette(String),
}

/// The node that a stored `[pos, r, g, b]` quadruple stands for.
pub open spec fn node_of(a: [i32; 4]) -> Node {
    Node { pos: a@[0], r: a@[1], g: a@[2], b: a@[3] }
}

/// Index of the first record without control points, at or after `i`; the
/// length of the list when there is none.
pub open spec fn first_empty_from(recs: Seq<PaletteRecord>, i: int) -> int
    decreases recs.len() - i,
{
    if i < 0 || i >= recs.len() {
        recs.len() as int
    } else if recs[i].nodes.len() == 0 {
        i
    } else {
        first_empty_from(recs, i + 1)
    }
}

/// The palette that a record becomes before its dense table is filled: the
/// same name, phase and nodes, and a table of `PAL_N` zeros.
pub open spec fn palette_from_record(p: Palette, rec: PaletteRecord) -> bool {
    &&& p.name@ == rec.name@
    &&& p.phase == rec.phase
    &&& p.nodes@ == rec.nodes@.map_values(|a: [i32; 4]| node_of(a))
    &&& p.dense@.len() == PAL_N
    &&& forall|k: int| 0 <= k < PAL_N ==> p.dense@[k] == 0
}

proof fn lemma_first_empty_bounds(recs: Seq<PaletteRecord>, i: int)
    requires
        0 <= i <= recs.len(),
    ensures
        i <= first_empty_from(recs, i) <= recs.len(),
        forall|k: int| i <= k < first_empty_from(recs, i) ==> recs[k].nodes.len() > 0,
        first_empty_from(recs, i) < recs.len() ==> recs[first_empty_from(recs, i)].nodes.len()
            == 0,
    decreases recs.len() - i,
{
    if i < recs.len() && recs[i].nodes.len() > 0 {
        lemma_first_empty_bounds(recs, i + 1);
    }
}

/// Turns stored palette records into palettes with zeroed dense tables, in
/// order. Refuses an empty list, and a list where some palette has no
/// control point (naming the first such palette).
pub fn palettes_from_records(records: Vec<PaletteRecord>) -> (res: Result<
    Vec<Palette>,
    PaletteError,
>)
    ensures
        match res {
            Err(PaletteError::NoPalettes) => records.len() == 0,
            Err(PaletteError::EmptyPalette(name)) => {
                &&& records.len() > 0
                &&& first_empty_from(records@, 0) < records.len()
                &&& name@ == records@[first_empty_from(records@, 0)].name@
            },
            Ok(pals) => {
                &&& records.len() > 0
                &&& first_empty_from(records@, 0) == records.len()
                &&& pals.len() == records.len()
                &&& forall|i: int|
                    0 <= i < records.len() ==> palette_from_record(
                        #[trigger] pals@[i],
                        records@[i],
                    )
            },
        },
{
    if records.len() == 0 {
        return Err(PaletteError::NoPalettes);
    }
    let mut pals: Vec<Palette> = Vec::new();
    let mut i: usize = 0;
    while i < records.len()
        invariant
            i <= records.len(),
            records.len() > 0,
            pals.len() == i,
            forall|k: int| 0 <= k < i ==> records@[k].nodes.len() > 0,
            forall|k: int| 0 <= k < i ==> palette_from_record(#[trigger] pals@[k], records@[k]),
        decreases records.len() - i,
    {
        let rec = &records[i];
        if rec.nodes.len() == 0 {
            proof {
                lemma_first_empty_bounds(records@, 0);
                if first_empty_from(records@, 0) != i {
                    assert(records@[first_empty_from(records@, 0) as int].nodes.len() == 0);
                }
            }
            return Err(PaletteError::EmptyPalette(rec.name.clone()));
        }
        let mut nodes: Vec<Node> = Vec::new();
        let mut j: usize = 0;
        while j < rec.nodes.len()
            invariant
                j <= rec.nodes.len(),
                nodes.len() == j,
                forall|k: int| 0 <= k < j ==> nodes@[k] == node_of(#[trigger] rec.nodes@[k]),
            decreases rec.nodes.len() - j,
        {
            let a = rec.nodes[j];
            nodes.push(Node { pos: a[0], r: a[1], g: a[2], b: a[3] });
            j = j + 1;
        }
        assert(nodes@ =~= rec.nodes@.map_values(|a: [i32; 4]| node_of(a)));
        let dense: Vec<u32> = vec![0u32; PAL_N];
        pals.push(Palette { name: rec.name.clone(), phase: rec.phase, nodes, dense });
        i = i + 1;
    }
    proof {
        lemma_first_empty_bounds(records@, 0);
    }
    Ok(pals)
}

/// End of the ring segment that starts at node `i`: the next node's
/// position, lifted by 1024 when the segment wraps around.
pub open spec fn seg_end(s: Seq<Node>, i: int) -> int {
    let x0 = s[i].pos as int;
    let x1 = s[(i + 1) % (s.len() as int)].pos as int;
    if x1 <= x0 {
        x1 + 1024
    } else {
        x1
    }
}

/// A phase lifted by 1024 when it lies below `x0`.
pub open spec fn lifted(phase: int, x0: int) -> int {
    if phase < x0 {
        phase + 1024
    } else {
        phase
    }
}

/// Whether the segment that starts at node `i` holds the phase.
pub open spec fn covers(s: Seq<Node>, i: int, phase: int) -> bool {
    let x0 = s[i].pos as int;
    let q = lifted(phase, x0);
    x0 <= q && q < seg_end(s, i)
}

/// The first segment, at or after `i`, that holds the phase; the number of
/// nodes when none does.
pub open spec fn first_cover_from(s: Seq<Node>, phase: int, i: int) -> int
    decreases s.len() - i,
{
    if i < 0 || i >= s.len() {
        s.len() as int
    } else if covers(s, i, phase) {
        i
    } else {
        first_cover_from(s, phase, i + 1)
    }
}

/// The smallest value `a + 1024 * k` (`k >= 0`) that exceeds `x`.
pub open spec fn lift_past(a: int, x: int) -> int {
    if a > x {
        a
    } else {
        a + 1024 * ((x - a) / 1024 + 1)
    }
}

/// The four ring nodes around the segment that holds a phase, with their
/// positions unwrapped onto one line, and the phase placed on that line.
#[derive(Clone, Copy, Debug)]
pub struct Segment {
    pub prev: usize,
    pub cur: usize,
    pub next: usize,
    pub after: usize,
    pub xp: i64,
    pub x0: i64,
    pub x1: i64,
    pub x2: i64,
    pub at: i64,
}

proof fn lemma_first_cover_bounds(s: Seq<Node>, phase: int, i: int)
    requires
        0 <= i <= s.len(),
    ensures
        i <= first_cover_from(s, phase, i) <= s.len(),
        forall|k: int| i <= k < first_cover_from(s, phase, i) ==> !covers(s, k, phase),
        first_cover_from(s, phase, i) < s.len() ==> covers(s, first_cover_from(s, phase, i), phase),
    decreases s.len() - i,
{
    if i < s.len() && !covers(s, i, phase) {
        lemma_first_cover_bounds(s, phase, i + 1);
    }
}

/// Finds the ring segment that holds `phase` (the first one, searching from
/// node 0; node 0 when none does) and the nodes and unwrapped positions that
/// the cubic interpolation over it uses.
pub fn segment_for(nodes: &Vec<Node>, phase: i32) -> (sg: Segment)
    requires
        nodes.len() > 0,
    ensures
        ({
            let s = nodes@;
            let n = s.len() as int;
            let f = first_cover_from(s, phase as int, 0);
            &&& sg.cur == (if f < n { f } else { 0 })
            &&& sg.at == (if f < n { lifted(phase as int, s[f].pos as int) } else { phase as int })
            &&& sg.prev == (sg.cur + n - 1) % n
            &&& sg.next == (sg.cur + 1) % n
            &&& sg.after == (sg.cur + 2) % n
            &&& sg.x0 == s[sg.cur as int].pos
            &&& sg.xp == (if s[sg.prev as int].pos > sg.x0 {
                s[sg.prev as int].pos - 1024
            } else {
                s[sg.prev as int].pos as int
            })
            &&& sg.x1 == (if s[sg.next as int].pos <= sg.x0 {
                s[sg.next as int].pos + 1024
            } else {
                s[sg.next as int].pos as int
            })
            &&& sg.x2 == lift_past(s[sg.after as int].pos as int, sg.x1 as int)
            &&& f < n ==> sg.x0 <= sg.at < sg.x1
        }),
{
    let n = nodes.len();
    let ph = phase as i64;
    let mut seg: usize = 0;
    let mut at: i64 = ph;
    let mut i: usize = 0;
    let ghost s = nodes@;
    while i < n
        invariant_except_break
            n == nodes.len(),
            s == nodes@,
            ph == phase as i64,
            i <= n,
            seg == 0,
            at == ph,
            forall|k: int| 0 <= k < i ==> !covers(s, k, phase as int),
        ensures
            n == nodes.len(),
            s == nodes@,
            (seg == 0 && at == ph && forall|k: int| 0 <= k < n ==> !covers(s, k, phase as int))
                || (seg < n && covers(s, seg as int, phase as int) && at == lifted(
                phase as int,
                s[seg as int].pos as int,
            ) && forall|k: int| 0 <= k < seg ==> !covers(s, k, phase as int)),
        decreases n - i,
    {
        let j = (i + 1) % n;
        let x0 = nodes[i].pos as i64;
        let mut x1 = nodes[j].pos as i64;
        if x1 <= x0 {
            x1 = x1 + 1024;
        }
        let mut q = ph;
        if q < x0 {
            q = q + 1024;
        }
        assert(j as int == (i + 1) % (s.len() as int));
        assert(x0 == s[i as int].pos);
        assert(x1 == seg_end(s, i as int));
        assert(q == lifted(phase as int, x0 as int));
        assert(covers(s, i as int, phase as int) <==> (q >= x0 && q < x1));
        if q >= x0 && q < x1 {
            seg = i;
            at = q;
            break ;
        }
        i = i + 1;
    }
    proof {
        lemma_first_cover_bounds(s, phase as int, 0);
    }
    let prev = if seg == 0 {
        n - 1
    } else {
        seg - 1
    };
    let next = if seg + 1 == n {
        0
    } else {
        seg + 1
    };
    let after = if next + 1 == n {
        0
    } else {
        next + 1
    };
    assert(prev == (seg + n - 1) % (n as int)) by (nonlinear_arith)
        requires
            seg < n,
            prev == (if seg == 0 { n - 1 } else { seg - 1 }),
    ;
    assert(next == (seg + 1) % (n as int)) by (nonlinear_arith)
        requires
            seg < n,
            next == (if seg + 1 == n { 0 } else { seg + 1 }),
    ;
    assert(after == (seg + 2) % (n as int)) by (nonlinear_arith)
        requires
            seg < n,
            next < n,
            next == (if seg + 1 == n { 0 } else { seg + 1 }),
            after == (if next + 1 == n { 0 } else { next + 1 }),
    ;
    let x0 = nodes[seg].pos as i64;
    let mut xp = nodes[prev].pos as i64;
    if xp > x0 {
        xp = xp - 1024;
    }
    let mut x1 = nodes[next].pos as i64;
    if x1 <= x0 {
        x1 = x1 + 1024;
    }
    let a = nodes[after].pos as i64;
    let mut x2 = a;
    let ghost mut k: int = 0;
    while x2 <= x1
        invariant
            x2 == a + 1024 * k,
            k >= 0,
            k > 0 ==> x2 - 1024 <= x1,
            x1 <= i32::MAX + 1024,
            a >= i32::MIN,
        decreases x1 + 1024 - x2,
    {
        x2 = x2 + 1024;
        proof {
            k = k + 1;
        }
    }
    proof {
        if k > 0 {
            assert((x1 - a) / 1024 == k - 1) by (nonlinear_arith)
                requires
                    x2 == a + 1024 * k,
                    x2 - 1024 <= x1,
                    x1 < x2,
            ;
        }
    }
    Segment { prev, cur: seg, next, after, xp, x0, x1, x2, at }
}

/// The color `c` packs the red, green and blue values that `sample` can
/// give for phase `ph` over `nodes`.
pub open spec fn sampled_color<F: Fn(&Vec<Node>, i32, usize) -> i32>(
    sample: F,
    nodes: Vec<Node>,
    ph: i32,
    c: u32,
) -> bool {
    exists|r: i32, g: i32, b: i32|
        #![trigger sample.ensures((&nodes, ph, 0usize), r), sample.ensures((&nodes, ph, 1usize), g), sample.ensures((&nodes, ph, 2usize), b)]
        {
            &&& sample.ensures((&nodes, ph, 0usize), r)
            &&& sample.ensures((&nodes, ph, 1usize), g)
            &&& sample.ensures((&nodes, ph, 2usize), b)
            &&& c == packed(channel_byte(r), channel_byte(g), channel_byte(b))
        }
}

/// Every entry that the dense table gets from a sampler is an opaque color.
pub proof fn lemma_sampled_color_opaque<F: Fn(&Vec<Node>, i32, usize) -> i32>(
    sample: F,
    nodes: Vec<Node>,
    ph: i32,
    c: u32,
)
    requires
        sampled_color(sample, nodes, ph, c),
    ensures
        crate::color::alpha_of(c) == 255,
{
    let (r, g, b) = choose|r: i32, g: i32, b: i32|
        {
            &&& sample.ensures((&nodes, ph, 0usize), r)
            &&& sample.ensures((&nodes, ph, 1usize), g)
            &&& sample.ensures((&nodes, ph, 2usize), b)
            &&& c == packed(channel_byte(r), channel_byte(g), channel_byte(b))
        };
    let rb = (r as u32) % 256;
    let gb = (g as u32) % 256;
    let bb = (b as u32) % 256;
    assert(c >> 24u32 == 255u32) by (bit_vector)
        requires
            rb < 256,
            gb < 256,
            bb < 256,
            c == 0xff00_0000u32 + rb * 0x1_0000u32 + gb * 0x100u32 + bb,
    ;
}

/// `q` is `p` after the dense table was built with `sample`: the same name
/// and phase, the nodes in stable position order, the first `PAL_N` table
/// entries packing what `sample` gives over the ordered nodes, and the later
/// entries unchanged.
pub open spec fn dense_built<F: Fn(&Vec<Node>, i32, usize) -> i32>(
    sample: F,
    p: Palette,
    q: Palette,
) -> bool {
    &&& q.name == p.name
    &&& q.phase == p.phase
    &&& q.nodes@ == sorted_nodes(p.nodes@)
    &&& q.dense.len() == p.dense.len()
    &&& forall|k: int| PAL_N <= k < p.dense.len() ==> q.dense@[k] == p.dense@[k]
    &&& forall|ph: int|
        0 <= ph < PAL_N ==> sampled_color(sample, q.nodes, ph as i32, #[trigger] q.dense@[ph])
}

/// No two nodes share a position.
pub open spec fn distinct_positions(s: Seq<Node>) -> bool {
    forall|i: int, j: int| 0 <= i < j < s.len() ==> #[trigger] s[i].pos != #[trigger] s[j].pos
}

proof fn lemma_in_multiset(s: Seq<Node>, t: Seq<Node>, x: Node) -> (k: int)
    requires
        s.to_multiset() == t.to_multiset(),
        t.contains(x),
    ensures
        0 <= k < s.len(),
        s[k] == x,
{
    vstd::seq_lib::to_multiset_contains(t, x);
    vstd::seq_lib::to_multiset_contains(s, x);
    choose|k: int| 0 <= k < s.len() && s[k] == x
}

proof fn lemma_sorted_distinct(s: Seq<Node>)
    requires
        distinct_positions(s),
    ensures
        distinct_positions(sorted_nodes(s)),
    decreases s.len(),
{
    if s.len() > 0 {
        let t = s.drop_last();
        let x = s.last();
        assert(distinct_positions(t)) by {
            assert forall|i: int, j: int| 0 <= i < j < t.len() implies #[trigger] t[i].pos
                != #[trigger] t[j].pos by {
                assert(t[i] == s[i] && t[j] == s[j]);
            }
        }
        lemma_sorted_distinct(t);
        lemma_sorted_nodes(t);
        let r = sorted_nodes(t);
        let k = insert_pos(r, x.pos) as int;
        lemma_insert_pos_bounds(r, x.pos);
        assert forall|i: int| 0 <= i < r.len() implies r[i].pos != x.pos by {
            assert(r.contains(r[i]));
            let m = lemma_in_multiset(t, r, r[i]);
            assert(s[m] == t[m]);
            assert(s[m].pos != s[s.len() - 1].pos);
        }
        let out = r.insert(k, x);
        assert forall|i: int, j: int| 0 <= i < j < out.len() implies #[trigger] out[i].pos
            != #[trigger] out[j].pos by {
            if i < k && j < k {
            } else if i < k && j == k {
            } else if i < k && j > k {
                assert(out[j] == r[j - 1]);
            } else if i == k {
                assert(out[j] == r[j - 1]);
            } else {
                assert(out[i] == r[i - 1] && out[j] == r[j - 1]);
            }
        }
    }
}

proof fn lemma_sorted_permutation_unique(t1: Seq<Node>, t2: Seq<Node>)
    requires
        is_sorted_by_pos(t1),
        is_sorted_by_pos(t2),
        distinct_positions(t1),
        t1.to_multiset() == t2.to_multiset(),
    ensures
        t1 == t2,
    decreases t1.len(),
{
    vstd::seq_lib::to_multiset_len(t1);
    vstd::seq_lib::to_multiset_len(t2);
    if t1.len() == 0 {
        assert(t1 =~= t2);
    } else {
        let n = t1.len() as int;
        let x = t1[n - 1];
        let y = t2[n - 1];
        assert(t1.contains(x));
        let a = lemma_in_multiset(t2, t1, x);
        assert(t2.contains(y));
        let b = lemma_in_multiset(t1, t2, y);
        assert(x.pos <= y.pos);
        assert(y.pos <= x.pos);
        if b != n - 1 {
            assert(t1[b].pos != t1[n - 1].pos);
        }
        assert(x == y);
        let u1 = t1.drop_last();
        let u2 = t2.drop_last();
        assert(t1.remove(n - 1) =~= u1);
        assert(t2.remove(n - 1) =~= u2);
        vstd::seq_lib::to_multiset_remove(t1, n - 1);
        vstd::seq_lib::to_multiset_remove(t2, n - 1);
        assert(is_sorted_by_pos(u1)) by {
            assert forall|i: int, j: int| 0 <= i <= j < u1.len() implies u1[i].pos
                <= u1[j].pos by {
                assert(u1[i] == t1[i] && u1[j] == t1[j]);
            }
        }
        assert(is_sorted_by_pos(u2)) by {
            assert forall|i: int, j: int| 0 <= i <= j < u2.len() implies u2[i].pos
                <= u2[j].pos by {
                assert(u2[i] == t2[i] && u2[j] == t2[j]);
            }
        }
        assert(distinct_positions(u1)) by {
            assert forall|i: int, j: int| 0 <= i < j < u1.len() implies #[trigger] u1[i].pos
                != #[trigger] u1[j].pos by {
                assert(u1[i] == t1[i] && u1[j] == t1[j]);
            }
        }
        lemma_sorted_permutation_unique(u1, u2);
        assert(t1 =~= u1.push(x));
        assert(t2 =~= u2.push(y));
    }
}

/// The stable position order of a ring whose nodes have distinct positions
/// does not depend on the order the nodes were given in: any rearrangement
/// of the same nodes orders to the same ring.
pub proof fn lemma_order_independent(s1: Seq<Node>, s2: Seq<Node>)
    requires
        distinct_positions(s1),
        s1.to_multiset() == s2.to_multiset(),
    ensures
        sorted_nodes(s1) == sorted_nodes(s2),
{
    lemma_sorted_nodes(s1);
    lemma_sorted_nodes(s2);
    lemma_sorted_distinct(s1);
    lemma_sorted_permutation_unique(sorted_nodes(s1), sorted_nodes(s2));
}

/// Building the dense tables of two palettes that differ only in the order
/// of their nodes (which have distinct positions) gives the same ordered
/// ring and the same table, for a sampler whose result depends only on the
/// node values.
pub proof fn lemma_dense_order_independent<F: Fn(&Vec<Node>, i32, usize) -> i32>(
    sample: F,
    p1: Palette,
    p2: Palette,
    q1: Palette,
    q2: Palette,
)
    requires
        distinct_positions(p1.nodes@),
        p1.nodes@.to_multiset() == p2.nodes@.to_multiset(),
        p1.name == p2.name,
        p1.phase == p2.phase,
        p1.dense@ == p2.dense@,
        forall|v1: Vec<Node>, v2: Vec<Node>, ph: i32, ch: usize, r1: i32, r2: i32|
            #![trigger sample.ensures((&v1, ph, ch), r1), sample.ensures((&v2, ph, ch), r2)]
            v1@ == v2@ && sample.ensures((&v1, ph, ch), r1) && sample.ensures((&v2, ph, ch), r2)
                ==> r1 == r2,
        dense_built(sample, p1, q1),
        dense_built(sample, p2, q2),
    ensures
        q1.name == q2.name,
        q1.phase == q2.phase,
        q1.nodes@ == q2.nodes@,
        q1.dense@ == q2.dense@,
{
    lemma_order_independent(p1.nodes@, p2.nodes@);
    assert forall|k: int| 0 <= k < q1.dense.len() implies q1.dense@[k] == q2.dense@[k] by {
        if k < PAL_N {
            assert(sampled_color(sample, q1.nodes, k as i32, q1.dense@[k]));
            assert(sampled_color(sample, q2.nodes, k as i32, q2.dense@[k]));
            let (r1, g1, b1) = choose|r: i32, g: i32, b: i32|
                {
                    &&& sample.ensures((&q1.nodes, k as i32, 0usize), r)
                    &&& sample.ensures((&q1.nodes, k as i32, 1usize), g)
                    &&& sample.ensures((&q1.nodes, k as i32, 2usize), b)
                    &&& q1.dense@[k] == packed(channel_byte(r), channel_byte(g), channel_byte(b))
                };
            let (r2, g2, b2) = choose|r: i32, g: i32, b: i32|
                {
                    &&& sample.ensures((&q2.nodes, k as i32, 0usize), r)
                    &&& sample.ensures((&q2.nodes, k as i32, 1usize), g)
                    &&& sample.ensures((&q2.nodes, k as i32, 2usize), b)
                    &&& q2.dense@[k] == packed(channel_byte(r), channel_byte(g), channel_byte(b))
                };
            assert(r1 == r2 && g1 == g2 && b1 == b2);
        }
    }
    assert(q1.dense@ =~= q2.dense@);
}

/// Sorts the ring by position and fills the first `PAL_N` entries of the
/// dense table: entry `ph` packs the red, green and blue values that
/// `sample` gives for phase `ph` over the sorted nodes.
pub fn build_dense_palette<F: Fn(&Vec<Node>, i32, usize) -> i32>(p: &mut Palette, sample: F)
    requires
        old(p).dense.len() >= PAL_N,
        forall|v: Vec<Node>, ph: i32, ch: usize| sample.requires((&v, ph, ch)),
    ensures
        dense_built(sample, *old(p), *final(p)),
{
    sort_nodes(&mut p.nodes);
    let ghost nodes0 = p.nodes;
    let mut colors: Vec<u32> = Vec::new();
    let mut ph: usize = 0;
    while ph < PAL_N
        invariant
            ph <= PAL_N,
            colors.len() == ph,
            forall|v: Vec<Node>, q: i32, ch: usize| sample.requires((&v, q, ch)),
            forall|q: int|
                0 <= q < ph ==> sampled_color(sample, p.nodes, q as i32, #[trigger] colors@[q]),
        decreases PAL_N - ph,
    {
        let r = sample(&p.nodes, ph as i32, 0);
        let g = sample(&p.nodes, ph as i32, 1);
        let b = sample(&p.nodes, ph as i32, 2);
        let c = rgb(r, g, b);
        colors.push(c);
        assert(sampled_color(sample, p.nodes, ph as i32, colors@[ph as int]));
        ph = ph + 1;
    }
    let mut k: usize = 0;
    while k < PAL_N
        invariant
            k <= PAL_N,
            colors.len() == PAL_N,
            old(p).dense.len() >= PAL_N,
            p.nodes == nodes0,
            p.dense.len() == old(p).dense.len(),
            p.name == old(p).name,
            p.phase == old(p).phase,
            p.nodes@ == sorted_nodes(old(p).nodes@),
            forall|j: int| 0 <= j < k ==> p.dense@[j] == colors@[j],
            forall|q: int|
                0 <= q < PAL_N ==> sampled_color(sample, nodes0, q as i32, #[trigger] colors@[q]),
            forall|j: int| k <= j < p.dense.len() ==> p.dense@[j] == old(p).dense@[j],
        decreases PAL_N - k,
    {
        p.dense.set(k, colors[k]);
        k = k + 1;
    }
    assert forall|ph: int| 0 <= ph < PAL_N implies sampled_color(
        sample,
        p.nodes,
        ph as i32,
        #[trigger] p.dense@[ph],
    ) by {
        assert(p.dense@[ph] == colors@[ph]);
    }
}

/// The dense-table color at an integer palette index, which wraps modulo
/// 1024 (the index is taken as a 32-bit two's complement word).
pub fn color_at(p: &Palette, i: i32) -> (c: u32)
    requires
        p.dense.len() >= PAL_N,
    ensures
        c == p.dense@[((i as u32) % 1024) as int],
{
    let k = (i as u32) & 0x3ffu32;
    assert(k == (i as u32) % 1024) by (bit_vector)
        requires
            k == (i as u32) & 0x3ffu32,
    ;
    p.dense[k as usize]
}

} // verus!
