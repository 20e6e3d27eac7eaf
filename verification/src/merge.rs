//! The post-hoc merger: concatenates the data rows of previously exported
//! grids into one table with a fresh contiguous index column.
use vstd::prelude::*;
use vstd::string::StrSliceExecFns;
use crate::item::{header_row_spec, header_row};
use crate::numfmt::{dec_str, u64_to_string};

verus! {

/// The merger's input filter: a file-name extension that reads "xlsx" in any
/// ASCII case.
pub open spec fn is_xlsx_ext(s: Seq<char>) -> bool {
    &&& s.len() == 4
    &&& (s[0] == 'x' || s[0] == 'X')
    &&& (s[1] == 'l' || s[1] == 'L')
    &&& (s[2] == 's' || s[2] == 'S')
    &&& (s[3] == 'x' || s[3] == 'X')
}

/// Decides whether a file-name extension names an input of the merger.
pub fn xlsx_extension(ext: &str) -> (r: bool)
    ensures
        r == is_xlsx_ext(ext@),
{
    let n = ext.unicode_len();
    if n != 4 {
        return false;
    }
    let c0 = ext.get_char(0);
    let c1 = ext.get_char(1);
    let c2 = ext.get_char(2);
    let c3 = ext.get_char(3);
    (c0 == 'x' || c0 == 'X') && (c1 == 'l' || c1 == 'L') && (c2 == 's' || c2 == 'S') && (c3 == 'x'
        || c3 == 'X')
}

/// The value of a cell, an absent trailing cell reading as empty.
pub open spec fn cell_at(row: Seq<Seq<char>>, j: int) -> Seq<char> {
    if 0 <= j < row.len() {
        row[j]
    } else {
        Seq::<char>::empty()
    }
}

/// The eleven content columns of a row: everything but the index column.
pub open spec fn row_content(row: Seq<Seq<char>>) -> Seq<Seq<char>> {
    Seq::new(11, |j: int| cell_at(row, j + 1))
}

/// The content of the first `upto - 1` rows after the header of a grid.
pub open spec fn data_content_upto(g: Seq<Seq<Seq<char>>>, upto: int) -> Seq<Seq<Seq<char>>> {
    if 1 <= upto <= g.len() {
        g.subrange(1, upto).map_values(|r: Seq<Seq<char>>| row_content(r))
    } else {
        Seq::<Seq<Seq<char>>>::empty()
    }
}

/// The content of all data rows of a grid (the header row is skipped).
pub open spec fn data_content(g: Seq<Seq<Seq<char>>>) -> Seq<Seq<Seq<char>>> {
    data_content_upto(g, g.len() as int)
}

/// The concatenated content of a list of grids, in input order.
pub open spec fn merged_content(gs: Seq<Seq<Seq<Seq<char>>>>) -> Seq<Seq<Seq<char>>>
    decreases gs.len(),
{
    if gs.len() == 0 {
        Seq::<Seq<Seq<char>>>::empty()
    } else {
        data_content(gs[0]) + merged_content(gs.skip(1))
    }
}

proof fn lemma_merged_content_push(gs: Seq<Seq<Seq<Seq<char>>>>, g: Seq<Seq<Seq<char>>>)
    ensures
        merged_content(gs.push(g)) == merged_content(gs) + data_content(g),
    decreases gs.len(),
{
    reveal_with_fuel(merged_content, 4);
    if gs.len() == 0 {
        assert(gs.push(g)[0] == g);
        assert(gs.push(g).skip(1) =~= Seq::<Seq<Seq<Seq<char>>>>::empty());
        assert(merged_content(gs.push(g)) =~= merged_content(gs) + data_content(g));
    } else {
        assert(gs.push(g)[0] == gs[0]);
        assert(gs.push(g).skip(1) =~= gs.skip(1).push(g));
        lemma_merged_content_push(gs.skip(1), g);
        assert((data_content(gs[0]) + (merged_content(gs.skip(1)) + data_content(g))) =~= (
        data_content(gs[0]) + merged_content(gs.skip(1))) + data_content(g));
    }
}

/// What the merged table looks like for a given concatenated content: the
/// fixed header, then one twelve-cell row per content row, renumbered from
/// one, the content columns copied verbatim.
pub open spec fn is_merged_grid(out: Seq<Seq<Seq<char>>>, content: Seq<Seq<Seq<char>>>) -> bool {
    &&& out.len() == 1 + content.len()
    &&& out[0] == header_row_spec()
    &&& forall|k: int| 1 <= k < out.len() ==> (#[trigger] out[k]).len() == 12
    &&& forall|k: int| 1 <= k < out.len() ==> (#[trigger] out[k])[0] == dec_str(k as nat)
    &&& forall|k: int| 1 <= k < out.len() ==> row_content(#[trigger] out[k]) == content[k - 1]
}

/// Merges the grids in input order into one renumbered table.
pub fn merge_grids(inputs: &Vec<Vec<Vec<String>>>) -> (out: Vec<Vec<String>>)
    ensures
        is_merged_grid(out.deep_view(), merged_content(inputs.deep_view())),
{
    let mut out: Vec<Vec<String>> = Vec::new();
    out.push(header_row());
    proof {
        assert(out.deep_view() =~= seq![header_row_spec()]);
        assert(inputs.deep_view().take(0) =~= Seq::<Seq<Seq<Seq<char>>>>::empty());
        assert(is_merged_grid(out.deep_view(), merged_content(inputs.deep_view().take(0))));
    }
    let mut gi: usize = 0;
    while gi < inputs.len()
        invariant
            0 <= gi <= inputs@.len(),
            out.deep_view().len() >= 1,
            is_merged_grid(out.deep_view(), merged_content(inputs.deep_view().take(gi as int))),
        decreases inputs@.len() - gi,
    {
        let ghost prev = merged_content(inputs.deep_view().take(gi as int));
        let g = &inputs[gi];
        let ghost gdv = g.deep_view();
        proof {
            assert(inputs.deep_view()[gi as int] == gdv);
            assert(data_content_upto(gdv, 1) =~= Seq::<Seq<Seq<char>>>::empty());
        }
        let mut ri: usize = 1;
        while ri < g.len()
            invariant
                1 <= ri <= gdv.len() || (gdv.len() <= 1 && ri == 1),
                gdv == g.deep_view(),
                out.deep_view().len() >= 1,
                is_merged_grid(out.deep_view(), prev + data_content_upto(gdv, ri as int)),
            decreases g@.len() - ri,
        {
            let ghost old_out = out.deep_view();
            let ghost content_so_far = prev + data_content_upto(gdv, ri as int);
            let src = &g[ri];
            let idx: usize = out.len();
            let mut nr: Vec<String> = Vec::new();
            nr.push(u64_to_string(idx as u64));
            let mut j: usize = 1;
            while j < 12
                invariant
                    1 <= j <= 12,
                    nr@.len() == j,
                    nr.deep_view()[0] == dec_str(idx as nat),
                    forall|t: int|
                        1 <= t < j ==> nr.deep_view()[t] == cell_at(src.deep_view(), t),
                decreases 12 - j,
            {
                if j < src.len() {
                    nr.push(src[j].clone());
                } else {
                    nr.push(String::new());
                }
                j = j + 1;
            }
            proof {
                assert(row_content(nr.deep_view()) =~= row_content(gdv[ri as int]));
            }
            out.push(nr);
            proof {
                assert(out.deep_view() =~= old_out.push(nr.deep_view()));
                assert(gdv.subrange(1, ri as int + 1) =~= gdv.subrange(1, ri as int).push(
                    gdv[ri as int],
                ));
                assert(data_content_upto(gdv, ri as int + 1) =~= data_content_upto(
                    gdv,
                    ri as int,
                ).push(row_content(gdv[ri as int])));
                assert(prev + data_content_upto(gdv, ri as int + 1) =~= content_so_far.push(
                    row_content(gdv[ri as int]),
                ));
                assert(is_merged_grid(out.deep_view(), prev + data_content_upto(gdv, ri as int + 1)));
            }
            ri = ri + 1;
        }
        proof {
            assert(data_content_upto(gdv, ri as int) == data_content(gdv));
            assert(inputs.deep_view().take(gi as int + 1) =~= inputs.deep_view().take(
                gi as int,
            ).push(gdv));
            lemma_merged_content_push(inputs.deep_view().take(gi as int), gdv);
        }
        gi = gi + 1;
    }
    proof {
        assert(inputs.deep_view().take(gi as int) =~= inputs.deep_view());
    }
    out
}

/// Reads the concatenated content back off a merged table.
proof fn lemma_merged_grid_content(out: Seq<Seq<Seq<char>>>, content: Seq<Seq<Seq<char>>>)
    requires
        is_merged_grid(out, content),
    ensures
        data_content(out) == content,
{
    assert(data_content(out) =~= content);
}

/// LAW: merge is associative in row content. Merging two grids and then a
/// third over the result yields the same content rows, in the same order, as
/// merging all three at once; only the index column is recomputed.
pub proof fn lemma_merge_associative(
    a: Seq<Seq<Seq<char>>>,
    b: Seq<Seq<Seq<char>>>,
    c: Seq<Seq<Seq<char>>>,
    m_ab: Seq<Seq<Seq<char>>>,
    m_ab_c: Seq<Seq<Seq<char>>>,
    m_abc: Seq<Seq<Seq<char>>>,
)
    requires
        is_merged_grid(m_ab, merged_content(seq![a, b])),
        is_merged_grid(m_ab_c, merged_content(seq![m_ab, c])),
        is_merged_grid(m_abc, merged_content(seq![a, b, c])),
    ensures
        data_content(m_ab_c) == data_content(m_abc),
{
    lemma_merged_grid_content(m_ab, merged_content(seq![a, b]));
    lemma_merged_grid_content(m_ab_c, merged_content(seq![m_ab, c]));
    lemma_merged_grid_content(m_abc, merged_content(seq![a, b, c]));
    reveal_with_fuel(merged_content, 4);
    assert(seq![a, b].skip(1) =~= seq![b]);
    assert(seq![b].skip(1) =~= Seq::<Seq<Seq<Seq<char>>>>::empty());
    assert(merged_content(seq![a, b]) =~= data_content(a) + data_content(b));
    assert(seq![m_ab, c].skip(1) =~= seq![c]);
    assert(seq![c].skip(1) =~= Seq::<Seq<Seq<Seq<char>>>>::empty());
    assert(merged_content(seq![m_ab, c]) =~= data_content(m_ab) + data_content(c));
    assert(seq![a, b, c].skip(1) =~= seq![b, c]);
    assert(seq![b, c].skip(1) =~= seq![c]);
    assert(merged_content(seq![a, b, c]) =~= data_content(a) + (data_content(b) + data_content(
        c,
    )));
    assert((data_content(a) + data_content(b)) + data_content(c) =~= data_content(a) + (
    data_content(b) + data_content(c)));
}

} // verus!
