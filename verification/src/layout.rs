//! Line layout around the shaper: the byte ranges that the requested font
//! runs cover, and how the shaped glyphs are grouped into runs of one font.
//!
//! Shaping itself (glyph choice, positions, fallback fonts) is the font
//! crate's work; the positions are floating point and stay with the caller,
//! which refers to glyphs by their position in the shaped sequence.

use vstd::prelude::*;
use crate::text::{FontId, FontRun};

verus! {

/// Sum of the lengths of the first `n` runs.
pub open spec fn runs_prefix_len(runs: Seq<FontRun>, n: int) -> int
    decreases n,
{
    if n <= 0 {
        0
    } else {
        runs_prefix_len(runs, n - 1) + runs[n - 1].len
    }
}

proof fn lemma_prefix_len_monotone(runs: Seq<FontRun>, a: int, b: int)
    requires
        0 <= a <= b <= runs.len(),
    ensures
        runs_prefix_len(runs, a) <= runs_prefix_len(runs, b),
    decreases b - a,
{
    if a < b {
        lemma_prefix_len_monotone(runs, a, b - 1);
    }
}

/// The byte range of the text that each run covers: the runs follow each
/// other from byte 0.
pub fn run_byte_ranges(runs: &[FontRun]) -> (r: Vec<(usize, usize)>)
    requires
        runs_prefix_len(runs@, runs@.len() as int) <= usize::MAX,
    ensures
        r@.len() == runs@.len(),
        forall|i: int| 0 <= i < runs@.len() ==> #[trigger] r@[i] == (
            runs_prefix_len(runs@, i) as usize,
            runs_prefix_len(runs@, i + 1) as usize,
        ),
{
    let n = runs.len();
    let mut out: Vec<(usize, usize)> = Vec::new();
    let mut offset: usize = 0;
    let mut i: usize = 0;
    while i < n
        invariant
            n == runs@.len(),
            i <= n,
            out@.len() == i,
            offset == runs_prefix_len(runs@, i as int),
            runs_prefix_len(runs@, n as int) <= usize::MAX,
            forall|j: int| 0 <= j < i ==> #[trigger] out@[j] == (
                runs_prefix_len(runs@, j) as usize,
                runs_prefix_len(runs@, j + 1) as usize,
            ),
        decreases n - i,
    {
        proof {
            lemma_prefix_len_monotone(runs@, i as int + 1, n as int);
        }
        let end = offset + runs[i].len;
        out.push((offset, end));
        offset = end;
        i = i + 1;
    }
    out
}

/// A glyph as the shaper placed it, with the font that renders it: its
/// glyph id, the byte index in the text it came from, and whether its font
/// is an emoji font.
#[derive(Copy, Clone, Debug, PartialEq, Eq)]
pub struct PlacedGlyph {
    pub font_id: FontId,
    pub glyph_id: u16,
    pub index: usize,
    pub is_emoji: bool,
}

/// A run of consecutive kept glyphs of one font, by their positions in the
/// shaped sequence.
#[derive(Clone, Debug, PartialEq, Eq)]
pub struct GlyphRun {
    pub font_id: FontId,
    pub glyphs: Vec<usize>,
}

/// Whether a shaped glyph is laid out: its font was resolved (`Some`), and
/// it is not glyph 3 of an emoji font, the variation selector that the
/// rasteriser cannot draw.
pub open spec fn glyph_kept(g: Option<PlacedGlyph>) -> bool {
    g matches Some(p) && !(p.glyph_id == 3 && p.is_emoji)
}

/// Positions of the kept glyphs, in order.
pub open spec fn kept_positions(s: Seq<Option<PlacedGlyph>>) -> Seq<usize>
    decreases s.len(),
{
    if s.len() == 0 {
        Seq::empty()
    } else if glyph_kept(s.last()) {
        kept_positions(s.drop_last()).push((s.len() - 1) as usize)
    } else {
        kept_positions(s.drop_last())
    }
}

/// The runs as (font, positions) pairs.
pub open spec fn runs_view(runs: Seq<GlyphRun>) -> Seq<(FontId, Seq<usize>)> {
    runs.map_values(|r: GlyphRun| (r.font_id, r.glyphs@))
}

/// The positions of all runs, run after run.
pub open spec fn flatten_runs(runs: Seq<(FontId, Seq<usize>)>) -> Seq<usize>
    decreases runs.len(),
{
    if runs.len() == 0 {
        Seq::empty()
    } else {
        flatten_runs(runs.drop_last()) + runs.last().1
    }
}

/// Runs are well grouped for `glyphs`: none is empty, every glyph of a run
/// is a glyph of the run's font, and neighbouring runs differ in font.
pub open spec fn runs_grouped(runs: Seq<(FontId, Seq<usize>)>, glyphs: Seq<Option<PlacedGlyph>>) -> bool {
    &&& forall|i: int| 0 <= i < runs.len() ==> (#[trigger] runs[i]).1.len() > 0
    &&& forall|i: int, j: int| 0 <= i < runs.len() && 0 <= j < runs[i].1.len() ==> {
        let p = #[trigger] runs[i].1[j];
        &&& p < glyphs.len()
        &&& glyphs[p as int] matches Some(g) && g.font_id == runs[i].0
    }
    &&& forall|i: int| 0 < i < runs.len() ==> (#[trigger] runs[i]).0 != runs[i - 1].0
}

proof fn lemma_flatten_push(runs: Seq<(FontId, Seq<usize>)>, r: (FontId, Seq<usize>))
    ensures
        flatten_runs(runs.push(r)) == flatten_runs(runs) + r.1,
{
    assert(runs.push(r).drop_last() =~= runs);
}

/// Group the shaped glyphs into runs of one font: the kept glyphs, in
/// order, each run as long as the font stays the same.
pub fn group_glyph_runs(glyphs: &[Option<PlacedGlyph>]) -> (r: Vec<GlyphRun>)
    ensures
        flatten_runs(runs_view(r@)) == kept_positions(glyphs@),
        runs_grouped(runs_view(r@), glyphs@),
{
    let n = glyphs.len();
    let mut runs: Vec<GlyphRun> = Vec::new();
    let mut current: Vec<usize> = Vec::new();
    let mut current_font: FontId = FontId(0);
    let mut k: usize = 0;
    while k < n
        invariant
            n == glyphs@.len(),
            k <= n,
            flatten_runs(runs_view(runs@)) + current@ == kept_positions(glyphs@.take(k as int)),
            runs_grouped(runs_view(runs@), glyphs@),
            forall|j: int| 0 <= j < current@.len() ==> {
                let p = #[trigger] current@[j];
                &&& p < glyphs@.len()
                &&& glyphs@[p as int] matches Some(g) && g.font_id == current_font
            },
            runs@.len() > 0 ==> current@.len() > 0,
            current@.len() > 0 && runs@.len() > 0 ==> runs@.last().font_id != current_font,
        decreases n - k,
    {
        let ghost before = glyphs@.take(k as int);
        proof {
            assert(glyphs@.take(k as int + 1).drop_last() =~= before);
        }
        match glyphs[k] {
            Some(g) => {
                if g.glyph_id == 3 && g.is_emoji {
                } else if current.len() > 0 && g.font_id.0 == current_font.0 {
                    current.push(k);
                    proof {
                        assert(flatten_runs(runs_view(runs@)) + current@ =~= kept_positions(before).push(k));
                    }
                } else {
                    let ghost old_runs = runs@;
                    let ghost old_current = current@;
                    let ghost old_font = current_font;
                    if current.len() > 0 {
                        let mut done: Vec<usize> = Vec::new();
                        std::mem::swap(&mut done, &mut current);
                        runs.push(GlyphRun { font_id: current_font, glyphs: done });
                        proof {
                            let last = (current_font, old_current);
                            assert(runs_view(runs@) =~= runs_view(old_runs).push(last));
                            lemma_flatten_push(runs_view(old_runs), last);
                            let v = runs_view(runs@);
                            assert forall|i: int, j: int| 0 <= i < v.len() && 0 <= j < v[i].1.len() implies {
                                let p = #[trigger] v[i].1[j];
                                &&& p < glyphs@.len()
                                &&& glyphs@[p as int] matches Some(g) && g.font_id == v[i].0
                            } by {
                                if i < v.len() - 1 {
                                    assert(v[i] == runs_view(old_runs)[i]);
                                }
                            }
                            assert forall|i: int| 0 < i < v.len() implies (#[trigger] v[i]).0 != v[i - 1].0 by {
                                if i < v.len() - 1 {
                                    assert(v[i] == runs_view(old_runs)[i]);
                                    assert(v[i - 1] == runs_view(old_runs)[i - 1]);
                                } else {
                                    assert(v[i - 1] == runs_view(old_runs)[i - 1]);
                                    assert(old_runs.last() == old_runs[i - 1]);
                                }
                            }
                            assert forall|i: int| 0 <= i < v.len() implies (#[trigger] v[i]).1.len() > 0 by {
                                if i < v.len() - 1 {
                                    assert(v[i] == runs_view(old_runs)[i]);
                                }
                            }
                        }
                    }
                    current_font = g.font_id;
                    current.push(k);
                    proof {
                        if old_current.len() > 0 {
                            assert(runs@.last().font_id == old_font);
                            assert(g.font_id.0 != old_font.0);
                        }
                        assert(flatten_runs(runs_view(runs@)) + current@ =~= kept_positions(before).push(k));
                        if runs@.len() > 0 && old_current.len() == 0 {
                            assert(runs@ == old_runs);
                        }
                    }
                }
            },
            None => {},
        }
        k = k + 1;
    }
    let ghost old_runs = runs@;
    let ghost old_current = current@;
    if current.len() > 0 {
        runs.push(GlyphRun { font_id: current_font, glyphs: current });
        proof {
            let last = (current_font, old_current);
            assert(runs_view(runs@) =~= runs_view(old_runs).push(last));
            lemma_flatten_push(runs_view(old_runs), last);
            let v = runs_view(runs@);
            assert forall|i: int, j: int| 0 <= i < v.len() && 0 <= j < v[i].1.len() implies {
                let p = #[trigger] v[i].1[j];
                &&& p < glyphs@.len()
                &&& glyphs@[p as int] matches Some(g) && g.font_id == v[i].0
            } by {
                if i < v.len() - 1 {
                    assert(v[i] == runs_view(old_runs)[i]);
                }
            }
            assert forall|i: int| 0 < i < v.len() implies (#[trigger] v[i]).0 != v[i - 1].0 by {
                if i < v.len() - 1 {
                    assert(v[i] == runs_view(old_runs)[i]);
                    assert(v[i - 1] == runs_view(old_runs)[i - 1]);
                } else {
                    assert(v[i - 1] == runs_view(old_runs)[i - 1]);
                    assert(old_runs.last() == old_runs[i - 1]);
                }
            }
            assert forall|i: int| 0 <= i < v.len() implies (#[trigger] v[i]).1.len() > 0 by {
                if i < v.len() - 1 {
                    assert(v[i] == runs_view(old_runs)[i]);
                }
            }
        }
    } else {
        assert(flatten_runs(runs_view(runs@)) =~= flatten_runs(runs_view(runs@)) + current@);
    }
    assert(glyphs@.take(n as int) =~= glyphs@);
    runs
}

} // verus!
