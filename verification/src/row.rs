//! A single line of text, measured and sliced in extended grapheme clusters.

use vstd::prelude::*;
use unicode_segmentation::UnicodeSegmentation;

verus! {

/// The extended grapheme clusters of a string, in order. The segmentation is
/// a fixed function of the characters alone (Unicode Standard Annex #29), so
/// it bears a name rather than a page-long definition; the clusters are
/// consecutive non-empty substrings that together make up the whole string.
pub uninterp spec fn graphemes_of(s: Seq<char>) -> Seq<Seq<char>>;

/// Relies on unicode_segmentation's `UnicodeSegmentation::graphemes` (with
/// extended clusters selected): it yields the grapheme clusters of `s` in
/// order, non-empty and concatenating back to `s`.
#[verifier::external_body]
fn grapheme_clusters(s: &str) -> (r: Vec<String>)
    ensures
        r.deep_view() == graphemes_of(s@),
{
    s.graphemes(true).map(|g| g.to_string()).collect()
}

/// A tab cluster renders as a single space; every other cluster renders
/// as itself.
pub open spec fn tab_to_space(g: Seq<char>) -> Seq<char> {
    if g == seq!['\t'] {
        seq![' ']
    } else {
        g
    }
}

/// The clusters a render over `[start, end)` selects: `end` is clamped to
/// the cluster count and `start` to the clamped `end`, then each selected
/// cluster has tabs replaced by spaces.
pub open spec fn rendered_clusters(gs: Seq<Seq<char>>, start: int, end: int) -> Seq<Seq<char>> {
    let e = if end <= gs.len() {
        end
    } else {
        gs.len() as int
    };
    let s = if start <= e {
        start
    } else {
        e
    };
    gs.subrange(s, e).map_values(|g: Seq<char>| tab_to_space(g))
}

/// The characters of a sequence of clusters, in order.
pub open spec fn concat_clusters(gs: Seq<Seq<char>>) -> Seq<char>
    decreases gs.len(),
{
    if gs.len() == 0 {
        Seq::empty()
    } else {
        concat_clusters(gs.drop_last()) + gs.last()
    }
}

/// What `Row::render(start, end)` returns, as characters.
pub open spec fn render_spec(gs: Seq<Seq<char>>, start: int, end: int) -> Seq<char> {
    concat_clusters(rendered_clusters(gs, start, end))
}

/// One line of text together with its cached cluster count.
#[derive(Debug)]
pub struct Row {
    row: String,
    len: usize,
}

impl Row {
    /// The characters of the line.
    pub closed spec fn text(self) -> Seq<char> {
        self.row@
    }

    /// The cached length agrees with the grapheme segmentation of the text.
    pub closed spec fn wf(self) -> bool {
        self.len == graphemes_of(self.text()).len()
    }

    pub fn new(text: &str) -> (r: Self)
        ensures
            r.wf(),
            r.text() == text@,
    {
        let mut r = Self { row: String::from_str(text), len: 0 };
        r.update_len();
        r
    }

    /// Recomputes the cached cluster count from the text.
    pub fn update_len(&mut self)
        ensures
            final (self).wf(),
            final (self).text() == old(self).text(),
    {
        let gs = grapheme_clusters(self.row.as_str());
        self.len = gs.len();
    }

    /// The number of grapheme clusters in the line.
    pub fn len(&self) -> (r: usize)
        requires
            self.wf(),
        ensures
            r == graphemes_of(self.text()).len(),
    {
        self.len
    }

    pub fn is_empty(&self) -> (r: bool)
        requires
            self.wf(),
        ensures
            r == (graphemes_of(self.text()).len() == 0),
    {
        self.len == 0
    }

    /// The substring spanning grapheme clusters `[start, end)`, with the
    /// bounds silently clamped into range and each tab replaced by a single
    /// space. An out-of-range request yields an empty string, never a panic.
    pub fn render(&self, start: usize, end: usize) -> (r: String)
        ensures
            r@ == render_spec(graphemes_of(self.text()), start as int, end as int),
    {
        let gs = grapheme_clusters(self.row.as_str());
        let e = if end <= gs.len() {
            end
        } else {
            gs.len()
        };
        let s = if start <= e {
            start
        } else {
            e
        };
        let ghost picked = rendered_clusters(graphemes_of(self.text()), start as int, end as int);
        let tab = String::from_str("\t");
        let space = String::from_str(" ");
        let mut res = String::new();
        let mut i: usize = s;
        proof {
            reveal_strlit("\t");
            reveal_strlit(" ");
            assert(tab@ =~= seq!['\t']);
            assert(space@ =~= seq![' ']);
            assert(picked =~= gs.deep_view().subrange(s as int, e as int).map_values(
                |g: Seq<char>| tab_to_space(g),
            ));
        }
        while i < e
            invariant
                s <= i <= e <= gs.len(),
                gs.deep_view() == graphemes_of(self.text()),
                picked == rendered_clusters(graphemes_of(self.text()), start as int, end as int),
                picked =~= gs.deep_view().subrange(s as int, e as int).map_values(
                    |g: Seq<char>| tab_to_space(g),
                ),
                tab@ == seq!['\t'],
                space@ == seq![' '],
                res@ == concat_clusters(picked.subrange(0, i - s)),
            decreases e - i,
        {
            let g = &gs[i];
            proof {
                assert(gs.deep_view()[i as int] == gs[i as int]@);
                assert(picked.subrange(0, i + 1 - s).drop_last() =~= picked.subrange(0, i - s));
                assert(picked.subrange(0, i + 1 - s).last() == tab_to_space(gs[i as int]@));
            }
            if g.eq(&tab) {
                res.append(space.as_str());
            } else {
                proof {
                    assert(tab_to_space(gs[i as int]@) == gs[i as int]@);
                }
                res.append(g.as_str());
            }
            i = i + 1;
        }
        proof {
            assert(picked.subrange(0, e - s) =~= picked);
        }
        res
    }
}

/// A render over `[start, end)` of a row of `n` clusters yields exactly
/// `min(end, n) - min(start, min(end, n))` clusters — so never more than
/// `end - start` of them — and yields the empty string whenever
/// `start >= n`.
pub proof fn lemma_render_bounds(gs: Seq<Seq<char>>, start: int, end: int)
    requires
        0 <= start,
        0 <= end,
    ensures
        ({
            let e = if end <= gs.len() {
                end
            } else {
                gs.len() as int
            };
            let s = if start <= e {
                start
            } else {
                e
            };
            rendered_clusters(gs, start, end).len() == e - s
        }),
        start >= gs.len() ==> render_spec(gs, start, end) == Seq::<char>::empty(),
{
    if start >= gs.len() {
        let picked = rendered_clusters(gs, start, end);
        assert(picked.len() == 0);
        assert(render_spec(gs, start, end) == concat_clusters(picked));
    }
}

} // verus!
