//! A very basic text shaper for simple needs: one glyph per character, each
//! positioned at the running sum of the previous glyphs' advance widths.
//! No kerning, ligation or advanced typography.
//!
//! The font collaborator resolves each character to its glyph identifier
//! and, where the font has them, that glyph's advance width; the fold over
//! those lookups is proved exact here.

use vstd::prelude::*;

verus! {

/// One shaped glyph: its identifier and its pen position's advance.
#[derive(Clone, Copy, PartialEq, Eq, Structural, Debug)]
pub struct GlyphPos {
    pub glyph_id: u16,
    pub advance: u16,
}

/// One character's font lookups: the glyph the font maps it to (zero for a
/// character the font lacks), and the glyph's advance width where the font
/// has metrics for it.
#[derive(Clone, Copy, PartialEq, Eq, Structural, Debug)]
pub struct GlyphLookup {
    pub glyph_id: u16,
    pub advance_width: Option<u16>,
}

/// The shaping fold: each glyph is placed at the pen position accumulated
/// so far (clamped below at zero), and a glyph with metrics moves the pen
/// to its advance width.
pub open spec fn spec_shape_from(advance: int, glyphs: Seq<GlyphLookup>) -> Seq<GlyphPos>
    decreases glyphs.len(),
{
    if glyphs.len() == 0 {
        Seq::empty()
    } else {
        let g = glyphs[0];
        let pos = GlyphPos {
            glyph_id: g.glyph_id,
            advance: (if advance < 0 { 0int } else { advance }) as u16,
        };
        let next = match g.advance_width {
            Some(w) => w as int,
            None => advance,
        };
        seq![pos] + spec_shape_from(next, glyphs.drop_first())
    }
}

/// Unfolds one step of the shaping fold.
proof fn lemma_shape_step(advance: int, glyphs: Seq<GlyphLookup>, i: int)
    requires
        0 <= i < glyphs.len(),
    ensures
        ({
            let g = glyphs[i];
            let pos = GlyphPos {
                glyph_id: g.glyph_id,
                advance: (if advance < 0 { 0int } else { advance }) as u16,
            };
            let next = match g.advance_width {
                Some(w) => w as int,
                None => advance,
            };
            spec_shape_from(advance, glyphs.skip(i))
                == seq![pos] + spec_shape_from(next, glyphs.skip(i + 1))
        }),
{
    assert(glyphs.skip(i)[0] == glyphs[i]);
    assert(glyphs.skip(i).drop_first() =~= glyphs.skip(i + 1));
}

/// Shapes a run of text from its per-character font lookups, in order: the
/// result has one glyph per character, each at the pen position the
/// previous lookups left behind, starting from zero.
pub fn shape_text(glyphs: &Vec<GlyphLookup>) -> (r: Vec<GlyphPos>)
    ensures
        r@ == spec_shape_from(0, glyphs@),
{
    let ghost all = glyphs@;
    let ghost total = spec_shape_from(0, all);
    let mut advance: i32 = 0;
    let mut out: Vec<GlyphPos> = Vec::new();
    let mut i: usize = 0;
    proof {
        assert(all.skip(0) =~= all);
    }
    while i < glyphs.len()
        invariant
            i <= all.len(),
            all == glyphs@,
            0 <= advance <= u16::MAX,
            out@.len() == i,
            total == spec_shape_from(0, all),
            total == out@ + spec_shape_from(advance as int, all.skip(i as int)),
        decreases all.len() - i,
    {
        let g = glyphs[i];
        proof {
            lemma_shape_step(advance as int, all, i as int);
        }
        let ghost out0 = out@;
        let clamped: i32 = if advance < 0 {
            0
        } else {
            advance
        };
        let pos = GlyphPos { glyph_id: g.glyph_id, advance: clamped as u16 };
        out.push(pos);
        match g.advance_width {
            Some(w) => {
                advance = w as i32;
            },
            None => {},
        }
        proof {
            assert(out@ =~= out0 + seq![pos]);
            assert(out0 + (seq![pos] + spec_shape_from(advance as int, all.skip(i as int + 1)))
                =~= (out0 + seq![pos]) + spec_shape_from(advance as int, all.skip(i as int + 1)));
        }
        i = i + 1;
    }
    proof {
        assert(all.skip(all.len() as int) =~= Seq::<GlyphLookup>::empty());
        assert(total =~= out@ + Seq::<GlyphPos>::empty());
        assert(total =~= out@);
    }
    out
}

} // verus!
