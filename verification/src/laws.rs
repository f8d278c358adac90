//! General properties of the rendering engine, stated and proved over the
//! same spec functions the executable contracts use.

use vstd::prelude::*;

use crate::block::BlockV;
use crate::block::TextType;
use crate::block::block_render_style;
use crate::document::MarkdownDocument;
use crate::document::rendered_document;
use crate::numbering::bumped;
use crate::numbering::counter_of;
use crate::numbering::all_blank;
use crate::numbering::marker_symbol;
use crate::paragraph::appended_text;
use crate::paragraph::image_block;
use crate::strutil::dec_digits;
use crate::style::BlockStyle;
use crate::style::ParagraphStyle;
use crate::style::effective_paragraph_style;
use crate::style::lookup_style;
use crate::table::blank_line;
use crate::table::divider_line;
use crate::table::row_line;
use crate::table::table_lines_upto;
use crate::table::table_text;
use crate::table::table_widths;

verus! {

/// Rendering is a function of the document value alone: two render passes
/// over the same document — each, as `to_markdown`'s contract states,
/// starting from fresh numbering state — produce identical text.
pub proof fn lemma_render_idempotent(d: MarkdownDocument, r1: Seq<char>, r2: Seq<char>)
    requires
        r1 == rendered_document(d),
        r2 == rendered_document(d),
    ensures
        r1 == r2,
{
}

/// Direct formatting wins where the named style sets no inline style: a
/// paragraph whose own style carries bold inline formatting keeps it under
/// a named style that carries no inline style of its own, and its plain
/// blocks render bold.
pub proof fn lemma_cascade_direct_wins(p: ParagraphStyle, styles: Seq<(String, ParagraphStyle)>)
    requires
        p.style is Some && p.style->0.bold,
        match p.style_id {
            Some(id) => match lookup_style(styles, id@) {
                Some(named) => named.style is None,
                None => true,
            },
            None => true,
        },
    ensures
        block_render_style(None, effective_paragraph_style(Some(p), styles)).bold,
{
}

/// The fallback direction of the cascade: a paragraph with no direct
/// inline style takes the named style's inline formatting, so its plain
/// blocks render in the named style's italics.
pub proof fn lemma_cascade_fallback(
    p: ParagraphStyle,
    styles: Seq<(String, ParagraphStyle)>,
    id: String,
)
    requires
        p.style is None,
        p.style_id == Some(id),
        lookup_style(styles, id@) is Some,
        lookup_style(styles, id@)->0.style is Some,
        lookup_style(styles, id@)->0.style->0.italics,
    ensures
        block_render_style(None, effective_paragraph_style(Some(p), styles)).italics,
{
}

/// Coalescing is exact: adding two texts of one style in a row leaves the
/// blocks exactly as adding their concatenation once — one merged span,
/// never two.
pub proof fn lemma_coalesce_merge(
    bs: Seq<BlockV>,
    t1: Seq<char>,
    t2: Seq<char>,
    style: Option<BlockStyle>,
)
    ensures
        appended_text(appended_text(bs, t1, style), t2, style) == appended_text(
            bs,
            t1 + t2,
            style,
        ),
{
    let once = appended_text(bs, t1, style);
    if bs.len() > 0 && bs.last().text_type == TextType::Text && bs.last().style == style {
        assert(bs.last().text + t1 + t2 =~= bs.last().text + (t1 + t2));
        assert(appended_text(once, t2, style) =~= appended_text(bs, t1 + t2, style));
    } else {
        assert(once.last() == (BlockV { text_type: TextType::Text, style, text: t1 }));
        assert(appended_text(once, t2, style) =~= appended_text(bs, t1 + t2, style));
    }
}

/// An image block breaks coalescing: text added after it starts a block of
/// its own, whatever its style.
pub proof fn lemma_image_breaks_coalescing(
    bs: Seq<BlockV>,
    descr: Seq<char>,
    target: Seq<char>,
    t: Seq<char>,
    style: Option<BlockStyle>,
)
    ensures
        appended_text(bs.push(image_block(descr, target)), t, style) == bs.push(
            image_block(descr, target),
        ).push(BlockV { text_type: TextType::Text, style, text: t }),
{
    assert(bs.push(image_block(descr, target)).last().text_type == TextType::Image);
}

/// The decimal fallback numbers a list deterministically: under any format
/// token other than the five recognized ones, three paragraphs of one list
/// rendered from fresh state carry the markers `1.`, `2.` and `3.`.
pub proof fn lemma_numbering_three_decimal(id: isize, f: Option<String>, lt: Option<String>)
    requires
        match f {
            Some(s) => s@ != "upperRoman"@ && s@ != "lowerRoman"@ && s@ != "upperLetter"@ && s@
                != "lowerLetter"@ && s@ != "bullet"@,
            None => true,
        },
    ensures
        ({
            let c0 = Seq::<(isize, usize)>::empty();
            let c1 = bumped(c0, id);
            let c2 = bumped(c1, id);
            marker_symbol(f, lt, counter_of(c0, id)) == "1."@ && marker_symbol(
                f,
                lt,
                counter_of(c1, id),
            ) == "2."@ && marker_symbol(f, lt, counter_of(c2, id)) == "3."@
        }),
{
    let c0 = Seq::<(isize, usize)>::empty();
    let c1 = bumped(c0, id);
    let c2 = bumped(c1, id);
    assert(counter_of(c0, id) == 0);
    assert(c1 =~= seq![(id, 1usize)]);
    assert(counter_of(c1, id) == 1);
    assert(c2 =~= seq![(id, 2usize)]);
    assert(counter_of(c2, id) == 2);
    reveal_strlit("1.");
    reveal_strlit("2.");
    reveal_strlit("3.");
    reveal_strlit(".");
    assert(dec_digits(1) + "."@ =~= "1."@);
    assert(dec_digits(2) + "."@ =~= "2."@);
    assert(dec_digits(3) + "."@ =~= "3."@);
}

/// A bullet list with non-blank level text carries the dash marker
/// whatever its count: every paragraph of such a list gets `-`.
pub proof fn lemma_numbering_bullet_dash(f: String, lt: String)
    requires
        f@ == "bullet"@,
        !all_blank(lt@),
    ensures
        forall|n: usize| marker_symbol(Some(f), Some(lt), n) == "-"@,
{
    reveal_strlit("bullet");
    reveal_strlit("upperRoman");
    reveal_strlit("lowerRoman");
    reveal_strlit("upperLetter");
    reveal_strlit("lowerLetter");
    assert("bullet"@.len() != "upperRoman"@.len());
    assert("bullet"@.len() != "lowerRoman"@.len());
    assert("bullet"@.len() != "upperLetter"@.len());
    assert("bullet"@.len() != "lowerLetter"@.len());
    assert forall|n: usize| marker_symbol(Some(f), Some(lt), n) == "-"@ by {
        assert(f@ != "upperRoman"@);
        assert(f@ != "lowerRoman"@);
        assert(f@ != "upperLetter"@);
        assert(f@ != "lowerLetter"@);
    }
}

proof fn lemma_table_prefix(
    widths: Seq<usize>,
    rows: Seq<(bool, Seq<Seq<char>>)>,
    j: nat,
    head: Seq<char>,
)
    requires
        1 <= j <= rows.len(),
        rows.len() > 0,
        !rows[0].0,
        head == blank_line(widths) + divider_line(widths) + row_line(widths, rows[0].1),
    ensures
        table_lines_upto(widths, rows, j).len() >= head.len(),
        table_lines_upto(widths, rows, j).take(head.len() as int) == head,
    decreases j,
{
    if j == 1 {
        assert(table_lines_upto(widths, rows, 1) =~= head);
        assert(head.take(head.len() as int) =~= head);
    } else {
        lemma_table_prefix(widths, rows, (j - 1) as nat, head);
        assert(table_lines_upto(widths, rows, j).take(head.len() as int) =~= table_lines_upto(
            widths,
            rows,
            (j - 1) as nat,
        ).take(head.len() as int));
    }
}

/// Header synthesis: a table none of whose rows is flagged as a header
/// still begins with a synthetic blank header line and the divider line,
/// before its first data row.
pub proof fn lemma_header_synthesis(rows: Seq<(bool, Seq<Seq<char>>)>)
    requires
        rows.len() > 0,
        !rows[0].0,
    ensures
        ({
            let widths = table_widths(rows, 0);
            let head = blank_line(widths) + divider_line(widths) + row_line(widths, rows[0].1);
            table_text(rows).len() >= head.len() && table_text(rows).take(head.len() as int)
                == head
        }),
{
    let widths = table_widths(rows, 0);
    let head = blank_line(widths) + divider_line(widths) + row_line(widths, rows[0].1);
    lemma_table_prefix(widths, rows, rows.len(), head);
}

} // verus!
