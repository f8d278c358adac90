//! Paragraphs: ordered content blocks under an optional paragraph style,
//! the run coalescer that builds them, and their rendering — heading
//! prefix, list marker, then each block's inline markup.

use vstd::prelude::*;
use vstd::string::StringExecFns;

use crate::block::BlockV;
use crate::block::TextBlock;
use crate::block::TextType;
use crate::block::blocks_view;
use crate::block::rendered_block;
use crate::document::MarkdownDocument;
use crate::numbering::bump_counter;
use crate::numbering::bumped;
use crate::numbering::counter_of;
use crate::numbering::lookup_numdef;
use crate::numbering::find_numdef;
use crate::numbering::marker_symbol;
use crate::numbering::render_marker;
use crate::strutil::push_repeated;
use crate::strutil::push_str;
use crate::strutil::repeated;
use crate::style::BlockStyle;
use crate::style::MarkdownNumbering;
use crate::style::ParagraphStyle;
use crate::style::effective_paragraph_style;
use crate::style::resolve_style;

verus! {

/// One paragraph of the document: an optional style and its content
/// blocks.
#[derive(Debug)]
pub struct MarkdownParagraph {
    pub style: Option<ParagraphStyle>,
    pub blocks: Vec<TextBlock>,
}

/// The coalescing rule: plain text joins the last block when that block is
/// plain text with the identical style; otherwise it starts a block of its
/// own.
pub open spec fn appended_text(bs: Seq<BlockV>, text: Seq<char>, style: Option<BlockStyle>)
    -> Seq<BlockV> {
    if bs.len() > 0 && bs.last().text_type == TextType::Text && bs.last().style == style {
        bs.update(
            bs.len() - 1,
            BlockV { text_type: TextType::Text, style, text: bs.last().text + text },
        )
    } else {
        bs.push(BlockV { text_type: TextType::Text, style, text })
    }
}

/// The block an image run contributes: `![descr](./target)`.
pub open spec fn image_block(descr: Seq<char>, target: Seq<char>) -> BlockV {
    BlockV {
        text_type: TextType::Image,
        style: None,
        text: "!["@ + descr + "](./"@ + target + ")"@,
    }
}

/// The block a hyperlink contributes: `[label](target)`.
pub open spec fn link_block(label: Seq<char>, target: Seq<char>) -> BlockV {
    BlockV { text_type: TextType::Link, style: None, text: "["@ + label + "]("@ + target + ")"@ }
}

/// The block a bookmark anchor contributes: `<a name="name"></a>`.
pub open spec fn bookmark_block(name: Seq<char>) -> BlockV {
    BlockV {
        text_type: TextType::BookmarkLink,
        style: None,
        text: "<a name=\""@ + name + "\"></a>"@,
    }
}

/// Compares two optional inline styles.
pub fn opt_style_eq(a: &Option<BlockStyle>, b: &Option<BlockStyle>) -> (r: bool)
    ensures
        r == (*a == *b),
{
    match (a, b) {
        (None, None) => true,
        (Some(x), Some(y)) => {
            let size_eq = match (x.size, y.size) {
                (None, None) => true,
                (Some(p), Some(q)) => p == q,
                _ => false,
            };
            x.bold == y.bold && x.italics == y.italics && x.underline == y.underline && x.strike
                == y.strike && size_eq
        },
        _ => false,
    }
}

impl MarkdownParagraph {
    pub fn new() -> (r: Self)
        ensures
            r.style is None,
            r.blocks@.len() == 0,
    {
        MarkdownParagraph { style: None, blocks: Vec::new() }
    }

    /// Adds a plain-text run, merging it into the previous block when the
    /// styles coincide (run coalescing).
    pub fn append_text(&mut self, text: &str, style: Option<BlockStyle>)
        ensures
            final(self).style == old(self).style,
            blocks_view(final(self).blocks@) == appended_text(
                blocks_view(old(self).blocks@),
                text@,
                style,
            ),
    {
        let n = self.blocks.len();
        let mergeable = if n > 0 {
            let last = &self.blocks[n - 1];
            matches!(last.text_type, TextType::Text) && opt_style_eq(&last.style, &style)
        } else {
            false
        };
        if mergeable {
            let mut blk = self.blocks.pop().unwrap();
            push_str(&mut blk.text, text);
            self.blocks.push(blk);
            proof {
                assert(blocks_view(self.blocks@) =~= appended_text(
                    blocks_view(old(self).blocks@),
                    text@,
                    style,
                ));
            }
        } else {
            let blk = TextBlock { text_type: TextType::Text, style, text: String::from_str(text) };
            self.blocks.push(blk);
            proof {
                assert(blocks_view(self.blocks@) =~= appended_text(
                    blocks_view(old(self).blocks@),
                    text@,
                    style,
                ));
            }
        }
    }

    /// Adds a block as it stands; it never merges with its neighbours.
    pub fn append_block(&mut self, block: TextBlock)
        ensures
            final(self).style == old(self).style,
            blocks_view(final(self).blocks@) == blocks_view(old(self).blocks@).push(block@),
    {
        self.blocks.push(block);
        proof {
            assert(blocks_view(self.blocks@) =~= blocks_view(old(self).blocks@).push(block@));
        }
    }

    /// Adds the image block for a drawing run.
    pub fn append_image(&mut self, descr: &str, target: &str)
        ensures
            final(self).style == old(self).style,
            blocks_view(final(self).blocks@) == blocks_view(old(self).blocks@).push(
                image_block(descr@, target@),
            ),
    {
        let mut text = String::from_str("![");
        text.append(descr);
        text.append("](./");
        text.append(target);
        text.append(")");
        proof {
            assert(text@ =~= image_block(descr@, target@).text);
        }
        self.append_block(TextBlock { text_type: TextType::Image, style: None, text });
    }

    /// Adds the link block for a hyperlink.
    pub fn append_link(&mut self, label: &str, target: &str)
        ensures
            final(self).style == old(self).style,
            blocks_view(final(self).blocks@) == blocks_view(old(self).blocks@).push(
                link_block(label@, target@),
            ),
    {
        let mut text = String::from_str("[");
        text.append(label);
        text.append("](");
        text.append(target);
        text.append(")");
        proof {
            assert(text@ =~= link_block(label@, target@).text);
        }
        self.append_block(TextBlock { text_type: TextType::Link, style: None, text });
    }

    /// Adds the anchor block for a bookmark start.
    pub fn append_bookmark(&mut self, name: &str)
        ensures
            final(self).style == old(self).style,
            blocks_view(final(self).blocks@) == blocks_view(old(self).blocks@).push(
                bookmark_block(name@),
            ),
    {
        let mut text = String::from_str("<a name=\"");
        text.append(name);
        text.append("\"></a>");
        proof {
            assert(text@ =~= bookmark_block(name@).text);
        }
        self.append_block(TextBlock { text_type: TextType::BookmarkLink, style: None, text });
    }
}

/// The Markdown heading prefix for an outline level: level zero is a top
/// heading, levels of five and beyond (and out-of-range values) use the
/// smallest heading.
pub open spec fn heading_prefix(lvl: isize) -> Seq<char> {
    if lvl == 0 {
        "# "@
    } else if lvl == 1 {
        "## "@
    } else if lvl == 2 {
        "### "@
    } else if lvl == 3 {
        "#### "@
    } else if lvl == 4 {
        "##### "@
    } else {
        "###### "@
    }
}

fn heading_str(lvl: isize) -> (r: &'static str)
    ensures
        r@ == heading_prefix(lvl),
{
    if lvl == 0 {
        "# "
    } else if lvl == 1 {
        "## "
    } else if lvl == 2 {
        "### "
    } else if lvl == 3 {
        "#### "
    } else if lvl == 4 {
        "##### "
    } else {
        "###### "
    }
}

/// The heading part of a rendered paragraph.
pub open spec fn heading_text(eff: ParagraphStyle) -> Seq<char> {
    match eff.outline_lvl {
        Some(l) => heading_prefix(l),
        None => Seq::<char>::empty(),
    }
}

/// The format token of the definition for `id`, when there is one.
pub open spec fn numdef_format(numdefs: Seq<(isize, MarkdownNumbering)>, id: isize)
    -> Option<String> {
    match lookup_numdef(numdefs, id) {
        Some(d) => d.format,
        None => None,
    }
}

/// The level text of the definition for `id`, when there is one.
pub open spec fn numdef_level_text(numdefs: Seq<(isize, MarkdownNumbering)>, id: isize)
    -> Option<String> {
    match lookup_numdef(numdefs, id) {
        Some(d) => d.level_text,
        None => None,
    }
}

/// The list part of a rendered paragraph: the indentation for the nesting
/// level, then the marker for the list's current count followed by one
/// space.
pub open spec fn paragraph_marker_text(
    eff: ParagraphStyle,
    numdefs: Seq<(isize, MarkdownNumbering)>,
    counters: Seq<(isize, usize)>,
) -> Seq<char> {
    match eff.numbering {
        None => Seq::<char>::empty(),
        Some(num) => {
            let indent = match num.indent_level {
                Some(lv) => if lv > 0 {
                    repeated("    "@, lv as nat)
                } else {
                    Seq::<char>::empty()
                },
                None => Seq::<char>::empty(),
            };
            let marker = match num.id {
                Some(id) => marker_symbol(
                    numdef_format(numdefs, id),
                    numdef_level_text(numdefs, id),
                    counter_of(counters, id),
                ) + " "@,
                None => Seq::<char>::empty(),
            };
            indent + marker
        },
    }
}

/// The first `i` blocks rendered in order.
pub open spec fn rendered_blocks_upto(bs: Seq<BlockV>, eff: ParagraphStyle, i: nat) -> Seq<char>
    decreases i,
{
    if i == 0 {
        Seq::<char>::empty()
    } else {
        rendered_blocks_upto(bs, eff, (i - 1) as nat) + rendered_block(bs[i - 1], eff)
    }
}

/// All blocks rendered in order.
pub open spec fn rendered_blocks(bs: Seq<BlockV>, eff: ParagraphStyle) -> Seq<char> {
    rendered_blocks_upto(bs, eff, bs.len())
}

/// A paragraph's full rendering: heading prefix, list marker, then its
/// blocks, all under its effective style.
pub open spec fn rendered_paragraph(
    p: MarkdownParagraph,
    styles: Seq<(String, ParagraphStyle)>,
    numdefs: Seq<(isize, MarkdownNumbering)>,
    counters: Seq<(isize, usize)>,
) -> Seq<char> {
    let eff = effective_paragraph_style(p.style, styles);
    heading_text(eff) + paragraph_marker_text(eff, numdefs, counters) + rendered_blocks(
        blocks_view(p.blocks@),
        eff,
    )
}

/// The counters after a paragraph is rendered: bumped for its list when
/// its effective style names one, unchanged otherwise.
pub open spec fn counters_after_paragraph(
    p: MarkdownParagraph,
    styles: Seq<(String, ParagraphStyle)>,
    counters: Seq<(isize, usize)>,
) -> Seq<(isize, usize)> {
    let eff = effective_paragraph_style(p.style, styles);
    match eff.numbering {
        Some(num) => match num.id {
            Some(id) => bumped(counters, id),
            None => counters,
        },
        None => counters,
    }
}

impl MarkdownParagraph {
    /// Renders this paragraph under the registry `styles`, reading the
    /// document's numbering definitions from `doc` and bumping the
    /// render-pass counter of the list the paragraph belongs to.
    pub fn to_markdown(
        &self,
        styles: &Vec<(String, ParagraphStyle)>,
        numberings: &mut Vec<(isize, usize)>,
        doc: &MarkdownDocument,
    ) -> (r: String)
        ensures
            r@ == rendered_paragraph(*self, styles@, doc.numberings@, old(numberings)@),
            final(numberings)@ == counters_after_paragraph(*self, styles@, old(numberings)@),
    {
        let style = resolve_style(&self.style, styles);
        let mut markdown = String::new();

        if let Some(outline_lvl) = style.outline_lvl {
            markdown.append(heading_str(outline_lvl));
        }

        if let Some(numbering) = &style.numbering {
            if let Some(level) = numbering.indent_level {
                if level > 0 {
                    push_repeated(&mut markdown, "    ", level as usize);
                }
            }
            if let Some(id) = numbering.id {
                let prev = bump_counter(numberings, id);
                let marker = match find_numdef(&doc.numberings, id) {
                    Some(d) => render_marker(&d.format, &d.level_text, prev),
                    None => render_marker(&None, &None, prev),
                };
                markdown.append(marker.as_str());
                markdown.append(" ");
            }
        }

        proof {
            assert(markdown@ =~= heading_text(style) + paragraph_marker_text(
                style,
                doc.numberings@,
                old(numberings)@,
            ));
        }
        let ghost head = markdown@;

        let mut i: usize = 0;
        while i < self.blocks.len()
            invariant
                i <= self.blocks@.len(),
                style == effective_paragraph_style(self.style, styles@),
                markdown@ == head + rendered_blocks_upto(blocks_view(self.blocks@), style, i as nat),
            decreases self.blocks@.len() - i,
        {
            let b = &self.blocks[i];
            let t = b.to_markdown(&style);
            markdown.append(t.as_str());
            proof {
                assert(markdown@ =~= head + rendered_blocks_upto(
                    blocks_view(self.blocks@),
                    style,
                    (i + 1) as nat,
                ));
            }
            i += 1;
        }

        proof {
            assert(markdown@ =~= rendered_paragraph(
                *self,
                styles@,
                doc.numberings@,
                old(numberings)@,
            ));
        }
        markdown
    }
}

} // verus!
