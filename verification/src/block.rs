//! Content blocks: the typed text fragments a paragraph is made of, and
//! their rendering with inline Markdown markup.
//!
//! Markup is applied in the fixed nesting order bold, italics, underline,
//! strike — each layer wraps the previous result.

use vstd::prelude::*;
use vstd::string::StringExecFns;

use crate::style::BlockStyle;
use crate::style::ParagraphStyle;
use crate::style::combined_block_style;
use crate::style::empty_block_style;

verus! {

/// The kind of a content block.
#[derive(Debug, PartialEq, Eq, Structural, Clone, Copy)]
pub enum TextType {
    Text,
    Image,
    Link,
    Code,
    Quote,
    List,
    Table,
    Header,
    HorizontalRule,
    BlockQuote,
    CodeBlock,
    HeaderBlock,
    BookmarkLink,
}

/// One content block of a paragraph.
#[derive(Debug, PartialEq, Eq)]
pub struct TextBlock {
    pub text_type: TextType,
    pub style: Option<BlockStyle>,
    pub text: String,
}

/// The mathematical value of a content block: its kind, its inline style,
/// and its text as a character sequence.
pub ghost struct BlockV {
    pub text_type: TextType,
    pub style: Option<BlockStyle>,
    pub text: Seq<char>,
}

impl View for TextBlock {
    type V = BlockV;

    open spec fn view(&self) -> BlockV {
        BlockV { text_type: self.text_type, style: self.style, text: self.text@ }
    }
}

/// The views of a block sequence.
pub open spec fn blocks_view(blocks: Seq<TextBlock>) -> Seq<BlockV> {
    blocks.map_values(|b: TextBlock| b@)
}

/// The inline style a block is rendered with: the block's own style (or the
/// empty default), overlaid by the paragraph's inline style when present.
pub open spec fn block_render_style(style: Option<BlockStyle>, paragraph_style: ParagraphStyle)
    -> BlockStyle {
    let base = match style {
        Some(s) => s,
        None => empty_block_style(),
    };
    match paragraph_style.style {
        Some(p) => combined_block_style(base, p),
        None => base,
    }
}

/// The text of a block wrapped in inline markup, innermost first: bold,
/// italics, underline, strike.
pub open spec fn rendered_block(b: BlockV, paragraph_style: ParagraphStyle) -> Seq<char> {
    let s = block_render_style(b.style, paragraph_style);
    let t0 = b.text;
    let t1 = if s.bold {
        "**"@ + t0 + "**"@
    } else {
        t0
    };
    let t2 = if s.italics {
        "*"@ + t1 + "*"@
    } else {
        t1
    };
    let t3 = if s.underline {
        "__"@ + t2 + "__"@
    } else {
        t2
    };
    if s.strike {
        "~~"@ + t3 + "~~"@
    } else {
        t3
    }
}

impl TextBlock {
    pub fn new(text: String, style: Option<BlockStyle>, text_type: TextType) -> (r: Self)
        ensures
            r == (TextBlock { style, text, text_type }),
    {
        TextBlock { style, text, text_type }
    }

    /// Renders this block under the given effective paragraph style.
    pub fn to_markdown(&self, paragraph_style: &ParagraphStyle) -> (r: String)
        ensures
            r@ == rendered_block(self@, *paragraph_style),
    {
        let mut markdown = self.text.clone();

        let mut style = match &self.style {
            Some(s) => *s,
            None => BlockStyle::new(),
        };

        if let Some(block_style) = &paragraph_style.style {
            style.combine_with(block_style);
        }

        if style.bold {
            markdown = wrap(markdown, "**");
        }
        if style.italics {
            markdown = wrap(markdown, "*");
        }
        if style.underline {
            markdown = wrap(markdown, "__");
        }
        if style.strike {
            markdown = wrap(markdown, "~~");
        }
        proof {
            assert(markdown@ =~= rendered_block(self@, *paragraph_style));
        }
        markdown
    }
}

/// `mark` + `inner` + `mark`.
fn wrap(inner: String, mark: &str) -> (r: String)
    ensures
        r@ == mark@ + inner@ + mark@,
{
    let mut out = String::from_str(mark);
    out.append(inner.as_str());
    out.append(mark);
    proof {
        assert(out@ =~= mark@ + inner@ + mark@);
    }
    out
}

} // verus!
