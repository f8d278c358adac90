//! Style layers and their cascade: inline run styles, paragraph styles,
//! the named-style registry, and the resolution of a paragraph's effective
//! style.
//!
//! Combination is a partial-update chain: `combine_with` fills the unset
//! fields of the higher-precedence side from the lower-precedence side,
//! except that the four boolean inline flags are always taken from the
//! lower (other) side and `size` only when the other side carries one.

use vstd::prelude::*;

verus! {

/// Inline (run-level) formatting flags.
#[derive(Debug, PartialEq, Eq, Clone, Copy)]
pub struct BlockStyle {
    pub bold: bool,
    pub italics: bool,
    pub underline: bool,
    pub strike: bool,
    /// Size is specified in points x 2, so size 19 is equal to 9.5pt
    pub size: Option<isize>,
}

/// The inline style with nothing set.
pub open spec fn empty_block_style() -> BlockStyle {
    BlockStyle { bold: false, italics: false, underline: false, strike: false, size: None }
}

/// The combination rule for inline styles: the four boolean flags are taken
/// from `other` unconditionally; `size` is taken from `other` only when set
/// there.
pub open spec fn combined_block_style(base: BlockStyle, other: BlockStyle) -> BlockStyle {
    BlockStyle {
        bold: other.bold,
        italics: other.italics,
        underline: other.underline,
        strike: other.strike,
        size: if other.size is Some {
            other.size
        } else {
            base.size
        },
    }
}

impl BlockStyle {
    pub fn new() -> (r: Self)
        ensures
            r == empty_block_style(),
    {
        BlockStyle { bold: false, italics: false, underline: false, strike: false, size: None }
    }

    pub fn combine_with(&mut self, other: &BlockStyle)
        ensures
            *final(self) == combined_block_style(*old(self), *other),
    {
        self.bold = other.bold;
        self.italics = other.italics;
        self.underline = other.underline;
        self.strike = other.strike;
        if let Some(size) = other.size {
            self.size = Some(size);
        }
    }
}

/// The numbering reference of a paragraph, or a numbering definition loaded
/// from the document's numbering part (all levels collapsed to the first).
#[derive(Debug)]
pub struct MarkdownNumbering {
    pub id: Option<isize>,
    pub indent_level: Option<isize>,
    pub format: Option<String>,
    pub level_text: Option<String>,
}

impl Clone for MarkdownNumbering {
    fn clone(&self) -> (res: Self)
        ensures
            res == *self,
    {
        MarkdownNumbering {
            id: self.id,
            indent_level: self.indent_level,
            format: clone_opt_string(&self.format),
            level_text: clone_opt_string(&self.level_text),
        }
    }
}

/// Clones an optional string, keeping its value.
pub fn clone_opt_string(s: &Option<String>) -> (r: Option<String>)
    ensures
        r == *s,
{
    match s {
        Some(v) => Some(v.clone()),
        None => None,
    }
}

/// A named style's defaults, or a paragraph's direct formatting overlay.
#[derive(Debug)]
pub struct ParagraphStyle {
    pub style_id: Option<String>,
    pub outline_lvl: Option<isize>,
    pub numbering: Option<MarkdownNumbering>,
    pub page_break_before: Option<bool>,
    pub style: Option<BlockStyle>,
}

/// The paragraph style with nothing set.
pub open spec fn empty_paragraph_style() -> ParagraphStyle {
    ParagraphStyle {
        style_id: None,
        outline_lvl: None,
        numbering: None,
        page_break_before: None,
        style: None,
    }
}

/// The combination rule for paragraph styles: unset fields of `base` are
/// filled from `other`; an inline style present on both sides is combined
/// by [`combined_block_style`].
pub open spec fn combined_paragraph_style(base: ParagraphStyle, other: ParagraphStyle)
    -> ParagraphStyle {
    ParagraphStyle {
        style_id: if base.style_id is Some {
            base.style_id
        } else {
            other.style_id
        },
        outline_lvl: if base.outline_lvl is Some {
            base.outline_lvl
        } else {
            other.outline_lvl
        },
        numbering: if base.numbering is Some {
            base.numbering
        } else {
            other.numbering
        },
        page_break_before: if base.page_break_before is Some {
            base.page_break_before
        } else {
            other.page_break_before
        },
        style: match (base.style, other.style) {
            (Some(b), Some(o)) => Some(combined_block_style(b, o)),
            (Some(b), None) => Some(b),
            (None, o) => o,
        },
    }
}

impl Clone for ParagraphStyle {
    fn clone(&self) -> (res: Self)
        ensures
            res == *self,
    {
        ParagraphStyle {
            style_id: clone_opt_string(&self.style_id),
            outline_lvl: self.outline_lvl,
            numbering: match &self.numbering {
                Some(n) => Some(n.clone()),
                None => None,
            },
            page_break_before: self.page_break_before,
            style: self.style,
        }
    }
}

impl Default for ParagraphStyle {
    fn default() -> (res: Self)
        ensures
            res == empty_paragraph_style(),
    {
        ParagraphStyle {
            style_id: None,
            outline_lvl: None,
            numbering: None,
            page_break_before: None,
            style: None,
        }
    }
}

impl ParagraphStyle {
    pub fn new() -> (r: Self)
        ensures
            r == empty_paragraph_style(),
    {
        ParagraphStyle {
            style_id: None,
            outline_lvl: None,
            numbering: None,
            page_break_before: None,
            style: None,
        }
    }

    pub fn combine_with(&mut self, other: &ParagraphStyle)
        ensures
            *final(self) == combined_paragraph_style(*old(self), *other),
    {
        if self.style_id.is_none() {
            self.style_id = clone_opt_string(&other.style_id);
        }
        if self.outline_lvl.is_none() {
            self.outline_lvl = other.outline_lvl;
        }
        if self.numbering.is_none() {
            self.numbering = match &other.numbering {
                Some(n) => Some(n.clone()),
                None => None,
            };
        }
        if self.page_break_before.is_none() {
            self.page_break_before = other.page_break_before;
        }
        match &mut self.style {
            Some(style) => {
                if let Some(other_style) = &other.style {
                    style.combine_with(other_style);
                }
            },
            None => {
                self.style = other.style;
            },
        }
    }
}

/// The named-style registry: style identifier to resolved paragraph style,
/// looked up by the first entry whose key matches.
pub open spec fn lookup_style(entries: Seq<(String, ParagraphStyle)>, id: Seq<char>)
    -> Option<ParagraphStyle>
    decreases entries.len(),
{
    if entries.len() == 0 {
        None
    } else if entries[0].0@ == id {
        Some(entries[0].1)
    } else {
        lookup_style(entries.drop_first(), id)
    }
}

/// Finds the first registry entry for `id`.
pub fn find_style<'a>(entries: &'a Vec<(String, ParagraphStyle)>, id: &str)
    -> (r: Option<&'a ParagraphStyle>)
    ensures
        match r {
            Some(p) => lookup_style(entries@, id@) == Some(*p),
            None => lookup_style(entries@, id@) is None,
        },
{
    let mut i: usize = 0;
    proof {
        assert(entries@.skip(0) =~= entries@);
    }
    while i < entries.len()
        invariant
            i <= entries@.len(),
            lookup_style(entries@.skip(i as int), id@) == lookup_style(entries@, id@),
        decreases entries@.len() - i,
    {
        proof {
            assert(entries@.skip(i as int)[0] == entries@[i as int]);
        }
        if crate::strutil::str_eq(entries[i].0.as_str(), id) {
            return Some(&entries[i].1);
        }
        proof {
            assert(entries@.skip(i as int).drop_first() =~= entries@.skip(i + 1));
        }
        i += 1;
    }
    proof {
        assert(entries@.skip(i as int).len() == 0);
    }
    None
}

/// The effective style of a paragraph under the cascade: the paragraph's own
/// style (or the empty default), combined with the registry entry its
/// `style_id` names, when there is one.
pub open spec fn effective_paragraph_style(
    style: Option<ParagraphStyle>,
    styles: Seq<(String, ParagraphStyle)>,
) -> ParagraphStyle {
    let base = match style {
        Some(s) => s,
        None => empty_paragraph_style(),
    };
    match base.style_id {
        Some(id) => match lookup_style(styles, id@) {
            Some(d) => combined_paragraph_style(base, d),
            None => base,
        },
        None => base,
    }
}

/// Resolves a paragraph's effective style against the registry.
pub fn resolve_style(style: &Option<ParagraphStyle>, styles: &Vec<(String, ParagraphStyle)>)
    -> (r: ParagraphStyle)
    ensures
        r == effective_paragraph_style(*style, styles@),
{
    let mut base = match style {
        Some(s) => s.clone(),
        None => ParagraphStyle::new(),
    };
    let id = clone_opt_string(&base.style_id);
    if let Some(id) = id {
        if let Some(d) = find_style(styles, id.as_str()) {
            base.combine_with(d);
        }
    }
    base
}

} // verus!
