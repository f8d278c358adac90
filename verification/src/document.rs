//! The document model and the top-level Markdown renderer: metadata, the
//! ordered content (paragraphs and tables), the named-style registry, the
//! numbering definitions, and the embedded images.

use vstd::prelude::*;
use vstd::string::StringExecFns;

use crate::paragraph::MarkdownParagraph;
use crate::paragraph::counters_after_paragraph;
use crate::paragraph::rendered_paragraph;
use crate::style::MarkdownNumbering;
use crate::style::ParagraphStyle;
use crate::table::render_table;
use crate::table::rows_views;
use crate::table::cells_views;
use crate::table::table_text;

verus! {

/// A logical table: ordered rows, each flagged as header or not, holding
/// cells that are themselves sequences of paragraphs.
pub type MarkdownTableType = Vec<(bool, Vec<Vec<MarkdownParagraph>>)>;

/// One top-level content item.
#[derive(Debug)]
pub enum MarkdownContent {
    Paragraph(MarkdownParagraph),
    Table(MarkdownTableType),
}

/// A parsed document: metadata, content in document order, and the lookup
/// tables populated once at load time.
#[derive(Debug)]
pub struct MarkdownDocument {
    pub creator: Option<String>,
    pub last_editor: Option<String>,
    pub company: Option<String>,
    pub title: Option<String>,
    pub description: Option<String>,
    pub subject: Option<String>,
    pub keywords: Option<String>,
    pub content: Vec<MarkdownContent>,
    pub styles: Vec<(String, ParagraphStyle)>,
    pub numberings: Vec<(isize, MarkdownNumbering)>,
    pub images: Vec<(String, Vec<u8>)>,
}

impl MarkdownDocument {
    pub fn new() -> (r: Self)
        ensures
            r.creator is None,
            r.last_editor is None,
            r.company is None,
            r.title is None,
            r.description is None,
            r.subject is None,
            r.keywords is None,
            r.content@.len() == 0,
            r.styles@.len() == 0,
            r.numberings@.len() == 0,
            r.images@.len() == 0,
    {
        MarkdownDocument {
            creator: None,
            last_editor: None,
            company: None,
            title: None,
            description: None,
            subject: None,
            keywords: None,
            content: Vec::new(),
            styles: Vec::new(),
            numberings: Vec::new(),
            images: Vec::new(),
        }
    }
}

/// One table cell rendered: its paragraphs from `k` on, joined with an
/// explicit line-break marker, threading the numbering counters through in
/// order. The pair holds the text and the counters after.
pub open spec fn cell_text(
    paras: Seq<MarkdownParagraph>,
    styles: Seq<(String, ParagraphStyle)>,
    numdefs: Seq<(isize, MarkdownNumbering)>,
    counters: Seq<(isize, usize)>,
    k: nat,
) -> (Seq<char>, Seq<(isize, usize)>)
    decreases paras.len() - k,
{
    if k >= paras.len() {
        (Seq::<char>::empty(), counters)
    } else {
        let t = rendered_paragraph(paras[k as int], styles, numdefs, counters);
        let c2 = counters_after_paragraph(paras[k as int], styles, counters);
        let sep = if k + 1 < paras.len() {
            "<br/>"@
        } else {
            Seq::<char>::empty()
        };
        let rest = cell_text(paras, styles, numdefs, c2, k + 1);
        (t + sep + rest.0, rest.1)
    }
}

/// One table row rendered: its cells from `k` on, each through
/// [`cell_text`], threading the counters.
pub open spec fn row_cells(
    cells: Seq<Vec<MarkdownParagraph>>,
    styles: Seq<(String, ParagraphStyle)>,
    numdefs: Seq<(isize, MarkdownNumbering)>,
    counters: Seq<(isize, usize)>,
    k: nat,
) -> (Seq<Seq<char>>, Seq<(isize, usize)>)
    decreases cells.len() - k,
{
    if k >= cells.len() {
        (Seq::<Seq<char>>::empty(), counters)
    } else {
        let cell = cell_text(cells[k as int]@, styles, numdefs, counters, 0);
        let rest = row_cells(cells, styles, numdefs, cell.1, k + 1);
        (seq![cell.0] + rest.0, rest.1)
    }
}

/// A whole table rendered to simple cells: its rows from `j` on, each
/// through [`row_cells`], threading the counters.
pub open spec fn table_cells(
    rows: Seq<(bool, Vec<Vec<MarkdownParagraph>>)>,
    styles: Seq<(String, ParagraphStyle)>,
    numdefs: Seq<(isize, MarkdownNumbering)>,
    counters: Seq<(isize, usize)>,
    j: nat,
) -> (Seq<(bool, Seq<Seq<char>>)>, Seq<(isize, usize)>)
    decreases rows.len() - j,
{
    if j >= rows.len() {
        (Seq::<(bool, Seq<Seq<char>>)>::empty(), counters)
    } else {
        let row = row_cells(rows[j as int].1@, styles, numdefs, counters, 0);
        let rest = table_cells(rows, styles, numdefs, row.1, j + 1);
        (seq![(rows[j as int].0, row.0)] + rest.0, rest.1)
    }
}

/// The text one content item contributes — a paragraph's rendering plus a
/// newline, or a whole table — and the counters after it.
pub open spec fn item_text(
    item: MarkdownContent,
    styles: Seq<(String, ParagraphStyle)>,
    numdefs: Seq<(isize, MarkdownNumbering)>,
    counters: Seq<(isize, usize)>,
) -> (Seq<char>, Seq<(isize, usize)>) {
    match item {
        MarkdownContent::Paragraph(p) => (
            rendered_paragraph(p, styles, numdefs, counters) + "\n"@,
            counters_after_paragraph(p, styles, counters),
        ),
        MarkdownContent::Table(t) => {
            let cells = table_cells(t@, styles, numdefs, counters, 0);
            (table_text(cells.0), cells.1)
        },
    }
}

/// The content items from `j` on rendered in order, a single blank line
/// between items except after the last.
pub open spec fn items_from(
    content: Seq<MarkdownContent>,
    styles: Seq<(String, ParagraphStyle)>,
    numdefs: Seq<(isize, MarkdownNumbering)>,
    counters: Seq<(isize, usize)>,
    j: nat,
) -> (Seq<char>, Seq<(isize, usize)>)
    decreases content.len() - j,
{
    if j >= content.len() {
        (Seq::<char>::empty(), counters)
    } else {
        let item = item_text(content[j as int], styles, numdefs, counters);
        let sep = if j + 1 != content.len() {
            "\n"@
        } else {
            Seq::<char>::empty()
        };
        let rest = items_from(content, styles, numdefs, item.1, j + 1);
        (item.0 + sep + rest.0, rest.1)
    }
}

/// The title heading at the very start, when the document carries one.
pub open spec fn title_text(title: Option<String>) -> Seq<char> {
    match title {
        Some(t) => "# "@ + t@ + "\n\n"@,
        None => Seq::<char>::empty(),
    }
}

/// A whole document rendered: the title heading, then every content item
/// in order, with the numbering counters starting fresh.
pub open spec fn rendered_document(d: MarkdownDocument) -> Seq<char> {
    title_text(d.title) + items_from(
        d.content@,
        d.styles@,
        d.numberings@,
        Seq::<(isize, usize)>::empty(),
        0,
    ).0
}

impl MarkdownDocument {
    /// Renders one table cell, joining its paragraphs with a line-break
    /// marker.
    fn render_cell(&self, paras: &Vec<MarkdownParagraph>, counters: &mut Vec<(isize, usize)>)
        -> (r: String)
        ensures
            ({
                let whole = cell_text(paras@, self.styles@, self.numberings@, old(counters)@, 0);
                r@ == whole.0 && final(counters)@ == whole.1
            }),
    {
        let ghost c0 = counters@;
        let ghost whole = cell_text(paras@, self.styles@, self.numberings@, c0, 0);
        let mut cell = String::new();
        let mut k: usize = 0;
        while k < paras.len()
            invariant
                k <= paras@.len(),
                ({
                    let rest = cell_text(paras@, self.styles@, self.numberings@, counters@, k as nat);
                    cell@ + rest.0 == whole.0 && rest.1 == whole.1
                }),
            decreases paras@.len() - k,
        {
            let ghost rest = cell_text(paras@, self.styles@, self.numberings@, counters@, k as nat);
            let p = &paras[k];
            let t = p.to_markdown(&self.styles, counters, self);
            cell.append(t.as_str());
            if k + 1 < paras.len() {
                cell.append("<br/>");
            }
            proof {
                let stepped = cell_text(
                    paras@,
                    self.styles@,
                    self.numberings@,
                    counters@,
                    (k + 1) as nat,
                );
                assert(cell@ + stepped.0 =~= whole.0);
            }
            k += 1;
        }
        proof {
            assert(cell@ =~= whole.0);
        }
        cell
    }

    /// Renders every cell of a table to plain text, row-major, threading
    /// the counters.
    fn render_table_cells(
        &self,
        t: &Vec<(bool, Vec<Vec<MarkdownParagraph>>)>,
        counters: &mut Vec<(isize, usize)>,
    ) -> (r: Vec<(bool, Vec<String>)>)
        ensures
            ({
                let whole = table_cells(t@, self.styles@, self.numberings@, old(counters)@, 0);
                rows_views(r@) == whole.0 && final(counters)@ == whole.1
            }),
    {
        let ghost c0 = counters@;
        let ghost whole = table_cells(t@, self.styles@, self.numberings@, c0, 0);
        let mut simple: Vec<(bool, Vec<String>)> = Vec::new();
        let mut j: usize = 0;
        proof {
            assert(rows_views(simple@) =~= Seq::<(bool, Seq<Seq<char>>)>::empty());
        }
        while j < t.len()
            invariant
                j <= t@.len(),
                ({
                    let rest = table_cells(t@, self.styles@, self.numberings@, counters@, j as nat);
                    rows_views(simple@) + rest.0 == whole.0 && rest.1 == whole.1
                }),
            decreases t@.len() - j,
        {
            let ghost crow = counters@;
            let row = &t[j].1;
            let is_header = t[j].0;
            let mut cells: Vec<String> = Vec::new();
            let ghost rowwhole = row_cells(row@, self.styles@, self.numberings@, crow, 0);
            let mut c: usize = 0;
            proof {
                assert(cells_views(cells@) =~= Seq::<Seq<char>>::empty());
            }
            while c < row.len()
                invariant
                    c <= row@.len(),
                    rowwhole == row_cells(row@, self.styles@, self.numberings@, crow, 0),
                    ({
                        let rest = row_cells(row@, self.styles@, self.numberings@, counters@, c as nat);
                        cells_views(cells@) + rest.0 == rowwhole.0 && rest.1 == rowwhole.1
                    }),
                decreases row@.len() - c,
            {
                let cellparas = &row[c];
                let cell = self.render_cell(cellparas, counters);
                cells.push(cell);
                proof {
                    let stepped = row_cells(row@, self.styles@, self.numberings@, counters@, (c + 1) as nat);
                    assert(cells_views(cells@) + stepped.0 =~= rowwhole.0);
                }
                c += 1;
            }
            proof {
                assert(cells_views(cells@) =~= rowwhole.0);
            }
            simple.push((is_header, cells));
            proof {
                let stepped = table_cells(t@, self.styles@, self.numberings@, counters@, (j + 1) as nat);
                assert(rows_views(simple@) + stepped.0 =~= whole.0);
            }
            j += 1;
        }
        proof {
            assert(rows_views(simple@) =~= whole.0);
        }
        simple
    }

    /// Renders the whole document as Markdown, with fresh numbering state
    /// for this render pass.
    pub fn to_markdown(&self) -> (r: String)
        ensures
            r@ == rendered_document(*self),
    {
        let mut markdown = String::new();

        if let Some(title) = &self.title {
            markdown.append("# ");
            markdown.append(title.as_str());
            markdown.append("\n\n");
        }
        proof {
            assert(markdown@ =~= title_text(self.title));
        }

        let mut counters: Vec<(isize, usize)> = Vec::new();
        proof {
            assert(counters@ =~= Seq::<(isize, usize)>::empty());
        }
        let ghost whole = rendered_document(*self);

        let mut i: usize = 0;
        while i < self.content.len()
            invariant
                i <= self.content@.len(),
                ({
                    let rest = items_from(
                        self.content@,
                        self.styles@,
                        self.numberings@,
                        counters@,
                        i as nat,
                    );
                    markdown@ + rest.0 == whole
                }),
            decreases self.content@.len() - i,
        {
            let ghost citem = counters@;
            match &self.content[i] {
                MarkdownContent::Paragraph(paragraph) => {
                    let t = paragraph.to_markdown(&self.styles, &mut counters, self);
                    markdown.append(t.as_str());
                    markdown.append("\n");
                },
                MarkdownContent::Table(table) => {
                    let simple = self.render_table_cells(table, &mut counters);
                    let tt = render_table(&simple);
                    markdown.append(tt.as_str());
                },
            }
            if i + 1 != self.content.len() {
                markdown.append("\n");
            }
            proof {
                let stepped = items_from(
                    self.content@,
                    self.styles@,
                    self.numberings@,
                    counters@,
                    (i + 1) as nat,
                );
                assert(markdown@ + stepped.0 =~= whole);
            }
            i += 1;
        }
        proof {
            assert(markdown@ =~= whole);
        }
        markdown
    }
}

} // verus!
