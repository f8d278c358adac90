//! The numbering engine: per-list counters scoped to one render pass, and
//! the marker symbol produced for a (format, counter) pair.
//!
//! Counters are an association list from list id to a zero-based count,
//! bumped on every numbered paragraph of that list in document order. The
//! letter formats approximate roman numerals and letters with a single
//! character offset from the base letter, which is numerically wrong past
//! the alphabet — a deliberate, preserved simplification.

use vstd::prelude::*;
use vstd::string::StrSliceExecFns;

use crate::strutil::dec_digits;
use crate::strutil::decimal_string;
use crate::strutil::push_char;
use crate::strutil::str_eq;
use crate::style::MarkdownNumbering;

verus! {

/// The numbering-definition table: list id to definition, looked up by the
/// first entry whose id matches.
pub open spec fn lookup_numdef(entries: Seq<(isize, MarkdownNumbering)>, id: isize)
    -> Option<MarkdownNumbering>
    decreases entries.len(),
{
    if entries.len() == 0 {
        None
    } else if entries[0].0 == id {
        Some(entries[0].1)
    } else {
        lookup_numdef(entries.drop_first(), id)
    }
}

/// Finds the first numbering definition for `id`.
pub fn find_numdef<'a>(entries: &'a Vec<(isize, MarkdownNumbering)>, id: isize)
    -> (r: Option<&'a MarkdownNumbering>)
    ensures
        match r {
            Some(d) => lookup_numdef(entries@, id) == Some(*d),
            None => lookup_numdef(entries@, id) is None,
        },
{
    let mut i: usize = 0;
    proof {
        assert(entries@.skip(0) =~= entries@);
    }
    while i < entries.len()
        invariant
            i <= entries@.len(),
            lookup_numdef(entries@.skip(i as int), id) == lookup_numdef(entries@, id),
        decreases entries@.len() - i,
    {
        proof {
            assert(entries@.skip(i as int)[0] == entries@[i as int]);
        }
        if entries[i].0 == id {
            return Some(&entries[i].1);
        }
        proof {
            assert(entries@.skip(i as int).drop_first() =~= entries@.skip(i + 1));
        }
        i += 1;
    }
    proof {
        assert(entries@.skip(i as int).len() == 0);
    }
    None
}

/// A saturating increment: counters stop growing at the top of `usize`.
pub open spec fn bump_value(n: usize) -> usize {
    if n == usize::MAX {
        n
    } else {
        (n + 1) as usize
    }
}

/// The current count for `id`: the first entry's value, or zero when there
/// is none.
pub open spec fn counter_of(cs: Seq<(isize, usize)>, id: isize) -> usize
    decreases cs.len(),
{
    if cs.len() == 0 {
        0
    } else if cs[0].0 == id {
        cs[0].1
    } else {
        counter_of(cs.drop_first(), id)
    }
}

/// The counters after one numbered paragraph of list `id`: its entry is
/// bumped, or created with count one.
pub open spec fn bumped(cs: Seq<(isize, usize)>, id: isize) -> Seq<(isize, usize)>
    decreases cs.len(),
{
    if cs.len() == 0 {
        seq![(id, bump_value(0))]
    } else if cs[0].0 == id {
        seq![(cs[0].0, bump_value(cs[0].1))] + cs.drop_first()
    } else {
        seq![cs[0]] + bumped(cs.drop_first(), id)
    }
}

proof fn lemma_bumped_at(cs: Seq<(isize, usize)>, id: isize, j: int)
    requires
        0 <= j < cs.len(),
        cs[j].0 == id,
        forall|k: int| 0 <= k < j ==> cs[k].0 != id,
    ensures
        bumped(cs, id) =~= cs.update(j, (id, bump_value(cs[j].1))),
        counter_of(cs, id) == cs[j].1,
    decreases j,
{
    if j == 0 {
    } else {
        assert(cs[0].0 != id);
        lemma_bumped_at(cs.drop_first(), id, j - 1);
        assert(bumped(cs, id) =~= seq![cs[0]] + bumped(cs.drop_first(), id));
        assert(seq![cs[0]] + cs.drop_first().update(j - 1, (id, bump_value(cs[j].1))) =~= cs.update(
            j,
            (id, bump_value(cs[j].1)),
        ));
    }
}

proof fn lemma_bumped_absent(cs: Seq<(isize, usize)>, id: isize)
    requires
        forall|k: int| 0 <= k < cs.len() ==> cs[k].0 != id,
    ensures
        bumped(cs, id) =~= cs + seq![(id, bump_value(0))],
        counter_of(cs, id) == 0,
    decreases cs.len(),
{
    if cs.len() == 0 {
        assert(bumped(cs, id) =~= cs + seq![(id, bump_value(0))]);
    } else {
        lemma_bumped_absent(cs.drop_first(), id);
        assert(seq![cs[0]] + (cs.drop_first() + seq![(id, bump_value(0))]) =~= cs + seq![
            (id, bump_value(0)),
        ]);
    }
}

/// Bumps the counter for `id` in place and hands back the count before the
/// bump.
pub fn bump_counter(cs: &mut Vec<(isize, usize)>, id: isize) -> (prev: usize)
    ensures
        prev == counter_of(old(cs)@, id),
        final(cs)@ == bumped(old(cs)@, id),
{
    let mut i: usize = 0;
    while i < cs.len()
        invariant
            i <= cs@.len(),
            cs@ == old(cs)@,
            forall|k: int| 0 <= k < i ==> cs@[k].0 != id,
        decreases cs@.len() - i,
    {
        if cs[i].0 == id {
            let prev = cs[i].1;
            let next = if prev == usize::MAX {
                prev
            } else {
                prev + 1
            };
            cs.set(i, (id, next));
            proof {
                lemma_bumped_at(old(cs)@, id, i as int);
            }
            return prev;
        }
        i += 1;
    }
    cs.push((id, 1));
    proof {
        lemma_bumped_absent(old(cs)@, id);
    }
    0
}

/// Whether a character belongs to Unicode's white space set.
pub open spec fn is_space_char(c: char) -> bool {
    let u = c as u32;
    (0x09 <= u && u <= 0x0D) || u == 0x20 || u == 0x85 || u == 0xA0 || u == 0x1680 || (0x2000 <= u
        && u <= 0x200A) || u == 0x2028 || u == 0x2029 || u == 0x202F || u == 0x205F || u == 0x3000
}

/// Whether the whole sequence is white space (so that trimming leaves
/// nothing).
pub open spec fn all_blank(s: Seq<char>) -> bool {
    forall|i: int| 0 <= i < s.len() ==> is_space_char(s[i])
}

fn is_space_char_exec(c: char) -> (r: bool)
    ensures
        r == is_space_char(c),
{
    let u = c as u32;
    (0x09 <= u && u <= 0x0D) || u == 0x20 || u == 0x85 || u == 0xA0 || u == 0x1680 || (0x2000 <= u
        && u <= 0x200A) || u == 0x2028 || u == 0x2029 || u == 0x202F || u == 0x205F || u == 0x3000
}

/// Whether `s` holds only white space.
pub fn is_blank_str(s: &str) -> (r: bool)
    ensures
        r == all_blank(s@),
{
    let len = s.unicode_len();
    let mut i: usize = 0;
    while i < len
        invariant
            i <= len,
            len == s@.len(),
            forall|j: int| 0 <= j < i ==> is_space_char(s@[j]),
        decreases len - i,
    {
        let c = s.get_char(i);
        if !is_space_char_exec(c) {
            return false;
        }
        i += 1;
    }
    true
}

/// The single marker letter for count `n` over the base letter `base`,
/// wrapping within a byte.
pub open spec fn letter_char(n: nat, base: nat) -> char {
    (((n % 256 + base) % 256) as u8) as char
}

fn letter_marker_char(count: usize, base: u8) -> (c: char)
    ensures
        c == letter_char(count as nat, base as nat),
{
    let b: u8 = ((count % 256) as u8).wrapping_add(base);
    b as char
}

/// The marker for one numbered paragraph, by the list's declared format
/// token: single letters offset from `I`, `i`, `A` or `a` suffixed with a
/// dot; a space or a dash for bullets, by the blankness of the level text;
/// and the one-based decimal count suffixed with a dot for everything else.
pub open spec fn marker_symbol(
    format: Option<String>,
    level_text: Option<String>,
    n: usize,
) -> Seq<char> {
    match format {
        Some(f) => if f@ == "upperRoman"@ {
            seq![letter_char(n as nat, 73)] + "."@
        } else if f@ == "lowerRoman"@ {
            seq![letter_char(n as nat, 105)] + "."@
        } else if f@ == "upperLetter"@ {
            seq![letter_char(n as nat, 65)] + "."@
        } else if f@ == "lowerLetter"@ {
            seq![letter_char(n as nat, 97)] + "."@
        } else if f@ == "bullet"@ {
            match level_text {
                Some(lt) => if all_blank(lt@) {
                    " "@
                } else {
                    "-"@
                },
                None => "-"@,
            }
        } else {
            dec_digits((n + 1) as nat) + "."@
        },
        None => dec_digits((n + 1) as nat) + "."@,
    }
}

fn letter_symbol(count: usize, base: u8) -> (r: String)
    ensures
        r@ == seq![letter_char(count as nat, base as nat)] + "."@,
{
    let mut s = String::new();
    let c = letter_marker_char(count, base);
    push_char(&mut s, c);
    s.append(".");
    proof {
        assert(s@ =~= seq![letter_char(count as nat, base as nat)] + "."@);
    }
    s
}

fn decimal_symbol(count: usize) -> (r: String)
    ensures
        r@ == dec_digits((count + 1) as nat) + "."@,
{
    let mut s = decimal_string(count as u128 + 1);
    s.append(".");
    s
}

/// Produces the marker for count `n` under the given format and level
/// text.
pub fn render_marker(format: &Option<String>, level_text: &Option<String>, n: usize) -> (r: String)
    ensures
        r@ == marker_symbol(*format, *level_text, n),
{
    match format {
        Some(f) => {
            if str_eq(f.as_str(), "upperRoman") {
                letter_symbol(n, 73)
            } else if str_eq(f.as_str(), "lowerRoman") {
                letter_symbol(n, 105)
            } else if str_eq(f.as_str(), "upperLetter") {
                letter_symbol(n, 65)
            } else if str_eq(f.as_str(), "lowerLetter") {
                letter_symbol(n, 97)
            } else if str_eq(f.as_str(), "bullet") {
                match level_text {
                    Some(lt) => {
                        if is_blank_str(lt.as_str()) {
                            String::from_str(" ")
                        } else {
                            String::from_str("-")
                        }
                    },
                    None => String::from_str("-"),
                }
            } else {
                decimal_symbol(n)
            }
        },
        None => decimal_symbol(n),
    }
}

} // verus!
