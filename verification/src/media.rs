//! Embedded media: mime-type inference from a file name's extension and
//! the data-URI encoding of image bytes.

use vstd::prelude::*;
use vstd::string::StrSliceExecFns;
use vstd::string::StringExecFns;

use crate::strutil::push_char;
use crate::strutil::str_eq;

verus! {

/// Whether the name holds a dot anywhere.
pub open spec fn has_dot(s: Seq<char>) -> bool {
    exists|j: int| 0 <= j < s.len() && s[j] == '.'
}

/// The extension of a file name: everything after the last dot, or the
/// whole name when there is no dot.
pub open spec fn ext_of(s: Seq<char>) -> Seq<char>
    decreases s.len(),
{
    if !has_dot(s) {
        s
    } else if s.len() == 0 {
        s
    } else if s.last() == '.' {
        Seq::<char>::empty()
    } else {
        ext_of(s.drop_last()).push(s.last())
    }
}

/// A character folded to lower case, within ASCII.
pub open spec fn ascii_lower(c: char) -> char {
    let u = c as u32;
    if 65 <= u && u <= 90 {
        ((u + 32) as u8) as char
    } else {
        c
    }
}

/// A sequence folded to lower case, within ASCII.
pub open spec fn lower_seq(s: Seq<char>) -> Seq<char> {
    s.map_values(|c: char| ascii_lower(c))
}

/// The mime type inferred from a file name's extension, compared in lower
/// case: the five known image kinds, or nothing.
pub open spec fn mime_of(filename: Seq<char>) -> Option<Seq<char>> {
    let e = lower_seq(ext_of(filename));
    if e == "png"@ {
        Some("image/png"@)
    } else if e == "jpg"@ || e == "jpeg"@ {
        Some("image/jpeg"@)
    } else if e == "gif"@ {
        Some("image/gif"@)
    } else if e == "bmp"@ {
        Some("image/bmp"@)
    } else if e == "tiff"@ {
        Some("image/tiff"@)
    } else {
        None
    }
}

proof fn lemma_ext_no_dot(s: Seq<char>)
    requires
        forall|j: int| 0 <= j < s.len() ==> s[j] != '.',
    ensures
        ext_of(s) == s,
{
    assert(!has_dot(s));
}

proof fn lemma_ext_after_dot(s: Seq<char>, i: int)
    requires
        0 < i <= s.len(),
        s[i - 1] == '.',
        forall|j: int| i <= j < s.len() ==> s[j] != '.',
    ensures
        ext_of(s) == s.subrange(i, s.len() as int),
    decreases s.len(),
{
    assert(has_dot(s));
    if i == s.len() {
        assert(s.last() == '.');
        assert(ext_of(s) =~= s.subrange(i, s.len() as int));
    } else {
        assert(s.last() != '.');
        lemma_ext_after_dot(s.drop_last(), i);
        assert(ext_of(s) == ext_of(s.drop_last()).push(s.last()));
        assert(ext_of(s) =~= s.subrange(i, s.len() as int));
    }
}

fn ascii_lower_exec(c: char) -> (r: char)
    ensures
        r == ascii_lower(c),
{
    let u = c as u32;
    if 65 <= u && u <= 90 {
        ((u + 32) as u8) as char
    } else {
        c
    }
}

/// The position right after the last dot of a name, or zero when there is
/// no dot.
fn ext_start(s: &str) -> (start: usize)
    ensures
        start <= s@.len(),
        forall|j: int| start <= j < s@.len() ==> s@[j] != '.',
        start > 0 ==> s@[start - 1] == '.',
{
    let len = s.unicode_len();
    let mut i: usize = len;
    while i > 0
        invariant
            i <= len,
            len == s@.len(),
            forall|j: int| i <= j < len ==> s@[j] != '.',
        decreases i,
    {
        if s.get_char(i - 1) == '.' {
            return i;
        }
        i -= 1;
    }
    0
}

/// The extension of a file name, folded to lower case within ASCII.
fn lower_extension(filename: &str) -> (r: String)
    ensures
        r@ == lower_seq(ext_of(filename@)),
{
    let len = filename.unicode_len();
    let start = ext_start(filename);
    let ghost ext = ext_of(filename@);
    proof {
        if start == 0 {
            lemma_ext_no_dot(filename@);
            assert(ext =~= filename@.subrange(0, len as int));
        } else {
            lemma_ext_after_dot(filename@, start as int);
        }
    }
    let mut out = String::new();
    let mut i: usize = start;
    while i < len
        invariant
            start <= i <= len,
            len == filename@.len(),
            ext == filename@.subrange(start as int, len as int),
            out@ == lower_seq(ext).take(i - start),
        decreases len - i,
    {
        let c = filename.get_char(i);
        let l = ascii_lower_exec(c);
        push_char(&mut out, l);
        proof {
            assert(out@ =~= lower_seq(ext).take(i + 1 - start));
        }
        i += 1;
    }
    proof {
        assert(out@ =~= lower_seq(ext));
    }
    out
}

/// Infers the mime type of an image from its file name.
pub fn get_mime_type(filename: &str) -> (r: Option<&'static str>)
    ensures
        match r {
            Some(m) => mime_of(filename@) == Some(m@),
            None => mime_of(filename@) is None,
        },
{
    let e = lower_extension(filename);
    if str_eq(e.as_str(), "png") {
        Some("image/png")
    } else if str_eq(e.as_str(), "jpg") || str_eq(e.as_str(), "jpeg") {
        Some("image/jpeg")
    } else if str_eq(e.as_str(), "gif") {
        Some("image/gif")
    } else if str_eq(e.as_str(), "bmp") {
        Some("image/bmp")
    } else if str_eq(e.as_str(), "tiff") {
        Some("image/tiff")
    } else {
        None
    }
}

/// The standard base64 text of a byte sequence.
pub uninterp spec fn base64_of(data: Seq<u8>) -> Seq<char>;

/// Relies on base64's `Engine::encode` with the standard alphabet: the
/// text depends on the input bytes alone. The length bound keeps the
/// encoded size within `usize`, which the engine demands.
#[verifier::external_body]
fn base64_encode(data: &Vec<u8>) -> (r: String)
    requires
        data@.len() <= usize::MAX / 2,
    ensures
        r@ == base64_of(data@),
{
    <base64::engine::general_purpose::GeneralPurpose as base64::Engine>::encode(
        &base64::prelude::BASE64_STANDARD,
        data,
    )
}

/// The data URI for an image: its mime type (or the octet-stream default)
/// and its bytes in base64.
pub open spec fn data_uri(filename: Seq<char>, data: Seq<u8>) -> Seq<char> {
    let prefix = match mime_of(filename) {
        Some(m) => "data:"@ + m + ";base64,"@,
        None => "data:application/octet-stream;base64,"@,
    };
    prefix + base64_of(data)
}

/// Encodes an image as a data URI, inferring the mime type from its name.
pub fn image_data_uri(filename: &str, data: &Vec<u8>) -> (r: String)
    requires
        data@.len() <= usize::MAX / 2,
    ensures
        r@ == data_uri(filename@, data@),
{
    let mut out = match get_mime_type(filename) {
        Some(m) => {
            let mut p = String::from_str("data:");
            p.append(m);
            p.append(";base64,");
            p
        },
        None => String::from_str("data:application/octet-stream;base64,"),
    };
    let enc = base64_encode(data);
    out.append(enc.as_str());
    proof {
        assert(out@ =~= data_uri(filename@, data@));
    }
    out
}

} // verus!
