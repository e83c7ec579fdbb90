//! The shader template engine. The render shader's source text carries one
//! marked region; before compilation the region is replaced, once, by a
//! constant declaration carrying the configured quad size. A template
//! missing either marker is a malformed asset and is rejected. Source text
//! is handled as UTF-8 bytes.

use vstd::prelude::*;

verus! {

/// `needle` occurs in `haystack` at position `i`.
pub open spec fn matches_at(haystack: Seq<u8>, needle: Seq<u8>, i: int) -> bool {
    &&& 0 <= i
    &&& i + needle.len() <= haystack.len()
    &&& haystack.subrange(i, i + needle.len() as int) == needle
}

/// `i` is the first position at which `needle` occurs in `haystack`.
pub open spec fn is_first_match(haystack: Seq<u8>, needle: Seq<u8>, i: int) -> bool {
    &&& matches_at(haystack, needle, i)
    &&& forall|j: int| 0 <= j < i ==> !matches_at(haystack, needle, j)
}

/// Whether `needle` begins at position `i` of `haystack`.
fn match_at(haystack: &Vec<u8>, needle: &Vec<u8>, i: usize) -> (r: bool)
    requires
        i + needle.len() <= haystack.len(),
    ensures
        r == matches_at(haystack@, needle@, i as int),
{
    let mut j: usize = 0;
    while j < needle.len()
        invariant
            j <= needle.len(),
            i + needle.len() <= haystack.len(),
            forall|k: int| 0 <= k < j ==> haystack@[i + k] == needle@[k],
        decreases needle.len() - j,
    {
        if haystack[i + j] != needle[j] {
            proof {
                if matches_at(haystack@, needle@, i as int) {
                    assert(haystack@.subrange(i as int, i + needle@.len())[j as int]
                        == needle@[j as int]);
                }
            }
            return false;
        }
        j += 1;
    }
    proof {
        assert(haystack@.subrange(i as int, i + needle@.len()) =~= needle@);
    }
    true
}

/// The first occurrence of `needle` in `haystack`, if there is one.
pub fn find_first(haystack: &Vec<u8>, needle: &Vec<u8>) -> (r: Option<usize>)
    requires
        needle.len() > 0,
    ensures
        match r {
            Some(i) => is_first_match(haystack@, needle@, i as int),
            None => forall|j: int| !matches_at(haystack@, needle@, j),
        },
{
    if needle.len() > haystack.len() {
        return None;
    }
    let last_start: usize = haystack.len() - needle.len();
    let mut i: usize = 0;
    while i <= last_start
        invariant
            0 < needle.len() <= haystack.len(),
            last_start == haystack.len() - needle.len(),
            i <= last_start + 1,
            forall|j: int| 0 <= j < i ==> !matches_at(haystack@, needle@, j),
        decreases last_start + 1 - i,
    {
        if match_at(haystack, needle, i) {
            return Some(i);
        }
        i += 1;
    }
    None
}

/// Appends `src[from..to]` to `out`.
fn push_range(out: &mut Vec<u8>, src: &Vec<u8>, from: usize, to: usize)
    requires
        from <= to <= src.len(),
    ensures
        final(out)@ == old(out)@ + src@.subrange(from as int, to as int),
{
    let mut i: usize = from;
    while i < to
        invariant
            from <= i <= to <= src.len(),
            out@ == old(out)@ + src@.subrange(from as int, i as int),
        decreases to - i,
    {
        out.push(src[i]);
        proof {
            assert(old(out)@ + src@.subrange(from as int, i as int) =~= out@.drop_last());
            assert(out@ =~= old(out)@ + src@.subrange(from as int, i + 1));
        }
        i += 1;
    }
    proof {
        assert(out@ =~= old(out)@ + src@.subrange(from as int, to as int));
    }
}

/// The text of the start marker, "$RUST_REPLACEME", as bytes.
pub open spec fn start_marker_text() -> Seq<u8> {
    seq![36u8, 82u8, 85u8, 83u8, 84u8, 95u8, 82u8, 69u8, 80u8, 76u8, 65u8, 67u8, 69u8, 77u8, 69u8]
}

/// The text of the end marker, "$RUST_REPLACEMEEND", as bytes.
pub open spec fn end_marker_text() -> Seq<u8> {
    seq![
        36u8, 82u8, 85u8, 83u8, 84u8, 95u8, 82u8, 69u8, 80u8, 76u8, 65u8, 67u8, 69u8, 77u8, 69u8,
        69u8, 78u8, 68u8,
    ]
}

/// The replacement's text up to the value: a line break followed by
/// "const QUAD_SIZE: f32 = ", as bytes.
pub open spec fn declaration_prefix_text() -> Seq<u8> {
    seq![
        10u8, 99u8, 111u8, 110u8, 115u8, 116u8, 32u8, 81u8, 85u8, 65u8, 68u8, 95u8, 83u8, 73u8,
        90u8, 69u8, 58u8, 32u8, 102u8, 51u8, 50u8, 32u8, 61u8, 32u8,
    ]
}

/// Builds the start marker.
pub fn start_marker() -> (r: Vec<u8>)
    ensures
        r@ == start_marker_text(),
        r@.len() > 0,
{
    let v: Vec<u8> = vec![36, 82, 85, 83, 84, 95, 82, 69, 80, 76, 65, 67, 69, 77, 69];
    proof {
        assert(v@ =~= start_marker_text());
    }
    v
}

/// Builds the end marker.
pub fn end_marker() -> (r: Vec<u8>)
    ensures
        r@ == end_marker_text(),
        r@.len() > 0,
{
    let v: Vec<u8> = vec![
        36, 82, 85, 83, 84, 95, 82, 69, 80, 76, 65, 67, 69, 77, 69, 69, 78, 68,
    ];
    proof {
        assert(v@ =~= end_marker_text());
    }
    v
}

/// The full replacement for the marked region: the constant declaration
/// carrying the quad size's decimal text, closed by a semicolon.
pub open spec fn replacement_text(quad_size_micros: u64) -> Seq<u8> {
    declaration_prefix_text() + crate::decimal::micros_text(quad_size_micros) + seq![59u8]
}

/// A template rejected as a malformed asset: one of the two markers is
/// absent from the source text.
#[derive(Copy, Clone, Debug, PartialEq, Eq, Structural)]
pub enum TemplateError {
    MissingStartMarker,
    MissingEndMarker,
}

/// The rendered source for a template whose first start marker stands at
/// `s` and whose first end marker stands at `e`: everything before the
/// start marker, the constant declaration, and everything after the end
/// marker.
pub open spec fn rendered_text(template: Seq<u8>, s: int, e: int, quad_size_micros: u64) -> Seq<
    u8,
> {
    template.subrange(0, s) + replacement_text(quad_size_micros) + template.subrange(
        e + end_marker_text().len(),
        template.len() as int,
    )
}

/// Produces the final render-shader source: the region from the first start
/// marker through the first end marker is replaced by a constant declaration
/// whose value is the quad size's decimal text. The substitution happens
/// once; a template missing the start marker, or missing the end marker, is
/// reported as malformed.
pub fn render_shader_source(template: &Vec<u8>, quad_size_micros: u64) -> (r: Result<
    Vec<u8>,
    TemplateError,
>)
    ensures
        match r {
            Ok(out) => exists|s: int, e: int|
                is_first_match(template@, start_marker_text(), s) && is_first_match(
                    template@,
                    end_marker_text(),
                    e,
                ) && out@ == rendered_text(template@, s, e, quad_size_micros),
            Err(TemplateError::MissingStartMarker) => forall|j: int|
                !matches_at(template@, start_marker_text(), j),
            Err(TemplateError::MissingEndMarker) => (exists|j: int|
                matches_at(template@, start_marker_text(), j)) && forall|j: int|
                !matches_at(template@, end_marker_text(), j),
        },
{
    let start = start_marker();
    let end = end_marker();
    let s = match find_first(template, &start) {
        Some(s) => s,
        None => {
            return Err(TemplateError::MissingStartMarker);
        },
    };
    let e = match find_first(template, &end) {
        Some(e) => e,
        None => {
            return Err(TemplateError::MissingEndMarker);
        },
    };
    proof {
        assert(matches_at(template@, end_marker_text(), e as int));
        assert(e + end_marker_text().len() <= template@.len());
        assert(matches_at(template@, start_marker_text(), s as int));
    }
    let mut out: Vec<u8> = Vec::new();
    push_range(&mut out, template, 0, s);
    let mut prefix = declaration_prefix();
    out.append(&mut prefix);
    let mut value = crate::decimal::format_micros(quad_size_micros);
    out.append(&mut value);
    out.push(59);
    let end_len: usize = end.len();
    let template_len: usize = template.len();
    push_range(&mut out, template, e + end_len, template_len);
    proof {
        assert(out@ =~= rendered_text(template@, s as int, e as int, quad_size_micros));
    }
    Ok(out)
}

/// Builds the declaration prefix.
fn declaration_prefix() -> (r: Vec<u8>)
    ensures
        r@ == declaration_prefix_text(),
{
    let v: Vec<u8> = vec![
        10, 99, 111, 110, 115, 116, 32, 81, 85, 65, 68, 95, 83, 73, 90, 69, 58, 32, 102, 51, 50,
        32, 61, 32,
    ];
    proof {
        assert(v@ =~= declaration_prefix_text());
    }
    v
}

} // verus!
