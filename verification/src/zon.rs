//! The `build.zig.zon` scanner.
//!
//! ZON is zig syntax: the manifest is one anonymous struct literal. Only
//! the two top-level fields the backend needs (`.name` and `.version`) are
//! extracted, with a small byte scanner instead of a full parser:
//!
//! ```zon
//! .{
//!     .name = .my_package,          // zig >= 0.14: enum literal
//!     .name = .@"my-package",       // quoted identifier
//!     .name = "my-package",         // zig <= 0.13: string
//!     .version = "1.2.3",
//!     .dependencies = .{ ... },     // nested fields are ignored
//! }
//! ```
//!
//! The meaning of the scanner is given by [`zon_scan`], a function over the
//! UTF-8 bytes of the source; [`parse_zon`] is proved to compute it.

use vstd::prelude::*;
use vstd::utf8::*;
use vstd::string::*;

verus! {

broadcast use vstd::utf8::encode_utf8_valid_utf8, vstd::utf8::encode_utf8_decode_utf8;

// ---------------------------------------------------------------------------
// Byte classes
// ---------------------------------------------------------------------------

/// `u8::is_ascii_whitespace`: space, tab, line feed, form feed, carriage return.
pub open spec fn is_ascii_ws(c: u8) -> bool {
    c == 0x20u8 || c == 0x09u8 || c == 0x0Au8 || c == 0x0Cu8 || c == 0x0Du8
}

/// An identifier byte: ASCII letter, ASCII digit or `_`.
pub open spec fn is_ident_byte(c: u8) -> bool {
    (0x30u8 <= c <= 0x39u8) || (0x41u8 <= c <= 0x5Au8) || (0x61u8 <= c <= 0x7Au8) || c == 0x5Fu8
}

// ---------------------------------------------------------------------------
// Positions the scanner moves to
// ---------------------------------------------------------------------------

/// The end of a `//` comment that starts at or before `i`: the first line
/// feed at or after `i`, or the end of the input.
pub open spec fn comment_end(b: Seq<u8>, i: int) -> int
    decreases b.len() - i,
{
    if 0 <= i < b.len() && b[i] != 0x0Au8 {
        comment_end(b, i + 1)
    } else {
        i
    }
}

/// The first position at or after `i` that is neither ASCII whitespace nor
/// inside a `//` comment.
pub open spec fn skip_trivia(b: Seq<u8>, i: int) -> int
    decreases b.len() - i,
{
    if 0 <= i < b.len() && is_ascii_ws(b[i]) {
        skip_trivia(b, i + 1)
    } else if 0 <= i && i + 1 < b.len() && b[i] == 0x2Fu8 && b[i + 1] == 0x2Fu8 {
        if i < comment_end(b, i) <= b.len() {
            skip_trivia(b, comment_end(b, i))
        } else {
            i
        }
    } else {
        i
    }
}

/// The end of a run of identifier bytes starting at `i`.
pub open spec fn ident_end(b: Seq<u8>, i: int) -> int
    decreases b.len() - i,
{
    if 0 <= i < b.len() && is_ident_byte(b[i]) {
        ident_end(b, i + 1)
    } else {
        i
    }
}

/// Where the body of a string literal that starts at `i` (just after its
/// opening quote) stops: at the closing `"`, or at or past the end of the
/// input. A backslash skips the byte after it, so the stop can be one past
/// the end when the input ends in an escape.
pub open spec fn string_stop(b: Seq<u8>, i: int) -> int
    decreases b.len() + 2 - i,
{
    if 0 <= i < b.len() && b[i] != 0x22u8 {
        if b[i] == 0x5Cu8 {
            string_stop(b, i + 2)
        } else {
            string_stop(b, i + 1)
        }
    } else {
        i
    }
}

/// `str::get(a..e)` on the bytes of a string: the bytes from `a` to `e`
/// when the range lies inside the input and both ends are character
/// boundaries, nothing otherwise.
pub open spec fn byte_slice(b: Seq<u8>, a: int, e: int) -> Option<Seq<u8>> {
    if 0 <= a <= e <= b.len() && is_char_boundary(b, a) && is_char_boundary(b, e) {
        Some(b.subrange(a, e))
    } else {
        None
    }
}

// ---------------------------------------------------------------------------
// The scanner
// ---------------------------------------------------------------------------

/// The top-level fields found so far, as byte strings.
pub struct ZonFields {
    pub name: Option<Seq<u8>>,
    pub version: Option<Seq<u8>>,
}

pub open spec fn no_fields() -> ZonFields {
    ZonFields { name: None, version: None }
}

/// Whether the bytes `b[a..e]` spell `word`.
pub open spec fn spells(b: Seq<u8>, a: int, e: int, word: Seq<u8>) -> bool {
    0 <= a <= e <= b.len() && b.subrange(a, e) == word
}

pub open spec fn name_word() -> Seq<u8> {
    seq![0x6Eu8, 0x61u8, 0x6Du8, 0x65u8]
}

pub open spec fn version_word() -> Seq<u8> {
    seq![0x76u8, 0x65u8, 0x72u8, 0x73u8, 0x69u8, 0x6Fu8, 0x6Eu8]
}

/// The value of a field whose `=` is followed (after trivia) by position
/// `p`, and the position after it: a string literal, a quoted identifier
/// `.@"..."`, an enum literal `.ident`, or nothing.
pub open spec fn field_value(b: Seq<u8>, p: int) -> (Option<Seq<u8>>, int) {
    if 0 <= p < b.len() && b[p] == 0x22u8 {
        let stop = string_stop(b, p + 1);
        (byte_slice(b, p + 1, stop), stop + 1)
    } else if 0 <= p < b.len() && b[p] == 0x2Eu8 {
        let q = p + 1;
        if q + 1 < b.len() && b[q] == 0x40u8 && b[q + 1] == 0x22u8 {
            let stop = string_stop(b, q + 2);
            (byte_slice(b, q + 2, stop), stop + 1)
        } else {
            let e = ident_end(b, q);
            (byte_slice(b, q, e), e)
        }
    } else {
        (None, p)
    }
}

/// What a `.` at the top level (position `i`) starts: `(kind, value,
/// next)`, where `kind` is 1 for `.name = value`, 2 for `.version = value`
/// and 0 for anything else, and `next` is where scanning resumes.
pub open spec fn top_level_assignment(b: Seq<u8>, i: int) -> (int, Option<Seq<u8>>, int) {
    let start = i + 1;
    let k = ident_end(b, start);
    let is_name = spells(b, start, k, name_word());
    let is_version = spells(b, start, k, version_word());
    if !is_name && !is_version {
        (0, None, k)
    } else {
        let m = skip_trivia(b, k);
        if m >= b.len() || b[m] != 0x3Du8 {
            (0, None, m)
        } else {
            let p = skip_trivia(b, m + 1);
            let (value, next) = field_value(b, p);
            (if is_name { 1 } else { 2 }, value, next)
        }
    }
}

/// One scan step for a `.` at the top level: record the value of a
/// `.name`/`.version` assignment, and say where scanning resumes.
pub open spec fn top_level_field(b: Seq<u8>, i: int, st: ZonFields) -> (int, ZonFields) {
    let (kind, value, next) = top_level_assignment(b, i);
    if kind == 1 {
        (next, ZonFields { name: value, ..st })
    } else if kind == 2 {
        (next, ZonFields { version: value, ..st })
    } else {
        (next, st)
    }
}

/// The scanner from position `i` at brace depth `depth`, with the fields
/// found so far in `st`. It skips `//` comments and string literals, tracks
/// `{`/`}` depth (never below zero), and reads fields only at depth one.
pub open spec fn zon_scan(b: Seq<u8>, i: int, depth: nat, st: ZonFields) -> ZonFields
    decreases b.len() + 3 - i,
{
    if i < 0 || i >= b.len() {
        st
    } else if b[i] == 0x2Fu8 && i + 1 < b.len() && b[i + 1] == 0x2Fu8 {
        if comment_end(b, i) > i && comment_end(b, i) <= b.len() {
            zon_scan(b, comment_end(b, i), depth, st)
        } else {
            st
        }
    } else if b[i] == 0x22u8 {
        let next = string_stop(b, i + 1) + 1;
        if i < next <= b.len() + 2 {
            zon_scan(b, next, depth, st)
        } else {
            st
        }
    } else if b[i] == 0x7Bu8 {
        zon_scan(b, i + 1, depth + 1, st)
    } else if b[i] == 0x7Du8 {
        zon_scan(b, i + 1, if depth == 0 { 0 } else { (depth - 1) as nat }, st)
    } else if b[i] == 0x2Eu8 && depth == 1 {
        let (next, st2) = top_level_field(b, i, st);
        if i < next <= b.len() + 2 {
            zon_scan(b, next, depth, st2)
        } else {
            st
        }
    } else {
        zon_scan(b, i + 1, depth, st)
    }
}

/// The fields the scanner finds in the UTF-8 bytes `b`.
pub open spec fn zon_fields(b: Seq<u8>) -> ZonFields {
    zon_scan(b, 0, 0, no_fields())
}


/// The UTF-8 text of an optional byte string.
pub open spec fn opt_text(o: Option<Seq<u8>>) -> Option<Seq<char>> {
    match o {
        Some(bytes) => Some(decode_utf8(bytes)),
        None => None,
    }
}

// ---------------------------------------------------------------------------
// Bounds on the positions
// ---------------------------------------------------------------------------

pub proof fn lemma_comment_end_bounds(b: Seq<u8>, i: int)
    requires
        0 <= i <= b.len(),
    ensures
        i <= comment_end(b, i) <= b.len(),
        i < b.len() && b[i] != 0x0Au8 ==> comment_end(b, i) > i,
    decreases b.len() - i,
{
    if i < b.len() && b[i] != 0x0Au8 {
        lemma_comment_end_bounds(b, i + 1);
    }
}

pub proof fn lemma_skip_trivia_bounds(b: Seq<u8>, i: int)
    requires
        0 <= i <= b.len(),
    ensures
        i <= skip_trivia(b, i) <= b.len(),
    decreases b.len() - i,
{
    if i < b.len() && is_ascii_ws(b[i]) {
        lemma_skip_trivia_bounds(b, i + 1);
    } else if i + 1 < b.len() && b[i] == 0x2Fu8 && b[i + 1] == 0x2Fu8 {
        lemma_comment_end_bounds(b, i);
        lemma_skip_trivia_bounds(b, comment_end(b, i));
    }
}

pub proof fn lemma_ident_end_bounds(b: Seq<u8>, i: int)
    requires
        0 <= i <= b.len(),
    ensures
        i <= ident_end(b, i) <= b.len(),
    decreases b.len() - i,
{
    if i < b.len() && is_ident_byte(b[i]) {
        lemma_ident_end_bounds(b, i + 1);
    }
}

pub proof fn lemma_string_stop_bounds(b: Seq<u8>, i: int)
    requires
        0 <= i <= b.len() + 1,
    ensures
        i <= string_stop(b, i) <= b.len() + 1,
    decreases b.len() + 2 - i,
{
    if 0 <= i < b.len() && b[i] != 0x22u8 {
        if b[i] == 0x5Cu8 {
            lemma_string_stop_bounds(b, i + 2);
        } else {
            lemma_string_stop_bounds(b, i + 1);
        }
    }
}

pub proof fn lemma_field_value_bounds(b: Seq<u8>, p: int)
    requires
        0 <= p <= b.len(),
    ensures
        p <= field_value(b, p).1 <= b.len() + 2,
{
    if p < b.len() && b[p] == 0x22u8 {
        lemma_string_stop_bounds(b, p + 1);
    } else if p < b.len() && b[p] == 0x2Eu8 {
        let q = p + 1;
        if q + 1 < b.len() && b[q] == 0x40u8 && b[q + 1] == 0x22u8 {
            lemma_string_stop_bounds(b, q + 2);
        } else {
            lemma_ident_end_bounds(b, q);
        }
    }
}

pub proof fn lemma_top_level_assignment_bounds(b: Seq<u8>, i: int)
    requires
        0 <= i < b.len(),
    ensures
        i < top_level_assignment(b, i).2 <= b.len() + 2,
{
    let start = i + 1;
    lemma_ident_end_bounds(b, start);
    let k = ident_end(b, start);
    lemma_skip_trivia_bounds(b, k);
    let m = skip_trivia(b, k);
    if m < b.len() {
        lemma_skip_trivia_bounds(b, m + 1);
        lemma_field_value_bounds(b, skip_trivia(b, m + 1));
    }
}

// ---------------------------------------------------------------------------
// Laws of the scanner
// ---------------------------------------------------------------------------

/// Whether the bytes `b` contain no `{`.
pub open spec fn has_no_open_brace(b: Seq<u8>) -> bool {
    forall|k: int| 0 <= k < b.len() ==> b[k] != 0x7Bu8
}

proof fn lemma_scan_without_braces(b: Seq<u8>, i: int, st: ZonFields)
    requires
        has_no_open_brace(b),
    ensures
        zon_scan(b, i, 0, st) == st,
    decreases b.len() + 3 - i,
{
    if 0 <= i < b.len() {
        if b[i] == 0x2Fu8 && i + 1 < b.len() && b[i + 1] == 0x2Fu8 {
            if comment_end(b, i) > i && comment_end(b, i) <= b.len() {
                lemma_scan_without_braces(b, comment_end(b, i), st);
            }
        } else if b[i] == 0x22u8 {
            let next = string_stop(b, i + 1) + 1;
            if i < next <= b.len() + 2 {
                lemma_scan_without_braces(b, next, st);
            }
        } else {
            lemma_scan_without_braces(b, i + 1, st);
        }
    }
}

/// Fields are read only inside the top-level struct literal: a source
/// without any `{` provides no fields.
pub proof fn lemma_no_struct_no_fields(b: Seq<u8>)
    requires
        has_no_open_brace(b),
    ensures
        zon_fields(b) == no_fields(),
{
    lemma_scan_without_braces(b, 0, no_fields());
}

/// Whether an optional value is a piece of the source between two
/// character boundaries.
pub open spec fn is_source_slice(b: Seq<u8>, v: Option<Seq<u8>>) -> bool {
    v matches Some(x) ==> exists|a: int, e: int| byte_slice(b, a, e) == Some(x)
}

proof fn lemma_field_value_is_slice(b: Seq<u8>, p: int)
    ensures
        is_source_slice(b, field_value(b, p).0),
{
    if 0 <= p < b.len() && b[p] == 0x22u8 {
        let stop = string_stop(b, p + 1);
        if let Some(x) = byte_slice(b, p + 1, stop) {
            assert(byte_slice(b, p + 1, stop) == Some(x));
        }
    } else if 0 <= p < b.len() && b[p] == 0x2Eu8 {
        let q = p + 1;
        if q + 1 < b.len() && b[q] == 0x40u8 && b[q + 1] == 0x22u8 {
            let stop = string_stop(b, q + 2);
            if let Some(x) = byte_slice(b, q + 2, stop) {
                assert(byte_slice(b, q + 2, stop) == Some(x));
            }
        } else {
            let e = ident_end(b, q);
            if let Some(x) = byte_slice(b, q, e) {
                assert(byte_slice(b, q, e) == Some(x));
            }
        }
    }
}

proof fn lemma_scan_yields_slices(b: Seq<u8>, i: int, depth: nat, st: ZonFields)
    requires
        is_source_slice(b, st.name),
        is_source_slice(b, st.version),
    ensures
        is_source_slice(b, zon_scan(b, i, depth, st).name),
        is_source_slice(b, zon_scan(b, i, depth, st).version),
    decreases b.len() + 3 - i,
{
    if 0 <= i < b.len() {
        if b[i] == 0x2Fu8 && i + 1 < b.len() && b[i + 1] == 0x2Fu8 {
            if comment_end(b, i) > i && comment_end(b, i) <= b.len() {
                lemma_scan_yields_slices(b, comment_end(b, i), depth, st);
            }
        } else if b[i] == 0x22u8 {
            let next = string_stop(b, i + 1) + 1;
            if i < next <= b.len() + 2 {
                lemma_scan_yields_slices(b, next, depth, st);
            }
        } else if b[i] == 0x7Bu8 {
            lemma_scan_yields_slices(b, i + 1, depth + 1, st);
        } else if b[i] == 0x7Du8 {
            lemma_scan_yields_slices(
                b,
                i + 1,
                if depth == 0 {
                    0
                } else {
                    (depth - 1) as nat
                },
                st,
            );
        } else if b[i] == 0x2Eu8 && depth == 1 {
            let (next, st2) = top_level_field(b, i, st);
            let start = i + 1;
            let k = ident_end(b, start);
            let m = skip_trivia(b, k);
            if m < b.len() && b[m] == 0x3Du8 {
                lemma_field_value_is_slice(b, skip_trivia(b, m + 1));
            }
            if i < next <= b.len() + 2 {
                lemma_scan_yields_slices(b, next, depth, st2);
            }
        } else {
            lemma_scan_yields_slices(b, i + 1, depth, st);
        }
    }
}

/// Every value the scanner reports is a contiguous piece of the source,
/// cut at character boundaries.
pub proof fn lemma_fields_are_source_slices(b: Seq<u8>)
    ensures
        is_source_slice(b, zon_fields(b).name),
        is_source_slice(b, zon_fields(b).version),
{
    lemma_scan_yields_slices(b, 0, 0, no_fields());
}

/// A top-level assignment the scanner meets: its kind (1 for `.name`, 2 for
/// `.version`) and the value it reads.
pub type Assignment = (int, Option<Seq<u8>>);

/// The `.name`/`.version` assignments the scanner meets from position `i`
/// at brace depth `depth`, in source order: those whose `.` stands at
/// depth one, outside comments and string literals.
pub open spec fn zon_assignments(b: Seq<u8>, i: int, depth: nat) -> Seq<Assignment>
    decreases b.len() + 3 - i,
{
    if i < 0 || i >= b.len() {
        Seq::empty()
    } else if b[i] == 0x2Fu8 && i + 1 < b.len() && b[i + 1] == 0x2Fu8 {
        if comment_end(b, i) > i && comment_end(b, i) <= b.len() {
            zon_assignments(b, comment_end(b, i), depth)
        } else {
            Seq::empty()
        }
    } else if b[i] == 0x22u8 {
        let next = string_stop(b, i + 1) + 1;
        if i < next <= b.len() + 2 {
            zon_assignments(b, next, depth)
        } else {
            Seq::empty()
        }
    } else if b[i] == 0x7Bu8 {
        zon_assignments(b, i + 1, depth + 1)
    } else if b[i] == 0x7Du8 {
        zon_assignments(b, i + 1, if depth == 0 { 0 } else { (depth - 1) as nat })
    } else if b[i] == 0x2Eu8 && depth == 1 {
        let (kind, value, next) = top_level_assignment(b, i);
        if i < next <= b.len() + 2 {
            let rest = zon_assignments(b, next, depth);
            if kind == 0 {
                rest
            } else {
                seq![(kind, value)] + rest
            }
        } else {
            Seq::empty()
        }
    } else {
        zon_assignments(b, i + 1, depth)
    }
}

/// The value of the last assignment of `kind` among `events`, if any
/// assigns it: the last one in the tail, or else the first event when it
/// is of that kind.
pub open spec fn last_assigned(events: Seq<Assignment>, kind: int) -> Option<Option<Seq<u8>>>
    decreases events.len(),
{
    if events.len() == 0 {
        None
    } else {
        match last_assigned(events.drop_first(), kind) {
            Some(v) => Some(v),
            None => if events[0].0 == kind {
                Some(events[0].1)
            } else {
                None
            },
        }
    }
}

/// The value a field ends with: that of its last assignment, or what it
/// held before when nothing assigns it.
pub open spec fn final_value(
    events: Seq<Assignment>,
    kind: int,
    before: Option<Seq<u8>>,
) -> Option<Seq<u8>> {
    match last_assigned(events, kind) {
        Some(v) => v,
        None => before,
    }
}

proof fn lemma_scan_last_assignment_wins(b: Seq<u8>, i: int, depth: nat, st: ZonFields)
    ensures
        zon_scan(b, i, depth, st).name == final_value(zon_assignments(b, i, depth), 1, st.name),
        zon_scan(b, i, depth, st).version == final_value(
            zon_assignments(b, i, depth),
            2,
            st.version,
        ),
    decreases b.len() + 3 - i,
{
    if 0 <= i < b.len() {
        if b[i] == 0x2Fu8 && i + 1 < b.len() && b[i + 1] == 0x2Fu8 {
            if comment_end(b, i) > i && comment_end(b, i) <= b.len() {
                lemma_scan_last_assignment_wins(b, comment_end(b, i), depth, st);
            }
        } else if b[i] == 0x22u8 {
            let next = string_stop(b, i + 1) + 1;
            if i < next <= b.len() + 2 {
                lemma_scan_last_assignment_wins(b, next, depth, st);
            }
        } else if b[i] == 0x7Bu8 {
            lemma_scan_last_assignment_wins(b, i + 1, depth + 1, st);
        } else if b[i] == 0x7Du8 {
            lemma_scan_last_assignment_wins(
                b,
                i + 1,
                if depth == 0 {
                    0
                } else {
                    (depth - 1) as nat
                },
                st,
            );
        } else if b[i] == 0x2Eu8 && depth == 1 {
            let (kind, value, next) = top_level_assignment(b, i);
            let (next2, st2) = top_level_field(b, i, st);
            if i < next <= b.len() + 2 {
                lemma_scan_last_assignment_wins(b, next, depth, st2);
                let rest = zon_assignments(b, next, depth);
                if kind != 0 {
                    let events = seq![(kind, value)] + rest;
                    assert(events.drop_first() =~= rest);
                    assert(events[0] == (kind, value));
                }
            }
        } else {
            lemma_scan_last_assignment_wins(b, i + 1, depth, st);
        }
    }
}

/// The last assignment wins: each of `.name` and `.version` ends with the
/// value of its last assignment at the top level of the struct literal
/// (outside comments, string literals and nested structs), and is unset
/// when nothing assigns it there. An assignment whose value the scanner
/// cannot read unsets the field.
pub proof fn lemma_last_assignment_wins(b: Seq<u8>)
    ensures
        zon_fields(b).name == final_value(zon_assignments(b, 0, 0), 1, None),
        zon_fields(b).version == final_value(zon_assignments(b, 0, 0), 2, None),
{
    lemma_scan_last_assignment_wins(b, 0, 0, no_fields());
}

/// A character of a zig identifier: an ASCII letter, an ASCII digit or `_`.
pub open spec fn is_identifier_char(c: char) -> bool {
    ('a' <= c && c <= 'z') || ('A' <= c && c <= 'Z') || ('0' <= c && c <= '9') || c == '_'
}

proof fn lemma_ident_end_run(b: Seq<u8>, i: int, j: int)
    requires
        0 <= i <= j < b.len(),
        forall|k: int| i <= k < j ==> is_ident_byte(#[trigger] b[k]),
        !is_ident_byte(b[j]),
    ensures
        ident_end(b, i) == j,
    decreases j - i,
{
    if i < j {
        lemma_ident_end_run(b, i + 1, j);
    }
}

/// An enum-literal name is read whole: for every identifier `w` (ASCII
/// letters, digits and `_`), the manifest `.{ .name = .w }` names the
/// package `w`.
pub proof fn lemma_enum_literal_name_is_read_whole(w: Seq<char>)
    requires
        forall|i: int| 0 <= i < w.len() ==> is_identifier_char(#[trigger] w[i]),
    ensures
        zon_metadata(".{ .name = ."@ + w + " }"@).name == Some(w),
{
    let pre = ".{ .name = ."@;
    let suf = " }"@;
    reveal_strlit(".{ .name = .");
    reveal_strlit(" }");
    let src = pre + w + suf;
    let n: int = w.len() as int;
    assert(pre.len() == 12);
    assert forall|i: int| 0 <= i < src.len() implies '\0' <= #[trigger] src[i] <= '\u{7f}' by {
        if 12 <= i < 12 + n {
            assert(src[i] == w[i - 12]);
            assert(is_identifier_char(w[i - 12]));
        }
    }
    assert(is_ascii_chars(src));
    is_ascii_chars_encode_utf8(src);
    let b = encode_utf8(src);
    assert(b.len() == n + 14);
    assert(forall|i: int| 0 <= i < src.len() ==> b[i] == src[i] as u8);
    // The fixed bytes of the source.
    assert(b[0] == 0x2Eu8);
    assert(b[1] == 0x7Bu8);
    assert(b[2] == 0x20u8);
    assert(b[3] == 0x2Eu8);
    assert(b[4] == 0x6Eu8 && b[5] == 0x61u8 && b[6] == 0x6Du8 && b[7] == 0x65u8);
    assert(b[8] == 0x20u8);
    assert(b[9] == 0x3Du8);
    assert(b[10] == 0x20u8);
    assert(b[11] == 0x2Eu8);
    assert(src[12 + n] == ' ' && src[13 + n] == '}');
    assert(b[12 + n] == 0x20u8);
    assert(b[13 + n] == 0x7Du8);
    // The identifier's bytes.
    assert forall|k: int| 12 <= k < 12 + n implies is_ident_byte(#[trigger] b[k]) && b[k]
        != 0x40u8 && b[k] < 0x80u8 by {
        assert(src[k] == w[k - 12]);
        assert(is_identifier_char(w[k - 12]));
    }
    // `.name`, then `=`, then the enum literal.
    lemma_ident_end_run(b, 4, 8);
    assert(b.subrange(4, 8) =~= name_word());
    assert(!spells(b, 4, 8, version_word())) by {
        if spells(b, 4, 8, version_word()) {
            assert(b.subrange(4, 8).len() == version_word().len());
        }
    }
    assert(skip_trivia(b, 9) == 9);
    assert(skip_trivia(b, 8) == 9);
    assert(skip_trivia(b, 11) == 11);
    assert(skip_trivia(b, 10) == 11);
    lemma_ident_end_run(b, 12, 12 + n);
    is_char_boundary_iff_not_is_continuation_byte(b, 12);
    is_char_boundary_iff_not_is_continuation_byte(b, 12 + n);
    let value = b.subrange(12, 12 + n);
    assert(byte_slice(b, 12, 12 + n) == Some(value));
    assert(field_value(b, 11) == (Some(value), 12 + n));
    assert(top_level_assignment(b, 3) == (1int, Some(value), 12 + n));
    let st = ZonFields { name: Some(value), version: None };
    // The scan.
    assert(zon_scan(b, 14 + n, 0, st) == st);
    assert(zon_scan(b, 13 + n, 1, st) == st);
    assert(zon_scan(b, 12 + n, 1, st) == st);
    assert(zon_scan(b, 3, 1, no_fields()) == st);
    assert(zon_scan(b, 2, 1, no_fields()) == st);
    assert(zon_scan(b, 1, 0, no_fields()) == st);
    assert(zon_fields(b) == st);
    // The value's text is `w`.
    assert(is_ascii_chars(w)) by {
        assert forall|i: int| 0 <= i < w.len() implies '\0' <= #[trigger] w[i] <= '\u{7f}' by {
            assert(is_identifier_char(w[i]));
        }
    }
    is_ascii_chars_encode_utf8(w);
    assert forall|j: int| 0 <= j < n implies value[j] == encode_utf8(w)[j] by {
        assert(src[12 + j] == w[j]);
    }
    assert(value =~= encode_utf8(w));
}

/// A printable ASCII character that needs no escape inside a string
/// literal: neither `"` nor `\`.
pub open spec fn is_plain_string_char(c: char) -> bool {
    ' ' <= c && c <= '~' && c != '"' && c != '\\'
}

proof fn lemma_string_stop_run(b: Seq<u8>, i: int, j: int)
    requires
        0 <= i <= j < b.len(),
        forall|k: int| i <= k < j ==> #[trigger] b[k] != 0x22u8 && b[k] != 0x5Cu8,
        b[j] == 0x22u8,
    ensures
        string_stop(b, i) == j,
    decreases j - i,
{
    if i < j {
        lemma_string_stop_run(b, i + 1, j);
    }
}

/// A string-literal version is read as written: for every text `v` of
/// printable ASCII characters other than `"` and `\`, the manifest
/// `.{ .version = "v" }` gives the version `v`.
pub proof fn lemma_string_version_is_read_as_written(v: Seq<char>)
    requires
        forall|i: int| 0 <= i < v.len() ==> is_plain_string_char(#[trigger] v[i]),
    ensures
        zon_metadata(".{ .version = \""@ + v + "\" }"@).version == Some(v),
{
    let pre = ".{ .version = \""@;
    let suf = "\" }"@;
    reveal_strlit(".{ .version = \"");
    reveal_strlit("\" }");
    let src = pre + v + suf;
    let n: int = v.len() as int;
    assert(pre.len() == 15);
    assert forall|i: int| 0 <= i < src.len() implies '\0' <= #[trigger] src[i] <= '\u{7f}' by {
        if 15 <= i < 15 + n {
            assert(src[i] == v[i - 15]);
            assert(is_plain_string_char(v[i - 15]));
        }
    }
    assert(is_ascii_chars(src));
    is_ascii_chars_encode_utf8(src);
    let b = encode_utf8(src);
    assert(b.len() == n + 18);
    assert(forall|i: int| 0 <= i < src.len() ==> b[i] == src[i] as u8);
    // The fixed bytes of the source.
    assert(b[0] == 0x2Eu8);
    assert(b[1] == 0x7Bu8);
    assert(b[2] == 0x20u8);
    assert(b[3] == 0x2Eu8);
    assert(b[4] == 0x76u8 && b[5] == 0x65u8 && b[6] == 0x72u8 && b[7] == 0x73u8);
    assert(b[8] == 0x69u8 && b[9] == 0x6Fu8 && b[10] == 0x6Eu8);
    assert(b[11] == 0x20u8);
    assert(b[12] == 0x3Du8);
    assert(b[13] == 0x20u8);
    assert(b[14] == 0x22u8);
    assert(src[15 + n] == '"' && src[16 + n] == ' ' && src[17 + n] == '}');
    assert(b[15 + n] == 0x22u8);
    assert(b[16 + n] == 0x20u8);
    assert(b[17 + n] == 0x7Du8);
    // The string's bytes.
    assert forall|k: int| 15 <= k < 15 + n implies #[trigger] b[k] != 0x22u8 && b[k] != 0x5Cu8
        && b[k] < 0x80u8 by {
        assert(src[k] == v[k - 15]);
        assert(is_plain_string_char(v[k - 15]));
    }
    // `.version`, then `=`, then the string literal.
    lemma_ident_end_run(b, 4, 11);
    assert(b.subrange(4, 11) =~= version_word());
    assert(!spells(b, 4, 11, name_word())) by {
        if spells(b, 4, 11, name_word()) {
            assert(b.subrange(4, 11).len() == name_word().len());
        }
    }
    assert(skip_trivia(b, 12) == 12);
    assert(skip_trivia(b, 11) == 12);
    assert(skip_trivia(b, 14) == 14);
    assert(skip_trivia(b, 13) == 14);
    lemma_string_stop_run(b, 15, 15 + n);
    is_char_boundary_iff_not_is_continuation_byte(b, 15);
    is_char_boundary_iff_not_is_continuation_byte(b, 15 + n);
    let value = b.subrange(15, 15 + n);
    assert(byte_slice(b, 15, 15 + n) == Some(value));
    assert(field_value(b, 14) == (Some(value), 16 + n));
    assert(top_level_assignment(b, 3) == (2int, Some(value), 16 + n));
    let st = ZonFields { name: None, version: Some(value) };
    // The scan.
    assert(zon_scan(b, 18 + n, 0, st) == st);
    assert(zon_scan(b, 17 + n, 1, st) == st);
    assert(zon_scan(b, 16 + n, 1, st) == st);
    assert(zon_scan(b, 3, 1, no_fields()) == st);
    assert(zon_scan(b, 2, 1, no_fields()) == st);
    assert(zon_scan(b, 1, 0, no_fields()) == st);
    assert(zon_fields(b) == st);
    // The value's text is `v`.
    assert(is_ascii_chars(v)) by {
        assert forall|i: int| 0 <= i < v.len() implies '\0' <= #[trigger] v[i] <= '\u{7f}' by {
            assert(is_plain_string_char(v[i]));
        }
    }
    is_ascii_chars_encode_utf8(v);
    assert forall|j: int| 0 <= j < n implies value[j] == encode_utf8(v)[j] by {
        assert(src[15 + j] == v[j]);
    }
    assert(value =~= encode_utf8(v));
}

// ---------------------------------------------------------------------------
// Executable scanner pieces
// ---------------------------------------------------------------------------

fn ascii_ws(c: u8) -> (r: bool)
    ensures
        r == is_ascii_ws(c),
{
    c == 0x20u8 || c == 0x09u8 || c == 0x0Au8 || c == 0x0Cu8 || c == 0x0Du8
}

fn ident_byte(c: u8) -> (r: bool)
    ensures
        r == is_ident_byte(c),
{
    (0x30u8 <= c && c <= 0x39u8) || (0x41u8 <= c && c <= 0x5Au8) || (0x61u8 <= c && c
        <= 0x7Au8) || c == 0x5Fu8
}

fn comment_end_at(b: &[u8], i: usize) -> (r: usize)
    requires
        i <= b@.len(),
    ensures
        r == comment_end(b@, i as int),
{
    let mut j = i;
    while j < b.len() && b[j] != 0x0Au8
        invariant
            i <= j <= b@.len(),
            comment_end(b@, j as int) == comment_end(b@, i as int),
        decreases b@.len() - j,
    {
        j = j + 1;
    }
    j
}

fn skip_trivia_at(b: &[u8], i: usize) -> (r: usize)
    requires
        i <= b@.len(),
    ensures
        r == skip_trivia(b@, i as int),
{
    let mut j = i;
    loop
        invariant
            i <= j <= b@.len(),
            skip_trivia(b@, j as int) == skip_trivia(b@, i as int),
        decreases b@.len() - j,
    {
        if j < b.len() && ascii_ws(b[j]) {
            j = j + 1;
        } else if j < b.len() && j + 1 < b.len() && b[j] == 0x2Fu8 && b[j + 1] == 0x2Fu8 {
            proof {
                lemma_comment_end_bounds(b@, j as int);
            }
            j = comment_end_at(b, j);
        } else {
            return j;
        }
    }
}

fn ident_end_at(b: &[u8], i: usize) -> (r: usize)
    requires
        i <= b@.len(),
    ensures
        r == ident_end(b@, i as int),
{
    let mut j = i;
    while j < b.len() && ident_byte(b[j])
        invariant
            i <= j <= b@.len(),
            ident_end(b@, j as int) == ident_end(b@, i as int),
        decreases b@.len() - j,
    {
        j = j + 1;
    }
    j
}

/// Where a string body starting at `i` stops. The second component is true
/// when the stop lies one past the end of the input (an escape at the very
/// end); the first component is then the end of the input.
fn string_stop_at(b: &[u8], i: usize) -> (r: (usize, bool))
    requires
        i <= b@.len(),
    ensures
        r.1 ==> r.0 == b@.len() && string_stop(b@, i as int) == b@.len() + 1,
        !r.1 ==> r.0 == string_stop(b@, i as int) && r.0 <= b@.len(),
{
    let mut j = i;
    while j < b.len() && b[j] != 0x22u8
        invariant
            i <= j <= b@.len(),
            string_stop(b@, j as int) == string_stop(b@, i as int),
        decreases b@.len() - j,
    {
        if b[j] == 0x5Cu8 {
            if j + 1 < b.len() {
                j = j + 2;
            } else {
                assert(string_stop(b@, j + 2) == j + 2);
                return (b.len(), true);
            }
        } else {
            j = j + 1;
        }
    }
    (j, false)
}

/// `str::get` with a byte range: the part of `s` between byte offsets `a`
/// and `e`, when `a <= e <= s.len()` and both offsets are character
/// boundaries; `None` otherwise (exactly where indexing would panic).
fn str_get_range(s: &str, a: usize, e: usize) -> (r: Option<&str>)
    ensures
        r is Some <==> byte_slice(s.spec_bytes(), a as int, e as int) is Some,
        r matches Some(t) ==> t.spec_bytes() == s.spec_bytes().subrange(a as int, e as int),
{
    let n = s.as_bytes().len();
    if a <= e && e <= n && s.is_char_boundary(a) && s.is_char_boundary(e) {
        let ghost bytes = s.spec_bytes();
        let (_, tail) = s.split_at(a);
        let ghost t = tail.spec_bytes();
        proof {
            valid_utf8_split(bytes, a as int);
            assert(t =~= bytes.subrange(a as int, bytes.len() as int));
            assert(valid_utf8(t));
            assert(t.len() == n - a);
            let cut = e - a;
            if e < n {
                is_char_boundary_iff_not_is_continuation_byte(bytes, e as int);
                is_char_boundary_iff_not_is_continuation_byte(t, cut as int);
                assert(t[cut as int] == bytes[e as int]);
            } else {
                is_char_boundary_start_end_of_seq(t);
            }
            assert(is_char_boundary(t, cut as int));
        }
        let (piece, _) = tail.split_at(e - a);
        proof {
            assert(piece.spec_bytes() =~= bytes.subrange(a as int, e as int));
        }
        Some(piece)
    } else {
        None
    }
}

/// The text between two byte offsets of `s`, as an owned string.
fn text_between(s: &str, a: usize, e: usize) -> (r: Option<String>)
    ensures
        match r {
            Some(t) => opt_text(byte_slice(s.spec_bytes(), a as int, e as int)) == Some(t@),
            None => byte_slice(s.spec_bytes(), a as int, e as int) is None,
        },
{
    match str_get_range(s, a, e) {
        Some(t) => {
            let owned = t.to_owned();
            proof {
                assert(decode_utf8(encode_utf8(t@)) == t@);
            }
            Some(owned)
        },
        None => None,
    }
}


/// The view of an optional owned string.
pub open spec fn opt_string_view(o: Option<String>) -> Option<Seq<char>> {
    match o {
        Some(t) => Some(t@),
        None => None,
    }
}

fn spells_name(b: &[u8], a: usize, e: usize) -> (r: bool)
    requires
        a <= e <= b@.len(),
    ensures
        r == spells(b@, a as int, e as int, name_word()),
{
    let r = e - a == 4 && b[a] == 0x6Eu8 && b[a + 1] == 0x61u8 && b[a + 2] == 0x6Du8 && b[a + 3]
        == 0x65u8;
    proof {
        let sub = b@.subrange(a as int, e as int);
        if r {
            assert(sub =~= name_word());
        } else if sub == name_word() {
            assert(name_word().len() == 4);
            assert(name_word()[0] == 0x6Eu8 && name_word()[1] == 0x61u8 && name_word()[2] == 0x6Du8
                && name_word()[3] == 0x65u8);
            assert(sub[0] == b@[a as int] && sub[1] == b@[a + 1] && sub[2] == b@[a + 2] && sub[3]
                == b@[a + 3]);
        }
    }
    r
}

fn spells_version(b: &[u8], a: usize, e: usize) -> (r: bool)
    requires
        a <= e <= b@.len(),
    ensures
        r == spells(b@, a as int, e as int, version_word()),
{
    let r = e - a == 7 && b[a] == 0x76u8 && b[a + 1] == 0x65u8 && b[a + 2] == 0x72u8 && b[a + 3]
        == 0x73u8 && b[a + 4] == 0x69u8 && b[a + 5] == 0x6Fu8 && b[a + 6] == 0x6Eu8;
    proof {
        let sub = b@.subrange(a as int, e as int);
        if r {
            assert(sub =~= version_word());
        } else if sub == version_word() {
            assert(version_word().len() == 7);
            assert(version_word()[0] == 0x76u8 && version_word()[1] == 0x65u8 && version_word()[2]
                == 0x72u8 && version_word()[3] == 0x73u8 && version_word()[4] == 0x69u8
                && version_word()[5] == 0x6Fu8 && version_word()[6] == 0x6Eu8);
            assert(sub[0] == b@[a as int] && sub[1] == b@[a + 1] && sub[2] == b@[a + 2] && sub[3]
                == b@[a + 3] && sub[4] == b@[a + 4] && sub[5] == b@[a + 5] && sub[6] == b@[a
                + 6]);
        }
    }
    r
}

/// The string body starting at byte `start` (just after an opening quote):
/// its text, and where scanning resumes (clamped to the end of the input).
fn string_value_at(s: &str, b: &[u8], start: usize) -> (r: (Option<String>, usize))
    requires
        b@ == s.spec_bytes(),
        start <= b@.len(),
    ensures
        ({
            let stop = string_stop(b@, start as int);
            &&& opt_string_view(r.0) == opt_text(byte_slice(b@, start as int, stop))
            &&& r.1 <= b@.len()
            &&& r.1 < b@.len() ==> r.1 == stop + 1
            &&& r.1 == b@.len() ==> stop + 1 >= b@.len()
        }),
{
    let (stop, past) = string_stop_at(b, start);
    if past {
        (None, b.len())
    } else {
        let value = text_between(s, start, stop);
        let next = if stop < b.len() {
            stop + 1
        } else {
            b.len()
        };
        (value, next)
    }
}

/// The value of a field whose value starts at byte `p`, and where scanning
/// resumes (clamped to the end of the input).
fn field_value_at(s: &str, b: &[u8], p: usize) -> (r: (Option<String>, usize))
    requires
        b@ == s.spec_bytes(),
        p <= b@.len(),
    ensures
        ({
            let (value, next) = field_value(b@, p as int);
            &&& opt_string_view(r.0) == opt_text(value)
            &&& r.1 <= b@.len()
            &&& r.1 < b@.len() ==> r.1 == next
            &&& r.1 == b@.len() ==> next >= b@.len()
        }),
{
    if p < b.len() && b[p] == 0x22u8 {
        string_value_at(s, b, p + 1)
    } else if p < b.len() && b[p] == 0x2Eu8 {
        let q = p + 1;
        if q < b.len() && q + 1 < b.len() && b[q] == 0x40u8 && b[q + 1] == 0x22u8 {
            string_value_at(s, b, q + 2)
        } else {
            let e = ident_end_at(b, q);
            proof {
                lemma_ident_end_bounds(b@, q as int);
            }
            (text_between(s, q, e), e)
        }
    } else {
        (None, p)
    }
}

/// The assignment a top-level `.` at byte `i` starts (see
/// [`top_level_assignment`]), with the resume position clamped to the end
/// of the input.
fn top_level_assignment_at(s: &str, b: &[u8], i: usize) -> (r: (u8, Option<String>, usize))
    requires
        b@ == s.spec_bytes(),
        i < b@.len(),
    ensures
        ({
            let (kind, value, next) = top_level_assignment(b@, i as int);
            &&& r.0 as int == kind
            &&& opt_string_view(r.1) == opt_text(value)
            &&& r.2 <= b@.len()
            &&& r.2 < b@.len() ==> r.2 == next
            &&& r.2 == b@.len() ==> next >= b@.len()
        }),
{
    let n = b.len();
    let start = i + 1;
    let k = ident_end_at(b, start);
    proof {
        lemma_ident_end_bounds(b@, start as int);
    }
    let is_name = spells_name(b, start, k);
    let is_version = spells_version(b, start, k);
    if !is_name && !is_version {
        return (0, None, k);
    }
    let m = skip_trivia_at(b, k);
    proof {
        lemma_skip_trivia_bounds(b@, k as int);
    }
    if m >= b.len() || b[m] != 0x3Du8 {
        return (0, None, m);
    }
    let p = skip_trivia_at(b, m + 1);
    proof {
        lemma_skip_trivia_bounds(b@, m + 1);
    }
    let (value, next) = field_value_at(s, b, p);
    let kind: u8 = if is_name {
        1
    } else {
        2
    };
    (kind, value, next)
}

// ---------------------------------------------------------------------------
// Metadata
// ---------------------------------------------------------------------------

/// Package metadata found in `build.zig.zon`.
#[derive(Debug, Clone, PartialEq)]
pub struct ZonMetadata {
    pub name: Option<String>,
    pub version: Option<String>,
}

/// The abstract content of a [`ZonMetadata`].
pub struct ZonMetadataView {
    pub name: Option<Seq<char>>,
    pub version: Option<Seq<char>>,
}

impl View for ZonMetadata {
    type V = ZonMetadataView;

    open spec fn view(&self) -> ZonMetadataView {
        ZonMetadataView { name: opt_string_view(self.name), version: opt_string_view(self.version) }
    }
}

pub open spec fn empty_metadata() -> ZonMetadataView {
    ZonMetadataView { name: None, version: None }
}

impl Default for ZonMetadata {
    fn default() -> (m: Self)
        ensures
            m@ == empty_metadata(),
    {
        ZonMetadata { name: None, version: None }
    }
}

/// The metadata that the scanner extracts from ZON source text.
pub open spec fn zon_metadata(source: Seq<char>) -> ZonMetadataView {
    let f = zon_fields(encode_utf8(source));
    ZonMetadataView { name: opt_text(f.name), version: opt_text(f.version) }
}

/// Extract top-level `.name` and `.version` from ZON source.
///
/// The scanner strips `//` comments, tracks `{`/`}` depth so nested
/// structs (`.dependencies`, `.paths`) are skipped, and reads the value
/// after `=` as either a string literal, an enum literal, or a quoted
/// identifier.
pub fn parse_zon(source: &str) -> (meta: ZonMetadata)
    ensures
        meta@ == zon_metadata(source@),
{
    let bytes = source.as_bytes();
    let n = bytes.len();
    let ghost b = bytes@;
    let mut meta = ZonMetadata { name: None, version: None };
    let ghost mut st = no_fields();
    let mut depth: usize = 0;
    let mut i: usize = 0;
    while i < n
        invariant
            b == bytes@,
            b == source.spec_bytes(),
            n == b.len(),
            i <= n,
            depth <= i,
            zon_scan(b, i as int, depth as nat, st) == zon_fields(b),
            opt_string_view(meta.name) == opt_text(st.name),
            opt_string_view(meta.version) == opt_text(st.version),
        decreases n - i,
    {
        let ghost i0 = i;
        let c = bytes[i];
        if c == 0x2Fu8 && i + 1 < n && bytes[i + 1] == 0x2Fu8 {
            proof {
                lemma_comment_end_bounds(b, i as int);
            }
            i = comment_end_at(bytes, i);
        } else if c == 0x22u8 {
            proof {
                lemma_string_stop_bounds(b, i + 1);
            }
            let (stop, past) = string_stop_at(bytes, i + 1);
            if past || stop >= n {
                i = n;
            } else {
                i = stop + 1;
            }
            proof {
                let nx = string_stop(b, i0 + 1) + 1;
                assert(zon_scan(b, nx, depth as nat, st) == zon_scan(b, i as int, depth as nat, st));
            }
        } else if c == 0x7Bu8 {
            depth = depth + 1;
            i = i + 1;
        } else if c == 0x7Du8 {
            if depth > 0 {
                depth = depth - 1;
            }
            i = i + 1;
        } else if c == 0x2Eu8 && depth == 1 {
            proof {
                lemma_top_level_assignment_bounds(b, i as int);
            }
            let (kind, value, next) = top_level_assignment_at(source, bytes, i);
            proof {
                let (k2, v2, nx) = top_level_assignment(b, i as int);
                if kind == 1 {
                    st = ZonFields { name: v2, ..st };
                } else if kind == 2 {
                    st = ZonFields { version: v2, ..st };
                }
            }
            if kind == 1 {
                meta.name = value;
            } else if kind == 2 {
                meta.version = value;
            }
            i = next;
            proof {
                let nx = top_level_assignment(b, i0 as int).2;
                assert(zon_scan(b, nx, depth as nat, st) == zon_scan(b, i as int, depth as nat, st));
            }
        } else {
            i = i + 1;
        }
    }
    assert(source@ == decode_utf8(encode_utf8(source@)));
    meta
}


/// Metadata is read only inside the top-level struct literal: source text
/// without any `{` provides neither a name nor a version.
pub proof fn lemma_no_struct_no_metadata(source: Seq<char>)
    requires
        has_no_open_brace(encode_utf8(source)),
    ensures
        zon_metadata(source) == empty_metadata(),
{
    lemma_no_struct_no_fields(encode_utf8(source));
}

} // verus!
