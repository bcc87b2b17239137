use vstd::prelude::*;

use crate::file_list::Coord;
use crate::source_control::SourceControlData;

verus! {

/// What `std::path::Path::strip_prefix` gives for `path` under `base`, as text.
pub uninterp spec fn relative_to(path: Seq<char>, base: Seq<char>) -> Option<Seq<char>>;

/// What `std::path::Path::file_name` gives for `path`, as text.
pub uninterp spec fn file_name_of(path: Seq<char>) -> Option<Seq<char>>;

/// What `std::path::Path::parent` gives for `path`, as text.
pub uninterp spec fn parent_of(path: Seq<char>) -> Option<Seq<char>>;

/// Relies on `Path::strip_prefix`: the part of `path` below `base`, if `base`
/// is one of its ancestors.
#[verifier::external_body]
fn strip_prefix(path: &String, base: &String) -> (r: Option<String>)
    ensures
        match r {
            Some(s) => relative_to(path@, base@) == Some(s@),
            None => relative_to(path@, base@) == None::<Seq<char>>,
        },
{
    std::path::Path::new(path).strip_prefix(base).ok().map(|p| p.to_string_lossy().into_owned())
}

/// Relies on `Path::file_name`: the last component of `path`, if it is a name.
#[verifier::external_body]
fn file_name(path: &String) -> (r: Option<String>)
    ensures
        match r {
            Some(s) => file_name_of(path@) == Some(s@),
            None => file_name_of(path@) == None::<Seq<char>>,
        },
{
    std::path::Path::new(path).file_name().map(|s| s.to_string_lossy().into_owned())
}

/// Relies on `Path::parent`: `path` without its last component, if it has one.
#[verifier::external_body]
fn parent(path: &String) -> (r: Option<String>)
    ensures
        match r {
            Some(s) => parent_of(path@) == Some(s@),
            None => parent_of(path@) == None::<Seq<char>>,
        },
{
    std::path::Path::new(path).parent().map(|p| p.to_string_lossy().into_owned())
}

/// The path shown for a file: relative to the workspace root when the file
/// lies below it, else as it is.
pub open spec fn shown_path(path: Seq<char>, root: Option<Seq<char>>) -> Seq<char> {
    match root {
        Some(b) => match relative_to(path, b) {
            Some(rel) => rel,
            None => path,
        },
        None => path,
    }
}

/// `o`'s text, or the empty text.
pub open spec fn or_empty(o: Option<Seq<char>>) -> Seq<char> {
    match o {
        Some(s) => s,
        None => Seq::empty(),
    }
}

pub open spec fn view_opt(o: Option<&String>) -> Option<Seq<char>> {
    match o {
        Some(s) => Some(s@),
        None => None,
    }
}

/// The two labels of a row: the file's name, and the directory that holds
/// it, of the path shown for it. A part that the path lacks is empty.
pub fn row_labels(path: &String, root: Option<&String>) -> (r: (String, String))
    ensures
        r.0@ == or_empty(file_name_of(shown_path(path@, view_opt(root)))),
        r.1@ == or_empty(parent_of(shown_path(path@, view_opt(root)))),
{
    let shown = match root {
        Some(b) => match strip_prefix(path, b) {
            Some(rel) => rel,
            None => path.clone(),
        },
        None => path.clone(),
    };
    let name = match file_name(&shown) {
        Some(n) => n,
        None => String::new(),
    };
    let folder = match parent(&shown) {
        Some(f) => f,
        None => String::new(),
    };
    (name, folder)
}

/// The row painted with the selection background: the cursor's row, while
/// the list has the focus and is non-empty.
pub fn highlighted_row(focused: bool, data: &SourceControlData) -> (r: Option<usize>)
    ensures
        r == (if focused && data.diff_files@.len() > 0 {
            Some(data.file_list_index)
        } else {
            None::<usize>
        }),
{
    if focused && data.diff_files.len() > 0 {
        Some(data.file_list_index)
    } else {
        None
    }
}

/// Row `l` of height `h` meets the band between heights `top` and `bottom`:
/// `(l + 1) * h > top` and `l * h < bottom`.
pub open spec fn row_visible(l: int, top: Coord, bottom: Coord, h: int) -> bool {
    &&& (l + 1) * h > top.whole
    &&& if bottom.fractional {
        l * h <= bottom.whole
    } else {
        l * h < bottom.whole
    }
}

proof fn lemma_rows_below(w: int, h: int, l: int)
    requires
        w >= 0,
        h > 0,
        l >= 0,
    ensures
        (l * h <= w) == (l <= w / h),
        ((l + 1) * h > w) == (l >= w / h),
{
    let q = w / h;
    vstd::arithmetic::div_mod::lemma_fundamental_div_mod(w, h);
    assert(h * q <= w < h * q + h);
    assert(q * h == h * q && (q + 1) * h == q * h + h && (l + 1) * h == l * h + h)
        by (nonlinear_arith);
    if l <= q {
        assert(l * h <= q * h) by (nonlinear_arith)
            requires
                l <= q,
                h > 0,
        ;
    } else {
        assert(l * h >= (q + 1) * h) by (nonlinear_arith)
            requires
                l >= q + 1,
                h > 0,
        ;
    }
    if l >= q {
        assert((l + 1) * h >= (q + 1) * h) by (nonlinear_arith)
            requires
                l >= q,
                h > 0,
        ;
    } else {
        assert((l + 1) * h <= q * h) by (nonlinear_arith)
            requires
                l + 1 <= q,
                h > 0,
        ;
    }
}

/// The rows to paint for the visible band between heights `top` and
/// `bottom`, as the range `r.0 .. r.1`: the rows of the list that meet it.
/// Rows of no height meet nothing.
pub fn visible_rows(top: Coord, bottom: Coord, line_height: usize, len: usize) -> (r: (
    usize,
    usize,
))
    ensures
        r.0 <= r.1 <= len,
        line_height == 0 ==> r == (0usize, 0usize),
        line_height > 0 ==> forall|l: int|
            0 <= l ==> ((r.0 <= l < r.1) <==> (l < len && row_visible(
                l,
                top,
                bottom,
                line_height as int,
            ))),
{
    if line_height == 0 {
        return (0, 0);
    }
    let h = line_height as u64;
    let start: u64 = if top.whole <= 0 {
        0
    } else {
        (top.whole as u64) / h
    };
    let end: u64 = if bottom.whole < 0 {
        0
    } else if bottom.fractional {
        (bottom.whole as u64) / h + 1
    } else if bottom.whole == 0 {
        0
    } else {
        ((bottom.whole - 1) as u64) / h + 1
    };
    let end = if end < len as u64 {
        end as usize
    } else {
        len
    };
    let start = if start < end as u64 {
        start as usize
    } else {
        end
    };
    proof {
        let hi = line_height as int;
        assert forall|l: int| 0 <= l implies ((start <= l < end) <==> (l < len && row_visible(
            l,
            top,
            bottom,
            hi,
        ))) by {
            if top.whole > 0 {
                lemma_rows_below(top.whole as int, hi, l);
            } else {
                assert((l + 1) * hi > 0) by (nonlinear_arith)
                    requires
                        l >= 0,
                        hi > 0,
                ;
            }
            if bottom.whole < 0 || (bottom.whole == 0 && !bottom.fractional) {
                assert(l * hi >= 0) by (nonlinear_arith)
                    requires
                        l >= 0,
                        hi > 0,
                ;
            } else if bottom.fractional {
                lemma_rows_below(bottom.whole as int, hi, l);
            } else {
                lemma_rows_below(bottom.whole - 1, hi, l);
            }
        }
    }
    (start, end)
}

} // verus!
