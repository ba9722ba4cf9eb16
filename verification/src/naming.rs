//! The names the editor composes: suggested file names for dialogs and the
//! window's title line.

use vstd::prelude::*;

verus! {

/// The application's name as shown in titles.
pub fn application_name() -> (r: &'static str)
    ensures
        r@ == "Delineate"@,
{
    "Delineate"
}

/// The bytes of `.gv`, the extension a draft is saved under.
pub open spec fn gv_extension() -> Seq<u8> {
    seq![46u8, 103u8, 118u8]
}

/// The bytes of ` - `, the separator in the window title.
pub open spec fn title_separator() -> Seq<u8> {
    seq![32u8, 45u8, 32u8]
}

fn push_all(out: &mut Vec<u8>, bytes: &[u8])
    ensures
        final(out)@ == old(out)@ + bytes@,
{
    let n = bytes.len();
    let mut i: usize = 0;
    while i < n
        invariant
            n == bytes@.len(),
            i <= n,
            out@ =~= old(out)@ + bytes@.take(i as int),
        decreases n - i,
    {
        out.push(bytes[i]);
        assert(out@ =~= old(out)@ + bytes@.take(i + 1));
        i += 1;
    }
    assert(out@ =~= old(out)@ + bytes@);
}

/// The file name offered when exporting or saving as: the title, a dot, and
/// the extension.
pub fn suggested_file_name(title: &[u8], extension: &[u8]) -> (r: Vec<u8>)
    ensures
        r@ == title@ + seq![46u8] + extension@,
{
    let mut out: Vec<u8> = Vec::new();
    push_all(&mut out, title);
    out.push(46);
    assert(out@ =~= title@ + seq![46u8]);
    push_all(&mut out, extension);
    out
}

/// The file name offered when a draft is first saved: the title with `.gv`.
pub fn draft_file_name(title: &[u8]) -> (r: Vec<u8>)
    ensures
        r@ == title@ + gv_extension(),
{
    let mut out: Vec<u8> = Vec::new();
    push_all(&mut out, title);
    out.push(46);
    out.push(103);
    out.push(118);
    assert(out@ =~= title@ + gv_extension());
    out
}

/// The window's title: the application's name alone when no page is shown,
/// the page's title and the application's name otherwise.
pub fn window_title(page_title: Option<&Vec<u8>>, app_name: &[u8]) -> (r: Vec<u8>)
    ensures
        match page_title {
            Some(t) => r@ == t@ + title_separator() + app_name@,
            None => r@ == app_name@,
        },
{
    let mut out: Vec<u8> = Vec::new();
    match page_title {
        Some(t) => {
            push_all(&mut out, t.as_slice());
            out.push(32);
            out.push(45);
            out.push(32);
            assert(out@ =~= t@ + title_separator());
            push_all(&mut out, app_name);
        },
        None => {
            push_all(&mut out, app_name);
        },
    }
    out
}

} // verus!
