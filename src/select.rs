//! Choosing, among the command-line arguments, the files to extract.
use vstd::prelude::*;

verus! {

/// The extension of `path` as std's path rules find it, where it has one.
pub uninterp spec fn extension_of(path: Seq<char>) -> Option<Seq<char>>;

/// Relies on std::path::Path::extension: the part of the final component
/// after its last `.`, if any.
#[verifier::external_body]
fn path_extension(path: &str) -> (r: Option<String>)
    ensures
        match r {
            Some(e) => extension_of(path@) == Some(e@),
            None => extension_of(path@) == None::<Seq<char>>,
        },
{
    match std::path::Path::new(path).extension() {
        Some(e) => Some(e.to_string_lossy().into_owned()),
        None => None,
    }
}

/// The extension that marks a compressed file.
pub open spec fn compressed_extension() -> Seq<char> {
    seq!['g', 'z']
}

/// An argument is kept when it names a regular file with the compressed
/// extension.
pub open spec fn is_selected(path: Seq<char>, is_file: bool) -> bool {
    is_file && extension_of(path) == Some(compressed_extension())
}

/// The kept arguments, in their order.
pub open spec fn selection(paths: Seq<Seq<char>>, is_file: Seq<bool>) -> Seq<Seq<char>>
    decreases paths.len(),
{
    if paths.len() == 0 {
        seq![]
    } else {
        let before = selection(paths.drop_last(), is_file.take(paths.len() - 1));
        if is_selected(paths.last(), is_file[paths.len() - 1]) {
            before.push(paths.last())
        } else {
            before
        }
    }
}

pub open spec fn views(v: Seq<String>) -> Seq<Seq<char>> {
    v.map_values(|s: String| s@)
}

/// Whether `path`, which names a regular file exactly when `is_file`
/// holds, is to be extracted.
pub fn selected(path: &str, is_file: bool) -> (r: bool)
    ensures
        r == is_selected(path@, is_file),
{
    if !is_file {
        return false;
    }
    match path_extension(path) {
        Some(e) => {
            let e = e.as_str();
            let ok = e.unicode_len() == 2 && e.get_char(0) == 'g' && e.get_char(1) == 'z';
            assert(ok ==> e@ =~= compressed_extension());
            ok
        },
        None => false,
    }
}

/// The arguments to extract: those that name a regular file
/// (`is_file[i]`, as the filesystem reported it) and end in the compressed
/// extension, in their original order. Nothing is reported of the others.
pub fn select_files(paths: &Vec<String>, is_file: &Vec<bool>) -> (r: Vec<String>)
    requires
        paths@.len() == is_file@.len(),
    ensures
        views(r@) == selection(views(paths@), is_file@),
{
    let mut r: Vec<String> = Vec::new();
    let mut i: usize = 0;
    while i < paths.len()
        invariant
            i <= paths@.len() == is_file@.len(),
            views(r@) == selection(views(paths@).take(i as int), is_file@.take(i as int)),
        decreases paths@.len() - i,
    {
        let keep = selected(paths[i].as_str(), is_file[i]);
        proof {
            let ps = views(paths@).take(i + 1);
            assert(ps.drop_last() =~= views(paths@).take(i as int));
            assert(is_file@.take(i + 1).take(i as int) =~= is_file@.take(i as int));
        }
        if keep {
            let p = paths[i].clone();
            r.push(p);
            assert(views(r@) =~= selection(views(paths@).take(i as int), is_file@.take(i as int)).push(paths@[i as int]@));
        }
        i = i + 1;
    }
    assert(views(paths@).take(paths@.len() as int) =~= views(paths@));
    assert(is_file@.take(paths@.len() as int) =~= is_file@);
    r
}

} // verus!
