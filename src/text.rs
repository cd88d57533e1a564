//! Rendering embedded names, comments and payloads as text.
use vstd::prelude::*;

verus! {

/// The text that `b` holds when it is valid UTF-8.
pub uninterp spec fn utf8_of(b: Seq<u8>) -> Option<Seq<char>>;

/// `b` as text, with each invalid sequence replaced by U+FFFD.
pub uninterp spec fn lossy_of(b: Seq<u8>) -> Seq<char>;

/// Relies on std's String::from_utf8: the text, when `b` is valid UTF-8.
#[verifier::external_body]
pub(crate) fn utf8_text(b: &[u8]) -> (r: Option<String>)
    ensures
        match r {
            Some(t) => utf8_of(b@) == Some(t@),
            None => utf8_of(b@) == None::<Seq<char>>,
        },
{
    String::from_utf8(b.to_vec()).ok()
}

/// Relies on std's String::from_utf8_lossy: the bytes as text, each invalid
/// sequence replaced.
#[verifier::external_body]
fn lossy_text(b: &[u8]) -> (r: String)
    ensures
        r@ == lossy_of(b@),
{
    String::from_utf8_lossy(b).into_owned()
}

/// The strict reading of `b` where it is UTF-8, the lossy one otherwise.
pub open spec fn display_of(b: Seq<u8>) -> Seq<char> {
    match utf8_of(b) {
        Some(t) => t,
        None => lossy_of(b),
    }
}

/// Renders raw bytes as text; never fails.
pub fn display_text(b: &[u8]) -> (r: String)
    ensures
        r@ == display_of(b@),
{
    match utf8_text(b) {
        Some(t) => t,
        None => lossy_text(b),
    }
}

/// The line that sets a dumped payload apart.
pub open spec fn delimiter() -> Seq<char> {
    seq!['='; 16]
}

pub open spec fn name_line(name: Seq<u8>) -> Seq<char> {
    if name.len() > 0 {
        "Member: "@ + display_of(name)
    } else {
        "Member: no name"@
    }
}

pub open spec fn comment_line(comment: Seq<u8>) -> Seq<char> {
    "Comment: "@ + display_of(comment)
}

/// The payload between two delimiter lines.
pub open spec fn dump_text(content: Seq<u8>) -> Seq<char> {
    delimiter() + seq!['\n'] + display_of(content) + seq!['\n'] + delimiter()
}

/// What is printed of a member: its name, its comment where it has one,
/// and, for a member without a name, its payload.
pub open spec fn report_lines(name: Seq<u8>, comment: Seq<u8>, content: Seq<u8>) -> Seq<Seq<char>> {
    let a = seq![name_line(name)];
    let b = if comment.len() > 0 {
        a.push(comment_line(comment))
    } else {
        a
    };
    if name.len() == 0 {
        b.push(dump_text(content))
    } else {
        b
    }
}

pub fn report(name: &Vec<u8>, comment: &Vec<u8>, content: &Vec<u8>) -> (r: Vec<String>)
    ensures
        r@.map_values(|s: String| s@) == report_lines(name@, comment@, content@),
{
    let mut r: Vec<String> = Vec::new();
    if name.len() > 0 {
        let mut l = String::from_str("Member: ");
        let t = display_text(name.as_slice());
        l.append(t.as_str());
        proof { reveal_strlit("Member: "); }
        r.push(l);
    } else {
        proof { reveal_strlit("Member: no name"); }
        r.push(String::from_str("Member: no name"));
    }
    if comment.len() > 0 {
        let mut l = String::from_str("Comment: ");
        let t = display_text(comment.as_slice());
        l.append(t.as_str());
        proof { reveal_strlit("Comment: "); }
        r.push(l);
    }
    if name.len() == 0 {
        let mut l = String::from_str("================\n");
        let t = display_text(content.as_slice());
        l.append(t.as_str());
        l.append("\n================");
        proof {
            reveal_strlit("================\n");
            reveal_strlit("\n================");
            assert("================\n"@ =~= delimiter() + seq!['\n']);
            assert("\n================"@ =~= seq!['\n'] + delimiter());
            assert(l@ =~= dump_text(content@));
        }
        r.push(l);
    }
    assert(r@.map_values(|s: String| s@) =~= report_lines(name@, comment@, content@));
    r
}

} // verus!
