//! The gzip container format (RFC 1952): a file is a sequence of members,
//! each a header, a DEFLATE stream and an eight-byte trailer.
use vstd::prelude::*;

verus! {

/// Header flag: a CRC-16 of the header follows the optional fields; it is
/// skipped, not checked.
pub const FHCRC: u8 = 2;

/// Header flag: an "extra" field, prefixed by its two-byte length, follows.
pub const FEXTRA: u8 = 4;

/// Header flag: a zero-terminated file name follows.
pub const FNAME: u8 = 8;

/// Header flag: a zero-terminated comment follows.
pub const FCOMMENT: u8 = 16;

/// Flag bits that the format reserves; a member that sets one is refused.
pub const FRESERVED: u8 = 0xe0;

/// Why no member could be read.
pub enum DecodeError {
    /// The stream holds no further member: not a failure.
    EndOfStream,
    /// The stream ends inside a member.
    Truncated,
    /// The member does not start with the gzip magic and method, or sets a
    /// reserved flag.
    BadHeader,
    /// The DEFLATE decoder refused the compressed data, with its message.
    Deflate(String),
    /// The CRC-32 in the trailer differs from that of the decoded payload.
    BadChecksum,
    /// The size in the trailer differs from the decoded payload's size.
    BadLength,
}

pub enum DecodeErrorView {
    EndOfStream,
    Truncated,
    BadHeader,
    Deflate(Seq<char>),
    BadChecksum,
    BadLength,
}

impl View for DecodeError {
    type V = DecodeErrorView;

    open spec fn view(&self) -> DecodeErrorView {
        match self {
            DecodeError::EndOfStream => DecodeErrorView::EndOfStream,
            DecodeError::Truncated => DecodeErrorView::Truncated,
            DecodeError::BadHeader => DecodeErrorView::BadHeader,
            DecodeError::Deflate(m) => DecodeErrorView::Deflate(m@),
            DecodeError::BadChecksum => DecodeErrorView::BadChecksum,
            DecodeError::BadLength => DecodeErrorView::BadLength,
        }
    }
}

/// The one-line description of an error.
pub open spec fn message_of(e: DecodeErrorView) -> Seq<char> {
    match e {
        DecodeErrorView::EndOfStream => "end of stream"@,
        DecodeErrorView::Truncated => "unexpected end of compressed data"@,
        DecodeErrorView::BadHeader => "invalid gzip header"@,
        DecodeErrorView::Deflate(m) => m,
        DecodeErrorView::BadChecksum => "checksum mismatch"@,
        DecodeErrorView::BadLength => "size mismatch"@,
    }
}

impl DecodeError {
    /// A one-line description of the error.
    pub fn message(&self) -> (r: String)
        ensures
            r@ == message_of(self@),
    {
        match self {
            DecodeError::EndOfStream => String::from_str("end of stream"),
            DecodeError::Truncated => String::from_str("unexpected end of compressed data"),
            DecodeError::BadHeader => String::from_str("invalid gzip header"),
            DecodeError::Deflate(m) => m.clone(),
            DecodeError::BadChecksum => String::from_str("checksum mismatch"),
            DecodeError::BadLength => String::from_str("size mismatch"),
        }
    }
}

/// One member of a gzip stream, decoded.
pub struct Member {
    /// The embedded file name, without its terminator; empty when absent.
    pub file_name: Vec<u8>,
    /// The embedded comment, without its terminator; empty when absent.
    pub file_comment: Vec<u8>,
    /// The decompressed payload.
    pub content: Vec<u8>,
}

/// What a member is, and the offset just past its trailer.
pub struct MemberView {
    pub name: Seq<u8>,
    pub comment: Seq<u8>,
    pub content: Seq<u8>,
    pub end: int,
}

/// A decoded header: the embedded name and comment, and the offset where
/// the DEFLATE data begins.
pub struct Header {
    pub file_name: Vec<u8>,
    pub file_comment: Vec<u8>,
    pub end: usize,
}

pub struct HeaderView {
    pub name: Seq<u8>,
    pub comment: Seq<u8>,
    pub end: int,
}

impl View for Header {
    type V = HeaderView;

    open spec fn view(&self) -> HeaderView {
        HeaderView { name: self.file_name@, comment: self.file_comment@, end: self.end as int }
    }
}

/// What a DEFLATE decoder made of the bytes after a header: the decoded
/// payload and how many of those bytes it left unread, or its message.
pub open spec fn inflated_view(r: Result<(Vec<u8>, usize), String>) -> Result<(Seq<u8>, nat), Seq<char>> {
    match r {
        Ok((out, rest)) => Ok((out@, rest as nat)),
        Err(m) => Err(m@),
    }
}

/// The CRC-32 (ISO-HDLC, as gzip uses it) of `b`.
pub uninterp spec fn crc32_of(b: Seq<u8>) -> u32;

/// Relies on crc32fast::hash: the CRC-32 of the bytes.
#[verifier::external_body]
fn crc32(b: &[u8]) -> (r: u32)
    ensures
        r == crc32_of(b@),
{
    crc32fast::hash(b)
}

pub open spec fn le16(d: Seq<u8>, i: int) -> int {
    d[i] as int + 256 * d[i + 1] as int
}

pub open spec fn le32(d: Seq<u8>, i: int) -> int {
    d[i] as int + 256 * d[i + 1] as int + 65536 * d[i + 2] as int + 16777216 * d[i + 3] as int
}

/// The index of the first zero byte at or after `p`, or the length of `d`
/// where there is none.
pub open spec fn zero_from(d: Seq<u8>, p: int) -> int
    decreases d.len() - p,
{
    if p >= d.len() {
        d.len() as int
    } else if d[p] == 0 {
        p
    } else {
        zero_from(d, p + 1)
    }
}

pub open spec fn has_flag(d: Seq<u8>, s: int, f: u8) -> bool {
    d[s + 3] & f != 0
}

pub open spec fn magic_ok(d: Seq<u8>, s: int) -> bool {
    d[s] == 0x1f && d[s + 1] == 0x8b && d[s + 2] == 8 && d[s + 3] & FRESERVED == 0
}

/// Offset just past the optional extra field of the header at `s`.
pub open spec fn extra_end(d: Seq<u8>, s: int) -> int {
    if has_flag(d, s, FEXTRA) {
        s + 12 + le16(d, s + 10)
    } else {
        s + 10
    }
}

/// Offset of the terminator of the name field (its start where absent).
pub open spec fn name_stop(d: Seq<u8>, s: int) -> int {
    if has_flag(d, s, FNAME) {
        zero_from(d, extra_end(d, s))
    } else {
        extra_end(d, s)
    }
}

pub open spec fn name_end(d: Seq<u8>, s: int) -> int {
    if has_flag(d, s, FNAME) {
        name_stop(d, s) + 1
    } else {
        name_stop(d, s)
    }
}

pub open spec fn comment_stop(d: Seq<u8>, s: int) -> int {
    if has_flag(d, s, FCOMMENT) {
        zero_from(d, name_end(d, s))
    } else {
        name_end(d, s)
    }
}

pub open spec fn comment_end(d: Seq<u8>, s: int) -> int {
    if has_flag(d, s, FCOMMENT) {
        comment_stop(d, s) + 1
    } else {
        comment_stop(d, s)
    }
}

/// Offset just past the whole header at `s`.
pub open spec fn header_end(d: Seq<u8>, s: int) -> int {
    if has_flag(d, s, FHCRC) {
        comment_end(d, s) + 2
    } else {
        comment_end(d, s)
    }
}

/// The header at `s` lies wholly within `d`.
pub open spec fn header_complete(d: Seq<u8>, s: int) -> bool {
    &&& s + 10 <= d.len()
    &&& has_flag(d, s, FEXTRA) ==> s + 12 <= d.len()
    &&& extra_end(d, s) <= d.len()
    &&& has_flag(d, s, FNAME) ==> name_stop(d, s) < d.len()
    &&& has_flag(d, s, FCOMMENT) ==> comment_stop(d, s) < d.len()
    &&& header_end(d, s) <= d.len()
}

/// The header of the member that starts at offset `s` of the stream `d`.
pub open spec fn header_at(d: Seq<u8>, s: int) -> Result<HeaderView, DecodeErrorView> {
    if s >= d.len() {
        Err(DecodeErrorView::EndOfStream)
    } else if s + 10 <= d.len() && !magic_ok(d, s) {
        Err(DecodeErrorView::BadHeader)
    } else if !header_complete(d, s) {
        Err(DecodeErrorView::Truncated)
    } else {
        Ok(
            HeaderView {
                name: d.subrange(extra_end(d, s), name_stop(d, s)),
                comment: d.subrange(name_end(d, s), comment_stop(d, s)),
                end: header_end(d, s),
            },
        )
    }
}

/// The decoder's answer leaves no more unread than followed the header.
pub open spec fn inflated_fits(d: Seq<u8>, h: HeaderView, inflated: Result<(Seq<u8>, nat), Seq<char>>) -> bool {
    inflated is Ok ==> inflated->Ok_0.1 <= d.len() - h.end
}

/// The member of `d` with header `h`, given what DEFLATE decoding made of
/// the bytes after that header: the trailer that follows the compressed
/// data must hold the payload's CRC-32 and its size modulo 2^32.
pub open spec fn member_after(
    d: Seq<u8>,
    h: HeaderView,
    inflated: Result<(Seq<u8>, nat), Seq<char>>,
) -> Result<MemberView, DecodeErrorView> {
    match inflated {
        Err(m) => Err(DecodeErrorView::Deflate(m)),
        Ok((out, rest)) => {
            let t = d.len() - rest;
            if t + 8 > d.len() {
                Err(DecodeErrorView::Truncated)
            } else if le32(d, t) != crc32_of(out) as int {
                Err(DecodeErrorView::BadChecksum)
            } else if le32(d, t + 4) != out.len() % 0x1_0000_0000 {
                Err(DecodeErrorView::BadLength)
            } else {
                Ok(MemberView { name: h.name, comment: h.comment, content: out, end: t + 8 })
            }
        },
    }
}

fn find_zero(d: &Vec<u8>, p: usize) -> (r: usize)
    requires
        p <= d@.len(),
    ensures
        r as int == zero_from(d@, p as int),
        p <= r <= d@.len(),
{
    let mut i: usize = p;
    while i < d.len() && d[i] != 0
        invariant
            p <= i <= d@.len(),
            zero_from(d@, i as int) == zero_from(d@, p as int),
        decreases d@.len() - i,
    {
        i = i + 1;
    }
    i
}

fn copy_range(d: &Vec<u8>, lo: usize, hi: usize) -> (r: Vec<u8>)
    requires
        lo <= hi <= d@.len(),
    ensures
        r@ == d@.subrange(lo as int, hi as int),
{
    let mut r: Vec<u8> = Vec::new();
    let mut i: usize = lo;
    while i < hi
        invariant
            lo <= i <= hi <= d@.len(),
            r@ == d@.subrange(lo as int, i as int),
        decreases hi - i,
    {
        r.push(d[i]);
        i = i + 1;
    }
    r
}

/// Reads a gzip stream member by member.
pub struct Decoder {
    data: Vec<u8>,
    pos: usize,
}

impl Decoder {
    /// The whole stream.
    pub closed spec fn data(&self) -> Seq<u8> {
        self.data@
    }

    /// Offset of the next member.
    pub closed spec fn pos(&self) -> int {
        self.pos as int
    }

    pub closed spec fn wf(&self) -> bool {
        self.pos <= self.data@.len()
    }

    /// A decoder positioned at the first member of `data`.
    pub fn new(data: Vec<u8>) -> (r: Decoder)
        ensures
            r.wf(),
            r.data() == data@,
            r.pos() == 0,
    {
        Decoder { data, pos: 0 }
    }

    /// The stream's length.
    pub fn len(&self) -> (r: usize)
        ensures
            r == self.data().len(),
    {
        self.data.len()
    }

    /// Reads the header of the next member.
    pub fn header(&self) -> (r: Result<Header, DecodeError>)
        requires
            self.wf(),
        ensures
            match (r, header_at(self.data(), self.pos())) {
                (Ok(h), Ok(v)) => h@ == v && h.end <= self.data().len(),
                (Err(e), Err(v)) => e@ == v,
                _ => false,
            },
    {
        let d = &self.data;
        let s = self.pos;
        let len = d.len();
        if s >= len {
            return Err(DecodeError::EndOfStream);
        }
        if len - s >= 10 && !(d[s] == 0x1f && d[s + 1] == 0x8b && d[s + 2] == 8 && d[s + 3]
            & FRESERVED == 0) {
            return Err(DecodeError::BadHeader);
        }
        if len - s < 10 {
            return Err(DecodeError::Truncated);
        }
        let flags = d[s + 3];
        let mut p = s + 10;
        if flags & FEXTRA != 0 {
            if len - p < 2 {
                return Err(DecodeError::Truncated);
            }
            let xlen = d[p] as usize + 256 * d[p + 1] as usize;
            if len - p - 2 < xlen {
                return Err(DecodeError::Truncated);
            }
            p = p + 2 + xlen;
        }
        assert(p as int == extra_end(d@, s as int));
        let name_lo = p;
        if flags & FNAME != 0 {
            p = find_zero(d, p);
            if p == len {
                return Err(DecodeError::Truncated);
            }
        }
        let name_hi = p;
        if flags & FNAME != 0 {
            p = p + 1;
        }
        assert(p as int == name_end(d@, s as int));
        let comment_lo = p;
        if flags & FCOMMENT != 0 {
            p = find_zero(d, p);
            if p == len {
                return Err(DecodeError::Truncated);
            }
        }
        let comment_hi = p;
        if flags & FCOMMENT != 0 {
            p = p + 1;
        }
        if flags & FHCRC != 0 {
            if len - p < 2 {
                return Err(DecodeError::Truncated);
            }
            p = p + 2;
        }
        assert(p as int == header_end(d@, s as int));
        assert(header_complete(d@, s as int));
        let file_name = copy_range(d, name_lo, name_hi);
        let file_comment = copy_range(d, comment_lo, comment_hi);
        Ok(Header { file_name, file_comment, end: p })
    }

    /// The compressed data that follows the header `h`, to the stream's end.
    pub fn body(&self, h: &Header) -> (r: Vec<u8>)
        requires
            h.end <= self.data().len(),
        ensures
            r@ == self.data().subrange(h.end as int, self.data().len() as int),
    {
        copy_range(&self.data, h.end, self.data.len())
    }

    /// Completes the member with header `h`, given what DEFLATE decoding
    /// made of the bytes after it, and moves past its trailer; on an error
    /// the position stays where it was.
    pub fn finish(&mut self, h: Header, inflated: Result<(Vec<u8>, usize), String>) -> (r: Result<
        Member,
        DecodeError,
    >)
        requires
            old(self).wf(),
            h.end <= old(self).data().len(),
            inflated_fits(old(self).data(), h@, inflated_view(inflated)),
        ensures
            final(self).wf(),
            final(self).data() == old(self).data(),
            match (r, member_after(old(self).data(), h@, inflated_view(inflated))) {
                (Ok(m), Ok(v)) => m.file_name@ == v.name && m.file_comment@ == v.comment
                    && m.content@ == v.content && final(self).pos() == v.end,
                (Err(e), Err(v)) => e@ == v && final(self).pos() == old(self).pos(),
                _ => false,
            },
    {
        let d = &self.data;
        let len = d.len();
        let (content, rest) = match inflated {
            Ok(x) => x,
            Err(m) => {
                return Err(DecodeError::Deflate(m));
            },
        };
        let t = len - rest;
        if len - t < 8 {
            return Err(DecodeError::Truncated);
        }
        let stored_crc = d[t] as u64 + 256 * d[t + 1] as u64 + 65536 * d[t + 2] as u64
            + 16777216 * d[t + 3] as u64;
        if stored_crc != crc32(content.as_slice()) as u64 {
            return Err(DecodeError::BadChecksum);
        }
        let stored_len = d[t + 4] as u64 + 256 * d[t + 5] as u64 + 65536 * d[t + 6] as u64
            + 16777216 * d[t + 7] as u64;
        if stored_len != content.len() as u64 % 0x1_0000_0000 {
            return Err(DecodeError::BadLength);
        }
        self.pos = t + 8;
        Ok(Member { file_name: h.file_name, file_comment: h.file_comment, content })
    }
}

} // verus!
