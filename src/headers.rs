//! The `Content-Disposition` header: its model and its serialized form.

use vstd::prelude::*;
use vstd::string::*;

verus! {

/// Whether a response body is shown in place or offered as a download.
#[derive(Clone, Copy, Debug, PartialEq, Eq, Structural)]
pub enum DispositionType {
    Inline,
    Attachment,
}

/// A `Content-Disposition` header with exactly one `filename` parameter.
///
/// The filename is a raw byte string in the ISO-8859-1 charset (one byte per
/// character) and carries no language tag.
#[derive(Clone, Debug)]
pub struct ContentDisposition {
    pub disposition: DispositionType,
    pub filename: Vec<u8>,
}

/// The mathematical value of a `ContentDisposition`.
pub struct DispositionView {
    pub disposition: DispositionType,
    pub filename: Seq<u8>,
}

impl View for ContentDisposition {
    type V = DispositionView;

    open spec fn view(&self) -> DispositionView {
        DispositionView { disposition: self.disposition, filename: self.filename@ }
    }
}

/// The bytes of an ASCII character sequence, one byte per character.
pub open spec fn ascii_bytes(s: Seq<char>) -> Seq<u8> {
    Seq::new(s.len(), |i: int| s[i] as u8)
}

/// `attachment` when downloads are asked for, else `inline`.
pub open spec fn disposition_for(as_attachment: bool) -> DispositionType {
    if as_attachment {
        DispositionType::Attachment
    } else {
        DispositionType::Inline
    }
}

/// The keyword that opens the header value.
pub open spec fn disposition_keyword(d: DispositionType) -> Seq<u8> {
    match d {
        DispositionType::Inline => ascii_bytes("inline"@),
        DispositionType::Attachment => ascii_bytes("attachment"@),
    }
}

/// The serialized header value: `<keyword>; filename="<filename>"`, with the
/// filename bytes copied as they are (no escaping, no percent-encoding).
pub open spec fn disposition_value(d: DispositionView) -> Seq<u8> {
    disposition_keyword(d.disposition) + ascii_bytes("; filename=\""@) + d.filename + ascii_bytes(
        "\""@,
    )
}

/// The bytes of an ASCII string literal.
pub(crate) fn ascii_to_vec(s: &str) -> (r: Vec<u8>)
    requires
        is_ascii(s),
    ensures
        r@ == ascii_bytes(s@),
{
    let b = s.as_bytes();
    proof {
        is_ascii_spec_bytes(s);
    }
    let v = vstd::slice::slice_to_vec(b);
    assert(v@ =~= ascii_bytes(s@));
    v
}

/// Builds the disposition header for a file named by `filename`: an attachment
/// when `as_attachment` holds, else inline.
pub fn create_content_disposition(filename: &[u8], as_attachment: bool) -> (r: ContentDisposition)
    ensures
        r@ == (DispositionView { disposition: disposition_for(as_attachment), filename: filename@ }),
{
    let disposition = if as_attachment {
        DispositionType::Attachment
    } else {
        DispositionType::Inline
    };
    ContentDisposition { disposition, filename: vstd::slice::slice_to_vec(filename) }
}

impl ContentDisposition {
    /// The header value as it goes on the wire.
    pub fn header_value(&self) -> (r: Vec<u8>)
        ensures
            r@ == disposition_value(self@),
    {
        let mut out = match self.disposition {
            DispositionType::Inline => {
                proof {
                    reveal_strlit("inline");
                }
                ascii_to_vec("inline")
            },
            DispositionType::Attachment => {
                proof {
                    reveal_strlit("attachment");
                }
                ascii_to_vec("attachment")
            },
        };
        proof {
            reveal_strlit("; filename=\"");
            reveal_strlit("\"");
        }
        let mut open = ascii_to_vec("; filename=\"");
        out.append(&mut open);
        let mut name = vstd::slice::slice_to_vec(self.filename.as_slice());
        out.append(&mut name);
        let mut close = ascii_to_vec("\"");
        out.append(&mut close);
        out
    }
}

} // verus!
