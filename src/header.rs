//! The header line: control bytes, file-type tag and fixed-width subfields.
use vstd::prelude::*;

use crate::error::{Error, ErrorView};
use crate::text::{chars_of, string_of};

verus! {

/// The record separator that opens the header line.
pub const RECORD_SEPARATOR: char = '\x1e';

/// The segment terminator that follows the record separator.
pub const SEGMENT_TERMINATOR: char = '\r';

/// Characters taken by the control bytes, the tag and the fixed-width subfields.
pub const HEADER_FIXED_LEN: usize = 29;

/// The decoded header of a payload. Each subfield is the text found at its
/// position; none is checked for range.
#[derive(Debug)]
pub struct Header {
    pub file_type: String,
    pub issuer_identification_number: String,
    pub aamva_version_number: String,
    pub jurisdiction_version_number: String,
    pub number_of_entries: String,
    /// `DL` for a drivers license, `ID` for a state ID, `EN` for an enhanced license.
    pub subfile_type: String,
    pub offset: String,
    pub length: String,
    /// Whatever follows the fixed-width subfields, kept verbatim.
    pub extra_characters: String,
}

/// A header with its subfields as character sequences.
pub struct HeaderView {
    pub file_type: Seq<char>,
    pub issuer_identification_number: Seq<char>,
    pub aamva_version_number: Seq<char>,
    pub jurisdiction_version_number: Seq<char>,
    pub number_of_entries: Seq<char>,
    pub subfile_type: Seq<char>,
    pub offset: Seq<char>,
    pub length: Seq<char>,
    pub extra_characters: Seq<char>,
}

impl View for Header {
    type V = HeaderView;

    open spec fn view(&self) -> HeaderView {
        HeaderView {
            file_type: self.file_type@,
            issuer_identification_number: self.issuer_identification_number@,
            aamva_version_number: self.aamva_version_number@,
            jurisdiction_version_number: self.jurisdiction_version_number@,
            number_of_entries: self.number_of_entries@,
            subfile_type: self.subfile_type@,
            offset: self.offset@,
            length: self.length@,
            extra_characters: self.extra_characters@,
        }
    }
}

/// The file-type tag every header must carry.
pub open spec fn file_type_tag() -> Seq<char> {
    seq!['A', 'N', 'S', 'I', ' ']
}

/// What decoding the header line `h` gives.
pub open spec fn header_of(h: Seq<char>) -> Result<HeaderView, ErrorView> {
    if h.len() < 1 || h[0] != RECORD_SEPARATOR {
        Err(ErrorView::Formatting("Record separator not found"@))
    } else if h.len() < 2 || h[1] != SEGMENT_TERMINATOR {
        Err(ErrorView::Formatting("Segment terminator not found"@))
    } else if h.len() < 7 || h.subrange(2, 7) != file_type_tag() {
        Err(ErrorView::InvalidFileType)
    } else if h.len() < HEADER_FIXED_LEN {
        Err(ErrorView::InvalidStringLength)
    } else {
        Ok(
            HeaderView {
                file_type: h.subrange(2, 7),
                issuer_identification_number: h.subrange(7, 13),
                aamva_version_number: h.subrange(13, 15),
                jurisdiction_version_number: h.subrange(15, 17),
                number_of_entries: h.subrange(17, 19),
                subfile_type: h.subrange(19, 21),
                offset: h.subrange(21, 25),
                length: h.subrange(25, 29),
                extra_characters: h.subrange(29, h.len() as int),
            },
        )
    }
}


/// The multi-line text that shows a header, one labelled, quoted subfield per line.
pub open spec fn header_text(h: HeaderView) -> Seq<char> {
    "Header {\n    File Type:               '"@ + h.file_type + "'\n    Issuer Identification #: '"@ + h.issuer_identification_number + "'\n    AAMVA Version #:         '"@ + h.aamva_version_number + "'\n    Jurisdiction Version #:  '"@ + h.jurisdiction_version_number + "'\n    Number of Entries:       '"@ + h.number_of_entries + "'\n    Subfile Type:            '"@ + h.subfile_type + "'\n    Offset:                  '"@ + h.offset + "'\n    Length:                  '"@ + h.length + "'\n    Extra Characters         '"@ + h.extra_characters + "'\n}\n"@
}

impl Header {
    /// Decodes a header line: the two control bytes, the `ANSI ` tag, then
    /// the subfields sliced in order (6, 2, 2, 2, 2, 4 and 4 characters), and
    /// the rest kept as extra characters.
    pub fn from(header: String) -> (r: Result<Header, Error>)
        ensures
            crate::error::result_view(r) == header_of(header@),
    {
        let cs = chars_of(header.as_str());
        if cs.len() < 1 || cs[0] != RECORD_SEPARATOR {
            return Err(
                Error::Formatting { violation: String::from_str("Record separator not found") },
            );
        }
        if cs.len() < 2 || cs[1] != SEGMENT_TERMINATOR {
            return Err(
                Error::Formatting { violation: String::from_str("Segment terminator not found") },
            );
        }
        if cs.len() < 7 || cs[2] != 'A' || cs[3] != 'N' || cs[4] != 'S' || cs[5] != 'I' || cs[6]
            != ' ' {
            proof {
                if cs@.len() >= 7 {
                    assert(cs@.subrange(2, 7)[0] == cs@[2]);
                    assert(cs@.subrange(2, 7)[1] == cs@[3]);
                    assert(cs@.subrange(2, 7)[2] == cs@[4]);
                    assert(cs@.subrange(2, 7)[3] == cs@[5]);
                    assert(cs@.subrange(2, 7)[4] == cs@[6]);
                }
            }
            return Err(Error::InvalidFileType);
        }
        proof {
            assert(cs@.subrange(2, 7) =~= file_type_tag());
        }
        if cs.len() < HEADER_FIXED_LEN {
            return Err(Error::InvalidStringLength);
        }
        let n = cs.len();
        Ok(
            Header {
                file_type: string_of(&cs[2..7]),
                issuer_identification_number: string_of(&cs[7..13]),
                aamva_version_number: string_of(&cs[13..15]),
                jurisdiction_version_number: string_of(&cs[15..17]),
                number_of_entries: string_of(&cs[17..19]),
                subfile_type: string_of(&cs[19..21]),
                offset: string_of(&cs[21..25]),
                length: string_of(&cs[25..29]),
                extra_characters: string_of(&cs[29..n]),
            },
        )
    }

    /// Shows the header as text, one labelled, quoted subfield per line.
    pub fn describe(&self) -> (r: String)
        ensures
            r@ == header_text(self@),
    {
        String::from_str("Header {\n    File Type:               '").concat(self.file_type.as_str())
            .concat("'\n    Issuer Identification #: '").concat(self.issuer_identification_number.as_str())
            .concat("'\n    AAMVA Version #:         '").concat(self.aamva_version_number.as_str())
            .concat("'\n    Jurisdiction Version #:  '").concat(self.jurisdiction_version_number.as_str())
            .concat("'\n    Number of Entries:       '").concat(self.number_of_entries.as_str())
            .concat("'\n    Subfile Type:            '").concat(self.subfile_type.as_str())
            .concat("'\n    Offset:                  '").concat(self.offset.as_str())
            .concat("'\n    Length:                  '").concat(self.length.as_str())
            .concat("'\n    Extra Characters         '").concat(self.extra_characters.as_str())
            .concat("'\n}\n")
    }
}

} // verus!
