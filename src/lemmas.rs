//! Laws of decoding, stated over the spec functions that the decoders'
//! contracts use, and proved.
use vstd::prelude::*;

use crate::documents::{applies_to, assembled, decode, header_line, marker_line};
use crate::elements::{
    has_id, line_value, raw_value, recognized, registry, DocumentType, ID_LEN,
};
use crate::error::ErrorView;
use crate::header::{file_type_tag, RECORD_SEPARATOR, SEGMENT_TERMINATOR};
use crate::text::{split_on, strip_padding};

verus! {

/// Decoding is a function of the payload: equal payloads decode to equal
/// results, header and record alike.
pub proof fn lemma_decode_deterministic(shape: DocumentType, a: Seq<char>, b: Seq<char>)
    requires
        a == b,
    ensures
        decode(shape, a) == decode(shape, b),
{
}

/// A payload whose first line is not `@` is refused as non-compliant,
/// whatever follows it.
pub proof fn lemma_missing_marker(shape: DocumentType, file: Seq<char>)
    requires
        split_on(file, '\n')[0] != marker_line(),
    ensures
        decode(shape, file) is Err,
        decode(shape, file)->Err_0 == ErrorView::NonCompliance,
{
}

/// A header line that does not open with the record separator is a
/// formatting failure that names the record separator.
pub proof fn lemma_missing_record_separator(shape: DocumentType, file: Seq<char>)
    requires
        split_on(file, '\n')[0] == marker_line(),
        header_line(split_on(file, '\n')).len() == 0 || header_line(split_on(file, '\n'))[0]
            != RECORD_SEPARATOR,
    ensures
        decode(shape, file) is Err,
        decode(shape, file)->Err_0 == ErrorView::Formatting("Record separator not found"@),
{
}

/// A header line whose record separator is not followed by the segment
/// terminator is a formatting failure that names the segment terminator.
pub proof fn lemma_missing_segment_terminator(shape: DocumentType, file: Seq<char>)
    requires
        split_on(file, '\n')[0] == marker_line(),
        header_line(split_on(file, '\n')).len() >= 1,
        header_line(split_on(file, '\n'))[0] == RECORD_SEPARATOR,
        header_line(split_on(file, '\n')).len() < 2 || header_line(split_on(file, '\n'))[1]
            != SEGMENT_TERMINATOR,
    ensures
        decode(shape, file) is Err,
        decode(shape, file)->Err_0 == ErrorView::Formatting("Segment terminator not found"@),
{
}

/// With both control bytes in place, a header whose five-character tag is not
/// `ANSI ` is an invalid file type, whatever the other subfields hold.
pub proof fn lemma_wrong_file_type(shape: DocumentType, file: Seq<char>)
    requires
        split_on(file, '\n')[0] == marker_line(),
        header_line(split_on(file, '\n')).len() >= 7,
        header_line(split_on(file, '\n'))[0] == RECORD_SEPARATOR,
        header_line(split_on(file, '\n'))[1] == SEGMENT_TERMINATOR,
        header_line(split_on(file, '\n')).subrange(2, 7) != file_type_tag(),
    ensures
        decode(shape, file) is Err,
        decode(shape, file)->Err_0 == ErrorView::InvalidFileType,
{
}

/// Removing a line that does not carry `id` leaves the value found for `id`
/// unchanged.
pub proof fn lemma_raw_value_without(lines: Seq<Seq<char>>, j: int, id: Seq<char>)
    requires
        0 <= j < lines.len(),
        !has_id(lines[j], id),
    ensures
        raw_value(lines, id) == raw_value(lines.remove(j), id),
    decreases lines.len(),
{
    if j == 0 {
        assert(lines.remove(0) =~= lines.drop_first());
    } else {
        lemma_raw_value_without(lines.drop_first(), j - 1, id);
        assert(lines.remove(j)[0] == lines[0]);
        assert(lines.remove(j).drop_first() =~= lines.drop_first().remove(j - 1));
    }
}

/// A line whose identifier the registry does not know changes no field: the
/// record is the one assembled from the same lines without it.
pub proof fn lemma_unknown_line_ignored(shape: DocumentType, lines: Seq<Seq<char>>, j: int)
    requires
        0 <= j < lines.len(),
        !recognized(registry(), lines[j]),
    ensures
        assembled(shape, lines) == assembled(shape, lines.remove(j)),
{
    assert forall|k: int| 0 <= k < registry().len() implies #[trigger] assembled(shape, lines)[k]
        == assembled(shape, lines.remove(j))[k] by {
        assert(!has_id(lines[j], registry()[k].id));
        lemma_raw_value_without(lines, j, registry()[k].id);
    }
    assert(assembled(shape, lines) =~= assembled(shape, lines.remove(j)));
}

/// The value found for `id` is that of the first line carrying it.
pub proof fn lemma_raw_value_first(lines: Seq<Seq<char>>, i: int, id: Seq<char>)
    requires
        0 <= i < lines.len(),
        has_id(lines[i], id),
        forall|m: int| 0 <= m < i ==> !has_id(#[trigger] lines[m], id),
    ensures
        raw_value(lines, id) == Some(line_value(lines[i])),
    decreases i,
{
    if i > 0 {
        assert(!has_id(lines[0], id));
        assert forall|m: int| 0 <= m < i - 1 implies !has_id(#[trigger] lines.drop_first()[m], id) by {
            assert(lines.drop_first()[m] == lines[m + 1]);
        }
        lemma_raw_value_first(lines.drop_first(), i - 1, id);
    }
}

/// When two lines carry the same element, the field takes the value of the
/// first of them; the later one is ignored.
pub proof fn lemma_first_occurrence_wins(
    shape: DocumentType,
    lines: Seq<Seq<char>>,
    k: int,
    i: int,
    j: int,
)
    requires
        0 <= k < registry().len(),
        applies_to(registry()[k].document_type, shape),
        0 <= i < j < lines.len(),
        has_id(lines[i], registry()[k].id),
        has_id(lines[j], registry()[k].id),
        forall|m: int| 0 <= m < i ==> !has_id(#[trigger] lines[m], registry()[k].id),
    ensures
        assembled(shape, lines)[k] == Some(strip_padding(line_value(lines[i]))),
{
    lemma_raw_value_first(lines, i, registry()[k].id);
}

/// Every identifier in the registry is three characters long.
pub proof fn lemma_registry_ids_have_id_length()
    ensures
        forall|k: int| 0 <= k < registry().len() ==> (#[trigger] registry()[k]).id.len() == ID_LEN,
{
    reveal_strlit("DCA");
    reveal_strlit("DCB");
    reveal_strlit("DCD");
    reveal_strlit("DBA");
    reveal_strlit("DCS");
    reveal_strlit("DAC");
    reveal_strlit("DAD");
    reveal_strlit("DBD");
    reveal_strlit("DBB");
    reveal_strlit("DBC");
    reveal_strlit("DAY");
    reveal_strlit("DAU");
    reveal_strlit("DAG");
    reveal_strlit("DAI");
    reveal_strlit("DAJ");
    reveal_strlit("DAK");
    reveal_strlit("DAQ");
    reveal_strlit("DCF");
    reveal_strlit("DCG");
    reveal_strlit("DDE");
    reveal_strlit("DDF");
    reveal_strlit("DDG");
    reveal_strlit("DAH");
    reveal_strlit("DAZ");
    reveal_strlit("DCI");
    reveal_strlit("DCJ");
    reveal_strlit("DCK");
    reveal_strlit("DBN");
    reveal_strlit("DBG");
    reveal_strlit("DBS");
    reveal_strlit("DCU");
    reveal_strlit("DCE");
    reveal_strlit("DCL");
    reveal_strlit("DCM");
    reveal_strlit("DCN");
    reveal_strlit("DCO");
    reveal_strlit("DCP");
    reveal_strlit("DCQ");
    reveal_strlit("DCR");
    reveal_strlit("DDA");
    reveal_strlit("DDB");
    reveal_strlit("DDC");
    reveal_strlit("DDD");
    reveal_strlit("DAW");
    reveal_strlit("DAX");
    reveal_strlit("DDH");
    reveal_strlit("DDI");
    reveal_strlit("DDJ");
    reveal_strlit("DDK");
    reveal_strlit("DDL");
}

/// An identification card never holds a drivers-license-only element, even
/// when the lines carry it: the shape, not the lines, decides what is kept.
pub proof fn lemma_card_omits_license_only(lines: Seq<Seq<char>>)
    ensures
        forall|k: int|
            0 <= k < registry().len() && registry()[k].document_type == DocumentType::DL
                ==> (#[trigger] assembled(DocumentType::ID, lines)[k]) is None,
{
}

/// Every field that a shape holds can be set on its own: a single line that
/// carries the element gives that field the line's padding-stripped value, and
/// leaves every field of another identifier empty.
pub proof fn lemma_field_settable(shape: DocumentType, k: int, value: Seq<char>)
    requires
        0 <= k < registry().len(),
        applies_to(registry()[k].document_type, shape),
    ensures
        assembled(shape, seq![registry()[k].id + value])[k] == Some(strip_padding(value)),
        forall|m: int|
            0 <= m < registry().len() && registry()[m].id != registry()[k].id ==> (#[trigger] assembled(
                shape,
                seq![registry()[k].id + value],
            )[m]) is None,
{
    lemma_registry_ids_have_id_length();
    let id = registry()[k].id;
    let line = id + value;
    let lines = seq![line];
    assert(line.take(3) =~= id);
    assert(line.skip(3) =~= value);
    assert(lines.drop_first() =~= Seq::<Seq<char>>::empty());
    assert forall|m: int|
        0 <= m < registry().len() && registry()[m].id != id implies (#[trigger] assembled(
            shape,
            lines,
        )[m]) is None by {
        assert(!has_id(lines[0], registry()[m].id));
        assert(raw_value(lines.drop_first(), registry()[m].id) is None);
    }
}

} // verus!
