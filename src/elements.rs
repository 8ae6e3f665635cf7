//! The element registry: one definition per known 3-character identifier,
//! and the validation and lookup of element lines against a definition.
use vstd::prelude::*;

use crate::error::{Error, ErrorView};
use crate::text::strip_padding;
use crate::text::remove_padding;

verus! {

/// Characters that identify an element line.
pub const ID_LEN: usize = 3;

/// The document shapes an element applies to.
#[derive(Clone, Copy, Debug, PartialEq, Eq, Structural)]
pub enum DocumentType {
    /// Drivers licenses only.
    DL,
    /// Identification cards only.
    ID,
    /// Both shapes.
    Both,
}

/// The rules for one element. The charset flags, the fixed-length flag and
/// the length are carried for stricter validation; they are not enforced on
/// values.
#[derive(Clone, Copy, Debug)]
pub struct ElementValidationData {
    pub id: &'static str,
    pub alpha: bool,
    pub numeric: bool,
    pub special: bool,
    pub fixed_length: bool,
    pub length: i8,
    pub document_type: DocumentType,
}

/// An element definition as plain values.
pub struct ElementDefinition {
    pub id: Seq<char>,
    pub alpha: bool,
    pub numeric: bool,
    pub special: bool,
    pub fixed_length: bool,
    pub length: int,
    pub document_type: DocumentType,
}

impl View for ElementValidationData {
    type V = ElementDefinition;

    open spec fn view(&self) -> ElementDefinition {
        ElementDefinition {
            id: self.id@,
            alpha: self.alpha,
            numeric: self.numeric,
            special: self.special,
            fixed_length: self.fixed_length,
            length: self.length as int,
            document_type: self.document_type,
        }
    }
}

/// A definition built from its parts.
pub open spec fn definition(
    id: Seq<char>,
    alpha: bool,
    numeric: bool,
    special: bool,
    fixed_length: bool,
    length: int,
    document_type: DocumentType,
) -> ElementDefinition {
    ElementDefinition { id, alpha, numeric, special, fixed_length, length, document_type }
}

/// The known elements, in registry order.
pub open spec fn registry() -> Seq<ElementDefinition> {
    seq![
        definition("DCA"@, true, true, true, false, 6, DocumentType::DL),
        definition("DCB"@, true, true, true, false, 12, DocumentType::DL),
        definition("DCD"@, true, true, true, false, 5, DocumentType::DL),
        definition("DBA"@, false, true, false, true, 8, DocumentType::Both),
        definition("DCS"@, true, true, true, false, 40, DocumentType::Both),
        definition("DAC"@, true, true, true, false, 40, DocumentType::Both),
        definition("DAD"@, true, true, true, false, 40, DocumentType::Both),
        definition("DBD"@, false, true, false, true, 8, DocumentType::Both),
        definition("DBB"@, false, true, false, true, 8, DocumentType::Both),
        definition("DBC"@, false, true, false, true, 1, DocumentType::Both),
        definition("DAY"@, true, false, false, true, 3, DocumentType::Both),
        definition("DAU"@, true, true, true, true, 6, DocumentType::Both),
        definition("DAG"@, true, true, true, false, 35, DocumentType::Both),
        definition("DAI"@, true, true, true, false, 20, DocumentType::Both),
        definition("DAJ"@, true, false, false, true, 2, DocumentType::Both),
        definition("DAK"@, true, true, true, true, 11, DocumentType::Both),
        definition("DAQ"@, true, true, true, false, 25, DocumentType::Both),
        definition("DCF"@, true, true, true, false, 25, DocumentType::Both),
        definition("DCG"@, true, false, false, true, 3, DocumentType::Both),
        definition("DDE"@, true, false, false, true, 1, DocumentType::Both),
        definition("DDF"@, true, false, false, true, 1, DocumentType::Both),
        definition("DDG"@, true, false, false, true, 1, DocumentType::Both),
        definition("DAH"@, true, true, true, false, 35, DocumentType::Both),
        definition("DAZ"@, true, false, false, false, 12, DocumentType::Both),
        definition("DCI"@, true, false, false, false, 12, DocumentType::Both),
        definition("DCJ"@, true, true, true, false, 25, DocumentType::Both),
        definition("DCK"@, true, true, true, false, 25, DocumentType::Both),
        definition("DBN"@, true, true, true, false, 10, DocumentType::Both),
        definition("DBG"@, true, true, true, false, 15, DocumentType::Both),
        definition("DBS"@, true, true, true, false, 5, DocumentType::Both),
        definition("DCU"@, true, true, true, false, 5, DocumentType::Both),
        definition("DCE"@, false, true, false, true, 1, DocumentType::Both),
        definition("DCL"@, true, false, false, false, 3, DocumentType::Both),
        definition("DCM"@, true, true, false, true, 4, DocumentType::DL),
        definition("DCN"@, true, true, false, true, 5, DocumentType::DL),
        definition("DCO"@, true, true, false, true, 12, DocumentType::DL),
        definition("DCP"@, true, true, true, false, 50, DocumentType::DL),
        definition("DCQ"@, true, true, true, false, 50, DocumentType::DL),
        definition("DCR"@, true, true, true, false, 50, DocumentType::DL),
        definition("DDA"@, true, false, false, true, 1, DocumentType::Both),
        definition("DDB"@, false, true, false, true, 8, DocumentType::Both),
        definition("DDC"@, false, true, false, true, 8, DocumentType::DL),
        definition("DDD"@, false, true, false, true, 1, DocumentType::Both),
        definition("DAW"@, false, true, false, true, 3, DocumentType::Both),
        definition("DAX"@, false, true, false, true, 3, DocumentType::Both),
        definition("DDH"@, false, true, false, true, 8, DocumentType::Both),
        definition("DDI"@, false, true, false, true, 8, DocumentType::Both),
        definition("DDJ"@, false, true, false, true, 8, DocumentType::Both),
        definition("DDK"@, false, true, false, true, 1, DocumentType::Both),
        definition("DDL"@, false, true, false, true, 1, DocumentType::Both),    ]
}

/// Whether `line` carries the element `id`: its first three characters are `id`.
pub open spec fn has_id(line: Seq<char>, id: Seq<char>) -> bool {
    line.len() >= ID_LEN && line.take(ID_LEN as int) == id
}

/// The candidate identifier of a line: its first three characters, or the
/// whole line when it is shorter.
pub open spec fn line_id(line: Seq<char>) -> Seq<char> {
    if line.len() >= ID_LEN {
        line.take(ID_LEN as int)
    } else {
        line
    }
}

/// The candidate value of a line: what follows its first three characters.
pub open spec fn line_value(line: Seq<char>) -> Seq<char> {
    if line.len() >= ID_LEN {
        line.skip(ID_LEN as int)
    } else {
        Seq::<char>::empty()
    }
}

/// The raw value of the first line that carries `id`, if any line does.
pub open spec fn raw_value(lines: Seq<Seq<char>>, id: Seq<char>) -> Option<Seq<char>>
    decreases lines.len(),
{
    if lines.len() == 0 {
        None
    } else if has_id(lines[0], id) {
        Some(line_value(lines[0]))
    } else {
        raw_value(lines.drop_first(), id)
    }
}

/// The value of element `id` in `lines`: the first matching line's value
/// with its padding removed.
pub open spec fn element_value(lines: Seq<Seq<char>>, id: Seq<char>) -> Option<Seq<char>> {
    match raw_value(lines, id) {
        Some(v) => Some(strip_padding(v)),
        None => None,
    }
}

/// The first definition in `defs` whose identifier is `id`.
pub open spec fn lookup(defs: Seq<ElementDefinition>, id: Seq<char>) -> Option<ElementDefinition>
    decreases defs.len(),
{
    if defs.len() == 0 {
        None
    } else if defs[0].id == id {
        Some(defs[0])
    } else {
        lookup(defs.drop_first(), id)
    }
}

/// Whether some definition in `defs` matches the identifier of `line`.
pub open spec fn recognized(defs: Seq<ElementDefinition>, line: Seq<char>) -> bool {
    exists|k: int| 0 <= k < defs.len() && has_id(line, #[trigger] defs[k].id)
}

/// Whether `line` carries the element whose identifier is `id`.
fn line_has_id(line: &str, id: &str) -> (r: bool)
    ensures
        r == has_id(line@, id@),
{
    if line.unicode_len() < ID_LEN || id.unicode_len() != ID_LEN {
        return false;
    }
    let same = line.get_char(0) == id.get_char(0) && line.get_char(1) == id.get_char(1)
        && line.get_char(2) == id.get_char(2);
    proof {
        if same {
            assert(line@.take(3) =~= id@);
        } else if line@.take(3) == id@ {
            assert(line@.take(3)[0] == id@[0]);
            assert(line@.take(3)[1] == id@[1]);
            assert(line@.take(3)[2] == id@[2]);
        }
    }
    same
}

/// Whether two texts hold the same characters.
fn same_text(a: &str, b: &str) -> (r: bool)
    ensures
        r == (a@ == b@),
{
    let n = a.unicode_len();
    if n != b.unicode_len() {
        return false;
    }
    let mut i: usize = 0;
    while i < n
        invariant
            n == a@.len() == b@.len(),
            i <= n,
            forall|j: int| 0 <= j < i ==> a@[j] == b@[j],
        decreases n - i,
    {
        if a.get_char(i) != b.get_char(i) {
            return false;
        }
        i = i + 1;
    }
    proof {
        assert(a@ =~= b@);
    }
    true
}

/// Splits an element line into its candidate identifier and its candidate
/// value. A line shorter than an identifier is all identifier.
pub fn split_at_id(line: &String) -> (r: (String, String))
    ensures
        r.0@ == line_id(line@),
        r.1@ == line_value(line@),
{
    let text = line.as_str();
    let n = text.unicode_len();
    if n >= ID_LEN {
        (String::from_str(text.substring_char(0, ID_LEN)), String::from_str(text.substring_char(ID_LEN, n)))
    } else {
        (String::from_str(text), String::new())
    }
}

impl ElementValidationData {
    /// Checks that `element_line` carries this element and returns its raw
    /// value, unchanged. Any other line gives a mismatch naming both
    /// identifiers.
    pub fn validate(&self, element_line: &String) -> (r: Result<String, Error>)
        ensures
            has_id(element_line@, self.id@) ==> r is Ok && r->Ok_0@ == line_value(
                element_line@,
            ),
            !has_id(element_line@, self.id@) ==> r is Err && r->Err_0@ == ErrorView::MatchError(
                line_id(element_line@),
                self.id@,
            ),
    {
        if line_has_id(element_line.as_str(), self.id) {
            let (_, value) = split_at_id(element_line);
            Ok(value)
        } else {
            let (prefix, _) = split_at_id(element_line);
            Err(Error::MatchError { var_1: prefix, var_2: String::from_str(self.id) })
        }
    }

    /// The raw value of `element_line` when it carries this element.
    pub fn no_error_validate(&self, element_line: &String) -> (r: Option<String>)
        ensures
            r is Some <==> has_id(element_line@, self.id@),
            r is Some ==> r->0@ == line_value(element_line@),
    {
        match self.validate(element_line) {
            Ok(value) => Some(value),
            Err(_) => None,
        }
    }

    /// The raw value of the first line that carries this element; when none
    /// does, an error naming the element.
    pub fn find_in_lines(&self, lines: &Vec<String>) -> (r: Result<String, Error>)
        ensures
            raw_value(lines.deep_view(), self.id@) is Some ==> r is Ok && r->Ok_0@ == raw_value(
                lines.deep_view(),
                self.id@,
            )->0,
            raw_value(lines.deep_view(), self.id@) is None ==> r is Err && r->Err_0@
                == ErrorView::ElementNotFound(self.id@),
    {
        let ghost ls = lines.deep_view();
        let mut i: usize = 0;
        assert(ls.skip(0) =~= ls);
        while i < lines.len()
            invariant
                i <= lines.len(),
                ls == lines.deep_view(),
                raw_value(ls, self.id@) == raw_value(ls.skip(i as int), self.id@),
            decreases lines.len() - i,
        {
            proof {
                assert(ls.skip(i as int)[0] == lines[i as int]@);
                assert(ls.skip(i as int).drop_first() =~= ls.skip(i + 1));
            }
            match self.validate(&lines[i]) {
                Ok(value) => {
                    return Ok(value);
                },
                Err(_) => {},
            }
            i = i + 1;
        }
        proof {
            assert(ls.skip(i as int).len() == 0);
        }
        Err(Error::ElementNotFound { element_name: String::from_str(self.id) })
    }

    /// The value of this element in `lines`, with its padding removed; `None`
    /// when no line carries it.
    pub fn no_error_find_in_lines(&self, lines: &Vec<String>) -> (r: Option<String>)
        ensures
            r.deep_view() == element_value(lines.deep_view(), self.id@),
    {
        match self.find_in_lines(lines) {
            Ok(value) => Some(remove_padding(value)),
            Err(_) => None,
        }
    }
}

/// An immutable table of element definitions, built once and shared by
/// reference.
pub struct ElementRegistry {
    elements: Vec<ElementValidationData>,
}

impl View for ElementRegistry {
    type V = Seq<ElementDefinition>;

    closed spec fn view(&self) -> Seq<ElementDefinition> {
        self.elements@.map_values(|d: ElementValidationData| d@)
    }
}

impl ElementRegistry {
    /// The registry of every known element.
    pub fn standard() -> (r: ElementRegistry)
        ensures
            r@ == registry(),
    {
        let mut elements: Vec<ElementValidationData> = Vec::new();
        elements.push(JurisdictionSpecificVehicleClass::data());
        elements.push(JurisdictionSpecificRestrictionCodes::data());
        elements.push(JurisdictionSpecificEndorsementCodes::data());
        elements.push(DocumentExpirationDate::data());
        elements.push(CustomerFamilyName::data());
        elements.push(CustomerFirstName::data());
        elements.push(CustomerMiddleNames::data());
        elements.push(DocumentIssueDate::data());
        elements.push(DateOfBirth::data());
        elements.push(PhysicalDescriptionSex::data());
        elements.push(PhysicalDescriptionEyeColor::data());
        elements.push(PhysicalDescriptionHeight::data());
        elements.push(AddressStreet1::data());
        elements.push(AddressCity::data());
        elements.push(AddressJurisdictionCode::data());
        elements.push(AddressPostalCode::data());
        elements.push(CustomerIdNumber::data());
        elements.push(DocumentDescriminator::data());
        elements.push(CountryIdentification::data());
        elements.push(FamilyNameTruncation::data());
        elements.push(FirstNameTruncation::data());
        elements.push(MiddleNameTruncation::data());
        elements.push(AddressStreet2::data());
        elements.push(HairColor::data());
        elements.push(PlaceOfBirth::data());
        elements.push(AuditInformation::data());
        elements.push(InventoryControlNumber::data());
        elements.push(AliasFamilyName::data());
        elements.push(AliasGivenName::data());
        elements.push(AliasSuffixName::data());
        elements.push(NameSuffix::data());
        elements.push(PhysicalDescriptionWeightRange::data());
        elements.push(RaceEthnicity::data());
        elements.push(StandardVehicleClassification::data());
        elements.push(StandardEndorsementCode::data());
        elements.push(StandardRestrictionCode::data());
        elements.push(JurisdictionSpecificVehicleClassificationDescription::data());
        elements.push(JurisdictionSpecificEndorsementCodeDescription::data());
        elements.push(JurisdictionSpecificRestrictionCodeDescription::data());
        elements.push(DHSComplianceType::data());
        elements.push(DHSCardRevisionDate::data());
        elements.push(HAZMATEndorcementExpirationDate::data());
        elements.push(LimitedDurationDocumentIndicator::data());
        elements.push(WeightPounds::data());
        elements.push(WeightKilograms::data());
        elements.push(Under18Until::data());
        elements.push(Under19Until::data());
        elements.push(Under21Until::data());
        elements.push(OrganDonorIndicator::data());
        elements.push(VeteranIndicator::data());
        let r = ElementRegistry { elements };
        assert(r@ =~= registry());
        r
    }

    /// The definition for `id`; an error naming `id` when it is unknown.
    pub fn definition_for(&self, id: &str) -> (r: Result<ElementValidationData, Error>)
        ensures
            lookup(self@, id@) is Some ==> r is Ok && r->Ok_0@ == lookup(self@, id@)->0,
            lookup(self@, id@) is None ==> r is Err && r->Err_0@ == ErrorView::ElementNotFound(
                id@,
            ),
    {
        let ghost defs = self@;
        let mut i: usize = 0;
        assert(defs.skip(0) =~= defs);
        while i < self.elements.len()
            invariant
                i <= self.elements.len(),
                defs == self@,
                lookup(defs, id@) == lookup(defs.skip(i as int), id@),
            decreases self.elements.len() - i,
        {
            proof {
                assert(defs.skip(i as int)[0] == self.elements[i as int]@);
                assert(defs.skip(i as int).drop_first() =~= defs.skip(i + 1));
            }
            let element = self.elements[i];
            if same_text(element.id, id) {
                return Ok(element);
            }
            i = i + 1;
        }
        proof {
            assert(defs.skip(i as int).len() == 0);
        }
        Err(Error::ElementNotFound { element_name: String::from_str(id) })
    }

    /// Whether some definition matches the identifier of `line`.
    pub fn recognizes(&self, line: &String) -> (r: bool)
        ensures
            r == recognized(self@, line@),
    {
        let mut i: usize = 0;
        while i < self.elements.len()
            invariant
                i <= self.elements.len(),
                forall|k: int| 0 <= k < i ==> !has_id(line@, #[trigger] self@[k].id),
            decreases self.elements.len() - i,
        {
            if line_has_id(line.as_str(), self.elements[i].id) {
                assert(has_id(line@, self@[i as int].id));
                return true;
            }
            i = i + 1;
        }
        false
    }
}

/// The definition of the element `id`, looked up in the standard registry.
pub fn by_id(id: String) -> (r: Result<ElementValidationData, Error>)
    ensures
        lookup(registry(), id@) is Some ==> r is Ok && r->Ok_0@ == lookup(registry(), id@)->0,
        lookup(registry(), id@) is None ==> r is Err && r->Err_0@ == ErrorView::ElementNotFound(
            id@,
        ),
{
    let registry = ElementRegistry::standard();
    registry.definition_for(id.as_str())
}

/// Element `DCA`: jurisdiction specific vehicle class.
pub struct JurisdictionSpecificVehicleClass;

impl JurisdictionSpecificVehicleClass {
    /// The definition of this element, as the registry holds it.
    pub fn data() -> (r: ElementValidationData)
        ensures
            r@ == registry()[0],
    {
        ElementValidationData {
            id: "DCA",
            alpha: true,
            numeric: true,
            special: true,
            fixed_length: false,
            length: 6,
            document_type: DocumentType::DL,
        }
    }
}

/// Element `DCB`: jurisdiction specific restriction codes.
pub struct JurisdictionSpecificRestrictionCodes;

impl JurisdictionSpecificRestrictionCodes {
    /// The definition of this element, as the registry holds it.
    pub fn data() -> (r: ElementValidationData)
        ensures
            r@ == registry()[1],
    {
        ElementValidationData {
            id: "DCB",
            alpha: true,
            numeric: true,
            special: true,
            fixed_length: false,
            length: 12,
            document_type: DocumentType::DL,
        }
    }
}

/// Element `DCD`: jurisdiction specific endorsement codes.
pub struct JurisdictionSpecificEndorsementCodes;

impl JurisdictionSpecificEndorsementCodes {
    /// The definition of this element, as the registry holds it.
    pub fn data() -> (r: ElementValidationData)
        ensures
            r@ == registry()[2],
    {
        ElementValidationData {
            id: "DCD",
            alpha: true,
            numeric: true,
            special: true,
            fixed_length: false,
            length: 5,
            document_type: DocumentType::DL,
        }
    }
}

/// Element `DBA`: document expiration date.
pub struct DocumentExpirationDate;

impl DocumentExpirationDate {
    /// The definition of this element, as the registry holds it.
    pub fn data() -> (r: ElementValidationData)
        ensures
            r@ == registry()[3],
    {
        ElementValidationData {
            id: "DBA",
            alpha: false,
            numeric: true,
            special: false,
            fixed_length: true,
            length: 8,
            document_type: DocumentType::Both,
        }
    }
}

/// Element `DCS`: customer family name.
pub struct CustomerFamilyName;

impl CustomerFamilyName {
    /// The definition of this element, as the registry holds it.
    pub fn data() -> (r: ElementValidationData)
        ensures
            r@ == registry()[4],
    {
        ElementValidationData {
            id: "DCS",
            alpha: true,
            numeric: true,
            special: true,
            fixed_length: false,
            length: 40,
            document_type: DocumentType::Both,
        }
    }
}

/// Element `DAC`: customer first name.
pub struct CustomerFirstName;

impl CustomerFirstName {
    /// The definition of this element, as the registry holds it.
    pub fn data() -> (r: ElementValidationData)
        ensures
            r@ == registry()[5],
    {
        ElementValidationData {
            id: "DAC",
            alpha: true,
            numeric: true,
            special: true,
            fixed_length: false,
            length: 40,
            document_type: DocumentType::Both,
        }
    }
}

/// Element `DAD`: customer middle names.
pub struct CustomerMiddleNames;

impl CustomerMiddleNames {
    /// The definition of this element, as the registry holds it.
    pub fn data() -> (r: ElementValidationData)
        ensures
            r@ == registry()[6],
    {
        ElementValidationData {
            id: "DAD",
            alpha: true,
            numeric: true,
            special: true,
            fixed_length: false,
            length: 40,
            document_type: DocumentType::Both,
        }
    }
}

/// Element `DBD`: document issue date.
pub struct DocumentIssueDate;

impl DocumentIssueDate {
    /// The definition of this element, as the registry holds it.
    pub fn data() -> (r: ElementValidationData)
        ensures
            r@ == registry()[7],
    {
        ElementValidationData {
            id: "DBD",
            alpha: false,
            numeric: true,
            special: false,
            fixed_length: true,
            length: 8,
            document_type: DocumentType::Both,
        }
    }
}

/// Element `DBB`: date of birth.
pub struct DateOfBirth;

impl DateOfBirth {
    /// The definition of this element, as the registry holds it.
    pub fn data() -> (r: ElementValidationData)
        ensures
            r@ == registry()[8],
    {
        ElementValidationData {
            id: "DBB",
            alpha: false,
            numeric: true,
            special: false,
            fixed_length: true,
            length: 8,
            document_type: DocumentType::Both,
        }
    }
}

/// Element `DBC`: sex.
pub struct PhysicalDescriptionSex;

impl PhysicalDescriptionSex {
    /// The definition of this element, as the registry holds it.
    pub fn data() -> (r: ElementValidationData)
        ensures
            r@ == registry()[9],
    {
        ElementValidationData {
            id: "DBC",
            alpha: false,
            numeric: true,
            special: false,
            fixed_length: true,
            length: 1,
            document_type: DocumentType::Both,
        }
    }
}

/// Element `DAY`: eye color.
pub struct PhysicalDescriptionEyeColor;

impl PhysicalDescriptionEyeColor {
    /// The definition of this element, as the registry holds it.
    pub fn data() -> (r: ElementValidationData)
        ensures
            r@ == registry()[10],
    {
        ElementValidationData {
            id: "DAY",
            alpha: true,
            numeric: false,
            special: false,
            fixed_length: true,
            length: 3,
            document_type: DocumentType::Both,
        }
    }
}

/// Element `DAU`: height.
pub struct PhysicalDescriptionHeight;

impl PhysicalDescriptionHeight {
    /// The definition of this element, as the registry holds it.
    pub fn data() -> (r: ElementValidationData)
        ensures
            r@ == registry()[11],
    {
        ElementValidationData {
            id: "DAU",
            alpha: true,
            numeric: true,
            special: true,
            fixed_length: true,
            length: 6,
            document_type: DocumentType::Both,
        }
    }
}

/// Element `DAG`: first line of the street address.
pub struct AddressStreet1;

impl AddressStreet1 {
    /// The definition of this element, as the registry holds it.
    pub fn data() -> (r: ElementValidationData)
        ensures
            r@ == registry()[12],
    {
        ElementValidationData {
            id: "DAG",
            alpha: true,
            numeric: true,
            special: true,
            fixed_length: false,
            length: 35,
            document_type: DocumentType::Both,
        }
    }
}

/// Element `DAI`: address city.
pub struct AddressCity;

impl AddressCity {
    /// The definition of this element, as the registry holds it.
    pub fn data() -> (r: ElementValidationData)
        ensures
            r@ == registry()[13],
    {
        ElementValidationData {
            id: "DAI",
            alpha: true,
            numeric: true,
            special: true,
            fixed_length: false,
            length: 20,
            document_type: DocumentType::Both,
        }
    }
}

/// Element `DAJ`: address jurisdiction code.
pub struct AddressJurisdictionCode;

impl AddressJurisdictionCode {
    /// The definition of this element, as the registry holds it.
    pub fn data() -> (r: ElementValidationData)
        ensures
            r@ == registry()[14],
    {
        ElementValidationData {
            id: "DAJ",
            alpha: true,
            numeric: false,
            special: false,
            fixed_length: true,
            length: 2,
            document_type: DocumentType::Both,
        }
    }
}

/// Element `DAK`: address postal code.
pub struct AddressPostalCode;

impl AddressPostalCode {
    /// The definition of this element, as the registry holds it.
    pub fn data() -> (r: ElementValidationData)
        ensures
            r@ == registry()[15],
    {
        ElementValidationData {
            id: "DAK",
            alpha: true,
            numeric: true,
            special: true,
            fixed_length: true,
            length: 11,
            document_type: DocumentType::Both,
        }
    }
}

/// Element `DAQ`: customer id number.
pub struct CustomerIdNumber;

impl CustomerIdNumber {
    /// The definition of this element, as the registry holds it.
    pub fn data() -> (r: ElementValidationData)
        ensures
            r@ == registry()[16],
    {
        ElementValidationData {
            id: "DAQ",
            alpha: true,
            numeric: true,
            special: true,
            fixed_length: false,
            length: 25,
            document_type: DocumentType::Both,
        }
    }
}

/// Element `DCF`: document discriminator.
pub struct DocumentDescriminator;

impl DocumentDescriminator {
    /// The definition of this element, as the registry holds it.
    pub fn data() -> (r: ElementValidationData)
        ensures
            r@ == registry()[17],
    {
        ElementValidationData {
            id: "DCF",
            alpha: true,
            numeric: true,
            special: true,
            fixed_length: false,
            length: 25,
            document_type: DocumentType::Both,
        }
    }
}

/// Element `DCG`: country identification.
pub struct CountryIdentification;

impl CountryIdentification {
    /// The definition of this element, as the registry holds it.
    pub fn data() -> (r: ElementValidationData)
        ensures
            r@ == registry()[18],
    {
        ElementValidationData {
            id: "DCG",
            alpha: true,
            numeric: false,
            special: false,
            fixed_length: true,
            length: 3,
            document_type: DocumentType::Both,
        }
    }
}

/// Element `DDE`: family name truncation.
pub struct FamilyNameTruncation;

impl FamilyNameTruncation {
    /// The definition of this element, as the registry holds it.
    pub fn data() -> (r: ElementValidationData)
        ensures
            r@ == registry()[19],
    {
        ElementValidationData {
            id: "DDE",
            alpha: true,
            numeric: false,
            special: false,
            fixed_length: true,
            length: 1,
            document_type: DocumentType::Both,
        }
    }
}

/// Element `DDF`: first name truncation.
pub struct FirstNameTruncation;

impl FirstNameTruncation {
    /// The definition of this element, as the registry holds it.
    pub fn data() -> (r: ElementValidationData)
        ensures
            r@ == registry()[20],
    {
        ElementValidationData {
            id: "DDF",
            alpha: true,
            numeric: false,
            special: false,
            fixed_length: true,
            length: 1,
            document_type: DocumentType::Both,
        }
    }
}

/// Element `DDG`: middle name truncation.
pub struct MiddleNameTruncation;

impl MiddleNameTruncation {
    /// The definition of this element, as the registry holds it.
    pub fn data() -> (r: ElementValidationData)
        ensures
            r@ == registry()[21],
    {
        ElementValidationData {
            id: "DDG",
            alpha: true,
            numeric: false,
            special: false,
            fixed_length: true,
            length: 1,
            document_type: DocumentType::Both,
        }
    }
}

/// Element `DAH`: second line of the street address.
pub struct AddressStreet2;

impl AddressStreet2 {
    /// The definition of this element, as the registry holds it.
    pub fn data() -> (r: ElementValidationData)
        ensures
            r@ == registry()[22],
    {
        ElementValidationData {
            id: "DAH",
            alpha: true,
            numeric: true,
            special: true,
            fixed_length: false,
            length: 35,
            document_type: DocumentType::Both,
        }
    }
}

/// Element `DAZ`: hair color.
pub struct HairColor;

impl HairColor {
    /// The definition of this element, as the registry holds it.
    pub fn data() -> (r: ElementValidationData)
        ensures
            r@ == registry()[23],
    {
        ElementValidationData {
            id: "DAZ",
            alpha: true,
            numeric: false,
            special: false,
            fixed_length: false,
            length: 12,
            document_type: DocumentType::Both,
        }
    }
}

/// Element `DCI`: place of birth.
pub struct PlaceOfBirth;

impl PlaceOfBirth {
    /// The definition of this element, as the registry holds it.
    pub fn data() -> (r: ElementValidationData)
        ensures
            r@ == registry()[24],
    {
        ElementValidationData {
            id: "DCI",
            alpha: true,
            numeric: false,
            special: false,
            fixed_length: false,
            length: 12,
            document_type: DocumentType::Both,
        }
    }
}

/// Element `DCJ`: audit information.
pub struct AuditInformation;

impl AuditInformation {
    /// The definition of this element, as the registry holds it.
    pub fn data() -> (r: ElementValidationData)
        ensures
            r@ == registry()[25],
    {
        ElementValidationData {
            id: "DCJ",
            alpha: true,
            numeric: true,
            special: true,
            fixed_length: false,
            length: 25,
            document_type: DocumentType::Both,
        }
    }
}

/// Element `DCK`: inventory control number.
pub struct InventoryControlNumber;

impl InventoryControlNumber {
    /// The definition of this element, as the registry holds it.
    pub fn data() -> (r: ElementValidationData)
        ensures
            r@ == registry()[26],
    {
        ElementValidationData {
            id: "DCK",
            alpha: true,
            numeric: true,
            special: true,
            fixed_length: false,
            length: 25,
            document_type: DocumentType::Both,
        }
    }
}

/// Element `DBN`: alias family name.
pub struct AliasFamilyName;

impl AliasFamilyName {
    /// The definition of this element, as the registry holds it.
    pub fn data() -> (r: ElementValidationData)
        ensures
            r@ == registry()[27],
    {
        ElementValidationData {
            id: "DBN",
            alpha: true,
            numeric: true,
            special: true,
            fixed_length: false,
            length: 10,
            document_type: DocumentType::Both,
        }
    }
}

/// Element `DBG`: alias given name.
pub struct AliasGivenName;

impl AliasGivenName {
    /// The definition of this element, as the registry holds it.
    pub fn data() -> (r: ElementValidationData)
        ensures
            r@ == registry()[28],
    {
        ElementValidationData {
            id: "DBG",
            alpha: true,
            numeric: true,
            special: true,
            fixed_length: false,
            length: 15,
            document_type: DocumentType::Both,
        }
    }
}

/// Element `DBS`: alias suffix name.
pub struct AliasSuffixName;

impl AliasSuffixName {
    /// The definition of this element, as the registry holds it.
    pub fn data() -> (r: ElementValidationData)
        ensures
            r@ == registry()[29],
    {
        ElementValidationData {
            id: "DBS",
            alpha: true,
            numeric: true,
            special: true,
            fixed_length: false,
            length: 5,
            document_type: DocumentType::Both,
        }
    }
}

/// Element `DCU`: name suffix.
pub struct NameSuffix;

impl NameSuffix {
    /// The definition of this element, as the registry holds it.
    pub fn data() -> (r: ElementValidationData)
        ensures
            r@ == registry()[30],
    {
        ElementValidationData {
            id: "DCU",
            alpha: true,
            numeric: true,
            special: true,
            fixed_length: false,
            length: 5,
            document_type: DocumentType::Both,
        }
    }
}

/// Element `DCE`: weight range.
pub struct PhysicalDescriptionWeightRange;

impl PhysicalDescriptionWeightRange {
    /// The definition of this element, as the registry holds it.
    pub fn data() -> (r: ElementValidationData)
        ensures
            r@ == registry()[31],
    {
        ElementValidationData {
            id: "DCE",
            alpha: false,
            numeric: true,
            special: false,
            fixed_length: true,
            length: 1,
            document_type: DocumentType::Both,
        }
    }
}

/// Element `DCL`: race or ethnicity.
pub struct RaceEthnicity;

impl RaceEthnicity {
    /// The definition of this element, as the registry holds it.
    pub fn data() -> (r: ElementValidationData)
        ensures
            r@ == registry()[32],
    {
        ElementValidationData {
            id: "DCL",
            alpha: true,
            numeric: false,
            special: false,
            fixed_length: false,
            length: 3,
            document_type: DocumentType::Both,
        }
    }
}

/// Element `DCM`: standard vehicle classification.
pub struct StandardVehicleClassification;

impl StandardVehicleClassification {
    /// The definition of this element, as the registry holds it.
    pub fn data() -> (r: ElementValidationData)
        ensures
            r@ == registry()[33],
    {
        ElementValidationData {
            id: "DCM",
            alpha: true,
            numeric: true,
            special: false,
            fixed_length: true,
            length: 4,
            document_type: DocumentType::DL,
        }
    }
}

/// Element `DCN`: standard endorsement code.
pub struct StandardEndorsementCode;

impl StandardEndorsementCode {
    /// The definition of this element, as the registry holds it.
    pub fn data() -> (r: ElementValidationData)
        ensures
            r@ == registry()[34],
    {
        ElementValidationData {
            id: "DCN",
            alpha: true,
            numeric: true,
            special: false,
            fixed_length: true,
            length: 5,
            document_type: DocumentType::DL,
        }
    }
}

/// Element `DCO`: standard restriction code.
pub struct StandardRestrictionCode;

impl StandardRestrictionCode {
    /// The definition of this element, as the registry holds it.
    pub fn data() -> (r: ElementValidationData)
        ensures
            r@ == registry()[35],
    {
        ElementValidationData {
            id: "DCO",
            alpha: true,
            numeric: true,
            special: false,
            fixed_length: true,
            length: 12,
            document_type: DocumentType::DL,
        }
    }
}

/// Element `DCP`: jurisdiction specific vehicle classification description.
pub struct JurisdictionSpecificVehicleClassificationDescription;

impl JurisdictionSpecificVehicleClassificationDescription {
    /// The definition of this element, as the registry holds it.
    pub fn data() -> (r: ElementValidationData)
        ensures
            r@ == registry()[36],
    {
        ElementValidationData {
            id: "DCP",
            alpha: true,
            numeric: true,
            special: true,
            fixed_length: false,
            length: 50,
            document_type: DocumentType::DL,
        }
    }
}

/// Element `DCQ`: jurisdiction specific endorsement code description.
pub struct JurisdictionSpecificEndorsementCodeDescription;

impl JurisdictionSpecificEndorsementCodeDescription {
    /// The definition of this element, as the registry holds it.
    pub fn data() -> (r: ElementValidationData)
        ensures
            r@ == registry()[37],
    {
        ElementValidationData {
            id: "DCQ",
            alpha: true,
            numeric: true,
            special: true,
            fixed_length: false,
            length: 50,
            document_type: DocumentType::DL,
        }
    }
}

/// Element `DCR`: jurisdiction specific restriction code description.
pub struct JurisdictionSpecificRestrictionCodeDescription;

impl JurisdictionSpecificRestrictionCodeDescription {
    /// The definition of this element, as the registry holds it.
    pub fn data() -> (r: ElementValidationData)
        ensures
            r@ == registry()[38],
    {
        ElementValidationData {
            id: "DCR",
            alpha: true,
            numeric: true,
            special: true,
            fixed_length: false,
            length: 50,
            document_type: DocumentType::DL,
        }
    }
}

/// Element `DDA`: DHS compliance type.
pub struct DHSComplianceType;

impl DHSComplianceType {
    /// The definition of this element, as the registry holds it.
    pub fn data() -> (r: ElementValidationData)
        ensures
            r@ == registry()[39],
    {
        ElementValidationData {
            id: "DDA",
            alpha: true,
            numeric: false,
            special: false,
            fixed_length: true,
            length: 1,
            document_type: DocumentType::Both,
        }
    }
}

/// Element `DDB`: DHS card revision date.
pub struct DHSCardRevisionDate;

impl DHSCardRevisionDate {
    /// The definition of this element, as the registry holds it.
    pub fn data() -> (r: ElementValidationData)
        ensures
            r@ == registry()[40],
    {
        ElementValidationData {
            id: "DDB",
            alpha: false,
            numeric: true,
            special: false,
            fixed_length: true,
            length: 8,
            document_type: DocumentType::Both,
        }
    }
}

/// Element `DDC`: HAZMAT endorsement expiration date.
pub struct HAZMATEndorcementExpirationDate;

impl HAZMATEndorcementExpirationDate {
    /// The definition of this element, as the registry holds it.
    pub fn data() -> (r: ElementValidationData)
        ensures
            r@ == registry()[41],
    {
        ElementValidationData {
            id: "DDC",
            alpha: false,
            numeric: true,
            special: false,
            fixed_length: true,
            length: 8,
            document_type: DocumentType::DL,
        }
    }
}

/// Element `DDD`: limited duration document indicator.
pub struct LimitedDurationDocumentIndicator;

impl LimitedDurationDocumentIndicator {
    /// The definition of this element, as the registry holds it.
    pub fn data() -> (r: ElementValidationData)
        ensures
            r@ == registry()[42],
    {
        ElementValidationData {
            id: "DDD",
            alpha: false,
            numeric: true,
            special: false,
            fixed_length: true,
            length: 1,
            document_type: DocumentType::Both,
        }
    }
}

/// Element `DAW`: weight pounds.
pub struct WeightPounds;

impl WeightPounds {
    /// The definition of this element, as the registry holds it.
    pub fn data() -> (r: ElementValidationData)
        ensures
            r@ == registry()[43],
    {
        ElementValidationData {
            id: "DAW",
            alpha: false,
            numeric: true,
            special: false,
            fixed_length: true,
            length: 3,
            document_type: DocumentType::Both,
        }
    }
}

/// Element `DAX`: weight kilograms.
pub struct WeightKilograms;

impl WeightKilograms {
    /// The definition of this element, as the registry holds it.
    pub fn data() -> (r: ElementValidationData)
        ensures
            r@ == registry()[44],
    {
        ElementValidationData {
            id: "DAX",
            alpha: false,
            numeric: true,
            special: false,
            fixed_length: true,
            length: 3,
            document_type: DocumentType::Both,
        }
    }
}

/// Element `DDH`: date until which the holder is under 18.
pub struct Under18Until;

impl Under18Until {
    /// The definition of this element, as the registry holds it.
    pub fn data() -> (r: ElementValidationData)
        ensures
            r@ == registry()[45],
    {
        ElementValidationData {
            id: "DDH",
            alpha: false,
            numeric: true,
            special: false,
            fixed_length: true,
            length: 8,
            document_type: DocumentType::Both,
        }
    }
}

/// Element `DDI`: date until which the holder is under 19.
pub struct Under19Until;

impl Under19Until {
    /// The definition of this element, as the registry holds it.
    pub fn data() -> (r: ElementValidationData)
        ensures
            r@ == registry()[46],
    {
        ElementValidationData {
            id: "DDI",
            alpha: false,
            numeric: true,
            special: false,
            fixed_length: true,
            length: 8,
            document_type: DocumentType::Both,
        }
    }
}

/// Element `DDJ`: date until which the holder is under 21.
pub struct Under21Until;

impl Under21Until {
    /// The definition of this element, as the registry holds it.
    pub fn data() -> (r: ElementValidationData)
        ensures
            r@ == registry()[47],
    {
        ElementValidationData {
            id: "DDJ",
            alpha: false,
            numeric: true,
            special: false,
            fixed_length: true,
            length: 8,
            document_type: DocumentType::Both,
        }
    }
}

/// Element `DDK`: organ donor indicator.
pub struct OrganDonorIndicator;

impl OrganDonorIndicator {
    /// The definition of this element, as the registry holds it.
    pub fn data() -> (r: ElementValidationData)
        ensures
            r@ == registry()[48],
    {
        ElementValidationData {
            id: "DDK",
            alpha: false,
            numeric: true,
            special: false,
            fixed_length: true,
            length: 1,
            document_type: DocumentType::Both,
        }
    }
}

/// Element `DDL`: veteran indicator.
pub struct VeteranIndicator;

impl VeteranIndicator {
    /// The definition of this element, as the registry holds it.
    pub fn data() -> (r: ElementValidationData)
        ensures
            r@ == registry()[49],
    {
        ElementValidationData {
            id: "DDL",
            alpha: false,
            numeric: true,
            special: false,
            fixed_length: true,
            length: 1,
            document_type: DocumentType::Both,
        }
    }
}
} // verus!
