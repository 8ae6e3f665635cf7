//! The document assembler: frames a payload into its header and element
//! lines, reports unknown elements, and fills a record shape from the lines.
use vstd::prelude::*;

use crate::elements::{
    AddressCity, AddressJurisdictionCode, AddressPostalCode, AddressStreet1, AddressStreet2,
    AliasFamilyName, AliasGivenName, AliasSuffixName, AuditInformation, CountryIdentification,
    CustomerFamilyName, CustomerFirstName, CustomerIdNumber, CustomerMiddleNames,
    DHSCardRevisionDate, DHSComplianceType, DateOfBirth, DocumentDescriminator,
    DocumentExpirationDate, DocumentIssueDate, FamilyNameTruncation, FirstNameTruncation,
    HAZMATEndorcementExpirationDate, HairColor, InventoryControlNumber,
    JurisdictionSpecificEndorsementCodeDescription, JurisdictionSpecificEndorsementCodes,
    JurisdictionSpecificRestrictionCodeDescription, JurisdictionSpecificRestrictionCodes,
    JurisdictionSpecificVehicleClass, JurisdictionSpecificVehicleClassificationDescription,
    LimitedDurationDocumentIndicator, MiddleNameTruncation, NameSuffix, OrganDonorIndicator,
    PhysicalDescriptionEyeColor, PhysicalDescriptionHeight, PhysicalDescriptionSex,
    PhysicalDescriptionWeightRange, PlaceOfBirth, RaceEthnicity, StandardEndorsementCode,
    StandardRestrictionCode, StandardVehicleClassification, Under18Until, Under19Until,
    Under21Until, VeteranIndicator, WeightKilograms, WeightPounds,
};
use crate::elements::{
    element_value, line_id, line_value, recognized, registry, split_at_id, DocumentType,
    ElementDefinition, ElementRegistry,
};
use crate::error::{result_view, Error, ErrorView};
use crate::header::{header_of, Header, HeaderView};
use crate::text::{split_lines, split_on};

verus! {

/// The line every payload opens with.
pub open spec fn marker_line() -> Seq<char> {
    seq!['@']
}

/// The header line of a payload split into lines; empty when there is none.
pub open spec fn header_line(lines: Seq<Seq<char>>) -> Seq<char> {
    if lines.len() >= 2 {
        lines[1]
    } else {
        Seq::<char>::empty()
    }
}

/// A payload framed into its header and the element lines after it.
pub open spec fn frame(file: Seq<char>) -> Result<(HeaderView, Seq<Seq<char>>), ErrorView> {
    let lines = split_on(file, '\n');
    if lines[0] != marker_line() {
        Err(ErrorView::NonCompliance)
    } else {
        match header_of(header_line(lines)) {
            Ok(h) => Ok((h, lines.skip(2))),
            Err(e) => Err(e),
        }
    }
}

/// Whether an element of type `t` belongs on a record of shape `shape`.
pub open spec fn applies_to(t: DocumentType, shape: DocumentType) -> bool {
    t == DocumentType::Both || t == shape
}

/// The fields of a record of shape `shape` assembled from `lines`, in
/// registry order: the value of each element the shape holds, and `None`
/// for every other.
pub open spec fn assembled(shape: DocumentType, lines: Seq<Seq<char>>) -> Seq<Option<Seq<char>>> {
    registry().map_values(
        |d: ElementDefinition|
            if applies_to(d.document_type, shape) {
                element_value(lines, d.id)
            } else {
                None
            },
    )
}

/// What decoding `file` into a record of shape `shape` gives.
pub open spec fn decode(shape: DocumentType, file: Seq<char>) -> Result<
    (HeaderView, Seq<Option<Seq<char>>>),
    ErrorView,
> {
    match frame(file) {
        Ok((h, lines)) => Ok((h, assembled(shape, lines))),
        Err(e) => Err(e),
    }
}

/// Splits a payload into lines, checks the marker line, decodes the header
/// line, and returns the header with the element lines that follow it.
pub fn get_header_and_lines(file: String) -> (r: Result<(Header, Vec<String>), Error>)
    ensures
        match frame(file@) {
            Ok((h, lines)) => r is Ok && r->Ok_0.0@ == h && r->Ok_0.1.deep_view() == lines,
            Err(e) => r is Err && r->Err_0@ == e,
        },
{
    let mut lines = split_lines(file.as_str());
    let ghost all = lines.deep_view();
    proof {
        crate::text::lemma_split_nonempty(file@, '\n');
        assert(lines[0]@ == all[0]);
    }
    let marker = String::from_str("@");
    proof {
        reveal_strlit("@");
        assert(marker@ =~= marker_line());
    }
    if !(lines[0] == marker) {
        return Err(Error::NonCompliance);
    }
    lines.remove(0);
    let headline = if lines.len() > 0 {
        lines.remove(0)
    } else {
        String::new()
    };
    proof {
        if all.len() >= 2 {
            assert(headline@ == all[1]);
            assert(lines.deep_view() =~= all.skip(2));
        } else {
            assert(headline@ =~= header_line(all));
        }
    }
    match Header::from(headline) {
        Ok(header) => Ok((header, lines)),
        Err(e) => Err(e),
    }
}

/// An element line whose identifier no definition matches.
#[derive(Debug)]
pub struct UnknownElement {
    pub identifier: String,
    pub value: String,
}

impl View for UnknownElement {
    type V = (Seq<char>, Seq<char>);

    open spec fn view(&self) -> (Seq<char>, Seq<char>) {
        (self.identifier@, self.value@)
    }
}

/// The identifier and value of each line of `lines` that no definition of
/// `defs` matches, in line order.
pub open spec fn unrecognized(defs: Seq<ElementDefinition>, lines: Seq<Seq<char>>) -> Seq<
    (Seq<char>, Seq<char>),
>
    decreases lines.len(),
{
    if lines.len() == 0 {
        Seq::empty()
    } else if recognized(defs, lines.last()) {
        unrecognized(defs, lines.drop_last())
    } else {
        unrecognized(defs, lines.drop_last()).push((line_id(lines.last()), line_value(lines.last())))
    }
}

/// The element lines that the registry does not know, as diagnostics. They
/// never stop a decode.
pub fn unknown_elements(registry: &ElementRegistry, lines: &Vec<String>) -> (r: Vec<UnknownElement>)
    ensures
        r@.map_values(|u: UnknownElement| u@) == unrecognized(registry@, lines.deep_view()),
{
    let ghost ls = lines.deep_view();
    let mut found: Vec<UnknownElement> = Vec::new();
    let mut i: usize = 0;
    proof {
        assert(ls.take(0) =~= Seq::<Seq<char>>::empty());
        assert(found@.map_values(|u: UnknownElement| u@) =~= unrecognized(registry@, ls.take(0)));
    }
    while i < lines.len()
        invariant
            i <= lines.len(),
            ls == lines.deep_view(),
            found@.map_values(|u: UnknownElement| u@) == unrecognized(registry@, ls.take(i as int)),
        decreases lines.len() - i,
    {
        proof {
            assert(ls.take(i + 1).drop_last() =~= ls.take(i as int));
            assert(ls.take(i + 1).last() == lines[i as int]@);
        }
        if !registry.recognizes(&lines[i]) {
            let (identifier, value) = split_at_id(&lines[i]);
            let ghost before = found@;
            found.push(UnknownElement { identifier, value });
            proof {
                assert(found@.map_values(|u: UnknownElement| u@) =~= before.map_values(
                    |u: UnknownElement| u@,
                ).push((line_id(ls[i as int]), line_value(ls[i as int]))));
            }
        }
        i = i + 1;
    }
    proof {
        assert(ls.take(i as int) =~= ls);
    }
    found
}

/// A decoded drivers license. Every field is optional: it is present only
/// when a line carried its element.
#[derive(Debug)]
pub struct DriversLicense {
    /// Element `DCA`.
    pub jurisdiction_specific_vehicle_class: Option<String>,
    /// Element `DCB`.
    pub jurisdiction_specific_restriction_codes: Option<String>,
    /// Element `DCD`.
    pub jurisdiction_specific_endorsement_codes: Option<String>,
    /// Element `DBA`.
    pub document_expiration_date: Option<String>,
    /// Element `DCS`.
    pub customer_family_name: Option<String>,
    /// Element `DAC`.
    pub customer_first_name: Option<String>,
    /// Element `DBD`.
    pub document_issue_date: Option<String>,
    /// Element `DAD`.
    pub customer_middle_names: Option<String>,
    /// Element `DBB`.
    pub date_of_birth: Option<String>,
    /// Element `DBC`.
    pub physical_description_sex: Option<String>,
    /// Element `DAY`.
    pub physical_description_eye_color: Option<String>,
    /// Element `DAU`.
    pub physical_description_height: Option<String>,
    /// Element `DAG`.
    pub address_street_1: Option<String>,
    /// Element `DAI`.
    pub address_city: Option<String>,
    /// Element `DAJ`.
    pub address_jurisdiction_code: Option<String>,
    /// Element `DAK`.
    pub address_postal_code: Option<String>,
    /// Element `DAQ`.
    pub customer_id_number: Option<String>,
    /// Element `DCF`.
    pub document_descriminator: Option<String>,
    /// Element `DCG`.
    pub country_identification: Option<String>,
    /// Element `DDE`.
    pub family_name_truncation: Option<String>,
    /// Element `DDF`.
    pub first_name_truncation: Option<String>,
    /// Element `DDG`.
    pub middle_name_truncation: Option<String>,
    /// Element `DAH`.
    pub address_street_2: Option<String>,
    /// Element `DAZ`.
    pub hair_color: Option<String>,
    /// Element `DCI`.
    pub place_of_birth: Option<String>,
    /// Element `DCJ`.
    pub audit_information: Option<String>,
    /// Element `DCK`.
    pub inventory_control_number: Option<String>,
    /// Element `DBN`.
    pub alias_family_name: Option<String>,
    /// Element `DBG`.
    pub alias_given_name: Option<String>,
    /// Element `DBS`.
    pub alias_suffix_name: Option<String>,
    /// Element `DCU`.
    pub name_suffix: Option<String>,
    /// Element `DCE`.
    pub physical_description_weight_range: Option<String>,
    /// Element `DCL`.
    pub race_ethnicity: Option<String>,
    /// Element `DCM`.
    pub standard_vehicle_classification: Option<String>,
    /// Element `DCN`.
    pub standard_endorsement_code: Option<String>,
    /// Element `DCO`.
    pub standard_restriction_code: Option<String>,
    /// Element `DCP`.
    pub jurisdiction_vehicle_classification_description: Option<String>,
    /// Element `DCQ`.
    pub jurisdiction_specific_edorsement_code_description: Option<String>,
    /// Element `DCR`.
    pub jurisdiction_specific_restriction_code_description: Option<String>,
    /// Element `DDA`.
    pub compliance_type: Option<String>,
    /// Element `DDB`.
    pub card_revision_date: Option<String>,
    /// Element `DDC`.
    pub hazmat_endorsement_expiration: Option<String>,
    /// Element `DDD`.
    pub limited_duration_document_indicator: Option<String>,
    /// Element `DAW`.
    pub weight_pounds: Option<String>,
    /// Element `DAX`.
    pub weight_kilograms: Option<String>,
    /// Element `DDH`.
    pub under_18_until: Option<String>,
    /// Element `DDI`.
    pub under_19_until: Option<String>,
    /// Element `DDJ`.
    pub under_21_until: Option<String>,
    /// Element `DDK`.
    pub organ_donor_indicator: Option<String>,
    /// Element `DDL`.
    pub veteran_indicator: Option<String>,
}

impl View for DriversLicense {
    type V = Seq<Option<Seq<char>>>;

    /// The fields in registry order; an element the shape does not hold is `None`.
    open spec fn view(&self) -> Seq<Option<Seq<char>>> {
        seq![
            self.jurisdiction_specific_vehicle_class.deep_view(),
            self.jurisdiction_specific_restriction_codes.deep_view(),
            self.jurisdiction_specific_endorsement_codes.deep_view(),
            self.document_expiration_date.deep_view(),
            self.customer_family_name.deep_view(),
            self.customer_first_name.deep_view(),
            self.customer_middle_names.deep_view(),
            self.document_issue_date.deep_view(),
            self.date_of_birth.deep_view(),
            self.physical_description_sex.deep_view(),
            self.physical_description_eye_color.deep_view(),
            self.physical_description_height.deep_view(),
            self.address_street_1.deep_view(),
            self.address_city.deep_view(),
            self.address_jurisdiction_code.deep_view(),
            self.address_postal_code.deep_view(),
            self.customer_id_number.deep_view(),
            self.document_descriminator.deep_view(),
            self.country_identification.deep_view(),
            self.family_name_truncation.deep_view(),
            self.first_name_truncation.deep_view(),
            self.middle_name_truncation.deep_view(),
            self.address_street_2.deep_view(),
            self.hair_color.deep_view(),
            self.place_of_birth.deep_view(),
            self.audit_information.deep_view(),
            self.inventory_control_number.deep_view(),
            self.alias_family_name.deep_view(),
            self.alias_given_name.deep_view(),
            self.alias_suffix_name.deep_view(),
            self.name_suffix.deep_view(),
            self.physical_description_weight_range.deep_view(),
            self.race_ethnicity.deep_view(),
            self.standard_vehicle_classification.deep_view(),
            self.standard_endorsement_code.deep_view(),
            self.standard_restriction_code.deep_view(),
            self.jurisdiction_vehicle_classification_description.deep_view(),
            self.jurisdiction_specific_edorsement_code_description.deep_view(),
            self.jurisdiction_specific_restriction_code_description.deep_view(),
            self.compliance_type.deep_view(),
            self.card_revision_date.deep_view(),
            self.hazmat_endorsement_expiration.deep_view(),
            self.limited_duration_document_indicator.deep_view(),
            self.weight_pounds.deep_view(),
            self.weight_kilograms.deep_view(),
            self.under_18_until.deep_view(),
            self.under_19_until.deep_view(),
            self.under_21_until.deep_view(),
            self.organ_donor_indicator.deep_view(),
            self.veteran_indicator.deep_view(),
        ]
    }
}

impl DriversLicense {
    /// Assembles the record from the element lines that follow the header:
    /// each field holds the padding-stripped value of the first line that
    /// carries its element, or `None` when no line does.
    pub fn from_lines(lines: &Vec<String>) -> (r: DriversLicense)
        ensures
            r@ == assembled(DocumentType::DL, lines.deep_view()),
    {
        let r = DriversLicense {
            jurisdiction_specific_vehicle_class: JurisdictionSpecificVehicleClass::data().no_error_find_in_lines(lines),
            jurisdiction_specific_restriction_codes: JurisdictionSpecificRestrictionCodes::data().no_error_find_in_lines(lines),
            jurisdiction_specific_endorsement_codes: JurisdictionSpecificEndorsementCodes::data().no_error_find_in_lines(lines),
            document_expiration_date: DocumentExpirationDate::data().no_error_find_in_lines(lines),
            customer_family_name: CustomerFamilyName::data().no_error_find_in_lines(lines),
            customer_first_name: CustomerFirstName::data().no_error_find_in_lines(lines),
            document_issue_date: DocumentIssueDate::data().no_error_find_in_lines(lines),
            customer_middle_names: CustomerMiddleNames::data().no_error_find_in_lines(lines),
            date_of_birth: DateOfBirth::data().no_error_find_in_lines(lines),
            physical_description_sex: PhysicalDescriptionSex::data().no_error_find_in_lines(lines),
            physical_description_eye_color: PhysicalDescriptionEyeColor::data().no_error_find_in_lines(lines),
            physical_description_height: PhysicalDescriptionHeight::data().no_error_find_in_lines(lines),
            address_street_1: AddressStreet1::data().no_error_find_in_lines(lines),
            address_city: AddressCity::data().no_error_find_in_lines(lines),
            address_jurisdiction_code: AddressJurisdictionCode::data().no_error_find_in_lines(lines),
            address_postal_code: AddressPostalCode::data().no_error_find_in_lines(lines),
            customer_id_number: CustomerIdNumber::data().no_error_find_in_lines(lines),
            document_descriminator: DocumentDescriminator::data().no_error_find_in_lines(lines),
            country_identification: CountryIdentification::data().no_error_find_in_lines(lines),
            family_name_truncation: FamilyNameTruncation::data().no_error_find_in_lines(lines),
            first_name_truncation: FirstNameTruncation::data().no_error_find_in_lines(lines),
            middle_name_truncation: MiddleNameTruncation::data().no_error_find_in_lines(lines),
            address_street_2: AddressStreet2::data().no_error_find_in_lines(lines),
            hair_color: HairColor::data().no_error_find_in_lines(lines),
            place_of_birth: PlaceOfBirth::data().no_error_find_in_lines(lines),
            audit_information: AuditInformation::data().no_error_find_in_lines(lines),
            inventory_control_number: InventoryControlNumber::data().no_error_find_in_lines(lines),
            alias_family_name: AliasFamilyName::data().no_error_find_in_lines(lines),
            alias_given_name: AliasGivenName::data().no_error_find_in_lines(lines),
            alias_suffix_name: AliasSuffixName::data().no_error_find_in_lines(lines),
            name_suffix: NameSuffix::data().no_error_find_in_lines(lines),
            physical_description_weight_range: PhysicalDescriptionWeightRange::data().no_error_find_in_lines(lines),
            race_ethnicity: RaceEthnicity::data().no_error_find_in_lines(lines),
            standard_vehicle_classification: StandardVehicleClassification::data().no_error_find_in_lines(lines),
            standard_endorsement_code: StandardEndorsementCode::data().no_error_find_in_lines(lines),
            standard_restriction_code: StandardRestrictionCode::data().no_error_find_in_lines(lines),
            jurisdiction_vehicle_classification_description: JurisdictionSpecificVehicleClassificationDescription::data().no_error_find_in_lines(lines),
            jurisdiction_specific_edorsement_code_description: JurisdictionSpecificEndorsementCodeDescription::data().no_error_find_in_lines(lines),
            jurisdiction_specific_restriction_code_description: JurisdictionSpecificRestrictionCodeDescription::data().no_error_find_in_lines(lines),
            compliance_type: DHSComplianceType::data().no_error_find_in_lines(lines),
            card_revision_date: DHSCardRevisionDate::data().no_error_find_in_lines(lines),
            hazmat_endorsement_expiration: HAZMATEndorcementExpirationDate::data().no_error_find_in_lines(lines),
            limited_duration_document_indicator: LimitedDurationDocumentIndicator::data().no_error_find_in_lines(lines),
            weight_pounds: WeightPounds::data().no_error_find_in_lines(lines),
            weight_kilograms: WeightKilograms::data().no_error_find_in_lines(lines),
            under_18_until: Under18Until::data().no_error_find_in_lines(lines),
            under_19_until: Under19Until::data().no_error_find_in_lines(lines),
            under_21_until: Under21Until::data().no_error_find_in_lines(lines),
            organ_donor_indicator: OrganDonorIndicator::data().no_error_find_in_lines(lines),
            veteran_indicator: VeteranIndicator::data().no_error_find_in_lines(lines),
        };
        assert(r@ =~= assembled(DocumentType::DL, lines.deep_view()));
        r
    }

    /// Decodes a whole payload: the marker and header lines, then the record.
    pub fn new(file: String) -> (r: Result<(Header, DriversLicense), Error>)
        ensures
            result_view(r) == decode(DocumentType::DL, file@),
    {
        match get_header_and_lines(file) {
            Ok((header, lines)) => Ok((header, DriversLicense::from_lines(&lines))),
            Err(e) => Err(e),
        }
    }
}

/// A decoded identification card. It holds no drivers-license-only element.
#[derive(Debug)]
pub struct IdentificationCard {
    /// Element `DBA`.
    pub document_expiration_date: Option<String>,
    /// Element `DCS`.
    pub customer_family_name: Option<String>,
    /// Element `DAC`.
    pub customer_first_name: Option<String>,
    /// Element `DBD`.
    pub document_issue_date: Option<String>,
    /// Element `DAD`.
    pub customer_middle_names: Option<String>,
    /// Element `DBB`.
    pub date_of_birth: Option<String>,
    /// Element `DBC`.
    pub physical_description_sex: Option<String>,
    /// Element `DAY`.
    pub physical_description_eye_color: Option<String>,
    /// Element `DAU`.
    pub physical_description_height: Option<String>,
    /// Element `DAG`.
    pub address_street_1: Option<String>,
    /// Element `DAI`.
    pub address_city: Option<String>,
    /// Element `DAJ`.
    pub address_jurisdiction_code: Option<String>,
    /// Element `DAK`.
    pub address_postal_code: Option<String>,
    /// Element `DAQ`.
    pub customer_id_number: Option<String>,
    /// Element `DCF`.
    pub document_descriminator: Option<String>,
    /// Element `DCG`.
    pub country_identification: Option<String>,
    /// Element `DDE`.
    pub family_name_truncation: Option<String>,
    /// Element `DDF`.
    pub first_name_truncation: Option<String>,
    /// Element `DDG`.
    pub middle_name_truncation: Option<String>,
    /// Element `DAH`.
    pub address_street_2: Option<String>,
    /// Element `DAZ`.
    pub hair_color: Option<String>,
    /// Element `DCI`.
    pub place_of_birth: Option<String>,
    /// Element `DCJ`.
    pub audit_information: Option<String>,
    /// Element `DCK`.
    pub inventory_control_number: Option<String>,
    /// Element `DBN`.
    pub alias_family_name: Option<String>,
    /// Element `DBG`.
    pub alias_given_name: Option<String>,
    /// Element `DBS`.
    pub alias_suffix_name: Option<String>,
    /// Element `DCU`.
    pub name_suffix: Option<String>,
    /// Element `DCE`.
    pub physical_description_weight_range: Option<String>,
    /// Element `DCL`.
    pub race_ethnicity: Option<String>,
    /// Element `DDA`.
    pub compliance_type: Option<String>,
    /// Element `DDB`.
    pub card_revision_date: Option<String>,
    /// Element `DDD`.
    pub limited_duration_document_indicator: Option<String>,
    /// Element `DAW`.
    pub weight_pounds: Option<String>,
    /// Element `DAX`.
    pub weight_kilograms: Option<String>,
    /// Element `DDH`.
    pub under_18_until: Option<String>,
    /// Element `DDI`.
    pub under_19_until: Option<String>,
    /// Element `DDJ`.
    pub under_21_until: Option<String>,
    /// Element `DDK`.
    pub organ_donor_indicator: Option<String>,
    /// Element `DDL`.
    pub veteran_indicator: Option<String>,
}

impl View for IdentificationCard {
    type V = Seq<Option<Seq<char>>>;

    /// The fields in registry order; an element the shape does not hold is `None`.
    open spec fn view(&self) -> Seq<Option<Seq<char>>> {
        seq![
            None,
            None,
            None,
            self.document_expiration_date.deep_view(),
            self.customer_family_name.deep_view(),
            self.customer_first_name.deep_view(),
            self.customer_middle_names.deep_view(),
            self.document_issue_date.deep_view(),
            self.date_of_birth.deep_view(),
            self.physical_description_sex.deep_view(),
            self.physical_description_eye_color.deep_view(),
            self.physical_description_height.deep_view(),
            self.address_street_1.deep_view(),
            self.address_city.deep_view(),
            self.address_jurisdiction_code.deep_view(),
            self.address_postal_code.deep_view(),
            self.customer_id_number.deep_view(),
            self.document_descriminator.deep_view(),
            self.country_identification.deep_view(),
            self.family_name_truncation.deep_view(),
            self.first_name_truncation.deep_view(),
            self.middle_name_truncation.deep_view(),
            self.address_street_2.deep_view(),
            self.hair_color.deep_view(),
            self.place_of_birth.deep_view(),
            self.audit_information.deep_view(),
            self.inventory_control_number.deep_view(),
            self.alias_family_name.deep_view(),
            self.alias_given_name.deep_view(),
            self.alias_suffix_name.deep_view(),
            self.name_suffix.deep_view(),
            self.physical_description_weight_range.deep_view(),
            self.race_ethnicity.deep_view(),
            None,
            None,
            None,
            None,
            None,
            None,
            self.compliance_type.deep_view(),
            self.card_revision_date.deep_view(),
            None,
            self.limited_duration_document_indicator.deep_view(),
            self.weight_pounds.deep_view(),
            self.weight_kilograms.deep_view(),
            self.under_18_until.deep_view(),
            self.under_19_until.deep_view(),
            self.under_21_until.deep_view(),
            self.organ_donor_indicator.deep_view(),
            self.veteran_indicator.deep_view(),
        ]
    }
}

impl IdentificationCard {
    /// Assembles the record from the element lines that follow the header:
    /// each field holds the padding-stripped value of the first line that
    /// carries its element, or `None` when no line does.
    pub fn from_lines(lines: &Vec<String>) -> (r: IdentificationCard)
        ensures
            r@ == assembled(DocumentType::ID, lines.deep_view()),
    {
        let r = IdentificationCard {
            document_expiration_date: DocumentExpirationDate::data().no_error_find_in_lines(lines),
            customer_family_name: CustomerFamilyName::data().no_error_find_in_lines(lines),
            customer_first_name: CustomerFirstName::data().no_error_find_in_lines(lines),
            document_issue_date: DocumentIssueDate::data().no_error_find_in_lines(lines),
            customer_middle_names: CustomerMiddleNames::data().no_error_find_in_lines(lines),
            date_of_birth: DateOfBirth::data().no_error_find_in_lines(lines),
            physical_description_sex: PhysicalDescriptionSex::data().no_error_find_in_lines(lines),
            physical_description_eye_color: PhysicalDescriptionEyeColor::data().no_error_find_in_lines(lines),
            physical_description_height: PhysicalDescriptionHeight::data().no_error_find_in_lines(lines),
            address_street_1: AddressStreet1::data().no_error_find_in_lines(lines),
            address_city: AddressCity::data().no_error_find_in_lines(lines),
            address_jurisdiction_code: AddressJurisdictionCode::data().no_error_find_in_lines(lines),
            address_postal_code: AddressPostalCode::data().no_error_find_in_lines(lines),
            customer_id_number: CustomerIdNumber::data().no_error_find_in_lines(lines),
            document_descriminator: DocumentDescriminator::data().no_error_find_in_lines(lines),
            country_identification: CountryIdentification::data().no_error_find_in_lines(lines),
            family_name_truncation: FamilyNameTruncation::data().no_error_find_in_lines(lines),
            first_name_truncation: FirstNameTruncation::data().no_error_find_in_lines(lines),
            middle_name_truncation: MiddleNameTruncation::data().no_error_find_in_lines(lines),
            address_street_2: AddressStreet2::data().no_error_find_in_lines(lines),
            hair_color: HairColor::data().no_error_find_in_lines(lines),
            place_of_birth: PlaceOfBirth::data().no_error_find_in_lines(lines),
            audit_information: AuditInformation::data().no_error_find_in_lines(lines),
            inventory_control_number: InventoryControlNumber::data().no_error_find_in_lines(lines),
            alias_family_name: AliasFamilyName::data().no_error_find_in_lines(lines),
            alias_given_name: AliasGivenName::data().no_error_find_in_lines(lines),
            alias_suffix_name: AliasSuffixName::data().no_error_find_in_lines(lines),
            name_suffix: NameSuffix::data().no_error_find_in_lines(lines),
            physical_description_weight_range: PhysicalDescriptionWeightRange::data().no_error_find_in_lines(lines),
            race_ethnicity: RaceEthnicity::data().no_error_find_in_lines(lines),
            compliance_type: DHSComplianceType::data().no_error_find_in_lines(lines),
            card_revision_date: DHSCardRevisionDate::data().no_error_find_in_lines(lines),
            limited_duration_document_indicator: LimitedDurationDocumentIndicator::data().no_error_find_in_lines(lines),
            weight_pounds: WeightPounds::data().no_error_find_in_lines(lines),
            weight_kilograms: WeightKilograms::data().no_error_find_in_lines(lines),
            under_18_until: Under18Until::data().no_error_find_in_lines(lines),
            under_19_until: Under19Until::data().no_error_find_in_lines(lines),
            under_21_until: Under21Until::data().no_error_find_in_lines(lines),
            organ_donor_indicator: OrganDonorIndicator::data().no_error_find_in_lines(lines),
            veteran_indicator: VeteranIndicator::data().no_error_find_in_lines(lines),
        };
        assert(r@ =~= assembled(DocumentType::ID, lines.deep_view()));
        r
    }

    /// Decodes a whole payload: the marker and header lines, then the record.
    pub fn new(file: String) -> (r: Result<(Header, IdentificationCard), Error>)
        ensures
            result_view(r) == decode(DocumentType::ID, file@),
    {
        match get_header_and_lines(file) {
            Ok((header, lines)) => Ok((header, IdentificationCard::from_lines(&lines))),
            Err(e) => Err(e),
        }
    }
}
} // verus!
