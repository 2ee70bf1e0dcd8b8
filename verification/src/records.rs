//! The record types of the extract file and the output document.
//!
//! All text fields are decoded character vectors; each type has a ghost
//! view whose fields are character sequences.

use vstd::prelude::*;

verus! {

/// A municipality-level name record (tag `KG`), at one of four
/// granularities told apart by `kind`.
#[derive(PartialEq, Eq, Debug)]
pub struct MunicipalityRecord {
    pub code: Vec<char>,
    pub kind: Vec<char>,
    pub name: Vec<char>,
}

pub struct MunicipalityRecordV {
    pub code: Seq<char>,
    pub kind: Seq<char>,
    pub name: Seq<char>,
}

impl View for MunicipalityRecord {
    type V = MunicipalityRecordV;

    open spec fn view(&self) -> MunicipalityRecordV {
        MunicipalityRecordV { code: self.code@, kind: self.kind@, name: self.name@ }
    }
}

/// A locality record (tag `OR`), kept only when its status is valid.
#[derive(PartialEq, Eq, Debug)]
pub struct LocalityRecord {
    pub code: Vec<char>,
    pub status: Vec<char>,
    pub name: Vec<char>,
    pub addition: Vec<char>,
}

pub struct LocalityRecordV {
    pub code: Seq<char>,
    pub status: Seq<char>,
    pub name: Seq<char>,
    pub addition: Seq<char>,
}

impl View for LocalityRecord {
    type V = LocalityRecordV;

    open spec fn view(&self) -> LocalityRecordV {
        LocalityRecordV {
            code: self.code@,
            status: self.status@,
            name: self.name@,
            addition: self.addition@,
        }
    }
}

/// A locality-subdivision record (tag `OB`), kept only when its status is
/// valid.
#[derive(PartialEq, Eq, Debug)]
pub struct SubdivisionRecord {
    pub code: Vec<char>,
    pub subcode: Vec<char>,
    pub postal: Vec<char>,
    pub status: Vec<char>,
    pub name: Vec<char>,
}

pub struct SubdivisionRecordV {
    pub code: Seq<char>,
    pub subcode: Seq<char>,
    pub postal: Seq<char>,
    pub status: Seq<char>,
    pub name: Seq<char>,
}

impl View for SubdivisionRecord {
    type V = SubdivisionRecordV;

    open spec fn view(&self) -> SubdivisionRecordV {
        SubdivisionRecordV {
            code: self.code@,
            subcode: self.subcode@,
            postal: self.postal@,
            status: self.status@,
            name: self.name@,
        }
    }
}

/// A street record (tag `SB`), kept only when its status is valid; all
/// valid rows are kept, duplicates included.
#[derive(PartialEq, Eq, Debug)]
pub struct StreetRecord {
    pub code: Vec<char>,
    pub name: Vec<char>,
    pub postal: Vec<char>,
    pub subcode: Vec<char>,
    pub admin_chain: Vec<char>,
}

pub struct StreetRecordV {
    pub code: Seq<char>,
    pub name: Seq<char>,
    pub postal: Seq<char>,
    pub subcode: Seq<char>,
    pub admin_chain: Seq<char>,
}

impl View for StreetRecord {
    type V = StreetRecordV;

    open spec fn view(&self) -> StreetRecordV {
        StreetRecordV {
            code: self.code@,
            name: self.name@,
            postal: self.postal@,
            subcode: self.subcode@,
            admin_chain: self.admin_chain@,
        }
    }
}

/// One output document per retained street record; a missing reference at
/// any level surfaces as `None` in that field alone.
#[derive(PartialEq, Eq, Debug)]
pub struct OutputDocument {
    pub street: Vec<char>,
    pub postal_code: Vec<char>,
    pub city: Option<Vec<char>>,
    pub city_addition: Option<Vec<char>>,
    pub region: Option<Vec<char>>,
    pub community: Option<Vec<char>>,
    pub country: Option<Vec<char>>,
    pub district: Option<Vec<char>>,
    pub state: Option<Vec<char>>,
}

pub struct OutputDocumentV {
    pub street: Seq<char>,
    pub postal_code: Seq<char>,
    pub city: Option<Seq<char>>,
    pub city_addition: Option<Seq<char>>,
    pub region: Option<Seq<char>>,
    pub community: Option<Seq<char>>,
    pub country: Option<Seq<char>>,
    pub district: Option<Seq<char>>,
    pub state: Option<Seq<char>>,
}

pub open spec fn opt_view(o: Option<Vec<char>>) -> Option<Seq<char>> {
    match o {
        Some(v) => Some(v@),
        None => None,
    }
}

impl View for OutputDocument {
    type V = OutputDocumentV;

    open spec fn view(&self) -> OutputDocumentV {
        OutputDocumentV {
            street: self.street@,
            postal_code: self.postal_code@,
            city: opt_view(self.city),
            city_addition: opt_view(self.city_addition),
            region: opt_view(self.region),
            community: opt_view(self.community),
            country: opt_view(self.country),
            district: opt_view(self.district),
            state: opt_view(self.state),
        }
    }
}

} // verus!
