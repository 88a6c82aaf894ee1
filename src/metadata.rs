use vstd::prelude::*;
use crate::package::{HashAlgorithm, PackageHash, is_sha512_name};

verus! {

/// One event of a metadata document, reduced to what the scan reads.
#[derive(Debug, Clone, PartialEq, Eq)]
pub enum XmlItem {
    /// An element opens; holds its local name (no prefix).
    Start(String),
    /// Character data.
    Text(String),
    /// Any other well-formed event.
    Other,
    /// The parser stopped on malformed markup.
    Malformed,
}

/// Why a metadata document yields no digest.
#[derive(Debug, Clone, Copy, PartialEq, Eq, Structural)]
pub enum MetadataError {
    /// The document is not well-formed markup.
    Malformed,
    /// No `PackageHash` field with a text value.
    MissingHash,
    /// No `PackageHashAlgorithm` field with a text value.
    MissingAlgorithm,
}

/// The events that the markup parser produces for a document.
pub uninterp spec fn xml_items_of(text: Seq<char>) -> Seq<XmlItem>;

/// Relies on xml-rs's `EventReader` iterated to its end: the events of `text`,
/// each mapped one for one onto an `XmlItem`.
#[verifier::external_body]
fn xml_items(text: &str) -> (r: Vec<XmlItem>)
    ensures
        r@ == xml_items_of(text@),
{
    xml::EventReader::from_str(text).into_iter().map(|e| match e {
        Ok(xml::reader::XmlEvent::StartElement { name, .. }) => XmlItem::Start(name.local_name),
        Ok(xml::reader::XmlEvent::Characters(s)) => XmlItem::Text(s),
        Ok(_) => XmlItem::Other,
        Err(_) => XmlItem::Malformed,
    }).collect()
}

pub open spec fn hash_field() -> Seq<char> {
    "PackageHash"@
}

pub open spec fn algorithm_field() -> Seq<char> {
    "PackageHashAlgorithm"@
}

/// The digest fields of a document.
pub struct FieldsModel {
    pub hash: Option<Seq<char>>,
    pub algorithm: Option<Seq<char>>,
}

/// Scans `items` from `i` on, with `found` holding the fields seen before `i`.
/// A field's value is the event right after its opening; a later occurrence
/// replaces an earlier one.
pub open spec fn scan_from(items: Seq<XmlItem>, i: int, found: FieldsModel) -> Result<FieldsModel, MetadataError>
    decreases items.len() - i,
{
    if i < 0 || i >= items.len() {
        Ok(found)
    } else {
        match items[i] {
            XmlItem::Malformed => Err(MetadataError::Malformed),
            XmlItem::Start(name) => {
                if name@ == hash_field() || name@ == algorithm_field() {
                    let missing = if name@ == hash_field() {
                        MetadataError::MissingHash
                    } else {
                        MetadataError::MissingAlgorithm
                    };
                    if i + 1 >= items.len() {
                        Err(missing)
                    } else {
                        match items[i + 1] {
                            XmlItem::Text(t) => {
                                let next = if name@ == hash_field() {
                                    FieldsModel { hash: Some(t@), ..found }
                                } else {
                                    FieldsModel { algorithm: Some(t@), ..found }
                                };
                                scan_from(items, i + 2, next)
                            },
                            XmlItem::Malformed => Err(MetadataError::Malformed),
                            _ => Err(missing),
                        }
                    }
                } else {
                    scan_from(items, i + 1, found)
                }
            },
            _ => scan_from(items, i + 1, found),
        }
    }
}

/// The digest a sequence of document events reports, or why it reports none.
pub open spec fn digest_fields(items: Seq<XmlItem>) -> Result<(Seq<char>, Seq<char>), MetadataError> {
    match scan_from(items, 0, FieldsModel { hash: None, algorithm: None }) {
        Err(e) => Err(e),
        Ok(f) => match f.hash {
            None => Err(MetadataError::MissingHash),
            Some(h) => match f.algorithm {
                None => Err(MetadataError::MissingAlgorithm),
                Some(a) => Ok((h, a)),
            },
        },
    }
}

/// `r` is the package digest described by the fields `fields`.
pub open spec fn describes(r: PackageHash, fields: (Seq<char>, Seq<char>)) -> bool {
    &&& r.hash@ == fields.0
    &&& (is_sha512_name(fields.1) ==> r.algorithm is SHA512)
    &&& (!is_sha512_name(fields.1) ==> r.algorithm is Unknown && r.algorithm->Unknown_0@ == fields.1)
}

/// Finds the package digest among the events of a metadata document.
pub fn package_hash_from_items(items: &Vec<XmlItem>) -> (r: Result<PackageHash, MetadataError>)
    ensures
        match digest_fields(items@) {
            Ok(fields) => r is Ok && describes(r->Ok_0, fields),
            Err(e) => r == Err::<PackageHash, MetadataError>(e),
        },
{
    let mut hash: Option<String> = None;
    let mut algorithm: Option<String> = None;
    let mut i: usize = 0;
    let n = items.len();
    while i < n
        invariant
            n == items@.len(),
            i <= n,
            scan_from(items@, 0, FieldsModel { hash: None, algorithm: None }) == scan_from(
                items@,
                i as int,
                FieldsModel {
                    hash: match hash { Some(s) => Some(s@), None => None },
                    algorithm: match algorithm { Some(s) => Some(s@), None => None },
                },
            ),
        decreases n - i,
    {
        match &items[i] {
            XmlItem::Malformed => {
                return Err(MetadataError::Malformed);
            },
            XmlItem::Start(name) => {
                let is_hash = str_equal(name.as_str(), "PackageHash");
                let is_algorithm = str_equal(name.as_str(), "PackageHashAlgorithm");
                if is_hash || is_algorithm {
                    let missing = if is_hash {
                        MetadataError::MissingHash
                    } else {
                        MetadataError::MissingAlgorithm
                    };
                    if i + 1 >= n {
                        return Err(missing);
                    }
                    match &items[i + 1] {
                        XmlItem::Text(t) => {
                            if is_hash {
                                hash = Some(t.clone());
                            } else {
                                algorithm = Some(t.clone());
                            }
                        },
                        XmlItem::Malformed => {
                            return Err(MetadataError::Malformed);
                        },
                        _ => {
                            return Err(missing);
                        },
                    }
                    i = i + 2;
                } else {
                    i = i + 1;
                }
            },
            _ => {
                i = i + 1;
            },
        }
    }
    match hash {
        None => Err(MetadataError::MissingHash),
        Some(h) => match algorithm {
            None => Err(MetadataError::MissingAlgorithm),
            Some(a) => Ok(PackageHash { hash: h, algorithm: HashAlgorithm::from_string(a) }),
        },
    }
}

/// Reads the package digest out of a metadata document's text.
pub fn parse_package_hash(text: &str) -> (r: Result<PackageHash, MetadataError>)
    ensures
        match digest_fields(xml_items_of(text@)) {
            Ok(fields) => r is Ok && describes(r->Ok_0, fields),
            Err(e) => r == Err::<PackageHash, MetadataError>(e),
        },
{
    let items = xml_items(text);
    package_hash_from_items(&items)
}

/// Whether two strings hold the same characters.
pub fn str_equal(a: &str, b: &str) -> (r: bool)
    ensures
        r == (a@ == b@),
{
    let n = a.unicode_len();
    if n != b.unicode_len() {
        return false;
    }
    let mut i: usize = 0;
    while i < n
        invariant
            n == a@.len(),
            n == b@.len(),
            i <= n,
            forall|j: int| 0 <= j < i ==> a@[j] == b@[j],
        decreases n - i,
    {
        if a.get_char(i) != b.get_char(i) {
            return false;
        }
        i = i + 1;
    }
    assert(a@ =~= b@);
    true
}

} // verus!
