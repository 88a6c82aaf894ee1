use nuget_dl::metadata::{package_hash_from_items, parse_package_hash, str_equal, MetadataError, XmlItem};
use nuget_dl::package::{HashAlgorithm, PackageHash};

fn document(fields: &str) -> String {
    format!(
        "<?xml version=\"1.0\" encoding=\"utf-8\"?>\
         <entry xmlns=\"http://www.w3.org/2005/Atom\" \
         xmlns:d=\"http://schemas.microsoft.com/ado/2007/08/dataservices\" \
         xmlns:m=\"http://schemas.microsoft.com/ado/2007/08/dataservices/metadata\">\
         <title>Pkg</title><m:properties>{fields}</m:properties></entry>"
    )
}

#[test]
fn reads_hash_and_algorithm() {
    let text = document(
        "<d:Id>Pkg</d:Id><d:PackageHash>q83vEjRWeJA=</d:PackageHash>\
         <d:PackageHashAlgorithm>SHA512</d:PackageHashAlgorithm>",
    );
    let r = parse_package_hash(&text).unwrap();
    assert_eq!(
        r,
        PackageHash { hash: "q83vEjRWeJA=".to_string(), algorithm: HashAlgorithm::SHA512 }
    );
}

#[test]
fn unknown_algorithm_is_kept() {
    let text = document(
        "<d:PackageHashAlgorithm>MD5</d:PackageHashAlgorithm><d:PackageHash>AAAA</d:PackageHash>",
    );
    let r = parse_package_hash(&text).unwrap();
    assert_eq!(r.hash, "AAAA");
    assert_eq!(r.algorithm, HashAlgorithm::Unknown("MD5".to_string()));
}

#[test]
fn missing_hash_is_an_error() {
    let text = document("<d:PackageHashAlgorithm>SHA512</d:PackageHashAlgorithm>");
    assert_eq!(parse_package_hash(&text), Err(MetadataError::MissingHash));
}

#[test]
fn missing_algorithm_is_an_error() {
    let text = document("<d:PackageHash>AAAA</d:PackageHash>");
    assert_eq!(parse_package_hash(&text), Err(MetadataError::MissingAlgorithm));
}

#[test]
fn empty_hash_field_is_an_error() {
    let text = document(
        "<d:PackageHash></d:PackageHash><d:PackageHashAlgorithm>SHA512</d:PackageHashAlgorithm>",
    );
    assert_eq!(parse_package_hash(&text), Err(MetadataError::MissingHash));
}

#[test]
fn malformed_document_is_an_error() {
    assert_eq!(
        parse_package_hash("<a><d:PackageHash>AAAA</d:PackageHash></b>"),
        Err(MetadataError::Malformed)
    );
    assert_eq!(parse_package_hash("not markup <"), Err(MetadataError::Malformed));
}

#[test]
fn later_field_replaces_earlier() {
    let items = vec![
        XmlItem::Start("PackageHash".to_string()),
        XmlItem::Text("first".to_string()),
        XmlItem::Start("PackageHashAlgorithm".to_string()),
        XmlItem::Text("sha512".to_string()),
        XmlItem::Other,
        XmlItem::Start("PackageHash".to_string()),
        XmlItem::Text("second".to_string()),
    ];
    let r = package_hash_from_items(&items).unwrap();
    assert_eq!(r.hash, "second");
    assert_eq!(r.algorithm, HashAlgorithm::SHA512);
}

#[test]
fn field_followed_by_malformed_markup() {
    let items = vec![XmlItem::Start("PackageHash".to_string()), XmlItem::Malformed];
    assert_eq!(package_hash_from_items(&items), Err(MetadataError::Malformed));
    let items = vec![XmlItem::Start("PackageHashAlgorithm".to_string())];
    assert_eq!(package_hash_from_items(&items), Err(MetadataError::MissingAlgorithm));
}

#[test]
fn string_equality() {
    assert!(str_equal("PackageHash", "PackageHash"));
    assert!(!str_equal("PackageHash", "PackageHashAlgorithm"));
    assert!(!str_equal("packagehash", "PackageHash"));
    assert!(str_equal("", ""));
}
