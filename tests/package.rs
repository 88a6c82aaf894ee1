use nuget_dl::package::{content_url, get_package_file_name, metadata_url, HashAlgorithm};

#[test]
fn algorithm_names_match_ignoring_case() {
    for name in ["SHA512", "sha512", "Sha512", "sHa512"] {
        assert_eq!(HashAlgorithm::from_string(name.to_string()), HashAlgorithm::SHA512);
    }
}

#[test]
fn other_algorithm_names_are_kept_verbatim() {
    for name in ["SHA256", "sha-512", "sha5120", "", "SHA51"] {
        assert_eq!(
            HashAlgorithm::from_string(name.to_string()),
            HashAlgorithm::Unknown(name.to_string())
        );
    }
}

#[test]
fn file_name_joins_name_and_version() {
    assert_eq!(
        get_package_file_name("WinPixEventRuntime", "1.0.220124001"),
        "WinPixEventRuntime.1.0.220124001.nupkg"
    );
    assert_eq!(get_package_file_name("A", "b"), "A.b.nupkg");
}

#[test]
fn registry_addresses() {
    let base = "https://www.nuget.org/api/v2";
    assert_eq!(
        content_url(base, "Microsoft.AI.DirectML", "1.9.0"),
        "https://www.nuget.org/api/v2/package/Microsoft.AI.DirectML/1.9.0"
    );
    assert_eq!(
        metadata_url(base, "Microsoft.AI.DirectML", "1.9.0"),
        "https://www.nuget.org/api/v2/Packages(Id='Microsoft.AI.DirectML',Version='1.9.0')"
    );
}
