use vstd::prelude::*;

verus! {

/// The hash algorithm a registry reports for a package.
#[derive(Debug, Clone, PartialEq, Eq)]
pub enum HashAlgorithm {
    SHA512,
    /// An algorithm this library cannot recompute, kept with its raw name.
    Unknown(String),
}

/// A digest as the registry reports it: base64 text and its algorithm.
#[derive(Debug, Clone, PartialEq, Eq)]
pub struct PackageHash {
    pub hash: String,
    pub algorithm: HashAlgorithm,
}

/// The canonical algorithm name, in lower case.
pub open spec fn sha512_name() -> Seq<char> {
    seq!['s', 'h', 'a', '5', '1', '2']
}

/// `c` is `lower`, or its ASCII upper-case form when `lower` is a lower-case letter.
pub open spec fn same_ignoring_ascii_case(c: char, lower: char) -> bool {
    c == lower || ('a' <= lower && lower <= 'z' && (c as u32) + 32 == (lower as u32))
}

/// `s` spells `sha512` in any mix of ASCII cases.
pub open spec fn is_sha512_name(s: Seq<char>) -> bool {
    &&& s.len() == sha512_name().len()
    &&& forall|i: int| 0 <= i < s.len() ==> same_ignoring_ascii_case(#[trigger] s[i], sha512_name()[i])
}

fn char_same_ignoring_ascii_case(c: char, lower: char) -> (r: bool)
    ensures
        r == same_ignoring_ascii_case(c, lower),
{
    if c == lower {
        true
    } else if 'a' <= lower && lower <= 'z' {
        (c as u32) + 32 == (lower as u32)
    } else {
        false
    }
}

impl HashAlgorithm {
    /// Classifies a raw algorithm name; the match against `sha512` ignores ASCII case.
    pub fn from_string(string: String) -> (r: Self)
        ensures
            is_sha512_name(string@) ==> r is SHA512,
            !is_sha512_name(string@) ==> (r is Unknown && r->Unknown_0@ == string@),
    {
        let expected: [char; 6] = ['s', 'h', 'a', '5', '1', '2'];
        let n = string.as_str().unicode_len();
        if n != 6 {
            return HashAlgorithm::Unknown(string);
        }
        let mut i: usize = 0;
        while i < 6
            invariant
                n == 6,
                string@.len() == 6,
                expected@ == sha512_name(),
                0 <= i <= 6,
                forall|j: int| 0 <= j < i ==> same_ignoring_ascii_case(#[trigger] string@[j], sha512_name()[j]),
            decreases 6 - i,
        {
            let c = string.as_str().get_char(i);
            if !char_same_ignoring_ascii_case(c, expected[i]) {
                assert(!same_ignoring_ascii_case(string@[i as int], sha512_name()[i as int]));
                return HashAlgorithm::Unknown(string);
            }
            i = i + 1;
        }
        HashAlgorithm::SHA512
    }
}

/// The file name of a package's cached archive: `{name}.{version}.nupkg`.
pub open spec fn package_file_name(name: Seq<char>, version: Seq<char>) -> Seq<char> {
    name + "."@ + version + ".nupkg"@
}

/// Address of a package's archive under a registry base address.
pub open spec fn content_address(base: Seq<char>, name: Seq<char>, version: Seq<char>) -> Seq<char> {
    base + "/package/"@ + name + "/"@ + version
}

/// Address of a package's metadata document under a registry base address.
pub open spec fn metadata_address(base: Seq<char>, name: Seq<char>, version: Seq<char>) -> Seq<char> {
    base + "/Packages(Id='"@ + name + "',Version='"@ + version + "')"@
}

/// The name of the cached archive for `package_name` at `version`.
pub fn get_package_file_name(package_name: &str, version: &str) -> (r: String)
    ensures
        r@ == package_file_name(package_name@, version@),
{
    let mut r = String::from_str(package_name);
    r.append(".");
    r.append(version);
    r.append(".nupkg");
    r
}

/// The registry address that serves the archive of `package_name` at `version`.
pub fn content_url(base: &str, package_name: &str, version: &str) -> (r: String)
    ensures
        r@ == content_address(base@, package_name@, version@),
{
    let mut r = String::from_str(base);
    r.append("/package/");
    r.append(package_name);
    r.append("/");
    r.append(version);
    r
}

/// The registry address that serves the metadata of `package_name` at `version`.
pub fn metadata_url(base: &str, package_name: &str, version: &str) -> (r: String)
    ensures
        r@ == metadata_address(base@, package_name@, version@),
{
    let mut r = String::from_str(base);
    r.append("/Packages(Id='");
    r.append(package_name);
    r.append("',Version='");
    r.append(version);
    r.append("')");
    r
}

} // verus!
