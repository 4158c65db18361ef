use netcorehost::hostfxr::{FrameworkInfo, SdkInfo};
use netcorehost::path::{normal_path_components, same_path_bytes};
use std::path::Path;

fn parts(list: &[&str]) -> Vec<Vec<u8>> {
    list.iter().map(|p| p.as_bytes().to_vec()).collect()
}

#[test]
fn path_components_split() {
    assert_eq!(normal_path_components(b"/usr/share/dotnet"), parts(&["usr", "share", "dotnet"]));
    assert_eq!(normal_path_components(b"/usr//share/./dotnet/"), parts(&["usr", "share", "dotnet"]));
    assert_eq!(normal_path_components(b"./a/../b"), parts(&["a", "..", "b"]));
    assert_eq!(normal_path_components(b".hidden"), parts(&[".hidden"]));
    assert_eq!(normal_path_components(b""), Vec::<Vec<u8>>::new());
    assert_eq!(normal_path_components(b"/"), Vec::<Vec<u8>>::new());
}

#[test]
fn paths_compare_by_components() {
    let cases: [(&str, &str); 12] = [
        ("/sdk", "/sdk/"),
        ("/sdk", "/sdk"),
        ("/a//b", "/a/b"),
        ("/a/./b", "/a/b"),
        ("a/b/.", "a/b"),
        ("./a/b", "a/b"),
        ("/a/b", "a/b"),
        (".", ""),
        ("./", "."),
        ("/a/../b", "/b"),
        ("/a/b", "/a/c"),
        ("/./a", "/a"),
    ];
    for (a, b) in cases {
        let expected = Path::new(a) == Path::new(b);
        assert_eq!(same_path_bytes(a.as_bytes(), b.as_bytes()), expected, "{} vs {}", a, b);
        assert_eq!(same_path_bytes(b.as_bytes(), a.as_bytes()), expected, "{} vs {}", b, a);
    }
    assert!(same_path_bytes(b"/sdk", b"/sdk/"));
    assert!(!same_path_bytes(b"/a/b", b"a/b"));
}

#[test]
fn sdk_and_framework_paths_compare_by_components() {
    let sdk = |path: &str| SdkInfo { version: "8.0.100".to_string(), path: path.as_bytes().to_vec() };
    assert!(sdk("/sdk/") == sdk("/sdk"));
    assert!(sdk("/sdk//8.0.100") == sdk("/sdk/8.0.100"));
    assert!(sdk("/sdk/a") != sdk("/sdk/b"));
    let framework = |path: &str| FrameworkInfo {
        name: "Microsoft.NETCore.App".to_string(),
        version: "8.0.0".to_string(),
        path: path.as_bytes().to_vec(),
    };
    assert!(framework("/fw/./x") == framework("/fw/x/"));
    assert!(framework("/fw/x") != framework("fw/x"));
}
