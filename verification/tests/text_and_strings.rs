use netcorehost::hostfxr::{EnvironmentInfo, FrameworkInfo, SdkInfo};
use netcorehost::pdcstring::{NulError, PdCString};
use netcorehost::text::{bytes_equal, bytes_start_with, compare_bytes, compare_text, text_starts_with_text, TextOrder};
use std::cmp::Ordering;

#[test]
fn text_order_is_the_order_of_str() {
    let samples = ["", "a", "ab", "b", "8.0.100", "8.0.2", "10.0.0", "é", "z", "ä", "AB"];
    for a in samples {
        for b in samples {
            let expected = match a.cmp(b) {
                Ordering::Less => TextOrder::Less,
                Ordering::Equal => TextOrder::Equal,
                Ordering::Greater => TextOrder::Greater,
            };
            assert_eq!(compare_text(a, b), expected, "{:?} {:?}", a, b);
            assert_eq!(text_starts_with_text(a, b), a.starts_with(b), "{:?} {:?}", a, b);
        }
    }
    assert_eq!(compare_bytes(&[1, 2], &[1, 3]), TextOrder::Less);
    assert_eq!(compare_bytes(&[1, 2, 0], &[1, 2]), TextOrder::Greater);
    assert!(bytes_equal(b"abc", b"abc"));
    assert!(!bytes_equal(b"abc", b"abd"));
    assert!(!bytes_equal(b"ab", b"abc"));
    assert!(bytes_start_with(b"abc", b""));
    assert!(!bytes_start_with(b"ab", b"abc"));
}

fn sdk(version: &str, path: &str) -> SdkInfo {
    SdkInfo { version: version.to_string(), path: path.as_bytes().to_vec() }
}

fn framework(name: &str, version: &str) -> FrameworkInfo {
    FrameworkInfo { name: name.to_string(), version: version.to_string(), path: format!("/fw/{}", name).into_bytes() }
}

#[test]
fn sdks_are_ordered_by_version() {
    let a = sdk("6.0.100", "/a");
    let b = sdk("8.0.100", "/a");
    assert_eq!(a.cmp(&b), Ordering::Less);
    assert_eq!(b.cmp(&a), Ordering::Greater);
    assert_eq!(a.partial_cmp(&b), Some(Ordering::Less));
    assert!(a < b);
    // the order looks at the version only, the equality at the path too
    let c = sdk("6.0.100", "/c");
    assert_eq!(a.cmp(&c), Ordering::Equal);
    assert!(a != c);
    assert!(a == sdk("6.0.100", "/a"));
    // paths are kept as their bytes, also where they are no UTF-8
    let raw = SdkInfo { version: "8.0.100".to_string(), path: b"/sdk/\xff".to_vec() };
    assert!(raw == raw.clone());
    assert_eq!(raw.path, vec![b'/', b's', b'd', b'k', b'/', 0xff]);
    assert!(raw != SdkInfo { version: "8.0.100".to_string(), path: b"/sdk/\xfe".to_vec() });
}

#[test]
fn frameworks_are_ordered_by_name_then_version() {
    let a = framework("Microsoft.AspNetCore.App", "8.0.0");
    let b = framework("Microsoft.NETCore.App", "6.0.0");
    let c = framework("Microsoft.NETCore.App", "8.0.0");
    assert_eq!(a.cmp(&b), Ordering::Less);
    assert_eq!(b.cmp(&c), Ordering::Less);
    assert_eq!(c.cmp(&b), Ordering::Greater);
    assert_eq!(c.cmp(&c.clone()), Ordering::Equal);
    assert_eq!(b.partial_cmp(&a), Some(Ordering::Greater));
    assert!(b == framework("Microsoft.NETCore.App", "6.0.0"));
    assert!(b != c);
}

fn environment(version: &str, hash: &str) -> EnvironmentInfo {
    EnvironmentInfo {
        hostfxr_version: version.to_string(),
        hostfxr_commit_hash: hash.to_string(),
        sdks: vec![sdk("8.0.100", "/sdk")],
        frameworks: vec![framework("Microsoft.NETCore.App", "8.0.0")],
    }
}

#[test]
fn environments_match_abbreviated_hashes() {
    let full = environment("8.0.0", "5535e31a712343a63f5d7d796cd874e563e5ac14");
    let short = environment("8.0.0", "5535e31a71");
    let other = environment("8.0.0", "5535e31a72");
    assert!(full == short);
    assert!(short == full);
    assert!(full == full.clone());
    assert!(full != other);
    // not transitive
    let shortest = environment("8.0.0", "5535e31a7");
    assert!(shortest == short && shortest == other && short != other);
    let mut more_sdks = full.clone();
    more_sdks.sdks.push(sdk("9.0.100", "/sdk"));
    assert!(full != more_sdks);
    let mut other_framework = full.clone();
    other_framework.frameworks[0].version = "8.0.1".to_string();
    assert!(full != other_framework);
    assert!(full != environment("9.0.0", "5535e31a71"));
    assert_eq!(full.partial_cmp(&environment("9.0.0", "")), Some(Ordering::Less));
    assert_eq!(full.partial_cmp(&other), Some(Ordering::Equal));
}

#[test]
fn pdcstrings_refuse_nul() {
    let s = PdCString::from_vec(b"Test.dll".to_vec()).unwrap();
    assert_eq!(s.as_bytes(), b"Test.dll");
    assert_eq!(s.len(), 8);
    assert_eq!(s.clone().into_bytes(), b"Test.dll".to_vec());
    assert_eq!(PdCString::from_vec(b"a\0b".to_vec()), Err(NulError {}));
    assert_eq!(PdCString::from_vec(b"ab\0".to_vec()), Err(NulError {}));
    assert_eq!(PdCString::from_vec(Vec::new()).unwrap().len(), 0);
    assert_eq!(PdCString::from_str("Test.Program, Test").unwrap().as_bytes(), b"Test.Program, Test");
    assert_eq!(PdCString::from_str("a\0"), Err(NulError {}));
    assert_eq!(PdCString::from_str("ü").unwrap().as_bytes(), "ü".as_bytes());
}
