use crate_tally::hash::fnv_key;
use crate_tally::version::Version;
use std::hash::{Hash, Hasher};

fn structured_hash(name: &str, version: &semver::Version) -> u64 {
    let mut hasher = fnv::FnvHasher::default();
    (&name, &version).hash(&mut hasher);
    hasher.finish()
}

fn plain(version: &semver::Version) -> Version {
    Version::with_tags(
        version.major,
        version.minor,
        version.patch,
        version.pre.as_str(),
        version.build.as_str(),
    )
}

#[test]
fn fingerprint_has_the_expected_value() {
    assert_eq!(fnv_key("serde", &Version::new(1, 0, 0)), 0x7adc84091a89ac5c);
    assert_eq!(fnv_key("", &Version::new(0, 0, 0)), 0x77f952d2156b2754);
    assert_eq!(
        fnv_key("rand", &Version::with_tags(0, 8, 5, "alpha.1", "build.7")),
        0xec663014349ffc4c
    );
}

#[test]
fn fingerprint_is_not_its_seed() {
    assert_ne!(fnv_key("", &Version::new(0, 0, 0)), 0xcbf29ce484222325);
}

#[test]
fn fingerprint_is_deterministic() {
    let a = fnv_key("tokio", &Version::new(1, 38, 0));
    let b = fnv_key(&String::from("tokio"), &Version::new(1, 38, 0));
    assert_eq!(a, b);
}

#[test]
fn fingerprint_tells_shifted_pairs_apart() {
    let a = fnv_key("foo1", &Version::new(2, 0, 0));
    let b = fnv_key("foo", &Version::new(1, 2, 0));
    assert_eq!(a, 0xeb9d29861e162fb3);
    assert_eq!(b, 0x0bf675b9380019a9);
    assert_ne!(a, b);
}

#[test]
fn fingerprint_sees_tags() {
    let bare = fnv_key("a", &Version::new(1, 0, 0));
    let pre = fnv_key("a", &Version::with_tags(1, 0, 0, "rc.1", ""));
    let build = fnv_key("a", &Version::with_tags(1, 0, 0, "", "rc.1"));
    assert_ne!(bare, pre);
    assert_ne!(bare, build);
    assert_ne!(pre, build);
}

#[test]
fn fingerprint_agrees_with_the_structured_hash() {
    if !cfg_little_endian() {
        return;
    }
    let texts = ["1.0.0", "0.8.5-alpha.1+build.7", "18446744073709551615.0.3", "2.1.0+x"];
    for text in texts {
        let version = semver::Version::parse(text).unwrap();
        for name in ["serde", "", "näme", "a/b"] {
            assert_eq!(fnv_key(name, &plain(&version)), structured_hash(name, &version));
        }
    }
}

fn cfg_little_endian() -> bool {
    1u16.to_le_bytes() == 1u16.to_ne_bytes()
}

#[test]
fn fingerprints_spread_over_a_sample() {
    let mut seen = std::collections::HashSet::new();
    let names = ["a", "b", "ab", "ba", "serde", "serde1", "serde_json", "rand", "syn", "libc"];
    for name in names {
        for major in 0..10u64 {
            for minor in 0..10u64 {
                for patch in 0..10u64 {
                    seen.insert(fnv_key(name, &Version::new(major, minor, patch)));
                }
            }
        }
    }
    assert_eq!(seen.len(), 10_000);
}

#[test]
fn version_is_written_as_semver_writes_it() {
    for text in ["1.0.0", "0.8.5-alpha.1+build.7", "18446744073709551615.0.3", "2.1.0+x", "10.20.30-rc"] {
        let version = semver::Version::parse(text).unwrap();
        assert_eq!(plain(&version).to_string(), text);
    }
    assert_eq!(Version::new(0, 0, 0).to_string(), "0.0.0");
}
