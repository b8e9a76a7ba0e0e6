use depot::cache::{Cache, ChecksumAlgorithm};
use depot::luarocks_version::{normalize_luarocks_version, to_luarocks_version};
use depot::lua_analysis::LuaVersionSet;
use depot::mocks::MockCacheProvider;
use depot::version::{Version, VersionConstraint};

#[test]
fn version_text_reads_back() {
    for text in ["1.2.3", "0.0.0", "10.20.30-alpha.1", "1.0.0-rc.1+build.456", "1.0.0+b", "3.4.5-"] {
        let v = Version::parse(text).unwrap();
        assert_eq!(v.to_string(), text);
        let again = Version::parse(&v.to_string()).unwrap();
        assert_eq!(again.major, v.major);
        assert_eq!(again.minor, v.minor);
        assert_eq!(again.patch, v.patch);
        assert_eq!(again.prerelease, v.prerelease);
        assert_eq!(again.build_metadata, v.build_metadata);
    }
}

#[test]
fn version_order_is_antisymmetric_and_transitive() {
    let vs: Vec<Version> = ["1.0.0-alpha", "1.0.0-alpha.1", "1.0.0-beta", "1.0.0", "1.0.1", "2.0.0+x"]
        .iter()
        .map(|t| Version::parse(t).unwrap())
        .collect();
    for a in &vs {
        for b in &vs {
            assert_eq!(a.order_against(b), -b.order_against(a));
            for c in &vs {
                if a.order_against(b) <= 0 && b.order_against(c) <= 0 {
                    assert!(a.order_against(c) <= 0);
                }
            }
        }
    }
    assert_eq!(Version::parse("2.0.0+x").unwrap(), Version::parse("2.0.0+y").unwrap());
    assert!(Version::parse("2.0.0-rc.1").unwrap() < Version::parse("2.0.0").unwrap());
}

#[test]
fn luarocks_text_reads_back() {
    for (major, minor, patch) in [(3, 0, 1), (1, 13, 0), (0, 0, 9), (12, 4, 5)] {
        let v = Version::new(major, minor, patch);
        let text = to_luarocks_version(&v);
        let back = normalize_luarocks_version(&text).unwrap();
        assert_eq!((back.major, back.minor, back.patch), (major, minor, patch));
        assert_eq!(back.prerelease, None);
        assert_eq!(back.build_metadata, None);
    }
    let pre = Version::parse("2.1.3-beta+b7").unwrap();
    let back = normalize_luarocks_version(&to_luarocks_version(&pre)).unwrap();
    assert_eq!((back.major, back.minor, back.patch), (2, 1, 3));
    assert_eq!((back.prerelease, back.build_metadata), (None, None));
    // A patch of 10 or more is not carried by the LuaRocks text.
    let back = normalize_luarocks_version(&to_luarocks_version(&Version::new(1, 0, 10))).unwrap();
    assert_eq!(back.patch, 0);
}

#[test]
fn checksum_verifies_its_content() {
    let data = b"some archive bytes";
    for alg in [ChecksumAlgorithm::Blake3, ChecksumAlgorithm::Sha256] {
        let c = Cache::checksum_with_algorithm(data, alg);
        assert!(Cache::verify_checksum(data, &c));
        assert!(!Cache::verify_checksum(b"other bytes", &c));
    }
}

#[test]
fn mock_cache_reads_what_was_written() {
    let mut cache = MockCacheProvider::new();
    cache.write("a/b", b"first").unwrap();
    cache.write("c", b"other").unwrap();
    assert_eq!(cache.read("a/b").unwrap(), b"first".to_vec());
    let checksum = cache.checksum("a/b").unwrap();
    assert!(cache.verify_checksum("a/b", &checksum).unwrap());
    assert_eq!(cache.read("c").unwrap(), b"other".to_vec());
}

#[test]
fn version_sets_intersect_and_unite() {
    let flags = [
        LuaVersionSet::LUA_5_1,
        LuaVersionSet::LUA_5_2,
        LuaVersionSet::LUA_5_3,
        LuaVersionSet::LUA_5_4,
        LuaVersionSet::LUA_5_5,
        LuaVersionSet::LUAJIT,
    ];
    let a = LuaVersionSet::from_bits(LuaVersionSet::LUA_5_1 | LuaVersionSet::LUAJIT);
    let b = LuaVersionSet::from_bits(LuaVersionSet::LUA_5_1 | LuaVersionSet::LUA_5_4);
    for f in flags {
        assert_eq!(a.intersect(b).contains(f), a.contains(f) && b.contains(f));
        assert_eq!(a.union(b).contains(f), a.contains(f) || b.contains(f));
        assert!(LuaVersionSet::all().contains(f));
        assert!(!LuaVersionSet::empty().contains(f));
    }
}

#[test]
fn version_meets_its_own_constraints() {
    for text in ["1.2.3", "0.1.0-beta.2", "4.0.0+meta"] {
        let v = Version::parse(text).unwrap();
        let w = || Version::parse(text).unwrap();
        assert!(v.satisfies(&VersionConstraint::Exact(w())));
        assert!(v.satisfies(&VersionConstraint::Compatible(w())));
        assert!(v.satisfies(&VersionConstraint::Patch(w())));
        assert!(v.satisfies(&VersionConstraint::GreaterOrEqual(w())));
        assert!(v.satisfies(&VersionConstraint::AnyPatch(w())));
        assert!(!v.satisfies(&VersionConstraint::LessThan(w())));
    }
}

#[test]
fn equal_precedence_means_equal_versions() {
    let pairs = [
        ("1.0.0-alpha.1", "1.0.0-alpha.1+build.5", true),
        ("1.0.0-alpha.1", "1.0.0-alpha.2", false),
        ("2.3.4", "2.3.4+meta", true),
        ("2.3.4", "2.3.4-rc.1", false),
    ];
    for (a, b, equal) in pairs {
        let (va, vb) = (Version::parse(a).unwrap(), Version::parse(b).unwrap());
        assert_eq!(va.order_against(&vb) == 0, equal);
        assert_eq!(va.same_as(&vb), equal);
        assert_eq!(vb.order_against(&va), -va.order_against(&vb));
    }
    // Identifiers that are not written canonically compare equal but differ.
    let (x, y) = (Version::parse("1.0.0-01").unwrap(), Version::parse("1.0.0-1").unwrap());
    assert_eq!(x.order_against(&y), 0);
    assert!(!x.same_as(&y));
}
