use houdini::steps::{Component, VersionCheck, VersionCheckError};
use houdini::status::Status;
use houdini::version::{
    docker_version_in, kernel_version_in, parse_version, runc_version_in, ProbeError, Version,
    VersionComparison, VersionError,
};

fn v(s: &str) -> Version {
    parse_version(s).unwrap()
}

#[test]
fn test_version_compare() {
    let vc = VersionComparison { min: None, max: Some(v("5.18.9-arch1-1")) };

    vc.compare(&v("5.18.9-arch1-1")).expect("identical version should be ok");
    vc.compare(&v("5.18.9-foobar")).expect("should ignore pre-rel");
    vc.compare(&v("5.18.9")).expect("without pre-rel should be ok");

    vc.compare(&v("5.18.10")).expect_err("higher patch should be err");
    vc.compare(&v("5.19.0")).expect_err("higher minor should be err");
    vc.compare(&v("6.0.0")).expect_err("higher major should be err");
}

#[test]
fn version_parse_kinds() {
    match v("1.2.3-r1+git") {
        Version::Ideal(s) => {
            assert_eq!((s.major, s.minor, s.patch), (1, 2, 3));
            assert_eq!(s.pre_rel.as_deref(), Some("r1"));
            assert_eq!(s.meta.as_deref(), Some("git"));
        }
        _ => panic!("should be semantic"),
    }
    assert!(matches!(v("1.2.3r1"), Version::General { .. }));
    assert!(matches!(v("000.007-1"), Version::Complex { .. }));
    assert!(parse_version("").is_none());
    assert_eq!(v("1.2.3-r1+git").to_text(), "1.2.3-r1+git");
    assert_eq!(v("1.2.3-r1+git").stripped_text(), "1.2.3");
    match v("1:2.3.4-r1+meta") {
        Version::General { epoch, chunks, release, meta } => {
            assert_eq!(epoch, Some(1));
            assert_eq!(chunks, "2.3.4");
            assert_eq!(release.as_deref(), Some("r1"));
            assert_eq!(meta.as_deref(), Some("meta"));
        }
        _ => panic!("should be general"),
    }
    assert_eq!(v("1:2.3.4-r1+meta").to_text(), "1:2.3.4-r1+meta");
    assert_eq!(v("1:2.3.4-r1+meta").stripped_text(), "1:2.3.4-r1");
}

#[test]
fn general_versions_against_themselves() {
    for s in ["1:2.3.4-r1+meta", "1.40", "8.u51-1", "20.0026.1_0-2+0.93"] {
        let vc = VersionComparison { min: Some(v(s)), max: Some(v(s)) };
        assert_eq!(vc.compare(&v(s)), Ok(()));
    }
}

#[test]
fn comparison_reflexive_when_stripped() {
    for s in ["5.18.9-arch1-1", "0.0.0", "1.2.3+meta", "10.20.30-rc.1"] {
        let vc = VersionComparison { min: Some(v(s)), max: Some(v(s)) };
        assert_eq!(vc.compare(&v(s)), Ok(()));
    }
}

#[test]
fn comparison_errors() {
    let vc = VersionComparison { min: Some(v("1.40.0")), max: Some(v("1.42.0")) };
    assert_eq!(vc.compare(&v("1.39.9")), Err(VersionError::BelowMinimum));
    assert_eq!(vc.compare(&v("1.43.0")), Err(VersionError::AboveMaximum));
    assert_eq!(vc.compare(&v("1.41.0-beta")), Ok(()));
    let open = VersionComparison { min: None, max: None };
    assert_eq!(open.compare(&v("99.0.0")), Ok(()));
}

#[test]
fn comparison_with_general_versions() {
    let vc = VersionComparison { min: Some(v("1.40")), max: Some(v("1.42")) };
    assert_eq!(vc.compare(&v("1.41")), Ok(()));
    assert_eq!(vc.compare(&v("1.43")), Err(VersionError::AboveMaximum));
    assert_eq!(vc.compare(&v("1.39")), Err(VersionError::BelowMinimum));
}

#[test]
fn version_check_verdicts() {
    let check = VersionCheck {
        kernel: Some(VersionComparison { min: Some(v("5.14.0")), max: None }),
        docker: None,
        runc: Some(VersionComparison { min: None, max: Some(v("1.1.2")) }),
        failure: Status::Skip,
        success: Status::Undecided,
    };
    assert_eq!(check.check(&Some(v("5.15.0")), &None, &Some(v("1.1.0"))), Ok(()));
    assert_eq!(
        check.check(&None, &None, &Some(v("1.1.0"))),
        Err(VersionCheckError::Unknown(Component::Kernel))
    );
    assert_eq!(
        check.check(&Some(v("5.10.0")), &None, &Some(v("1.1.9"))),
        Err(VersionCheckError::Mismatch(Component::Kernel, VersionError::BelowMinimum))
    );
    assert_eq!(
        check.check(&Some(v("5.15.0")), &None, &Some(v("1.1.9"))),
        Err(VersionCheckError::Mismatch(Component::Runc, VersionError::AboveMaximum))
    );
    assert_eq!(
        check.check(&Some(v("5.15.0")), &None, &None),
        Err(VersionCheckError::Unknown(Component::Runc))
    );
}

#[test]
fn docker_version_output() {
    let out = "Docker version 20.10.17, build 100c701\n";
    match docker_version_in(out) {
        Ok(Version::Ideal(s)) => assert_eq!((s.major, s.minor, s.patch), (20, 10, 17)),
        _ => panic!("should read the docker version"),
    }
    assert_eq!(docker_version_in("no version here\n").err(), Some(ProbeError::NotFound));
    assert_eq!(docker_version_in("Docker version 20.10.17\n").err(), Some(ProbeError::NotFound));
    assert_eq!(docker_version_in("Docker version ???, build x\n").err(), Some(ProbeError::Invalid));
}

#[test]
fn runc_version_output() {
    let out = "runc version 1.1.2\r\ncommit: v1.1.2-0-ga916309\nspec: 1.0.2-dev\n";
    match runc_version_in(out) {
        Ok(Version::Ideal(s)) => assert_eq!((s.major, s.minor, s.patch), (1, 1, 2)),
        _ => panic!("should read the runc version"),
    }
    assert_eq!(runc_version_in("").err(), Some(ProbeError::NotFound));
}

#[test]
fn kernel_release() {
    match kernel_version_in("5.18.9-arch1-1") {
        Ok(Version::Ideal(s)) => {
            assert_eq!((s.major, s.minor, s.patch), (5, 18, 9));
            assert_eq!(s.pre_rel.as_deref(), Some("arch1-1"));
        }
        _ => panic!("should read the kernel release"),
    }
    assert_eq!(kernel_version_in("").err(), Some(ProbeError::Invalid));
}
