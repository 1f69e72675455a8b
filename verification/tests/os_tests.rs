use swoon::error::Error;
use swoon::gcloud::family_name_by_os;
use swoon::os::{MajorMinorVersion, OperatingSystem};

fn debian(version: u32) -> OperatingSystem {
    OperatingSystem::Debian { version }
}

fn ubuntu(major: u32, minor: u32, minimal: bool) -> OperatingSystem {
    OperatingSystem::Ubuntu { version: MajorMinorVersion { major, minor }, minimal }
}

#[test]
fn test_operating_system_from_string() {
    assert_eq!(OperatingSystem::from_string("debian"), Ok(debian(11)));
    assert_eq!(OperatingSystem::from_string("debian:bullseye"), Ok(debian(11)));
    assert_eq!(OperatingSystem::from_string("debian:11"), Ok(debian(11)));

    assert_eq!(OperatingSystem::from_string("debian:buster"), Ok(debian(10)));
    assert_eq!(OperatingSystem::from_string("debian:10"), Ok(debian(10)));

    assert_eq!(OperatingSystem::from_string("debian:stretch"), Ok(debian(9)));
    assert_eq!(OperatingSystem::from_string("debian:9"), Ok(debian(9)));

    assert_eq!(OperatingSystem::from_string("ubuntu"), Ok(ubuntu(20, 4, false)));
    assert_eq!(OperatingSystem::from_string("ubuntu:20.04"), Ok(ubuntu(20, 4, false)));
    assert_eq!(OperatingSystem::from_string("ubuntu:focal"), Ok(ubuntu(20, 4, false)));

    assert_eq!(OperatingSystem::from_string("ubuntu:minimal"), Ok(ubuntu(20, 4, true)));
    assert_eq!(OperatingSystem::from_string("ubuntu:20.04:minimal"), Ok(ubuntu(20, 4, true)));
    assert_eq!(OperatingSystem::from_string("ubuntu:focal:minimal"), Ok(ubuntu(20, 4, true)));

    assert_eq!(OperatingSystem::from_string("ubuntu:18.04"), Ok(ubuntu(18, 4, false)));
    assert_eq!(OperatingSystem::from_string("ubuntu:bionic"), Ok(ubuntu(18, 4, false)));

    assert_eq!(OperatingSystem::from_string("ubuntu:18.04:minimal"), Ok(ubuntu(18, 4, true)));
    assert_eq!(OperatingSystem::from_string("ubuntu:bionic:minimal"), Ok(ubuntu(18, 4, true)));
}

#[test]
fn test_operating_system_to_string() {
    assert_eq!("debian:11", debian(11).to_string());
    assert_eq!("debian:10", debian(10).to_string());
    assert_eq!("debian:9", debian(9).to_string());
    assert_eq!("ubuntu:18.04:minimal", ubuntu(18, 4, true).to_string());
    assert_eq!("ubuntu:20.04:minimal", ubuntu(20, 4, true).to_string());
    assert_eq!("ubuntu:18.04", ubuntu(18, 4, false).to_string());
    assert_eq!("ubuntu:20.04", ubuntu(20, 4, false).to_string());
}

#[test]
fn aliases_of_one_system_share_a_canonical_form() {
    let from_bare = OperatingSystem::from_string("debian").unwrap();
    let from_name = OperatingSystem::from_string("debian:bullseye").unwrap();
    let from_number = OperatingSystem::from_string("debian:11").unwrap();
    assert_eq!(from_bare, from_name);
    assert_eq!(from_name, from_number);
    assert_eq!("debian:11", from_bare.to_string());
    assert_eq!("debian:11", from_name.to_string());

    let focal = OperatingSystem::from_string("ubuntu:focal:minimal").unwrap();
    let minimal = OperatingSystem::from_string("ubuntu:minimal").unwrap();
    assert_eq!(focal, minimal);
    assert_eq!("ubuntu:20.04:minimal", focal.to_string());
}

#[test]
fn canonical_forms_round_trip() {
    for canonical in [
        "debian:11",
        "debian:10",
        "debian:9",
        "ubuntu:20.04",
        "ubuntu:20.04:minimal",
        "ubuntu:18.04",
        "ubuntu:18.04:minimal",
    ] {
        let os = OperatingSystem::from_string(canonical).unwrap();
        assert_eq!(canonical, os.to_string());
    }
}

#[test]
fn unknown_specifier_is_invalid() {
    assert_eq!(
        OperatingSystem::from_string("not-a-real-os"),
        Err(Error::InvalidSpecifier { specifier: "not-a-real-os".to_string() })
    );
    let message = OperatingSystem::from_string("not-a-real-os").unwrap_err().message();
    assert_eq!("invalid operating system specifier: not-a-real-os", message);
}

#[test]
fn family_labels_pad_ubuntu_versions() {
    assert_eq!("ubuntu-minimal-2004-lts", family_name_by_os(&ubuntu(20, 4, true)));
    assert_eq!("debian-11", family_name_by_os(&debian(11)));
    assert_eq!("ubuntu-2004-lts", family_name_by_os(&ubuntu(20, 4, false)));
    assert_eq!("ubuntu-minimal-1804-lts", family_name_by_os(&ubuntu(18, 4, true)));
    assert_eq!("ubuntu-1804-lts", family_name_by_os(&ubuntu(18, 4, false)));
}

#[test]
fn minor_versions_keep_their_zero_padding() {
    assert_eq!("ubuntu:20.04", ubuntu(20, 4, false).to_string());
    assert_ne!("ubuntu:20.4", ubuntu(20, 4, false).to_string());
}
