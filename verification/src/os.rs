//! The closed operating-system domain: Debian releases and Ubuntu LTS
//! releases (optionally minimal), with a canonical string encoding, a fixed
//! alias table for decoding, and structural equality.

use vstd::prelude::*;
use crate::digits::dec_digits;
use crate::digits::pad2_digits;
use crate::digits::u64_to_string;
use crate::digits::pad2_string;
use crate::error::Error;
use crate::text::str_eq;

verus! {

/// A `major.minor` release number, as in Ubuntu `20.04`.
#[derive(Clone, Copy, Debug, PartialEq, Eq, Hash, Structural)]
pub struct MajorMinorVersion {
    pub major: u32,
    pub minor: u32,
}

/// A supported operating system. Two values are equal exactly when family,
/// version, and minimal flag all match.
#[derive(Clone, Copy, Debug, PartialEq, Eq, Hash, Structural)]
pub enum OperatingSystem {
    Debian { version: u32 },
    Ubuntu { version: MajorMinorVersion, minimal: bool },
}

/// The canonical encoding of an operating system: `debian:11`,
/// `ubuntu:20.04`, `ubuntu:20.04:minimal`, with the Ubuntu minor version
/// zero-padded to two digits.
pub open spec fn format_spec(os: OperatingSystem) -> Seq<char> {
    match os {
        OperatingSystem::Debian { version } => "debian:"@ + dec_digits(version as nat),
        OperatingSystem::Ubuntu { version, minimal } => {
            let base = "ubuntu:"@ + dec_digits(version.major as nat) + "."@ + pad2_digits(
                version.minor as nat,
            );
            if minimal {
                base + ":minimal"@
            } else {
                base
            }
        },
    }
}

/// The provider-facing image family label: `debian-11`,
/// `ubuntu-minimal-2004-lts`, with both Ubuntu version parts zero-padded to
/// two digits.
pub open spec fn family_spec(os: OperatingSystem) -> Seq<char> {
    match os {
        OperatingSystem::Debian { version } => "debian-"@ + dec_digits(version as nat),
        OperatingSystem::Ubuntu { version, minimal } => (if minimal {
            "ubuntu-minimal-"@
        } else {
            "ubuntu-"@
        }) + pad2_digits(version.major as nat) + pad2_digits(version.minor as nat) + "-lts"@,
    }
}

/// The operating system denoted by a specifier string, through the fixed
/// alias table; `None` for anything outside the closed vocabulary.
pub open spec fn parse_spec(s: Seq<char>) -> Option<OperatingSystem> {
    if s == "debian"@ || s == "debian:11"@ || s == "debian:bullseye"@ {
        Some(OperatingSystem::Debian { version: 11 })
    } else if s == "debian:10"@ || s == "debian:buster"@ {
        Some(OperatingSystem::Debian { version: 10 })
    } else if s == "debian:9"@ || s == "debian:stretch"@ {
        Some(OperatingSystem::Debian { version: 9 })
    } else if s == "ubuntu"@ || s == "ubuntu:20.04"@ || s == "ubuntu:focal"@ {
        Some(
            OperatingSystem::Ubuntu {
                version: MajorMinorVersion { major: 20, minor: 4 },
                minimal: false,
            },
        )
    } else if s == "ubuntu:minimal"@ || s == "ubuntu:20.04:minimal"@ || s
        == "ubuntu:focal:minimal"@ {
        Some(
            OperatingSystem::Ubuntu {
                version: MajorMinorVersion { major: 20, minor: 4 },
                minimal: true,
            },
        )
    } else if s == "ubuntu:18.04"@ || s == "ubuntu:bionic"@ {
        Some(
            OperatingSystem::Ubuntu {
                version: MajorMinorVersion { major: 18, minor: 4 },
                minimal: false,
            },
        )
    } else if s == "ubuntu:18.04:minimal"@ || s == "ubuntu:bionic:minimal"@ {
        Some(
            OperatingSystem::Ubuntu {
                version: MajorMinorVersion { major: 18, minor: 4 },
                minimal: true,
            },
        )
    } else {
        None
    }
}

/// The seven documented operating-system values.
pub open spec fn supported_os(os: OperatingSystem) -> bool {
    match os {
        OperatingSystem::Debian { version } => version == 9 || version == 10 || version == 11,
        OperatingSystem::Ubuntu { version, minimal: _ } => (version.major == 20 || version.major
            == 18) && version.minor == 4,
    }
}

/// The operating system used when a configuration names none.
pub open spec fn default_os_spec() -> OperatingSystem {
    OperatingSystem::Debian { version: 11 }
}

/// The operating system used when a configuration names none.
pub fn default_os() -> (os: OperatingSystem)
    ensures
        os == default_os_spec(),
{
    OperatingSystem::Debian { version: 11 }
}

/// Every operating system the alias table denotes is one of the seven
/// documented values.
pub proof fn lemma_parse_supported(s: Seq<char>)
    requires
        parse_spec(s) is Some,
    ensures
        supported_os(parse_spec(s)->Some_0),
{
}

/// Round-trip law: every documented operating-system value decodes back from
/// its canonical encoding.
pub proof fn lemma_canonical_round_trip(os: OperatingSystem)
    requires
        supported_os(os),
    ensures
        parse_spec(format_spec(os)) == Some(os),
{
    reveal_strlit("debian:");
    reveal_strlit("ubuntu:");
    reveal_strlit(".");
    reveal_strlit(":minimal");
    reveal_strlit("debian");
    reveal_strlit("debian:11");
    reveal_strlit("debian:bullseye");
    reveal_strlit("debian:10");
    reveal_strlit("debian:buster");
    reveal_strlit("debian:9");
    reveal_strlit("debian:stretch");
    reveal_strlit("ubuntu");
    reveal_strlit("ubuntu:20.04");
    reveal_strlit("ubuntu:focal");
    reveal_strlit("ubuntu:minimal");
    reveal_strlit("ubuntu:20.04:minimal");
    reveal_strlit("ubuntu:focal:minimal");
    reveal_strlit("ubuntu:18.04");
    reveal_strlit("ubuntu:bionic");
    reveal_strlit("ubuntu:18.04:minimal");
    reveal_strlit("ubuntu:bionic:minimal");
    assert("debian"@.len() == 6);
    assert("debian:11"@.len() == 9);
    assert("debian:bullseye"@.len() == 15);
    assert("debian:10"@.len() == 9);
    assert("debian:buster"@.len() == 13);
    assert("debian:9"@.len() == 8);
    assert("debian:stretch"@.len() == 14);
    assert("ubuntu"@.len() == 6);
    assert("ubuntu:20.04"@.len() == 12);
    assert("ubuntu:focal"@.len() == 12);
    assert("ubuntu:minimal"@.len() == 14);
    assert("ubuntu:20.04:minimal"@.len() == 20);
    assert("ubuntu:focal:minimal"@.len() == 20);
    assert("ubuntu:18.04"@.len() == 12);
    assert("ubuntu:bionic"@.len() == 13);
    assert("ubuntu:18.04:minimal"@.len() == 20);
    assert("ubuntu:bionic:minimal"@.len() == 21);
    assert("debian:11"@[8] == '1' && "debian:10"@[8] == '0');
    assert("ubuntu:20.04"@[7] == '2' && "ubuntu:focal"@[7] == 'f' && "ubuntu:18.04"@[7] == '1');
    assert("ubuntu:20.04:minimal"@[7] == '2' && "ubuntu:focal:minimal"@[7] == 'f'
        && "ubuntu:18.04:minimal"@[7] == '1' && "ubuntu:bionic:minimal"@[7] == 'b');
    match os {
        OperatingSystem::Debian { version } => {
            if version == 11 {
                crate::digits::lemma_dec_two_digits(11);
                assert(format_spec(os) =~= "debian:11"@);
            } else if version == 10 {
                crate::digits::lemma_dec_two_digits(10);
                assert(format_spec(os) =~= "debian:10"@);
            } else {
                crate::digits::lemma_dec_one_digit(9);
                assert(format_spec(os) =~= "debian:9"@);
            }
        },
        OperatingSystem::Ubuntu { version, minimal } => {
            crate::digits::lemma_dec_two_digits(20);
            crate::digits::lemma_dec_two_digits(18);
            crate::digits::lemma_dec_one_digit(4);
            assert(pad2_digits(4) =~= seq!['0', '4']);
            if version.major == 20 && !minimal {
                assert(format_spec(os) =~= "ubuntu:20.04"@);
            } else if version.major == 20 && minimal {
                assert(format_spec(os) =~= "ubuntu:20.04:minimal"@);
            } else if version.major == 18 && !minimal {
                assert(format_spec(os) =~= "ubuntu:18.04"@);
            } else {
                assert(format_spec(os) =~= "ubuntu:18.04:minimal"@);
            }
        },
    }
}

/// Alias-consistency law: specifiers that denote the same operating system
/// share one canonical encoding, and that encoding decodes back to the very
/// same denotation.
pub proof fn lemma_alias_consistency(s1: Seq<char>, s2: Seq<char>)
    requires
        parse_spec(s1) is Some,
        parse_spec(s1) == parse_spec(s2),
    ensures
        format_spec(parse_spec(s1)->Some_0) == format_spec(parse_spec(s2)->Some_0),
        parse_spec(format_spec(parse_spec(s1)->Some_0)) == parse_spec(s1),
{
    lemma_parse_supported(s1);
    lemma_canonical_round_trip(parse_spec(s1)->Some_0);
}

impl OperatingSystem {
    /// Decodes a specifier through the alias table; any other string is an
    /// `InvalidSpecifier` error carrying that string.
    pub fn from_string(s: &str) -> (r: Result<OperatingSystem, Error>)
        ensures
            r is Ok <==> parse_spec(s@) is Some,
            r is Ok ==> r->Ok_0 == parse_spec(s@)->Some_0,
            r is Err ==> (r->Err_0 matches Error::InvalidSpecifier { specifier } && specifier@
                == s@),
    {
        if str_eq(s, "debian") || str_eq(s, "debian:11") || str_eq(s, "debian:bullseye") {
            Ok(OperatingSystem::Debian { version: 11 })
        } else if str_eq(s, "debian:10") || str_eq(s, "debian:buster") {
            Ok(OperatingSystem::Debian { version: 10 })
        } else if str_eq(s, "debian:9") || str_eq(s, "debian:stretch") {
            Ok(OperatingSystem::Debian { version: 9 })
        } else if str_eq(s, "ubuntu") || str_eq(s, "ubuntu:20.04") || str_eq(s, "ubuntu:focal") {
            Ok(
                OperatingSystem::Ubuntu {
                    version: MajorMinorVersion { major: 20, minor: 4 },
                    minimal: false,
                },
            )
        } else if str_eq(s, "ubuntu:minimal") || str_eq(s, "ubuntu:20.04:minimal") || str_eq(
            s,
            "ubuntu:focal:minimal",
        ) {
            Ok(
                OperatingSystem::Ubuntu {
                    version: MajorMinorVersion { major: 20, minor: 4 },
                    minimal: true,
                },
            )
        } else if str_eq(s, "ubuntu:18.04") || str_eq(s, "ubuntu:bionic") {
            Ok(
                OperatingSystem::Ubuntu {
                    version: MajorMinorVersion { major: 18, minor: 4 },
                    minimal: false,
                },
            )
        } else if str_eq(s, "ubuntu:18.04:minimal") || str_eq(s, "ubuntu:bionic:minimal") {
            Ok(
                OperatingSystem::Ubuntu {
                    version: MajorMinorVersion { major: 18, minor: 4 },
                    minimal: true,
                },
            )
        } else {
            Err(Error::InvalidSpecifier { specifier: s.to_owned() })
        }
    }

    /// Encodes an operating system canonically.
    pub fn to_string(&self) -> (r: String)
        ensures
            r@ == format_spec(*self),
    {
        match self {
            OperatingSystem::Debian { version } => {
                let mut s = "debian:".to_owned();
                s.append(u64_to_string(*version as u64).as_str());
                s
            },
            OperatingSystem::Ubuntu { version, minimal } => {
                let mut s = "ubuntu:".to_owned();
                s.append(u64_to_string(version.major as u64).as_str());
                s.append(".");
                s.append(pad2_string(version.minor as u64).as_str());
                if *minimal {
                    s.append(":minimal");
                }
                s
            },
        }
    }
}

} // verus!
