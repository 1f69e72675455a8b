//! The closed set of cloud platforms, with their canonical lowercase string
//! forms. Every value is a well-formed domain value; only GCP has an
//! implemented adapter, and asking for any other platform at the resolver
//! boundary is a distinct, explicit error rather than a parse failure.

use vstd::prelude::*;

verus! {

#[derive(Clone, Copy, Debug, PartialEq, Eq, Structural)]
pub enum CloudPlatform {
    AWS,
    Azure,
    DigitalOcean,
    GCP,
    Linode,
    Vultr,
}

/// The platform denoted by a canonical lowercase label, if any.
pub open spec fn platform_of_label(s: Seq<char>) -> Option<CloudPlatform> {
    if s == "aws"@ {
        Some(CloudPlatform::AWS)
    } else if s == "azure"@ {
        Some(CloudPlatform::Azure)
    } else if s == "digitalocean"@ {
        Some(CloudPlatform::DigitalOcean)
    } else if s == "gcp"@ {
        Some(CloudPlatform::GCP)
    } else if s == "linode"@ {
        Some(CloudPlatform::Linode)
    } else if s == "vultr"@ {
        Some(CloudPlatform::Vultr)
    } else {
        None
    }
}

/// The canonical lowercase label of a platform.
pub open spec fn platform_label(p: CloudPlatform) -> Seq<char> {
    match p {
        CloudPlatform::AWS => "aws"@,
        CloudPlatform::Azure => "azure"@,
        CloudPlatform::DigitalOcean => "digitalocean"@,
        CloudPlatform::GCP => "gcp"@,
        CloudPlatform::Linode => "linode"@,
        CloudPlatform::Vultr => "vultr"@,
    }
}

impl CloudPlatform {
    /// Decodes a platform from its canonical lowercase label.
    pub fn from_str(label: &str) -> (r: Option<CloudPlatform>)
        ensures
            r == platform_of_label(label@),
    {
        if crate::text::str_eq(label, "aws") {
            Some(CloudPlatform::AWS)
        } else if crate::text::str_eq(label, "azure") {
            Some(CloudPlatform::Azure)
        } else if crate::text::str_eq(label, "digitalocean") {
            Some(CloudPlatform::DigitalOcean)
        } else if crate::text::str_eq(label, "gcp") {
            Some(CloudPlatform::GCP)
        } else if crate::text::str_eq(label, "linode") {
            Some(CloudPlatform::Linode)
        } else if crate::text::str_eq(label, "vultr") {
            Some(CloudPlatform::Vultr)
        } else {
            None
        }
    }

    /// Encodes a platform as its canonical lowercase label.
    pub fn to_str(&self) -> (r: &'static str)
        ensures
            r@ == platform_label(*self),
    {
        match self {
            CloudPlatform::AWS => "aws",
            CloudPlatform::Azure => "azure",
            CloudPlatform::DigitalOcean => "digitalocean",
            CloudPlatform::GCP => "gcp",
            CloudPlatform::Linode => "linode",
            CloudPlatform::Vultr => "vultr",
        }
    }
}

/// Labels decode back to the platform they encode.
pub proof fn lemma_platform_label_round_trip(p: CloudPlatform)
    ensures
        platform_of_label(platform_label(p)) == Some(p),
{
    reveal_strlit("aws");
    reveal_strlit("azure");
    reveal_strlit("digitalocean");
    reveal_strlit("gcp");
    reveal_strlit("linode");
    reveal_strlit("vultr");
    assert("aws"@.len() == 3);
    assert("azure"@.len() == 5);
    assert("digitalocean"@.len() == 12);
    assert("gcp"@.len() == 3);
    assert("linode"@.len() == 6);
    assert("vultr"@.len() == 5);
    assert("aws"@[0] == 'a' && "gcp"@[0] == 'g');
    assert("azure"@[0] == 'a' && "vultr"@[0] == 'v');
}

} // verus!
