//! Where generated output goes, as relative path strings, and which
//! external binaries the pipeline relies on. Creating directories and
//! writing files is the caller's concern; this module only states the
//! paths.

use vstd::prelude::*;

verus! {

/// The data directory of a project, `./.swoon`.
#[derive(Debug)]
pub struct DataDir {}

/// The path of the data directory.
pub open spec fn data_dir_spec() -> Seq<char> {
    "./.swoon"@
}

impl DataDir {
    /// The path of the data directory.
    pub fn path() -> (r: String)
        ensures
            r@ == data_dir_spec(),
    {
        "./.swoon".to_owned()
    }

    /// The path of a directory under the data directory.
    pub fn sub_dir_path(path: &str) -> (r: String)
        ensures
            (r@ == data_dir_spec() + "/"@ + path@),
    {
        let mut s = "./.swoon".to_owned();
        s.append("/");
        s.append(path);
        s
    }
}

/// A directory that generated output lands in. `ProjectRoot` stands for the
/// directory the tool runs in.
#[derive(Debug)]
pub enum Directory {
    AnsibleRole { role_name: String },
    AnsibleRoles,
    GeneratedRoot,
    ImageArchive,
    ProjectRoot,
}

/// The relative path of an output directory.
pub open spec fn dir_path_spec(d: Directory) -> Seq<char> {
    match d {
        Directory::AnsibleRole { role_name } => data_dir_spec() + "/roles/"@ + role_name@,
        Directory::AnsibleRoles => data_dir_spec() + "/roles"@,
        Directory::GeneratedRoot => data_dir_spec(),
        Directory::ImageArchive => data_dir_spec() + "/images"@,
        Directory::ProjectRoot => "."@,
    }
}

impl Directory {
    /// The relative path of this directory.
    pub fn path(&self) -> (r: String)
        ensures
            r@ == dir_path_spec(*self),
    {
        match self {
            Directory::AnsibleRole { role_name } => {
                let mut s = "./.swoon".to_owned();
                s.append("/roles/");
                s.append(role_name.as_str());
                proof {
                    assert(s@ =~= data_dir_spec() + "/roles/"@ + role_name@);
                }
                s
            },
            Directory::AnsibleRoles => {
                let mut s = "./.swoon".to_owned();
                s.append("/roles");
                s
            },
            Directory::GeneratedRoot => "./.swoon".to_owned(),
            Directory::ImageArchive => {
                let mut s = "./.swoon".to_owned();
                s.append("/images");
                s
            },
            Directory::ProjectRoot => ".".to_owned(),
        }
    }

    /// The path of a file in this directory.
    pub fn join_path(&self, filename: &str) -> (r: String)
        ensures
            (r@ == dir_path_spec(*self) + "/"@ + filename@),
    {
        let mut s = self.path();
        s.append("/");
        s.append(filename);
        s
    }

    /// The path of an entry under this directory.
    pub fn sub_path(&self, path: &str) -> (r: String)
        ensures
            (r@ == dir_path_spec(*self) + "/"@ + path@),
    {
        self.join_path(path)
    }
}

/// An external binary the pipeline invokes.
#[derive(Clone, Copy, Debug, PartialEq, Eq, Hash, Structural)]
pub enum BinaryName {
    Gcloud,
}

impl BinaryName {
    /// Every binary the pipeline relies on.
    pub fn all() -> (r: Vec<BinaryName>)
        ensures
            r@.len() == 1,
            r@[0] == BinaryName::Gcloud,
    {
        let mut v: Vec<BinaryName> = Vec::new();
        v.push(BinaryName::Gcloud);
        v
    }

    /// The file name the binary is looked up by.
    pub fn filename(&self) -> (r: String)
        ensures
            r@ == "gcloud"@,
    {
        "gcloud".to_owned()
    }
}

} // verus!
