//! The gcloud adapter and the platform-context resolver. The adapter side of
//! this module is pure: it states which argument lists the queries run with
//! and how their raw output is read. The resolver takes the outcomes of the
//! three independent queries and either assembles a validated context or
//! fails; a context is never constructed from an unvalidated default
//! project.

use vstd::prelude::*;
use crate::digits::u64_to_string;
use crate::digits::pad2_string;
use crate::error::CommandFailure;
use crate::error::Error;
use crate::os::OperatingSystem;
use crate::os::family_spec;
use crate::text::split_spec;
use crate::text::split_string;
use crate::text::str_eq;

verus! {

/// The provider-facing image family label of an operating system, as
/// `family_spec` renders it: `debian-11`, `ubuntu-minimal-2004-lts`.
pub fn family_name_by_os(os: &OperatingSystem) -> (r: String)
    ensures
        r@ == family_spec(*os),
{
    match os {
        OperatingSystem::Debian { version } => {
            let mut s = "debian-".to_owned();
            s.append(u64_to_string(*version as u64).as_str());
            s
        },
        OperatingSystem::Ubuntu { version, minimal } => {
            let mut s = if *minimal {
                "ubuntu-minimal-".to_owned()
            } else {
                "ubuntu-".to_owned()
            };
            s.append(pad2_string(version.major as u64).as_str());
            s.append(pad2_string(version.minor as u64).as_str());
            s.append("-lts");
            s
        },
    }
}

/// A handle on the gcloud binary: the filesystem path it is invoked at,
/// resolved once by the caller and shared by all queries.
#[derive(Debug)]
pub struct GcloudCli {
    pub path: String,
}

impl GcloudCli {
    pub fn new(path: String) -> (r: GcloudCli)
        ensures
            r.path == path,
    {
        GcloudCli { path }
    }

    /// The argument list of the query listing all accessible project ids,
    /// one per line, with the fixed `-q` quiet flag.
    pub fn all_projects_args(&self) -> (args: Vec<String>)
        ensures
            args@.len() == 4,
            args@[0]@ == "projects"@,
            args@[1]@ == "list"@,
            args@[2]@ == "--format=value(projectId)"@,
            args@[3]@ == "-q"@,
    {
        let mut args: Vec<String> = Vec::new();
        args.push("projects".to_owned());
        args.push("list".to_owned());
        args.push("--format=value(projectId)".to_owned());
        args.push("-q".to_owned());
        args
    }

    /// The argument list of the query for the configured default project id,
    /// with the fixed `-q` quiet flag.
    pub fn default_project_args(&self) -> (args: Vec<String>)
        ensures
            args@.len() == 4,
            args@[0]@ == "config"@,
            args@[1]@ == "get-value"@,
            args@[2]@ == "core/project"@,
            args@[3]@ == "-q"@,
    {
        let mut args: Vec<String> = Vec::new();
        args.push("config".to_owned());
        args.push("get-value".to_owned());
        args.push("core/project".to_owned());
        args.push("-q".to_owned());
        args
    }

    /// The argument list of the query resolving the image name for an
    /// operating system's family, with the fixed `-q` quiet flag.
    pub fn image_name_args(&self, os: &OperatingSystem) -> (args: Vec<String>)
        ensures
            args@.len() == 6,
            args@[0]@ == "compute"@,
            args@[1]@ == "images"@,
            args@[2]@ == "list"@,
            args@[3]@ == "--format=value(name)"@,
            (args@[4]@ == "--filter=family:"@ + family_spec(*os)),
            args@[5]@ == "-q"@,
    {
        let mut filter = "--filter=family:".to_owned();
        filter.append(family_name_by_os(os).as_str());
        let mut args: Vec<String> = Vec::new();
        args.push("compute".to_owned());
        args.push("images".to_owned());
        args.push("list".to_owned());
        args.push("--format=value(name)".to_owned());
        args.push(filter);
        args.push("-q".to_owned());
        args
    }
}

/// The project ids a projects-list query output denotes: its lines; empty
/// output denotes no projects at all, never one empty project id.
pub open spec fn projects_of(out: Seq<char>) -> Seq<Seq<char>> {
    if out.len() == 0 {
        Seq::empty()
    } else {
        split_spec("\n"@, out)
    }
}

/// A resolved, immutable snapshot of provider state: the configured default
/// project, validated to be among the accessible projects of the
/// authenticated session, and the image name resolved for the configured
/// default operating system's family. Constructed only by [`GcloudContext::init`],
/// so an unvalidated default project never reaches a context.
#[derive(Debug)]
pub struct GcloudContext {
    default_project_id: String,
    default_os_image_name: String,
}

impl GcloudContext {
    /// The validated default project id.
    pub closed spec fn spec_default_project_id(&self) -> Seq<char> {
        self.default_project_id@
    }

    /// The image name resolved for the default operating system's family.
    pub closed spec fn spec_default_os_image_name(&self) -> Seq<char> {
        self.default_os_image_name@
    }

    /// The validated default project id.
    pub fn default_project_id(&self) -> (r: &String)
        ensures
            r@ == self.spec_default_project_id(),
    {
        &self.default_project_id
    }

    /// The image name resolved for the default operating system's family.
    pub fn default_os_image_name(&self) -> (r: &String)
        ensures
            r@ == self.spec_default_os_image_name(),
    {
        &self.default_os_image_name
    }

    /// Assembles a platform context from the outcomes of the three
    /// independent queries: all accessible projects (newline-delimited), the
    /// configured default project, and the image name for the default
    /// operating system's family.
    ///
    /// If any query failed, that failure is propagated and no context is
    /// produced, whatever the other two returned. A default project of
    /// `"(unset)"`, or one absent from the accessible projects, is an
    /// `UnresolvedDefaultProject` error; partial success never yields a
    /// context.
    pub fn init(
        all_projects: Result<String, CommandFailure>,
        default_project: Result<String, CommandFailure>,
        image_name: Result<String, CommandFailure>,
    ) -> (r: Result<GcloudContext, Error>)
        ensures
            (all_projects is Err ==> r == Err::<GcloudContext, Error>(
                Error::ExternalCommandFailure { failure: all_projects->Err_0 },
            )),
            (all_projects is Ok && default_project is Err ==> r == Err::<GcloudContext, Error>(
                Error::ExternalCommandFailure { failure: default_project->Err_0 },
            )),
            (all_projects is Ok && default_project is Ok && image_name is Err ==> r == Err::<
                GcloudContext,
                Error,
            >(Error::ExternalCommandFailure { failure: image_name->Err_0 })),
            (all_projects is Ok && default_project is Ok && image_name is Ok
                && default_project->Ok_0@ == "(unset)"@ ==> r == Err::<GcloudContext, Error>(
                Error::UnresolvedDefaultProject { project_id: None },
            )),
            (all_projects is Ok && default_project is Ok && image_name is Ok
                && default_project->Ok_0@ != "(unset)"@ && !projects_of(
                all_projects->Ok_0@,
            ).contains(default_project->Ok_0@) ==> (r matches Err(e)
                && e matches Error::UnresolvedDefaultProject { project_id: Some(p) } && p@
                == default_project->Ok_0@)),
            (all_projects is Ok && default_project is Ok && image_name is Ok
                && default_project->Ok_0@ != "(unset)"@ && projects_of(
                all_projects->Ok_0@,
            ).contains(default_project->Ok_0@) ==> (r matches Ok(ctx)
                && ctx.spec_default_project_id() == default_project->Ok_0@
                && ctx.spec_default_os_image_name() == image_name->Ok_0@)),
    {
        let all = match all_projects {
            Ok(s) => s,
            Err(f) => {
                return Err(Error::ExternalCommandFailure { failure: f });
            },
        };
        let dp = match default_project {
            Ok(s) => s,
            Err(f) => {
                return Err(Error::ExternalCommandFailure { failure: f });
            },
        };
        let img = match image_name {
            Ok(s) => s,
            Err(f) => {
                return Err(Error::ExternalCommandFailure { failure: f });
            },
        };
        if str_eq(dp.as_str(), "(unset)") {
            return Err(Error::UnresolvedDefaultProject { project_id: None });
        }
        let ghost all_view = all@;
        proof {
            reveal_strlit("\n");
        }
        let projects = split_string("\n", all);
        proof {
            if all_view.len() == 0 {
                assert(projects.deep_view() =~= projects_of(all_view));
            } else {
                assert(projects.deep_view() == projects_of(all_view));
            }
        }
        let n = projects.len();
        let mut i: usize = 0;
        let mut found = false;
        while i < n
            invariant
                i <= n,
                n == projects@.len(),
                (found <==> exists|j: int|
                    0 <= j < i && projects@[j]@ == dp@),
            decreases n - i,
        {
            if str_eq(projects[i].as_str(), dp.as_str()) {
                found = true;
            }
            i += 1;
        }
        if !found {
            proof {
                assert forall|j: int|
                    0 <= j < projects_of(all_view).len() implies projects_of(all_view)[j]
                    != dp@ by {
                    assert(projects.deep_view()[j] == projects@[j]@);
                }
            }
            return Err(Error::UnresolvedDefaultProject { project_id: Some(dp) });
        }
        proof {
            let j = choose|j: int| 0 <= j < projects@.len() && projects@[j]@ == dp@;
            assert(projects.deep_view()[j] == projects@[j]@);
            assert(projects_of(all_view).contains(dp@));
        }
        Ok(GcloudContext { default_project_id: dp, default_os_image_name: img })
    }
}

/// The per-platform contexts of one invocation; only gcloud has an adapter
/// in this version.
#[derive(Debug)]
pub struct PlatformContexts {
    pub gcloud: Option<GcloudContext>,
}

impl PlatformContexts {
    /// The contexts of an invocation that resolved none.
    pub fn default() -> (r: PlatformContexts)
        ensures
            r.gcloud is None,
    {
        PlatformContexts { gcloud: None }
    }

    /// The resolved gcloud context; callers must have resolved one.
    pub fn gcloud_ctx(&self) -> (r: &GcloudContext)
        requires
            self.gcloud is Some,
        ensures
            r == self.gcloud->Some_0,
    {
        self.gcloud.as_ref().unwrap()
    }
}

} // verus!
