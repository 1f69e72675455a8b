//! The image-baking side of the pipeline: which image to build (the baking
//! plan), how its base image is looked up (the packer source), and the
//! provisioning-tool configuration artifact rendered from both. One artifact
//! is composed of a source section and a build section joined by a blank
//! line; each section renders from its own template, and any failure
//! propagates with no partial artifact.

use vstd::prelude::*;
use vstd::string::StrSliceExecFns;
use vstd::utf8::encode_utf8;
use crate::config::SwoonConfig;
use crate::error::Error;
use crate::gcloud::GcloudContext;
use crate::gcloud::PlatformContexts;
use crate::gcloud::family_name_by_os;
use crate::os::OperatingSystem;
use crate::os::family_spec;
use crate::os::format_spec;
use crate::platform::CloudPlatform;
use crate::template::template_output;
use crate::template::pairs_map;
use crate::template::render_template;

verus! {

/// Where a machine image starts from: an operating-system baseline, or a
/// pinned named image.
#[derive(Debug)]
pub enum ImageSource {
    OperatingSystem { os: OperatingSystem },
    Image { name: String },
}

/// The display string of an image source.
pub open spec fn source_string_spec(s: ImageSource) -> Seq<char> {
    match s {
        ImageSource::OperatingSystem { os } => format_spec(os),
        ImageSource::Image { name } => name@,
    }
}

/// One image to bake: a platform and a source.
#[derive(Debug)]
pub struct ImageSpec {
    pub platform: CloudPlatform,
    pub source: ImageSource,
}

impl ImageSpec {
    /// The human-readable source string, for display and logging.
    pub fn source_string(&self) -> (r: String)
        ensures
            r@ == source_string_spec(self.source),
    {
        match &self.source {
            ImageSource::OperatingSystem { os } => os.to_string(),
            ImageSource::Image { name } => name.clone(),
        }
    }
}

/// The options a bake is invoked with.
#[derive(Debug)]
pub struct BakeOpts {
    pub approve_plan: bool,
}

/// The plan tying the configuration to the image specification to bake.
#[derive(Debug)]
pub struct BakingPlan {
    pub default_archetype: ImageSpec,
}

impl BakingPlan {
    /// Builds the plan for the default archetype: a pure function of the
    /// configuration, baking its default operating system on its default
    /// platform.
    pub fn from(cfg: &SwoonConfig) -> (r: BakingPlan)
        ensures
            (r.default_archetype.source matches ImageSource::OperatingSystem { os } && os
                == cfg.default_os),
            r.default_archetype.platform == cfg.default_platform,
    {
        BakingPlan {
            default_archetype: ImageSpec {
                source: ImageSource::OperatingSystem { os: cfg.default_os },
                platform: cfg.default_platform,
            },
        }
    }
}

/// How the provider looks the base image up: by rolling family (always the
/// most recent matching image) or by pinned name.
#[derive(Debug)]
pub enum SourceImageMethod {
    Family(String),
    Name(String),
}

/// The template of the gcloud source section.
pub const GCLOUD_SOURCE_TEMPLATE: &'static str = "source \"googlecompute\" \"{{ source_label }}\" {\n  project_id          = \"{{ project_id }}\"\n  {{ source_image_method }} = \"{{ source_image_value }}\"\n  image_name          = \"{{ image_name }}\"\n}\n";

/// The template of the build section.
pub const BUILD_TEMPLATE: &'static str = "build {\n  name    = \"{{ image_name }}\"\n  sources = [\"{{ source_name }}\"]\n}\n";

/// A gcloud packer source: the resolved image lookup, the target project,
/// the generated artifact name, and the fixed source label.
#[derive(Debug)]
pub struct GcloudPackerSource {
    pub image_name: String,
    pub project_id: String,
    pub source_label: String,
    pub source_method: SourceImageMethod,
}

/// What a gcloud source built from a configuration, a context and an
/// operating system holds: the artifact name generated from the
/// organization name and the build stamp, the context's validated project,
/// the fixed `archetype` label, and a lookup by the system's image family.
pub open spec fn gcloud_source_spec(
    cfg: SwoonConfig,
    ctx: GcloudContext,
    os: OperatingSystem,
    g: GcloudPackerSource,
) -> bool {
    &&& g.image_name@ == cfg.org_name@ + "-archetype-2020-01-02"@
    &&& g.project_id@ == ctx.spec_default_project_id()
    &&& g.source_label@ == "archetype"@
    &&& (g.source_method matches SourceImageMethod::Family(f) && f@ == family_spec(os))
}

/// The data the source-section template is rendered against.
pub open spec fn source_data_spec(g: GcloudPackerSource) -> Map<Seq<char>, Seq<char>> {
    map![
        "project_id"@ => g.project_id@,
        "source_image_method"@ => (match g.source_method {
            SourceImageMethod::Family(_) => "source_image_family"@,
            SourceImageMethod::Name(_) => "source_image"@,
        }),
        "source_image_value"@ => (match g.source_method {
            SourceImageMethod::Family(v) => v@,
            SourceImageMethod::Name(v) => v@,
        }),
        "image_name"@ => g.image_name@,
        "source_label"@ => g.source_label@,
    ]
}

/// The outcome of rendering a gcloud source section.
pub open spec fn gcloud_hcl_output(g: GcloudPackerSource) -> Result<Seq<char>, Seq<char>> {
    template_output(GCLOUD_SOURCE_TEMPLATE@, source_data_spec(g))
}

impl GcloudPackerSource {
    /// The source for baking an operating system: looked up by image
    /// family, so the provider picks the most recent matching image. The
    /// build stamp in the artifact name is a fixed placeholder date for
    /// now; whatever it becomes, it must stay the same across every
    /// artifact of one plan, which a constant gives trivially.
    pub fn from_os(cfg: &SwoonConfig, gcloud_ctx: &GcloudContext, os: &OperatingSystem) -> (r:
        GcloudPackerSource)
        ensures
            gcloud_source_spec(*cfg, *gcloud_ctx, *os, r),
    {
        GcloudPackerSource {
            image_name: cfg.org_name.clone().concat("-archetype-2020-01-02"),
            project_id: gcloud_ctx.default_project_id().clone(),
            source_label: "archetype".to_owned(),
            source_method: SourceImageMethod::Family(family_name_by_os(os)),
        }
    }

    /// Renders the source section from its template; a failure carries the
    /// engine's message and yields no text.
    pub fn to_hcl(&self) -> (r: Result<String, Error>)
        ensures
            (r is Ok <==> gcloud_hcl_output(*self) is Ok),
            (r matches Ok(s) ==> s@ == gcloud_hcl_output(*self)->Ok_0),
            (r matches Err(e) ==> (e matches Error::RenderError { message } && message@
                == gcloud_hcl_output(*self)->Err_0)),
    {
        let method: &str = match &self.source_method {
            SourceImageMethod::Family(_) => "source_image_family",
            SourceImageMethod::Name(_) => "source_image",
        };
        let value: &String = match &self.source_method {
            SourceImageMethod::Family(v) => v,
            SourceImageMethod::Name(v) => v,
        };
        let mut pairs: Vec<(String, String)> = Vec::new();
        pairs.push(("project_id".to_owned(), self.project_id.clone()));
        pairs.push(("source_image_method".to_owned(), method.to_owned()));
        pairs.push(("source_image_value".to_owned(), value.clone()));
        pairs.push(("image_name".to_owned(), self.image_name.clone()));
        pairs.push(("source_label".to_owned(), self.source_label.clone()));
        proof {
            let s = pairs@;
            let s4 = s.drop_last();
            let s3 = s4.drop_last();
            let s2 = s3.drop_last();
            let s1 = s2.drop_last();
            let s0 = s1.drop_last();
            assert(s0.len() == 0);
            assert(s1 =~= seq![s[0]]);
            assert(s2 =~= seq![s[0], s[1]]);
            assert(s3 =~= seq![s[0], s[1], s[2]]);
            assert(s4 =~= seq![s[0], s[1], s[2], s[3]]);
            assert(pairs_map(s) == pairs_map(s4).insert(s.last().0@, s.last().1@));
            assert(pairs_map(s4) == pairs_map(s3).insert(s4.last().0@, s4.last().1@));
            assert(pairs_map(s3) == pairs_map(s2).insert(s3.last().0@, s3.last().1@));
            assert(pairs_map(s2) == pairs_map(s1).insert(s2.last().0@, s2.last().1@));
            assert(pairs_map(s1) == pairs_map(s0).insert(s1.last().0@, s1.last().1@));
            assert(pairs_map(s) =~= source_data_spec(*self));
        }
        render_template(GCLOUD_SOURCE_TEMPLATE, &pairs)
    }
}

/// A provider-specific packer source, as a closed tagged variant; adding a
/// platform adds a variant here without touching the build section.
#[derive(Debug)]
pub enum PackerSource {
    Gcloud(GcloudPackerSource),
}

/// The section name a source is bound to in the build section.
pub open spec fn source_name_spec(s: PackerSource) -> Seq<char> {
    match s {
        PackerSource::Gcloud(g) => "source.googlecompute."@ + g.source_label@,
    }
}

/// The outcome of rendering a source section.
pub open spec fn source_hcl_output(s: PackerSource) -> Result<Seq<char>, Seq<char>> {
    match s {
        PackerSource::Gcloud(g) => gcloud_hcl_output(g),
    }
}

impl PackerSource {
    /// The name the build section binds this source by.
    pub fn name(&self) -> (r: String)
        ensures
            r@ == source_name_spec(*self),
    {
        match self {
            PackerSource::Gcloud(g) => {
                let mut s = "source.googlecompute.".to_owned();
                s.append(g.source_label.as_str());
                s
            },
        }
    }

    /// Renders this source's section.
    pub fn to_hcl(&self) -> (r: Result<String, Error>)
        ensures
            (r is Ok <==> source_hcl_output(*self) is Ok),
            (r matches Ok(s) ==> s@ == source_hcl_output(*self)->Ok_0),
            (r matches Err(e) ==> (e matches Error::RenderError { message } && message@
                == source_hcl_output(*self)->Err_0)),
    {
        match self {
            PackerSource::Gcloud(g) => g.to_hcl(),
        }
    }
}

/// The packer source for baking an operating system on a platform. Only GCP
/// has an adapter; any other platform fails fast with a distinct
/// `UnimplementedPlatform` error, never a silent fallback.
pub fn from_os(
    cfg: &SwoonConfig,
    platforms: &PlatformContexts,
    platform: &CloudPlatform,
    os: &OperatingSystem,
) -> (r: Result<PackerSource, Error>)
    requires
        *platform == CloudPlatform::GCP ==> platforms.gcloud is Some,
    ensures
        (r is Ok <==> *platform == CloudPlatform::GCP),
        (r matches Ok(s) ==> (s matches PackerSource::Gcloud(g) && gcloud_source_spec(
            *cfg,
            platforms.gcloud->Some_0,
            *os,
            g,
        ))),
        (*platform != CloudPlatform::GCP ==> r == Err::<PackerSource, Error>(
            Error::UnimplementedPlatform { platform: *platform },
        )),
{
    match platform {
        CloudPlatform::GCP => Ok(
            PackerSource::Gcloud(GcloudPackerSource::from_os(cfg, platforms.gcloud_ctx(), os)),
        ),
        _ => Err(Error::UnimplementedPlatform { platform: *platform }),
    }
}

/// The data the build-section template is rendered against.
pub open spec fn build_data_spec(first: PackerSource) -> Map<Seq<char>, Seq<char>> {
    map!["source_name"@ => source_name_spec(first), "image_name"@ => "archetype"@]
}

/// The outcome of rendering the build section of a build.
pub open spec fn build_hcl_output(b: PackerBuild) -> Result<Seq<char>, Seq<char>>
    recommends
        b.sources.len() >= 1,
{
    template_output(BUILD_TEMPLATE@, build_data_spec(b.sources[0]))
}

/// The outcome of rendering all source sections of a sequence, joined by
/// blank lines, failing at the first source that fails.
pub open spec fn joined_sources_output(sources: Seq<PackerSource>) -> Result<Seq<char>, Seq<char>>
    decreases sources.len(),
{
    if sources.len() == 0 {
        Ok(Seq::empty())
    } else if sources.len() == 1 {
        source_hcl_output(sources[0])
    } else {
        match (joined_sources_output(sources.drop_last()), source_hcl_output(sources.last())) {
            (Ok(a), Ok(b)) => Ok(a + "\n\n"@ + b),
            (Err(e), _) => Err(e),
            (Ok(_), Err(e)) => Err(e),
        }
    }
}

/// An error in a prefix of the sources is the error of the whole sequence.
proof fn lemma_joined_err_extends(sources: Seq<PackerSource>, k: int)
    requires
        0 < k <= sources.len(),
        joined_sources_output(sources.take(k)) is Err,
    ensures
        joined_sources_output(sources) is Err,
        joined_sources_output(sources)->Err_0 == joined_sources_output(sources.take(k))->Err_0,
    decreases sources.len() - k,
{
    if k == sources.len() {
        assert(sources.take(k) =~= sources);
    } else {
        assert(sources.take(k + 1).drop_last() =~= sources.take(k));
        assert(sources.take(k + 1).last() == sources[k]);
        lemma_joined_err_extends(sources, k + 1);
    }
}

/// A packer build: the sources to bake and the build section binding the
/// first of them.
#[derive(Debug)]
pub struct PackerBuild {
    pub sources: Vec<PackerSource>,
}

impl PackerBuild {
    /// An archetype build of the given sources.
    pub fn archetype(sources: Vec<PackerSource>) -> (r: PackerBuild)
        ensures
            r.sources == sources,
    {
        PackerBuild { sources }
    }

    /// The archetype build of the configuration's default operating system
    /// on its default platform.
    pub fn default_archetype(cfg: &SwoonConfig, platforms: &PlatformContexts) -> (r: Result<
        PackerBuild,
        Error,
    >)
        requires
            cfg.default_platform == CloudPlatform::GCP ==> platforms.gcloud is Some,
        ensures
            (r is Ok <==> cfg.default_platform == CloudPlatform::GCP),
            (r matches Ok(b) ==> b.sources.len() == 1 && (b.sources[0] matches
            PackerSource::Gcloud(g) && gcloud_source_spec(
                *cfg,
                platforms.gcloud->Some_0,
                cfg.default_os,
                g,
            ))),
            (cfg.default_platform != CloudPlatform::GCP ==> r == Err::<PackerBuild, Error>(
                Error::UnimplementedPlatform { platform: cfg.default_platform },
            )),
    {
        match from_os(cfg, platforms, &cfg.default_platform, &cfg.default_os) {
            Ok(s) => {
                let mut sources: Vec<PackerSource> = Vec::new();
                sources.push(s);
                Ok(PackerBuild { sources })
            },
            Err(e) => Err(e),
        }
    }

    /// Renders the build section, binding the first source's name to the
    /// image-name output.
    pub fn to_hcl(&self) -> (r: Result<String, Error>)
        requires
            self.sources.len() >= 1,
        ensures
            (r is Ok <==> build_hcl_output(*self) is Ok),
            (r matches Ok(s) ==> s@ == build_hcl_output(*self)->Ok_0),
            (r matches Err(e) ==> (e matches Error::RenderError { message } && message@
                == build_hcl_output(*self)->Err_0)),
    {
        let mut pairs: Vec<(String, String)> = Vec::new();
        pairs.push(("source_name".to_owned(), self.sources[0].name()));
        pairs.push(("image_name".to_owned(), "archetype".to_owned()));
        proof {
            let s = pairs@;
            let s1 = s.drop_last();
            let s0 = s1.drop_last();
            assert(s0.len() == 0);
            assert(s1 =~= seq![s[0]]);
            assert(pairs_map(s) == pairs_map(s1).insert(s.last().0@, s.last().1@));
            assert(pairs_map(s1) == pairs_map(s0).insert(s1.last().0@, s1.last().1@));
            assert(pairs_map(s) =~= build_data_spec(self.sources[0]));
        }
        render_template(BUILD_TEMPLATE, &pairs)
    }

    /// Runs the bake of this build; invoking the provisioning tool is not
    /// implemented yet, so there is nothing to do.
    pub fn bake(&self) -> (r: Result<(), Error>)
        ensures
            r is Ok,
    {
        Ok(())
    }
}

/// The outcome of composing the whole artifact of a build: every source
/// section, then the build section, joined by blank lines; the first
/// failure is the artifact's failure, and a failed artifact has no bytes.
pub open spec fn content_spec(b: PackerBuild) -> Result<Seq<u8>, Seq<char>>
    recommends
        b.sources.len() >= 1,
{
    match joined_sources_output(b.sources@) {
        Err(e) => Err(e),
        Ok(sources_text) => match build_hcl_output(b) {
            Err(e) => Err(e),
            Ok(build_text) => Ok(encode_utf8(sources_text + "\n\n"@ + build_text)),
        },
    }
}

/// The artifact file of a build.
pub struct PackerBuildFile<'a> {
    pub build: &'a PackerBuild,
}

impl<'a> PackerBuildFile<'a> {
    /// The file of one build.
    pub fn example(build: &'a PackerBuild) -> (r: PackerBuildFile<'a>)
        ensures
            r.build == build,
    {
        PackerBuildFile { build }
    }

    /// Composes the artifact bytes; a render failure anywhere yields the
    /// failure and no bytes at all.
    pub fn content(&self) -> (r: Result<Vec<u8>, Error>)
        requires
            self.build.sources.len() >= 1,
        ensures
            (r is Ok <==> content_spec(*self.build) is Ok),
            (r matches Ok(v) ==> v@ == content_spec(*self.build)->Ok_0),
            (r matches Err(e) ==> (e matches Error::RenderError { message } && message@
                == content_spec(*self.build)->Err_0)),
    {
        let n = self.build.sources.len();
        let mut text = String::new();
        let mut i: usize = 0;
        while i < n
            invariant
                1 <= n == self.build.sources@.len(),
                i <= n,
                joined_sources_output(self.build.sources@.take(i as int)) is Ok,
                (i > 0 ==> text@ == joined_sources_output(
                    self.build.sources@.take(i as int),
                )->Ok_0),
                i == 0 ==> text@ == Seq::<char>::empty(),
            decreases n - i,
        {
            let ghost prefix = self.build.sources@.take(i as int);
            let section = match self.build.sources[i].to_hcl() {
                Ok(h) => h,
                Err(e) => {
                    proof {
                        assert(self.build.sources@.take(i as int + 1).drop_last() =~= prefix);
                        assert(self.build.sources@.take(i as int + 1).last()
                            == self.build.sources@[i as int]);
                        lemma_joined_err_extends(self.build.sources@, i as int + 1);
                    }
                    return Err(e);
                },
            };
            if i > 0 {
                text.append("\n\n");
            }
            text.append(section.as_str());
            proof {
                assert(self.build.sources@.take(i as int + 1).drop_last() =~= prefix);
                assert(self.build.sources@.take(i as int + 1).last()
                    == self.build.sources@[i as int]);
            }
            i += 1;
        }
        proof {
            assert(self.build.sources@.take(n as int) =~= self.build.sources@);
        }
        let build_section = match self.build.to_hcl() {
            Ok(h) => h,
            Err(e) => {
                return Err(e);
            },
        };
        text.append("\n\n");
        text.append(build_section.as_str());
        Ok(text.as_str().as_bytes_vec())
    }
}

} // verus!
