//! User configuration: the value the rest of the pipeline is a function of,
//! assembly of that value from optional CLI strings, and the rendering of
//! its on-disk form.

use vstd::prelude::*;
use crate::error::Error;
use crate::os::OperatingSystem;
use crate::os::parse_spec;
use crate::os::format_spec;
use crate::os::default_os_spec;
use crate::platform::CloudPlatform;
use crate::platform::platform_of_label;
use crate::platform::platform_label;
use crate::template::template_output;
use crate::template::pairs_map;
use crate::template::render_template;

verus! {

/// The configuration read once per invocation, before the pipeline runs.
#[derive(Debug)]
pub struct SwoonConfig {
    pub org_name: String,
    pub default_os: OperatingSystem,
    pub default_platform: CloudPlatform,
}

/// The options project initialisation is invoked with.
#[derive(Debug)]
pub struct InitOpts {
    pub non_interactive: bool,
    pub template_name: Option<String>,
    pub org_name: Option<String>,
    pub default_platform: Option<String>,
    pub default_os: Option<String>,
}

/// The operating system an optional specifier denotes: the default when
/// absent, its alias-table denotation when present, nothing when invalid.
pub open spec fn os_choice(spec_opt: Option<String>) -> Option<OperatingSystem> {
    match spec_opt {
        None => Some(default_os_spec()),
        Some(s) => parse_spec(s@),
    }
}

/// The platform an optional label denotes: GCP when absent, its canonical
/// denotation when present, nothing when invalid.
pub open spec fn platform_choice(label_opt: Option<String>) -> Option<CloudPlatform> {
    match label_opt {
        None => Some(CloudPlatform::GCP),
        Some(s) => platform_of_label(s@),
    }
}

/// Assembles a configuration from an organization name and optional
/// operating-system and platform strings. An invalid operating-system
/// specifier is reported first; then an invalid platform label; each as an
/// `InvalidSpecifier` carrying the offending string.
pub fn config_from_options(
    org_name: String,
    default_os: Option<String>,
    default_platform: Option<String>,
) -> (r: Result<SwoonConfig, Error>)
    ensures
        (r is Ok <==> os_choice(default_os) is Some && platform_choice(default_platform) is Some),
        (r matches Ok(cfg) ==> cfg.org_name == org_name && cfg.default_os == os_choice(
            default_os,
        )->Some_0 && cfg.default_platform == platform_choice(default_platform)->Some_0),
        (os_choice(default_os) is None ==> (r matches Err(e) && e matches Error::InvalidSpecifier {
            specifier,
        } && specifier@ == default_os->Some_0@)),
        (os_choice(default_os) is Some && platform_choice(default_platform) is None ==> (r matches
        Err(e) && e matches Error::InvalidSpecifier { specifier } && specifier@
            == default_platform->Some_0@)),
{
    let os = match &default_os {
        None => crate::os::default_os(),
        Some(s) => match OperatingSystem::from_string(s.as_str()) {
            Ok(o) => o,
            Err(e) => {
                return Err(e);
            },
        },
    };
    let platform = match &default_platform {
        None => CloudPlatform::GCP,
        Some(s) => match CloudPlatform::from_str(s.as_str()) {
            Some(p) => p,
            None => {
                return Err(Error::InvalidSpecifier { specifier: s.clone() });
            },
        },
    };
    Ok(SwoonConfig { org_name, default_os: os, default_platform: platform })
}

/// Assembles a configuration from initialisation options; the CLI layer has
/// already checked that an organization name was given.
pub fn resolve_config_from_opts(opts: InitOpts) -> (r: Result<SwoonConfig, Error>)
    requires
        opts.org_name is Some,
    ensures
        (r is Ok <==> os_choice(opts.default_os) is Some && platform_choice(opts.default_platform)
            is Some),
        (r matches Ok(cfg) ==> cfg.org_name == opts.org_name->Some_0 && cfg.default_os
            == os_choice(opts.default_os)->Some_0 && cfg.default_platform == platform_choice(
            opts.default_platform,
        )->Some_0),
        (os_choice(opts.default_os) is None ==> (r matches Err(e)
            && e matches Error::InvalidSpecifier { specifier } && specifier@
            == opts.default_os->Some_0@)),
        (os_choice(opts.default_os) is Some && platform_choice(opts.default_platform) is None ==> (
        r matches Err(e) && e matches Error::InvalidSpecifier { specifier } && specifier@
            == opts.default_platform->Some_0@)),
{
    let InitOpts { org_name, default_os, default_platform, .. } = opts;
    config_from_options(org_name.unwrap(), default_os, default_platform)
}

/// The template of the on-disk configuration file.
pub const SWOON_CONFIG_TEMPLATE: &'static str = "---\norg_name: {{ org_name }}\ndefault_platform: {{ default_platform }}\ndefault_os: {{ default_os }}\n";

/// The data the configuration-file template is rendered against.
pub open spec fn config_data_spec(cfg: SwoonConfig) -> Map<Seq<char>, Seq<char>> {
    map![
        "org_name"@ => cfg.org_name@,
        "default_platform"@ => platform_label(cfg.default_platform),
        "default_os"@ => format_spec(cfg.default_os),
    ]
}

/// Renders the on-disk form of a configuration.
pub fn config_file_contents(cfg: &SwoonConfig) -> (r: Result<String, Error>)
    ensures
        (r is Ok <==> template_output(SWOON_CONFIG_TEMPLATE@, config_data_spec(*cfg)) is Ok),
        (r matches Ok(s) ==> s@ == template_output(SWOON_CONFIG_TEMPLATE@, config_data_spec(*cfg))->Ok_0),
        (r matches Err(e) ==> (e matches Error::RenderError { message } && message@ == template_output(
            SWOON_CONFIG_TEMPLATE@,
            config_data_spec(*cfg),
        )->Err_0)),
{
    let mut pairs: Vec<(String, String)> = Vec::new();
    pairs.push(("org_name".to_owned(), cfg.org_name.clone()));
    pairs.push(("default_platform".to_owned(), cfg.default_platform.to_str().to_owned()));
    pairs.push(("default_os".to_owned(), cfg.default_os.to_string()));
    proof {
        let s = pairs@;
        let s2 = s.drop_last();
        let s1 = s2.drop_last();
        let s0 = s1.drop_last();
        assert(s0.len() == 0);
        assert(s1 =~= seq![s[0]]);
        assert(s2 =~= seq![s[0], s[1]]);
        assert(pairs_map(s) == pairs_map(s2).insert(s.last().0@, s.last().1@));
        assert(pairs_map(s2) == pairs_map(s1).insert(s2.last().0@, s2.last().1@));
        assert(pairs_map(s1) == pairs_map(s0).insert(s1.last().0@, s1.last().1@));
        assert(pairs_map(s) =~= config_data_spec(*cfg));
    }
    render_template(SWOON_CONFIG_TEMPLATE, &pairs)
}

} // verus!
