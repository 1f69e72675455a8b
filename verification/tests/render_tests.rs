use swoon::config::{config_file_contents, config_from_options, SwoonConfig};
use swoon::error::Error;
use swoon::gcloud::{GcloudContext, PlatformContexts};
use swoon::os::OperatingSystem;
use swoon::packer::{
    from_os, BakingPlan, GcloudPackerSource, ImageSource, ImageSpec, PackerBuild, PackerBuildFile,
    PackerSource, SourceImageMethod,
};
use swoon::platform::CloudPlatform;
use swoon::template::render_template;

fn acme_config() -> SwoonConfig {
    SwoonConfig {
        org_name: "acme".to_string(),
        default_os: OperatingSystem::Debian { version: 11 },
        default_platform: CloudPlatform::GCP,
    }
}

fn resolved_context() -> GcloudContext {
    GcloudContext::init(
        Ok("a\nb".to_string()),
        Ok("a".to_string()),
        Ok("debian-11-bullseye-v20211209".to_string()),
    )
    .unwrap()
}

#[test]
fn test_template() {
    let pairs = vec![
        ("foo".to_string(), "foo".to_string()),
        ("bar".to_string(), "bar".to_string()),
    ];
    let result = render_template("{{ foo }} {{ bar }}", &pairs).expect("no error");
    assert_eq!(result, "foo bar");
}

#[test]
fn template_test_template() {
    let pairs = vec![
        ("foo".to_string(), "foo".to_string()),
        ("bar".to_string(), "bar".to_string()),
    ];
    let result = render_template("{{ foo }} {{ bar }}", &pairs).expect("no error");
    assert_eq!(result, "foo bar");
}

#[test]
fn undefined_placeholder_fails_with_a_render_error_and_no_output() {
    let r = render_template("{{ missing }}", &Vec::new());
    match r {
        Ok(_) => panic!("rendering an undefined placeholder must fail"),
        Err(Error::RenderError { message }) => assert!(!message.is_empty()),
        Err(other) => panic!("wrong error variant: {:?}", other),
    }
}

#[test]
fn oversized_integer_literals_are_rejected_before_the_engine() {
    let r = render_template("{{ 99999999999999999999 }}", &Vec::new());
    match r {
        Ok(_) => panic!("a template with a twenty-digit literal must be rejected"),
        Err(Error::RenderError { message }) => assert!(message.contains("19 or more digits")),
        Err(other) => panic!("wrong error variant: {:?}", other),
    }
    let r19 = render_template("{{ 9999999999999999999 }}", &Vec::new());
    assert!(matches!(r19, Err(Error::RenderError { .. })));
}

#[test]
fn integer_literals_within_range_still_render() {
    assert_eq!(
        "123456789012345678",
        render_template("{{ 123456789012345678 }}", &Vec::new()).unwrap()
    );
}

#[test]
fn later_bindings_replace_earlier_ones() {
    let pairs = vec![
        ("k".to_string(), "first".to_string()),
        ("k".to_string(), "second".to_string()),
    ];
    assert_eq!("second", render_template("{{ k }}", &pairs).unwrap());
}

#[test]
fn config_file_contents_render_the_canonical_forms() {
    let contents = config_file_contents(&acme_config()).unwrap();
    assert_eq!("---\norg_name: acme\ndefault_platform: gcp\ndefault_os: debian:11\n", contents);

    let debian10 = SwoonConfig {
        org_name: "acme".to_string(),
        default_os: OperatingSystem::Debian { version: 10 },
        default_platform: CloudPlatform::GCP,
    };
    assert_eq!(
        "---\norg_name: acme\ndefault_platform: gcp\ndefault_os: debian:10\n",
        config_file_contents(&debian10).unwrap()
    );
}

#[test]
fn config_from_options_applies_defaults_and_rejects_bad_specifiers() {
    let cfg = config_from_options("acme".to_string(), None, None).unwrap();
    assert_eq!("acme", cfg.org_name);
    assert_eq!(OperatingSystem::Debian { version: 11 }, cfg.default_os);
    assert_eq!(CloudPlatform::GCP, cfg.default_platform);

    let bad_os = config_from_options("acme".to_string(), Some("windows:95".to_string()), None);
    assert_eq!(
        bad_os.unwrap_err(),
        Error::InvalidSpecifier { specifier: "windows:95".to_string() }
    );

    let bad_platform =
        config_from_options("acme".to_string(), None, Some("mainframe".to_string()));
    assert_eq!(
        bad_platform.unwrap_err(),
        Error::InvalidSpecifier { specifier: "mainframe".to_string() }
    );
}

#[test]
fn baking_plan_describes_the_default_archetype() {
    let plan = BakingPlan::from(&acme_config());
    assert_eq!(CloudPlatform::GCP, plan.default_archetype.platform);
    assert_eq!("debian:11", plan.default_archetype.source_string());

    let named = ImageSpec {
        platform: CloudPlatform::GCP,
        source: ImageSource::Image { name: "pinned-image".to_string() },
    };
    assert_eq!("pinned-image", named.source_string());
}

#[test]
fn gcloud_source_is_built_from_config_context_and_os() {
    let source = GcloudPackerSource::from_os(
        &acme_config(),
        &resolved_context(),
        &OperatingSystem::Debian { version: 11 },
    );
    assert_eq!("acme-archetype-2020-01-02", source.image_name);
    assert_eq!("a", source.project_id);
    assert_eq!("archetype", source.source_label);
    match &source.source_method {
        SourceImageMethod::Family(f) => assert_eq!("debian-11", f),
        SourceImageMethod::Name(_) => panic!("expected a family lookup"),
    }
    let wrapped = PackerSource::Gcloud(source);
    assert_eq!("source.googlecompute.archetype", wrapped.name());
}

#[test]
fn unimplemented_platforms_fail_fast() {
    let contexts = PlatformContexts { gcloud: Some(resolved_context()) };
    let r = from_os(
        &acme_config(),
        &contexts,
        &CloudPlatform::AWS,
        &OperatingSystem::Debian { version: 11 },
    );
    assert_eq!(
        r.unwrap_err(),
        Error::UnimplementedPlatform { platform: CloudPlatform::AWS }
    );
    assert_eq!(
        "unable to create packer source for unimplemented platform aws",
        Error::UnimplementedPlatform { platform: CloudPlatform::AWS }.message()
    );
}

#[test]
fn artifact_composes_source_and_build_sections() {
    let contexts = PlatformContexts { gcloud: Some(resolved_context()) };
    let build = PackerBuild::default_archetype(&acme_config(), &contexts).unwrap();
    assert!(build.bake().is_ok());
    let file = PackerBuildFile::example(&build);
    let bytes = file.content().unwrap();
    let text = String::from_utf8(bytes).unwrap();
    let expected_source = "source \"googlecompute\" \"archetype\" {\n  project_id          = \"a\"\n  source_image_family = \"debian-11\"\n  image_name          = \"acme-archetype-2020-01-02\"\n}\n";
    let expected_build = "build {\n  name    = \"archetype\"\n  sources = [\"source.googlecompute.archetype\"]\n}\n";
    assert_eq!(format!("{}\n\n{}", expected_source, expected_build), text);
}

#[test]
fn platform_contexts_default_has_no_gcloud() {
    let contexts = PlatformContexts::default();
    assert!(contexts.gcloud.is_none());
}
