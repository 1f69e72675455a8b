use swoon::error::{CommandFailure, Error};
use swoon::gcloud::{GcloudCli, GcloudContext};
use swoon::os::OperatingSystem;
use swoon::platform::CloudPlatform;

fn failure(cmd: &str) -> CommandFailure {
    CommandFailure {
        command: cmd.to_string(),
        exit_code: Some(1),
        stderr: "boom".to_string(),
    }
}

#[test]
fn resolution_fails_when_default_project_is_not_accessible() {
    let r = GcloudContext::init(
        Ok("a\nb".to_string()),
        Ok("c".to_string()),
        Ok("debian-11-bullseye-v20211209".to_string()),
    );
    assert_eq!(
        r.unwrap_err(),
        Error::UnresolvedDefaultProject { project_id: Some("c".to_string()) }
    );
}

#[test]
fn resolution_succeeds_when_default_project_is_accessible() {
    let r = GcloudContext::init(
        Ok("a\nb".to_string()),
        Ok("a".to_string()),
        Ok("debian-11-bullseye-v20211209".to_string()),
    );
    let ctx = r.unwrap();
    assert_eq!("a", ctx.default_project_id());
    assert_eq!("debian-11-bullseye-v20211209", ctx.default_os_image_name());
}

#[test]
fn unset_default_project_is_a_remediation_hint_not_a_command_failure() {
    let r = GcloudContext::init(
        Ok("a\nb".to_string()),
        Ok("(unset)".to_string()),
        Ok("debian-11-bullseye-v20211209".to_string()),
    );
    let e = r.unwrap_err();
    assert_eq!(e, Error::UnresolvedDefaultProject { project_id: None });
    assert!(!matches!(e, Error::ExternalCommandFailure { .. }));
    assert_eq!(
        "gcloud does not have a configured default project\n\nrun 'gcloud configure set core/project $my_project_id'",
        e.message()
    );
}

#[test]
fn any_failing_query_fails_the_whole_resolution() {
    let ok_projects = || Ok("a\nb".to_string());
    let ok_default = || Ok("a".to_string());
    let ok_image = || Ok("debian-11-bullseye-v20211209".to_string());

    let r1 = GcloudContext::init(Err(failure("gcloud projects list")), ok_default(), ok_image());
    assert_eq!(
        r1.unwrap_err(),
        Error::ExternalCommandFailure { failure: failure("gcloud projects list") }
    );

    let r2 = GcloudContext::init(ok_projects(), Err(failure("gcloud config get-value")), ok_image());
    assert_eq!(
        r2.unwrap_err(),
        Error::ExternalCommandFailure { failure: failure("gcloud config get-value") }
    );

    let r3 = GcloudContext::init(ok_projects(), ok_default(), Err(failure("gcloud compute images list")));
    assert_eq!(
        r3.unwrap_err(),
        Error::ExternalCommandFailure { failure: failure("gcloud compute images list") }
    );
}

#[test]
fn a_single_project_line_resolves() {
    let r = GcloudContext::init(
        Ok("only".to_string()),
        Ok("only".to_string()),
        Ok("img".to_string()),
    );
    assert_eq!("only", r.unwrap().default_project_id());
}

#[test]
fn no_accessible_projects_never_resolves() {
    let r = GcloudContext::init(Ok("".to_string()), Ok("a".to_string()), Ok("img".to_string()));
    assert_eq!(
        r.unwrap_err(),
        Error::UnresolvedDefaultProject { project_id: Some("a".to_string()) }
    );
}

#[test]
fn command_failure_messages_carry_exit_code_and_command() {
    let with_code = Error::ExternalCommandFailure { failure: failure("gcloud projects list") };
    assert_eq!("exit code 1 invoking gcloud projects list", with_code.message());
    let without_code = Error::ExternalCommandFailure {
        failure: CommandFailure {
            command: "gcloud".to_string(),
            exit_code: None,
            stderr: String::new(),
        },
    };
    assert_eq!("exit code ? invoking gcloud", without_code.message());
}

#[test]
fn gcloud_query_argument_lists() {
    let cli = GcloudCli::new("/usr/bin/gcloud".to_string());
    assert_eq!(
        vec!["projects", "list", "--format=value(projectId)", "-q"],
        cli.all_projects_args()
    );
    assert_eq!(vec!["config", "get-value", "core/project", "-q"], cli.default_project_args());
    let os = OperatingSystem::Debian { version: 11 };
    assert_eq!(
        vec![
            "compute",
            "images",
            "list",
            "--format=value(name)",
            "--filter=family:debian-11",
            "-q"
        ],
        cli.image_name_args(&os)
    );
    assert_eq!("/usr/bin/gcloud", cli.path);
}

#[test]
fn platform_labels() {
    assert_eq!(Some(CloudPlatform::GCP), CloudPlatform::from_str("gcp"));
    assert_eq!(Some(CloudPlatform::AWS), CloudPlatform::from_str("aws"));
    assert_eq!(None, CloudPlatform::from_str("metal"));
    assert_eq!("gcp", CloudPlatform::GCP.to_str());
    for label in ["aws", "azure", "digitalocean", "gcp", "linode", "vultr"] {
        assert_eq!(label, CloudPlatform::from_str(label).unwrap().to_str());
    }
}
