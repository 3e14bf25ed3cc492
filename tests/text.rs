use devctr::identity::{current_identity, identity_from};
use devctr::layout::{
    common_library_path, container_path, containers_dir, dockerfile_path, launcher_path,
    metadata_path, placeholder_path, prebuild_path, repo_path, repos_dir, subdir_path,
};
use devctr::prompt::{build_args, prompt_message};
use devctr::render::{render_dockerfile, subrepo_tag};
use devctr::text::{decimal, trim, white_space};

#[test]
fn decimal_numbers() {
    assert_eq!(decimal(0), "0");
    assert_eq!(decimal(7), "7");
    assert_eq!(decimal(10), "10");
    assert_eq!(decimal(1000), "1000");
    assert_eq!(decimal(u32::MAX), "4294967295");
}

#[test]
fn trimming() {
    assert_eq!(trim(""), "");
    assert_eq!(trim(" \t\n"), "");
    assert_eq!(trim("  a b  \n"), "a b");
    assert_eq!(trim("\u{3000}x\u{a0}"), "x");
    assert_eq!(trim("é "), "é");
    assert!(white_space('\u{85}'));
    assert!(!white_space('x'));
}

#[test]
fn build_args_from_answers() {
    assert_eq!(build_args(""), "-f ./Dockerfile ./");
    assert_eq!(build_args("\n"), "-f ./Dockerfile ./");
    assert_eq!(build_args("   \r\n"), "-f ./Dockerfile ./");
    assert_eq!(build_args(" -f x/Dockerfile x \n"), "-f x/Dockerfile x");
}

#[test]
fn prompt_names_repo_and_script() {
    let m = prompt_message("dev", "app");
    assert!(m.starts_with("Fill in the rest of the docker build command"));
    assert!(m.contains("make sure to edit `.devcontainer/dev/prebuild` script later)\n\n"));
    assert!(m.ends_with("repos/app$> docker build "));
}

#[test]
fn workspace_paths() {
    assert_eq!(repo_path("app"), "repos/app");
    assert_eq!(container_path("dev"), ".devcontainer/dev");
    assert_eq!(subdir_path("app", ""), "repos/app");
    assert_eq!(subdir_path("app", "src/x"), "repos/app/src/x");
    assert_eq!(dockerfile_path("dev"), ".devcontainer/dev/Dockerfile");
    assert_eq!(prebuild_path("dev"), ".devcontainer/dev/prebuild");
    assert_eq!(metadata_path("dev"), ".devcontainer/dev/devcontainer.json");
    assert_eq!(launcher_path("dev"), "./dev");
    assert_eq!(placeholder_path("app"), "repos/app/Dockerfile");
    assert_eq!(repos_dir("proj"), "proj/repos");
    assert_eq!(containers_dir("proj"), "proj/.devcontainer");
    assert_eq!(common_library_path("proj"), "proj/.devcontainer/common.sh");
}

#[test]
fn tag_and_build_file() {
    assert_eq!(subrepo_tag("dev"), "subrepo_image_dev");
    let d = render_dockerfile("subrepo_image_dev");
    assert!(d.starts_with("ARG SUBREPO_TAG=subrepo_image_dev\nFROM $SUBREPO_TAG AS base\n"));
    assert!(d.contains("\nFROM base AS devcontainer\n"));
    assert!(d.contains("WORKDIR /home/${USERNAME}\n"));
    assert!(d.ends_with("FROM base AS buildcontainer\n\n"));
}

#[test]
fn identity_fallback() {
    let i = identity_from(1000, 1001, None);
    assert_eq!((i.uid, i.gid), (1000, 1001));
    assert_eq!(i.user, "unknown_user");
    let j = identity_from(0, 0, Some("root".to_string()));
    assert_eq!(j.user, "root");
}

#[test]
fn current_identity_is_stable_within_a_process() {
    let a = current_identity();
    let b = current_identity();
    assert_eq!((a.uid, a.gid), (b.uid, b.gid));
}
