use devctr::identity::identity_from;
use devctr::plan::{
    container_gate, container_plan, init_gate, init_plan, repo_gate, repo_notice, repo_plan,
    Action, ContainerDef, ErrorKind, Refusal,
};

fn written<'a>(plan: &'a [Action], wanted: &str) -> &'a str {
    for a in plan {
        if let Action::WriteFile { path, contents } = a {
            if path == wanted {
                return contents;
            }
        }
    }
    panic!("no file {wanted} in plan");
}

fn dev_container(answer: &str) -> ContainerDef {
    let identity = identity_from(1000, 1000, Some("alice".to_string()));
    ContainerDef::new("dev", "dev", "app", "", identity, answer)
}

#[test]
fn init_creates_workspace_skeleton() {
    assert_eq!(init_gate(false), Ok(()));
    let plan = init_plan("proj");
    assert_eq!(plan.len(), 4);
    assert!(matches!(&plan[0], Action::CreateDir { path } if path == "proj/repos"));
    assert!(matches!(&plan[1], Action::CreateDir { path } if path == "proj/.devcontainer"));
    let lib = written(&plan, "proj/.devcontainer/common.sh");
    assert!(lib.starts_with("#!/bin/bash\n\nif [ -z \"$CONT_CMD\" ]; then\n"));
    assert!(lib.contains("function in_container() {"));
    assert!(lib.contains("function build() {"));
    assert!(lib.contains("function run() {"));
    assert!(
        matches!(&plan[3], Action::MakeExecutable { path } if path == "proj/.devcontainer/common.sh")
    );
}

#[test]
fn init_twice_is_refused() {
    let r = init_gate(true);
    assert_eq!(r, Err(Refusal::WorkspaceExists));
    assert_eq!(r.unwrap_err().kind(), ErrorKind::AlreadyExists);
    assert_eq!(r.unwrap_err().message(), "Dir already exists");
}

#[test]
fn add_repo_without_url_writes_placeholder() {
    assert_eq!(repo_gate(false), Ok(()));
    let plan = repo_plan("app", None);
    assert_eq!(plan.len(), 2);
    assert!(matches!(&plan[0], Action::CreateDir { path } if path == "repos/app"));
    assert_eq!(written(&plan, "repos/app/Dockerfile"), "FROM ubuntu:latest\n");
    assert_eq!(repo_notice("app", None), "Adding repo: app");
}

#[test]
fn add_repo_with_url_clones() {
    let plan = repo_plan("lib", Some("https://example.com/lib.git"));
    assert_eq!(plan.len(), 1);
    assert!(matches!(&plan[0], Action::GitClone { url, dest }
        if url == "https://example.com/lib.git" && dest == "repos/lib"));
    assert_eq!(
        repo_notice("lib", Some("https://example.com/lib.git")),
        "Adding repo: lib, git=https://example.com/lib.git"
    );
}

#[test]
fn add_repo_twice_is_refused() {
    let r = repo_gate(true);
    assert_eq!(r, Err(Refusal::RepoExists));
    assert_eq!(r.unwrap_err().kind(), ErrorKind::AlreadyExists);
    assert_eq!(r.unwrap_err().message(), "Repo already exists");
}

#[test]
fn add_container_scenario() {
    assert_eq!(container_gate(false, true, true), Ok(()));
    let plan = container_plan(&dev_container(""));
    assert_eq!(plan.len(), 7);
    assert!(matches!(&plan[0], Action::CreateDir { path } if path == ".devcontainer/dev"));
    let meta = written(&plan, ".devcontainer/dev/devcontainer.json");
    let args = "        \"args\": {\n\
                \x20           \"USERNAME\": \"alice\",\n\
                \x20           \"USER_UID\": \"1000\",\n\
                \x20           \"USER_GID\": \"1000\",\n\
                \x20           \"SUBREPO_TAG\": \"subrepo_image_dev\"\n\
                \x20       }\n";
    assert!(meta.contains(args));
    assert!(meta.contains("\"target\": \"devcontainer\""));
    assert!(meta.contains("\"containerUser\": \"alice\""));
    assert!(meta.contains("\"initializeCommand\": \"CONT_CMD=podman ./.devcontainer/dev/prebuild\""));
    assert!(meta.contains(
        "\"workspaceMount\": \"source=${localWorkspaceFolder}/repos/app/,target=/workspaces/${localWorkspaceFolderBasename},type=bind\""
    ));

    let launcher = written(&plan, "./dev");
    let start = launcher.find("if [ $# -eq 0 ]; then").unwrap();
    let split = launcher.find("\nelse\n").unwrap();
    let no_args_branch = &launcher[start..split];
    assert!(no_args_branch.contains("run \"dev\" \"devcontainer\" bash"));
    assert!(launcher[split..].contains("run \"dev\" \"buildcontainer\" \"$@\""));
    assert!(launcher.contains(". .devcontainer/common.sh\n"));
    assert!(matches!(&plan[6], Action::MakeExecutable { path } if path == "./dev"));
    assert!(matches!(&plan[3], Action::MakeExecutable { path } if path == ".devcontainer/dev/prebuild"));
}

#[test]
fn add_container_twice_is_refused() {
    let r = container_gate(true, true, true);
    assert_eq!(r, Err(Refusal::ContainerExists));
    assert_eq!(r.unwrap_err().kind(), ErrorKind::AlreadyExists);
    assert_eq!(r.unwrap_err().message(), "Container already exists");
}

#[test]
fn container_over_missing_repo_is_refused() {
    let r = container_gate(false, false, false);
    assert_eq!(r, Err(Refusal::RepoMissing));
    assert_eq!(r.unwrap_err().kind(), ErrorKind::NotFound);
    assert_eq!(
        r.unwrap_err().message(),
        "Repo does not exist, please run `devctr add-repo` first"
    );
}

#[test]
fn container_over_missing_subdir_is_refused() {
    let r = container_gate(false, true, false);
    assert_eq!(r, Err(Refusal::SubdirMissing));
    assert_eq!(r.unwrap_err().kind(), ErrorKind::NotFound);
    assert_eq!(r.unwrap_err().message(), "Repo does not have specified subdir");
}

#[test]
fn existing_container_is_checked_first() {
    assert_eq!(container_gate(true, false, false), Err(Refusal::ContainerExists));
}

#[test]
fn tag_is_the_same_in_every_artifact() {
    let plan = container_plan(&dev_container("-f build/Dockerfile ."));
    let pre = written(&plan, ".devcontainer/dev/prebuild");
    let dock = written(&plan, ".devcontainer/dev/Dockerfile");
    let meta = written(&plan, ".devcontainer/dev/devcontainer.json");
    assert!(pre.contains(" -t subrepo_image_dev "));
    assert!(dock.starts_with("ARG SUBREPO_TAG=subrepo_image_dev\nFROM $SUBREPO_TAG AS base\n"));
    assert!(meta.contains("\"SUBREPO_TAG\": \"subrepo_image_dev\""));
}

#[test]
fn blank_answer_builds_with_defaults() {
    for answer in ["", "\n", "  \t \r\n"] {
        let plan = container_plan(&dev_container(answer));
        let pre = written(&plan, ".devcontainer/dev/prebuild");
        assert!(pre.ends_with(
            "\ncd ./repos/app && $CONT_CMD build -q -t subrepo_image_dev -f ./Dockerfile ./\n\n"
        ));
    }
}

#[test]
fn prebuild_script_text() {
    let plan = container_plan(&dev_container("  -f ci/Dockerfile .  \n"));
    let pre = written(&plan, ".devcontainer/dev/prebuild");
    let expected = "#!/bin/bash\n\
        \n\
        set -e -o pipefail\n\
        \n\
        if [ -z \"$CONT_CMD\" ]; then\n\
        \x20   if command -v podman &> /dev/null; then\n\
        \x20       CONT_CMD=podman\n\
        \x20   elif command -v docker &> /dev/null; then\n\
        \x20       CONT_CMD=docker\n\
        \x20   fi\n\
        fi\n\
        \n\
        # build base image from repo\n\
        # the devcontainer expects to find an image tagged `subrepo_image_dev`\n\
        cd ./repos/app && $CONT_CMD build -q -t subrepo_image_dev -f ci/Dockerfile .\n\
        \n";
    assert_eq!(pre, expected);
}

#[test]
fn launcher_script_text() {
    let plan = container_plan(&dev_container(""));
    let expected = "#!/bin/bash\n\
        \n\
        set -e -o pipefail\n\
        \n\
        . .devcontainer/common.sh\n\
        \n\
        if [ $# -eq 0 ]; then\n\
        \x20   # echo \"Building devcontainer using $CONT_CMD\"\n\
        \x20   run \"dev\" \"devcontainer\" bash\n\
        else\n\
        \x20   # echo \"Building buildcontainer using $CONT_CMD\"\n\
        \x20   run \"dev\" \"buildcontainer\" \"$@\"\n\
        fi\n\
        \n";
    assert_eq!(written(&plan, "./dev"), expected);
}

#[test]
fn metadata_mounts_the_subdirectory() {
    let identity = identity_from(501, 20, None);
    let def = ContainerDef::new("web", "Web UI", "app", "frontend", identity, "");
    let plan = container_plan(&def);
    let meta = written(&plan, ".devcontainer/web/devcontainer.json");
    assert!(meta.starts_with("{\n    \"name\": \"Web UI\",\n"));
    assert!(meta.contains("\"USERNAME\": \"unknown_user\""));
    assert!(meta.contains("\"USER_UID\": \"501\""));
    assert!(meta.contains("\"USER_GID\": \"20\""));
    assert!(meta.contains("source=${localWorkspaceFolder}/repos/app/frontend,target="));
    assert!(meta.ends_with(
        "\"workspaceFolder\": \"/workspaces/${localWorkspaceFolderBasename}\"\n}\n"
    ));
}
