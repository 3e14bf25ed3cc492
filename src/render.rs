//! The text of every generated artifact.
//!
//! Each artifact is a fixed template with values spliced in. The image tag
//! that hands the repository's own image over to the container build is
//! computed once, by `subrepo_tag`, and passed to every template that names it.
use vstd::prelude::*;
use crate::identity::Identity;
use crate::text::{decimal, decimal_spec};

verus! {

/// Prefix of the tag given to a repository's own image.
pub const TAG_PREFIX: &'static str = "subrepo_image_";

/// `subrepo_image_<name>`: the tag of the image that the prebuild script
/// builds and that the container build file starts from.
pub open spec fn subrepo_tag_spec(name: Seq<char>) -> Seq<char> {
    TAG_PREFIX@ + name
}

/// Returns `subrepo_image_<name>`.
pub fn subrepo_tag(name: &str) -> (r: String)
    ensures
        r@ == subrepo_tag_spec(name@),
{
    let mut s = String::from_str(TAG_PREFIX);
    s.append(name);
    s
}

// ---------------------------------------------------------------------------
// Container build file

/// Opens the build file: declares the upstream image tag with its default.
pub const DOCKERFILE_TAG_ARG: &'static str = "ARG SUBREPO_TAG=";

/// The three stages `base`, `devcontainer` and `buildcontainer`.
pub const DOCKERFILE_STAGES: &'static str = r#"FROM $SUBREPO_TAG AS base

ARG USERNAME=dev
ARG USER_UID=1000
ARG USER_GID=$USER_UID

WORKDIR /

# Set environment variable to indicate containerized environment
ENV CONTAINERIZED_ENV=true

# Ensure the current user's uid gid is setup in the container as well
RUN u=$(getent passwd "$USER_UID" | cut -d: -f1); [ -n "$u" ] && userdel -r "$u" || true
RUN g=$(getent group "$USER_GID" | cut -d: -f1); [ -n "$g" ] && groupdel "$g" || true
RUN groupadd -g "$USER_GID" "$USERNAME"
RUN useradd -m -u "$USER_UID" -g "$USER_GID" -s /bin/bash -c '' "$USERNAME"
RUN passwd -l "$USERNAME"

########################################################################################
# Here put commands that run as root and apply to both devcontainer and buildcontainer #
########################################################################################

USER $USERNAME
WORKDIR /home/${USERNAME}
ENV PATH="/home/${USERNAME}/.local/bin:${PATH}"

########################################################################################
# Here put commands that run as user and apply to both devcontainer and buildcontainer #
########################################################################################

# Setup default entrypoint for devcontainer and buildcontainer
WORKDIR /workspace
CMD ["bash"]

FROM base AS devcontainer

USER root

#####################################################################
# Here put commands that run as root and only apply to devcontainer #
#####################################################################
RUN apt-get update && apt-get install -y \
    git \
    curl \
    jq \
    vim \
    && rm -rf /var/lib/apt/lists/* # clean up apt cache for small and cachable layer

ARG USERNAME=dev
USER $USERNAME
WORKDIR /home/${USERNAME}

#####################################################################
# Here put commands that run as user and only apply to devcontainer #
#####################################################################

# Without specifying devcontainer target, build only the buildcontainer by default
FROM base AS buildcontainer

"#;

/// The container build file, starting from the image tagged `tag`.
pub open spec fn dockerfile_spec(tag: Seq<char>) -> Seq<char> {
    DOCKERFILE_TAG_ARG@ + tag + "\n"@ + DOCKERFILE_STAGES@
}

/// Renders the container build file.
pub fn render_dockerfile(tag: &str) -> (r: String)
    ensures
        r@ == dockerfile_spec(tag@),
{
    let mut s = String::from_str(DOCKERFILE_TAG_ARG);
    s.append(tag);
    s.append("\n");
    s.append(DOCKERFILE_STAGES);
    s
}

// ---------------------------------------------------------------------------
// Prebuild script

/// Picks a container engine: `$CONT_CMD` if set, else podman, else docker.
/// The same choice is made by the shared shell library.
pub const ENGINE_DETECTION: &'static str = r#"if [ -z "$CONT_CMD" ]; then
    if command -v podman &> /dev/null; then
        CONT_CMD=podman
    elif command -v docker &> /dev/null; then
        CONT_CMD=docker
    fi
fi
"#;

/// Interpreter line and strict failure mode of the generated scripts.
pub const STRICT_SHEBANG: &'static str = "#!/bin/bash\n\nset -e -o pipefail\n\n";

/// Comment that names the tag the container build file expects.
pub const PREBUILD_TAG_NOTE: &'static str =
    "\n# build base image from repo\n# the devcontainer expects to find an image tagged `";

/// Between the tag note and the repository directory.
pub const PREBUILD_CD: &'static str = "`\ncd ./repos/";

/// The engine build invocation, run inside the repository.
pub const PREBUILD_BUILD: &'static str = " && $CONT_CMD build -q";

/// The build-tag argument of the prebuild script.
pub const TAG_FLAG: &'static str = " -t ";

/// The prebuild script: builds repository `repo` with the operator's
/// arguments `build_cmd` and tags the image `tag`.
pub open spec fn prebuild_spec(repo: Seq<char>, tag: Seq<char>, build_cmd: Seq<char>) -> Seq<char> {
    STRICT_SHEBANG@ + ENGINE_DETECTION@ + PREBUILD_TAG_NOTE@ + tag + PREBUILD_CD@ + repo
        + PREBUILD_BUILD@ + TAG_FLAG@ + tag + " "@ + build_cmd + "\n\n"@
}

/// Renders the prebuild script.
pub fn render_prebuild(repo: &str, tag: &str, build_cmd: &str) -> (r: String)
    ensures
        r@ == prebuild_spec(repo@, tag@, build_cmd@),
{
    let mut s = String::from_str(STRICT_SHEBANG);
    s.append(ENGINE_DETECTION);
    s.append(PREBUILD_TAG_NOTE);
    s.append(tag);
    s.append(PREBUILD_CD);
    s.append(repo);
    s.append(PREBUILD_BUILD);
    s.append(TAG_FLAG);
    s.append(tag);
    s.append(" ");
    s.append(build_cmd);
    s.append("\n\n");
    s
}

// ---------------------------------------------------------------------------
// Container metadata descriptor

pub const META_OPEN: &'static str = "{\n    \"name\": \"";

pub const META_BUILD: &'static str = r#"",
    "build": {
        "dockerfile": "./Dockerfile",
        "context": "..",
        "target": "devcontainer",
        "args": {
            "USERNAME": ""#;

pub const META_UID: &'static str = "\",\n            \"USER_UID\": \"";

pub const META_GID: &'static str = "\",\n            \"USER_GID\": \"";

pub const META_TAG_SEP: &'static str = "\",\n            ";

/// The build argument that carries the image tag.
pub const META_TAG_KEY: &'static str = "\"SUBREPO_TAG\": \"";

/// Closes the build arguments and opens `initializeCommand`, which runs the
/// prebuild script with the engine forced to podman, the first choice of
/// `ENGINE_DETECTION`.
pub const META_INIT: &'static str = r#"
        }
    },
    "initializeCommand": "CONT_CMD=podman ./.devcontainer/"#;

pub const META_USER: &'static str = "/prebuild\",\n    \"containerUser\": \"";

pub const META_MOUNT: &'static str = r#"",
    "customizations": {
        "vscode": {
            "settings": {
            },
            "extensions": [
            ]
        }
    },
    "workspaceMount": "source=${localWorkspaceFolder}/repos/"#;

pub const META_CLOSE: &'static str = r#",target=/workspaces/${localWorkspaceFolderBasename},type=bind",
    "workspaceFolder": "/workspaces/${localWorkspaceFolderBasename}"
}
"#;

/// The metadata descriptor of container `name`, shown as `display_name`,
/// built from `tag` for the identity `(user, uid, gid)` and mounting
/// `subdir` of repository `repo`.
pub open spec fn metadata_spec(
    name: Seq<char>,
    display_name: Seq<char>,
    repo: Seq<char>,
    subdir: Seq<char>,
    user: Seq<char>,
    uid: u32,
    gid: u32,
    tag: Seq<char>,
) -> Seq<char> {
    META_OPEN@ + display_name + META_BUILD@ + user + META_UID@ + decimal_spec(uid as nat)
        + META_GID@ + decimal_spec(gid as nat) + META_TAG_SEP@ + META_TAG_KEY@ + tag
        + "\""@ + META_INIT@ + name + META_USER@ + user + META_MOUNT@ + repo + "/"@ + subdir
        + META_CLOSE@
}

/// Renders the container metadata descriptor.
pub fn render_metadata(
    name: &str,
    display_name: &str,
    repo: &str,
    subdir: &str,
    identity: &Identity,
    tag: &str,
) -> (r: String)
    ensures
        r@ == metadata_spec(
            name@,
            display_name@,
            repo@,
            subdir@,
            identity.user@,
            identity.uid,
            identity.gid,
            tag@,
        ),
{
    let uid = decimal(identity.uid);
    let gid = decimal(identity.gid);
    let mut s = String::from_str(META_OPEN);
    s.append(display_name);
    s.append(META_BUILD);
    s.append(identity.user.as_str());
    s.append(META_UID);
    s.append(uid.as_str());
    s.append(META_GID);
    s.append(gid.as_str());
    s.append(META_TAG_SEP);
    s.append(META_TAG_KEY);
    s.append(tag);
    s.append("\"");
    s.append(META_INIT);
    s.append(name);
    s.append(META_USER);
    s.append(identity.user.as_str());
    s.append(META_MOUNT);
    s.append(repo);
    s.append("/");
    s.append(subdir);
    s.append(META_CLOSE);
    s
}

// ---------------------------------------------------------------------------
// Launcher script

pub const LAUNCHER_SOURCE: &'static str =
    ". .devcontainer/common.sh\n\nif [ $# -eq 0 ]; then\n    # echo \"Building devcontainer using $CONT_CMD\"\n    run \"";

/// Run with no arguments: an interactive shell in the `devcontainer` stage.
pub const LAUNCHER_INTERACTIVE: &'static str =
    "\" \"devcontainer\" bash\nelse\n    # echo \"Building buildcontainer using $CONT_CMD\"\n    run \"";

/// Run with arguments: the arguments, verbatim, in the `buildcontainer` stage.
pub const LAUNCHER_BATCH: &'static str = "\" \"buildcontainer\" \"$@\"\nfi\n\n";

/// The launcher script of container `name`.
pub open spec fn launcher_spec(name: Seq<char>) -> Seq<char> {
    STRICT_SHEBANG@ + LAUNCHER_SOURCE@ + name + LAUNCHER_INTERACTIVE@ + name + LAUNCHER_BATCH@
}

/// Renders the launcher script.
pub fn render_launcher(name: &str) -> (r: String)
    ensures
        r@ == launcher_spec(name@),
{
    let mut s = String::from_str(STRICT_SHEBANG);
    s.append(LAUNCHER_SOURCE);
    s.append(name);
    s.append(LAUNCHER_INTERACTIVE);
    s.append(name);
    s.append(LAUNCHER_BATCH);
    s
}

// ---------------------------------------------------------------------------
// Shared shell library and repository placeholder

/// Container detection and the `build` and `run` functions that every
/// launcher script calls.
pub const COMMON_FUNCTIONS: &'static str = r#"
function in_container() {
    if [[ -n "$CONTAINERIZED_ENV" && "$CONTAINERIZED_ENV" == "true" ]]; then
        return 0
    else
        return 1
    fi
}

function build() {
    # build_dockerfile
    local CONTAINER_NAME="$1"
    shift
    local CONTAINER_TARGET="$1"
    shift

    .devcontainer/"$CONTAINER_NAME"/prebuild > /dev/null 2> /dev/null
    $CONT_CMD build \
        -q \
        --target $CONTAINER_TARGET \
        --build-arg USER_UID=$(id -u) \
        --build-arg USER_GID=$(id -g) \
        --build-arg USERNAME=$(id -un) \
        --build-arg SUBREPO_TAG="subrepo_image_$CONTAINER_NAME" \
        --file .devcontainer/"$CONTAINER_NAME"/Dockerfile \
        .devcontainer/"$CONTAINER_NAME"
}

function run() {
    local CONTAINER_NAME="$1"
    shift
    local CONTAINER_TARGET="$1"
    shift
    if in_container; then
        echo "Already inside a containerized environment, running command directly."
        "$@"
        return $?
    fi
    $CONT_CMD run \
        --rm \
        -it \
        -v "$(pwd)":/workspace \
        -w /workspace \
        $(build "$CONTAINER_NAME" "$CONTAINER_TARGET") \
        "$@"
    return $?
}

"#;

/// The shared shell library `.devcontainer/common.sh`.
pub open spec fn common_library_spec() -> Seq<char> {
    "#!/bin/bash\n\n"@ + ENGINE_DETECTION@ + COMMON_FUNCTIONS@
}

/// Renders the shared shell library.
pub fn render_common_library() -> (r: String)
    ensures
        r@ == common_library_spec(),
{
    let mut s = String::from_str("#!/bin/bash\n\n");
    s.append(ENGINE_DETECTION);
    s.append(COMMON_FUNCTIONS);
    s
}

/// The build file written into a new repository that was not cloned.
pub const PLACEHOLDER_DOCKERFILE: &'static str = "FROM ubuntu:latest\n";

} // verus!
