//! The three operations of the tool, each as a check and a plan.
//!
//! A check decides, from what already exists on disk, whether the operation
//! may go on; it never lets anything be overwritten. A plan is the exact,
//! ordered list of effects the operation then has. The caller probes the
//! filesystem for the check, carries out the plan in order, and stops at the
//! first effect that fails.
//!
//! `FsModel` and `apply_actions` give the effects their meaning, so that what
//! two operations in a row do can be stated and proved.
use vstd::prelude::*;
use crate::identity::Identity;
use crate::layout::{
    common_library_path, common_library_path_spec, container_path, container_path_spec,
    containers_dir, containers_dir_spec, dockerfile_path, dockerfile_path_spec, launcher_path,
    launcher_path_spec, metadata_path, metadata_path_spec, placeholder_path, placeholder_path_spec,
    prebuild_path, prebuild_path_spec, repo_path, repo_path_spec, repos_dir, repos_dir_spec,
    subdir_path_spec,
};
use crate::prompt::{build_args, build_args_spec, DEFAULT_BUILD_ARGS};
use crate::text::{contains, lemma_contains_middle, trim_spec};
use crate::render::{
    common_library_spec, dockerfile_spec, launcher_spec, metadata_spec, prebuild_spec,
    render_common_library, render_dockerfile, render_launcher, render_metadata, render_prebuild,
    subrepo_tag, subrepo_tag_spec, DOCKERFILE_TAG_ARG, META_CLOSE, META_INIT, META_MOUNT,
    META_TAG_KEY, META_USER, PLACEHOLDER_DOCKERFILE, PREBUILD_BUILD, TAG_FLAG,
};

verus! {

/// The class of a refusal.
#[derive(Clone, Copy, Debug, PartialEq, Eq, Structural)]
pub enum ErrorKind {
    /// Something to be created is already there.
    AlreadyExists,
    /// Something to be used is not there.
    NotFound,
}

/// Why an operation was refused.
#[derive(Clone, Copy, Debug, PartialEq, Eq, Structural)]
pub enum Refusal {
    /// The workspace directory exists.
    WorkspaceExists,
    /// `repos/<name>` exists.
    RepoExists,
    /// `.devcontainer/<name>` exists.
    ContainerExists,
    /// The repository a container points to is not registered.
    RepoMissing,
    /// The repository has no such subdirectory.
    SubdirMissing,
}

impl Refusal {
    pub open spec fn kind_spec(self) -> ErrorKind {
        match self {
            Refusal::WorkspaceExists | Refusal::RepoExists | Refusal::ContainerExists => {
                ErrorKind::AlreadyExists
            },
            Refusal::RepoMissing | Refusal::SubdirMissing => ErrorKind::NotFound,
        }
    }

    /// The class of this refusal.
    pub fn kind(&self) -> (r: ErrorKind)
        ensures
            r == self.kind_spec(),
    {
        match self {
            Refusal::WorkspaceExists | Refusal::RepoExists | Refusal::ContainerExists => {
                ErrorKind::AlreadyExists
            },
            Refusal::RepoMissing | Refusal::SubdirMissing => ErrorKind::NotFound,
        }
    }

    pub open spec fn message_spec(self) -> Seq<char> {
        match self {
            Refusal::WorkspaceExists => "Dir already exists"@,
            Refusal::RepoExists => "Repo already exists"@,
            Refusal::ContainerExists => "Container already exists"@,
            Refusal::RepoMissing => "Repo does not exist, please run `devctr add-repo` first"@,
            Refusal::SubdirMissing => "Repo does not have specified subdir"@,
        }
    }

    /// The one-line cause shown to the operator.
    pub fn message(&self) -> (r: String)
        ensures
            r@ == self.message_spec(),
    {
        let m = match self {
            Refusal::WorkspaceExists => "Dir already exists",
            Refusal::RepoExists => "Repo already exists",
            Refusal::ContainerExists => "Container already exists",
            Refusal::RepoMissing => "Repo does not exist, please run `devctr add-repo` first",
            Refusal::SubdirMissing => "Repo does not have specified subdir",
        };
        String::from_str(m)
    }
}

/// One effect on the filesystem or the outside world.
pub enum Action {
    /// Create a directory and any missing parents.
    CreateDir { path: String },
    /// Create or replace a file with the given text.
    WriteFile { path: String, contents: String },
    /// Set permission bits `0o775` on a file.
    MakeExecutable { path: String },
    /// Clone the repository at `url` into the directory `dest`.
    GitClone { url: String, dest: String },
}

/// The mathematical value of an `Action`.
pub enum ActionView {
    CreateDir { path: Seq<char> },
    WriteFile { path: Seq<char>, contents: Seq<char> },
    MakeExecutable { path: Seq<char> },
    GitClone { url: Seq<char>, dest: Seq<char> },
}

impl View for Action {
    type V = ActionView;

    open spec fn view(&self) -> ActionView {
        match self {
            Action::CreateDir { path } => ActionView::CreateDir { path: path@ },
            Action::WriteFile { path, contents } => ActionView::WriteFile {
                path: path@,
                contents: contents@,
            },
            Action::MakeExecutable { path } => ActionView::MakeExecutable { path: path@ },
            Action::GitClone { url, dest } => ActionView::GitClone { url: url@, dest: dest@ },
        }
    }
}

/// The values of a list of actions.
pub open spec fn actions_view(acts: Seq<Action>) -> Seq<ActionView> {
    acts.map_values(|a: Action| a@)
}

/// What exists on disk, as far as the operations can tell.
pub struct FsModel {
    /// Every existing path, directories and files.
    pub entries: Set<Seq<char>>,
    /// The text of each file written.
    pub files: Map<Seq<char>, Seq<char>>,
    /// The files marked executable.
    pub executables: Set<Seq<char>>,
}

/// `path` together with every parent directory named in it.
pub open spec fn dir_and_parents(path: Seq<char>) -> Set<Seq<char>> {
    Set::new(
        |p: Seq<char>|
            p == path || (p.len() < path.len() && path[p.len() as int] == '/'
                && path.subrange(0, p.len() as int) == p),
    )
}

/// The filesystem after one action has succeeded. A clone is taken to have
/// created its destination directory.
pub open spec fn apply_action(fs: FsModel, a: ActionView) -> FsModel {
    match a {
        ActionView::CreateDir { path } => FsModel {
            entries: fs.entries + dir_and_parents(path),
            ..fs
        },
        ActionView::WriteFile { path, contents } => FsModel {
            entries: fs.entries.insert(path),
            files: fs.files.insert(path, contents),
            ..fs
        },
        ActionView::MakeExecutable { path } => FsModel {
            executables: fs.executables.insert(path),
            ..fs
        },
        ActionView::GitClone { url, dest } => FsModel {
            entries: fs.entries + dir_and_parents(dest),
            ..fs
        },
    }
}

/// The filesystem after every action of `acts` has succeeded, in order.
pub open spec fn apply_actions(fs: FsModel, acts: Seq<ActionView>) -> FsModel
    decreases acts.len(),
{
    if acts.len() == 0 {
        fs
    } else {
        apply_actions(apply_action(fs, acts[0]), acts.drop_first())
    }
}

/// Nothing that exists stops existing while a plan is carried out.
pub proof fn lemma_apply_keeps_entries(fs: FsModel, acts: Seq<ActionView>, p: Seq<char>)
    requires
        fs.entries.contains(p),
    ensures
        apply_actions(fs, acts).entries.contains(p),
    decreases acts.len(),
{
    if acts.len() > 0 {
        lemma_apply_keeps_entries(apply_action(fs, acts[0]), acts.drop_first(), p);
    }
}

// ---------------------------------------------------------------------------
// Container definitions

/// Everything a container definition is generated from.
pub struct ContainerDef {
    pub name: String,
    pub display_name: String,
    /// The repository the container is built from.
    pub repo: String,
    /// The directory of the repository mounted as the workspace; empty for
    /// the repository root.
    pub subdir: String,
    /// The user the container reproduces.
    pub identity: Identity,
    /// The arguments of the engine build of the repository's own image.
    pub build_args: String,
}

/// The mathematical value of a `ContainerDef`.
pub struct ContainerDefView {
    pub name: Seq<char>,
    pub display_name: Seq<char>,
    pub repo: Seq<char>,
    pub subdir: Seq<char>,
    pub user: Seq<char>,
    pub uid: u32,
    pub gid: u32,
    pub build_args: Seq<char>,
}

impl View for ContainerDef {
    type V = ContainerDefView;

    open spec fn view(&self) -> ContainerDefView {
        ContainerDefView {
            name: self.name@,
            display_name: self.display_name@,
            repo: self.repo@,
            subdir: self.subdir@,
            user: self.identity.user@,
            uid: self.identity.uid,
            gid: self.identity.gid,
            build_args: self.build_args@,
        }
    }
}

impl ContainerDef {
    /// A definition over `subdir` of repository `repo`, for `identity`, with
    /// the build arguments the operator's `answer` stands for.
    pub fn new(
        name: &str,
        display_name: &str,
        repo: &str,
        subdir: &str,
        identity: Identity,
        answer: &str,
    ) -> (r: ContainerDef)
        ensures
            r@ == (ContainerDefView {
                name: name@,
                display_name: display_name@,
                repo: repo@,
                subdir: subdir@,
                user: identity.user@,
                uid: identity.uid,
                gid: identity.gid,
                build_args: build_args_spec(answer@),
            }),
    {
        ContainerDef {
            name: String::from_str(name),
            display_name: String::from_str(display_name),
            repo: String::from_str(repo),
            subdir: String::from_str(subdir),
            identity,
            build_args: build_args(answer),
        }
    }
}

/// The check of a new container definition, given whether its directory,
/// its repository and the repository's subdirectory exist.
pub open spec fn container_gate_spec(
    container_exists: bool,
    repo_exists: bool,
    subdir_exists: bool,
) -> Result<(), Refusal> {
    if container_exists {
        Err(Refusal::ContainerExists)
    } else if !repo_exists {
        Err(Refusal::RepoMissing)
    } else if !subdir_exists {
        Err(Refusal::SubdirMissing)
    } else {
        Ok(())
    }
}

/// Decides whether a container definition may be generated: its directory
/// `.devcontainer/<name>` must not exist, its repository must, and so must the
/// subdirectory (see `subdir_path`). Checked in that order.
pub fn container_gate(container_exists: bool, repo_exists: bool, subdir_exists: bool) -> (r: Result<
    (),
    Refusal,
>)
    ensures
        r == container_gate_spec(container_exists, repo_exists, subdir_exists),
{
    if container_exists {
        Err(Refusal::ContainerExists)
    } else if !repo_exists {
        Err(Refusal::RepoMissing)
    } else if !subdir_exists {
        Err(Refusal::SubdirMissing)
    } else {
        Ok(())
    }
}

/// The effects of generating container definition `d`: its directory, the
/// build file, the executable prebuild script, the metadata descriptor and
/// the executable launcher script. All of them use the one image tag
/// `subrepo_image_<name>`.
pub open spec fn container_plan_spec(d: ContainerDefView) -> Seq<ActionView> {
    let tag = subrepo_tag_spec(d.name);
    seq![
        ActionView::CreateDir { path: container_path_spec(d.name) },
        ActionView::WriteFile { path: dockerfile_path_spec(d.name), contents: dockerfile_spec(tag) },
        ActionView::WriteFile {
            path: prebuild_path_spec(d.name),
            contents: prebuild_spec(d.repo, tag, d.build_args),
        },
        ActionView::MakeExecutable { path: prebuild_path_spec(d.name) },
        ActionView::WriteFile {
            path: metadata_path_spec(d.name),
            contents: metadata_spec(
                d.name,
                d.display_name,
                d.repo,
                d.subdir,
                d.user,
                d.uid,
                d.gid,
                tag,
            ),
        },
        ActionView::WriteFile { path: launcher_path_spec(d.name), contents: launcher_spec(d.name) },
        ActionView::MakeExecutable { path: launcher_path_spec(d.name) },
    ]
}

/// Renders the effects of generating container definition `d`.
pub fn container_plan(d: &ContainerDef) -> (r: Vec<Action>)
    ensures
        actions_view(r@) == container_plan_spec(d@),
{
    let name = d.name.as_str();
    let tag = subrepo_tag(name);
    let mut r: Vec<Action> = Vec::new();
    r.push(Action::CreateDir { path: container_path(name) });
    r.push(Action::WriteFile { path: dockerfile_path(name), contents: render_dockerfile(tag.as_str()) });
    r.push(
        Action::WriteFile {
            path: prebuild_path(name),
            contents: render_prebuild(d.repo.as_str(), tag.as_str(), d.build_args.as_str()),
        },
    );
    r.push(Action::MakeExecutable { path: prebuild_path(name) });
    r.push(
        Action::WriteFile {
            path: metadata_path(name),
            contents: render_metadata(
                name,
                d.display_name.as_str(),
                d.repo.as_str(),
                d.subdir.as_str(),
                &d.identity,
                tag.as_str(),
            ),
        },
    );
    r.push(Action::WriteFile { path: launcher_path(name), contents: render_launcher(name) });
    r.push(Action::MakeExecutable { path: launcher_path(name) });
    assert(actions_view(r@) =~= container_plan_spec(d@));
    r
}

/// What generating container definition `d` does to `fs`: the check's answer,
/// and the filesystem afterwards (unchanged when refused).
pub open spec fn add_container_outcome(fs: FsModel, d: ContainerDefView) -> (
    Result<(), Refusal>,
    FsModel,
) {
    match container_gate_spec(
        fs.entries.contains(container_path_spec(d.name)),
        fs.entries.contains(repo_path_spec(d.repo)),
        fs.entries.contains(subdir_path_spec(d.repo, d.subdir)),
    ) {
        Err(e) => (Err(e), fs),
        Ok(_) => (Ok(()), apply_actions(fs, container_plan_spec(d))),
    }
}

/// A container name can be used once: after a definition was generated, a
/// second one under the same name is refused as already existing, whatever
/// it points to, and the filesystem, with the first definition's files, is
/// left as it was.
pub proof fn law_container_name_used_once(fs: FsModel, first: ContainerDefView, second: ContainerDefView)
    requires
        add_container_outcome(fs, first).0 is Ok,
        second.name == first.name,
    ensures
        ({
            let after = add_container_outcome(fs, first).1;
            &&& add_container_outcome(after, second).0 == Err::<(), Refusal>(Refusal::ContainerExists)
            &&& add_container_outcome(after, second).0->Err_0.kind_spec() == ErrorKind::AlreadyExists
            &&& add_container_outcome(after, second).1 == after
        }),
{
    let plan = container_plan_spec(first);
    let dir = container_path_spec(first.name);
    let fs1 = apply_action(fs, plan[0]);
    assert(dir_and_parents(dir).contains(dir));
    assert(fs1.entries.contains(dir));
    lemma_apply_keeps_entries(fs1, plan.drop_first(), dir);
}

/// A container over a missing repository directory or subdirectory is
/// refused as not found, and nothing is created: in particular not the
/// container's own directory.
pub proof fn law_missing_subdir_refused(fs: FsModel, d: ContainerDefView)
    requires
        !fs.entries.contains(container_path_spec(d.name)),
        !fs.entries.contains(subdir_path_spec(d.repo, d.subdir)),
    ensures
        add_container_outcome(fs, d).0 is Err,
        add_container_outcome(fs, d).0->Err_0.kind_spec() == ErrorKind::NotFound,
        add_container_outcome(fs, d).1 == fs,
        !add_container_outcome(fs, d).1.entries.contains(container_path_spec(d.name)),
{
}

/// The plan writes the file `path` with the text `contents`.
pub open spec fn plan_writes(plan: Seq<ActionView>, path: Seq<char>, contents: Seq<char>) -> bool {
    exists|i: int|
        0 <= i < plan.len() && #[trigger] plan[i] == ActionView::WriteFile { path, contents }
}

/// The image tag hand-off is consistent: the tag `subrepo_image_<name>` that
/// the prebuild script gives to the repository's image (its `-t` argument) is
/// the default of `SUBREPO_TAG` in the build file and the `SUBREPO_TAG` build
/// argument of the metadata descriptor.
pub proof fn law_tag_handoff(d: ContainerDefView)
    ensures
        ({
            let plan = container_plan_spec(d);
            let tag = subrepo_tag_spec(d.name);
            &&& tag == "subrepo_image_"@ + d.name
            &&& exists|c: Seq<char>|
                plan_writes(plan, prebuild_path_spec(d.name), c) && contains(
                    c,
                    TAG_FLAG@ + tag + " "@,
                )
            &&& exists|c: Seq<char>|
                plan_writes(plan, dockerfile_path_spec(d.name), c) && contains(
                    c,
                    DOCKERFILE_TAG_ARG@ + tag + "\n"@,
                )
            &&& exists|c: Seq<char>|
                plan_writes(plan, metadata_path_spec(d.name), c) && contains(
                    c,
                    META_TAG_KEY@ + tag + "\""@,
                )
        }),
{
    let plan = container_plan_spec(d);
    let tag = subrepo_tag_spec(d.name);
    let pre = plan[2]->WriteFile_contents;
    let dock = plan[1]->WriteFile_contents;
    let meta = plan[4]->WriteFile_contents;
    assert(plan_writes(plan, dockerfile_path_spec(d.name), dock));
    assert(plan_writes(plan, prebuild_path_spec(d.name), pre));
    assert(plan_writes(plan, metadata_path_spec(d.name), meta));
    let pre_tail_len = (TAG_FLAG@ + tag + " "@ + d.build_args + "\n\n"@).len();
    let pre_head = pre.subrange(0, pre.len() - pre_tail_len);
    assert(pre =~= pre_head + (TAG_FLAG@ + tag + " "@) + (d.build_args + "\n\n"@));
    lemma_contains_middle(pre_head, TAG_FLAG@ + tag + " "@, d.build_args + "\n\n"@);
    let dock_tail = dock.subrange((DOCKERFILE_TAG_ARG@ + tag + "\n"@).len() as int, dock.len() as int);
    assert(dock =~= Seq::<char>::empty() + (DOCKERFILE_TAG_ARG@ + tag + "\n"@) + dock_tail);
    lemma_contains_middle(Seq::<char>::empty(), DOCKERFILE_TAG_ARG@ + tag + "\n"@, dock_tail);
    let part = META_TAG_KEY@ + tag + "\""@;
    let k = meta.len() - (part + META_INIT@ + d.name + META_USER@ + d.user + META_MOUNT@ + d.repo
        + "/"@ + d.subdir + META_CLOSE@).len();
    let mh = meta.subrange(0, k);
    let mt = meta.subrange(k + part.len(), meta.len() as int);
    assert(meta =~= mh + part + mt);
    lemma_contains_middle(mh, part, mt);
}

/// A blank answer (nothing but white space, or nothing) builds the
/// repository with the default arguments: the prebuild script's build
/// command is `-f ./Dockerfile ./`.
pub proof fn law_blank_answer_builds_default(d: ContainerDefView, answer: Seq<char>)
    requires
        trim_spec(answer).len() == 0,
        d.build_args == build_args_spec(answer),
    ensures
        d.build_args == DEFAULT_BUILD_ARGS@,
        plan_writes(
            container_plan_spec(d),
            prebuild_path_spec(d.name),
            prebuild_spec(d.repo, subrepo_tag_spec(d.name), DEFAULT_BUILD_ARGS@),
        ),
        contains(
            prebuild_spec(d.repo, subrepo_tag_spec(d.name), DEFAULT_BUILD_ARGS@),
            PREBUILD_BUILD@ + TAG_FLAG@ + subrepo_tag_spec(d.name) + " "@ + DEFAULT_BUILD_ARGS@
                + "\n"@,
        ),
{
    let plan = container_plan_spec(d);
    let tag = subrepo_tag_spec(d.name);
    assert(plan[2] == ActionView::WriteFile {
        path: prebuild_path_spec(d.name),
        contents: prebuild_spec(d.repo, tag, DEFAULT_BUILD_ARGS@),
    });
    let pre = prebuild_spec(d.repo, tag, DEFAULT_BUILD_ARGS@);
    let part = PREBUILD_BUILD@ + TAG_FLAG@ + tag + " "@ + DEFAULT_BUILD_ARGS@ + "\n"@;
    let k = pre.len() - (part + "\n"@).len();
    let head = pre.subrange(0, k);
    reveal_strlit("\n\n");
    reveal_strlit("\n");
    assert(pre =~= head + part + "\n"@);
    lemma_contains_middle(head, part, "\n"@);
}

// ---------------------------------------------------------------------------
// Workspaces

/// The check of a new workspace, given whether its directory exists.
pub open spec fn init_gate_spec(root_exists: bool) -> Result<(), Refusal> {
    if root_exists {
        Err(Refusal::WorkspaceExists)
    } else {
        Ok(())
    }
}

/// Decides whether a workspace may be created: its directory must not exist.
pub fn init_gate(root_exists: bool) -> (r: Result<(), Refusal>)
    ensures
        r == init_gate_spec(root_exists),
{
    if root_exists {
        Err(Refusal::WorkspaceExists)
    } else {
        Ok(())
    }
}

/// The effects of creating workspace `root`: `root/repos`,
/// `root/.devcontainer` and the executable shell library
/// `root/.devcontainer/common.sh`.
pub open spec fn init_plan_spec(root: Seq<char>) -> Seq<ActionView> {
    seq![
        ActionView::CreateDir { path: repos_dir_spec(root) },
        ActionView::CreateDir { path: containers_dir_spec(root) },
        ActionView::WriteFile {
            path: common_library_path_spec(root),
            contents: common_library_spec(),
        },
        ActionView::MakeExecutable { path: common_library_path_spec(root) },
    ]
}

/// Renders the effects of creating workspace `root`.
pub fn init_plan(root: &str) -> (r: Vec<Action>)
    ensures
        actions_view(r@) == init_plan_spec(root@),
{
    let mut r: Vec<Action> = Vec::new();
    r.push(Action::CreateDir { path: repos_dir(root) });
    r.push(Action::CreateDir { path: containers_dir(root) });
    r.push(Action::WriteFile { path: common_library_path(root), contents: render_common_library() });
    r.push(Action::MakeExecutable { path: common_library_path(root) });
    assert(actions_view(r@) =~= init_plan_spec(root@));
    r
}

/// What creating workspace `root` does to `fs`.
pub open spec fn init_outcome(fs: FsModel, root: Seq<char>) -> (Result<(), Refusal>, FsModel) {
    match init_gate_spec(fs.entries.contains(root)) {
        Err(e) => (Err(e), fs),
        Ok(_) => (Ok(()), apply_actions(fs, init_plan_spec(root))),
    }
}

/// A workspace is created once: after it was created, creating it again is
/// refused as already existing and changes nothing.
pub proof fn law_workspace_created_once(fs: FsModel, root: Seq<char>)
    requires
        init_outcome(fs, root).0 is Ok,
    ensures
        ({
            let after = init_outcome(fs, root).1;
            &&& init_outcome(after, root).0 == Err::<(), Refusal>(Refusal::WorkspaceExists)
            &&& init_outcome(after, root).0->Err_0.kind_spec() == ErrorKind::AlreadyExists
            &&& init_outcome(after, root).1 == after
        }),
{
    let plan = init_plan_spec(root);
    let dir = repos_dir_spec(root);
    reveal_strlit("/repos");
    assert(dir.subrange(0, root.len() as int) =~= root);
    assert(dir_and_parents(dir).contains(root));
    let fs1 = apply_action(fs, plan[0]);
    assert(fs1.entries.contains(root));
    lemma_apply_keeps_entries(fs1, plan.drop_first(), root);
}

// ---------------------------------------------------------------------------
// Repositories

/// The check of a new repository entry, given whether `repos/<name>` exists.
pub open spec fn repo_gate_spec(repo_exists: bool) -> Result<(), Refusal> {
    if repo_exists {
        Err(Refusal::RepoExists)
    } else {
        Ok(())
    }
}

/// Decides whether a repository entry may be added: `repos/<name>` must not
/// exist.
pub fn repo_gate(repo_exists: bool) -> (r: Result<(), Refusal>)
    ensures
        r == repo_gate_spec(repo_exists),
{
    if repo_exists {
        Err(Refusal::RepoExists)
    } else {
        Ok(())
    }
}

/// The effects of adding repository `name`: a clone of `git` into
/// `repos/<name>` when a URL is given; otherwise the directory with a
/// placeholder build file.
pub open spec fn repo_plan_spec(name: Seq<char>, git: Option<Seq<char>>) -> Seq<ActionView> {
    match git {
        Some(url) => seq![ActionView::GitClone { url, dest: repo_path_spec(name) }],
        None => seq![
            ActionView::CreateDir { path: repo_path_spec(name) },
            ActionView::WriteFile {
                path: placeholder_path_spec(name),
                contents: PLACEHOLDER_DOCKERFILE@,
            },
        ],
    }
}

/// The value of an optional text argument.
pub open spec fn opt_view(o: Option<&str>) -> Option<Seq<char>> {
    match o {
        Some(s) => Some(s@),
        None => None,
    }
}

/// Renders the effects of adding repository `name`.
pub fn repo_plan(name: &str, git: Option<&str>) -> (r: Vec<Action>)
    ensures
        actions_view(r@) == repo_plan_spec(name@, opt_view(git)),
{
    let mut r: Vec<Action> = Vec::new();
    match git {
        Some(url) => {
            r.push(Action::GitClone { url: String::from_str(url), dest: repo_path(name) });
        },
        None => {
            r.push(Action::CreateDir { path: repo_path(name) });
            r.push(
                Action::WriteFile {
                    path: placeholder_path(name),
                    contents: String::from_str(PLACEHOLDER_DOCKERFILE),
                },
            );
        },
    }
    assert(actions_view(r@) =~= repo_plan_spec(name@, opt_view(git)));
    r
}

/// The line announcing a new repository.
pub open spec fn repo_notice_spec(name: Seq<char>, git: Option<Seq<char>>) -> Seq<char> {
    match git {
        Some(url) => "Adding repo: "@ + name + ", git="@ + url,
        None => "Adding repo: "@ + name,
    }
}

/// Renders the line announcing a new repository.
pub fn repo_notice(name: &str, git: Option<&str>) -> (r: String)
    ensures
        r@ == repo_notice_spec(name@, opt_view(git)),
{
    let mut s = String::from_str("Adding repo: ");
    s.append(name);
    match git {
        Some(url) => {
            s.append(", git=");
            s.append(url);
        },
        None => {},
    }
    s
}

/// What adding repository `name` does to `fs`.
pub open spec fn add_repo_outcome(fs: FsModel, name: Seq<char>, git: Option<Seq<char>>) -> (
    Result<(), Refusal>,
    FsModel,
) {
    match repo_gate_spec(fs.entries.contains(repo_path_spec(name))) {
        Err(e) => (Err(e), fs),
        Ok(_) => (Ok(()), apply_actions(fs, repo_plan_spec(name, git))),
    }
}

/// A repository name can be used once: after it was added, cloned or not,
/// adding it again is refused as already existing and changes nothing.
pub proof fn law_repo_name_used_once(
    fs: FsModel,
    name: Seq<char>,
    git: Option<Seq<char>>,
    git_again: Option<Seq<char>>,
)
    requires
        add_repo_outcome(fs, name, git).0 is Ok,
    ensures
        ({
            let after = add_repo_outcome(fs, name, git).1;
            &&& add_repo_outcome(after, name, git_again).0 == Err::<(), Refusal>(Refusal::RepoExists)
            &&& add_repo_outcome(after, name, git_again).1 == after
        }),
{
    let plan = repo_plan_spec(name, git);
    let dir = repo_path_spec(name);
    assert(dir_and_parents(dir).contains(dir));
    let fs1 = apply_action(fs, plan[0]);
    assert(fs1.entries.contains(dir));
    lemma_apply_keeps_entries(fs1, plan.drop_first(), dir);
}

} // verus!
