//! The launch plan: which host directories are mounted where, which proxy
//! variables are passed on, and the command the container runs.

use vstd::prelude::*;

use crate::cli::Args;
use crate::config::Config;
use crate::text::{join_spaced, join_words, str_eq, views};

verus! {

/// A path with a name appended, as `PathBuf::push` appends a relative name.
pub open spec fn path_join(base: Seq<char>, name: Seq<char>) -> Seq<char> {
    if base.len() == 0 || base.last() == '/' {
        base + name
    } else {
        base + seq!['/'] + name
    }
}

/// Appends a relative name to a path, adding a separator where needed.
pub fn join_path(base: &str, name: &str) -> (r: String)
    ensures
        r@ == path_join(base@, name@),
{
    let n = base.unicode_len();
    let mut r = String::from_str(base);
    if n > 0 && base.get_char(n - 1) != '/' {
        r.append("/");
        proof {
            reveal_strlit("/");
        }
    }
    r.append(name);
    r
}

/// The launch settings of one run.
pub struct DockerConfig {
    pub disable_ssh: bool,
    pub disable_sudo: bool,
    pub enable_rust_cache: bool,
    pub base_path: Option<String>,
    pub user: String,
    pub image: String,
    pub command: Vec<String>,
}

/// Whether the cargo caches are mounted: the command line decides, else the
/// configuration file, else not.
pub open spec fn rust_cache_wanted(args: Args, config: Config) -> bool {
    match args.enable_rust_cache {
        Some(b) => b,
        None => match config.engine {
            Some(e) => match e.enable_rust_cache {
                Some(b) => b,
                None => false,
            },
            None => false,
        },
    }
}

/// The explicit mount root: from the command line, else from the
/// configuration file.
pub open spec fn base_path_wanted(args: Args, config: Config) -> Option<Seq<char>> {
    match args.base_path {
        Some(p) => Some(p@),
        None => match config.engine {
            Some(e) => match e.base_path {
                Some(p) => Some(p@),
                None => None,
            },
            None => None,
        },
    }
}

/// The views of an optional string.
pub open spec fn opt_view(o: Option<String>) -> Option<Seq<char>> {
    match o {
        Some(s) => Some(s@),
        None => None,
    }
}

/// Copies a list of strings.
pub fn copy_strings(v: &Vec<String>) -> (r: Vec<String>)
    ensures
        r@ == v@,
{
    let mut r: Vec<String> = Vec::new();
    let mut i: usize = 0;
    while i < v.len()
        invariant
            i <= v@.len(),
            r@ == v@.take(i as int),
        decreases v@.len() - i,
    {
        r.push(v[i].clone());
        i = i + 1;
        assert(r@ =~= v@.take(i as int));
    }
    assert(v@.take(i as int) =~= v@);
    r
}

/// Copies an optional string.
pub fn copy_opt(o: &Option<String>) -> (r: Option<String>)
    ensures
        r == *o,
{
    match o {
        Some(s) => Some(s.clone()),
        None => None,
    }
}

impl DockerConfig {
    /// Merges the command-line options with the configuration file.
    pub fn new(args: &Args, config: &Config) -> (r: Self)
        ensures
            r.disable_ssh == args.disable_ssh,
            r.disable_sudo == args.disable_sudo,
            r.enable_rust_cache == rust_cache_wanted(*args, *config),
            opt_view(r.base_path) == base_path_wanted(*args, *config),
            r.user@ == args.user@,
            r.image@ == args.image@,
            r.command@ == args.command@,
    {
        let enable_rust_cache = match args.enable_rust_cache {
            Some(b) => b,
            None => match &config.engine {
                Some(e) => match e.enable_rust_cache {
                    Some(b) => b,
                    None => false,
                },
                None => false,
            },
        };
        let base_path = match &args.base_path {
            Some(p) => Some(p.clone()),
            None => match &config.engine {
                Some(e) => copy_opt(&e.base_path),
                None => None,
            },
        };
        DockerConfig {
            disable_ssh: args.disable_ssh,
            disable_sudo: args.disable_sudo,
            enable_rust_cache,
            base_path,
            user: args.user.clone(),
            image: args.image.clone(),
            command: copy_strings(&args.command),
        }
    }
}


/// What the planner needs to know of the host.
pub struct HostFacts {
    /// The caller's home directory.
    pub home: String,
    /// The current working directory, which becomes the container's.
    pub cwd: String,
    /// Whether `home/.ssh` exists.
    pub ssh_dir_exists: bool,
    /// Whether `home/.cargo/registry` exists.
    pub cargo_registry_exists: bool,
    /// Whether `home/.cargo/git` exists.
    pub cargo_git_exists: bool,
}

/// The proxy variables of the environment the container is launched from.
pub struct ProxyEnv {
    pub http_proxy: Option<String>,
    pub https_proxy: Option<String>,
    pub all_proxy: Option<String>,
}

/// One mount: a host path made visible at a container path.
pub struct Binding {
    pub host: String,
    pub container: String,
    pub read_only: bool,
}

impl View for Binding {
    type V = (Seq<char>, Seq<char>, bool);

    open spec fn view(&self) -> (Seq<char>, Seq<char>, bool) {
        (self.host@, self.container@, self.read_only)
    }
}

/// One environment variable set inside the container.
pub struct EnvVar {
    pub name: String,
    pub value: String,
}

impl View for EnvVar {
    type V = (Seq<char>, Seq<char>);

    open spec fn view(&self) -> (Seq<char>, Seq<char>) {
        (self.name@, self.value@)
    }
}

/// Everything a container launch needs, fixed before the launch.
pub struct MountPlan {
    /// The mounts in order; the last one is the mount root.
    pub bindings: Vec<Binding>,
    pub env_vars: Vec<EnvVar>,
    pub use_host_network: bool,
    pub working_dir: String,
    pub image: String,
    /// The shell command the container runs.
    pub entrypoint: String,
}

/// Why no plan could be made.
pub enum PlanError {
    /// The ssh directory is to be mounted but does not exist.
    MissingSshDir { path: String },
    /// The mount root would be mounted where another mount already is.
    DuplicateMountTarget { path: String },
}

pub open spec fn binding_views(b: Seq<Binding>) -> Seq<(Seq<char>, Seq<char>, bool)> {
    b.map_values(|x: Binding| x@)
}

pub open spec fn env_views(e: Seq<EnvVar>) -> Seq<(Seq<char>, Seq<char>)> {
    e.map_values(|x: EnvVar| x@)
}

/// The user's home inside the container.
pub open spec fn container_home(user: Seq<char>) -> Seq<char> {
    "/home/"@ + user
}

pub open spec fn ssh_dir_of(home: Seq<char>) -> Seq<char> {
    path_join(home, ".ssh"@)
}

pub open spec fn cargo_registry_dir_of(home: Seq<char>) -> Seq<char> {
    path_join(path_join(home, ".cargo"@), "registry"@)
}

pub open spec fn cargo_git_dir_of(home: Seq<char>) -> Seq<char> {
    path_join(path_join(home, ".cargo"@), "git"@)
}

/// The mount root: the explicit base path, else the discovered one.
pub open spec fn mount_root_of(config: DockerConfig, discovered: Option<String>) -> Seq<char> {
    match config.base_path {
        Some(p) => p@,
        None => discovered.unwrap()@,
    }
}

/// The mounts of a plan before the root, in order: the ssh directory
/// (read-only) and the cargo caches that exist.
pub open spec fn fixed_bindings(config: DockerConfig, host: HostFacts) -> Seq<
    (Seq<char>, Seq<char>, bool),
> {
    let home = host.home@;
    let user_home = container_home(config.user@);
    let ssh = if !config.disable_ssh {
        seq![(ssh_dir_of(home), user_home + "/.ssh"@, true)]
    } else {
        Seq::empty()
    };
    let registry = if config.enable_rust_cache && host.cargo_registry_exists {
        seq![(cargo_registry_dir_of(home), user_home + "/.cargo/registry"@, false)]
    } else {
        Seq::empty()
    };
    let git = if config.enable_rust_cache && host.cargo_git_exists {
        seq![(cargo_git_dir_of(home), user_home + "/.cargo/git"@, false)]
    } else {
        Seq::empty()
    };
    ssh + registry + git
}

/// The mounts of a plan, in order: the fixed ones, and last the mount root
/// at its own path.
pub open spec fn planned_bindings(config: DockerConfig, host: HostFacts, root: Seq<char>) -> Seq<
    (Seq<char>, Seq<char>, bool),
> {
    fixed_bindings(config, host) + seq![(root, root, false)]
}

/// Whether no plan can be made: the ssh directory is wanted and missing, or
/// the mount root would land on a fixed mount's container path.
pub open spec fn plan_fails(config: DockerConfig, host: HostFacts, root: Seq<char>) -> bool {
    (!config.disable_ssh && !host.ssh_dir_exists) || root_collides(config, host, root)
}

/// Whether the mount root would land on the container path of a fixed mount.
pub open spec fn root_collides(config: DockerConfig, host: HostFacts, root: Seq<char>) -> bool {
    exists|i: int|
        0 <= i < fixed_bindings(config, host).len() && #[trigger] fixed_bindings(config, host)[i].1
            == root
}

proof fn lemma_differ_at(prefix: Seq<char>, a: Seq<char>, b: Seq<char>, k: int)
    requires
        0 <= k < a.len(),
        k < b.len(),
        a[k] != b[k],
    ensures
        prefix + a != prefix + b,
{
    assert((prefix + a)[prefix.len() + k] == a[k]);
    assert((prefix + b)[prefix.len() + k] == b[k]);
}

/// The ssh and cache targets under a user's home differ from each other.
proof fn lemma_fixed_targets_differ(user: Seq<char>)
    ensures
        container_home(user) + "/.ssh"@ != container_home(user) + "/.cargo/registry"@,
        container_home(user) + "/.ssh"@ != container_home(user) + "/.cargo/git"@,
        container_home(user) + "/.cargo/registry"@ != container_home(user) + "/.cargo/git"@,
{
    reveal_strlit("/.ssh");
    reveal_strlit("/.cargo/registry");
    reveal_strlit("/.cargo/git");
    let uh = container_home(user);
    lemma_differ_at(uh, "/.ssh"@, "/.cargo/registry"@, 2);
    lemma_differ_at(uh, "/.ssh"@, "/.cargo/git"@, 2);
    lemma_differ_at(uh, "/.cargo/registry"@, "/.cargo/git"@, 8);
}

/// The mounts of a plan never share a container path: the fixed mounts'
/// targets differ from each other, and a root landing on one of them is
/// refused by `plan`.
pub proof fn lemma_plan_targets_distinct(config: DockerConfig, host: HostFacts, root: Seq<char>)
    requires
        !root_collides(config, host, root),
    ensures
        forall|i: int, j: int|
            0 <= i < j < planned_bindings(config, host, root).len() ==> (#[trigger] planned_bindings(
                config,
                host,
                root,
            )[i]).1 != (#[trigger] planned_bindings(config, host, root)[j]).1,
{
    lemma_fixed_targets_differ(config.user@);
    let fixed = fixed_bindings(config, host);
    let all = planned_bindings(config, host, root);
    assert forall|i: int, j: int| 0 <= i < j < all.len() implies (#[trigger] all[i]).1 != (
    #[trigger] all[j]).1 by {
        if j == all.len() - 1 {
            assert(all[i] == fixed[i]);
        }
    }
}

/// The host as it would be with neither cargo cache directory.
pub open spec fn without_caches(host: HostFacts) -> HostFacts {
    HostFacts { cargo_registry_exists: false, cargo_git_exists: false, ..host }
}

/// Cache directories are mounted only where they exist, and their absence
/// never makes planning fail: a plan that fails with the caches missing
/// fails with them present too, and no fixed mount targets a cache that is
/// missing.
pub proof fn lemma_caches_only_where_present(
    config: DockerConfig,
    host: HostFacts,
    root: Seq<char>,
)
    ensures
        plan_fails(config, without_caches(host), root) ==> plan_fails(config, host, root),
        forall|i: int|
            0 <= i < fixed_bindings(config, host).len() && (#[trigger] fixed_bindings(
                config,
                host,
            )[i]).1 == container_home(config.user@) + "/.cargo/registry"@ ==> config.enable_rust_cache
                && host.cargo_registry_exists,
        forall|i: int|
            0 <= i < fixed_bindings(config, host).len() && (#[trigger] fixed_bindings(
                config,
                host,
            )[i]).1 == container_home(config.user@) + "/.cargo/git"@ ==> config.enable_rust_cache
                && host.cargo_git_exists,
{
    lemma_fixed_targets_differ(config.user@);
    let bare = fixed_bindings(config, without_caches(host));
    let full = fixed_bindings(config, host);
    if root_collides(config, without_caches(host), root) {
        let i = choose|i: int| 0 <= i < bare.len() && #[trigger] bare[i].1 == root;
        assert(bare.len() <= 1);
        assert(full[0] == bare[0]);
        assert(root_collides(config, host, root));
    }
}

/// The proxy variables passed on: `http_proxy`, then `https_proxy`, each
/// where the environment has it.
pub open spec fn planned_env(env: ProxyEnv) -> Seq<(Seq<char>, Seq<char>)> {
    let http = match env.http_proxy {
        Some(v) => seq![("http_proxy"@, v@)],
        None => Seq::empty(),
    };
    let https = match env.https_proxy {
        Some(v) => seq![("https_proxy"@, v@)],
        None => Seq::empty(),
    };
    http + https
}

/// The container's command: source the user's profile, then run the words
/// of the command joined by single spaces.
pub open spec fn planned_entrypoint(user: Seq<char>, command: Seq<Seq<char>>) -> Seq<char> {
    "source "@ + container_home(user) + "/.bashrc && "@ + join_spaced(command)
}

/// What a successful plan holds.
pub open spec fn is_planned(
    p: MountPlan,
    config: DockerConfig,
    host: HostFacts,
    env: ProxyEnv,
    root: Seq<char>,
) -> bool {
    &&& binding_views(p.bindings@) == planned_bindings(config, host, root)
    &&& env_views(p.env_vars@) == planned_env(env)
    &&& p.use_host_network == (planned_env(env).len() > 0)
    &&& p.working_dir@ == host.cwd@
    &&& p.image@ == config.image@
    &&& p.entrypoint@ == planned_entrypoint(config.user@, views(config.command@))
}

/// The ssh directory under a home directory.
pub fn ssh_dir(home: &str) -> (r: String)
    ensures
        r@ == ssh_dir_of(home@),
{
    join_path(home, ".ssh")
}

/// The cargo registry cache under a home directory.
pub fn cargo_registry_dir(home: &str) -> (r: String)
    ensures
        r@ == cargo_registry_dir_of(home@),
{
    let cargo = join_path(home, ".cargo");
    join_path(cargo.as_str(), "registry")
}

/// The cargo git cache under a home directory.
pub fn cargo_git_dir(home: &str) -> (r: String)
    ensures
        r@ == cargo_git_dir_of(home@),
{
    let cargo = join_path(home, ".cargo");
    join_path(cargo.as_str(), "git")
}

fn user_path(user: &str, tail: &str) -> (r: String)
    ensures
        r@ == container_home(user@) + tail@,
{
    let mut r = String::from_str("/home/");
    r.append(user);
    r.append(tail);
    r
}

fn binding(host: String, container: String, read_only: bool) -> (r: Binding)
    ensures
        r@ == (host@, container@, read_only),
{
    Binding { host, container, read_only }
}

/// Plans a launch. The mount root is the configured base path, else the
/// discovered one. It fails when the ssh directory is wanted and missing,
/// and else when the mount root would land on another mount's container path.
pub fn plan(
    config: &DockerConfig,
    host: &HostFacts,
    env: &ProxyEnv,
    discovered_root: Option<String>,
) -> (r: Result<MountPlan, PlanError>)
    requires
        config.base_path is Some || discovered_root is Some,
    ensures
        r is Err <==> plan_fails(*config, *host, mount_root_of(*config, discovered_root)),
        (r matches Err(PlanError::MissingSshDir { .. })) <==> !config.disable_ssh
            && !host.ssh_dir_exists,
        r matches Err(PlanError::MissingSshDir { path }) ==> path@ == ssh_dir_of(host.home@),
        (r matches Err(PlanError::DuplicateMountTarget { .. })) <==> (config.disable_ssh
            || host.ssh_dir_exists) && root_collides(
            *config,
            *host,
            mount_root_of(*config, discovered_root),
        ),
        r matches Err(PlanError::DuplicateMountTarget { path }) ==> path@ == mount_root_of(
            *config,
            discovered_root,
        ),
        r matches Ok(p) ==> is_planned(
            p,
            *config,
            *host,
            *env,
            mount_root_of(*config, discovered_root),
        ),
{
    let ghost root = mount_root_of(*config, discovered_root);
    let mount_root = match &config.base_path {
        Some(p) => p.clone(),
        None => discovered_root.unwrap(),
    };
    let mut bindings: Vec<Binding> = Vec::new();
    if !config.disable_ssh {
        let ssh = ssh_dir(host.home.as_str());
        if !host.ssh_dir_exists {
            return Err(PlanError::MissingSshDir { path: ssh });
        }
        bindings.push(binding(ssh, user_path(config.user.as_str(), "/.ssh"), true));
    }
    if config.enable_rust_cache {
        if host.cargo_registry_exists {
            let dir = cargo_registry_dir(host.home.as_str());
            bindings.push(binding(dir, user_path(config.user.as_str(), "/.cargo/registry"), false));
        }
    }
    if config.enable_rust_cache {
        if host.cargo_git_exists {
            let dir = cargo_git_dir(host.home.as_str());
            bindings.push(binding(dir, user_path(config.user.as_str(), "/.cargo/git"), false));
        }
    }
    assert(binding_views(bindings@) =~= fixed_bindings(*config, *host));
    let mut i: usize = 0;
    while i < bindings.len()
        invariant
            i <= bindings@.len(),
            binding_views(bindings@) == fixed_bindings(*config, *host),
            mount_root@ == root,
            root == mount_root_of(*config, discovered_root),
            !config.disable_ssh ==> host.ssh_dir_exists,
            forall|k: int| 0 <= k < i ==> fixed_bindings(*config, *host)[k].1 != root,
        decreases bindings@.len() - i,
    {
        if str_eq(bindings[i].container.as_str(), mount_root.as_str()) {
            assert(fixed_bindings(*config, *host)[i as int].1 == root);
            assert(root_collides(*config, *host, root));
            return Err(PlanError::DuplicateMountTarget { path: mount_root });
        }
        i = i + 1;
    }
    let root_host = mount_root.clone();
    bindings.push(binding(root_host, mount_root, false));
    assert(binding_views(bindings@) =~= planned_bindings(*config, *host, root));

    let mut env_vars: Vec<EnvVar> = Vec::new();
    match &env.http_proxy {
        Some(v) => env_vars.push(EnvVar { name: String::from_str("http_proxy"), value: v.clone() }),
        None => {},
    }
    match &env.https_proxy {
        Some(v) => env_vars.push(EnvVar { name: String::from_str("https_proxy"), value: v.clone() }),
        None => {},
    }
    assert(env_views(env_vars@) =~= planned_env(*env));
    let use_host_network = env_vars.len() > 0;

    let profile = user_path(config.user.as_str(), "/.bashrc && ");
    let mut source = String::from_str("source ");
    source.append(profile.as_str());
    let words = join_words(&config.command);
    source.append(words.as_str());
    assert(source@ =~= planned_entrypoint(config.user@, views(config.command@)));
    Ok(
        MountPlan {
            bindings,
            env_vars,
            use_host_network,
            working_dir: host.cwd.clone(),
            image: config.image.clone(),
            entrypoint: source,
        },
    )
}


/// The program that runs the container runtime: `docker`, behind `sudo`
/// when elevation is wanted.
pub open spec fn runtime_prefix(sudo: bool) -> Seq<Seq<char>> {
    if sudo {
        seq!["sudo"@, "docker"@]
    } else {
        seq!["docker"@]
    }
}

/// The runtime invocation with its leading words: `docker`, or `sudo docker`.
pub fn runtime_command(sudo: bool) -> (r: Vec<String>)
    ensures
        views(r@) == runtime_prefix(sudo),
{
    let mut r: Vec<String> = Vec::new();
    if sudo {
        r.push(String::from_str("sudo"));
    }
    r.push(String::from_str("docker"));
    assert(views(r@) =~= runtime_prefix(sudo));
    r
}

/// A mount as the runtime's `-v` option writes it: `host:container`, with
/// `:ro` for a read-only one.
pub open spec fn volume_spec(b: (Seq<char>, Seq<char>, bool)) -> Seq<char> {
    b.0 + ":"@ + b.1 + if b.2 {
        ":ro"@
    } else {
        Seq::empty()
    }
}

/// A `-v` option for each mount, in order.
pub open spec fn volume_args(b: Seq<(Seq<char>, Seq<char>, bool)>) -> Seq<Seq<char>>
    decreases b.len(),
{
    if b.len() == 0 {
        Seq::empty()
    } else {
        volume_args(b.drop_last()) + seq!["-v"@, volume_spec(b.last())]
    }
}

/// An `--env NAME=value` option for each variable, in order.
pub open spec fn env_args(e: Seq<(Seq<char>, Seq<char>)>) -> Seq<Seq<char>>
    decreases e.len(),
{
    if e.len() == 0 {
        Seq::empty()
    } else {
        env_args(e.drop_last()) + seq!["--env"@, e.last().0 + "="@ + e.last().1]
    }
}

/// The full launch command: the runtime, `run -d`, the mounts but the
/// last, host networking when asked, the variables, the last mount (the
/// root), the working directory, the image, and `bash -c` with the
/// entrypoint.
pub open spec fn launch_args(
    sudo: bool,
    bindings: Seq<(Seq<char>, Seq<char>, bool)>,
    env: Seq<(Seq<char>, Seq<char>)>,
    host_network: bool,
    working_dir: Seq<char>,
    image: Seq<char>,
    entrypoint: Seq<char>,
) -> Seq<Seq<char>> {
    runtime_prefix(sudo) + seq!["run"@, "-d"@] + volume_args(bindings.drop_last()) + (
    if host_network {
        seq!["--network"@, "host"@]
    } else {
        Seq::empty()
    }) + env_args(env) + seq![
        "-v"@,
        volume_spec(bindings.last()),
        "-w"@,
        working_dir,
        image,
        "bash"@,
        "-c"@,
        entrypoint,
    ]
}

/// The launch command of a plan.
pub open spec fn run_args(sudo: bool, p: MountPlan) -> Seq<Seq<char>> {
    launch_args(
        sudo,
        binding_views(p.bindings@),
        env_views(p.env_vars@),
        p.use_host_network,
        p.working_dir@,
        p.image@,
        p.entrypoint@,
    )
}

/// The launch command of the plan made for a configuration and host.
pub open spec fn planned_run_args(
    config: DockerConfig,
    host: HostFacts,
    env: ProxyEnv,
    root: Seq<char>,
) -> Seq<Seq<char>> {
    launch_args(
        !config.disable_sudo,
        planned_bindings(config, host, root),
        planned_env(env),
        planned_env(env).len() > 0,
        host.cwd@,
        config.image@,
        planned_entrypoint(config.user@, views(config.command@)),
    )
}

fn volume(b: &Binding) -> (r: String)
    ensures
        r@ == volume_spec(b@),
{
    let mut r = b.host.clone();
    r.append(":");
    r.append(b.container.as_str());
    if b.read_only {
        r.append(":ro");
    }
    r
}

pub(crate) fn push_str(v: &mut Vec<String>, s: &str)
    ensures
        views(final(v)@) == views(old(v)@).push(s@),
{
    v.push(String::from_str(s));
    assert(views(v@) =~= views(old(v)@).push(s@));
}

fn push_string(v: &mut Vec<String>, s: String)
    ensures
        views(final(v)@) == views(old(v)@).push(s@),
{
    v.push(s);
    assert(views(v@) =~= views(old(v)@).push(s@));
}

/// Renders a plan as the argument list of the runtime's `run` command.
#[verifier::rlimit(50)]
pub fn render_run_command(p: &MountPlan, sudo: bool) -> (r: Vec<String>)
    requires
        p.bindings@.len() > 0,
    ensures
        views(r@) == run_args(sudo, *p),
{
    let ghost b = binding_views(p.bindings@);
    let ghost e = env_views(p.env_vars@);
    let mut r = runtime_command(sudo);
    push_str(&mut r, "run");
    push_str(&mut r, "-d");
    let ghost head = views(r@);
    let last = p.bindings.len() - 1;
    let mut i: usize = 0;
    while i < last
        invariant
            last == p.bindings@.len() - 1,
            i <= last,
            b == binding_views(p.bindings@),
            views(r@) == head + volume_args(b.take(i as int)),
        decreases last - i,
    {
        assert(b.take(i as int + 1).drop_last() =~= b.take(i as int));
        push_str(&mut r, "-v");
        push_string(&mut r, volume(&p.bindings[i]));
        i = i + 1;
    }
    assert(b.take(last as int) =~= b.drop_last());
    if p.use_host_network {
        push_str(&mut r, "--network");
        push_str(&mut r, "host");
    }
    let ghost mid = views(r@);
    let mut j: usize = 0;
    while j < p.env_vars.len()
        invariant
            j <= p.env_vars@.len(),
            e == env_views(p.env_vars@),
            views(r@) == mid + env_args(e.take(j as int)),
        decreases p.env_vars@.len() - j,
    {
        assert(e.take(j as int + 1).drop_last() =~= e.take(j as int));
        push_str(&mut r, "--env");
        let mut kv = p.env_vars[j].name.clone();
        kv.append("=");
        kv.append(p.env_vars[j].value.as_str());
        push_string(&mut r, kv);
        j = j + 1;
    }
    assert(e.take(j as int) =~= e);
    push_str(&mut r, "-v");
    push_string(&mut r, volume(&p.bindings[last]));
    push_str(&mut r, "-w");
    push_str(&mut r, p.working_dir.as_str());
    push_str(&mut r, p.image.as_str());
    push_str(&mut r, "bash");
    push_str(&mut r, "-c");
    push_str(&mut r, p.entrypoint.as_str());
    assert(views(r@) =~= run_args(sudo, *p));
    r
}


/// A variable after setup: the configured value where there is one, else
/// what the environment had.
pub open spec fn overridden(current: Option<String>, wanted: Option<String>) -> Option<String> {
    match wanted {
        Some(v) => Some(v),
        None => current,
    }
}

/// The proxy variables once the configured proxies are exported: `http` sets
/// `http_proxy`, `https` sets `https_proxy`, `sock5` sets `all_proxy`.
pub fn setup_proxy(env: ProxyEnv, config: &Config) -> (r: ProxyEnv)
    ensures
        match config.proxy {
            Some(p) => {
                &&& r.http_proxy == overridden(env.http_proxy, p.http)
                &&& r.https_proxy == overridden(env.https_proxy, p.https)
                &&& r.all_proxy == overridden(env.all_proxy, p.sock5)
            },
            None => r == env,
        },
{
    match &config.proxy {
        None => env,
        Some(p) => {
            let http_proxy = match &p.http {
                Some(v) => Some(v.clone()),
                None => env.http_proxy,
            };
            let https_proxy = match &p.https {
                Some(v) => Some(v.clone()),
                None => env.https_proxy,
            };
            let all_proxy = match &p.sock5 {
                Some(v) => Some(v.clone()),
                None => env.all_proxy,
            };
            ProxyEnv { http_proxy, https_proxy, all_proxy }
        },
    }
}

} // verus!
