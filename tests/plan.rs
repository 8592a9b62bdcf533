use ubuild::cli::Args;
use ubuild::config::{Config, EngineConfig, ProxyConfig};
use ubuild::plan::{
    cargo_git_dir, cargo_registry_dir, join_path, plan, render_run_command, runtime_command,
    setup_proxy, ssh_dir, DockerConfig, HostFacts, MountPlan, PlanError, ProxyEnv,
};

fn args(disable_ssh: bool, cache: Option<bool>) -> Args {
    Args {
        disable_ssh,
        disable_sudo: false,
        enable_rust_cache: cache,
        base_path: None,
        user: "nonroot".to_string(),
        image: "rust:latest".to_string(),
        command: vec!["cargo".to_string(), "build".to_string()],
    }
}

fn host(ssh: bool, registry: bool, git: bool) -> HostFacts {
    HostFacts {
        home: "/home/alice".to_string(),
        cwd: "/home/alice/src/proj".to_string(),
        ssh_dir_exists: ssh,
        cargo_registry_exists: registry,
        cargo_git_exists: git,
    }
}

fn no_proxy() -> ProxyEnv {
    ProxyEnv { http_proxy: None, https_proxy: None, all_proxy: None }
}

fn ok(r: Result<MountPlan, PlanError>) -> MountPlan {
    match r {
        Ok(p) => p,
        Err(PlanError::MissingSshDir { path }) => panic!("missing ssh dir {}", path),
        Err(PlanError::DuplicateMountTarget { path }) => panic!("duplicate mount {}", path),
    }
}

fn bindings(p: &MountPlan) -> Vec<(String, String, bool)> {
    p.bindings.iter().map(|b| (b.host.clone(), b.container.clone(), b.read_only)).collect()
}

#[test]
fn ssh_mount_and_root_only() {
    let cfg = DockerConfig::new(&args(false, Some(false)), &Config::default());
    let p = ok(plan(&cfg, &host(true, true, true), &no_proxy(), Some("/home/alice".to_string())));
    assert_eq!(
        bindings(&p),
        vec![
            ("/home/alice/.ssh".to_string(), "/home/nonroot/.ssh".to_string(), true),
            ("/home/alice".to_string(), "/home/alice".to_string(), false),
        ]
    );
    assert!(!p.use_host_network);
    assert!(p.env_vars.is_empty());
    assert_eq!(p.working_dir, "/home/alice/src/proj");
    assert_eq!(p.image, "rust:latest");
    assert_eq!(p.entrypoint, "source /home/nonroot/.bashrc && cargo build");
}

#[test]
fn http_proxy_alone_uses_host_network() {
    let cfg = DockerConfig::new(&args(true, None), &Config::default());
    let env = ProxyEnv {
        http_proxy: Some("http://127.0.0.1:1088".to_string()),
        https_proxy: None,
        all_proxy: None,
    };
    let p = ok(plan(&cfg, &host(false, false, false), &env, Some("/srv".to_string())));
    assert!(p.use_host_network);
    let vars: Vec<(String, String)> =
        p.env_vars.iter().map(|v| (v.name.clone(), v.value.clone())).collect();
    assert_eq!(vars, vec![("http_proxy".to_string(), "http://127.0.0.1:1088".to_string())]);
}

#[test]
fn missing_ssh_dir_fails_the_plan() {
    let cfg = DockerConfig::new(&args(false, Some(true)), &Config::default());
    match plan(&cfg, &host(false, true, true), &no_proxy(), Some("/srv".to_string())) {
        Err(PlanError::MissingSshDir { path }) => assert_eq!(path, "/home/alice/.ssh"),
        _ => panic!("a plan was made without the ssh directory"),
    }
}

#[test]
fn cache_mounts_only_where_they_exist() {
    let cfg = DockerConfig::new(&args(true, Some(true)), &Config::default());
    let p = ok(plan(&cfg, &host(false, false, true), &no_proxy(), Some("/srv".to_string())));
    assert_eq!(
        bindings(&p),
        vec![
            ("/home/alice/.cargo/git".to_string(), "/home/nonroot/.cargo/git".to_string(), false),
            ("/srv".to_string(), "/srv".to_string(), false),
        ]
    );
    let none = ok(plan(&cfg, &host(false, false, false), &no_proxy(), Some("/srv".to_string())));
    assert_eq!(bindings(&none), vec![("/srv".to_string(), "/srv".to_string(), false)]);
    let both = ok(plan(&cfg, &host(false, true, true), &no_proxy(), Some("/srv".to_string())));
    assert_eq!(both.bindings.len(), 3);
    assert_eq!(both.bindings[0].container, "/home/nonroot/.cargo/registry");
}

#[test]
fn explicit_base_path_wins_over_discovered_root() {
    let mut a = args(true, None);
    a.base_path = Some("/data".to_string());
    let cfg = DockerConfig::new(&a, &Config::default());
    let p = ok(plan(&cfg, &host(false, false, false), &no_proxy(), Some("/home".to_string())));
    assert_eq!(bindings(&p), vec![("/data".to_string(), "/data".to_string(), false)]);
}

#[test]
fn config_file_fills_what_the_command_line_leaves_open() {
    let config = Config {
        notifier: None,
        proxy: None,
        engine: Some(EngineConfig { enable_rust_cache: Some(true), base_path: Some("/work".to_string()) }),
    };
    let cfg = DockerConfig::new(&args(true, None), &config);
    assert!(cfg.enable_rust_cache);
    assert_eq!(cfg.base_path, Some("/work".to_string()));
    let cfg = DockerConfig::new(&args(true, Some(false)), &config);
    assert!(!cfg.enable_rust_cache);
    let cfg = DockerConfig::new(&args(true, None), &Config::default());
    assert!(!cfg.enable_rust_cache);
    assert_eq!(cfg.base_path, None);
}

#[test]
fn renders_the_full_run_command() {
    let cfg = DockerConfig::new(&args(false, Some(true)), &Config::default());
    let env = ProxyEnv {
        http_proxy: Some("http://p:1".to_string()),
        https_proxy: Some("http://p:2".to_string()),
        all_proxy: Some("socks5://p:3".to_string()),
    };
    let p = ok(plan(&cfg, &host(true, true, false), &env, Some("/home/alice".to_string())));
    let argv = render_run_command(&p, true);
    let expected: Vec<&str> = vec![
        "sudo", "docker", "run", "-d",
        "-v", "/home/alice/.ssh:/home/nonroot/.ssh:ro",
        "-v", "/home/alice/.cargo/registry:/home/nonroot/.cargo/registry",
        "--network", "host",
        "--env", "http_proxy=http://p:1",
        "--env", "https_proxy=http://p:2",
        "-v", "/home/alice:/home/alice",
        "-w", "/home/alice/src/proj",
        "rust:latest",
        "bash", "-c", "source /home/nonroot/.bashrc && cargo build",
    ];
    assert_eq!(argv, expected);
    assert_eq!(render_run_command(&p, false)[0], "docker");
}

#[test]
fn runtime_prefix_follows_sudo() {
    assert_eq!(runtime_command(true), vec!["sudo", "docker"]);
    assert_eq!(runtime_command(false), vec!["docker"]);
}

#[test]
fn joins_paths_like_pathbuf() {
    assert_eq!(join_path("/home/a", ".ssh"), "/home/a/.ssh");
    assert_eq!(join_path("/home/a/", ".ssh"), "/home/a/.ssh");
    assert_eq!(join_path("", "x"), "x");
    assert_eq!(ssh_dir("/root"), "/root/.ssh");
    assert_eq!(cargo_registry_dir("/root"), "/root/.cargo/registry");
    assert_eq!(cargo_git_dir("/"), "/.cargo/git");
}

#[test]
fn configured_proxies_override_the_environment() {
    let env = ProxyEnv {
        http_proxy: Some("http://old".to_string()),
        https_proxy: Some("http://keep".to_string()),
        all_proxy: None,
    };
    let config = Config {
        notifier: None,
        proxy: Some(ProxyConfig {
            http: Some("http://new".to_string()),
            https: None,
            sock5: Some("socks5://s".to_string()),
        }),
        engine: None,
    };
    let r = setup_proxy(env, &config);
    assert_eq!(r.http_proxy, Some("http://new".to_string()));
    assert_eq!(r.https_proxy, Some("http://keep".to_string()));
    assert_eq!(r.all_proxy, Some("socks5://s".to_string()));
    let untouched = setup_proxy(ProxyEnv { http_proxy: None, https_proxy: None, all_proxy: None }, &Config::default());
    assert_eq!(untouched.http_proxy, None);
}

#[test]
fn root_on_a_fixed_mount_target_is_refused() {
    let mut a = args(false, Some(true));
    a.base_path = Some("/home/nonroot/.cargo/git".to_string());
    let cfg = DockerConfig::new(&a, &Config::default());
    match plan(&cfg, &host(true, true, true), &no_proxy(), None) {
        Err(PlanError::DuplicateMountTarget { path }) => assert_eq!(path, "/home/nonroot/.cargo/git"),
        _ => panic!("a root on the git cache target was accepted"),
    }
    // Without the cache, nothing else is mounted there.
    let cfg = DockerConfig::new(&args(false, Some(false)), &Config::default());
    let p = ok(plan(&cfg, &host(true, false, false), &no_proxy(), Some("/home/nonroot/.cargo/git".to_string())));
    assert_eq!(p.bindings.len(), 2);
    // A missing ssh directory is reported first.
    let cfg = DockerConfig::new(&a, &Config::default());
    assert!(matches!(
        plan(&cfg, &host(false, true, true), &no_proxy(), None),
        Err(PlanError::MissingSshDir { .. })
    ));
}
