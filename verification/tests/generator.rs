use chai_core::nix::generator::{generate_nix, service_path};
use chai_core::nix::parser::{NixPlan, NixService};

fn svc(name: &str, enabled: bool) -> NixService {
    NixService { name: name.to_string(), enabled }
}

#[test]
fn generates_packages_and_services() {
    let plan = NixPlan {
        packages: vec!["vim".to_string(), "git".to_string()],
        services: vec![svc("docker", true), svc("ssh", false), svc("foo", true)],
    };
    assert_eq!(
        generate_nix(&plan),
        "{ config, pkgs, ... }: {\n  environment.systemPackages = with pkgs; [ vim git ];\n  virtualisation.docker.enable = true;\n  services.openssh.enable = false;\n  services.foo.enable = true;\n}\n"
    );
}

#[test]
fn omits_package_line_without_packages() {
    let plan = NixPlan { packages: vec![], services: vec![svc("nginx", true)] };
    assert_eq!(generate_nix(&plan), "{ config, pkgs, ... }: {\n  services.nginx.enable = true;\n}\n");
}

#[test]
fn packages_only() {
    let plan = NixPlan { packages: vec!["htop".to_string()], services: vec![] };
    assert_eq!(
        generate_nix(&plan),
        "{ config, pkgs, ... }: {\n  environment.systemPackages = with pkgs; [ htop ];\n}\n"
    );
}

#[test]
fn empty_plan_renders_empty_module() {
    let plan = NixPlan { packages: vec![], services: vec![] };
    assert_eq!(generate_nix(&plan), "{ config, pkgs, ... }: {\n}\n");
}

#[test]
fn service_paths_of_known_names() {
    assert_eq!(service_path("docker"), "virtualisation.docker");
    assert_eq!(service_path("podman"), "virtualisation.podman");
    assert_eq!(service_path("libvirt"), "virtualisation.libvirtd");
    assert_eq!(service_path("sshd"), "services.openssh");
    assert_eq!(service_path("nginx"), "services.nginx");
    assert_eq!(service_path("postgresql"), "services.postgresql");
    assert_eq!(service_path("mysql"), "services.mysql");
    assert_eq!(service_path("redis"), "services.redis");
    assert_eq!(service_path("ollama"), "services.ollama");
    assert_eq!(service_path("docker-compose"), "virtualisation.docker-compose");
}

#[test]
fn service_aliases_share_a_path() {
    assert_eq!(service_path("ssh"), service_path("sshd"));
    assert_eq!(service_path("postgres"), service_path("postgresql"));
    assert_eq!(service_path("mariadb"), service_path("mysql"));
}

#[test]
fn other_services_go_under_services() {
    assert_eq!(service_path("tailscale"), "services.tailscale");
    assert_eq!(service_path(""), "services.");
    assert_eq!(service_path("Docker"), "services.Docker");
}

#[test]
fn services_render_in_order_and_independently() {
    let a = NixPlan { packages: vec![], services: vec![svc("redis", false)] };
    let b = NixPlan { packages: vec![], services: vec![svc("redis", false), svc("ollama", true)] };
    let ta = generate_nix(&a);
    let tb = generate_nix(&b);
    let head = ta.strip_suffix("}\n").unwrap();
    assert_eq!(tb, format!("{}  services.ollama.enable = true;\n}}\n", head));
}
