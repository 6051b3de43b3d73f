//! Renders a [`NixPlan`] as a NixOS module.
use vstd::prelude::*;
use vstd::string::StringExecFns;

use crate::nix::parser::{NixPlan, PlanModel, ServiceModel};
use crate::text::str_eq;

verus! {

/// The option path that a service name stands for. Some common names and
/// their aliases map to the module that provides them; any other name `n`
/// maps to `services.n`.
pub open spec fn service_path_of(name: Seq<char>) -> Seq<char> {
    if name == "docker"@ {
        "virtualisation.docker"@
    } else if name == "podman"@ {
        "virtualisation.podman"@
    } else if name == "libvirt"@ {
        "virtualisation.libvirtd"@
    } else if name == "sshd"@ || name == "ssh"@ {
        "services.openssh"@
    } else if name == "nginx"@ {
        "services.nginx"@
    } else if name == "postgresql"@ || name == "postgres"@ {
        "services.postgresql"@
    } else if name == "mysql"@ || name == "mariadb"@ {
        "services.mysql"@
    } else if name == "redis"@ {
        "services.redis"@
    } else if name == "ollama"@ {
        "services.ollama"@
    } else if name == "docker-compose"@ {
        "virtualisation.docker-compose"@
    } else {
        "services."@ + name
    }
}

/// The names that [`service_path_of`] maps to a fixed path.
pub open spec fn is_known_service(name: Seq<char>) -> bool {
    ||| name == "docker"@
    ||| name == "podman"@
    ||| name == "libvirt"@
    ||| name == "sshd"@
    ||| name == "ssh"@
    ||| name == "nginx"@
    ||| name == "postgresql"@
    ||| name == "postgres"@
    ||| name == "mysql"@
    ||| name == "mariadb"@
    ||| name == "redis"@
    ||| name == "ollama"@
    ||| name == "docker-compose"@
}

/// The package names, each preceded by a space.
pub open spec fn package_items(packages: Seq<Seq<char>>) -> Seq<char>
    decreases packages.len(),
{
    if packages.len() == 0 {
        Seq::empty()
    } else {
        package_items(packages.drop_last()) + " "@ + packages.last()
    }
}

/// The `environment.systemPackages` line, present only when there are packages.
pub open spec fn package_line(packages: Seq<Seq<char>>) -> Seq<char> {
    if packages.len() == 0 {
        Seq::empty()
    } else {
        "  environment.systemPackages = with pkgs; ["@ + package_items(packages) + " ];\n"@
    }
}

/// The line that switches one service on or off.
pub open spec fn service_line(service: ServiceModel) -> Seq<char> {
    "  "@ + service_path_of(service.name) + if service.enabled {
        ".enable = true;\n"@
    } else {
        ".enable = false;\n"@
    }
}

/// One line per service, in the plan's order.
pub open spec fn service_lines(services: Seq<ServiceModel>) -> Seq<char>
    decreases services.len(),
{
    if services.len() == 0 {
        Seq::empty()
    } else {
        service_lines(services.drop_last()) + service_line(services.last())
    }
}

/// The module's opening line.
pub open spec fn module_header() -> Seq<char> {
    "{ config, pkgs, ... }: {\n"@
}

/// The module's closing line.
pub open spec fn module_footer() -> Seq<char> {
    "}\n"@
}

/// The NixOS module text for a plan.
pub open spec fn nix_module(plan: PlanModel) -> Seq<char> {
    module_header() + package_line(plan.packages) + service_lines(plan.services) + module_footer()
}

/// The option path for a service name.
pub fn service_path(name: &str) -> (res: String)
    ensures
        res@ == service_path_of(name@),
{
    if str_eq(name, "docker") {
        String::from_str("virtualisation.docker")
    } else if str_eq(name, "podman") {
        String::from_str("virtualisation.podman")
    } else if str_eq(name, "libvirt") {
        String::from_str("virtualisation.libvirtd")
    } else if str_eq(name, "sshd") || str_eq(name, "ssh") {
        String::from_str("services.openssh")
    } else if str_eq(name, "nginx") {
        String::from_str("services.nginx")
    } else if str_eq(name, "postgresql") || str_eq(name, "postgres") {
        String::from_str("services.postgresql")
    } else if str_eq(name, "mysql") || str_eq(name, "mariadb") {
        String::from_str("services.mysql")
    } else if str_eq(name, "redis") {
        String::from_str("services.redis")
    } else if str_eq(name, "ollama") {
        String::from_str("services.ollama")
    } else if str_eq(name, "docker-compose") {
        String::from_str("virtualisation.docker-compose")
    } else {
        String::from_str("services.").concat(name)
    }
}

/// Renders the plan as a NixOS module: a header, one line listing the
/// packages when there are any, one `enable` line per service, and the
/// closing brace.
pub fn generate_nix(plan: &NixPlan) -> (res: String)
    ensures
        res@ == nix_module(plan@),
{
    let ghost packages = plan@.packages;
    let ghost services = plan@.services;
    let mut out = String::from_str("{ config, pkgs, ... }: {\n");
    if plan.packages.len() != 0 {
        out.append("  environment.systemPackages = with pkgs; [");
        let ghost start = out@;
        let n = plan.packages.len();
        proof {
            assert(packages.take(0) =~= Seq::<Seq<char>>::empty());
        }
        let mut i: usize = 0;
        while i < n
            invariant
                n == plan.packages@.len(),
                packages == plan@.packages,
                packages.len() == n,
                i <= n,
                out@ == start + package_items(packages.take(i as int)),
            decreases n - i,
        {
            out.append(" ");
            out.append(plan.packages[i].as_str());
            proof {
                assert(packages.take(i + 1).drop_last() =~= packages.take(i as int));
                assert(packages[i as int] == plan.packages@[i as int]@);
            }
            i = i + 1;
        }
        out.append(" ];\n");
        proof {
            assert(packages.take(n as int) =~= packages);
        }
    }
    let ghost before_services = out@;
    proof {
        assert(before_services == module_header() + package_line(packages));
        assert(services.take(0) =~= Seq::<ServiceModel>::empty());
    }
    let m = plan.services.len();
    let mut k: usize = 0;
    while k < m
        invariant
            m == plan.services@.len(),
            services == plan@.services,
            services.len() == m,
            k <= m,
            out@ == before_services + service_lines(services.take(k as int)),
        decreases m - k,
    {
        let svc = &plan.services[k];
        let path = service_path(svc.name.as_str());
        out.append("  ");
        out.append(path.as_str());
        if svc.enabled {
            out.append(".enable = true;\n");
        } else {
            out.append(".enable = false;\n");
        }
        proof {
            assert(services.take(k + 1).drop_last() =~= services.take(k as int));
            assert(services[k as int] == plan.services@[k as int]@);
        }
        k = k + 1;
    }
    proof {
        assert(services.take(m as int) =~= services);
    }
    out.append("}\n");
    out
}

/// Each alias names the same module as the name it stands for.
pub proof fn lemma_service_aliases()
    ensures
        service_path_of("ssh"@) == service_path_of("sshd"@),
        service_path_of("sshd"@) == "services.openssh"@,
        service_path_of("postgres"@) == service_path_of("postgresql"@),
        service_path_of("postgresql"@) == "services.postgresql"@,
        service_path_of("mariadb"@) == service_path_of("mysql"@),
        service_path_of("mysql"@) == "services.mysql"@,
{
    reveal_strlit("docker");
    reveal_strlit("podman");
    reveal_strlit("libvirt");
    reveal_strlit("sshd");
    reveal_strlit("ssh");
    reveal_strlit("nginx");
    reveal_strlit("postgresql");
    reveal_strlit("postgres");
    reveal_strlit("mysql");
    reveal_strlit("mariadb");
    assert("docker"@.len() == 6 && "podman"@.len() == 6 && "libvirt"@.len() == 7);
    assert("sshd"@.len() == 4 && "ssh"@.len() == 3 && "nginx"@.len() == 5);
    assert("postgresql"@.len() == 10 && "postgres"@.len() == 8);
    assert("mysql"@.len() == 5 && "mariadb"@.len() == 7);
    assert("ssh"@ != "sshd"@);
    assert("sshd"@ != "docker"@ && "sshd"@ != "podman"@ && "sshd"@ != "libvirt"@);
    assert("ssh"@ != "docker"@ && "ssh"@ != "podman"@ && "ssh"@ != "libvirt"@);
    assert("mariadb"@[0] != "libvirt"@[0]);
    assert("mysql"@[0] != "nginx"@[0]);
}

/// A name without a module of its own is configured under `services.<name>`.
pub proof fn lemma_other_service_path(name: Seq<char>)
    requires
        !is_known_service(name),
    ensures
        service_path_of(name) == "services."@ + name,
{
}

/// Services are rendered one after another, each on its own: the lines for
/// two lists of services are the lines for the first list followed by the
/// lines for the second.
pub proof fn lemma_service_lines_concat(first: Seq<ServiceModel>, second: Seq<ServiceModel>)
    ensures
        service_lines(first + second) == service_lines(first) + service_lines(second),
    decreases second.len(),
{
    if second.len() == 0 {
        assert(first + second =~= first);
        assert(service_lines(first) + service_lines(second) =~= service_lines(first));
    } else {
        lemma_service_lines_concat(first, second.drop_last());
        assert((first + second).drop_last() =~= first + second.drop_last());
        assert(service_lines(first) + service_lines(second) =~= service_lines(first)
            + service_lines(second.drop_last()) + service_line(second.last()));
    }
}

/// Every module opens with the header line and closes with the footer line;
/// a plan without packages has no package line.
pub proof fn lemma_module_frame(plan: PlanModel)
    ensures
        nix_module(plan).len() >= module_header().len() + module_footer().len(),
        nix_module(plan).subrange(0, module_header().len() as int) == module_header(),
        nix_module(plan).subrange(
            nix_module(plan).len() - module_footer().len(),
            nix_module(plan).len() as int,
        ) == module_footer(),
        plan.packages.len() == 0 ==> nix_module(plan) == module_header() + service_lines(
            plan.services,
        ) + module_footer(),
{
    let body = package_line(plan.packages) + service_lines(plan.services);
    assert(nix_module(plan) =~= module_header() + body + module_footer());
    assert(nix_module(plan).subrange(0, module_header().len() as int) =~= module_header());
    assert(nix_module(plan).subrange(
        nix_module(plan).len() - module_footer().len(),
        nix_module(plan).len() as int,
    ) =~= module_footer());
    if plan.packages.len() == 0 {
        assert(package_line(plan.packages) =~= Seq::<char>::empty());
        assert(nix_module(plan) =~= module_header() + service_lines(plan.services) + module_footer());
    }
}

/// No packages give no package text; one package gives a space and its name.
pub proof fn lemma_package_items_small(p: Seq<char>)
    ensures
        package_items(Seq::empty()) == Seq::<char>::empty(),
        package_items(seq![p]) == " "@ + p,
{
    assert(seq![p].drop_last() =~= Seq::<Seq<char>>::empty());
    assert(Seq::<char>::empty() + " "@ =~= " "@);
}

/// Every package is listed, in the plan's order: the text for two lists of
/// packages is the text for the first followed by the text for the second.
pub proof fn lemma_package_items_concat(first: Seq<Seq<char>>, second: Seq<Seq<char>>)
    ensures
        package_items(first + second) == package_items(first) + package_items(second),
    decreases second.len(),
{
    if second.len() == 0 {
        assert(first + second =~= first);
        assert(package_items(first) + package_items(second) =~= package_items(first));
    } else {
        lemma_package_items_concat(first, second.drop_last());
        assert((first + second).drop_last() =~= first + second.drop_last());
        assert(package_items(first) + package_items(second) =~= package_items(first)
            + package_items(second.drop_last()) + " "@ + second.last());
    }
}

/// Adding a package to a plan adds a space and its name at the end of the
/// package list.
pub proof fn lemma_package_items_push(packages: Seq<Seq<char>>, p: Seq<char>)
    ensures
        package_items(packages.push(p)) == package_items(packages) + " "@ + p,
{
    assert(packages.push(p).drop_last() =~= packages);
}

/// The total length of a list of names.
pub open spec fn names_len(names: Seq<Seq<char>>) -> nat
    decreases names.len(),
{
    if names.len() == 0 {
        0
    } else {
        names_len(names.drop_last()) + names.last().len()
    }
}

/// The package text is as long as all names together, plus one space per name.
pub proof fn lemma_package_items_len(packages: Seq<Seq<char>>)
    ensures
        package_items(packages).len() == packages.len() + names_len(packages),
    decreases packages.len(),
{
    reveal_strlit(" ");
    if packages.len() > 0 {
        lemma_package_items_len(packages.drop_last());
        assert(" "@.len() == 1);
    }
}

/// A module is the header line, the package line naming every package (only
/// when there are packages), one line per service, and the closing brace.
pub proof fn lemma_module_text(plan: PlanModel)
    ensures
        plan.packages.len() > 0 ==> nix_module(plan) == "{ config, pkgs, ... }: {\n"@
            + "  environment.systemPackages = with pkgs; ["@ + package_items(plan.packages) + " ];\n"@
            + service_lines(plan.services) + "}\n"@,
        plan.packages.len() == 0 ==> nix_module(plan) == "{ config, pkgs, ... }: {\n"@
            + service_lines(plan.services) + "}\n"@,
{
    if plan.packages.len() > 0 {
        assert(nix_module(plan) =~= "{ config, pkgs, ... }: {\n"@
            + "  environment.systemPackages = with pkgs; ["@ + package_items(plan.packages) + " ];\n"@
            + service_lines(plan.services) + "}\n"@);
    } else {
        assert(nix_module(plan) =~= "{ config, pkgs, ... }: {\n"@ + service_lines(plan.services)
            + "}\n"@);
    }
}

/// The known names and the module paths they stand for.
pub proof fn lemma_known_service_paths()
    ensures
        service_path_of("docker"@) == "virtualisation.docker"@,
        service_path_of("podman"@) == "virtualisation.podman"@,
        service_path_of("libvirt"@) == "virtualisation.libvirtd"@,
        service_path_of("nginx"@) == "services.nginx"@,
        service_path_of("redis"@) == "services.redis"@,
        service_path_of("ollama"@) == "services.ollama"@,
        service_path_of("docker-compose"@) == "virtualisation.docker-compose"@,
{
    reveal_strlit("docker");
    reveal_strlit("podman");
    reveal_strlit("libvirt");
    reveal_strlit("sshd");
    reveal_strlit("ssh");
    reveal_strlit("nginx");
    reveal_strlit("postgresql");
    reveal_strlit("postgres");
    reveal_strlit("mysql");
    reveal_strlit("mariadb");
    reveal_strlit("redis");
    reveal_strlit("ollama");
    reveal_strlit("docker-compose");
    assert("docker"@.len() == 6 && "podman"@.len() == 6 && "libvirt"@.len() == 7);
    assert("sshd"@.len() == 4 && "ssh"@.len() == 3 && "nginx"@.len() == 5);
    assert("postgresql"@.len() == 10 && "postgres"@.len() == 8);
    assert("mysql"@.len() == 5 && "mariadb"@.len() == 7 && "redis"@.len() == 5);
    assert("ollama"@.len() == 6 && "docker-compose"@.len() == 14);
    assert("docker"@[0] != "podman"@[0]);
    assert("docker"@[0] != "ollama"@[0] && "podman"@[0] != "ollama"@[0]);
    assert("nginx"@[0] != "mysql"@[0] && "redis"@[0] != "mysql"@[0] && "redis"@[0] != "nginx"@[0]);
    assert("libvirt"@[0] != "mariadb"@[0]);
}

/// One service renders as one line: its path, then whether it is enabled.
pub proof fn lemma_single_service(service: ServiceModel)
    ensures
        service_lines(seq![service]) == "  "@ + service_path_of(service.name) + if service.enabled {
            ".enable = true;\n"@
        } else {
            ".enable = false;\n"@
        },
{
    assert(seq![service].drop_last() =~= Seq::<ServiceModel>::empty());
    assert(service_lines(Seq::<ServiceModel>::empty()) == Seq::<char>::empty());
    assert(Seq::<char>::empty() + service_line(service) =~= service_line(service));
    assert(service_lines(seq![service]) =~= service_line(service));
}

} // verus!
