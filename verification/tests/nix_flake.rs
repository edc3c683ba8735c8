use keystone_tui::nix::flake::{extract_hosts, parse_flake};

#[test]
fn test_extract_hosts() {
    let content = r#"
{
  outputs = { nixpkgs, ... }: {
    nixosConfigurations = {
      myhost = nixpkgs.lib.nixosSystem { };
      another-host = nixpkgs.lib.nixosSystem { };
    };
  };
}
"#;
    let hosts = extract_hosts(content);
    assert_eq!(hosts.len(), 2);
    assert_eq!(hosts[0].name, "myhost");
    assert_eq!(hosts[1].name, "another-host");
}

#[test]
fn test_extract_system() {
    let content = r#"
{
  outputs = { nixpkgs, ... }: {
    nixosConfigurations = {
      myhost = nixpkgs.lib.nixosSystem {
        system = "x86_64-linux";
        modules = [];
      };
    };
  };
}
"#;
    let hosts = extract_hosts(content);
    assert_eq!(hosts.len(), 1);
    assert_eq!(hosts[0].name, "myhost");
    assert_eq!(hosts[0].system.as_deref(), Some("x86_64-linux"));
}

#[test]
fn test_extract_keystone_modules() {
    let content = r#"
{
  outputs = { nixpkgs, keystone, ... }: {
    nixosConfigurations = {
      myhost = nixpkgs.lib.nixosSystem {
        system = "x86_64-linux";
        modules = [
          keystone.nixosModules.operating-system
          keystone.nixosModules.desktop
          ./configuration.nix
          ./hardware.nix
        ];
      };
    };
  };
}
"#;
    let hosts = extract_hosts(content);
    assert_eq!(hosts.len(), 1);
    assert_eq!(
        hosts[0].keystone_modules,
        vec!["operating-system", "desktop"]
    );
    assert_eq!(
        hosts[0].config_files,
        vec!["./configuration.nix", "./hardware.nix"]
    );
}

#[test]
fn test_template_flake() {
    let content = r#"
{
  outputs = { self, nixpkgs, keystone, home-manager, ... }: {
    nixosConfigurations = {
      my-machine = nixpkgs.lib.nixosSystem {
        system = "x86_64-linux";
        modules = [
          home-manager.nixosModules.home-manager
          keystone.nixosModules.operating-system
          {
            home-manager = {
              useGlobalPkgs = true;
              useUserPackages = true;
              sharedModules = [
                keystone.homeModules.terminal
                keystone.homeModules.desktop
              ];
            };
          }
          ./configuration.nix
          ./hardware.nix
        ];
      };
    };
  };
}
"#;
    let hosts = extract_hosts(content);
    assert_eq!(hosts.len(), 1);
    assert_eq!(hosts[0].name, "my-machine");
    assert_eq!(hosts[0].system.as_deref(), Some("x86_64-linux"));
    assert_eq!(hosts[0].keystone_modules, vec!["operating-system"]);
    assert!(hosts[0].config_files.contains(&"./configuration.nix".to_string()));
    assert!(hosts[0].config_files.contains(&"./hardware.nix".to_string()));
}

#[test]
fn test_multiple_hosts_different_configs() {
    let content = r#"
{
  outputs = { nixpkgs, keystone, ... }: {
    nixosConfigurations = {
      server = nixpkgs.lib.nixosSystem {
        system = "x86_64-linux";
        modules = [
          keystone.nixosModules.operating-system
          ./server.nix
        ];
      };
      workstation = nixpkgs.lib.nixosSystem {
        system = "x86_64-linux";
        modules = [
          keystone.nixosModules.operating-system
          keystone.nixosModules.desktop
          keystone.nixosModules.agent
          ./workstation.nix
        ];
      };
    };
  };
}
"#;
    let hosts = extract_hosts(content);
    assert_eq!(hosts.len(), 2);

    assert_eq!(hosts[0].name, "server");
    assert_eq!(hosts[0].keystone_modules, vec!["operating-system"]);
    assert_eq!(hosts[0].config_files, vec!["./server.nix"]);

    assert_eq!(hosts[1].name, "workstation");
    assert_eq!(
        hosts[1].keystone_modules,
        vec!["operating-system", "desktop", "agent"]
    );
    assert_eq!(hosts[1].config_files, vec!["./workstation.nix"]);
}

#[test]
fn flake_without_configurations_has_no_hosts() {
    let hosts = extract_hosts("{ outputs = { nixpkgs, ... }: { packages = { }; }; }");
    assert!(hosts.is_empty());
    let parsed = parse_flake("{ }").unwrap();
    assert!(parsed.hosts.is_empty());
}

#[test]
fn host_without_settings_has_no_system_and_no_modules() {
    let hosts = extract_hosts("{ nixosConfigurations = { bare = nixpkgs.lib.nixosSystem { }; }; }");
    assert_eq!(hosts.len(), 1);
    assert_eq!(hosts[0].name, "bare");
    assert_eq!(hosts[0].system, None);
    assert!(hosts[0].keystone_modules.is_empty());
    assert!(hosts[0].config_files.is_empty());
}

#[test]
fn empty_system_string_counts_as_no_system() {
    let hosts = extract_hosts(
        r#"{ nixosConfigurations = { h = f { system = ""; modules = [ ./a.nix ./b.txt ]; }; }; }"#,
    );
    assert_eq!(hosts.len(), 1);
    assert_eq!(hosts[0].system, None);
    assert_eq!(hosts[0].config_files, vec!["./a.nix"]);
}

#[test]
fn module_name_is_trimmed_of_white_space() {
    let hosts = extract_hosts(
        r#"{ nixosConfigurations = { h = f { modules = [ "keystone.nixosModules. spaced" ]; }; }; }"#,
    );
    assert_eq!(hosts.len(), 1);
    assert_eq!(hosts[0].keystone_modules, vec!["spaced\""]);
}

#[test]
fn module_name_stops_at_the_next_prefix() {
    let hosts = extract_hosts(
        r#"{ nixosConfigurations = { h = f { modules = [ [ keystone.nixosModules.a keystone.nixosModules.b ] ]; }; }; }"#,
    );
    assert_eq!(hosts.len(), 1);
    assert_eq!(hosts[0].keystone_modules, vec!["a"]);
}

#[test]
fn only_the_first_attribute_set_configures_a_host() {
    let hosts = extract_hosts(
        r#"{ nixosConfigurations = { h = f { system = "a"; } { system = "b"; }; }; }"#,
    );
    assert_eq!(hosts.len(), 1);
    assert_eq!(hosts[0].system.as_deref(), Some("a"));
}

#[test]
fn parse_flake_reads_a_well_formed_source() {
    let flake = parse_flake(
        r#"{ nixosConfigurations = { one = f { system = "aarch64-linux"; }; }; }"#,
    )
    .unwrap();
    assert_eq!(flake.hosts.len(), 1);
    assert_eq!(flake.hosts[0].name, "one");
    assert_eq!(flake.hosts[0].system.as_deref(), Some("aarch64-linux"));
}

#[test]
fn parse_flake_refuses_a_source_that_does_not_parse() {
    let error = parse_flake("{ nixosConfigurations = ").unwrap_err();
    assert!(error.starts_with("Failed to parse flake.nix: "), "{}", error);
    assert!(error.len() > "Failed to parse flake.nix: ".len());
}
