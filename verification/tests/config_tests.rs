use dip::config::{BundleConfig, Config, VMConfig, VMRuntime};
use dip::DipRes;

fn sample_config() -> BundleConfig {
    BundleConfig::new(
        Some(String::from("https://example.com/dotfiles.git")),
        String::from("/home/u/dotfiles"),
        String::from("/home/u/.local/share/dip"),
        VMConfig {
            runtime: VMRuntime {
                tailwindcss: vec![],
                nodejs: vec![String::from("18.0.0")],
            },
        },
    )
}

#[test]
fn config_dir_is_under_data_root() {
    assert_eq!(Config::config_dir("/home/u/.local/share"), "/home/u/.local/share/dip");
}

#[test]
fn config_file_path_is_bundle_toml() {
    assert_eq!(
        BundleConfig::config_file_path("/home/u/.local/share/dip"),
        "/home/u/.local/share/dip/bundle.toml"
    );
}

#[test]
fn bundle_root_round_trips() {
    let c = sample_config();
    assert_eq!(c.bundle_root(), "/home/u/dotfiles");
}

#[test]
fn install_root_is_derived_from_data_dir() {
    let c = sample_config();
    assert_eq!(c.install_root(), "/home/u/.local/share/dip/installs");
}

#[test]
fn shim_root_is_derived_from_data_dir() {
    let c = sample_config();
    assert_eq!(c.shim_root(), "/home/u/.local/share/dip/shims");
}

#[test]
fn set_bundle_root_replaces_only_the_bundle_root() {
    let mut c = sample_config();
    c.set_bundle_root(&String::from("/srv/bundle"));
    assert_eq!(c.bundle_root(), "/srv/bundle");
    assert_eq!(c.install_root(), "/home/u/.local/share/dip/installs");
    assert_eq!(c.runtime().nodejs, vec![String::from("18.0.0")]);
}

#[test]
fn runtime_exposes_configured_versions() {
    let c = sample_config();
    assert_eq!(c.runtime().nodejs.len(), 1);
    assert_eq!(c.runtime().tailwindcss.len(), 0);
    assert_eq!(c.repository.as_deref(), Some("https://example.com/dotfiles.git"));
}

#[test]
fn shared_resource_wrapper_hands_its_value_out() {
    let res = DipRes(sample_config());
    assert_eq!(res.0.bundle_root(), "/home/u/dotfiles");
}
