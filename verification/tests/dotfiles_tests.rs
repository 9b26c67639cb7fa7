use dip::config::{BundleConfig, VMConfig, VMRuntime};
use dip::dotfiles::{
    ApplyAction, CleanAction, Dotfiles, LinkState, LinkStep, Symlink, WalkedEntry,
};
use dip::paths::link_target;

fn dotfiles_with_root(bundle_root: &str) -> Dotfiles {
    Dotfiles::new(BundleConfig::new(
        None,
        String::from(bundle_root),
        String::from("/home/u/.local/share/dip"),
        VMConfig {
            runtime: VMRuntime { tailwindcss: vec![], nodejs: vec![] },
        },
    ))
}

#[test]
fn link_strips_the_package_segment() {
    // An entry at bundle_root/foo/.config/x is linked at $HOME/.config/x.
    assert_eq!(link_target("foo/.config/x", "/home/u"), "/home/u/.config/x");
}

#[test]
fn link_for_bare_package_is_home_itself() {
    assert_eq!(link_target("foo", "/home/u"), "/home/u");
}

#[test]
fn link_plan_derives_links_through_path_difference() {
    let d = dotfiles_with_root("/home/u/dotfiles");
    let entries = vec![
        WalkedEntry {
            path: String::from("/home/u/dotfiles/foo"),
            original: String::from("/home/u/dotfiles/foo"),
            is_dir: true,
        },
        WalkedEntry {
            path: String::from("/home/u/dotfiles/foo/.config"),
            original: String::from("/home/u/dotfiles/foo/.config"),
            is_dir: true,
        },
        WalkedEntry {
            path: String::from("/home/u/dotfiles/foo/.config/x"),
            original: String::from("/home/u/dotfiles/foo/.config/x"),
            is_dir: false,
        },
    ];
    let plan = d.link_plan(&entries, "/home/u");
    assert_eq!(plan.len(), 3);
    match &plan[0] {
        Some(LinkStep::CreateDir(p)) => assert_eq!(p, "/home/u"),
        other => panic!("expected a directory step, got {:?}", other.is_some()),
    }
    match &plan[1] {
        Some(LinkStep::CreateDir(p)) => assert_eq!(p, "/home/u/.config"),
        other => panic!("expected a directory step, got {:?}", other.is_some()),
    }
    match &plan[2] {
        Some(LinkStep::Link(s)) => {
            assert_eq!(s.original, "/home/u/dotfiles/foo/.config/x");
            assert_eq!(s.link, "/home/u/.config/x");
        }
        other => panic!("expected a link step, got {:?}", other.is_some()),
    }
}

#[test]
fn apply_skips_an_existing_symlink() {
    let s = Symlink {
        original: String::from("/home/u/dotfiles/foo/.zshrc"),
        link: String::from("/home/u/.zshrc"),
    };
    assert!(matches!(s.apply(LinkState::Symlinked), ApplyAction::SkipExistingLink));
}

#[test]
fn apply_never_touches_a_regular_file() {
    let s = Symlink {
        original: String::from("/home/u/dotfiles/foo/.zshrc"),
        link: String::from("/home/u/.zshrc"),
    };
    assert!(matches!(s.apply(LinkState::RegularFile), ApplyAction::SkipRegularFile));
    assert!(matches!(s.clean(LinkState::RegularFile), CleanAction::Keep));
}

#[test]
fn apply_creates_only_where_nothing_exists() {
    let s = Symlink {
        original: String::from("/home/u/dotfiles/foo/.zshrc"),
        link: String::from("/home/u/.zshrc"),
    };
    assert!(matches!(s.apply(LinkState::Absent), ApplyAction::CreateSymlink));
}

#[test]
fn second_apply_only_skips() {
    // After a successful apply the link is a symlink; the next apply skips
    // it without error.
    let s = Symlink {
        original: String::from("/home/u/dotfiles/foo/.zshrc"),
        link: String::from("/home/u/.zshrc"),
    };
    let after_first = match s.apply(LinkState::Absent) {
        ApplyAction::CreateSymlink => LinkState::Symlinked,
        _ => panic!("first apply must create the link"),
    };
    assert!(matches!(s.apply(after_first), ApplyAction::SkipExistingLink));
}

#[test]
fn clean_removes_what_apply_created() {
    let s = Symlink {
        original: String::from("/home/u/dotfiles/foo/.zshrc"),
        link: String::from("/home/u/.zshrc"),
    };
    // Round trip from an absent link: apply creates, clean removes.
    assert!(matches!(s.apply(LinkState::Absent), ApplyAction::CreateSymlink));
    assert!(matches!(s.clean(LinkState::Symlinked), CleanAction::RemoveLink));
    // A link that is not a symlink is kept.
    assert!(matches!(s.clean(LinkState::Absent), CleanAction::Keep));
}

#[test]
fn format_names_both_ends_of_the_link() {
    let s = Symlink {
        original: String::from("/home/u/dotfiles/foo/.zshrc"),
        link: String::from("/home/u/.zshrc"),
    };
    let line = s.format("Symlink created");
    assert!(line.contains("Symlink created"));
    assert!(line.contains("original : /home/u/dotfiles/foo/.zshrc"));
    assert!(line.contains("link     : /home/u/.zshrc"));
}

#[test]
fn dotfiles_identity() {
    let d = dotfiles_with_root("/home/u/dotfiles");
    assert_eq!(Dotfiles::key(), "dotfiles");
    assert_eq!(Dotfiles::name(), "dotfiles");
    assert_eq!(d.bundle_dir(), "/home/u/dotfiles");
    assert_eq!(d.bundle_config().bundle_root(), "/home/u/dotfiles");
}
