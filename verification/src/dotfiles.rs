//! Dotfiles engine: reconciles the package tree under the bundle root into
//! symlinks under the home directory, and removes them on clean. The walk
//! itself and every file-system touch happen at the edge; this module
//! derives each entry's link location and decides, from the probed state of
//! a link, what apply and clean may do to it.
use vstd::prelude::*;

use crate::config::BundleConfig;
use crate::paths::{diff_of, link_of, link_target, path_diff};
use crate::schedule::BundlerId;

verus! {

/// Registration unit for the dotfiles engine in the staged pipeline.
pub struct DotfilesPlugin;

impl DotfilesPlugin {
    pub fn bundler_id() -> (r: BundlerId)
        ensures
            r == BundlerId::Dotfiles,
    {
        BundlerId::Dotfiles
    }
}

/// A planned symlink: `original` points into a dotfile package, `link` is
/// the place under the home directory where the symlink should exist.
#[derive(Debug)]
pub struct Symlink {
    pub original: String,
    pub link: String,
}

/// What a probe of the `link` path found.
#[derive(Clone, Copy, PartialEq, Eq, Structural, Debug)]
pub enum LinkState {
    /// The path is currently a symlink.
    Symlinked,
    /// The path is a regular file the user owns.
    RegularFile,
    /// Nothing exists at the path.
    Absent,
}

/// What apply does to one link, given its probed state.
#[derive(Clone, Copy, PartialEq, Eq, Structural, Debug)]
pub enum ApplyAction {
    /// The link is already a symlink: leave it, report no error.
    SkipExistingLink,
    /// A real file is in the way: never overwrite it, report no error.
    SkipRegularFile,
    /// Nothing is there: create the symlink.
    CreateSymlink,
}

/// What clean does to one link, given its probed state.
#[derive(Clone, Copy, PartialEq, Eq, Structural, Debug)]
pub enum CleanAction {
    /// The path is a symlink: remove it.
    RemoveLink,
    /// Anything else is left untouched.
    Keep,
}

/// The action apply takes on a link in state `s`.
pub open spec fn spec_plan_apply(s: LinkState) -> ApplyAction {
    match s {
        LinkState::Symlinked => ApplyAction::SkipExistingLink,
        LinkState::RegularFile => ApplyAction::SkipRegularFile,
        LinkState::Absent => ApplyAction::CreateSymlink,
    }
}

/// The action clean takes on a link in state `s`.
pub open spec fn spec_plan_clean(s: LinkState) -> CleanAction {
    match s {
        LinkState::Symlinked => CleanAction::RemoveLink,
        _ => CleanAction::Keep,
    }
}

/// The state of a link after apply's action on it succeeds.
pub open spec fn apply_next(s: LinkState) -> LinkState {
    match s {
        LinkState::Absent => LinkState::Symlinked,
        _ => s,
    }
}

/// The state of a link after clean's action on it succeeds.
pub open spec fn clean_next(s: LinkState) -> LinkState {
    match s {
        LinkState::Symlinked => LinkState::Absent,
        _ => s,
    }
}

impl Symlink {
    /// Decide what apply does to this link: skip an existing symlink, skip
    /// (and never overwrite) a regular file, create the link otherwise.
    pub fn apply(&self, state: LinkState) -> (a: ApplyAction)
        ensures
            a == spec_plan_apply(state),
    {
        match state {
            LinkState::Symlinked => ApplyAction::SkipExistingLink,
            LinkState::RegularFile => ApplyAction::SkipRegularFile,
            LinkState::Absent => ApplyAction::CreateSymlink,
        }
    }

    /// Decide what clean does to this link: remove it only if it is
    /// currently a symlink.
    pub fn clean(&self, state: LinkState) -> (a: CleanAction)
        ensures
            a == spec_plan_clean(state),
    {
        match state {
            LinkState::Symlinked => CleanAction::RemoveLink,
            _ => CleanAction::Keep,
        }
    }

    /// The report line printed for this link.
    pub open spec fn spec_format(self, message: Seq<char>) -> Seq<char> {
        "----------------------------------------------------------\n"@ + message
            + "\noriginal : "@ + self.original@ + "\nlink     : "@ + self.link@
    }

    pub fn format(&self, message: &str) -> (r: String)
        ensures
            r@ == self.spec_format(message@),
    {
        let mut s = String::from_str("----------------------------------------------------------\n");
        s.append(message);
        s.append("\noriginal : ");
        s.append(self.original.as_str());
        s.append("\nlink     : ");
        s.append(self.link.as_str());
        proof {
            assert(s@ =~= self.spec_format(message@));
        }
        s
    }
}

/// One entry met while walking a package tree: its path as walked, its
/// canonicalized path, and whether it is a directory.
pub struct WalkedEntry {
    /// The entry's path as the walk reported it.
    pub path: String,
    /// The canonicalized absolute path the symlink will point at.
    pub original: String,
    /// Whether the entry is a directory.
    pub is_dir: bool,
}

/// One planned step of an apply run: directories met during the walk are
/// created at their link location (never symlinked), leaf files become
/// symlinks.
#[derive(Debug)]
pub enum LinkStep {
    /// Create this directory under the home tree.
    CreateDir(String),
    /// Create this symlink.
    Link(Symlink),
}

/// The step planned for `entry` is right when it creates the entry's link
/// location under `home`, with the leading package segment of the entry's
/// path relative to `base` dropped; an entry outside `base` is passed over.
pub open spec fn step_for_ok(
    step: Option<LinkStep>,
    entry: WalkedEntry,
    base: Seq<char>,
    home: Seq<char>,
) -> bool {
    match diff_of(entry.path@, base) {
        Some(d) => if entry.is_dir {
            step matches Some(LinkStep::CreateDir(p)) && p@ == link_of(d, home)
        } else {
            step matches Some(LinkStep::Link(s)) && s.original@ == entry.original@ && s.link@
                == link_of(d, home)
        },
        None => step is None,
    }
}

/// The dotfiles bundler: identity plus read access to the shared
/// configuration.
pub struct Dotfiles {
    bundle_config: BundleConfig,
}

impl Dotfiles {
    pub closed spec fn spec_config(&self) -> BundleConfig {
        self.bundle_config
    }

    pub fn new(bundle_config: BundleConfig) -> (d: Dotfiles)
        ensures
            d.spec_config() == bundle_config,
    {
        Dotfiles { bundle_config }
    }

    /// Stable machine-facing identifier.
    pub fn key() -> (r: &'static str)
        ensures
            r@ == "dotfiles"@,
    {
        "dotfiles"
    }

    /// Human-facing display name.
    pub fn name() -> (r: &'static str)
        ensures
            r@ == "dotfiles"@,
    {
        "dotfiles"
    }

    pub fn bundle_config(&self) -> (r: &BundleConfig)
        ensures
            *r == self.spec_config(),
    {
        &self.bundle_config
    }

    /// The directory whose package subtrees are mirrored into the home
    /// directory.
    pub fn bundle_dir(&self) -> (r: String)
        ensures
            r@ == self.spec_config().spec_bundle_root(),
    {
        self.bundle_config.bundle_root()
    }

    /// Plan one step per walked entry: directories are pre-created at their
    /// link location so nested files can be linked individually; leaf files
    /// become symlinks to their canonicalized original.
    pub fn link_plan(&self, entries: &Vec<WalkedEntry>, home: &str) -> (r: Vec<Option<LinkStep>>)
        ensures
            r@.len() == entries@.len(),
            forall|i: int|
                0 <= i < entries@.len() ==> step_for_ok(
                    r@[i],
                    entries@[i],
                    self.spec_config().spec_bundle_root(),
                    home@,
                ),
    {
        let bundle_dir = self.bundle_config.bundle_root();
        let mut out: Vec<Option<LinkStep>> = Vec::new();
        let mut idx: usize = 0;
        while idx < entries.len()
            invariant
                idx <= entries@.len(),
                out@.len() == idx,
                bundle_dir@ == self.spec_config().spec_bundle_root(),
                forall|i: int|
                    0 <= i < idx ==> step_for_ok(
                        out@[i],
                        entries@[i],
                        self.spec_config().spec_bundle_root(),
                        home@,
                    ),
            decreases entries@.len() - idx,
        {
            let e = &entries[idx];
            let step: Option<LinkStep> = match path_diff(e.path.as_str(), bundle_dir.as_str()) {
                None => None,
                Some(d) => {
                    let link = link_target(d.as_str(), home);
                    if e.is_dir {
                        Some(LinkStep::CreateDir(link))
                    } else {
                        Some(LinkStep::Link(Symlink { original: e.original.clone(), link }))
                    }
                },
            };
            out.push(step);
            idx = idx + 1;
        }
        out
    }
}

/// Applying twice produces the same links as applying once: the second run
/// changes no state, and plans no creation (so it can report no error).
pub proof fn lemma_apply_idempotent(states: Seq<LinkState>)
    ensures
        states.map_values(|s: LinkState| apply_next(s)).map_values(|s: LinkState| apply_next(s))
            =~= states.map_values(|s: LinkState| apply_next(s)),
        forall|s: LinkState| spec_plan_apply(apply_next(s)) != ApplyAction::CreateSymlink,
{
    let once = states.map_values(|s: LinkState| apply_next(s));
    let twice = once.map_values(|s: LinkState| apply_next(s));
    assert forall|i: int| 0 <= i < states.len() implies twice[i] == once[i] by {
        assert(once[i] == apply_next(states[i]));
    }
}

/// A regular file in the way is never overwritten, never removed, and its
/// presence is not an error: both stages plan a silent skip for it.
pub proof fn lemma_non_destructive()
    ensures
        apply_next(LinkState::RegularFile) == LinkState::RegularFile,
        clean_next(LinkState::RegularFile) == LinkState::RegularFile,
        spec_plan_apply(LinkState::RegularFile) == ApplyAction::SkipRegularFile,
        spec_plan_clean(LinkState::RegularFile) == CleanAction::Keep,
{
}

/// Round trip: clean removes every link apply created, and the two stages
/// together leave a link that was absent before absent again, and a regular
/// file untouched.
pub proof fn lemma_round_trip(states: Seq<LinkState>)
    ensures
        forall|i: int|
            0 <= i < states.len() && states[i] is Absent ==> clean_next(
                apply_next(states[i]),
            ) is Absent,
        forall|i: int|
            0 <= i < states.len() && states[i] is RegularFile ==> clean_next(apply_next(states[i]))
                == states[i],
{
}

} // verus!
