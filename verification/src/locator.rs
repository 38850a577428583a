//! The dotfile locator: which of the paths found on disk become entries.
//!
//! The locator does not walk the filesystem. It says where to walk
//! ([`scan_plan`]) and chooses among what the walks report ([`locate`]).

use vstd::prelude::*;
use vstd::string::StrSliceExecFns;
use vstd::string::StringExecFns;
use crate::entry::{paths_of, Entry};

verus! {

/// What is appended to the home directory to name the configuration
/// directory.
pub const CONFIG_SUFFIX: &'static str = "/.config";

/// Why no scan could be planned.
#[derive(Clone, Copy, Debug, PartialEq, Eq)]
pub enum LocateError {
    /// The home directory of the user is not known.
    HomeNotFound,
}

/// One traversal of a directory tree. The root itself is at depth 0.
#[derive(Debug, PartialEq, Eq)]
pub struct Walk {
    /// The directory to start from.
    pub root: String,
    /// The least depth at which paths are reported.
    pub min_depth: usize,
    /// The greatest depth at which paths are reported, if there is one.
    pub max_depth: Option<usize>,
}

/// The two traversals of a scan.
#[derive(Debug, PartialEq, Eq)]
pub struct ScanPlan {
    /// The children of the home directory.
    pub home: Walk,
    /// Everything below the configuration directory.
    pub config: Walk,
}

/// The model of a [`Walk`].
pub struct WalkView {
    pub root: Seq<char>,
    pub min_depth: nat,
    pub max_depth: Option<nat>,
}

/// The model of a [`ScanPlan`].
pub struct ScanPlanView {
    pub home: WalkView,
    pub config: WalkView,
}

impl View for Walk {
    type V = WalkView;

    open spec fn view(&self) -> WalkView {
        WalkView {
            root: self.root@,
            min_depth: self.min_depth as nat,
            max_depth: match self.max_depth {
                Some(depth) => Some(depth as nat),
                None => None,
            },
        }
    }
}

impl View for ScanPlan {
    type V = ScanPlanView;

    open spec fn view(&self) -> ScanPlanView {
        ScanPlanView { home: self.home@, config: self.config@ }
    }
}

impl ScanPlanView {
    /// The scan for a home directory: its immediate children, and all that
    /// lies below its configuration directory at any depth. Neither walk
    /// reports its own root.
    pub open spec fn for_home(home: Seq<char>) -> ScanPlanView {
        ScanPlanView {
            home: WalkView { root: home, min_depth: 1, max_depth: Some(1nat) },
            config: WalkView { root: home + CONFIG_SUFFIX@, min_depth: 1, max_depth: None },
        }
    }
}

/// Plans the scan for the given home directory. Without a home directory
/// there is nothing to scan, and that is the only way to fail.
pub fn scan_plan(home: Option<String>) -> (plan: Result<ScanPlan, LocateError>)
    ensures
        match home {
            Some(root) => plan matches Ok(p) && p@ == ScanPlanView::for_home(root@),
            None => plan == Err::<ScanPlan, LocateError>(LocateError::HomeNotFound),
        },
{
    match home {
        Some(root) => {
            let config_root = root.clone().concat(CONFIG_SUFFIX);
            Ok(
                ScanPlan {
                    home: Walk { root, min_depth: 1, max_depth: Some(1) },
                    config: Walk { root: config_root, min_depth: 1, max_depth: None },
                },
            )
        },
        None => Err(LocateError::HomeNotFound),
    }
}

/// A path that a walk came across.
#[derive(Debug, PartialEq, Eq)]
pub struct Found {
    /// The text of the path.
    pub path: String,
    /// The last component of the path, or `None` if it is not text.
    pub name: Option<String>,
    /// How far below the root of the walk the path lies.
    pub depth: usize,
}

/// One item of a walk.
#[derive(Debug, PartialEq, Eq)]
pub enum Visit {
    /// A path that was read.
    Found(Found),
    /// Something that could not be read. It is passed over.
    Unreadable,
}

/// Whether a name begins with a dot.
pub open spec fn is_dot_name(name: Seq<char>) -> bool {
    name.len() > 0 && name[0] == '.'
}

/// The path that a visit of the home walk contributes: that of an
/// immediate child whose name begins with a dot.
pub open spec fn dot_child(visit: Visit) -> Option<Seq<char>> {
    match visit {
        Visit::Found(found) => match found.name {
            Some(name) => if found.depth == 1 && is_dot_name(name@) {
                Some(found.path@)
            } else {
                None
            },
            None => None,
        },
        Visit::Unreadable => None,
    }
}

/// The path that a visit of the configuration walk contributes: that of
/// anything below the root, whatever its name.
pub open spec fn descendant(visit: Visit) -> Option<Seq<char>> {
    match visit {
        Visit::Found(found) => if found.depth >= 1 {
            Some(found.path@)
        } else {
            None
        },
        Visit::Unreadable => None,
    }
}

/// The dot entries among the visits of a home walk, in walk order.
pub open spec fn dot_children(walk: Seq<Visit>) -> Seq<Seq<char>> {
    walk.filter_map(|visit: Visit| dot_child(visit))
}

/// The entries among the visits of a configuration walk, in walk order.
pub open spec fn descendants(walk: Seq<Visit>) -> Seq<Seq<char>> {
    walk.filter_map(|visit: Visit| descendant(visit))
}

/// The located entries: the dot entries of the home directory first, then
/// the contents of the configuration directory, each in walk order.
pub open spec fn located(home_walk: Seq<Visit>, config_walk: Seq<Visit>) -> Seq<Seq<char>> {
    dot_children(home_walk) + descendants(config_walk)
}

/// Whether a name begins with a dot.
pub fn starts_with_dot(name: &str) -> (dot: bool)
    ensures
        dot == is_dot_name(name@),
{
    if name.is_empty() {
        false
    } else {
        name.get_char(0) == '.'
    }
}

/// Picks the dot entries out of a walk of the home directory.
pub fn dot_entries(walk: &Vec<Visit>) -> (entries: Vec<Entry>)
    ensures
        paths_of(entries@) == dot_children(walk@),
{
    let mut entries: Vec<Entry> = Vec::new();
    let mut i: usize = 0;
    while i < walk.len()
        invariant
            i <= walk@.len(),
            paths_of(entries@) == dot_children(walk@.take(i as int)),
        decreases walk@.len() - i,
    {
        proof {
            walk@.lemma_filter_map_take_succ(|visit: Visit| dot_child(visit), i as int);
        }
        let ghost before = entries@;
        match &walk[i] {
            Visit::Found(found) => match &found.name {
                Some(name) => if found.depth == 1 && starts_with_dot(name.as_str()) {
                    entries.push(Entry::new(found.path.clone()));
                    assert(paths_of(entries@) =~= paths_of(before).push(found.path@));
                },
                None => {},
            },
            Visit::Unreadable => {},
        }
        i += 1;
    }
    assert(walk@.take(i as int) =~= walk@);
    entries
}

/// Picks the entries out of a walk of the configuration directory.
pub fn config_entries(walk: &Vec<Visit>) -> (entries: Vec<Entry>)
    ensures
        paths_of(entries@) == descendants(walk@),
{
    let mut entries: Vec<Entry> = Vec::new();
    let mut i: usize = 0;
    while i < walk.len()
        invariant
            i <= walk@.len(),
            paths_of(entries@) == descendants(walk@.take(i as int)),
        decreases walk@.len() - i,
    {
        proof {
            walk@.lemma_filter_map_take_succ(|visit: Visit| descendant(visit), i as int);
        }
        let ghost before = entries@;
        match &walk[i] {
            Visit::Found(found) => if found.depth >= 1 {
                entries.push(Entry::new(found.path.clone()));
                assert(paths_of(entries@) =~= paths_of(before).push(found.path@));
            },
            Visit::Unreadable => {},
        }
        i += 1;
    }
    assert(walk@.take(i as int) =~= walk@);
    entries
}

/// Assembles the entries of a scan from its two walks.
pub fn locate(home_walk: &Vec<Visit>, config_walk: &Vec<Visit>) -> (entries: Vec<Entry>)
    ensures
        paths_of(entries@) == located(home_walk@, config_walk@),
{
    let mut entries = dot_entries(home_walk);
    let mut config = config_entries(config_walk);
    let ghost first = entries@;
    let ghost second = config@;
    entries.append(&mut config);
    assert(paths_of(entries@) =~= paths_of(first) + paths_of(second));
    entries
}

} // verus!
