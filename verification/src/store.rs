use vstd::prelude::*;
use crate::errors::{PathRole, SyncError};
use crate::probe::RepoClassification;
use crate::text::{normalize_source_dir, str_eq, with_trailing_slash};

verus! {

/// A stored pair: two version-controlled working trees kept in step, and the
/// base branch both are aligned to before diverging onto a target branch.
/// The registry keeps `name` unique across all stored pairs.
#[derive(Debug)]
pub struct AddConfig {
    /// Unique pair name.
    pub name: String,
    /// Absolute path of the first working tree.
    pub source: String,
    /// Absolute path of the second working tree.
    pub destination: String,
    /// Base branch name.
    pub branch: String,
}

impl Clone for AddConfig {
    fn clone(&self) -> (r: Self)
        ensures
            r == *self,
    {
        AddConfig {
            name: self.name.clone(),
            source: self.source.clone(),
            destination: self.destination.clone(),
            branch: self.branch.clone(),
        }
    }
}

/// A request to delete a stored pair by name.
#[derive(Debug)]
pub struct RemoveConfig {
    /// Name of the pair to delete.
    pub name: String,
}

/// Which of a pair's two paths plays the copy-from role for one run.
#[derive(Clone, Copy, Debug, PartialEq, Eq, Structural)]
pub enum SyncDirection {
    /// The pair's stored source is copied onto its stored destination.
    A2B,
    /// The roles are swapped: the stored destination is copied onto the
    /// stored source.
    B2A,
}

/// One sync request: which pair, which branch to synchronize, the commit
/// message for the published result, and the direction of the copy.
#[derive(Debug)]
pub struct SyncConfig {
    /// Name of the stored pair to sync.
    pub name: String,
    /// Target branch being synchronized for this run.
    pub branch: String,
    /// Commit message for the published changes.
    pub message: String,
    /// Which path plays the copy-from role.
    pub direction: SyncDirection,
}

/// Some stored pair is named `name`.
pub open spec fn has_name(configs: Seq<AddConfig>, name: Seq<char>) -> bool {
    exists|i: int| 0 <= i < configs.len() && configs[i].name@ == name
}

/// The stored pairs with every pair named `name` taken out, order kept.
pub open spec fn without_name(configs: Seq<AddConfig>, name: Seq<char>) -> Seq<AddConfig>
    decreases configs.len(),
{
    if configs.len() == 0 {
        Seq::empty()
    } else if configs.last().name@ == name {
        without_name(configs.drop_last(), name)
    } else {
        without_name(configs.drop_last(), name).push(configs.last())
    }
}

/// Where the registry file lives, from the two environment values that
/// decide it: under the configuration directory when one is set, else
/// under `.config` in the home directory, else nowhere. The caller reads
/// the environment and performs the file I/O.
pub fn get_path(xdg_config_home: Option<&str>, home: Option<&str>) -> (r: Option<String>)
    ensures
        (match xdg_config_home {
            Option::Some(x) => r matches Option::Some(p) && p@ == with_trailing_slash(x@)
                + "ghsync/config.json"@,
            Option::None => match home {
                Option::Some(h) => r matches Option::Some(p) && p@ == with_trailing_slash(h@)
                    + ".config/ghsync/config.json"@,
                Option::None => r is None,
            },
        }),
{
    match xdg_config_home {
        Some(x) => {
            let mut p = normalize_source_dir(x);
            p.append("ghsync/config.json");
            Some(p)
        },
        None => match home {
            Some(h) => {
                let mut p = normalize_source_dir(h);
                p.append(".config/ghsync/config.json");
                Some(p)
            },
            None => None,
        },
    }
}

/// Appends a copy of `item` to the stored pairs. Whether the name is still
/// free is the caller's check; see `validate_new_pair`.
pub fn add(configs: &mut Vec<AddConfig>, item: &AddConfig)
    ensures
        final(configs)@ == old(configs)@.push(*item),
{
    configs.push(item.clone());
}

/// Index of the first stored pair named `name`, if any.
pub fn find_pair(configs: &Vec<AddConfig>, name: &str) -> (r: Option<usize>)
    ensures
        (match r {
            Option::Some(i) => i < configs@.len() && configs@[i as int].name@ == name@
                && (forall|k: int| 0 <= k < i ==> configs@[k].name@ != name@),
            Option::None => !has_name(configs@, name@),
        }),
{
    let mut i: usize = 0;
    while i < configs.len()
        invariant
            i <= configs@.len(),
            forall|k: int| 0 <= k < i ==> configs@[k].name@ != name@,
        decreases configs@.len() - i,
    {
        if str_eq(configs[i].name.as_str(), name) {
            return Some(i);
        }
        i += 1;
    }
    None
}

/// Deletes every stored pair named `name`; fails with `NotFound`, leaving
/// the store unchanged, when no pair has that name.
pub fn remove(configs: &mut Vec<AddConfig>, name: &str) -> (r: Result<(), SyncError>)
    ensures
        (match r {
            Result::Ok(_) => has_name(old(configs)@, name@)
                && final(configs)@ == without_name(old(configs)@, name@),
            Result::Err(e) => !has_name(old(configs)@, name@)
                && final(configs)@ == old(configs)@
                && (e matches SyncError::NotFound { name: n } && n@ == name@),
        }),
{
    if find_pair(configs, name).is_none() {
        return Err(SyncError::NotFound { name: name.to_owned() });
    }
    let ghost orig = configs@;
    let mut kept: Vec<AddConfig> = Vec::new();
    let mut i: usize = 0;
    while i < configs.len()
        invariant
            i <= configs@.len(),
            configs@ == orig,
            kept@ == without_name(configs@.subrange(0, i as int), name@),
        decreases configs@.len() - i,
    {
        if !str_eq(configs[i].name.as_str(), name) {
            kept.push(configs[i].clone());
        }
        i += 1;
        proof {
            assert(configs@.subrange(0, i as int).drop_last() =~= configs@.subrange(
                0,
                i as int - 1,
            ));
            assert(configs@.subrange(0, i as int).last() == configs@[i as int - 1]);
        }
    }
    proof {
        assert(configs@.subrange(0, configs@.len() as int) =~= configs@);
    }
    *configs = kept;
    Ok(())
}

/// The verdict on registering a new pair: the name must still be free and
/// both paths must have probed as valid working trees. The checks run in
/// that order, the source path before the destination path, and the first
/// failing one decides the error.
pub fn validate_new_pair(
    configs: &Vec<AddConfig>,
    pair: &AddConfig,
    source_class: RepoClassification,
    dest_class: RepoClassification,
) -> (r: Result<(), SyncError>)
    ensures
        (match r {
            Result::Ok(_) => !has_name(configs@, pair.name@) && source_class
                is Valid && dest_class is Valid,
            Result::Err(e) => if has_name(configs@, pair.name@) {
                e matches SyncError::NameTaken { name: n } && n@ == pair.name@
            } else if !(source_class is Valid) {
                e == (SyncError::PathInvalid {
                    role: PathRole::Source,
                    classification: source_class,
                })
            } else {
                !(dest_class is Valid) && e == (SyncError::PathInvalid {
                    role: PathRole::Destination,
                    classification: dest_class,
                })
            },
        }),
{
    if find_pair(configs, pair.name.as_str()).is_some() {
        return Err(SyncError::NameTaken { name: pair.name.clone() });
    }
    if source_class != RepoClassification::Valid {
        return Err(SyncError::PathInvalid { role: PathRole::Source, classification: source_class });
    }
    if dest_class != RepoClassification::Valid {
        return Err(
            SyncError::PathInvalid { role: PathRole::Destination, classification: dest_class },
        );
    }
    Ok(())
}

} // verus!
