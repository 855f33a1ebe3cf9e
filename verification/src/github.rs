//! Releases as the hosting service lists them, and the choice of an asset among them.

use crate::text::{starts_with, str_eq, str_starts_with};
use vstd::prelude::*;

verus! {

/// A file that belongs to a release.
#[derive(Debug)]
pub struct Asset {
    pub name: String,
    pub browser_download_url: String,
}

/// A published release.
#[derive(Debug)]
pub struct Release {
    pub tag_name: String,
    pub assets: Vec<Asset>,
}

/// The address that describes the latest release of `repo` of `owner`.
pub open spec fn latest_release_url_text(owner: Seq<char>, repo: Seq<char>) -> Seq<char> {
    "https://api.github.com/repos/"@ + owner + "/"@ + repo + "/releases/latest"@
}

/// The address that describes the latest release of `repo` of `owner`.
pub fn latest_release_url(owner: &str, repo: &str) -> (r: String)
    ensures
        r@ == latest_release_url_text(owner@, repo@),
{
    let mut url: String = "https://api.github.com/repos/".to_owned();
    url.append(owner);
    url.append("/");
    url.append(repo);
    url.append("/releases/latest");
    url
}

/// How an asset is chosen by its name.
#[derive(Debug, Clone, Copy, PartialEq, Eq, Structural)]
pub enum Match {
    /// The name is the given text.
    Exact,
    /// The name begins with the given text.
    Prefix,
}

/// Whether an asset of this name is chosen by `text`.
pub open spec fn matches_name(how: Match, name: Seq<char>, text: Seq<char>) -> bool {
    match how {
        Match::Exact => name == text,
        Match::Prefix => starts_with(name, text),
    }
}

impl Release {
    /// The index of the first asset whose name is chosen by `text`.
    pub fn find_asset(&self, how: Match, text: &str) -> (r: Option<usize>)
        ensures
            match r {
                Some(i) => i < self.assets@.len() && matches_name(
                    how,
                    self.assets@[i as int].name@,
                    text@,
                ) && forall|j: int|
                    0 <= j < i ==> !matches_name(how, (#[trigger] self.assets@[j]).name@, text@),
                None => forall|j: int|
                    0 <= j < self.assets@.len() ==> !matches_name(
                        how,
                        (#[trigger] self.assets@[j]).name@,
                        text@,
                    ),
            },
    {
        let mut i: usize = 0;
        while i < self.assets.len()
            invariant
                i <= self.assets@.len(),
                forall|j: int|
                    0 <= j < i ==> !matches_name(how, (#[trigger] self.assets@[j]).name@, text@),
            decreases self.assets@.len() - i,
        {
            let name: &str = self.assets[i].name.as_str();
            let hit: bool = match how {
                Match::Exact => str_eq(name, text),
                Match::Prefix => str_starts_with(name, text),
            };
            if hit {
                return Some(i);
            }
            i = i + 1;
        }
        None
    }
}

} // verus!
