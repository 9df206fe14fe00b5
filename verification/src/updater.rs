//! The decision side of the auto-updater: version comparison, release
//! evaluation and asset selection. Fetching the release feed and replacing
//! the executable are I/O and live outside the library; they hand the tag
//! name, the release notes and the asset names in as plain values.

use vstd::prelude::*;
use vstd::string::StrSliceExecFns;
use crate::text::{contains_chars, contains_sub, line_chars, lower_of, to_lowercase};
use crate::version::{is_newer, spec_is_newer_version};

verus! {

/// The repository whose releases are checked for updates.
pub const GITHUB_REPO: &'static str = "DomanskiFilip/quick_notepad";

/// What a release check found, ready for display.
#[derive(Debug)]
pub struct UpdateInfo {
    pub current_version: String,
    pub latest_version: String,
    pub update_available: bool,
    pub release_notes: String,
}

/// The updater: remembers which repository to ask for releases.
pub struct Updater {
    pub repo: String,
}

/// A release tag with every leading `v` removed, as the standard
/// prefix-trimmer removes them: `v1.2.0` and `1.2.0` name the same version.
pub open spec fn trim_leading_v(s: Seq<char>) -> Seq<char>
    decreases s.len(),
{
    if s.len() > 0 && s[0] == 'v' {
        trim_leading_v(s.drop_first())
    } else {
        s
    }
}

/// Remove the leading `v`s of a release tag.
fn trim_tag(tag: &str) -> (r: String)
    ensures
        r@ == trim_leading_v(tag@),
{
    let n = tag.unicode_len();
    let mut k: usize = 0;
    proof {
        assert(tag@.skip(0) =~= tag@);
    }
    while k < n && tag.get_char(k) == 'v'
        invariant
            k <= n,
            n == tag@.len(),
            trim_leading_v(tag@) == trim_leading_v(tag@.skip(k as int)),
        decreases n - k,
    {
        proof {
            assert(tag@.skip(k as int)[0] == tag@[k as int]);
            assert(tag@.skip(k as int).drop_first() =~= tag@.skip(k + 1));
        }
        k = k + 1;
    }
    proof {
        if k < n {
            assert(tag@.skip(k as int)[0] == tag@[k as int]);
        } else {
            assert(tag@.skip(k as int) =~= Seq::<char>::empty());
        }
    }
    let rest = tag.substring_char(k, n);
    rest.to_owned()
}

impl Updater {
    /// An updater pointed at the project's release repository.
    pub fn new() -> (u: Updater)
        ensures
            u.repo@ == GITHUB_REPO@,
    {
        Updater { repo: GITHUB_REPO.to_owned() }
    }

    /// Compare two version strings under simple semantic versioning:
    /// `true` exactly when `latest` is strictly newer than `current`.
    pub fn is_newer_version(current: &str, latest: &str) -> (r: bool)
        ensures
            r == spec_is_newer_version(current@, latest@),
    {
        is_newer(current, latest)
    }

    /// Judge a fetched release: trim the tag to the version it names,
    /// decide whether it is newer than the running version, and carry the
    /// release notes along (absent notes read as empty).
    pub fn evaluate_release(current_version: &str, tag_name: &str, release_notes: Option<String>)
        -> (info: UpdateInfo)
        ensures
            info.current_version@ == current_version@,
            info.latest_version@ == trim_leading_v(tag_name@),
            info.update_available == spec_is_newer_version(
                current_version@,
                trim_leading_v(tag_name@),
            ),
            info.release_notes@ == match release_notes {
                Some(notes) => notes@,
                None => Seq::<char>::empty(),
            },
    {
        let latest_version = trim_tag(tag_name);
        let update_available = Self::is_newer_version(current_version, latest_version.as_str());
        UpdateInfo {
            current_version: current_version.to_owned(),
            latest_version,
            update_available,
            release_notes: match release_notes {
                Some(notes) => notes,
                None => String::new(),
            },
        }
    }

    /// Pick the release asset for this platform: the first asset whose name
    /// contains the target triple; failing that, the first whose
    /// case-folded name contains the platform name; `None` when neither
    /// exists.
    pub fn find_matching_asset(&self, assets: &Vec<String>, target: &str, platform: &str)
        -> (r: Option<usize>)
        ensures
            match r {
                Some(i) => {
                    &&& i < assets@.len()
                    &&& if contains_sub(assets@[i as int]@, target@) {
                        forall|j: int| 0 <= j < i ==> !contains_sub(#[trigger] assets@[j]@, target@)
                    } else {
                        &&& contains_sub(lower_of(assets@[i as int]@), platform@)
                        &&& forall|j: int| 0 <= j < assets@.len() ==> !contains_sub(
                            #[trigger] assets@[j]@,
                            target@,
                        )
                        &&& forall|j: int| 0 <= j < i ==> !contains_sub(
                            lower_of(#[trigger] assets@[j]@),
                            platform@,
                        )
                    }
                },
                None => forall|j: int| 0 <= j < assets@.len() ==> !contains_sub(
                    #[trigger] assets@[j]@,
                    target@,
                ) && !contains_sub(lower_of(assets@[j]@), platform@),
            },
    {
        let target_chars = line_chars(target);
        let n = assets.len();
        for i in 0..n
            invariant
                n == assets@.len(),
                target_chars@ == target@,
                forall|j: int| 0 <= j < i ==> !contains_sub(#[trigger] assets@[j]@, target@),
        {
            let name_chars = line_chars(assets[i].as_str());
            if contains_chars(&name_chars, &target_chars) {
                return Some(i);
            }
        }
        let platform_chars = line_chars(platform);
        for i in 0..n
            invariant
                n == assets@.len(),
                platform_chars@ == platform@,
                forall|j: int| 0 <= j < n ==> !contains_sub(#[trigger] assets@[j]@, target@),
                forall|j: int| 0 <= j < i ==> !contains_sub(
                    lower_of(#[trigger] assets@[j]@),
                    platform@,
                ),
        {
            let folded = to_lowercase(assets[i].as_str());
            let folded_chars = line_chars(folded.as_str());
            if contains_chars(&folded_chars, &platform_chars) {
                return Some(i);
            }
        }
        None
    }
}

} // verus!
