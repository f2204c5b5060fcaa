//! The release resolver: given the stored preference state and the version
//! tags read from the release feed, decide whether an update is warranted
//! and derive the download location for it.
//!
//! The design does not order versions: it only detects *difference* from the
//! last-seen tag.  Walking the feed entries in order, the candidate version
//! is replaced by every tag that differs from the stored one, so the last
//! differing tag wins; with the page-size-of-one feed query there is at most
//! one entry anyway.

use vstd::prelude::*;
use vstd::string::StringExecFns;

verus! {

/// The preference snapshot owned by the host application.  The resolver
/// reads only the last-known version tag; the check-due marker and the
/// minimum interval between checks are carried for the host.
pub struct Preferences {
    /// The last-known release tag; empty means "never installed".
    pub version_key: String,
    /// Marker governing whether an update check is due.
    pub update_check_key: String,
    /// Minimum number of seconds between two update checks.
    pub update_interval_key: i64,
}

/// Default minimum interval between update checks: one day, in seconds.
pub const DEFAULT_UPDATE_INTERVAL: i64 = 60 * 60 * 24;

impl Preferences {
    /// The state of a fresh installation: no version seen yet, no check
    /// marker, a one-day check interval.
    pub fn initial() -> (prefs: Preferences)
        ensures
            prefs.version_key@ == Seq::<char>::empty(),
            prefs.update_check_key@ == Seq::<char>::empty(),
            prefs.update_interval_key == DEFAULT_UPDATE_INTERVAL,
    {
        Preferences {
            version_key: String::new(),
            update_check_key: String::new(),
            update_interval_key: DEFAULT_UPDATE_INTERVAL,
        }
    }
}

/// The archive location for a release: the fixed download URL template with
/// the release's tag substituted.
pub open spec fn download_url_spec(version: Seq<char>) -> Seq<char> {
    "https://github.com/OpenVGDB/OpenVGDB/releases/download/"@ + version + "/openvgdb.zip"@
}

/// The candidate version after walking `tags` in order, starting from
/// `current`: every tag that differs from `current` replaces the candidate,
/// so the result is the last differing tag, or `current` when no tag
/// differs.
pub open spec fn next_version_spec(current: Seq<char>, tags: Seq<Seq<char>>) -> Seq<char>
    decreases tags.len(),
{
    if tags.len() == 0 {
        current
    } else if tags.last() != current {
        tags.last()
    } else {
        next_version_spec(current, tags.drop_last())
    }
}

/// The resolver decision on already-parsed feed tags: an update is
/// warranted exactly when the candidate version differs from the stored
/// one, and then the download URL is the template with the new tag
/// substituted.
pub open spec fn decide_update_spec(current: Seq<char>, tags: Seq<Seq<char>>) -> Option<(
    Seq<char>,
    Seq<char>,
)> {
    let next = next_version_spec(current, tags);
    if next != current {
        Some((download_url_spec(next), next))
    } else {
        None
    }
}

/// Builds the archive download URL for a release tag.
pub fn download_url(version: &String) -> (url: String)
    ensures
        url@ == download_url_spec(version@),
{
    let mut url = String::from_str("https://github.com/OpenVGDB/OpenVGDB/releases/download/");
    url.append(version.as_str());
    url.append("/openvgdb.zip");
    proof {
        assert(url@ =~= download_url_spec(version@));
    }
    url
}

/// Decides whether the feed tags warrant an update over the stored version,
/// returning the download URL and the new tag when they do.
pub fn decide_update(current: &String, tags: &Vec<String>) -> (update: Option<(String, String)>)
    ensures
        match update {
            Some(p) => decide_update_spec(current@, tags.deep_view()) == Some((p.0@, p.1@)),
            None => decide_update_spec(current@, tags.deep_view()) is None,
        },
{
    let ghost all_tags: Seq<Seq<char>> = tags.deep_view();
    let mut next: String = current.clone();
    let mut idx: usize = 0;
    while idx < tags.len()
        invariant
            idx <= tags.len(),
            all_tags == tags.deep_view(),
            all_tags.len() == tags@.len(),
            next@ == next_version_spec(current@, all_tags.take(idx as int)),
        decreases tags.len() - idx,
    {
        proof {
            assert(all_tags[idx as int] == tags@[idx as int]@);
            assert(all_tags.take(idx as int + 1).drop_last() =~= all_tags.take(idx as int));
            assert(all_tags.take(idx as int + 1).last() == all_tags[idx as int]);
        }
        if tags[idx] != *current {
            next = tags[idx].clone();
        }
        idx = idx + 1;
    }
    proof {
        assert(all_tags.take(all_tags.len() as int) =~= all_tags);
    }
    if next != *current {
        let url = download_url(&next);
        Some((url, next))
    } else {
        None
    }
}

/// The resolver decision on the raw outcome of the feed request: `None`
/// stands for a request that failed outright, and a body that does not
/// parse as a release feed counts the same.  Both collapse to "no update"
/// — the fail-soft policy: an update check never surfaces an error.
pub open spec fn resolve_update_spec(current: Seq<char>, body: Option<Seq<char>>) -> Option<(
    Seq<char>,
    Seq<char>,
)> {
    match body {
        None => None,
        Some(b) => match crate::feed::parse_feed_spec(b) {
            None => None,
            Some(tags) => decide_update_spec(current, tags),
        },
    }
}

/// Consults the feed response for an update over the stored version.
///
/// `feed_body` is `None` when the feed request itself failed; a body that
/// is no well-shaped release feed is treated identically.  Either way the
/// result is "no update" — never an error (fail-soft).  Otherwise the
/// resolver decision on the parsed tags is returned: the download URL and
/// the new tag exactly when some tag differs from the stored version.
pub fn resolve_update(prefs: &Preferences, feed_body: Option<&str>) -> (update: Option<
    (String, String),
>)
    ensures
        feed_body is None ==> update is None,
        (match feed_body {
            Some(b) => crate::feed::parse_feed_spec(b@) is None,
            None => true,
        }) ==> update is None,
        match update {
            Some(p) => resolve_update_spec(
                prefs.version_key@,
                match feed_body {
                    Some(b) => Some(b@),
                    None => None,
                },
            ) == Some((p.0@, p.1@)),
            None => resolve_update_spec(
                prefs.version_key@,
                match feed_body {
                    Some(b) => Some(b@),
                    None => None,
                },
            ) is None,
        },
{
    match feed_body {
        None => None,
        Some(body) => match crate::feed::parse_feed(body) {
            None => None,
            Some(tags) => decide_update(&prefs.version_key, &tags),
        },
    }
}

/// No tag in `tags` differs from `current` exactly when the candidate
/// version stays at `current`.
pub proof fn lemma_next_version_all_equal(current: Seq<char>, tags: Seq<Seq<char>>)
    ensures
        next_version_spec(current, tags) == current <==> (forall|k: int|
            0 <= k < tags.len() ==> tags[k] == current),
    decreases tags.len(),
{
    if tags.len() > 0 {
        lemma_next_version_all_equal(current, tags.drop_last());
        if tags.last() == current {
            assert(forall|k: int| 0 <= k < tags.len() - 1 ==> tags.drop_last()[k] == tags[k]);
        }
    }
}

/// A feed with zero entries never warrants an update.
pub proof fn lemma_empty_feed_no_update(current: Seq<char>)
    ensures
        decide_update_spec(current, Seq::<Seq<char>>::empty()) is None,
{
}

/// Resolver equality rule: a feed whose single entry's tag equals the
/// stored current version warrants no update.
pub proof fn lemma_single_equal_entry_no_update(current: Seq<char>, tags: Seq<Seq<char>>)
    requires
        tags.len() == 1,
        tags[0] == current,
    ensures
        decide_update_spec(current, tags) is None,
{
    assert(tags.last() == current);
    assert(tags.drop_last().len() == 0);
    assert(next_version_spec(current, tags.drop_last()) == current);
}

/// Resolver difference rule: a feed whose single entry's tag differs from
/// the stored current version warrants an update to exactly that tag, at
/// exactly the templated URL for it.
pub proof fn lemma_single_differing_entry_update(current: Seq<char>, tags: Seq<Seq<char>>)
    requires
        tags.len() == 1,
        tags[0] != current,
    ensures
        decide_update_spec(current, tags) == Some((download_url_spec(tags[0]), tags[0])),
{
    assert(tags.last() == tags[0]);
}

} // verus!
