//! The startup decision: whether the database file on disk is kept as it is
//! or an update check is made.

use vstd::prelude::*;

verus! {

/// What the host application should do when it starts.
#[derive(PartialEq, Eq, Structural, Clone, Copy, Debug)]
pub enum StartupAction {
    /// The database file is already present: open it, make no network request.
    OpenExisting,
    /// The database file is absent: consult the release feed first.
    CheckFeed,
}

/// Decides the startup step from the presence of the destination database
/// file.  A present file suppresses any network activity: the feed is
/// consulted only when the file is absent.
pub fn plan_startup(database_exists: bool) -> (action: StartupAction)
    ensures
        action == (if database_exists {
            StartupAction::OpenExisting
        } else {
            StartupAction::CheckFeed
        }),
{
    if database_exists {
        StartupAction::OpenExisting
    } else {
        StartupAction::CheckFeed
    }
}

/// The release feed endpoint: page 1, one item per page.
pub fn feed_url() -> (url: &'static str)
    ensures
        url@ == "https://api.github.com/repos/OpenVGDB/OpenVGDB/releases?page=1&per_page=1"@,
{
    "https://api.github.com/repos/OpenVGDB/OpenVGDB/releases?page=1&per_page=1"
}

/// The client-identifying value sent in the `User-Agent` request header.
pub fn user_agent() -> (value: &'static str)
    ensures
        value@ == "OpenVGDBDownloader"@,
{
    "OpenVGDBDownloader"
}

/// The fixed relative path of the destination database file.
pub fn database_file_name() -> (name: &'static str)
    ensures
        name@ == "openvgdb.sqlite"@,
{
    "openvgdb.sqlite"
}

/// The fixed relative name under which the downloaded archive is kept.
pub fn archive_file_name() -> (name: &'static str)
    ensures
        name@ == "openvgdb.zip"@,
{
    "openvgdb.zip"
}

} // verus!
