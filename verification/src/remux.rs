//! The requests about trackers, from the side of those who make them.

use crate::ids::{hyphenated, uuid_text};
use crate::json::{member, no_members, object_value, set_member, text_value, JsonView};
use crate::rest::{no_params, request_of, Body, Endpoint, Method};
use crate::text::join;
use vstd::prelude::*;

verus! {

/// A connection of a user with a tracker.
#[derive(Debug, Clone, PartialEq, Eq)]
pub struct MediaTrackerDto {
    pub id: u128,
    pub addon_id: u128,
    pub status: String,
    pub last_success_at: Option<String>,
    pub last_error: Option<String>,
}

/// A device login that has been started.
#[derive(Debug, Clone, PartialEq, Eq)]
pub struct DeviceAuthStartDto {
    pub verification_url: String,
    pub user_code: String,
    pub poll_token: String,
    pub interval_seconds: u64,
    pub expires_in_seconds: u64,
}

/// How a device login stands.
#[derive(Debug, Clone, PartialEq, Eq)]
pub struct DeviceAuthPollDto {
    pub status: String,
    pub connection: Option<MediaTrackerDto>,
}

/// How much was brought into the library.
#[derive(Debug, Clone, Copy, PartialEq, Eq, Structural)]
pub struct MediaTrackerSyncDto {
    pub applied: usize,
}

/// The path of the trackers of a user.
pub open spec fn trackers_path(user_id: u128) -> Seq<char> {
    "/users/"@ + hyphenated(user_id) + "/mediatrackers"@
}

/// The path of something about a tracker of a user.
pub open spec fn tracker_path(user_id: u128, addon_id: u128, what: Seq<char>) -> Seq<char> {
    trackers_path(user_id) + "/"@ + hyphenated(addon_id) + what
}

fn path_of_trackers(user_id: u128) -> (r: String)
    ensures
        r@ == trackers_path(user_id),
{
    join(join("/users/", uuid_text(user_id).as_str()).as_str(), "/mediatrackers")
}

fn path_of_tracker(user_id: u128, addon_id: u128, what: &str) -> (r: String)
    ensures
        r@ == tracker_path(user_id, addon_id, what@),
{
    let base = join(path_of_trackers(user_id).as_str(), "/");
    join(join(base.as_str(), uuid_text(addon_id).as_str()).as_str(), what)
}

/// An object without members.
pub open spec fn nothing() -> JsonView {
    JsonView::Object(Map::empty())
}

fn empty_body() -> (r: Body)
    ensures
        r@ == Some(nothing()),
{
    Body::Json(object_value(no_members()))
}

/// Lists the trackers of a user.
#[derive(Debug, Clone)]
pub struct ListMediaTrackers {
    pub user_id: u128,
}

impl Endpoint for ListMediaTrackers {
    open spec fn path_spec(&self) -> Seq<char> {
        trackers_path(self.user_id)
    }

    fn path(&self) -> String {
        path_of_trackers(self.user_id)
    }

    fn method(&self) -> Method {
        Method::Get
    }

    fn query_params(&self) -> Vec<(String, u32)> {
        no_params()
    }

    fn body(&self) -> Body {
        Body::Empty
    }
}

/// Begins to connect a user with a tracker.
#[derive(Debug, Clone)]
pub struct BeginMediaTrackerDeviceAuth {
    pub user_id: u128,
    pub addon_id: u128,
}

impl Endpoint for BeginMediaTrackerDeviceAuth {
    open spec fn path_spec(&self) -> Seq<char> {
        tracker_path(self.user_id, self.addon_id, "/deviceauth"@)
    }

    open spec fn method_spec(&self) -> Method {
        Method::Post
    }

    open spec fn body_spec(&self) -> Option<JsonView> {
        Some(nothing())
    }

    fn path(&self) -> String {
        path_of_tracker(self.user_id, self.addon_id, "/deviceauth")
    }

    fn method(&self) -> Method {
        Method::Post
    }

    fn query_params(&self) -> Vec<(String, u32)> {
        no_params()
    }

    fn body(&self) -> Body {
        empty_body()
    }
}

/// Asks how a device login stands.
#[derive(Debug, Clone)]
pub struct PollMediaTrackerDeviceAuth {
    pub user_id: u128,
    pub addon_id: u128,
    pub poll_token: String,
}

impl Endpoint for PollMediaTrackerDeviceAuth {
    open spec fn path_spec(&self) -> Seq<char> {
        tracker_path(self.user_id, self.addon_id, "/deviceauth/poll"@)
    }

    open spec fn method_spec(&self) -> Method {
        Method::Post
    }

    open spec fn body_spec(&self) -> Option<JsonView> {
        Some(
            JsonView::Object(
                Map::empty().insert("pollToken"@, JsonView::Text(self.poll_token@)),
            ),
        )
    }

    fn path(&self) -> String {
        path_of_tracker(self.user_id, self.addon_id, "/deviceauth/poll")
    }

    fn method(&self) -> Method {
        Method::Post
    }

    fn query_params(&self) -> Vec<(String, u32)> {
        no_params()
    }

    fn body(&self) -> Body {
        let mut m = no_members();
        set_member(&mut m, "pollToken", text_value(self.poll_token.as_str()));
        Body::Json(object_value(m))
    }
}

/// Synchronises a user with a tracker.
#[derive(Debug, Clone)]
pub struct SyncMediaTracker {
    pub user_id: u128,
    pub addon_id: u128,
}

impl Endpoint for SyncMediaTracker {
    open spec fn path_spec(&self) -> Seq<char> {
        tracker_path(self.user_id, self.addon_id, "/sync"@)
    }

    open spec fn method_spec(&self) -> Method {
        Method::Post
    }

    open spec fn body_spec(&self) -> Option<JsonView> {
        Some(nothing())
    }

    fn path(&self) -> String {
        path_of_tracker(self.user_id, self.addon_id, "/sync")
    }

    fn method(&self) -> Method {
        Method::Post
    }

    fn query_params(&self) -> Vec<(String, u32)> {
        no_params()
    }

    fn body(&self) -> Body {
        empty_body()
    }
}

/// A request about a tracker goes to the trackers of that user, and to the tracker with that id
/// among them: the user comes first. Only listing them is reading, and the question how a login
/// stands carries the token for it.
pub proof fn lemma_requests_about_trackers(user_id: u128, addon_id: u128, poll_token: String)
    ensures
        ({
            let all = "/users/"@ + hyphenated(user_id) + "/mediatrackers"@;
            let one = all + "/"@ + hyphenated(addon_id);
            let list = request_of(ListMediaTrackers { user_id });
            let begin = request_of(BeginMediaTrackerDeviceAuth { user_id, addon_id });
            let poll = request_of(PollMediaTrackerDeviceAuth { user_id, addon_id, poll_token });
            let sync = request_of(SyncMediaTracker { user_id, addon_id });
            &&& list.method == Method::Get && list.path == all && list.body is None
            &&& begin.method == Method::Post && begin.path == one + "/deviceauth"@
            &&& poll.method == Method::Post && poll.path == one + "/deviceauth/poll"@
            &&& sync.method == Method::Post && sync.path == one + "/sync"@
            &&& begin.body == Some(JsonView::Object(Map::empty()))
            &&& sync.body == Some(JsonView::Object(Map::empty()))
            &&& poll.body matches Some(b) && member(b, "pollToken"@) == Some(
                JsonView::Text(poll_token@),
            )
            &&& list.query.len() == 0 && begin.query.len() == 0 && poll.query.len() == 0
                && sync.query.len() == 0
        }),
{
}

} // verus!
