//! How the tracker for Trakt presents itself, and how it is set up.

use super::calls::TraktAddon;
use crate::json::{as_text, get_member, json, member, text_value, value_text, JsonView};
use crate::text::{
    lemma_no_trailing_slash, trim, trim_end_slashes, trimmed, without_trailing_slashes,
};
use crate::tracker::MediaKind;
use crate::trakt::auth::DEFAULT_BASE_URL;
use vstd::prelude::*;

verus! {

/// What an addon provides.
#[derive(Debug, Clone, Copy, PartialEq, Eq, Structural)]
pub enum ResourceType {
    Catalog,
    Meta,
    Stream,
    Tracking,
}

/// What an option of an addon is filled in with.
#[derive(Debug, Clone, Copy, PartialEq, Eq, Structural)]
pub enum AddonOptionType {
    String,
    Password,
    Url,
}

/// An option of an addon.
#[derive(Debug)]
pub struct AddonOption {
    pub id: String,
    pub name: String,
    pub description: Option<String>,
    pub required: bool,
    pub default: Option<serde_json::Value>,
    pub kind: AddonOptionType,
}

pub struct AddonOptionView {
    pub id: Seq<char>,
    pub name: Seq<char>,
    pub description: Option<Seq<char>>,
    pub required: bool,
    pub default: Option<JsonView>,
    pub kind: AddonOptionType,
}

impl View for AddonOption {
    type V = AddonOptionView;

    open spec fn view(&self) -> AddonOptionView {
        AddonOptionView {
            id: self.id@,
            name: self.name@,
            description: match self.description {
                Some(s) => Some(s@),
                None => None,
            },
            required: self.required,
            default: match self.default {
                Some(v) => Some(json(v)),
                None => None,
            },
            kind: self.kind,
        }
    }
}

/// How an addon presents itself: what it is, what it provides for which media, to the server and
/// to each user, and what has to be filled in.
#[derive(Debug)]
pub struct AddonMetadata {
    pub id: String,
    pub display_name: String,
    pub description: String,
    pub icon: Option<String>,
    pub supported_resources: Vec<ResourceType>,
    pub supported_types: Vec<MediaKind>,
    pub supported_resources_user: Vec<ResourceType>,
    pub supported_types_user: Vec<MediaKind>,
    pub options: Vec<AddonOption>,
}

/// What is wrong with the setup of the addon.
#[derive(Debug, Clone, Copy, PartialEq, Eq, Structural)]
pub enum ConfigError {
    MissingClientId,
    MissingClientSecret,
}

impl ConfigError {
    pub open spec fn message_spec(self) -> Seq<char> {
        match self {
            ConfigError::MissingClientId => "Trakt client_id is required"@,
            ConfigError::MissingClientSecret => "Trakt client_secret is required"@,
        }
    }

    /// What the error says.
    pub fn message(&self) -> (r: &'static str)
        ensures
            r@ == self.message_spec(),
    {
        match self {
            ConfigError::MissingClientId => "Trakt client_id is required",
            ConfigError::MissingClientSecret => "Trakt client_secret is required",
        }
    }
}

/// The options of the addon.
pub open spec fn trakt_options() -> Seq<AddonOptionView> {
    seq![
        AddonOptionView {
            id: "client_id"@,
            name: "Client ID"@,
            description: Some("Trakt API client id from your OAuth application."@),
            required: true,
            default: None,
            kind: AddonOptionType::String,
        },
        AddonOptionView {
            id: "client_secret"@,
            name: "Client Secret"@,
            description: Some("Trakt API client secret from your OAuth application."@),
            required: true,
            default: None,
            kind: AddonOptionType::Password,
        },
        AddonOptionView {
            id: "base_url"@,
            name: "API Base URL"@,
            description: Some("Override only for tests or a Trakt-compatible proxy."@),
            required: false,
            default: Some(JsonView::Text(DEFAULT_BASE_URL@)),
            kind: AddonOptionType::Url,
        },
    ]
}

/// An option of the setup that is filled in: a text with something else than white space in it.
pub open spec fn filled_in(cfg: JsonView, key: Seq<char>) -> Option<Seq<char>> {
    match member(cfg, key) {
        Some(v) => match as_text(v) {
            Some(s) => if trimmed(s).len() > 0 {
                Some(trimmed(s))
            } else {
                None
            },
            None => None,
        },
        None => None,
    }
}

/// The address of the service that the setup names, or the one of Trakt, without slashes at its
/// end.
pub open spec fn base_url_of(cfg: JsonView) -> Seq<char> {
    without_trailing_slashes(
        match filled_in(cfg, "base_url"@) {
            Some(s) => s,
            None => DEFAULT_BASE_URL@,
        },
    )
}

fn option_text<'a>(cfg: &'a serde_json::Value, key: &str) -> (r: Option<&'a str>)
    ensures
        match r {
            Some(s) => filled_in(json(*cfg), key@) == Some(s@),
            None => filled_in(json(*cfg), key@) is None,
        },
{
    match get_member(cfg, key) {
        Some(v) => match value_text(v) {
            Some(s) => {
                let t = trim(s);
                if t.is_empty() {
                    None
                } else {
                    Some(t)
                }
            },
            None => None,
        },
        None => None,
    }
}

/// The addon as it can be chosen, before it is set up.
#[derive(Debug)]
pub struct TraktPreset;

impl TraktPreset {
    /// The name of the addon.
    pub fn id(&self) -> (r: &'static str)
        ensures
            r@ == "trakt"@,
    {
        "trakt"
    }

    /// How the addon presents itself.
    pub fn metadata(&self) -> (r: AddonMetadata)
        ensures
            r.id@ == "trakt"@,
            r.display_name@ == "Trakt"@,
            r.description@
                == "Scrobble playback to Trakt.tv, import watch history, and sync ratings and watchlists. Create an API app at https://trakt.tv/oauth/applications (device code / OOB) and paste the client id and secret here."@,
            r.icon is None,
            r.supported_resources@ == seq![ResourceType::Tracking],
            r.supported_types@ == seq![MediaKind::Movie, MediaKind::Series, MediaKind::Episode],
            r.supported_resources_user@ == r.supported_resources@,
            r.supported_types_user@ == r.supported_types@,
            r.options@.map_values(|o: AddonOption| o@) == trakt_options(),
    {
        let options = vec![
            AddonOption {
                id: "client_id".to_string(),
                name: "Client ID".to_string(),
                description: Some("Trakt API client id from your OAuth application.".to_string()),
                required: true,
                default: None,
                kind: AddonOptionType::String,
            },
            AddonOption {
                id: "client_secret".to_string(),
                name: "Client Secret".to_string(),
                description: Some(
                    "Trakt API client secret from your OAuth application.".to_string(),
                ),
                required: true,
                default: None,
                kind: AddonOptionType::Password,
            },
            AddonOption {
                id: "base_url".to_string(),
                name: "API Base URL".to_string(),
                description: Some(
                    "Override only for tests or a Trakt-compatible proxy.".to_string(),
                ),
                required: false,
                default: Some(text_value(DEFAULT_BASE_URL)),
                kind: AddonOptionType::Url,
            },
        ];
        assert(options@.map_values(|o: AddonOption| o@) =~= trakt_options());
        AddonMetadata {
            id: "trakt".to_string(),
            display_name: "Trakt".to_string(),
            description: "Scrobble playback to Trakt.tv, import watch history, and sync ratings and watchlists. Create an API app at https://trakt.tv/oauth/applications (device code / OOB) and paste the client id and secret here.".to_string(),
            icon: None,
            supported_resources: vec![ResourceType::Tracking],
            supported_types: vec![MediaKind::Movie, MediaKind::Series, MediaKind::Episode],
            supported_resources_user: vec![ResourceType::Tracking],
            supported_types_user: vec![MediaKind::Movie, MediaKind::Series, MediaKind::Episode],
            options,
        }
    }

    /// Sets the addon up.
    pub fn from_cfg(&self, cfg: &serde_json::Value) -> (r: Result<TraktAddon, ConfigError>)
        ensures
            match (
                filled_in(json(*cfg), "client_id"@),
                filled_in(json(*cfg), "client_secret"@),
            ) {
                (None, _) => r == Err::<TraktAddon, ConfigError>(ConfigError::MissingClientId),
                (Some(_), None) => r == Err::<TraktAddon, ConfigError>(
                    ConfigError::MissingClientSecret,
                ),
                (Some(id), Some(secret)) => r matches Ok(addon) && addon.client_id@ == id
                    && addon.client_secret@ == secret && addon.base_url@ == base_url_of(
                    json(*cfg),
                ),
            },
    {
        let client_id = match option_text(cfg, "client_id") {
            Some(s) => s.to_string(),
            None => {
                return Err(ConfigError::MissingClientId);
            },
        };
        let client_secret = match option_text(cfg, "client_secret") {
            Some(s) => s.to_string(),
            None => {
                return Err(ConfigError::MissingClientSecret);
            },
        };
        let base_url = match option_text(cfg, "base_url") {
            Some(s) => s,
            None => DEFAULT_BASE_URL,
        };
        Ok(TraktAddon { client_id, client_secret, base_url: trim_end_slashes(base_url).to_string() })
    }
}

/// The options that are marked as required are those without which the addon cannot be set up.
pub proof fn lemma_required_options(cfg: JsonView)
    ensures
        (forall|i: int|
            0 <= i < trakt_options().len() && (#[trigger] trakt_options()[i]).required
                ==> filled_in(cfg, trakt_options()[i].id) is Some) <==> (filled_in(
            cfg,
            "client_id"@,
        ) is Some && filled_in(cfg, "client_secret"@) is Some),
{
    let options = trakt_options();
    assert(options[0].id == "client_id"@ && options[0].required);
    assert(options[1].id == "client_secret"@ && options[1].required);
    assert(!options[2].required);
}

/// The addon is set up from the texts of these names, without the white space around them. The id
/// and the secret of the application have to be there, and of the two the id is missed first. The
/// address may be missing, and is then that of Trakt. It does not end in a slash.
pub proof fn lemma_set_up_as_filled_in(
    preset: &TraktPreset,
    cfg: &serde_json::Value,
    r: Result<TraktAddon, ConfigError>,
)
    requires
        call_ensures(TraktPreset::from_cfg, (preset, cfg), r),
    ensures
        match r {
            Ok(addon) => {
                &&& member(json(*cfg), "client_id"@) matches Some(JsonView::Text(s))
                    && addon.client_id@ == trimmed(s) && addon.client_id@.len() > 0
                &&& member(json(*cfg), "client_secret"@) matches Some(JsonView::Text(s))
                    && addon.client_secret@ == trimmed(s) && addon.client_secret@.len() > 0
                &&& addon.base_url@.len() > 0 ==> addon.base_url@.last() != '/'
                &&& member(json(*cfg), "base_url"@) matches Some(JsonView::Text(s))
                    ==> trimmed(s).len() > 0 ==> addon.base_url@.is_prefix_of(trimmed(s))
                &&& member(json(*cfg), "base_url"@) is None ==> addon.base_url@
                    == without_trailing_slashes("https://api.trakt.tv"@)
            },
            Err(ConfigError::MissingClientId) => !(member(
                json(*cfg),
                "client_id"@,
            ) matches Some(JsonView::Text(s)) && trimmed(s).len() > 0),
            Err(ConfigError::MissingClientSecret) => (member(
                json(*cfg),
                "client_id"@,
            ) matches Some(JsonView::Text(s)) && trimmed(s).len() > 0) && !(member(
                json(*cfg),
                "client_secret"@,
            ) matches Some(JsonView::Text(s)) && trimmed(s).len() > 0),
        },
{
    lemma_no_trailing_slash("https://api.trakt.tv"@);
    if let Some(s) = filled_in(json(*cfg), "base_url"@) {
        lemma_no_trailing_slash(s);
    }
}

/// The addon presents itself under the name by which it is set up, as a tracker of movies, series
/// and episodes, for the server as for each user. The secret is filled in as one.
pub proof fn lemma_presents_itself(preset: &TraktPreset, r: AddonMetadata, id: &'static str)
    requires
        call_ensures(TraktPreset::metadata, (preset,), r),
        call_ensures(TraktPreset::id, (preset,), id),
    ensures
        r.id@ == id@ && id@ == "trakt"@,
        r.supported_resources@ == seq![ResourceType::Tracking],
        r.supported_resources_user@ == seq![ResourceType::Tracking],
        r.supported_types@ == seq![MediaKind::Movie, MediaKind::Series, MediaKind::Episode],
        r.supported_types_user@ == seq![MediaKind::Movie, MediaKind::Series, MediaKind::Episode],
        r.options@.len() == 3,
        r.options@[0].id@ == "client_id"@ && r.options@[0].kind is String && r.options@[0].required,
        r.options@[1].id@ == "client_secret"@ && r.options@[1].kind is Password
            && r.options@[1].required,
        r.options@[2].id@ == "base_url"@ && r.options@[2].kind is Url && !r.options@[2].required,
{
    let seen = r.options@.map_values(|o: AddonOption| o@);
    assert(seen.len() == 3);
    assert(seen[0] == r.options@[0]@ && seen[1] == r.options@[1]@ && seen[2] == r.options@[2]@);
}

/// What is missing from a setup is named, and the options go by the names that users see.
pub proof fn lemma_names_in_the_setup(e: ConfigError)
    ensures
        e is MissingClientId ==> e.message_spec() == "Trakt client_id is required"@,
        e is MissingClientSecret ==> e.message_spec() == "Trakt client_secret is required"@,
        trakt_options()[0].name == "Client ID"@,
        trakt_options()[1].name == "Client Secret"@,
        trakt_options()[2].name == "API Base URL"@,
        trakt_options()[0].default is None && trakt_options()[1].default is None,
        trakt_options()[2].default == Some(JsonView::Text("https://api.trakt.tv"@)),
{
}

} // verus!
