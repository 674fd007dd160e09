//! The settings that a request asks the platform to apply.

use crate::json::{
    json_array, json_bool, json_items, json_map_insert, json_map_new, json_object, json_of,
    json_string, Json,
};
use vstd::prelude::*;

verus! {

/// One change of the branch-protection settings.
#[derive(Clone, Debug, PartialEq, Eq)]
pub enum SettingsPatch {
    /// Only `user_id` may dismiss a review from now on.
    Block { user_id: String },
    /// Nobody is singled out any more.
    Unblock,
    /// A deployment starts: the branch asks for the `deploying` check.
    DeploymentStart,
    /// The deployment is over: the branch asks for no check.
    DeploymentEnd,
}

/// A [`SettingsPatch`] with its text as characters.
pub enum SettingsPatchView {
    Block { user_id: Seq<char> },
    Unblock,
    DeploymentStart,
    DeploymentEnd,
}

impl View for SettingsPatch {
    type V = SettingsPatchView;

    open spec fn view(&self) -> SettingsPatchView {
        match self {
            SettingsPatch::Block { user_id } => SettingsPatchView::Block { user_id: user_id@ },
            SettingsPatch::Unblock => SettingsPatchView::Unblock,
            SettingsPatch::DeploymentStart => SettingsPatchView::DeploymentStart,
            SettingsPatch::DeploymentEnd => SettingsPatchView::DeploymentEnd,
        }
    }
}

/// The review settings: who may dismiss a review, and that stale reviews stay.
pub open spec fn review_settings(restrictions: Map<Seq<char>, Json>) -> Json {
    Json::Object(
        map![
            "dismissal_restrictions"@ => Json::Object(restrictions),
            "dismiss_stale_reviews"@ => Json::Bool(false),
        ],
    )
}

/// The status-check settings: whether the branch must be up to date, and the
/// checks that must pass.
pub open spec fn check_settings(strict: bool, contexts: Seq<Json>) -> Json {
    Json::Object(map!["strict"@ => Json::Bool(strict), "contexts"@ => Json::Array(contexts)])
}

/// The restrictions that single out `user_id`: that one user, and no team.
pub open spec fn only_user(user_id: Seq<char>) -> Map<Seq<char>, Json> {
    map![
        "users"@ => Json::Array(seq![Json::Text(user_id)]),
        "teams"@ => Json::Array(Seq::empty()),
    ]
}

impl SettingsPatchView {
    /// The JSON body that carries this change.
    pub open spec fn json(self) -> Json {
        match self {
            SettingsPatchView::Block { user_id } => review_settings(only_user(user_id)),
            SettingsPatchView::Unblock => review_settings(Map::empty()),
            SettingsPatchView::DeploymentStart => check_settings(
                true,
                seq![Json::Text("deploying"@)],
            ),
            SettingsPatchView::DeploymentEnd => check_settings(false, Seq::empty()),
        }
    }
}

/// The member names of the two bodies are different texts.
pub proof fn lemma_member_names_differ()
    ensures
        "dismissal_restrictions"@ != "dismiss_stale_reviews"@,
        "users"@ != "teams"@,
        "strict"@ != "contexts"@,
{
    reveal_strlit("dismissal_restrictions");
    reveal_strlit("dismiss_stale_reviews");
    reveal_strlit("users");
    reveal_strlit("teams");
    reveal_strlit("strict");
    reveal_strlit("contexts");
    assert("dismissal_restrictions"@.len() == 22);
    assert("dismiss_stale_reviews"@.len() == 21);
    assert("users"@[0] == 'u');
    assert("teams"@[0] == 't');
    assert("strict"@.len() == 6);
    assert("contexts"@.len() == 8);
}

/// Review settings hold the restrictions they were given, keep stale reviews,
/// and have no third member.
pub proof fn lemma_review_settings_members(restrictions: Map<Seq<char>, Json>)
    ensures
        review_settings(restrictions).member("dismissal_restrictions"@) == Some(
            Json::Object(restrictions),
        ),
        review_settings(restrictions).member("dismiss_stale_reviews"@) == Some(Json::Bool(false)),
        review_settings(restrictions)->Object_0.dom() == set![
            "dismissal_restrictions"@,
            "dismiss_stale_reviews"@,
        ],
{
    lemma_member_names_differ();
    assert(review_settings(restrictions)->Object_0.dom() =~= set![
        "dismissal_restrictions"@,
        "dismiss_stale_reviews"@,
    ]);
}

/// The restrictions for one user list that user alone, list no team, and
/// have no third member.
pub proof fn lemma_only_user_members(user_id: Seq<char>)
    ensures
        Json::Object(only_user(user_id)).member("users"@) == Some(
            Json::Array(seq![Json::Text(user_id)]),
        ),
        Json::Object(only_user(user_id)).member("teams"@) == Some(Json::Array(Seq::empty())),
        only_user(user_id).dom() == set!["users"@, "teams"@],
{
    lemma_member_names_differ();
    assert(only_user(user_id).dom() =~= set!["users"@, "teams"@]);
}

/// Status-check settings hold the flag and the checks they were given, and
/// have no third member.
pub proof fn lemma_check_settings_members(strict: bool, contexts: Seq<Json>)
    ensures
        check_settings(strict, contexts).member("strict"@) == Some(Json::Bool(strict)),
        check_settings(strict, contexts).member("contexts"@) == Some(Json::Array(contexts)),
        check_settings(strict, contexts)->Object_0.dom() == set!["strict"@, "contexts"@],
{
    lemma_member_names_differ();
    assert(check_settings(strict, contexts)->Object_0.dom() =~= set!["strict"@, "contexts"@]);
}

/// Builds the review settings around the given restrictions.
fn review_body(restrictions: serde_json::Value) -> (body: serde_json::Value)
    requires
        json_of(restrictions) is Object,
    ensures
        json_of(body) == review_settings(json_of(restrictions)->Object_0),
{
    let mut members = json_map_new();
    json_map_insert(&mut members, "dismissal_restrictions".to_owned(), restrictions);
    json_map_insert(&mut members, "dismiss_stale_reviews".to_owned(), json_bool(false));
    json_object(members)
}

/// Builds the status-check settings.
fn check_body(strict: bool, contexts: Vec<serde_json::Value>) -> (body: serde_json::Value)
    ensures
        json_of(body) == check_settings(strict, json_items(contexts@)),
{
    let mut members = json_map_new();
    json_map_insert(&mut members, "strict".to_owned(), json_bool(strict));
    json_map_insert(&mut members, "contexts".to_owned(), json_array(contexts));
    json_object(members)
}

impl SettingsPatch {
    /// The JSON body that carries this change.
    pub fn to_json(&self) -> (body: serde_json::Value)
        ensures
            json_of(body) == self@.json(),
    {
        match self {
            SettingsPatch::Block { user_id } => {
                let mut users: Vec<serde_json::Value> = Vec::new();
                users.push(json_string(user_id.clone()));
                let teams: Vec<serde_json::Value> = Vec::new();
                assert(json_items(users@) =~= seq![Json::Text(user_id@)]);
                assert(json_items(teams@) =~= Seq::empty());
                let mut restrictions = json_map_new();
                json_map_insert(&mut restrictions, "users".to_owned(), json_array(users));
                json_map_insert(&mut restrictions, "teams".to_owned(), json_array(teams));
                review_body(json_object(restrictions))
            },
            SettingsPatch::Unblock => review_body(json_object(json_map_new())),
            SettingsPatch::DeploymentStart => {
                let mut contexts: Vec<serde_json::Value> = Vec::new();
                contexts.push(json_string("deploying".to_owned()));
                assert(json_items(contexts@) =~= seq![Json::Text("deploying"@)]);
                check_body(true, contexts)
            },
            SettingsPatch::DeploymentEnd => {
                let contexts: Vec<serde_json::Value> = Vec::new();
                assert(json_items(contexts@) =~= Seq::empty());
                check_body(false, contexts)
            },
        }
    }
}

} // verus!
