//! From a slash-command payload to the reply that its sender reads.
//!
//! Handling a command takes two decisions with one network call between them.
//! [`plan_command`] takes the first: it reads the payload and either settles
//! the reply at once or prepares the call. [`reply_for`] takes the second: it
//! turns the platform's answer into the reply.

use crate::config::Config;
use crate::error::RequestError;
use crate::header_set::header_text_ok;
use crate::json::{json_of, string_member, text_view, Json};
use crate::patch::{
    lemma_only_user_members, lemma_review_settings_members, only_user, SettingsPatch,
    SettingsPatchView,
};
use crate::request::{Method, OutboundRequest, Response};
use crate::text::str_eq;
use vstd::prelude::*;

verus! {

/// What a payload asks for.
#[derive(Clone, Debug, PartialEq, Eq)]
pub enum Command {
    /// Keep everybody but `user_id` from merging.
    Block { user_id: String },
    /// Lift the block.
    Unblock,
    /// Anything else.
    Invalid,
}

/// A [`Command`] with its text as characters.
pub enum CommandView {
    Block { user_id: Seq<char> },
    Unblock,
    Invalid,
}

impl View for Command {
    type V = CommandView;

    open spec fn view(&self) -> CommandView {
        match self {
            Command::Block { user_id } => CommandView::Block { user_id: user_id@ },
            Command::Unblock => CommandView::Unblock,
            Command::Invalid => CommandView::Invalid,
        }
    }
}

/// The command behind the two fields of a payload: `block` needs a user,
/// `unblock` needs nothing, and every other text, or none, is invalid.
pub open spec fn interpret(text: Option<Seq<char>>, user_id: Option<Seq<char>>) -> CommandView {
    if text == Some("block"@) && user_id is Some {
        CommandView::Block { user_id: user_id->0 }
    } else if text == Some("unblock"@) {
        CommandView::Unblock
    } else {
        CommandView::Invalid
    }
}

/// The two action words are different texts.
pub proof fn lemma_actions_differ()
    ensures
        "block"@ != "unblock"@,
{
    reveal_strlit("block");
    reveal_strlit("unblock");
    assert("block"@.len() == 5);
    assert("unblock"@.len() == 7);
}

/// The command that a payload carries in its members `text` and `user_id`.
/// A member that is missing, or is no string, counts as absent.
pub open spec fn command_of(body: Json) -> CommandView {
    interpret(body.string_member("text"@), body.string_member("user_id"@))
}

impl CommandView {
    /// The settings change that the command asks for, if it asks for one.
    pub open spec fn patch(self) -> Option<SettingsPatchView> {
        match self {
            CommandView::Block { user_id } => Some(SettingsPatchView::Block { user_id }),
            CommandView::Unblock => Some(SettingsPatchView::Unblock),
            CommandView::Invalid => None,
        }
    }

    /// The reply to the sender, once the platform has answered with `body`
    /// and reported success or not. An invalid command has one reply only.
    pub open spec fn reply(self, success: bool, body: Seq<char>) -> Seq<char> {
        match self {
            CommandView::Block { user_id } => if success {
                "Blocked all merge requests except for user "@ + user_id
            } else {
                "Error blocking merge requests: "@ + body
            },
            CommandView::Unblock => if success {
                "Unblocked all merge requests"@
            } else {
                "Error unblocking merge requests: "@ + body
            },
            CommandView::Invalid => "Invalid command"@,
        }
    }
}

impl Command {
    /// Interprets the two fields of a payload.
    pub fn parse(text: Option<&str>, user_id: Option<&str>) -> (command: Command)
        ensures
            command@ == interpret(text_view(text), text_view(user_id)),
    {
        proof {
            lemma_actions_differ();
        }
        match text {
            Some(action) => {
                if str_eq(action, "block") {
                    match user_id {
                        Some(user) => Command::Block { user_id: user.to_owned() },
                        None => Command::Invalid,
                    }
                } else if str_eq(action, "unblock") {
                    Command::Unblock
                } else {
                    Command::Invalid
                }
            },
            None => Command::Invalid,
        }
    }

    /// Reads the command out of a payload.
    pub fn from_body(body: &serde_json::Value) -> (command: Command)
        ensures
            command@ == command_of(json_of(*body)),
    {
        Command::parse(string_member(body, "text"), string_member(body, "user_id"))
    }

    /// The settings change that the command asks for, if it asks for one.
    pub fn patch(&self) -> (patch: Option<SettingsPatch>)
        ensures
            patch is Some <==> self@.patch() is Some,
            patch matches Some(change) ==> Some(change@) == self@.patch(),
    {
        match self {
            Command::Block { user_id } => Some(SettingsPatch::Block { user_id: user_id.clone() }),
            Command::Unblock => Some(SettingsPatch::Unblock),
            Command::Invalid => None,
        }
    }
}

/// What to do with a payload that has just come in.
#[derive(Debug)]
pub enum Plan {
    /// Nothing goes out: the sender gets this reply.
    Reply(String),
    /// `request` goes out; the platform's answer and `command` settle the
    /// reply.
    Send { command: Command, request: OutboundRequest },
}

/// `planned` is the right plan for the payload `body` under the endpoint
/// `url` and the token `token`.
///
/// An invalid command is answered at once, whatever the token. A valid one is
/// sent as a PATCH of its settings change, unless the token cannot stand in a
/// header: then planning fails.
pub open spec fn planned_for(
    body: Json,
    url: Seq<char>,
    token: Seq<char>,
    planned: Result<Plan, RequestError>,
) -> bool {
    match command_of(body).patch() {
        None => planned matches Ok(Plan::Reply(text)) && text@ == "Invalid command"@,
        Some(change) => if header_text_ok(token) {
            planned matches Ok(Plan::Send { command, request }) && command@ == command_of(body)
                && request.carries(Method::Patch, url, token, change)
        } else {
            planned matches Err(err) && err is HeaderParseError
        },
    }
}

/// A payload whose text is `block` and which names a user is planned, if
/// the token allows, as a request whose body lists that user alone, and no
/// team, under its dismissal restrictions.
pub proof fn lemma_block_names_the_sender(
    body: Json,
    url: Seq<char>,
    token: Seq<char>,
    planned: Result<Plan, RequestError>,
)
    requires
        body.string_member("text"@) == Some("block"@),
        body.string_member("user_id"@) is Some,
        planned_for(body, url, token, planned),
    ensures
        planned is Ok <==> header_text_ok(token),
        planned matches Ok(plan) ==> ({
            let user_id = body.string_member("user_id"@)->0;
            &&& plan matches Plan::Send { command, request }
            &&& json_of(request.body).member("dismissal_restrictions"@) matches Some(restrictions)
            &&& restrictions.member("users"@) == Some(Json::Array(seq![Json::Text(user_id)]))
            &&& restrictions.member("teams"@) == Some(Json::Array(Seq::empty()))
        }),
{
    let user_id = body.string_member("user_id"@)->0;
    lemma_review_settings_members(only_user(user_id));
    lemma_only_user_members(user_id);
}

/// A payload whose text is `unblock` is planned, if the token allows, as a
/// request whose body has the empty object for its dismissal restrictions,
/// whether or not the payload names a user.
pub proof fn lemma_unblock_lifts_restrictions(
    body: Json,
    url: Seq<char>,
    token: Seq<char>,
    planned: Result<Plan, RequestError>,
)
    requires
        body.string_member("text"@) == Some("unblock"@),
        planned_for(body, url, token, planned),
    ensures
        planned is Ok <==> header_text_ok(token),
        planned matches Ok(plan) ==> ({
            &&& plan matches Plan::Send { command, request }
            &&& json_of(request.body).member("dismissal_restrictions"@) == Some(
                Json::Object(Map::empty()),
            )
        }),
{
    lemma_actions_differ();
    lemma_review_settings_members(Map::empty());
}

/// A payload without a text, or with a text that is neither `block` nor
/// `unblock`, is invalid: its plan is the reply "Invalid command" and nothing
/// goes out, whatever the endpoint and the token.
pub proof fn lemma_unknown_text_is_invalid(
    body: Json,
    url: Seq<char>,
    token: Seq<char>,
    planned: Result<Plan, RequestError>,
)
    requires
        body.string_member("text"@) != Some("block"@),
        body.string_member("text"@) != Some("unblock"@),
        planned_for(body, url, token, planned),
    ensures
        command_of(body) == CommandView::Invalid,
        planned matches Ok(Plan::Reply(text)) && text@ == "Invalid command"@,
        forall|success: bool, answer: Seq<char>| #[trigger]
            command_of(body).reply(success, answer) == "Invalid command"@,
{
}

/// Decides what a payload leads to: an immediate reply or an outbound call.
pub fn plan_command(body: &serde_json::Value, config: &Config) -> (planned: Result<Plan, RequestError>)
    ensures
        planned_for(json_of(*body), config.url@, config.token@, planned),
{
    let command = Command::from_body(body);
    match command.patch() {
        None => Ok(Plan::Reply("Invalid command".to_owned())),
        Some(change) => match OutboundRequest::new(Method::Patch, config, &change) {
            Ok(request) => Ok(Plan::Send { command, request }),
            Err(err) => Err(err),
        },
    }
}

/// The reply to the sender of `command`, given the platform's answer.
pub fn reply_for(command: &Command, response: &Response) -> (reply: String)
    ensures
        reply@ == command@.reply(response.succeeded(), response.body@),
{
    let success = response.is_success();
    match command {
        Command::Block { user_id } => if success {
            "Blocked all merge requests except for user ".to_owned().concat(user_id.as_str())
        } else {
            "Error blocking merge requests: ".to_owned().concat(response.body.as_str())
        },
        Command::Unblock => if success {
            "Unblocked all merge requests".to_owned()
        } else {
            "Error unblocking merge requests: ".to_owned().concat(response.body.as_str())
        },
        Command::Invalid => "Invalid command".to_owned(),
    }
}

/// `reply` is what the sender of `command` reads after `outcome`: the reply
/// to the platform's answer, or the sentence of the failure that kept the
/// answer from coming.
pub open spec fn concludes(
    command: CommandView,
    outcome: Result<Response, RequestError>,
    reply: Seq<char>,
) -> bool {
    match outcome {
        Ok(response) => reply == command.reply(response.succeeded(), response.body@),
        Err(err) => err.says(reply),
    }
}

/// The reply to the sender of `command`, whatever became of the call: no
/// failure is left without a text.
pub fn conclude(command: &Command, outcome: &Result<Response, RequestError>) -> (reply: String)
    ensures
        concludes(command@, *outcome, reply@),
{
    match outcome {
        Ok(response) => reply_for(command, response),
        Err(err) => err.message(),
    }
}

} // verus!
