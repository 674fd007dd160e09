//! The deployment gate: one call when a deployment starts, one when it ends.
//!
//! Both calls are POSTs of status-check settings. The second is made whatever
//! became of the first, and each leaves one line of output.

use crate::config::Config;
use crate::error::RequestError;
use crate::header_set::header_text_ok;
use crate::json::Json;
use crate::patch::{lemma_check_settings_members, SettingsPatch, SettingsPatchView};
use crate::request::{Method, OutboundRequest, Response};
use vstd::prelude::*;

verus! {

/// The two ends of a deployment.
#[derive(Clone, Copy, Debug, PartialEq, Eq, Structural)]
pub enum GatePhase {
    Start,
    End,
}

impl GatePhase {
    /// The settings change that belongs to the phase.
    pub open spec fn change(self) -> SettingsPatchView {
        match self {
            GatePhase::Start => SettingsPatchView::DeploymentStart,
            GatePhase::End => SettingsPatchView::DeploymentEnd,
        }
    }

    /// The settings change that belongs to the phase.
    pub fn patch(self) -> (patch: SettingsPatch)
        ensures
            patch@ == self.change(),
    {
        match self {
            GatePhase::Start => SettingsPatch::DeploymentStart,
            GatePhase::End => SettingsPatch::DeploymentEnd,
        }
    }
}

/// The start asks for a branch that is up to date and for the `deploying`
/// check; the end asks for neither.
pub proof fn lemma_gate_bodies()
    ensures
        GatePhase::Start.change().json().member("strict"@) == Some(Json::Bool(true)),
        GatePhase::Start.change().json().member("contexts"@) == Some(
            Json::Array(seq![Json::Text("deploying"@)]),
        ),
        GatePhase::End.change().json().member("strict"@) == Some(Json::Bool(false)),
        GatePhase::End.change().json().member("contexts"@) == Some(Json::Array(Seq::empty())),
{
    lemma_check_settings_members(true, seq![Json::Text("deploying"@)]);
    lemma_check_settings_members(false, Seq::empty());
}

/// The phases of one run, in the order of their calls: the start, then the
/// end.
pub fn deployment_phases() -> (phases: Vec<GatePhase>)
    ensures
        phases@ == seq![GatePhase::Start, GatePhase::End],
{
    let mut phases: Vec<GatePhase> = Vec::new();
    phases.push(GatePhase::Start);
    phases.push(GatePhase::End);
    assert(phases@ =~= seq![GatePhase::Start, GatePhase::End]);
    phases
}

/// Prepares the call of one phase: a POST of the phase's settings to the
/// endpoint of `config`. It fails exactly when the token cannot stand in a
/// header.
pub fn deployment_request(phase: GatePhase, config: &Config) -> (prepared: Result<OutboundRequest, RequestError>)
    ensures
        prepared is Ok <==> header_text_ok(config.token@),
        prepared matches Ok(request) ==> request.carries(
            Method::Post,
            config.url@,
            config.token@,
            phase.change(),
        ),
        prepared matches Err(err) ==> err is HeaderParseError,
{
    let patch = phase.patch();
    OutboundRequest::new(Method::Post, config, &patch)
}

/// `line` is the output for `outcome`: the body of the answer as it came,
/// whatever its status, or the sentence of the failure.
pub open spec fn reports(outcome: Result<Response, RequestError>, line: Seq<char>) -> bool {
    match outcome {
        Ok(response) => line == response.body@,
        Err(err) => err.says(line),
    }
}

/// The line of output for the outcome of one call.
pub fn deployment_output(outcome: &Result<Response, RequestError>) -> (line: String)
    ensures
        reports(*outcome, line@),
{
    match outcome {
        Ok(response) => response.body.clone(),
        Err(err) => err.message(),
    }
}

} // verus!
