//! One quick analysis, step by step.
//!
//! An analysis takes the busy flag, probes the text-generation service,
//! gathers what the payload names, asks the service and gives the flag
//! back. The service is probed and asked, and the files are read, by the
//! caller; the steps here decide what comes next, write the log and see to it
//! that the flag is idle again however the analysis ends.

use vstd::prelude::*;
use crate::analysis::{
    analysis_needs,
    analysis_plan,
    analysis_prompt,
    analysis_prompt_text,
    describe_prepared,
    prepare_analysis,
    prepared,
    prepared_line,
    standard_analysis_limits,
};
use crate::extract::{extraction_text, supplied_views, Need, Supplied};
use crate::guard::{AnalysisBusyFlag, AnalysisBusyGuard, FlightState};
use crate::handoff::{noted, PayloadStore};
use crate::payload::{LaunchPayload, PayloadView};
use crate::text::{joined, push_joined, push_str, string_of};

verus! {

/// The text of a failure with its causes: the failure first, then each
/// cause behind it.
pub open spec fn chain_text(chain: Seq<Seq<char>>) -> Seq<char> {
    joined(chain, "; caused by: "@)
}

/// Writes a failure with its causes in one line.
pub fn chain_message(chain: &Vec<String>) -> (text: String)
    ensures
        text@ == chain_text(chain.deep_view()),
{
    let mut out: Vec<char> = Vec::new();
    push_joined(&mut out, chain, "; caused by: ");
    string_of(&out)
}

/// An analysis that waits for the probe of the service.
#[derive(Debug)]
pub struct PendingProbe {
    token: AnalysisBusyGuard,
    payload: LaunchPayload,
}

/// An analysis that waits for what its payload names.
#[derive(Debug)]
pub struct PendingGather {
    token: AnalysisBusyGuard,
    payload: LaunchPayload,
}

/// An analysis that waits for the answer of the service.
#[derive(Debug)]
pub struct PendingReply {
    token: AnalysisBusyGuard,
    prompt: String,
}

/// One step of an analysis.
#[derive(Debug)]
pub enum AnalysisStep {
    /// The caller probes the service.
    Probe(PendingProbe),
    /// The caller obtains what the plan asks for.
    Gather(PendingGather),
    /// The caller sends the prompt to the service.
    Ask(PendingReply),
    /// The analysis has ended, with the answer or with what went wrong.
    Done(Result<String, String>),
}

fn append(prefix: &str, rest: &str) -> (line: String)
    ensures
        line@ == prefix@ + rest@,
{
    let mut out: Vec<char> = Vec::new();
    push_str(&mut out, prefix);
    push_str(&mut out, rest);
    string_of(&out)
}

/// Begins an analysis of `payload`. Where one is in flight already, it ends
/// at once with the busy error and the flag is left as it was; otherwise
/// the flag is taken and the service is to be probed.
pub fn quick_analyze(flag: &mut AnalysisBusyFlag, payload: LaunchPayload) -> (first: AnalysisStep)
    ensures
        final(flag).state() == FlightState::Busy,
        old(flag).state() == FlightState::Busy ==> (first matches AnalysisStep::Done(Err(text))
            && text@ == "analysis already in progress"@),
        old(flag).state() == FlightState::Idle ==> (first matches AnalysisStep::Probe(pending)
            && pending.payload() == payload@),
{
    match AnalysisBusyGuard::try_acquire(flag) {
        Err(busy) => AnalysisStep::Done(Err(busy.message())),
        Ok(token) => AnalysisStep::Probe(PendingProbe { token, payload }),
    }
}

impl PendingProbe {
    /// The payload under analysis.
    pub closed spec fn payload(&self) -> PayloadView {
        self.payload@
    }

    /// Takes the outcome of the probe. A service that cannot be reached
    /// ends the analysis: the failure is logged and the flag given back.
    /// Otherwise the payload is to be gathered.
    pub fn answer(
        self,
        probe: Result<String, String>,
        flag: &mut AnalysisBusyFlag,
        store: &mut PayloadStore,
        stamp: u64,
    ) -> (next: AnalysisStep)
        ensures
            match probe {
                Ok(_) => {
                    &&& next matches AnalysisStep::Gather(pending) && pending.payload()
                        == self.payload()
                    &&& final(flag).state() == old(flag).state()
                    &&& final(store)@ == old(store)@
                },
                Err(reason) => {
                    &&& next matches AnalysisStep::Done(Err(text)) && text@ == reason@
                    &&& final(flag).state() == FlightState::Idle
                    &&& final(store)@ == noted(
                        old(store)@,
                        stamp,
                        "quick_analyze: ollama not reachable: "@ + reason@,
                    )
                },
            },
    {
        match probe {
            Ok(_) => AnalysisStep::Gather(
                PendingGather { token: self.token, payload: self.payload },
            ),
            Err(reason) => {
                let line = append("quick_analyze: ollama not reachable: ", reason.as_str());
                store.push_log(stamp, line.as_str());
                self.token.release(flag);
                AnalysisStep::Done(Err(reason))
            },
        }
    }

    /// Gives the flag back without going on.
    pub fn abandon(self, flag: &mut AnalysisBusyFlag)
        ensures
            final(flag).state() == FlightState::Idle,
    {
        self.token.release(flag);
    }
}

impl PendingGather {
    /// The payload under analysis.
    pub closed spec fn payload(&self) -> PayloadView {
        self.payload@
    }

    /// The paths of the payload, in order.
    pub fn paths(&self) -> (paths: &Vec<String>)
        ensures
            paths.deep_view() == self.payload().context.paths(),
    {
        self.payload.context.paths()
    }

    /// What to obtain for each path.
    pub fn plan(&self) -> (plan: Vec<Need>)
        ensures
            plan@ == analysis_needs(self.payload().context, standard_analysis_limits()),
    {
        analysis_plan(&self.payload)
    }

    /// Takes what was obtained for each path. A file that cannot be turned
    /// into text ends the analysis: the failure is logged and the flag given
    /// back. Otherwise what was prepared is logged, and the prompt made from
    /// it is to be sent.
    pub fn answer(
        self,
        supplied: Vec<Supplied>,
        flag: &mut AnalysisBusyFlag,
        store: &mut PayloadStore,
        stamp: u64,
    ) -> (next: AnalysisStep)
        ensures
            match prepared(
                self.payload().context,
                supplied_views(supplied@),
                standard_analysis_limits(),
            ) {
                Ok(source) => {
                    &&& next matches AnalysisStep::Ask(pending) && pending.prompt_text()
                        == analysis_prompt_text(source)
                    &&& final(flag).state() == old(flag).state()
                    &&& final(store)@ == noted(
                        noted(old(store)@, stamp, prepared_line(source)),
                        stamp,
                        "quick_analyze: querying ollama"@,
                    )
                },
                Err(error) => {
                    &&& next matches AnalysisStep::Done(Err(text)) && text@ == extraction_text(
                        error,
                    )
                    &&& final(flag).state() == FlightState::Idle
                    &&& final(store)@ == noted(
                        old(store)@,
                        stamp,
                        "quick_analyze: prepare_analysis failed: "@ + extraction_text(error),
                    )
                },
            },
    {
        match prepare_analysis(self.payload, supplied) {
            Ok(source) => {
                store.push_log(stamp, describe_prepared(&source).as_str());
                let prompt = analysis_prompt(&source);
                store.push_log(stamp, "quick_analyze: querying ollama");
                AnalysisStep::Ask(PendingReply { token: self.token, prompt })
            },
            Err(error) => {
                let text = error.message();
                let line = append("quick_analyze: prepare_analysis failed: ", text.as_str());
                store.push_log(stamp, line.as_str());
                self.token.release(flag);
                AnalysisStep::Done(Err(text))
            },
        }
    }

    /// Gives the flag back without going on.
    pub fn abandon(self, flag: &mut AnalysisBusyFlag)
        ensures
            final(flag).state() == FlightState::Idle,
    {
        self.token.release(flag);
    }
}

impl PendingReply {
    /// The prompt to send.
    pub closed spec fn prompt_text(&self) -> Seq<char> {
        self.prompt@
    }

    /// The prompt to send.
    pub fn prompt(&self) -> (prompt: &str)
        ensures
            prompt@ == self.prompt_text(),
    {
        self.prompt.as_str()
    }

    /// Takes the answer of the service, or the failure with its causes,
    /// outermost first. Either way the analysis ends: the outcome is logged
    /// and the flag given back.
    pub fn answer(
        self,
        reply: Result<String, Vec<String>>,
        flag: &mut AnalysisBusyFlag,
        store: &mut PayloadStore,
        stamp: u64,
    ) -> (next: AnalysisStep)
        ensures
            final(flag).state() == FlightState::Idle,
            match reply {
                Ok(answer) => {
                    &&& next matches AnalysisStep::Done(Ok(text)) && text@ == answer@
                    &&& final(store)@ == noted(old(store)@, stamp, "quick_analyze: success"@)
                },
                Err(chain) => {
                    &&& next matches AnalysisStep::Done(Err(text)) && text@ == chain_text(
                        chain.deep_view(),
                    )
                    &&& final(store)@ == noted(
                        old(store)@,
                        stamp,
                        "quick_analyze: error: "@ + chain_text(chain.deep_view()),
                    )
                },
            },
    {
        let outcome = match reply {
            Ok(answer) => {
                store.push_log(stamp, "quick_analyze: success");
                Ok(answer)
            },
            Err(chain) => {
                let text = chain_message(&chain);
                store.push_log(stamp, append("quick_analyze: error: ", text.as_str()).as_str());
                Err(text)
            },
        };
        self.token.release(flag);
        AnalysisStep::Done(outcome)
    }

    /// Gives the flag back without going on.
    pub fn abandon(self, flag: &mut AnalysisBusyFlag)
        ensures
            final(flag).state() == FlightState::Idle,
    {
        self.token.release(flag);
    }
}

} // verus!
