//! The script that the calling assistant is given for a prospect.

use vstd::prelude::*;
use vstd::string::StringExecFns;
use crate::models::{CallRequest, CallRequestView};

verus! {

/// What stands for a persona that the request does not name.
pub open spec fn unknown_persona() -> Seq<char> {
    "Unknown persona"@
}

/// What stands for a pain point that the request does not name.
pub open spec fn unspecified_pain() -> Seq<char> {
    "Not specified"@
}

/// The goals, the style and the closing checklist, which are the same for
/// every prospect.
pub open spec fn prompt_playbook() -> Seq<char> {
    "\n\nYour goal:\n1) Confirm you’re speaking to the right person and their role.\n2) Qualify interest and urgency.\n3) If qualified, propose a short meeting and secure a verbal commitment.\n\nStyle:\n- Crisp, friendly, confident.\n- Ask short questions.\n- If they object, handle objections calmly.\n- Do not be overly pushy.\n- End with a clear next step.\n\nAt the end of the call, ensure you have enough info to produce:\n- intent_score (0-100)\n- qualification summary (2-5 bullets)\n- next_step (specific)\n"@
}

/// The prompt for a request: who is called, the context, then the playbook.
pub open spec fn sdr_prompt(req: CallRequestView) -> Seq<char> {
    "You are a Voice-First AI SDR calling "@ + req.name + " at "@ + req.company
        + ".\n\nContext (from Valley intent signals):\n- Signal: "@ + req.signal
        + "\n- Persona: "@ + (match req.persona {
        Some(p) => p,
        None => unknown_persona(),
    }) + "\n- Likely pain point: "@ + (match req.pain_point {
        Some(p) => p,
        None => unspecified_pain(),
    }) + prompt_playbook()
}

/// Writes the prompt for a request.
pub fn build_sdr_prompt(req: &CallRequest) -> (prompt: String)
    ensures
        prompt@ == sdr_prompt(req@),
{
    let mut prompt = "You are a Voice-First AI SDR calling ".to_owned();
    prompt.append(req.name.as_str());
    prompt.append(" at ");
    prompt.append(req.company.as_str());
    prompt.append(".\n\nContext (from Valley intent signals):\n- Signal: ");
    prompt.append(req.signal.as_str());
    prompt.append("\n- Persona: ");
    match &req.persona {
        Some(p) => prompt.append(p.as_str()),
        None => prompt.append("Unknown persona"),
    }
    prompt.append("\n- Likely pain point: ");
    match &req.pain_point {
        Some(p) => prompt.append(p.as_str()),
        None => prompt.append("Not specified"),
    }
    prompt.append(
        "\n\nYour goal:\n1) Confirm you’re speaking to the right person and their role.\n2) Qualify interest and urgency.\n3) If qualified, propose a short meeting and secure a verbal commitment.\n\nStyle:\n- Crisp, friendly, confident.\n- Ask short questions.\n- If they object, handle objections calmly.\n- Do not be overly pushy.\n- End with a clear next step.\n\nAt the end of the call, ensure you have enough info to produce:\n- intent_score (0-100)\n- qualification summary (2-5 bullets)\n- next_step (specific)\n",
    );
    prompt
}

} // verus!
