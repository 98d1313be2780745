use voice_sdr::models::CallRequest;
use voice_sdr::prompt::build_sdr_prompt;

const PLAYBOOK: &str = "\n\nYour goal:\n1) Confirm you’re speaking to the right person and their role.\n2) Qualify interest and urgency.\n3) If qualified, propose a short meeting and secure a verbal commitment.\n\nStyle:\n- Crisp, friendly, confident.\n- Ask short questions.\n- If they object, handle objections calmly.\n- Do not be overly pushy.\n- End with a clear next step.\n\nAt the end of the call, ensure you have enough info to produce:\n- intent_score (0-100)\n- qualification summary (2-5 bullets)\n- next_step (specific)\n";

fn request(pain_point: Option<&str>, persona: Option<&str>) -> CallRequest {
    CallRequest {
        name: "Ada".to_string(),
        company: "Engines Ltd".to_string(),
        phone: "+15550100".to_string(),
        signal: "posted about hiring SDRs".to_string(),
        pain_point: pain_point.map(|s| s.to_string()),
        persona: persona.map(|s| s.to_string()),
    }
}

#[test]
fn prompt_with_all_fields() {
    let prompt = build_sdr_prompt(&request(Some("slow outbound"), Some("VP Sales")));
    let expected = format!(
        "You are a Voice-First AI SDR calling Ada at Engines Ltd.\n\nContext (from Valley intent signals):\n- Signal: posted about hiring SDRs\n- Persona: VP Sales\n- Likely pain point: slow outbound{}",
        PLAYBOOK
    );
    assert_eq!(prompt, expected);
}

#[test]
fn prompt_fills_in_what_is_missing() {
    let prompt = build_sdr_prompt(&request(None, None));
    let expected = format!(
        "You are a Voice-First AI SDR calling Ada at Engines Ltd.\n\nContext (from Valley intent signals):\n- Signal: posted about hiring SDRs\n- Persona: Unknown persona\n- Likely pain point: Not specified{}",
        PLAYBOOK
    );
    assert_eq!(prompt, expected);
}

#[test]
fn prompt_takes_texts_as_they_are() {
    let mut req = request(Some(""), None);
    req.name = "Zoë {name}".to_string();
    let prompt = build_sdr_prompt(&req);
    assert!(prompt.starts_with("You are a Voice-First AI SDR calling Zoë {name} at Engines Ltd."));
    assert!(prompt.contains("- Likely pain point: \n\nYour goal:"));
    assert!(prompt.ends_with("- next_step (specific)\n"));
}
