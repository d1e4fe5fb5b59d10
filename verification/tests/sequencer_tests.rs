use jobber_export::config::ExportConfig;
use jobber_export::decoder::{decode, RemoteErrorPayload};
use jobber_export::sequencer::{
    after_report_fetch, after_token_exchange, begin_export, call_succeeded, failure_message_for,
    after_call, payload_of_call, report_fetch_step, token_exchange_step, CallResult,
    ExportOutcome, ExportStage, ExportStep, HttpRequest,
};
use jobber_export::shell::{after_export, start_export, ShellAction};

fn config() -> ExportConfig {
    ExportConfig::new(
        "https://oauth.example".to_string(),
        "https://report.example/run".to_string(),
        "client-1".to_string(),
        "https://app.example/".to_string(),
    )
}

fn response(status: u16, body: &str) -> CallResult {
    CallResult::Response { status, body: body.to_string() }
}

fn post(stage: ExportStage, url: &str) -> ExportStep {
    ExportStep::Send {
        stage,
        request: HttpRequest {
            method: "POST".to_string(),
            url: url.to_string(),
            content_type: "text/plain".to_string(),
            body: String::new(),
        },
    }
}

fn failure(message: &str, reset_view: bool) -> ExportStep {
    ExportStep::Finish { outcome: ExportOutcome::Failure(message.to_string()), reset_view }
}

const PAYLOAD: &str = "{\"errorMessage\":\"bad code\",\"errorType\":\"AuthError\"}";

#[test]
fn config_builds_the_three_addresses() {
    let c = config();
    assert_eq!(
        c.authorize_url(),
        "https://api.getjobber.com/api/oauth/authorize?response_type=code&client_id=client-1&redirect_uri=https://app.example/&state="
    );
    assert_eq!(
        c.token_exchange_url("abc"),
        "https://oauth.example/?code=abc&client_id=client-1&redirect_uri=https://app.example/&state="
    );
    assert_eq!(
        c.report_url("abc", "31.01.2024", "01.01.2024"),
        "https://report.example/run?code=abc&before=31.01.2024&after=01.01.2024"
    );
    assert_eq!(c.report_url("", "", ""), "https://report.example/run?code=&before=&after=");
}

#[test]
fn config_needs_all_four_parts() {
    let s = |t: &str| Some(t.to_string());
    assert_eq!(
        ExportConfig::from_parts(s("a"), s("b"), s("c"), s("d")),
        Some(ExportConfig::new(
            "a".to_string(),
            "b".to_string(),
            "c".to_string(),
            "d".to_string()
        ))
    );
    assert_eq!(ExportConfig::from_parts(None, s("b"), s("c"), s("d")), None);
    assert_eq!(ExportConfig::from_parts(s("a"), None, s("c"), s("d")), None);
    assert_eq!(ExportConfig::from_parts(s("a"), s("b"), None, s("d")), None);
    assert_eq!(ExportConfig::from_parts(s("a"), s("b"), s("c"), None), None);
    assert_eq!(ExportConfig::from_parts(None, None, None, None), None);
}

#[test]
fn export_begins_with_the_token_exchange() {
    assert_eq!(
        begin_export(&config(), "abc"),
        post(
            ExportStage::TokenExchange,
            "https://oauth.example/?code=abc&client_id=client-1&redirect_uri=https://app.example/&state="
        )
    );
}

#[test]
fn token_exchange_success_leads_to_the_report_request() {
    for body in ["", "ignored", PAYLOAD] {
        assert_eq!(
            after_token_exchange(&config(), "abc", "02.02.2024", "01.02.2024", response(200, body)),
            post(
                ExportStage::ReportFetch,
                "https://report.example/run?code=abc&before=02.02.2024&after=01.02.2024"
            )
        );
    }
}

#[test]
fn two_successes_download_the_second_body() {
    let c = config();
    let first = start_export(&c, "abc").unwrap();
    assert!(matches!(first, ExportStep::Send { .. }));
    let second = after_token_exchange(&c, "abc", "", "", response(200, "anything"));
    assert!(matches!(second, ExportStep::Send { .. }));
    let last = after_report_fetch(response(200, "h1,h2\n1,2"));
    assert_eq!(
        last,
        ExportStep::Finish {
            outcome: ExportOutcome::Success("h1,h2\n1,2".to_string()),
            reset_view: false
        }
    );
    match last {
        ExportStep::Finish { outcome, reset_view } => assert_eq!(
            after_export(outcome, reset_view),
            ShellAction::Download {
                content: "h1,h2\n1,2".to_string(),
                filename: "output.csv".to_string()
            }
        ),
        ExportStep::Send { .. } => panic!("the report fetch ends the export"),
    }
}

#[test]
fn a_rejected_code_surfaces_the_remote_message() {
    let c = config();
    let step = after_token_exchange(&c, "abc", "", "", response(403, PAYLOAD));
    assert_eq!(step, failure("bad code", false));
    match step {
        ExportStep::Finish { outcome, reset_view } => assert_eq!(
            after_export(outcome, reset_view),
            ShellAction::Notify { message: "bad code".to_string(), reset_view: false }
        ),
        ExportStep::Send { .. } => panic!("a rejected code ends the export"),
    }
}

#[test]
fn first_failure_carries_the_decoded_body() {
    let c = config();
    for status in [0u16, 199, 201, 204, 301, 400, 403, 404, 500, 503] {
        for body in ["", "boom", PAYLOAD, "{\"errorMessage\":1}"] {
            match after_token_exchange(&c, "abc", "b", "a", response(status, body)) {
                ExportStep::Finish { outcome, .. } => {
                    assert_eq!(outcome, ExportOutcome::Failure(decode(body)))
                }
                ExportStep::Send { .. } => panic!("status {} is a failure", status),
            }
        }
    }
}

#[test]
fn first_failure_resets_the_view_unless_a_payload_was_decoded() {
    let c = config();
    assert_eq!(
        after_token_exchange(&c, "abc", "", "", response(500, "boom")),
        failure("Error: boom", true)
    );
    assert_eq!(
        after_token_exchange(&c, "abc", "", "", response(500, PAYLOAD)),
        failure("bad code", false)
    );
}

#[test]
fn report_failure_always_resets_the_view() {
    assert_eq!(after_report_fetch(response(500, "boom")), failure("Error: boom", true));
    assert_eq!(after_report_fetch(response(403, PAYLOAD)), failure("bad code", true));
    assert_eq!(after_report_fetch(response(201, "h1,h2")), failure("Error: h1,h2", true));
}

#[test]
fn report_success_passes_the_body_through() {
    for body in ["", "h1,h2\n1,2", PAYLOAD, "Error: x"] {
        assert_eq!(
            after_report_fetch(response(200, body)),
            ExportStep::Finish {
                outcome: ExportOutcome::Success(body.to_string()),
                reset_view: false
            }
        );
    }
}

#[test]
fn transport_failures_name_their_cause() {
    let c = config();
    assert_eq!(
        after_token_exchange(&c, "abc", "", "", CallResult::BuildFailed("bad url".to_string())),
        failure("Failed to build request: bad url", true)
    );
    assert_eq!(
        after_token_exchange(&c, "abc", "", "", CallResult::SendFailed("offline".to_string())),
        failure("Failed to execute (send) request: offline", true)
    );
    assert_eq!(
        after_token_exchange(&c, "abc", "", "", CallResult::ReadFailed("not text".to_string())),
        failure("Failed to read response: not text", true)
    );
    assert_eq!(
        after_report_fetch(CallResult::BuildFailed("bad url".to_string())),
        failure("Failed to build request: bad url", true)
    );
    assert_eq!(
        after_report_fetch(CallResult::SendFailed("offline".to_string())),
        failure("Failed to execute (send) request: offline", true)
    );
    assert_eq!(
        after_report_fetch(CallResult::ReadFailed(PAYLOAD.to_string())),
        failure(&format!("Failed to read response: {}", PAYLOAD), true)
    );
}

#[test]
fn steps_follow_the_payload_they_are_given() {
    let c = config();
    let payload =
        RemoteErrorPayload { error_message: "m".to_string(), error_type: "t".to_string() };
    assert_eq!(
        token_exchange_step(&c, "abc", "", "", response(500, "raw"), Some(payload.clone())),
        failure("m", false)
    );
    assert_eq!(
        token_exchange_step(&c, "abc", "", "", response(500, "raw"), None),
        failure("Error: raw", true)
    );
    assert_eq!(
        token_exchange_step(
            &c,
            "abc",
            "",
            "",
            CallResult::SendFailed("e".to_string()),
            Some(payload.clone())
        ),
        failure("Failed to execute (send) request: e", true)
    );
    assert_eq!(
        token_exchange_step(&c, "abc", "b", "a", response(200, "raw"), Some(payload.clone())),
        post(ExportStage::ReportFetch, "https://report.example/run?code=abc&before=b&after=a")
    );
    assert_eq!(report_fetch_step(response(500, "raw"), Some(payload.clone())), failure("m", true));
    assert_eq!(report_fetch_step(response(500, "raw"), None), failure("Error: raw", true));
    assert_eq!(
        report_fetch_step(response(200, "raw"), Some(payload)),
        ExportStep::Finish { outcome: ExportOutcome::Success("raw".to_string()), reset_view: false }
    );
}

#[test]
fn only_status_200_is_success() {
    assert!(call_succeeded(&response(200, "")));
    assert!(!call_succeeded(&response(201, "")));
    assert!(!call_succeeded(&response(0, "")));
    assert!(!call_succeeded(&CallResult::BuildFailed(String::new())));
    assert!(!call_succeeded(&CallResult::SendFailed(String::new())));
    assert!(!call_succeeded(&CallResult::ReadFailed(String::new())));
}

#[test]
fn payload_is_read_from_responses_only() {
    assert_eq!(
        payload_of_call(&response(403, PAYLOAD)),
        Some(RemoteErrorPayload {
            error_message: "bad code".to_string(),
            error_type: "AuthError".to_string()
        })
    );
    assert_eq!(payload_of_call(&response(403, "boom")), None);
    assert_eq!(payload_of_call(&CallResult::ReadFailed(PAYLOAD.to_string())), None);
}

#[test]
fn failure_message_for_each_kind_of_call() {
    assert_eq!(
        failure_message_for(CallResult::BuildFailed("x".to_string()), None),
        "Failed to build request: x"
    );
    assert_eq!(failure_message_for(response(404, "gone"), None), "Error: gone");
}

#[test]
fn an_export_makes_at_most_two_calls() {
    let c = config();
    let calls = [
        response(200, "ok"),
        response(500, "boom"),
        response(403, PAYLOAD),
        CallResult::BuildFailed("e".to_string()),
        CallResult::SendFailed("e".to_string()),
        CallResult::ReadFailed("e".to_string()),
    ];
    for call in calls {
        assert_eq!(
            after_call(ExportStage::TokenExchange, &c, "abc", "b", "a", call.clone()),
            after_token_exchange(&c, "abc", "b", "a", call.clone())
        );
        let last = after_call(ExportStage::ReportFetch, &c, "abc", "b", "a", call.clone());
        assert_eq!(last, after_report_fetch(call));
        assert!(matches!(last, ExportStep::Finish { .. }));
    }
}

#[test]
fn a_whole_export_driven_by_its_stages() {
    let c = config();
    let mut replies = vec![response(200, "h1,h2\n1,2"), response(200, "")];
    let mut step = begin_export(&c, "abc");
    let mut sent = Vec::new();
    let outcome = loop {
        match step {
            ExportStep::Send { stage, request } => {
                sent.push(request.url);
                step = after_call(stage, &c, "abc", "31.01.2024", "01.01.2024", replies.pop().unwrap());
            }
            ExportStep::Finish { outcome, .. } => break outcome,
        }
    };
    assert_eq!(outcome, ExportOutcome::Success("h1,h2\n1,2".to_string()));
    assert_eq!(
        sent,
        vec![
            "https://oauth.example/?code=abc&client_id=client-1&redirect_uri=https://app.example/&state="
                .to_string(),
            "https://report.example/run?code=abc&before=31.01.2024&after=01.01.2024".to_string(),
        ]
    );
}
