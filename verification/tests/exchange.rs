use imalink_desktop::exchange::{
    can_cut, health_report, read_failure, response_start, Decoder, JsonReply, Verdict,
    START_LIMIT,
};
use imalink_desktop::request::Command;
use imalink_desktop::status::HttpStatus;

fn status(code: u16) -> HttpStatus {
    match HttpStatus::new(code) {
        Some(status) => status,
        None => panic!("{} is no status code", code),
    }
}

fn all_commands() -> Vec<Command> {
    vec![
        Command::ProcessImage,
        Command::ListChannels,
        Command::CreateChannel,
        Command::UploadPhoto,
        Command::Login,
        Command::Register,
        Command::Logout,
        Command::ValidateToken,
        Command::CheckHealth,
    ]
}

#[test]
fn success_is_followed_by_the_commands_own_step() {
    assert_eq!(Command::ProcessImage.judge(status(200)), Verdict::Decode(Decoder::PhotoSchema));
    assert_eq!(Command::ListChannels.judge(status(200)), Verdict::Decode(Decoder::ChannelList));
    assert_eq!(Command::CreateChannel.judge(status(201)), Verdict::Decode(Decoder::Channel));
    assert_eq!(
        Command::UploadPhoto.judge(status(201)),
        Verdict::Decode(Decoder::Photo { duplicate: false })
    );
    assert_eq!(Command::Login.judge(status(200)), Verdict::DecodeJson(JsonReply::Login));
    assert_eq!(Command::Register.judge(status(201)), Verdict::DecodeJson(JsonReply::Registration));
    assert_eq!(Command::ValidateToken.judge(status(200)), Verdict::DecodeJson(JsonReply::User));
    assert_eq!(Command::Logout.judge(status(204)), Verdict::Accept);
    assert_eq!(Command::CheckHealth.judge(status(200)), Verdict::Report);
}

#[test]
fn conflict_on_upload_is_a_duplicate() {
    assert_eq!(
        Command::UploadPhoto.judge(status(409)),
        Verdict::Decode(Decoder::Photo { duplicate: true })
    );
}

#[test]
fn conflict_elsewhere_is_a_failure() {
    assert_eq!(Command::CreateChannel.judge(status(409)), Verdict::Reject { read_text: true });
    assert_eq!(Command::Register.judge(status(409)), Verdict::Reject { read_text: true });
    assert_eq!(Command::ProcessImage.judge(status(409)), Verdict::Reject { read_text: false });
}

#[test]
fn failure_reads_the_body_only_where_the_message_quotes_it() {
    assert_eq!(Command::ProcessImage.judge(status(500)), Verdict::Reject { read_text: false });
    assert_eq!(Command::ListChannels.judge(status(500)), Verdict::Reject { read_text: true });
    assert_eq!(Command::CreateChannel.judge(status(400)), Verdict::Reject { read_text: true });
    assert_eq!(Command::UploadPhoto.judge(status(422)), Verdict::Reject { read_text: true });
    assert_eq!(Command::Login.judge(status(401)), Verdict::Reject { read_text: true });
    assert_eq!(Command::Register.judge(status(400)), Verdict::Reject { read_text: true });
    assert_eq!(Command::Logout.judge(status(401)), Verdict::Reject { read_text: true });
    assert_eq!(Command::ValidateToken.judge(status(401)), Verdict::Reject { read_text: false });
    assert_eq!(Command::CheckHealth.judge(status(503)), Verdict::Reject { read_text: false });
}

#[test]
fn every_code_outside_the_two_hundreds_is_rejected_but_for_the_upload_conflict() {
    for command in all_commands() {
        let mut code: u16 = 100;
        while code <= 999 {
            let rejected = matches!(command.judge(status(code)), Verdict::Reject { .. });
            let welcome = (200..300).contains(&code)
                || (command == Command::UploadPhoto && code == 409);
            assert_eq!(rejected, !welcome);
            code += 1;
        }
    }
}

#[test]
fn redirects_and_informational_codes_are_failures() {
    assert_eq!(Command::Login.judge(status(100)), Verdict::Reject { read_text: true });
    assert_eq!(Command::Login.judge(status(199)), Verdict::Reject { read_text: true });
    assert_eq!(Command::Login.judge(status(300)), Verdict::Reject { read_text: true });
    assert_eq!(Command::Login.judge(status(302)), Verdict::Reject { read_text: true });
    assert_eq!(Command::Login.judge(status(299)), Verdict::DecodeJson(JsonReply::Login));
}

#[test]
fn send_failure_names_what_could_not_be_reached() {
    let e = "connection refused";
    assert_eq!(
        Command::ProcessImage.send_failure("http://localhost:8765", e),
        "Failed to send request to core API: connection refused"
    );
    for command in vec![Command::ListChannels, Command::CreateChannel, Command::UploadPhoto] {
        assert_eq!(
            command.send_failure("https://b", e),
            "Failed to send request to backend: connection refused"
        );
    }
    for command in
        vec![Command::Login, Command::Register, Command::Logout, Command::ValidateToken]
    {
        assert_eq!(
            command.send_failure("https://b", e),
            "Failed to connect to server: connection refused"
        );
    }
    assert_eq!(
        Command::CheckHealth.send_failure("http://localhost:8765", e),
        "Cannot connect to imalink-core at http://localhost:8765: connection refused"
    );
}

#[test]
fn rejection_of_the_sidecar_commands_gives_the_status_only() {
    assert_eq!(
        Command::ProcessImage.rejection(status(500), "ignored"),
        "Core API returned error: 500 Internal Server Error"
    );
    assert_eq!(
        Command::CheckHealth.rejection(status(503), "ignored"),
        "Health check failed with status: 503 Service Unavailable"
    );
}

#[test]
fn rejection_of_the_backend_commands_quotes_the_body() {
    for command in vec![Command::ListChannels, Command::CreateChannel, Command::UploadPhoto] {
        assert_eq!(
            command.rejection(status(403), "{\"detail\":\"no\"}"),
            "Backend returned error 403 Forbidden: {\"detail\":\"no\"}"
        );
        assert_eq!(command.rejection(status(500), ""), "Backend returned error 500 Internal Server Error: ");
    }
}

#[test]
fn rejection_of_login_falls_back_to_invalid_credentials() {
    assert_eq!(
        Command::Login.rejection(status(401), ""),
        "Login failed (401 Unauthorized): Invalid credentials"
    );
    assert_eq!(
        Command::Login.rejection(status(401), "locked"),
        "Login failed (401 Unauthorized): locked"
    );
}

#[test]
fn rejection_of_register_falls_back_to_registration_error() {
    assert_eq!(
        Command::Register.rejection(status(400), ""),
        "Registration failed (400 Bad Request): Registration error"
    );
    assert_eq!(
        Command::Register.rejection(status(409), "taken"),
        "Registration failed (409 Conflict): taken"
    );
}

#[test]
fn rejection_of_logout_and_token_validation() {
    assert_eq!(Command::Logout.rejection(status(401), "gone"), "Logout failed (401 Unauthorized): gone");
    assert_eq!(Command::Logout.rejection(status(401), ""), "Logout failed (401 Unauthorized): ");
    assert_eq!(
        Command::ValidateToken.rejection(status(401), "ignored"),
        "Token validation failed: 401 Unauthorized"
    );
}

#[test]
fn rejection_message_takes_the_status_as_text() {
    assert_eq!(
        Command::Login.rejection_message("418 I'm a teapot", ""),
        "Login failed (418 I'm a teapot): Invalid credentials"
    );
    assert_eq!(Command::ValidateToken.rejection_message("", ""), "Token validation failed: ");
}

#[test]
fn read_failure_message() {
    assert_eq!(read_failure("timed out"), "Failed to read response: timed out");
    assert_eq!(read_failure(""), "Failed to read response: ");
}

#[test]
fn health_report_wraps_the_body() {
    assert_eq!(health_report("{\"status\":\"ok\"}"), "✓ imalink-core is running ({\"status\":\"ok\"})");
    assert_eq!(health_report(""), "✓ imalink-core is running ()");
}

#[test]
fn decoding_failures_quote_the_body() {
    assert_eq!(
        Decoder::ChannelList.failure("expected value", "<html>"),
        "Failed to parse response: expected value | Response was: <html>"
    );
    assert_eq!(
        Decoder::Channel.failure("expected value", "<html>"),
        "Failed to parse response: expected value | Response was: <html>"
    );
    assert_eq!(
        Decoder::Photo { duplicate: false }.failure("eof", ""),
        "Failed to parse response: eof | Response was: "
    );
    assert_eq!(
        Decoder::Photo { duplicate: true }.failure("eof", "{"),
        "Failed to parse duplicate response: eof | Response was: {"
    );
    assert_eq!(
        Decoder::PhotoSchema.failure("eof", "{"),
        "Failed to parse PhotoCreateSchema response: eof | Response start: {"
    );
}

#[test]
fn json_failures_name_the_reply() {
    assert_eq!(JsonReply::Login.failure("eof"), "Failed to parse login response: eof");
    assert_eq!(JsonReply::Registration.failure("eof"), "Failed to parse registration response: eof");
    assert_eq!(JsonReply::User.failure("eof"), "Failed to parse user response: eof");
}

#[test]
fn only_the_conflict_decoder_forces_a_duplicate() {
    assert!(Decoder::Photo { duplicate: true }.forces_duplicate());
    assert!(!Decoder::Photo { duplicate: false }.forces_duplicate());
    assert!(!Decoder::PhotoSchema.forces_duplicate());
    assert!(!Decoder::ChannelList.forces_duplicate());
    assert!(!Decoder::Channel.forces_duplicate());
}

#[test]
fn response_start_keeps_a_short_body_whole() {
    assert_eq!(START_LIMIT, 500);
    assert_eq!(response_start(""), "");
    assert_eq!(response_start("short"), "short");
    let exactly = "a".repeat(500);
    assert!(can_cut(&exactly));
    assert_eq!(response_start(&exactly), exactly);
}

#[test]
fn response_start_cuts_a_long_body_after_500_bytes() {
    let body = format!("{}{}", "a".repeat(500), "b".repeat(100));
    assert!(can_cut(&body));
    assert_eq!(response_start(&body), "a".repeat(500));
    let body = "x".repeat(501);
    assert_eq!(response_start(&body).len(), 500);
}

#[test]
fn response_start_counts_bytes_not_characters() {
    // 'é' takes two bytes: 498 + 2 = 500, so the cut falls behind it.
    let body = format!("{}é{}", "a".repeat(498), "b".repeat(10));
    assert!(can_cut(&body));
    assert_eq!(response_start(&body), format!("{}é", "a".repeat(498)));
    assert_eq!(response_start(&body).chars().count(), 499);
}

#[test]
fn a_cut_inside_a_character_is_refused() {
    // 'é' takes bytes 499 and 500: the cut would split it.
    let body = format!("{}é{}", "a".repeat(499), "b".repeat(10));
    assert!(!can_cut(&body));
    assert_eq!(Decoder::PhotoSchema.try_failure("eof", &body), None);
    // The other decoders quote the whole body and do not cut.
    assert_eq!(
        Decoder::Channel.try_failure("eof", &body),
        Some(format!("Failed to parse response: eof | Response was: {}", body))
    );
}

#[test]
fn try_failure_agrees_with_failure_where_the_body_can_be_cut() {
    let body = format!("{}{}", "a".repeat(500), "tail");
    assert_eq!(
        Decoder::PhotoSchema.try_failure("eof", &body),
        Some(format!(
            "Failed to parse PhotoCreateSchema response: eof | Response start: {}",
            "a".repeat(500)
        ))
    );
    assert_eq!(
        Decoder::PhotoSchema.try_failure("eof", &body),
        Some(Decoder::PhotoSchema.failure("eof", &body))
    );
}
