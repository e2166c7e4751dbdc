use ark_cluster::rcon::{
    absorb_response, ark_feedback_for_decision, auth_packet, auth_reply, command_packet, decode_packet, encode_packet,
    feedback_history_detail, feedback_result_label, home_standby_allowed, idle_policy_update,
    is_ignorable_game_log_line, on_read_timeout, parse_chat_line, parse_detected_command, parse_players,
    poll_result_from, sanitize_chat_message, sanitize_error, token_value, AuthReply, IdlePolicyDecision, PollResult,
    RconError, RconPacket, RconRuntimeState, RCON_AUTH_RESPONSE, RCON_EXECCOMMAND, RCON_RESPONSE_VALUE,
};
use ark_cluster::travel::TravelDecision;

#[test]
fn packet_round_trips() {
    let packet = RconPacket { id: 42, packet_type: RCON_EXECCOMMAND, body: "ListPlayers".into() };
    let encoded = encode_packet(&packet);
    let decoded = decode_packet(&encoded).unwrap();
    assert_eq!(decoded, packet);
}

#[test]
fn malformed_packet_rejected() {
    assert!(decode_packet(&[1, 2, 3]).is_err());
}

#[test]
fn encoded_packet_has_size_and_terminators() {
    let packet = RconPacket { id: 1, packet_type: 3, body: "pw".into() };
    let bytes = encode_packet(&packet);
    assert_eq!(bytes, vec![12, 0, 0, 0, 1, 0, 0, 0, 3, 0, 0, 0, b'p', b'w', 0, 0]);
}

#[test]
fn decode_reports_each_malformation() {
    let msg = |b: &[u8]| match decode_packet(b) {
        Err(RconError::Malformed(m)) => m,
        other => panic!("unexpected {:?}", other),
    };
    assert_eq!(msg(&[1, 2, 3]), "packet too short");
    assert_eq!(msg(&[9, 0, 0, 0, 1, 0, 0, 0, 0, 0, 0, 0, 0, 0]), "invalid size 9");
    assert_eq!(msg(&[11, 0, 0, 0, 1, 0, 0, 0, 0, 0, 0, 0, 0, 0]), "size does not match body");
    assert_eq!(msg(&[10, 0, 0, 0, 1, 0, 0, 0, 0, 0, 0, 0, 1, 0]), "missing null terminators");
}

#[test]
fn invalid_utf8_body_is_replaced() {
    let bytes = vec![11, 0, 0, 0, 7, 0, 0, 0, 0, 0, 0, 0, 0xff, 0, 0];
    let p = decode_packet(&bytes).unwrap();
    assert_eq!(p.id, 7);
    assert_eq!(p.body, "\u{fffd}");
}

#[test]
fn parses_travel_command_with_multi_word_map() {
    let parsed = parse_detected_command("  [Global] Marcel: !travel the island ").unwrap();
    assert_eq!(parsed.command, "travel");
    assert_eq!(parsed.argument, "the island");
    assert_eq!(parsed.mode, "live_chat");
}

#[test]
fn travel_command_needs_a_word_boundary_and_argument() {
    assert!(parse_detected_command("!travelling now").is_none());
    assert!(parse_detected_command("!travel  ").is_none());
    assert_eq!(parse_detected_command("!travel \"gen2\"!").unwrap().argument, "gen2");
}

#[test]
fn parses_chat_actor_examples() {
    let parsed = parse_chat_line("[Global] PlayerName: !travel fjordur");
    assert_eq!(parsed.player, "PlayerName");
    assert_eq!(parsed.detected_command.unwrap().argument, "fjordur");

    let parsed = parse_chat_line("TribeName(Tribe): !travel genesis 2");
    assert_eq!(parsed.player, "TribeName(Tribe)");
    assert_eq!(parsed.detected_command.unwrap().argument, "genesis 2");

    let parsed = parse_chat_line("Człowiek: !travel gen1");
    assert_eq!(parsed.player, "Człowiek");
    assert_eq!(parsed.detected_command.unwrap().argument, "gen1");

    let parsed = parse_chat_line("Człowiek(PLEMIE):  !travel   gen1");
    assert_eq!(parsed.player, "Człowiek(PLEMIE)");
    assert_eq!(parsed.detected_command.unwrap().argument, "gen1");

    let parsed = parse_chat_line("[Lokalny] Człowiek(PLEMIE):  !TrAvEl   fjord");
    assert_eq!(parsed.player, "Człowiek(PLEMIE)");
    assert_eq!(parsed.detected_command.unwrap().argument, "fjord");
}

#[test]
fn plain_chat_line_keeps_trimmed_message() {
    let parsed = parse_chat_line("  hello there  ");
    assert_eq!(parsed.player, "");
    assert_eq!(parsed.message, "hello there");
    assert!(parsed.detected_command.is_none());
}

#[test]
fn parses_player_list_lines() {
    assert_eq!(parse_players("1. Marcel, 76561198000000000\n2. Nyx\n"), vec!["Marcel".to_string(), "Nyx".to_string()]);
    assert!(parse_players("No Players Connected").is_empty());
}

#[test]
fn duplicate_chat_line_is_ignored() {
    let mut runtime = RconRuntimeState::new();
    assert!(runtime.push_chat_line("home", "log_tail", "Player: !travel fjordur", 100).is_some());
    assert!(runtime.push_chat_line("home", "log_tail", "Player: !travel fjordur", 101).is_none());
}

#[test]
fn chat_lines_are_kept_with_ids() {
    let mut runtime = RconRuntimeState::new();
    assert!(runtime.push_chat_line("home", "rcon_gamelog", "hello", 7).is_none());
    assert!(runtime.push_chat_line("home", "rcon_gamelog", "   ", 8).is_none());
    assert_eq!(runtime.messages.len(), 1);
    assert_eq!(runtime.messages[0].id, "chat-7-0");
    assert_eq!(runtime.messages[0].ts, "7");
    let m = runtime.push_chat_line("travel-a", "rcon_gamelog", "Bob: !travel rag", 9).unwrap();
    assert_eq!(m.id, "chat-9-1");
    assert_eq!(m.slot_id, "travel-a");
    assert_eq!(runtime.detected_commands.len(), 1);
}

#[test]
fn idle_policy_requires_confirmed_zero() {
    assert_eq!(idle_policy_update(false, true, None, None, 100, 10), IdlePolicyDecision::ClearIdle);
    assert_eq!(idle_policy_update(false, true, Some(0), None, 100, 10), IdlePolicyDecision::SetIdleSince(100));
    assert_eq!(idle_policy_update(false, true, Some(1), Some(90), 100, 10), IdlePolicyDecision::ClearIdle);
    assert_eq!(idle_policy_update(false, true, Some(0), Some(89), 100, 10), IdlePolicyDecision::ShutdownDue);
    assert_eq!(idle_policy_update(true, true, Some(0), Some(1), 100, 10), IdlePolicyDecision::ClearIdle);
}

#[test]
fn idle_policy_waits_for_threshold() {
    assert_eq!(idle_policy_update(false, true, Some(0), Some(95), 100, 10), IdlePolicyDecision::Noop);
    assert_eq!(idle_policy_update(false, false, Some(0), Some(1), 100, 10), IdlePolicyDecision::ClearIdle);
}

#[test]
fn home_standby_blocks_unknown_or_players() {
    assert!(!home_standby_allowed(None, true, true));
    assert!(!home_standby_allowed(Some(1), true, true));
    assert!(!home_standby_allowed(Some(0), false, true));
    assert!(!home_standby_allowed(Some(0), true, false));
    assert!(home_standby_allowed(Some(0), true, true));
}

fn decision(status: &str, reason: &str, user_message: &str) -> TravelDecision {
    TravelDecision {
        id: "travel-1".into(),
        accepted: true,
        requested_map: "gen1".into(),
        resolved_map: Some("genesis-1".into()),
        resolved_map_name: Some("Genesis: Part 1".into()),
        chosen_slot: Some("travel-a".into()),
        status: status.into(),
        reason: reason.into(),
        user_message: user_message.into(),
        connect_host: Some("100.68.7.42".into()),
        game_port: Some(7781),
        query_port: Some(27016),
        connection_address: None,
        query_address: None,
        connection_source: Some("slot_config".into()),
        connection_available: false,
        connection_unavailable_reason: Some("server starting: waiting for game ports to open".into()),
        resource_warning: None,
    }
}

#[test]
fn ark_feedback_uses_player_safe_message() {
    let d = decision(
        "starting",
        "starting Genesis: Part 1",
        "Starting Genesis: Part 1. This may take a few minutes. Connection info unavailable: server starting: waiting for game ports to open.",
    );
    assert_eq!(
        ark_feedback_for_decision(&d),
        "[ARK Cluster] Starting Genesis: Part 1. This may take a few minutes. Connection info unavailable: server starting: waiting for game ports to open."
    );
    assert_eq!(sanitize_chat_message("a\n b\r c"), "a b c");
}

#[test]
fn scheduler_disabled_feedback_names_the_reason() {
    let d = decision("blocked", "travel scheduler disabled in manager config", "ignored");
    assert_eq!(
        ark_feedback_for_decision(&d),
        "[ARK Cluster] Travel is currently unavailable: travel scheduler disabled in manager config."
    );
}

#[test]
fn chat_messages_are_capped() {
    let long = "x".repeat(300);
    assert_eq!(sanitize_chat_message(&long).chars().count(), 220);
}

#[test]
fn feedback_labels_and_history_detail() {
    let ok: Result<(), String> = Ok(());
    let err: Result<(), String> = Err("missing password env X".into());
    assert_eq!(feedback_result_label(&ok), "sent");
    assert_eq!(feedback_result_label(&err), "feedback_unavailable:missing password env X");
    assert_eq!(
        feedback_history_detail(&ok, &ok),
        "feedbackAttempted=true feedbackSent=true feedbackResult=sent feedbackError=none"
    );
    assert_eq!(
        feedback_history_detail(&ok, &err),
        "feedbackAttempted=true feedbackSent=false feedbackResult=failed feedbackError=missing_password_env_X"
    );
    assert_eq!(token_value("   "), "unknown");
}

#[test]
fn game_log_noise_is_ignored() {
    assert!(is_ignorable_game_log_line("  "));
    assert!(is_ignorable_game_log_line("Server received, But no response!!"));
    assert!(!is_ignorable_game_log_line("Player: hi"));
}

#[test]
fn poll_results_from_replies() {
    let list: Result<String, RconError> = Ok("1. Marcel, 123\n".into());
    let log = Some("Server received, But no response!!\nBob: !travel rag\n".to_string());
    let (res, lines) = poll_result_from(&list, &log);
    match res {
        PollResult::Players { players, chat_source } => {
            assert_eq!(players, vec!["Marcel".to_string()]);
            assert_eq!(chat_source, "rcon_gamelog");
        }
        _ => panic!("expected players"),
    }
    assert_eq!(lines, vec!["Bob: !travel rag".to_string()]);
    let failed: Result<String, RconError> = Err(RconError::AuthFailed);
    match poll_result_from(&failed, &None).0 {
        PollResult::Unavailable(m) => assert_eq!(m, "authentication failed"),
        _ => panic!("expected unavailable"),
    }
}

#[test]
fn rcon_exchange_steps() {
    let a = auth_packet("pw");
    assert_eq!((a.id, a.packet_type, a.body.as_str()), (1, 3, "pw"));
    let c = command_packet("ListPlayers");
    assert_eq!((c.id, c.packet_type), (2, RCON_EXECCOMMAND));
    assert_eq!(auth_reply(&RconPacket { id: -1, packet_type: 2, body: String::new() }), AuthReply::Rejected);
    assert_eq!(
        auth_reply(&RconPacket { id: 1, packet_type: RCON_AUTH_RESPONSE, body: String::new() }),
        AuthReply::Accepted
    );
    assert_eq!(auth_reply(&RconPacket { id: 1, packet_type: 0, body: String::new() }), AuthReply::Ignored);
    let mut resp = String::from("a");
    assert!(absorb_response(&mut resp, &RconPacket { id: 2, packet_type: RCON_RESPONSE_VALUE, body: "b".into() }));
    assert!(!absorb_response(&mut resp, &RconPacket { id: 3, packet_type: RCON_RESPONSE_VALUE, body: "c".into() }));
    assert_eq!(resp, "ab");
    assert!(on_read_timeout(true).is_ok());
    assert!(matches!(on_read_timeout(false), Err(RconError::CommandTimeout)));
}
