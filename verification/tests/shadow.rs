use iaqualink::{
    from_text, Decode, DecodeError, DeviceShadow, Encode, Expected, Json, Number, ReportedState, State, Strictness,
    VrState,
};

fn unsigned(n: u64) -> Json {
    Json::Number(Number::Unsigned(n))
}

fn robot_text() -> String {
    let mut members: Vec<String> = vec![
        "\"canister\":1,\"customCyc\":2,\"cycleStartTime\":1686511306".to_string(),
        "\"durations\":{\"customTim\":150,\"deepTim\":165,\"firstSmartTim\":150,\"quickTim\":75,\"smartTim\":111,\"waterTim\":45}".to_string(),
        "\"equipmentId\":\"JT21007507\",\"errorCode\":0,\"errorState\":0,\"firstSmrtFlag\":1".to_string(),
        "\"liftControl\":0,\"logger\":0,\"prCyc\":1,\"repeat\":0,\"rmt_ctrl\":0,\"scanTimeDuration\":30".to_string(),
    ];
    for day in 0..7 {
        members.push(format!(
            "\"schConf{0}Enable\":0,\"schConf{0}Hour\":1,\"schConf{0}Min\":2,\"schConf{0}Prt\":3,\"schConf{0}WDay\":4",
            day
        ));
    }
    members.push("\"sensors\":{\"sns_1\":{\"type\":\"a\",\"state\":1},\"sns_2\":{\"type\":\"b\",\"state\":2},\"sns_3\":{\"type\":\"c\",\"state\":3}}".to_string());
    members.push("\"state\":1,\"stepper\":5,\"stepperAdjTime\":15,\"totalHours\":321,\"vr\":\"V32E28\",\"customIntensity\":2".to_string());
    format!("{{{}}}", members.join(","))
}

fn vr_text() -> String {
    format!(
        "{{\"timestamp\":1686511306123,\
          \"aws\":{{\"session_id\":\"s-1\",\"status\":\"disconnected\",\"timestamp\":1686468192272}},\
          \"eboxData\":{{\"completeCleanerPn\":\"WR000122\",\"completeCleanerSn\":\"JT21007507\",\
          \"controlBoxPn\":\"R0811400\",\"controlBoxSn\":\"JT21007508\",\"motorBlockSn\":\"A1\",\
          \"powerSupplySn\":\"B2\",\"sensorBlockSn\":\"C3\"}},\
          \"equipment\":{{\"robot\":{}}},\"jobId\":\"Job_123\",\"sn\":\"JT21007507\",\"vr\":\"V32C27\"}}",
        robot_text()
    )
}

const EXO: &str = "{\"aws\":{\"status\":\"connected\",\"timestamp\":1686468192272,\"session_id\":\"82fc\"},\
    \"vr\":\"V85W4\",\"equipment\":{\"swc_0\":{\"sns_2\":{\"sensor_type\":\"Orp\",\"state\":1,\"value\":790},\
    \"temp\":1,\"vsp\":1,\"exo_state\":1,\"sns_1\":{\"sensor_type\":\"Ph\",\"state\":1,\"value\":57},\
    \"aux_1\":{\"type\":\"light\",\"color\":13,\"state\":1,\"mode\":1},\"lang\":4,\"amp\":1,\"aux230\":1,\
    \"sn\":\"ALWA01011336200223\",\"production\":0,\"aux_2\":{\"type\":\"heat\",\"color\":0,\"state\":0,\"mode\":3},\
    \"swc\":50,\"swc_low\":10,\"orp_sp\":740,\"version\":\"V1\",\
    \"sns_3\":{\"sensor_type\":\"Water temp\",\"state\":1,\"value\":26},\"vr\":\"V85R70\",\"ph_only\":1,\
    \"dual_link\":1,\"ph_sp\":72,\"low\":0,\"boost\":0,\"boost_time\":\"24:00\",\"error_state\":0,\
    \"filter_pump\":{\"type\":1,\"state\":0},\"error_code\":0,\"vsp_speed\":{\"min\":600,\"max\":3080}}}}";

#[test]
fn the_state_of_a_robotic_cleaner_system_is_read_as_such() {
    for mode in [Strictness::Strict, Strictness::Lenient] {
        match from_text::<ReportedState>(vr_text().as_bytes(), mode) {
            Ok(ReportedState::Vr(state)) => {
                assert_eq!(state.timestamp, 1686511306123);
                assert_eq!(state.ebox_data.control_box_pn, "R0811400");
                assert_eq!(state.ebox_data.sensor_block_sn, "C3");
                assert_eq!(state.equipment.robot.total_hours, 321);
                assert_eq!(state.job_id, "Job_123");
                assert_eq!(state.sn, "JT21007507");
                assert_eq!(state.vr, "V32C27");
            },
            other => panic!("not a robotic cleaner system: {:?}", other),
        }
    }
}

#[test]
fn the_state_of_a_chlorinator_system_is_read_first() {
    for mode in [Strictness::Strict, Strictness::Lenient] {
        match from_text::<ReportedState>(EXO.as_bytes(), mode) {
            Ok(ReportedState::Exo(state)) => {
                assert_eq!(state.equipment.swc_0.orp_sp, 740);
                assert_eq!(state.schedules, None);
                assert_eq!(state.heating, None);
                assert_eq!(state.main, None);
            },
            other => panic!("not a chlorinator system: {:?}", other),
        }
    }
}

#[test]
fn a_state_of_neither_family_says_why_for_each() {
    let error = from_text::<ReportedState>(b"{\"vr\":\"V1\"}", Strictness::Strict).unwrap_err();
    assert_eq!(
        error,
        DecodeError::SchemaMismatch(vec![
            ("Exo".to_string(), DecodeError::MissingField("aws".to_string())),
            ("Vr".to_string(), DecodeError::MissingField("timestamp".to_string())),
        ])
    );
    let error = from_text::<ReportedState>(b"7", Strictness::Lenient).unwrap_err();
    assert_eq!(
        error,
        DecodeError::SchemaMismatch(vec![
            ("Exo".to_string(), DecodeError::Mismatch(Expected::Object)),
            ("Vr".to_string(), DecodeError::Mismatch(Expected::Object)),
        ])
    );
}

#[test]
fn reported_states_come_back_unchanged() {
    for mode in [Strictness::Strict, Strictness::Lenient] {
        let vr = from_text::<ReportedState>(vr_text().as_bytes(), mode).unwrap();
        assert_eq!(ReportedState::decode(&vr.encode(), mode), Ok(vr));
        let exo = from_text::<ReportedState>(EXO.as_bytes(), mode).unwrap();
        assert_eq!(ReportedState::decode(&exo.encode(), mode), Ok(exo));
    }
}

#[test]
fn a_shadow_is_read_with_its_camel_case_key() {
    let text = format!("{{\"deviceId\":\"JT21007507\",\"state\":{{\"reported\":{}}},\"ts\":1686511306}}", vr_text());
    let shadow = from_text::<DeviceShadow>(text.as_bytes(), Strictness::Strict).unwrap();
    assert_eq!(shadow.device_id, "JT21007507");
    assert_eq!(shadow.ts, 1686511306);
    assert!(matches!(shadow.state.reported, ReportedState::Vr(_)));
    assert_eq!(DeviceShadow::decode(&shadow.encode(), Strictness::Strict), Ok(shadow));
    let snake = text.replace("deviceId", "device_id");
    assert_eq!(
        from_text::<DeviceShadow>(snake.as_bytes(), Strictness::Strict),
        Err(DecodeError::UnknownField("device_id".to_string()))
    );
}

#[test]
fn an_absent_optional_part_is_written_as_null() {
    let exo = from_text::<ReportedState>(EXO.as_bytes(), Strictness::Strict).unwrap();
    match exo.encode() {
        Json::Object(members) => {
            let names: Vec<&str> = members.iter().map(|(name, _)| name.as_str()).collect();
            assert_eq!(
                names,
                vec!["aws", "equipment", "vr", "main", "hmi", "schedules", "state", "heating", "debug", "debug_main"]
            );
            assert_eq!(iaqualink::find(&members, "heating"), Some(&Json::Null));
        },
        other => panic!("not an object: {:?}", other),
    }
}

#[test]
fn a_state_of_any_family_is_carried_as_it_is() {
    let state = from_text::<State>(b"{\"reported\":{\"anything\":[1,2]}}", Strictness::Strict).unwrap();
    assert_eq!(
        state.reported,
        Json::Object(vec![("anything".to_string(), Json::Array(vec![unsigned(1), unsigned(2)]))])
    );
    assert_eq!(State::decode(&state.encode(), Strictness::Strict), Ok(state));
}

#[test]
fn a_vr_state_misses_its_timestamp_by_name() {
    let text = vr_text().replace("\"timestamp\":1686511306123,", "");
    assert_eq!(
        from_text::<VrState>(text.as_bytes(), Strictness::Strict),
        Err(DecodeError::MissingField("timestamp".to_string()))
    );
}

#[test]
fn a_shadow_whose_equipment_holds_both_slots_is_refused() {
    let both = EXO.replace("\"equipment\":{", &format!("\"equipment\":{{\"robot\":{},", robot_text()));
    assert!(both.contains("\"robot\"") && both.contains("\"swc_0\""));
    let robot = DecodeError::Field("equipment".to_string(), Box::new(DecodeError::UnknownField("robot".to_string())));
    assert_eq!(
        from_text::<ReportedState>(both.as_bytes(), Strictness::Lenient),
        Err(DecodeError::SchemaMismatch(vec![
            ("Exo".to_string(), robot),
            ("Vr".to_string(), DecodeError::MissingField("timestamp".to_string())),
        ]))
    );
    assert!(from_text::<ReportedState>(both.as_bytes(), Strictness::Strict).is_err());
    let shadow = format!("{{\"deviceId\":\"D\",\"state\":{{\"reported\":{}}},\"ts\":1}}", both);
    for mode in [Strictness::Strict, Strictness::Lenient] {
        assert!(from_text::<DeviceShadow>(shadow.as_bytes(), mode).is_err());
    }
    let vr_both = vr_text().replace("\"equipment\":{", "\"equipment\":{\"swc_0\":{},");
    let swc = DecodeError::Field("equipment".to_string(), Box::new(DecodeError::UnknownField("swc_0".to_string())));
    assert_eq!(
        from_text::<VrState>(vr_both.as_bytes(), Strictness::Lenient),
        Err(swc)
    );
    for mode in [Strictness::Strict, Strictness::Lenient] {
        assert!(from_text::<ReportedState>(vr_both.as_bytes(), mode).is_err());
    }
}

#[test]
fn a_shadow_whose_equipment_holds_no_slot_is_refused() {
    let none = EXO.replace("\"swc_0\"", "\"swc_1\"");
    for mode in [Strictness::Strict, Strictness::Lenient] {
        assert!(from_text::<ReportedState>(none.as_bytes(), mode).is_err());
    }
}

#[test]
fn other_unknown_keys_beside_the_slot_are_carried_in_lenient_mode() {
    let more = EXO.replace("\"equipment\":{", "\"equipment\":{\"aux_9\":1,");
    match from_text::<ReportedState>(more.as_bytes(), Strictness::Lenient) {
        Ok(ReportedState::Exo(state)) => {
            assert_eq!(iaqualink::find(&state.equipment.extra, "aux_9"), Some(&unsigned(1)));
            let again = ReportedState::decode(&ReportedState::Exo(state).encode(), Strictness::Lenient);
            assert_eq!(again, from_text::<ReportedState>(more.as_bytes(), Strictness::Lenient));
        },
        other => panic!("not a chlorinator system: {:?}", other),
    }
    assert!(from_text::<ReportedState>(more.as_bytes(), Strictness::Strict).is_err());
}
