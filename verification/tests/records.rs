use iaqualink::{
    find, from_text, Auxiliary, AwsState, AwsStateStatus, Color, Decode, DecodeError, Durations, Encode, Equipment,
    Expected, FilterPump, Heating, Json, Number, Robot, RobotSensor, Schedule, Schedules, Sensor, Strictness, Timer,
    VspSpeed,
};

fn unsigned(n: u64) -> Json {
    Json::Number(Number::Unsigned(n))
}

fn text(s: &str) -> Json {
    Json::String(s.to_string())
}

fn object(members: Vec<(&str, Json)>) -> Json {
    Json::Object(members.into_iter().map(|(name, value)| (name.to_string(), value)).collect())
}

fn heating() -> Heating {
    Heating { enabled: 1, priority_enabled: 0, sp: 28, sp_max: 32, sp_min: 15, state: 2, extra: vec![] }
}

fn heating_doc() -> Json {
    object(vec![
        ("enabled", unsigned(1)),
        ("priority_enabled", unsigned(0)),
        ("sp", unsigned(28)),
        ("sp_max", unsigned(32)),
        ("sp_min", unsigned(15)),
        ("state", unsigned(2)),
    ])
}

fn with(doc: Json, name: &str, value: Json) -> Json {
    match doc {
        Json::Object(mut members) => {
            members.push((name.to_string(), value));
            Json::Object(members)
        },
        other => other,
    }
}

fn without(doc: Json, name: &str) -> Json {
    match doc {
        Json::Object(members) => Json::Object(members.into_iter().filter(|(n, _)| n != name).collect()),
        other => other,
    }
}

fn schedule(n: u64) -> Schedule {
    Schedule {
        active: (n % 2) as usize,
        enabled: 1,
        endpoint: format!("swc_{}", n),
        id: format!("sch_{}", n),
        name: format!("Schedule {}", n),
        timer: Timer { start: "08:00".to_string(), end: "10:00".to_string(), extra: vec![] },
        extra: vec![],
    }
}

fn schedules() -> Schedules {
    Schedules {
        programmed: 5,
        supported: 6,
        sch1: schedule(1),
        sch2: schedule(2),
        sch3: schedule(3),
        sch4: schedule(4),
        sch9: schedule(9),
        sch10: schedule(10),
        extra: vec![],
    }
}

#[test]
fn heating_is_written_field_by_field() {
    assert_eq!(heating().encode(), heating_doc());
}

#[test]
fn heating_is_read_in_both_modes() {
    assert_eq!(Heating::decode(&heating_doc(), Strictness::Strict), Ok(heating()));
    assert_eq!(Heating::decode(&heating_doc(), Strictness::Lenient), Ok(heating()));
}

#[test]
fn heating_is_read_from_text_whatever_the_order_of_its_keys() {
    let text = b"{\"state\":2,\"sp_min\":15,\"sp_max\":32,\"sp\":28,\"priority_enabled\":0,\"enabled\":1}";
    assert_eq!(from_text::<Heating>(text, Strictness::Strict), Ok(heating()));
}

#[test]
fn heating_comes_back_unchanged() {
    for mode in [Strictness::Strict, Strictness::Lenient] {
        assert_eq!(Heating::decode(&heating().encode(), mode), Ok(heating()));
    }
}

#[test]
fn strict_mode_refuses_an_unknown_key() {
    let doc = with(heating_doc(), "boost", unsigned(1));
    assert_eq!(Heating::decode(&doc, Strictness::Strict), Err(DecodeError::UnknownField("boost".to_string())));
}

#[test]
fn strict_mode_names_the_first_unknown_key() {
    let doc = with(with(heating_doc(), "zeta", unsigned(1)), "alpha", unsigned(2));
    assert_eq!(Heating::decode(&doc, Strictness::Strict), Err(DecodeError::UnknownField("zeta".to_string())));
}

#[test]
fn lenient_mode_keeps_an_unknown_key_and_writes_it_back() {
    let doc = with(heating_doc(), "boost", object(vec![("level", unsigned(3))]));
    let read = Heating::decode(&doc, Strictness::Lenient).unwrap();
    assert_eq!(read.sp, 28);
    assert_eq!(find(&read.extra, "boost"), Some(&object(vec![("level", unsigned(3))])));
    assert_eq!(read.extra.len(), 1);
    let written = read.encode();
    assert_eq!(written, doc);
    assert_eq!(Heating::decode(&written, Strictness::Lenient), Ok(read));
}

#[test]
fn a_missing_key_is_named() {
    let doc = without(heating_doc(), "sp_max");
    assert_eq!(Heating::decode(&doc, Strictness::Strict), Err(DecodeError::MissingField("sp_max".to_string())));
    assert_eq!(Heating::decode(&doc, Strictness::Lenient), Err(DecodeError::MissingField("sp_max".to_string())));
}

#[test]
fn a_value_of_the_wrong_kind_is_named_with_its_key() {
    let doc = with(without(heating_doc(), "state"), "state", text("on"));
    assert_eq!(
        Heating::decode(&doc, Strictness::Strict),
        Err(DecodeError::Field("state".to_string(), Box::new(DecodeError::Mismatch(Expected::Integer))))
    );
}

#[test]
fn numbers_below_zero_and_fractions_are_no_field_values() {
    for bad in [Json::Number(Number::Negative(-1)), Json::Number(Number::Real("1.5".to_string())), Json::Null] {
        let doc = with(without(heating_doc(), "sp"), "sp", bad);
        assert_eq!(
            Heating::decode(&doc, Strictness::Lenient),
            Err(DecodeError::Field("sp".to_string(), Box::new(DecodeError::Mismatch(Expected::Integer))))
        );
    }
}

#[test]
fn what_is_no_object_is_no_record() {
    assert_eq!(Heating::decode(&Json::Null, Strictness::Strict), Err(DecodeError::Mismatch(Expected::Object)));
    assert_eq!(
        Heating::decode(&Json::Array(vec![]), Strictness::Lenient),
        Err(DecodeError::Mismatch(Expected::Object))
    );
    assert_eq!(from_text::<Heating>(b"{\"enabled\":", Strictness::Strict), Err(DecodeError::Syntax));
}

#[test]
fn integers_are_held_to_the_width_of_their_field() {
    assert_eq!(u16::decode(&unsigned(65535), Strictness::Strict), Ok(65535));
    assert_eq!(u16::decode(&unsigned(65536), Strictness::Strict), Err(DecodeError::Mismatch(Expected::Integer)));
    assert_eq!(u32::decode(&unsigned(4294967295), Strictness::Strict), Ok(4294967295));
    assert_eq!(
        u32::decode(&unsigned(4294967296), Strictness::Strict),
        Err(DecodeError::Mismatch(Expected::Integer))
    );
    assert_eq!(u64::decode(&unsigned(u64::MAX), Strictness::Strict), Ok(u64::MAX));
    assert_eq!(usize::decode(&Json::Number(Number::Negative(7)), Strictness::Strict), Ok(7));
    assert_eq!(7u32.encode(), unsigned(7));
}

#[test]
fn booleans_strings_and_options_are_read_and_written() {
    assert_eq!(bool::decode(&Json::Bool(true), Strictness::Strict), Ok(true));
    assert_eq!(bool::decode(&unsigned(1), Strictness::Strict), Err(DecodeError::Mismatch(Expected::Boolean)));
    assert_eq!(String::decode(&text("x"), Strictness::Strict), Ok("x".to_string()));
    assert_eq!(String::decode(&Json::Null, Strictness::Strict), Err(DecodeError::Mismatch(Expected::String)));
    assert_eq!(Option::<String>::decode(&Json::Null, Strictness::Strict), Ok(None));
    assert_eq!(Option::<String>::decode(&text("x"), Strictness::Strict), Ok(Some("x".to_string())));
    assert_eq!(Some("x".to_string()).encode(), text("x"));
    assert_eq!(None::<String>.encode(), Json::Null);
    assert_eq!(Option::<Json>::decode(&Json::Null, Strictness::Strict), Ok(None));
}

#[test]
fn color_zero_is_the_first_and_thirteen_the_last() {
    assert_eq!(Color::decode(&unsigned(0), Strictness::Strict), Ok(Color::AlpineWhite));
    assert_eq!(Color::decode(&unsigned(13), Strictness::Strict), Ok(Color::DiscoStyle));
    assert_eq!(Color::from_code(0), Some(Color::AlpineWhite));
    assert_eq!(Color::from_code(13), Some(Color::DiscoStyle));
    assert_eq!(Color::from_code(9), Some(Color::SlowFade));
}

#[test]
fn color_fourteen_is_refused() {
    assert_eq!(Color::decode(&unsigned(14), Strictness::Strict), Err(DecodeError::Mismatch(Expected::Color)));
    assert_eq!(Color::decode(&unsigned(14), Strictness::Lenient), Err(DecodeError::Mismatch(Expected::Color)));
    assert_eq!(Color::decode(&text("0"), Strictness::Lenient), Err(DecodeError::Mismatch(Expected::Color)));
    assert_eq!(
        Color::decode(&Json::Number(Number::Negative(-1)), Strictness::Lenient),
        Err(DecodeError::Mismatch(Expected::Color))
    );
    assert_eq!(Color::from_code(14), None);
    assert_eq!(Color::from_code(u64::MAX), None);
}

#[test]
fn every_color_is_written_as_its_number() {
    for code in 0..14u64 {
        let color = Color::from_code(code).unwrap();
        assert_eq!(color.code() as u64, code);
        assert_eq!(color.encode(), unsigned(code));
        assert_eq!(Color::decode(&color.encode(), Strictness::Strict), Ok(color));
    }
}

#[test]
fn an_out_of_range_color_fails_the_auxiliary_that_holds_it() {
    let doc = object(vec![("type", text("light")), ("color", unsigned(14)), ("mode", unsigned(1)), ("state", unsigned(1))]);
    assert_eq!(
        Auxiliary::decode(&doc, Strictness::Strict),
        Err(DecodeError::Field("color".to_string(), Box::new(DecodeError::Mismatch(Expected::Color))))
    );
}

#[test]
fn renamed_keys_are_read_and_written_under_their_wire_names() {
    let pump = FilterPump { pump_type: 1, state: 0, extra: vec![] };
    assert_eq!(pump.encode(), object(vec![("type", unsigned(1)), ("state", unsigned(0))]));
    assert_eq!(FilterPump::decode(&pump.encode(), Strictness::Strict), Ok(pump));
    let aux = Auxiliary { aux_type: "heat".to_string(), color: Color::SkyBlue, mode: 3, state: 0, extra: vec![] };
    assert_eq!(
        aux.encode(),
        object(vec![("type", text("heat")), ("color", unsigned(1)), ("mode", unsigned(3)), ("state", unsigned(0))])
    );
    assert_eq!(Auxiliary::decode(&aux.encode(), Strictness::Strict), Ok(aux));
    let sensor = RobotSensor { sensor_type: "sw_angle".to_string(), state: 4, extra: vec![] };
    assert_eq!(sensor.encode(), object(vec![("type", text("sw_angle")), ("state", unsigned(4))]));
    let durations =
        Durations { custom_tim: 1, deep_tim: 2, first_smart_tim: 3, quick_tim: 4, smart_tim: 5, water_tim: 6, extra: vec![] };
    assert_eq!(
        durations.encode(),
        object(vec![
            ("customTim", unsigned(1)),
            ("deepTim", unsigned(2)),
            ("firstSmartTim", unsigned(3)),
            ("quickTim", unsigned(4)),
            ("smartTim", unsigned(5)),
            ("waterTim", unsigned(6)),
        ])
    );
    assert_eq!(
        FilterPump::decode(&object(vec![("pump_type", unsigned(1)), ("state", unsigned(0))]), Strictness::Lenient),
        Err(DecodeError::MissingField("type".to_string()))
    );
}

#[test]
fn a_sensor_and_a_speed_range_come_back_unchanged() {
    let sensor = Sensor { sensor_type: "Ph".to_string(), state: 1, value: 57, extra: vec![] };
    assert_eq!(Sensor::decode(&sensor.encode(), Strictness::Strict), Ok(sensor));
    let speed = VspSpeed { min: 600, max: 3080, extra: vec![] };
    assert_eq!(speed.encode(), object(vec![("min", unsigned(600)), ("max", unsigned(3080))]));
    assert_eq!(VspSpeed::decode(&speed.encode(), Strictness::Lenient), Ok(speed));
}

#[test]
fn connection_status_is_one_of_two_words() {
    assert_eq!(AwsStateStatus::decode(&text("connected"), Strictness::Strict), Ok(AwsStateStatus::Connected));
    assert_eq!(AwsStateStatus::decode(&text("disconnected"), Strictness::Strict), Ok(AwsStateStatus::Disconnected));
    assert_eq!(
        AwsStateStatus::decode(&text("Connected"), Strictness::Strict),
        Err(DecodeError::Mismatch(Expected::Status))
    );
    assert_eq!(AwsStateStatus::decode(&unsigned(1), Strictness::Lenient), Err(DecodeError::Mismatch(Expected::Status)));
    assert_eq!(AwsStateStatus::Disconnected.encode(), text("disconnected"));
    let aws = AwsState {
        session_id: "82fc61c6".to_string(),
        status: AwsStateStatus::Connected,
        timestamp: 1686468192272,
        extra: vec![],
    };
    assert_eq!(
        aws.encode(),
        object(vec![("session_id", text("82fc61c6")), ("status", text("connected")), ("timestamp", unsigned(1686468192272))])
    );
    assert_eq!(AwsState::decode(&aws.encode(), Strictness::Strict), Ok(aws));
}

#[test]
fn schedules_hold_the_slots_one_to_four_nine_and_ten() {
    let written = schedules().encode();
    match &written {
        Json::Object(members) => {
            let names: Vec<&str> = members.iter().map(|(name, _)| name.as_str()).collect();
            assert_eq!(names, vec!["programmed", "supported", "sch1", "sch2", "sch3", "sch4", "sch9", "sch10"]);
        },
        other => panic!("not an object: {:?}", other),
    }
    assert_eq!(Schedules::decode(&written, Strictness::Strict), Ok(schedules()));
    assert_eq!(Schedules::decode(&written, Strictness::Lenient), Ok(schedules()));
}

#[test]
fn schedules_without_slot_nine_are_refused() {
    let doc = without(schedules().encode(), "sch9");
    assert_eq!(Schedules::decode(&doc, Strictness::Strict), Err(DecodeError::MissingField("sch9".to_string())));
    assert_eq!(Schedules::decode(&doc, Strictness::Lenient), Err(DecodeError::MissingField("sch9".to_string())));
}

#[test]
fn schedules_with_a_slot_five_are_refused_in_strict_mode() {
    let doc = with(schedules().encode(), "sch5", schedule(5).encode());
    assert_eq!(Schedules::decode(&doc, Strictness::Strict), Err(DecodeError::UnknownField("sch5".to_string())));
    let read = Schedules::decode(&doc, Strictness::Lenient).unwrap();
    assert_eq!(find(&read.extra, "sch5"), Some(&schedule(5).encode()));
}

#[test]
fn an_error_inside_a_slot_is_named_from_the_outside_in() {
    let broken = without(schedule(2).encode(), "timer");
    let doc = with(without(schedules().encode(), "sch2"), "sch2", broken);
    assert_eq!(
        Schedules::decode(&doc, Strictness::Strict),
        Err(DecodeError::Field("sch2".to_string(), Box::new(DecodeError::MissingField("timer".to_string()))))
    );
}

fn robot_text() -> String {
    let mut members: Vec<String> = vec![
        "\"canister\":1".to_string(),
        "\"customCyc\":2".to_string(),
        "\"cycleStartTime\":1686511306".to_string(),
        "\"durations\":{\"customTim\":150,\"deepTim\":165,\"firstSmartTim\":150,\"quickTim\":75,\"smartTim\":111,\"waterTim\":45}".to_string(),
        "\"equipmentId\":\"JT21007507\"".to_string(),
        "\"errorCode\":0".to_string(),
        "\"errorState\":0".to_string(),
        "\"firstSmrtFlag\":1".to_string(),
        "\"liftControl\":0".to_string(),
        "\"logger\":0".to_string(),
        "\"prCyc\":1".to_string(),
        "\"repeat\":0".to_string(),
        "\"rmt_ctrl\":0".to_string(),
        "\"scanTimeDuration\":30".to_string(),
    ];
    for day in 0..7 {
        members.push(format!("\"schConf{}Enable\":{}", day, day % 2));
        members.push(format!("\"schConf{}Hour\":{}", day, 10 + day));
        members.push(format!("\"schConf{}Min\":{}", day, 20 + day));
        members.push(format!("\"schConf{}Prt\":{}", day, 30 + day));
        members.push(format!("\"schConf{}WDay\":{}", day, 40 + day));
    }
    members.push("\"sensors\":{\"sns_1\":{\"type\":\"sw_angle\",\"state\":1},\"sns_2\":{\"type\":\"sw_gyro\",\"state\":2},\"sns_3\":{\"type\":\"pressure\",\"state\":3}}".to_string());
    members.push("\"state\":1".to_string());
    members.push("\"stepper\":5".to_string());
    members.push("\"stepperAdjTime\":15".to_string());
    members.push("\"totalHours\":321".to_string());
    members.push("\"vr\":\"V32E28\"".to_string());
    members.push("\"customIntensity\":2".to_string());
    format!("{{{}}}", members.join(","))
}

#[test]
fn a_robot_is_read_with_each_key_in_its_field() {
    let robot = from_text::<Robot>(robot_text().as_bytes(), Strictness::Strict).unwrap();
    assert_eq!(robot.canister, 1);
    assert_eq!(robot.custom_cyc, 2);
    assert_eq!(robot.cycle_start_time, 1686511306);
    assert_eq!(robot.durations.first_smart_tim, 150);
    assert_eq!(robot.durations.water_tim, 45);
    assert_eq!(robot.equipment_id, "JT21007507");
    assert_eq!(robot.rmt_ctrl, 0);
    assert_eq!(robot.scan_time_duration, 30);
    assert_eq!(robot.sch_conf_0_enable, 0);
    assert_eq!(robot.sch_conf_1_enable, 1);
    assert_eq!(robot.sch_conf_3_hour, 13);
    assert_eq!(robot.sch_conf_4_min, 24);
    assert_eq!(robot.sch_conf_5_prt, 35);
    assert_eq!(robot.sch_conf_6_wday, 46);
    assert_eq!(robot.sensors.sns_2.sensor_type, "sw_gyro");
    assert_eq!(robot.sensors.sns_3.state, 3);
    assert_eq!(robot.stepper_adj_time, 15);
    assert_eq!(robot.total_hours, 321);
    assert_eq!(robot.vr, "V32E28");
    assert_eq!(robot.custom_intensity, 2);
    assert_eq!(robot.extra, vec![]);
}

#[test]
fn a_robot_comes_back_unchanged() {
    for mode in [Strictness::Strict, Strictness::Lenient] {
        let robot = from_text::<Robot>(robot_text().as_bytes(), mode).unwrap();
        let written = robot.encode();
        match &written {
            Json::Object(members) => {
                assert_eq!(members.len(), 56);
                assert_eq!(members[0].0, "canister");
                assert_eq!(members[18].0, "schConf0WDay");
                assert_eq!(members[55].0, "customIntensity");
            },
            other => panic!("not an object: {:?}", other),
        }
        assert_eq!(Robot::decode(&written, mode), Ok(robot));
    }
}

#[test]
fn a_robot_key_in_snake_case_is_unknown() {
    let text = robot_text().replace("\"schConf2WDay\"", "\"schConf2Wday\"");
    assert_eq!(
        from_text::<Robot>(text.as_bytes(), Strictness::Strict),
        Err(DecodeError::UnknownField("schConf2Wday".to_string()))
    );
    assert_eq!(
        from_text::<Robot>(text.as_bytes(), Strictness::Lenient),
        Err(DecodeError::MissingField("schConf2WDay".to_string()))
    );
}

fn robot_slot() -> Json {
    Json::parse(robot_text().as_bytes()).unwrap()
}

fn chlorinator_slot() -> Json {
    Json::parse(
        b"{\"sns_2\":{\"sensor_type\":\"Orp\",\"state\":1,\"value\":790},\"temp\":1,\"vsp\":1,\"exo_state\":1,\
          \"sns_1\":{\"sensor_type\":\"Ph\",\"state\":1,\"value\":57},\
          \"aux_1\":{\"type\":\"light\",\"color\":0,\"state\":1,\"mode\":1},\"lang\":4,\"amp\":1,\"aux230\":1,\
          \"sn\":\"ALWA01011336200223\",\"production\":0,\
          \"aux_2\":{\"type\":\"heat\",\"color\":0,\"state\":0,\"mode\":3},\"swc\":50,\"swc_low\":10,\
          \"orp_sp\":740,\"version\":\"V1\",\"sns_3\":{\"sensor_type\":\"Water temp\",\"state\":1,\"value\":26},\
          \"vr\":\"V85R70\",\"ph_only\":1,\"dual_link\":1,\"ph_sp\":72,\"low\":0,\"boost\":0,\
          \"boost_time\":\"24:00\",\"error_state\":0,\"filter_pump\":{\"type\":1,\"state\":0},\"error_code\":0,\
          \"vsp_speed\":{\"min\":600,\"max\":3080}}",
    )
    .unwrap()
}

#[test]
fn equipment_with_the_slot_swc_0_is_a_chlorinator() {
    let doc = object(vec![("swc_0", chlorinator_slot())]);
    for mode in [Strictness::Strict, Strictness::Lenient] {
        match Equipment::decode(&doc, mode) {
            Ok(Equipment::Chlorinator(equipment)) => {
                assert_eq!(equipment.swc_0.orp_sp, 740);
                assert_eq!(equipment.swc_0.sns_3.sensor_type, "Water temp");
                assert_eq!(equipment.swc_0.aux_2.mode, 3);
                assert_eq!(equipment.swc_0.vsp_speed.max, 3080);
                assert_eq!(equipment.swc_0.sn, "ALWA01011336200223");
                assert_eq!(equipment.swc_0.boost_time, "24:00");
            },
            other => panic!("not a chlorinator: {:?}", other),
        }
    }
}

#[test]
fn equipment_with_the_slot_robot_is_a_robot() {
    let doc = object(vec![("robot", robot_slot())]);
    for mode in [Strictness::Strict, Strictness::Lenient] {
        match Equipment::decode(&doc, mode) {
            Ok(Equipment::Robot(equipment)) => assert_eq!(equipment.robot.total_hours, 321),
            other => panic!("not a robot: {:?}", other),
        }
    }
}

#[test]
fn equipment_with_both_slots_is_of_no_variant() {
    let doc = object(vec![("swc_0", chlorinator_slot()), ("robot", robot_slot())]);
    for mode in [Strictness::Strict, Strictness::Lenient] {
        assert_eq!(
            Equipment::decode(&doc, mode),
            Err(DecodeError::SchemaMismatch(vec![
                ("Robot".to_string(), DecodeError::UnknownField("swc_0".to_string())),
                ("Chlorinator".to_string(), DecodeError::UnknownField("robot".to_string())),
            ]))
        );
    }
}

#[test]
fn equipment_with_neither_slot_is_of_no_variant() {
    for doc in [object(vec![]), object(vec![("swc_1", chlorinator_slot())])] {
        for mode in [Strictness::Strict, Strictness::Lenient] {
            assert_eq!(
                Equipment::decode(&doc, mode),
                Err(DecodeError::SchemaMismatch(vec![
                    ("Robot".to_string(), DecodeError::MissingField("robot".to_string())),
                    ("Chlorinator".to_string(), DecodeError::MissingField("swc_0".to_string())),
                ]))
            );
        }
    }
    assert_eq!(Equipment::decode(&unsigned(1), Strictness::Strict), Err(DecodeError::Mismatch(Expected::Object)));
}

#[test]
fn equipment_comes_back_unchanged() {
    for doc in [object(vec![("swc_0", chlorinator_slot())]), object(vec![("robot", robot_slot())])] {
        let equipment = Equipment::decode(&doc, Strictness::Strict).unwrap();
        assert_eq!(Equipment::decode(&equipment.encode(), Strictness::Strict), Ok(equipment));
    }
}

#[test]
fn a_broken_slot_is_named_and_no_other_variant_is_tried() {
    let doc = object(vec![("swc_0", without(chlorinator_slot(), "orp_sp"))]);
    assert_eq!(
        Equipment::decode(&doc, Strictness::Strict),
        Err(DecodeError::Field("swc_0".to_string(), Box::new(DecodeError::MissingField("orp_sp".to_string()))))
    );
}
