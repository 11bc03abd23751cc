use tenhou_log::log::{disp_is_four_player, game_length_of, EndStatus, GameLength, Log, ParseError};
use tenhou_log::{ActionItem, KyokuMeta, RawKyoku, RawLog, RawValue, ResultItem, Rule, Tile};

fn meta(kyoku_num: u8, honba: u8) -> KyokuMeta {
    KyokuMeta { kyoku_num, honba, kyotaku: 0 }
}

fn plain_kyoku(kyoku_num: u8, honba: u8, results: Vec<ResultItem>) -> RawKyoku {
    RawKyoku {
        meta: meta(kyoku_num, honba),
        scoreboard: [35000, 35000, 35000, 0],
        dora_indicators: vec![Tile(47)],
        ura_indicators: vec![],
        haipai_0: vec![Tile(26), Tile(27), Tile(32)],
        takes_0: vec![ActionItem::Tile(Tile(45))],
        discards_0: vec![ActionItem::Naki(String::from("f44"))],
        haipai_1: vec![Tile(11)],
        takes_1: vec![],
        discards_1: vec![],
        haipai_2: vec![Tile(19)],
        takes_2: vec![],
        discards_2: vec![],
        haipai_3: vec![],
        takes_3: vec![],
        discards_3: vec![],
        results,
    }
}

fn rule_with(disp: &str, aka: u32, aka51: u32, aka52: u32, aka53: u32) -> Rule {
    Rule { disp: String::from(disp), aka, aka51, aka52, aka53 }
}

fn doc(disp: &str, logs: Vec<RawKyoku>) -> RawLog {
    RawLog {
        logs,
        names: [
            String::from("mtk"),
            String::from("つくねん3"),
            String::from("ひぐお3"),
            String::new(),
        ],
        rule: rule_with(disp, 0, 1, 1, 1),
    }
}

#[test]
fn three_player_doc_succeeds() {
    let raw = doc("三鳳南喰赤", vec![plain_kyoku(0, 0, vec![]), plain_kyoku(1, 0, vec![])]);
    let log = Log::try_from_raw(raw).unwrap();
    assert_eq!(log.names.len(), 4);
    assert_eq!(log.kyokus.len(), 2);
    for k in &log.kyokus {
        assert_eq!(k.action_tables.len(), 4);
    }
    assert_eq!(log.kyokus[0].action_tables[0].haipai, vec![Tile(26), Tile(27), Tile(32)]);
    assert_eq!(log.kyokus[0].action_tables[1].haipai, vec![Tile(11)]);
    assert_eq!(log.kyokus[0].scoreboard, [35000, 35000, 35000, 0]);
    assert_eq!(log.kyokus[0].dora_indicators, vec![Tile(47)]);
}

#[test]
fn four_player_marker_rejected() {
    let raw = doc("四鳳南喰赤", vec![plain_kyoku(0, 0, vec![])]);
    let err = Log::try_from_raw(raw).unwrap_err();
    assert!(matches!(err, ParseError::NotThreePlayer));

    let raw = doc("4-Player match", vec![]);
    let err = Log::try_from_raw(raw).unwrap_err();
    assert!(matches!(err, ParseError::NotThreePlayer));
}

#[test]
fn four_player_check_precedes_length() {
    let raw = doc("四東喰赤", vec![]);
    let err = Log::try_from_raw(raw).unwrap_err();
    assert!(matches!(err, ParseError::NotThreePlayer));
}

#[test]
fn game_length_east_marker() {
    let raw = doc("三東喰赤", vec![]);
    let log = Log::try_from_raw(raw).unwrap();
    assert_eq!(log.game_length, GameLength::Tonpuu);

    let raw = doc("3p East game", vec![]);
    let log = Log::try_from_raw(raw).unwrap();
    assert_eq!(log.game_length, GameLength::Tonpuu);
}

#[test]
fn game_length_defaults_to_hanchan() {
    let raw = doc("三鳳南喰赤", vec![]);
    let log = Log::try_from_raw(raw).unwrap();
    assert_eq!(log.game_length, GameLength::Hanchan);
}

#[test]
fn aka_flag_from_counters() {
    let mut raw = doc("三鳳南喰赤", vec![]);
    raw.rule = rule_with("三鳳南喰赤", 0, 0, 0, 0);
    let log = Log::try_from_raw(raw).unwrap();
    assert!(!log.has_aka);

    let mut raw = doc("三鳳南喰赤", vec![]);
    raw.rule = rule_with("三鳳南喰赤", 0, 0, 0, 1);
    let log = Log::try_from_raw(raw).unwrap();
    assert!(log.has_aka);

    let mut raw = doc("三鳳南喰赤", vec![]);
    raw.rule = rule_with("三鳳南喰赤", 2, 0, 0, 0);
    let log = Log::try_from_raw(raw).unwrap();
    assert!(log.has_aka);
}

#[test]
fn win_single_detail() {
    let results = vec![
        ResultItem::Status(String::from("和了")),
        ResultItem::ScoreDeltas([-700, -400, 1100, 0]),
        ResultItem::HoraDetail(vec![RawValue::Int(2), RawValue::Int(2), RawValue::Other]),
    ];
    let raw = doc("三鳳南喰赤", vec![plain_kyoku(0, 0, results)]);
    let log = Log::try_from_raw(raw).unwrap();
    match &log.kyokus[0].end_status {
        EndStatus::Hora { details } => {
            assert_eq!(details.len(), 1);
            assert_eq!(details[0].who, 2);
            assert_eq!(details[0].target, 2);
            assert_eq!(details[0].score_deltas, [-700, -400, 1100, 0]);
        }
        EndStatus::Ryukyoku { .. } => panic!("expected a win"),
    }
}

#[test]
fn win_double_ron_keeps_order() {
    let results = vec![
        ResultItem::Status(String::from("和了")),
        ResultItem::ScoreDeltas([-1000, 1000, 0, 0]),
        ResultItem::HoraDetail(vec![RawValue::Int(1), RawValue::Int(0)]),
        ResultItem::ScoreDeltas([-2000, 0, 2000, 0]),
        ResultItem::HoraDetail(vec![RawValue::Int(2), RawValue::Int(0)]),
    ];
    let raw = doc("三鳳南喰赤", vec![plain_kyoku(0, 0, results)]);
    let log = Log::try_from_raw(raw).unwrap();
    match &log.kyokus[0].end_status {
        EndStatus::Hora { details } => {
            assert_eq!(details.len(), 2);
            assert_eq!(details[0].who, 1);
            assert_eq!(details[0].target, 0);
            assert_eq!(details[0].score_deltas, [-1000, 1000, 0, 0]);
            assert_eq!(details[1].who, 2);
            assert_eq!(details[1].target, 0);
            assert_eq!(details[1].score_deltas, [-2000, 0, 2000, 0]);
        }
        EndStatus::Ryukyoku { .. } => panic!("expected a win"),
    }
}

#[test]
fn draw_default_all_zero() {
    let raw = doc("三鳳南喰赤", vec![plain_kyoku(0, 0, vec![])]);
    let log = Log::try_from_raw(raw).unwrap();
    match &log.kyokus[0].end_status {
        EndStatus::Ryukyoku { score_deltas } => assert_eq!(*score_deltas, [0, 0, 0, 0]),
        EndStatus::Hora { .. } => panic!("expected a draw"),
    }
}

#[test]
fn draw_with_explicit_deltas() {
    let results = vec![
        ResultItem::Status(String::from("流局")),
        ResultItem::ScoreDeltas([1000, -1000, 0, 0]),
    ];
    let raw = doc("三鳳南喰赤", vec![plain_kyoku(0, 0, results)]);
    let log = Log::try_from_raw(raw).unwrap();
    match &log.kyokus[0].end_status {
        EndStatus::Ryukyoku { score_deltas } => assert_eq!(*score_deltas, [1000, -1000, 0, 0]),
        EndStatus::Hora { .. } => panic!("expected a draw"),
    }
}

#[test]
fn draw_status_without_deltas_is_zero() {
    let results = vec![ResultItem::Status(String::from("流局"))];
    let raw = doc("三鳳南喰赤", vec![plain_kyoku(0, 0, results)]);
    let log = Log::try_from_raw(raw).unwrap();
    match &log.kyokus[0].end_status {
        EndStatus::Ryukyoku { score_deltas } => assert_eq!(*score_deltas, [0, 0, 0, 0]),
        EndStatus::Hora { .. } => panic!("expected a draw"),
    }
}

#[test]
fn malformed_win_detail_rejected() {
    let results = vec![
        ResultItem::Status(String::from("和了")),
        ResultItem::ScoreDeltas([-700, -400, 1100, 0]),
        ResultItem::HoraDetail(vec![RawValue::Other, RawValue::Int(2)]),
    ];
    let raw = doc("三鳳南喰赤", vec![plain_kyoku(0, 0, results)]);
    let err = Log::try_from_raw(raw).unwrap_err();
    assert!(matches!(err, ParseError::InvalidHoraDetail));
}

#[test]
fn misshapen_win_pair_rejected() {
    let results = vec![
        ResultItem::Status(String::from("和了")),
        ResultItem::ScoreDeltas([-700, -400, 1100, 0]),
        ResultItem::ScoreDeltas([0, 0, 0, 0]),
    ];
    let raw = doc("三鳳南喰赤", vec![plain_kyoku(0, 0, results)]);
    let err = Log::try_from_raw(raw).unwrap_err();
    assert!(matches!(err, ParseError::InvalidHoraDetail));
}

#[test]
fn short_win_detail_rejected() {
    let results = vec![
        ResultItem::Status(String::from("和了")),
        ResultItem::ScoreDeltas([0, 0, 0, 0]),
        ResultItem::HoraDetail(vec![RawValue::Int(1)]),
    ];
    let raw = doc("三鳳南喰赤", vec![plain_kyoku(0, 0, results)]);
    let err = Log::try_from_raw(raw).unwrap_err();
    assert!(matches!(err, ParseError::InvalidHoraDetail));
}

#[test]
fn eleven_round_scenario() {
    let mut rounds = Vec::new();
    for i in 0..11u8 {
        let results = vec![
            ResultItem::Status(String::from("和了")),
            ResultItem::ScoreDeltas([-700, -400, 1100, 0]),
            ResultItem::HoraDetail(vec![RawValue::Int(2), RawValue::Int(2)]),
        ];
        rounds.push(plain_kyoku(i % 6, i / 6, results));
    }
    let raw = doc("三鳳南喰赤", rounds);
    let log = Log::try_from_raw(raw).unwrap();
    assert_eq!(log.names[0], "mtk");
    assert_eq!(log.names[1], "つくねん3");
    assert_eq!(log.names[2], "ひぐお3");
    assert_eq!(log.names[3], "");
    assert_eq!(log.kyokus.len(), 11);
    for (i, k) in log.kyokus.iter().enumerate() {
        assert_eq!(k.meta.kyoku_num, (i as u8) % 6);
    }
}

#[test]
fn descriptor_classifiers() {
    assert!(disp_is_four_player("四鳳南喰赤"));
    assert!(disp_is_four_player("some 4-Player text"));
    assert!(!disp_is_four_player("三鳳南喰赤"));
    assert_eq!(game_length_of("三東喰赤"), GameLength::Tonpuu);
    assert_eq!(game_length_of("an East round"), GameLength::Tonpuu);
    assert_eq!(game_length_of("三鳳南喰赤"), GameLength::Hanchan);
    assert_eq!(game_length_of(""), GameLength::Hanchan);
}
