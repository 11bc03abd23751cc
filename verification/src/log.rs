use vstd::prelude::*;

use crate::filter::KyokuFilter;
use crate::raw::{ActionItem, KyokuMeta, RawKyoku, RawLog, RawValue, ResultItem, Rule, Tile};
use crate::text::{contains_char, contains_substr, spec_contains_seq, str_eq};

verus! {

/// Why a raw document was rejected.
#[derive(Debug, Clone, PartialEq, Eq)]
pub enum ParseError {
    /// The wire text could not be deserialized; carries the diagnostic text.
    InvalidJSON { message: String },
    /// The document declares a four-participant game, which is unsupported.
    NotThreePlayer,
    /// A result array claims a win but a detail pair has the wrong shape.
    InvalidHoraDetail,
}

/// Declared game length: a full East+South match or an East-only match.
#[derive(Debug, Clone, Copy, PartialEq, Eq, Structural)]
pub enum GameLength {
    Hanchan,
    Tonpuu,
}

/// A seat's record of one round: starting hand, takes and discards.
#[derive(Debug, Clone)]
pub struct ActionTable {
    pub haipai: Vec<Tile>,
    pub takes: Vec<ActionItem>,
    pub discards: Vec<ActionItem>,
}

/// One winner of a round: the winning seat, the seat it won off
/// (itself for a self-draw), and the score movement of every seat.
#[derive(Debug, Clone, Default, PartialEq)]
pub struct HoraDetail {
    pub who: u8,
    pub target: u8,
    pub score_deltas: [i32; 4],
}

/// How a round ended: one or more wins, or a draw with its score movement.
#[derive(Debug, Clone)]
pub enum EndStatus {
    Hora { details: Vec<HoraDetail> },
    Ryukyoku { score_deltas: [i32; 4] },
}

/// One transformed round.
#[derive(Debug, Clone)]
pub struct Kyoku {
    pub meta: KyokuMeta,
    pub scoreboard: [i32; 4],
    pub dora_indicators: Vec<Tile>,
    pub ura_indicators: Vec<Tile>,
    pub action_tables: [ActionTable; 4],
    pub end_status: EndStatus,
}

/// The decoded match: four seat-ordered names, the derived game length and
/// red-tile flag, and the rounds in document order.
#[derive(Debug, Clone)]
pub struct Log {
    pub names: [String; 4],
    pub game_length: GameLength,
    pub has_aka: bool,
    pub kyokus: Vec<Kyoku>,
}

/// The descriptor text marks a four-participant game, in either of the two
/// recognized localized forms.
pub open spec fn spec_is_four_player(disp: Seq<char>) -> bool {
    disp.contains('四') || spec_contains_seq(disp, "4-Player"@)
}

/// The descriptor text marks an East-only game, in either of the two
/// recognized localized forms.
pub open spec fn spec_is_east_only(disp: Seq<char>) -> bool {
    disp.contains('東') || spec_contains_seq(disp, "East"@)
}

/// Game length derived from the descriptor text: East-only when marked so,
/// East+South otherwise.
pub open spec fn spec_game_length(disp: Seq<char>) -> GameLength {
    if spec_is_east_only(disp) {
        GameLength::Tonpuu
    } else {
        GameLength::Hanchan
    }
}

/// Red/bonus tiles are enabled exactly when the four counters sum positive.
pub open spec fn spec_has_aka(rule: Rule) -> bool {
    rule.aka + rule.aka51 + rule.aka52 + rule.aka53 > 0
}

/// The status tag that marks a winning round.
pub open spec fn spec_win_tag() -> Seq<char> {
    "和了"@
}

/// The result array claims a win: nonempty and tagged with the win tag.
pub open spec fn spec_is_win(results: Seq<ResultItem>) -> bool {
    results.len() > 0 && (results[0] matches ResultItem::Status(s) && s@ == spec_win_tag())
}

/// The winning and target seats read from a winner/target descriptor array,
/// when its first two entries are non-negative integers; the wire field is a
/// single byte, so the values are reduced modulo 256.
pub open spec fn spec_seat_pair(vals: Seq<RawValue>) -> Option<(u8, u8)> {
    if vals.len() >= 2 {
        match (vals[0], vals[1]) {
            (RawValue::Int(w), RawValue::Int(t)) => Some((((w % 256) as u8), ((t % 256) as u8))),
            _ => None,
        }
    } else {
        None
    }
}

/// The win details read from the elements after the status tag, taken as
/// non-overlapping pairs in encounter order; a dangling last element is
/// ignored; a pair of the wrong shape makes the whole array invalid.
pub open spec fn spec_hora_details(rest: Seq<ResultItem>) -> Option<Seq<HoraDetail>>
    decreases rest.len(),
{
    if rest.len() < 2 {
        Some(Seq::empty())
    } else {
        match (rest[0], rest[1]) {
            (ResultItem::ScoreDeltas(sd), ResultItem::HoraDetail(vals)) => match spec_seat_pair(
                vals@,
            ) {
                Some(wt) => match spec_hora_details(rest.skip(2)) {
                    Some(tail) => Some(
                        seq![(HoraDetail { who: wt.0, target: wt.1, score_deltas: sd })] + tail,
                    ),
                    None => None,
                },
                None => None,
            },
            _ => None,
        }
    }
}

/// The score deltas of a round that did not end in a win: the array at
/// position 1 when there is one, all zero otherwise.
pub open spec fn spec_draw_deltas(results: Seq<ResultItem>) -> Seq<i32> {
    if results.len() >= 2 && results[1] matches ResultItem::ScoreDeltas(_) {
        match results[1] {
            ResultItem::ScoreDeltas(sd) => sd@,
            _ => Seq::empty(),
        }
    } else {
        seq![0i32, 0i32, 0i32, 0i32]
    }
}

/// The result array is well formed: when it claims a win, every detail pair
/// has the required shape.
pub open spec fn spec_results_ok(results: Seq<ResultItem>) -> bool {
    spec_is_win(results) ==> spec_hora_details(results.skip(1)) is Some
}

/// Every round of the document has a well-formed result array.
pub open spec fn spec_all_results_ok(logs: Seq<RawKyoku>) -> bool {
    forall|i: int| 0 <= i < logs.len() ==> spec_results_ok(#[trigger] logs[i].results@)
}

/// The transformer accepts the document: not a four-participant game, and
/// every result array well formed.
pub open spec fn spec_accepts(raw: RawLog) -> bool {
    !spec_is_four_player(raw.rule.disp@) && spec_all_results_ok(raw.logs@)
}

/// The outcome `e` is the correct classification of `results`.
pub open spec fn end_status_matches(e: EndStatus, results: Seq<ResultItem>) -> bool {
    if spec_is_win(results) {
        e matches EndStatus::Hora { details } && Some(details@) == spec_hora_details(
            results.skip(1),
        )
    } else {
        e matches EndStatus::Ryukyoku { score_deltas } && score_deltas@ == spec_draw_deltas(results)
    }
}

/// The transformed round `k` is exactly the reassembly of the raw entry `r`:
/// metadata, scoreboard and indicators copied, the four per-seat tables
/// folded by seat index, and the result array classified.
pub open spec fn kyoku_matches(k: Kyoku, r: RawKyoku) -> bool {
    &&& k.meta == r.meta
    &&& k.scoreboard == r.scoreboard
    &&& k.dora_indicators == r.dora_indicators
    &&& k.ura_indicators == r.ura_indicators
    &&& k.action_tables@ == seq![
        (ActionTable { haipai: r.haipai_0, takes: r.takes_0, discards: r.discards_0 }),
        (ActionTable { haipai: r.haipai_1, takes: r.takes_1, discards: r.discards_1 }),
        (ActionTable { haipai: r.haipai_2, takes: r.takes_2, discards: r.discards_2 }),
        (ActionTable { haipai: r.haipai_3, takes: r.takes_3, discards: r.discards_3 }),
    ]
    &&& end_status_matches(k.end_status, r.results@)
}

/// The decoded log is exactly the transformation of the raw document.
pub open spec fn log_matches(log: Log, raw: RawLog) -> bool {
    &&& log.names == raw.names
    &&& log.game_length == spec_game_length(raw.rule.disp@)
    &&& log.has_aka == spec_has_aka(raw.rule)
    &&& log.kyokus@.len() == raw.logs@.len()
    &&& forall|i: int|
        0 <= i < raw.logs@.len() ==> kyoku_matches(#[trigger] log.kyokus@[i], raw.logs@[i])
}

/// The subsequence of `s` admitted by `kf`, order preserved.
pub open spec fn spec_filter_kyokus(s: Seq<Kyoku>, kf: KyokuFilter) -> Seq<Kyoku>
    decreases s.len(),
{
    if s.len() == 0 {
        Seq::empty()
    } else {
        let rest = spec_filter_kyokus(s.drop_last(), kf);
        if kf.spec_test(s.last().meta.kyoku_num, s.last().meta.honba) {
            rest.push(s.last())
        } else {
            rest
        }
    }
}

/// Law: a descriptor with an East-only marker yields an East-only game
/// length, and a descriptor without one yields East+South, whatever else
/// (participant-count markers included) the text contains.
pub proof fn lemma_game_length_markers(disp: Seq<char>)
    ensures
        spec_is_east_only(disp) ==> spec_game_length(disp) == GameLength::Tonpuu,
        !spec_is_east_only(disp) ==> spec_game_length(disp) == GameLength::Hanchan,
{
}

/// Law: the red-tile flag is derived from the sum of the four counters
/// alone; a zero sum disables it and any positive sum enables it.
pub proof fn lemma_aka_flag(rule: Rule)
    ensures
        rule.aka + rule.aka51 + rule.aka52 + rule.aka53 == 0 ==> !spec_has_aka(rule),
        rule.aka + rule.aka51 + rule.aka52 + rule.aka53 > 0 ==> spec_has_aka(rule),
{
}

/// Law: a decoded log always has exactly four player names, and every
/// round exactly four seat tables, whatever the round count.
pub proof fn lemma_log_shape(log: Log)
    ensures
        log.names@.len() == 4,
        forall|i: int|
            0 <= i < log.kyokus@.len() ==> (#[trigger] log.kyokus@[i]).action_tables@.len() == 4,
{
}

/// Law: a result array of the win tag followed by one score-delta array and
/// one two-integer seat descriptor classifies as a win with exactly that one
/// detail.
pub proof fn lemma_single_pair_win(
    results: Seq<ResultItem>,
    sd: [i32; 4],
    vals: Vec<RawValue>,
    w: u64,
    t: u64,
)
    requires
        results.len() == 3,
        results[0] matches ResultItem::Status(s) && s@ == spec_win_tag(),
        results[1] == ResultItem::ScoreDeltas(sd),
        results[2] == ResultItem::HoraDetail(vals),
        vals@.len() == 2,
        vals@[0] == RawValue::Int(w),
        vals@[1] == RawValue::Int(t),
        w < 256,
        t < 256,
    ensures
        spec_is_win(results),
        spec_hora_details(results.skip(1)) == Some(
            seq![(HoraDetail { who: w as u8, target: t as u8, score_deltas: sd })],
        ),
{
    let rest = results.skip(1);
    assert(rest.len() == 2);
    assert(rest[0] == results[1]);
    assert(rest[1] == results[2]);
    assert(spec_seat_pair(vals@) == Some((((w % 256) as u8), ((t % 256) as u8))));
    assert(spec_hora_details(rest.skip(2)) == Some(Seq::<HoraDetail>::empty()));
    let hd = HoraDetail { who: w as u8, target: t as u8, score_deltas: sd };
    assert(seq![hd] + Seq::<HoraDetail>::empty() =~= seq![hd]);
}

/// Law: an empty result array never claims a win and its draw deltas are
/// all zero, so the round decodes to the default draw outcome.
pub proof fn lemma_empty_results_draw(results: Seq<ResultItem>)
    requires
        results.len() == 0,
    ensures
        !spec_is_win(results),
        spec_draw_deltas(results) == seq![0i32, 0i32, 0i32, 0i32],
{
}

/// Law: every round that survives the filter is one the filter admits;
/// filtering removes rounds but never invents or reorders them.
pub proof fn lemma_filter_admits_only(s: Seq<Kyoku>, kf: KyokuFilter, i: int)
    requires
        0 <= i < spec_filter_kyokus(s, kf).len(),
    ensures
        kf.spec_test(
            spec_filter_kyokus(s, kf)[i].meta.kyoku_num,
            spec_filter_kyokus(s, kf)[i].meta.honba,
        ),
        s.contains(spec_filter_kyokus(s, kf)[i]),
    decreases s.len(),
{
    let out = spec_filter_kyokus(s, kf);
    let rest = spec_filter_kyokus(s.drop_last(), kf);
    if i < rest.len() {
        lemma_filter_admits_only(s.drop_last(), kf, i);
        assert(s.drop_last().contains(rest[i]));
        let j = choose|j: int| 0 <= j < s.drop_last().len() && s.drop_last()[j] == rest[i];
        assert(s[j] == out[i]);
    } else {
        assert(out[i] == s.last());
        assert(s[s.len() - 1] == s.last());
    }
}

/// Whether the descriptor text marks a four-participant game.
pub fn disp_is_four_player(disp: &str) -> (r: bool)
    ensures
        r == spec_is_four_player(disp@),
{
    contains_char(disp, '四') || contains_substr(disp, "4-Player")
}

/// Game length read off the descriptor text.
pub fn game_length_of(disp: &str) -> (r: GameLength)
    ensures
        r == spec_game_length(disp@),
{
    if contains_char(disp, '東') || contains_substr(disp, "East") {
        GameLength::Tonpuu
    } else {
        GameLength::Hanchan
    }
}

/// Whether the result array claims a win.
fn results_claim_win(results: &Vec<ResultItem>) -> (r: bool)
    ensures
        r == spec_is_win(results@),
{
    if results.len() == 0 {
        return false;
    }
    match &results[0] {
        ResultItem::Status(s) => str_eq(s.as_str(), "和了"),
        _ => false,
    }
}

/// Read the winning and target seats from a winner/target descriptor array.
fn seat_pair(vals: &Vec<RawValue>) -> (r: Option<(u8, u8)>)
    ensures
        r == spec_seat_pair(vals@),
{
    if vals.len() < 2 {
        return None;
    }
    let w = match vals[0] {
        RawValue::Int(n) => n,
        RawValue::Other => {
            return None;
        },
    };
    let t = match vals[1] {
        RawValue::Int(n) => n,
        RawValue::Other => {
            return None;
        },
    };
    Some((((w % 256) as u8), ((t % 256) as u8)))
}

/// Collect the win details that follow the status tag, failing on the first
/// pair of the wrong shape.
fn hora_details(results: &Vec<ResultItem>) -> (r: Result<Vec<HoraDetail>, ParseError>)
    requires
        results@.len() >= 1,
    ensures
        match r {
            Ok(details) => Some(details@) == spec_hora_details(results@.skip(1)),
            Err(e) => e is InvalidHoraDetail && spec_hora_details(results@.skip(1)) is None,
        },
{
    let n = results.len();
    let mut details: Vec<HoraDetail> = Vec::new();
    let mut i: usize = 1;
    while i < n - 1
        invariant
            1 <= i <= n,
            n == results@.len(),
            spec_hora_details(results@.skip(1)) == (match spec_hora_details(
                results@.skip(i as int),
            ) {
                Some(tail) => Some(details@ + tail),
                None => None::<Seq<HoraDetail>>,
            }),
        decreases n - i,
    {
        let ghost rest = results@.skip(i as int);
        proof {
            assert(rest.len() >= 2);
            assert(rest[0] == results@[i as int]);
            assert(rest[1] == results@[i + 1]);
            assert(rest.skip(2) =~= results@.skip(i + 2));
        }
        let ok = match (&results[i], &results[i + 1]) {
            (ResultItem::ScoreDeltas(sd), ResultItem::HoraDetail(vals)) => match seat_pair(vals) {
                Some(wt) => {
                    let ghost before = details@;
                    details.push(HoraDetail { who: wt.0, target: wt.1, score_deltas: *sd });
                    proof {
                        assert forall|tail: Seq<HoraDetail>|
                            details@ + tail =~= before + (seq![
                                (HoraDetail { who: wt.0, target: wt.1, score_deltas: *sd }),
                            ] + tail) by {}
                    }
                    true
                },
                None => false,
            },
            _ => false,
        };
        if !ok {
            return Err(ParseError::InvalidHoraDetail);
        }
        i += 2;
    }
    proof {
        assert(results@.skip(i as int).len() < 2);
        assert(details@ + Seq::<HoraDetail>::empty() =~= details@);
    }
    Ok(details)
}

/// The score deltas of a round that did not end in a win.
fn draw_deltas(results: &Vec<ResultItem>) -> (r: [i32; 4])
    ensures
        r@ == spec_draw_deltas(results@),
{
    if results.len() >= 2 {
        if let ResultItem::ScoreDeltas(sd) = &results[1] {
            return *sd;
        }
    }
    let z: [i32; 4] = [0, 0, 0, 0];
    assert(z@ =~= spec_draw_deltas(results@));
    z
}

/// Transform one raw round entry: copy its fields, fold the per-seat lists,
/// and classify its result array.
fn transform_kyoku(rk: RawKyoku) -> (r: Result<Kyoku, ParseError>)
    ensures
        match r {
            Ok(k) => kyoku_matches(k, rk) && spec_results_ok(rk.results@),
            Err(e) => e is InvalidHoraDetail && !spec_results_ok(rk.results@),
        },
{
    let end_status: EndStatus;
    if results_claim_win(&rk.results) {
        match hora_details(&rk.results) {
            Ok(details) => {
                end_status = EndStatus::Hora { details };
            },
            Err(e) => {
                return Err(e);
            },
        }
    } else {
        end_status = EndStatus::Ryukyoku { score_deltas: draw_deltas(&rk.results) };
    }
    let k = Kyoku {
        meta: rk.meta,
        scoreboard: rk.scoreboard,
        dora_indicators: rk.dora_indicators,
        ura_indicators: rk.ura_indicators,
        action_tables: [
            ActionTable { haipai: rk.haipai_0, takes: rk.takes_0, discards: rk.discards_0 },
            ActionTable { haipai: rk.haipai_1, takes: rk.takes_1, discards: rk.discards_1 },
            ActionTable { haipai: rk.haipai_2, takes: rk.takes_2, discards: rk.discards_2 },
            ActionTable { haipai: rk.haipai_3, takes: rk.takes_3, discards: rk.discards_3 },
        ],
        end_status,
    };
    proof {
        assert(k.action_tables@ =~= seq![
            (ActionTable { haipai: rk.haipai_0, takes: rk.takes_0, discards: rk.discards_0 }),
            (ActionTable { haipai: rk.haipai_1, takes: rk.takes_1, discards: rk.discards_1 }),
            (ActionTable { haipai: rk.haipai_2, takes: rk.takes_2, discards: rk.discards_2 }),
            (ActionTable { haipai: rk.haipai_3, takes: rk.takes_3, discards: rk.discards_3 }),
        ]);
    }
    Ok(k)
}

impl Log {
    /// Decode a raw document into the domain model: reject four-participant
    /// documents, derive game length and the red-tile flag from the rule
    /// block, and transform every round in document order.
    pub fn try_from_raw(raw: RawLog) -> (r: Result<Log, ParseError>)
        ensures
            r is Ok <==> spec_accepts(raw),
            spec_is_four_player(raw.rule.disp@) ==> (r matches Err(e) && e is NotThreePlayer),
            (!spec_is_four_player(raw.rule.disp@) && !spec_all_results_ok(raw.logs@)) ==> (
            r matches Err(e) && e is InvalidHoraDetail),
            r matches Ok(log) ==> log_matches(log, raw),
    {
        let ghost orig = raw.logs@;
        let RawLog { mut logs, names, rule } = raw;

        if disp_is_four_player(rule.disp.as_str()) {
            return Err(ParseError::NotThreePlayer);
        }
        let game_length = game_length_of(rule.disp.as_str());
        let has_aka = (rule.aka as u64) + (rule.aka51 as u64) + (rule.aka52 as u64) + (
        rule.aka53 as u64) > 0;

        let mut kyokus: Vec<Kyoku> = Vec::new();
        proof {
            assert(orig.skip(0) =~= orig);
        }
        #[verifier::loop_isolation(false)]
        while logs.len() > 0
            invariant
                kyokus@.len() + logs@.len() == orig.len(),
                logs@ == orig.skip(kyokus@.len() as int),
                forall|i: int|
                    0 <= i < kyokus@.len() ==> kyoku_matches(#[trigger] kyokus@[i], orig[i]),
                forall|i: int|
                    0 <= i < kyokus@.len() ==> spec_results_ok(#[trigger] orig[i].results@),
            decreases logs@.len(),
        {
            let ghost j = kyokus@.len() as int;
            let rk = logs.remove(0);
            proof {
                assert(rk == orig.skip(j)[0]);
                assert(rk == orig[j]);
                assert(logs@ =~= orig.skip(j + 1));
            }
            match transform_kyoku(rk) {
                Ok(k) => {
                    kyokus.push(k);
                },
                Err(e) => {
                    proof {
                        assert(!spec_results_ok(orig[j].results@));
                        assert(!spec_all_results_ok(orig));
                    }
                    return Err(e);
                },
            }
        }
        Ok(Log { names, game_length, has_aka, kyokus })
    }

    /// Remove every round whose (round number, repeat count) pair the filter
    /// rejects; the survivors keep their document order, and every other
    /// field of the log is untouched.
    pub fn filter_kyokus(&mut self, kyoku_filter: &KyokuFilter)
        ensures
            final(self).names == old(self).names,
            final(self).game_length == old(self).game_length,
            final(self).has_aka == old(self).has_aka,
            final(self).kyokus@ == spec_filter_kyokus(old(self).kyokus@, *kyoku_filter),
    {
        let ghost orig = self.kyokus@;
        let mut kept: Vec<Kyoku> = Vec::new();
        while self.kyokus.len() > 0
            invariant
                self.kyokus@.len() <= orig.len(),
                self.kyokus@ == orig.skip(orig.len() - self.kyokus@.len()),
                kept@ == spec_filter_kyokus(
                    orig.take(orig.len() - self.kyokus@.len()),
                    *kyoku_filter,
                ),
                self.names == old(self).names,
                self.game_length == old(self).game_length,
                self.has_aka == old(self).has_aka,
            decreases self.kyokus@.len(),
        {
            let ghost j = orig.len() - self.kyokus@.len();
            let k = self.kyokus.remove(0);
            proof {
                assert(k == orig.skip(j)[0]);
                assert(k == orig[j]);
                assert(self.kyokus@ =~= orig.skip(j + 1));
                assert(orig.take(j + 1).drop_last() =~= orig.take(j));
                assert(orig.take(j + 1).last() == orig[j]);
            }
            if kyoku_filter.test(k.meta.kyoku_num, k.meta.honba) {
                kept.push(k);
            }
        }
        proof {
            assert(orig.take(orig.len() as int) =~= orig);
        }
        self.kyokus = kept;
    }
}

} // verus!
