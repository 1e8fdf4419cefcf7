//! The waiting timer: shows the candidates of a conversion that the conversion key did
//! not wait for.

use crate::engine::conversion::{views, SplitBlock};
use crate::engine::paging::pages_are_filled;
use crate::engine::state::{fresh_choice, SelectingModel, SessionModel, SessionState};
use crate::tsf::convert::{shown, DICT_LIMIT};
use crate::tsf::effects::{
    answers, ask, ask_model, done, done_model, emit, flag_of, found_of, items_of, no_effects,
    AskOf, BgStatus, EffectOf, EngineFacts, FactsModel, NextModel, Reply, ReplyModel, ReplyOf,
    Turn, TurnModel,
};
use crate::tsf::world::{played, played_to, World};
use vstd::prelude::*;

verus! {

/// Time between two looks at the conversion.
pub const WAITING_POLL_MS: u32 = 80;

/// What is being waited for.
#[verifier::ext_equal]
#[derive(Debug, PartialEq)]
pub struct WaitInfoOf<T> {
    pub text: T,
    pub pos_x: i32,
    pub pos_y: i32,
    pub remainder: T,
    pub remainder_reading: T,
}

pub type WaitInfo = WaitInfoOf<String>;

pub type WaitInfoModel = WaitInfoOf<Seq<char>>;

impl View for WaitInfoOf<String> {
    type V = WaitInfoModel;

    open spec fn view(&self) -> WaitInfoModel {
        WaitInfoOf {
            text: self.text@,
            pos_x: self.pos_x,
            pos_y: self.pos_y,
            remainder: self.remainder@,
            remainder_reading: self.remainder_reading@,
        }
    }
}

/// Where the timer continues.
#[verifier::ext_equal]
#[derive(Debug, PartialEq)]
pub enum WaitPointOf<T> {
    Tick,
    Taken { info: WaitInfoOf<T> },
    TakenAlt { info: WaitInfoOf<T> },
    Restarted,
    Merged { info: WaitInfoOf<T> },
}

pub type WaitPoint = WaitPointOf<String>;

pub type WaitPointModel = WaitPointOf<Seq<char>>;

impl View for WaitPointOf<String> {
    type V = WaitPointModel;

    open spec fn view(&self) -> WaitPointModel {
        match *self {
            WaitPointOf::Tick => WaitPointOf::Tick,
            WaitPointOf::Taken { info } => WaitPointOf::Taken { info: info@ },
            WaitPointOf::TakenAlt { info } => WaitPointOf::TakenAlt { info: info@ },
            WaitPointOf::Restarted => WaitPointOf::Restarted,
            WaitPointOf::Merged { info } => WaitPointOf::Merged { info: info@ },
        }
    }
}

impl WaitPointOf<Seq<char>> {
    /// Whether the timer can be resumed here with `reply`.
    pub open spec fn fits(self, reply: ReplyModel) -> bool {
        match self {
            WaitPointOf::Tick => true,
            WaitPointOf::Taken { .. } => reply is Taken,
            WaitPointOf::TakenAlt { .. } => reply is Taken,
            WaitPointOf::Restarted => reply is Flag,
            WaitPointOf::Merged { .. } => reply is List,
        }
    }

    /// How many turns can follow at most.
    pub open spec fn turns_left(self) -> nat {
        match self {
            WaitPointOf::Tick => 4,
            WaitPointOf::Taken { .. } => 3,
            WaitPointOf::TakenAlt { .. } => 2,
            WaitPointOf::Restarted => 1,
            WaitPointOf::Merged { .. } => 1,
        }
    }
}

pub type WaitTurn = (TurnModel<WaitPointModel>, SessionModel);

/// Neither key had the conversion: it is started again.
pub open spec fn restart(width: usize, sess: SessionModel) -> WaitTurn {
    (ask_model(seq![EffectOf::Reclaim], AskOf::Start { width }, WaitPointOf::Restarted), sess)
}

/// The dictionary adds to what the conversion brought.
pub open spec fn merge_for(
    items: Seq<Seq<char>>,
    info: WaitInfoModel,
    sess: SessionModel,
) -> WaitTurn {
    (
        ask_model(
            seq![],
            AskOf::Merge { candidates: items, limit: DICT_LIMIT },
            WaitPointOf::Merged { info },
        ),
        sess,
    )
}

/// The choice that takes the place of the waiting: what was left out of the
/// conversion stays behind it.
pub open spec fn arrived(items: Seq<Seq<char>>, info: WaitInfoModel) -> SelectingModel {
    SelectingModel {
        remainder: info.remainder,
        remainder_reading: info.remainder_reading,
        ..fresh_choice(items, info.text, info.pos_x, info.pos_y, false)
    }
}

/// What the timer does at `point` with the answer `reply`. `facts` is missing where the
/// engine cannot be had.
pub open spec fn waiting_turn(
    point: WaitPointModel,
    reply: ReplyModel,
    facts: Option<FactsModel>,
    width: usize,
    sess: SessionModel,
) -> WaitTurn {
    match point {
        WaitPointOf::Tick => match sess {
            SessionModel::Waiting { text, pos_x, pos_y, remainder, remainder_reading } => {
                let info = WaitInfoOf { text, pos_x, pos_y, remainder, remainder_reading };
                if facts is Some && facts->0.bg is Done {
                    (
                        ask_model(
                            seq![EffectOf::StopWaitingTimer],
                            AskOf::Take { key: text },
                            WaitPointOf::Taken { info },
                        ),
                        sess,
                    )
                } else {
                    (done_model(seq![], false), sess)
                }
            },
            _ => (done_model(seq![EffectOf::StopWaitingTimer], false), sess),
        },
        WaitPointOf::Taken { info } => match reply->found {
            Some(items) => merge_for(items, info, sess),
            None => if facts is Some && facts->0.hiragana != info.text {
                (
                    ask_model(
                        seq![],
                        AskOf::Take { key: facts->0.hiragana },
                        WaitPointOf::TakenAlt { info },
                    ),
                    sess,
                )
            } else {
                restart(width, sess)
            },
        },
        WaitPointOf::TakenAlt { info } => match reply->found {
            Some(items) => merge_for(items, info, sess),
            None => restart(width, sess),
        },
        WaitPointOf::Restarted => (
            done_model(
                if reply->on {
                    seq![EffectOf::StartWaitingTimer]
                } else {
                    seq![]
                },
                false,
            ),
            sess,
        ),
        WaitPointOf::Merged { info } => if reply->items.len() == 0 {
            (done_model(seq![], false), sess)
        } else {
            let choice = arrived(reply->items, info);
            (
                done_model(
                    seq![
                        shown(choice.page(), 0, choice.info(), info.pos_x, info.pos_y, None),
                    ],
                    false,
                ),
                SessionModel::Selecting(choice),
            )
        },
    }
}

fn restart_turn(width: usize, sess: &SessionState) -> (r: Turn<WaitPoint>)
    ensures
        (r@, sess@) == restart(width, sess@),
{
    let mut fx = no_effects();
    emit(&mut fx, EffectOf::Reclaim);
    ask(fx, AskOf::Start { width }, WaitPointOf::Restarted)
}

fn merge_turn(items: Vec<String>, info: WaitInfo, sess: &SessionState) -> (r: Turn<WaitPoint>)
    ensures
        (r@, sess@) == merge_for(views(items@), info@, sess@),
{
    ask(
        no_effects(),
        AskOf::Merge { candidates: items, limit: DICT_LIMIT },
        WaitPointOf::Merged { info },
    )
}

fn wait_info(sess: &SessionState) -> (r: Option<WaitInfo>)
    ensures
        match sess@ {
            SessionModel::Waiting { text, pos_x, pos_y, remainder, remainder_reading } => r is Some
                && r->0@ == (WaitInfoOf { text, pos_x, pos_y, remainder, remainder_reading }),
            _ => r is None,
        },
{
    match sess {
        SessionState::Waiting { text, pos_x, pos_y, remainder, remainder_reading } => Some(
            WaitInfoOf {
                text: text.clone(),
                pos_x: *pos_x,
                pos_y: *pos_y,
                remainder: remainder.clone(),
                remainder_reading: remainder_reading.clone(),
            },
        ),
        _ => None,
    }
}

fn arrive(items: Vec<String>, info: WaitInfo, sess: &mut SessionState)
    ensures
        final(sess)@ == SessionModel::Selecting(arrived(views(items@), info@)),
        final(sess)@.wf(),
{
    let none: Vec<SplitBlock> = Vec::new();
    let none2: Vec<SplitBlock> = Vec::new();
    assert(views(none@) =~= Seq::empty());
    assert(views(none2@) =~= Seq::empty());
    sess.activate_selecting_with_affixes(
        items,
        info.text,
        info.pos_x,
        info.pos_y,
        false,
        String::new(),
        String::new(),
        info.remainder,
        info.remainder_reading,
        none,
        none2,
    );
}

/// The waiting timer: goes on at `point` with the answer to what was asked last.
/// `width` is the number of candidates to ask for.
pub fn on_waiting_timer(
    point: WaitPoint,
    reply: Reply,
    facts: Option<&EngineFacts>,
    width: usize,
    sess: &mut SessionState,
) -> (r: Turn<WaitPoint>)
    requires
        point@.fits(reply@),
        old(sess)@.wf(),
    ensures
        (r@, final(sess)@) == waiting_turn(
            point@,
            reply@,
            (match facts {
                Some(f) => Some(f@),
                None => None,
            }),
            width,
            old(sess)@,
        ),
        final(sess)@.wf(),
{
    let mut fx = no_effects();
    match point {
        WaitPointOf::Tick => {
            let info = match wait_info(sess) {
                Some(info) => info,
                None => {
                    emit(&mut fx, EffectOf::StopWaitingTimer);
                    return done(fx, false);
                },
            };
            let finished = match facts {
                Some(f) => match f.bg {
                    BgStatus::Done => true,
                    _ => false,
                },
                None => false,
            };
            if !finished {
                return done(fx, false);
            }
            emit(&mut fx, EffectOf::StopWaitingTimer);
            ask(fx, AskOf::Take { key: info.text.clone() }, WaitPointOf::Taken { info })
        },
        WaitPointOf::Taken { info } => match found_of(reply) {
            Some(items) => merge_turn(items, info, sess),
            None => {
                if let Some(f) = facts {
                    if f.hiragana != info.text {
                        return ask(
                            fx,
                            AskOf::Take { key: f.hiragana.clone() },
                            WaitPointOf::TakenAlt { info },
                        );
                    }
                }
                restart_turn(width, sess)
            },
        },
        WaitPointOf::TakenAlt { info } => match found_of(reply) {
            Some(items) => merge_turn(items, info, sess),
            None => restart_turn(width, sess),
        },
        WaitPointOf::Restarted => {
            if flag_of(&reply) {
                emit(&mut fx, EffectOf::StartWaitingTimer);
            }
            done(fx, false)
        },
        WaitPointOf::Merged { info } => {
            let items = items_of(reply);
            if items.len() == 0 {
                return done(fx, false);
            }
            let x: i32 = info.pos_x;
            let y: i32 = info.pos_y;
            arrive(items, info, sess);
            emit(
                &mut fx,
                EffectOf::ShowWindow {
                    items: sess.page_candidates(),
                    selected: 0,
                    info: sess.page_info(),
                    x,
                    y,
                    status: None,
                },
            );
            done(fx, false)
        },
    }
}

/// Whatever the engine answers, the timer can be resumed with it, and one tick
/// finishes after a bounded number of turns.
pub proof fn waiting_runs_to_its_end(
    point: WaitPointModel,
    reply: ReplyModel,
    facts: Option<FactsModel>,
    width: usize,
    sess: SessionModel,
)
    requires
        point.fits(reply),
    ensures
        match waiting_turn(point, reply, facts, width, sess).0.next {
            NextModel::Done { .. } => true,
            NextModel::Ask { ask, then } => {
                &&& then.turns_left() < point.turns_left()
                &&& forall|answer: ReplyModel| #[trigger]
                    answers(ask, answer) ==> then.fits(answer)
            },
        },
{
}

/// A conversion of a marked range loses nothing when it arrives late: what was not
/// marked stands behind the choice.
pub proof fn late_conversion_keeps_remainder(
    items: Seq<Seq<char>>,
    info: WaitInfoModel,
    facts: Option<FactsModel>,
    width: usize,
    sess: SessionModel,
)
    requires
        items.len() > 0,
    ensures
        ({
            let after = waiting_turn(
                WaitPointOf::Merged { info },
                crate::tsf::effects::ReplyOf::List { items },
                facts,
                width,
                sess,
            ).1;
            &&& after is Selecting
            &&& after->Selecting_0.candidates == items
            &&& after->Selecting_0.original_preedit == info.text
            &&& after->Selecting_0.remainder == info.remainder
            &&& after->Selecting_0.remainder_reading == info.remainder_reading
        }),
{
}

/// A tick of the timer leaves everything alone while the conversion runs; once it is finished,
/// the timer stops and the conversion of the text that is waited for is taken. Where nothing is
/// waited for, the timer stops.
pub proof fn timer_waits_for_the_conversion(
    w: World,
    reply: ReplyModel,
    facts: Option<FactsModel>,
    width: usize,
    sess: SessionModel,
)
    ensures
        ({
            let (turn, after) = waiting_turn(WaitPointOf::Tick, reply, facts, width, sess);
            let then = played(w, turn.effects);
            let finished = facts is Some && facts->0.bg is Done;
            &&& after == sess
            &&& !(sess is Waiting) ==> turn.next is Done && then == (World { waiting: false, ..w })
            &&& sess is Waiting && !finished ==> turn.next is Done && then == w
            &&& sess is Waiting && finished ==> {
                &&& then == (World { waiting: false, ..w })
                &&& turn.next is Ask
                &&& turn.next->ask == (AskOf::<Seq<char>, Seq<Seq<char>>>::Take {
                    key: sess->Waiting_text,
                })
                &&& turn.next->then == (WaitPointOf::Taken {
                    info: WaitInfoOf {
                        text: sess->Waiting_text,
                        pos_x: sess->Waiting_pos_x,
                        pos_y: sess->Waiting_pos_y,
                        remainder: sess->Waiting_remainder,
                        remainder_reading: sess->Waiting_remainder_reading,
                    },
                })
            }
        }),
{
    reveal_with_fuel(played_to, 3);
}

/// A conversion that has come is completed by the dictionary and shown where the user waits
/// for it: a choice for the text that was waited for, with what was left out of it behind. A
/// conversion under neither name is started again, and the timer goes on if it was.
pub proof fn arrived_conversion_is_shown(
    w: World,
    items: Seq<Seq<char>>,
    info: WaitInfoModel,
    on: bool,
    facts: Option<FactsModel>,
    width: usize,
    sess: SessionModel,
)
    requires
        items.len() > 0,
    ensures
        ({
            let merge = NextModel::<WaitPointModel>::Ask {
                ask: AskOf::Merge { candidates: items, limit: 40 },
                then: WaitPointOf::Merged { info },
            };
            let start = NextModel::<WaitPointModel>::Ask {
                ask: AskOf::Start { width },
                then: WaitPointOf::Restarted,
            };
            let some = ReplyOf::Taken { found: Some(items) };
            let none = ReplyOf::Taken { found: None };
            let first = WaitPointOf::Taken { info };
            let second = WaitPointOf::TakenAlt { info };
            let missed = waiting_turn(first, none, facts, width, sess);
            let missed_again = waiting_turn(second, none, facts, width, sess);
            &&& waiting_turn(first, some, facts, width, sess).0.next == merge
            &&& waiting_turn(second, some, facts, width, sess).0.next == merge
            &&& facts is Some && facts->0.hiragana != info.text ==> missed.0.next == (
            NextModel::<WaitPointModel>::Ask {
                ask: AskOf::Take { key: facts->0.hiragana },
                then: second,
            })
            &&& !(facts is Some && facts->0.hiragana != info.text) ==> missed == missed_again
            &&& missed_again.0.next == start
            &&& played(w, missed_again.0.effects).background is None
            &&& missed.1 == sess && missed_again.1 == sess
        }),
        ({
            let (turn, after) = waiting_turn(
                WaitPointOf::Restarted,
                ReplyOf::Flag { on },
                facts,
                width,
                sess,
            );
            &&& turn.next is Done && after == sess
            &&& played(w, turn.effects) == (World { waiting: w.waiting || on, ..w })
        }),
        ({
            let (turn, after) = waiting_turn(
                WaitPointOf::Merged { info },
                ReplyOf::List { items },
                facts,
                width,
                sess,
            );
            let then = played(w, turn.effects);
            &&& turn.next is Done
            &&& after is Selecting
            &&& after->Selecting_0.candidates == items
            &&& after->Selecting_0.selected == 0
            &&& after->Selecting_0.original_preedit == info.text
            &&& after->Selecting_0.remainder == info.remainder
            &&& after->Selecting_0.remainder_reading == info.remainder_reading
            &&& after->Selecting_0.prefix.len() == 0
            &&& !after->Selecting_0.llm_pending
            &&& after->Selecting_0.punct_pending is None
            &&& then.document == w.document && then.engine == w.engine
            &&& then.window is Some
            &&& then.window->0.items == items.take(
                if items.len() < 9 {
                    items.len() as int
                } else {
                    9
                },
            )
            &&& then.window->0.selected == 0
            &&& then.window->0.x == info.pos_x && then.window->0.y == info.pos_y
        }),
        waiting_turn(
            WaitPointOf::Merged { info },
            ReplyOf::List { items: Seq::empty() },
            facts,
            width,
            sess,
        ).1 == sess,
{
    reveal_with_fuel(played_to, 3);
    pages_are_filled(items.len() as int, 0, 9);
    assert(arrived(items, info).page() =~= items.take(
        if items.len() < 9 {
            items.len() as int
        } else {
            9
        },
    ));
}

/// A timer uses up no key.
pub proof fn timer_takes_no_key(
    point: WaitPointModel,
    reply: ReplyModel,
    facts: Option<FactsModel>,
    width: usize,
    sess: SessionModel,
)
    ensures
        ({
            let turn = waiting_turn(point, reply, facts, width, sess).0;
            turn.next is Done ==> !turn.next->eaten
        }),
{
}

} // verus!
