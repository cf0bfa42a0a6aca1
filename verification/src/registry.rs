//! The bot registry: the bots in the order in which they were registered.
//!
//! A query runs in two steps, so that the registry is never held while the
//! completion service is awaited. `AiContext::prepare_request` resolves the
//! bot, records the user's turn and hands out the request;
//! `AiContext::get_response` takes what the service answered and records the
//! bot's turn. Storage is the caller's business: `AiContext::new` takes what
//! was read back, and `AiContext::bots` gives what is to be written.

use vstd::prelude::*;
use vstd::string::StringExecFns;
use crate::bots::{
    assistant_turn, bots_view, history_extends, new_bot, opt_str_view, opt_string_view,
    request_for, same_name, user_turn, with_turn, Bot, BotView, ChatRequest, ChatTurnView,
};

verus! {

/// The name of the bot that exists when no saved registry could be read.
pub const DEFAULT_BOT: &'static str = "Greg";

/// Who owns the default bot.
pub const DEFAULT_OWNER: &'static str = "System";

/// A reply as the contracts see it.
pub ghost struct AiResponseView {
    pub bot_name: Seq<char>,
    pub response: Seq<char>,
}

/// A failure as the contracts see it.
pub ghost enum AiErrorView {
    NoBotsFound,
    BotDoesNotExist(Seq<char>),
    ApiError(Seq<char>),
}

/// The bot that stands in when no saved registry could be read.
pub open spec fn default_bot() -> BotView {
    new_bot(DEFAULT_BOT@, DEFAULT_OWNER@, None, None)
}

/// The registry that a start of the program has: the saved one, or the
/// default bot alone.
pub open spec fn restored(saved: Option<Seq<BotView>>) -> Seq<BotView> {
    match saved {
        Some(bots) => bots,
        None => seq![default_bot()],
    }
}

/// The position of the first bot at or after `from` whose name is `name` once
/// case is ignored, or the number of bots when there is none.
pub open spec fn first_named(bots: Seq<BotView>, name: Seq<char>, from: int) -> int
    decreases bots.len() - from,
{
    if 0 <= from < bots.len() && !same_name(bots[from].name, name) {
        first_named(bots, name, from + 1)
    } else {
        from
    }
}

/// The position of the first bot at or after `from` whose name is exactly
/// `name`, or the number of bots when there is none.
pub open spec fn first_exact(bots: Seq<BotView>, name: Seq<char>, from: int) -> int
    decreases bots.len() - from,
{
    if 0 <= from < bots.len() && bots[from].name != name {
        first_exact(bots, name, from + 1)
    } else {
        from
    }
}

/// Which bot a query is for: the first one of that name, case ignored, or the
/// first one registered when no name is given.
pub open spec fn target(bots: Seq<BotView>, bot_name: Option<Seq<char>>) -> Result<
    int,
    AiErrorView,
> {
    match bot_name {
        Some(name) => {
            if first_named(bots, name, 0) < bots.len() {
                Ok(first_named(bots, name, 0))
            } else {
                Err(AiErrorView::BotDoesNotExist(name))
            }
        },
        None => {
            if bots.len() > 0 {
                Ok(0)
            } else {
                Err(AiErrorView::NoBotsFound)
            }
        },
    }
}

/// The registry with one more turn in the history of the bot at `i`.
pub open spec fn with_turn_at(bots: Seq<BotView>, i: int, t: ChatTurnView) -> Seq<BotView> {
    bots.update(i, with_turn(bots[i], t))
}

/// The text that the service answered, empty where it sent none.
pub open spec fn reply_text(content: Option<Seq<char>>) -> Seq<char> {
    match content {
        Some(text) => text,
        None => Seq::empty(),
    }
}

/// What a bot answered.
#[derive(Debug)]
pub struct AiResponse {
    pub bot_name: String,
    pub response: String,
}

impl View for AiResponse {
    type V = AiResponseView;

    open spec fn view(&self) -> AiResponseView {
        AiResponseView { bot_name: self.bot_name@, response: self.response@ }
    }
}

/// Why a query got no answer.
#[derive(Debug)]
pub enum AiResponseError {
    /// No bot is registered.
    NoBotsFound,
    /// No bot of that name is registered.
    BotDoesNotExist(String),
    /// The completion service failed; carries what it reported.
    ApiError(String),
}

impl View for AiResponseError {
    type V = AiErrorView;

    open spec fn view(&self) -> AiErrorView {
        match *self {
            AiResponseError::NoBotsFound => AiErrorView::NoBotsFound,
            AiResponseError::BotDoesNotExist(name) => AiErrorView::BotDoesNotExist(name@),
            AiResponseError::ApiError(report) => AiErrorView::ApiError(report@),
        }
    }
}

/// What the text of a failure says.
pub open spec fn error_text(e: AiErrorView) -> Seq<char> {
    match e {
        AiErrorView::NoBotsFound => "There are no bots created currently"@,
        AiErrorView::BotDoesNotExist(name) => "Bot \""@ + name + "\" does not exist"@,
        AiErrorView::ApiError(_) => "API call failed"@,
    }
}

impl AiResponseError {
    /// The failure in words, as it is shown to users.
    pub fn message(&self) -> (r: String)
        ensures
            r@ == error_text(self@),
    {
        match self {
            AiResponseError::NoBotsFound => "There are no bots created currently".to_owned(),
            AiResponseError::BotDoesNotExist(name) => {
                let mut r = String::new();
                r.append("Bot \"");
                r.append(name.as_str());
                r.append("\" does not exist");
                assert(r@ =~= error_text(self@));
                r
            },
            AiResponseError::ApiError(_) => "API call failed".to_owned(),
        }
    }
}

/// The registry of bots.
#[derive(Debug)]
pub struct AiContext {
    bots: Vec<Bot>,
}

impl View for AiContext {
    type V = Seq<BotView>;

    /// The bots in the order in which they were registered.
    closed spec fn view(&self) -> Seq<BotView> {
        bots_view(self.bots@)
    }
}

/// Whether `newer` is `older` after turns were added: every bot of `older` is
/// still in its place with its settings, and its history only grew at the end.
/// Bots may have been added behind the others.
pub open spec fn grown_from(older: Seq<BotView>, newer: Seq<BotView>) -> bool {
    &&& older.len() <= newer.len()
    &&& forall|i: int|
        0 <= i < older.len() ==> {
            &&& (#[trigger] newer[i]).name == older[i].name
            &&& newer[i].created_by == older[i].created_by
            &&& newer[i].custom_config == older[i].custom_config
            &&& newer[i].language == older[i].language
            &&& history_extends(older[i].history, newer[i].history)
        }
}

/// How many bots are called exactly `name`.
pub open spec fn count_called(bots: Seq<BotView>, name: Seq<char>) -> nat
    decreases bots.len(),
{
    if bots.len() == 0 {
        0
    } else {
        count_called(bots.drop_last(), name) + if bots.last().name == name {
            1nat
        } else {
            0nat
        }
    }
}

/// `first_named` finds the first bot of that name, case ignored: no bot before
/// it has the name, and the bot it stops at has it.
pub proof fn lemma_first_named(bots: Seq<BotView>, name: Seq<char>, from: int)
    requires
        0 <= from <= bots.len(),
    ensures
        from <= first_named(bots, name, from) <= bots.len(),
        forall|k: int|
            from <= k < first_named(bots, name, from) ==> !same_name(
                (#[trigger] bots[k]).name,
                name,
            ),
        first_named(bots, name, from) < bots.len() ==> same_name(
            bots[first_named(bots, name, from)].name,
            name,
        ),
    decreases bots.len() - from,
{
    if from < bots.len() && !same_name(bots[from].name, name) {
        lemma_first_named(bots, name, from + 1);
    }
}

/// `first_exact` finds the first bot called exactly `name`: no bot before it
/// has the name, and the bot it stops at has it.
pub proof fn lemma_first_exact(bots: Seq<BotView>, name: Seq<char>, from: int)
    requires
        0 <= from <= bots.len(),
    ensures
        from <= first_exact(bots, name, from) <= bots.len(),
        forall|k: int|
            from <= k < first_exact(bots, name, from) ==> (#[trigger] bots[k]).name != name,
        first_exact(bots, name, from) < bots.len() ==> bots[first_exact(bots, name, from)].name
            == name,
    decreases bots.len() - from,
{
    if from < bots.len() && bots[from].name != name {
        lemma_first_exact(bots, name, from + 1);
    }
}

/// Nothing grows from itself by nothing.
pub proof fn lemma_grown_from_itself(bots: Seq<BotView>)
    ensures
        grown_from(bots, bots),
{
}

/// Growth adds up: however many queries are opened and closed and bots are
/// added, in whatever order, every history still begins with what it held
/// before, in the order in which it was said.
pub proof fn lemma_grown_from_chains(
    first: Seq<BotView>,
    second: Seq<BotView>,
    third: Seq<BotView>,
)
    requires
        grown_from(first, second),
        grown_from(second, third),
    ensures
        grown_from(first, third),
{
    assert forall|i: int| 0 <= i < first.len() implies {
        &&& (#[trigger] third[i]).name == first[i].name
        &&& third[i].created_by == first[i].created_by
        &&& third[i].custom_config == first[i].custom_config
        &&& third[i].language == first[i].language
        &&& history_extends(first[i].history, third[i].history)
    } by {
        assert(second[i].name == first[i].name);
        assert(history_extends(first[i].history, second[i].history));
        assert(history_extends(second[i].history, third[i].history));
        assert(first[i].history =~= third[i].history.subrange(0, first[i].history.len() as int));
    }
}

/// A turn that is recorded goes to the end of one history and leaves every
/// other bot as it was.
pub proof fn lemma_turn_goes_last(bots: Seq<BotView>, i: int, t: ChatTurnView)
    requires
        0 <= i < bots.len(),
    ensures
        grown_from(bots, with_turn_at(bots, i, t)),
        with_turn_at(bots, i, t).len() == bots.len(),
        with_turn_at(bots, i, t)[i].history.last() == t,
        with_turn_at(bots, i, t)[i].history.drop_last() == bots[i].history,
        forall|j: int| 0 <= j < bots.len() && j != i ==> with_turn_at(bots, i, t)[j] == bots[j],
{
    let after = with_turn_at(bots, i, t);
    assert(after[i].history.drop_last() =~= bots[i].history);
    assert forall|j: int| 0 <= j < bots.len() implies history_extends(
        bots[j].history,
        (#[trigger] after[j]).history,
    ) by {
        if j == i {
            assert(bots[i].history =~= after[i].history.subrange(0, bots[i].history.len() as int));
        } else {
            assert(bots[j].history =~= after[j].history.subrange(0, bots[j].history.len() as int));
        }
    }
}

/// A bot that was added is there when the registry is written and read back:
/// it is the last one, as it was given, and the others are as they were.
pub proof fn lemma_added_bot_is_restored(bots: Seq<BotView>, bot: BotView)
    ensures
        restored(Some(bots.push(bot))).len() == bots.len() + 1,
        restored(Some(bots.push(bot))).last() == bot,
        restored(Some(bots.push(bot))).drop_last() == bots,
{
    assert(bots.push(bot).drop_last() =~= bots);
}

/// A bot that was removed is gone when the registry is written and read back:
/// one bot of that name fewer is there, and the others are in their order.
pub proof fn lemma_removed_bot_is_not_restored(bots: Seq<BotView>, name: Seq<char>)
    requires
        first_exact(bots, name, 0) < bots.len(),
    ensures
        0 <= first_exact(bots, name, 0),
        restored(Some(bots.remove(first_exact(bots, name, 0)))).len() == bots.len() - 1,
        count_called(restored(Some(bots.remove(first_exact(bots, name, 0)))), name) + 1
            == count_called(bots, name),
        count_called(bots, name) == 1 ==> forall|k: int|
            0 <= k < bots.len() - 1 ==> (#[trigger] restored(
                Some(bots.remove(first_exact(bots, name, 0))),
            )[k]).name != name,
{
    lemma_first_exact(bots, name, 0);
    let i = first_exact(bots, name, 0);
    lemma_count_without(bots, name, i);
    if count_called(bots, name) == 1 {
        lemma_none_called(bots.remove(i), name);
    }
}

/// Taking out a bot called `name` leaves one bot of that name fewer.
proof fn lemma_count_without(bots: Seq<BotView>, name: Seq<char>, i: int)
    requires
        0 <= i < bots.len(),
        bots[i].name == name,
    ensures
        count_called(bots.remove(i), name) + 1 == count_called(bots, name),
    decreases bots.len(),
{
    if i == bots.len() - 1 {
        assert(bots.remove(i) =~= bots.drop_last());
    } else {
        lemma_count_without(bots.drop_last(), name, i);
        assert(bots.remove(i).drop_last() =~= bots.drop_last().remove(i));
        assert(bots.remove(i).last() == bots.last());
    }
}

/// Where no bot is counted under a name, no bot has it.
proof fn lemma_none_called(bots: Seq<BotView>, name: Seq<char>)
    requires
        count_called(bots, name) == 0,
    ensures
        forall|k: int| 0 <= k < bots.len() ==> (#[trigger] bots[k]).name != name,
    decreases bots.len(),
{
    if bots.len() > 0 {
        lemma_none_called(bots.drop_last(), name);
        assert forall|k: int| 0 <= k < bots.len() implies (#[trigger] bots[k]).name != name by {
            if k < bots.len() - 1 {
                assert(bots.drop_last()[k] == bots[k]);
            }
        }
    }
}

/// `first_named` reads names only.
proof fn lemma_first_named_by_names(
    bots: Seq<BotView>,
    others: Seq<BotView>,
    name: Seq<char>,
    other: Seq<char>,
    from: int,
)
    requires
        0 <= from <= bots.len(),
        bots.len() == others.len(),
        forall|k: int| 0 <= k < bots.len() ==> (#[trigger] bots[k]).name == others[k].name,
        same_name(name, other),
    ensures
        first_named(bots, name, from) == first_named(others, other, from),
    decreases bots.len() - from,
{
    if from < bots.len() && !same_name(bots[from].name, name) {
        assert(bots[from].name == others[from].name);
        lemma_first_named_by_names(bots, others, name, other, from + 1);
    } else if from < bots.len() {
        assert(bots[from].name == others[from].name);
    }
}

/// The answer reaches the bot that was asked: where nothing was added or
/// removed between the two steps of a query, the bot that the request names,
/// once the question is recorded, is the bot that the query was for.
pub proof fn lemma_answer_reaches_the_asked_bot(
    bots: Seq<BotView>,
    bot_name: Option<Seq<char>>,
    question: ChatTurnView,
)
    requires
        target(bots, bot_name) is Ok,
    ensures
        ({
            let i = target(bots, bot_name)->Ok_0;
            &&& 0 <= i < bots.len()
            &&& first_named(with_turn_at(bots, i, question), request_for(bots[i]).bot_name, 0)
                == i
        }),
{
    let i = target(bots, bot_name)->Ok_0;
    let asked = with_turn_at(bots, i, question);
    match bot_name {
        Some(name) => {
            lemma_first_named(bots, name, 0);
            lemma_first_named_by_names(bots, asked, name, bots[i].name, 0);
        },
        None => {
            assert(same_name(asked[0].name, bots[0].name));
        },
    }
}

/// A query for a name that no bot has, or for the default bot of an empty
/// registry, finds no target: it fails and, by the contract of
/// `AiContext::prepare_request`, leaves every history as it was.
pub proof fn lemma_no_target(bots: Seq<BotView>, name: Seq<char>)
    ensures
        (forall|k: int| 0 <= k < bots.len() ==> !same_name((#[trigger] bots[k]).name, name))
            ==> target(bots, Some(name)) == Err::<int, AiErrorView>(
            AiErrorView::BotDoesNotExist(name),
        ),
        bots.len() == 0 ==> target(bots, None) == Err::<int, AiErrorView>(
            AiErrorView::NoBotsFound,
        ),
{
    lemma_first_named(bots, name, 0);
}

impl AiContext {
    /// The registry at the start of the program: the saved bots where they
    /// could be read, otherwise the default bot alone.
    pub fn new(saved: Option<Vec<Bot>>) -> (ctx: AiContext)
        ensures
            ctx@ == restored(
                match saved {
                    Some(bots) => Some(bots_view(bots@)),
                    None => None,
                },
            ),
    {
        match saved {
            Some(bots) => AiContext { bots },
            None => {
                let mut bots: Vec<Bot> = Vec::new();
                bots.push(Bot::new(DEFAULT_BOT.to_owned(), DEFAULT_OWNER.to_owned(), None, None));
                assert(bots_view(bots@) =~= seq![default_bot()]);
                AiContext { bots }
            },
        }
    }

    /// The position of the first bot of that name, case ignored.
    fn find_named(&self, name: &str) -> (r: Option<usize>)
        ensures
            match r {
                Some(i) => i == first_named(self@, name@, 0) && i < self@.len(),
                None => first_named(self@, name@, 0) >= self@.len(),
            },
    {
        let mut i: usize = 0;
        while i < self.bots.len()
            invariant
                i <= self.bots.len(),
                first_named(self@, name@, 0) == first_named(self@, name@, i as int),
            decreases self.bots.len() - i,
        {
            if self.bots[i].answers_to(name) {
                return Some(i);
            }
            i += 1;
        }
        None
    }

    /// The position of the first bot called exactly `name`.
    fn find_exact(&self, name: &str) -> (r: Option<usize>)
        ensures
            match r {
                Some(i) => i == first_exact(self@, name@, 0) && i < self@.len(),
                None => first_exact(self@, name@, 0) >= self@.len(),
            },
    {
        let mut i: usize = 0;
        while i < self.bots.len()
            invariant
                i <= self.bots.len(),
                first_exact(self@, name@, 0) == first_exact(self@, name@, i as int),
            decreases self.bots.len() - i,
        {
            if self.bots[i].is_called(name) {
                return Some(i);
            }
            i += 1;
        }
        None
    }

    /// Opens a query: resolves the bot, records the user's turn in its
    /// history and builds the request for the completion service.
    ///
    /// With a name the query goes to the first bot of that name, case ignored,
    /// and fails with `BotDoesNotExist` when there is none. Without a name it
    /// goes to the first bot registered and fails with `NoBotsFound` when the
    /// registry is empty. A failure changes nothing.
    pub fn prepare_request(&mut self, query: &str, user: &str, bot_name: Option<&str>) -> (r:
        Result<ChatRequest, AiResponseError>)
        ensures
            match target(old(self)@, opt_str_view(bot_name)) {
                Ok(i) => {
                    &&& final(self)@ == with_turn_at(old(self)@, i, user_turn(user@, query@))
                    &&& r is Ok
                    &&& r->Ok_0@ == request_for(final(self)@[i])
                },
                Err(e) => {
                    &&& final(self)@ == old(self)@
                    &&& r is Err
                    &&& r->Err_0@ == e
                },
            },
            grown_from(old(self)@, final(self)@),
    {
        let found = match bot_name {
            Some(name) => match self.find_named(name) {
                Some(i) => Ok(i),
                None => Err(AiResponseError::BotDoesNotExist(name.to_owned())),
            },
            None => if self.bots.len() > 0 {
                Ok(0usize)
            } else {
                Err(AiResponseError::NoBotsFound)
            },
        };
        match found {
            Ok(i) => {
                let request = self.bots[i].get_request_args(user, query);
                assert(self@ =~= with_turn_at(old(self)@, i as int, user_turn(user@, query@)));
                Ok(request)
            },
            Err(e) => Err(e),
        }
    }

    /// Closes a query: takes what the completion service answered to
    /// `request` and records the bot's turn.
    ///
    /// Where the service failed, the failure is handed on as `ApiError` and
    /// nothing changes: the user's turn stays recorded. Where it answered, the
    /// text (empty where it sent none) is added to the history of the bot that
    /// the request was made for, and is returned with the bot's name. Where
    /// that bot was removed in the meantime, the answer is dropped with
    /// `BotDoesNotExist`.
    pub fn get_response(
        &mut self,
        request: &ChatRequest,
        outcome: Result<Option<String>, String>,
    ) -> (r: Result<AiResponse, AiResponseError>)
        ensures
            match outcome {
                Err(report) => {
                    &&& final(self)@ == old(self)@
                    &&& r is Err
                    &&& r->Err_0@ == AiErrorView::ApiError(report@)
                },
                Ok(content) => {
                    let text = reply_text(opt_string_view(content));
                    let i = first_named(old(self)@, request@.bot_name, 0);
                    if i < old(self)@.len() {
                        &&& final(self)@ == with_turn_at(
                            old(self)@,
                            i,
                            assistant_turn(old(self)@[i].name, text),
                        )
                        &&& r is Ok
                        &&& r->Ok_0@ == (AiResponseView {
                            bot_name: old(self)@[i].name,
                            response: text,
                        })
                    } else {
                        &&& final(self)@ == old(self)@
                        &&& r is Err
                        &&& r->Err_0@ == AiErrorView::BotDoesNotExist(request@.bot_name)
                    }
                },
            },
            grown_from(old(self)@, final(self)@),
    {
        match outcome {
            Err(report) => Err(AiResponseError::ApiError(report)),
            Ok(content) => {
                let text = match content {
                    Some(text) => text,
                    None => String::new(),
                };
                match self.find_named(request.bot_name.as_str()) {
                    Some(i) => {
                        let bot_name = self.bots[i].name().to_owned();
                        let response = text.clone();
                        self.bots[i].record_reply(text);
                        assert(self@ =~= with_turn_at(
                            old(self)@,
                            i as int,
                            assistant_turn(old(self)@[i as int].name, response@),
                        ));
                        Ok(AiResponse { bot_name, response })
                    },
                    None => Err(AiResponseError::BotDoesNotExist(request.bot_name.clone())),
                }
            },
        }
    }

    /// Registers a bot behind the others. A name that is taken is accepted;
    /// queries by name reach only the first bot of a name.
    pub fn add_bot(&mut self, bot: Bot)
        ensures
            final(self)@ == old(self)@.push(bot@),
            grown_from(old(self)@, final(self)@),
    {
        self.bots.push(bot);
        assert(self@ =~= old(self)@.push(bot@));
    }

    /// Removes the first bot called exactly `name` and returns it; `None`, and
    /// no change, where no bot has that name.
    pub fn remove_bot_by_name(&mut self, name: String) -> (r: Option<Bot>)
        ensures
            match r {
                Some(bot) => {
                    let i = first_exact(old(self)@, name@, 0);
                    &&& 0 <= i < old(self)@.len()
                    &&& bot@ == old(self)@[i]
                    &&& final(self)@ == old(self)@.remove(i)
                },
                None => {
                    &&& first_exact(old(self)@, name@, 0) >= old(self)@.len()
                    &&& final(self)@ == old(self)@
                },
            },
    {
        match self.find_exact(name.as_str()) {
            Some(i) => {
                let bot = self.bots.remove(i);
                assert(self@ =~= old(self)@.remove(i as int));
                Some(bot)
            },
            None => None,
        }
    }

    /// A copy of the bots in the order in which they were registered: what is
    /// to be written to storage.
    pub fn bots(&self) -> (r: Vec<Bot>)
        ensures
            bots_view(r@) == self@,
    {
        let mut r: Vec<Bot> = Vec::new();
        let mut i: usize = 0;
        while i < self.bots.len()
            invariant
                i <= self.bots.len(),
                bots_view(r@) == self@.take(i as int),
            decreases self.bots.len() - i,
        {
            let bot = self.bots[i].clone();
            let ghost before = r@;
            r.push(bot);
            assert(bots_view(before.push(bot)) =~= bots_view(before).push(bot@));
            assert(self@.take(i + 1) =~= self@.take(i as int).push(bot@));
            i += 1;
        }
        assert(self@.take(i as int) =~= self@);
        r
    }
}

} // verus!
