//! Answering `REQ`: the stored events that a client asks for, and the end of
//! them.

use crate::event::{Event, EventView};
use crate::message::{Filter, RelayMessage, RelayMessageView};
use vstd::prelude::*;

verus! {

/// What the relay tells a client that sends more than one filter.
pub const ONE_FILTER: &'static str = "TODO: support multiple filters. Until then, please use separate subscriptions.";

/// Why a subscription is closed after the stored events.
pub const NO_STREAMING: &'static str = "TODO: implement streaming";

/// Where the answer to a `REQ` stands.
#[derive(Clone, Copy, Debug, PartialEq, Eq, Structural)]
pub enum SearchState {
    /// Waiting for the notice to be on its way.
    Noticing,
    /// Waiting for the database.
    Reading,
    /// Waiting for an event to be sent.
    Sending,
    /// Waiting for the end of stored events to be sent.
    Ending,
    /// Waiting for the closing message to be sent.
    Closing,
    Finished,
}

/// What the relay does next.
#[derive(Clone, Debug, PartialEq, Eq)]
pub enum SearchAction {
    /// Send a message without waiting for it.
    Notify(RelayMessage),
    /// Wait for the next row of the search.
    Read,
    /// Send a message and wait for the result.
    Send(RelayMessage),
    Stop,
}

/// The mathematical model of a [`SearchAction`].
pub enum SearchActionView {
    Notify(RelayMessageView),
    Read,
    Send(RelayMessageView),
    Stop,
}

impl View for SearchAction {
    type V = SearchActionView;

    open spec fn view(&self) -> SearchActionView {
        match self {
            SearchAction::Notify(message) => SearchActionView::Notify(message@),
            SearchAction::Read => SearchActionView::Read,
            SearchAction::Send(message) => SearchActionView::Send(message@),
            SearchAction::Stop => SearchActionView::Stop,
        }
    }
}

/// What came of what the relay did.
#[derive(Clone, Debug, PartialEq, Eq)]
pub enum SearchInput {
    /// A message was sent, or could not be.
    Sent(bool),
    /// The database gave an event.
    Row(Event),
    /// The database failed.
    RowError,
    /// The database has no more events.
    RowsEnd,
}

/// The mathematical model of a [`SearchInput`].
pub enum SearchInputView {
    Sent(bool),
    Row(EventView),
    RowError,
    RowsEnd,
}

impl View for SearchInput {
    type V = SearchInputView;

    open spec fn view(&self) -> SearchInputView {
        match self {
            SearchInput::Sent(ok) => SearchInputView::Sent(*ok),
            SearchInput::Row(event) => SearchInputView::Row(event@),
            SearchInput::RowError => SearchInputView::RowError,
            SearchInput::RowsEnd => SearchInputView::RowsEnd,
        }
    }
}

/// How the answer to a `REQ` with so many filters starts.
pub open spec fn start(filters: nat) -> (SearchState, SearchActionView) {
    if filters > 1 {
        (SearchState::Noticing, SearchActionView::Notify(RelayMessageView::Notice(ONE_FILTER@)))
    } else {
        (SearchState::Reading, SearchActionView::Read)
    }
}

/// The inputs that can come in a state.
pub open spec fn expects(state: SearchState, input: SearchInputView) -> bool {
    match state {
        SearchState::Noticing => input is Sent,
        SearchState::Reading => !(input is Sent),
        SearchState::Sending => input is Sent,
        SearchState::Ending => input is Sent,
        SearchState::Closing => input is Sent,
        SearchState::Finished => false,
    }
}

/// The end of the stored events.
pub open spec fn end_of(subscription_id: Seq<char>) -> RelayMessageView {
    RelayMessageView::EndOfStoredEvents(subscription_id)
}

/// The end of the subscription.
pub open spec fn closed(subscription_id: Seq<char>) -> RelayMessageView {
    RelayMessageView::Closed { subscription_id, message: NO_STREAMING@ }
}

/// How the answer goes on.
pub open spec fn next(subscription_id: Seq<char>, state: SearchState, input: SearchInputView) -> (
    SearchState,
    SearchActionView,
) {
    match state {
        SearchState::Noticing => (
            SearchState::Ending,
            SearchActionView::Send(end_of(subscription_id)),
        ),
        SearchState::Reading => match input {
            SearchInputView::Row(event) => (
                SearchState::Sending,
                SearchActionView::Send(RelayMessageView::Event { subscription_id, event }),
            ),
            _ => (SearchState::Ending, SearchActionView::Send(end_of(subscription_id))),
        },
        SearchState::Sending => (SearchState::Reading, SearchActionView::Read),
        SearchState::Ending => if input == SearchInputView::Sent(true) {
            (SearchState::Closing, SearchActionView::Send(closed(subscription_id)))
        } else {
            (SearchState::Finished, SearchActionView::Stop)
        },
        SearchState::Closing => (SearchState::Finished, SearchActionView::Stop),
        SearchState::Finished => (SearchState::Finished, SearchActionView::Stop),
    }
}

/// The answer to one `REQ`.
pub struct Search {
    subscription_id: String,
    state: SearchState,
}

impl Search {
    /// The subscription that is answered.
    pub closed spec fn subscription(&self) -> Seq<char> {
        self.subscription_id@
    }

    /// Where the answer stands.
    pub closed spec fn stage(&self) -> SearchState {
        self.state
    }

    /// Takes a request. One with more than one filter is told that this is
    /// not supported; any other is searched for.
    pub fn handle_search(subscription_id: String, filters: &Vec<Filter>) -> (begun: (
        Search,
        SearchAction,
    ))
        ensures
            begun.0.subscription() == subscription_id@,
            (begun.0.stage(), begun.1@) == start(filters@.len()),
            filters@.len() <= 1 ==> begun.1 is Read,
            filters@.len() > 1 ==> begun.1@ == SearchActionView::Notify(
                RelayMessageView::Notice(
                    "TODO: support multiple filters. Until then, please use separate subscriptions."@,
                ),
            ),
    {
        if filters.len() > 1 {
            (
                Search { subscription_id, state: SearchState::Noticing },
                SearchAction::Notify(RelayMessage::Notice(ONE_FILTER.to_owned())),
            )
        } else {
            (Search { subscription_id, state: SearchState::Reading }, SearchAction::Read)
        }
    }

    /// Whether the answer is complete.
    pub fn is_finished(&self) -> (finished: bool)
        ensures
            finished == (self.stage() == SearchState::Finished),
    {
        self.state == SearchState::Finished
    }

    /// Goes on with what came of the last action.
    pub fn step(&mut self, input: SearchInput) -> (action: SearchAction)
        requires
            expects(old(self).stage(), input@),
        ensures
            final(self).subscription() == old(self).subscription(),
            (final(self).stage(), action@) == next(
                old(self).subscription(),
                old(self).stage(),
                input@,
            ),
            input is Row ==> action@ == SearchActionView::Send(
                RelayMessageView::Event {
                    subscription_id: old(self).subscription(),
                    event: input->Row_0@,
                },
            ),
            input is RowError || input is RowsEnd ==> action@ == SearchActionView::Send(
                RelayMessageView::EndOfStoredEvents(old(self).subscription()),
            ),
    {
        match self.state {
            SearchState::Noticing => {
                self.state = SearchState::Ending;
                SearchAction::Send(RelayMessage::EndOfStoredEvents(self.subscription_id.clone()))
            },
            SearchState::Reading => {
                match input {
                    SearchInput::Row(event) => {
                        self.state = SearchState::Sending;
                        SearchAction::Send(
                            RelayMessage::Event {
                                subscription_id: self.subscription_id.clone(),
                                event,
                            },
                        )
                    },
                    _ => {
                        self.state = SearchState::Ending;
                        SearchAction::Send(
                            RelayMessage::EndOfStoredEvents(self.subscription_id.clone()),
                        )
                    },
                }
            },
            SearchState::Sending => {
                self.state = SearchState::Reading;
                SearchAction::Read
            },
            SearchState::Ending => {
                match input {
                    SearchInput::Sent(true) => {
                        self.state = SearchState::Closing;
                        SearchAction::Send(
                            RelayMessage::Closed {
                                subscription_id: self.subscription_id.clone(),
                                message: NO_STREAMING.to_owned(),
                            },
                        )
                    },
                    _ => {
                        self.state = SearchState::Finished;
                        SearchAction::Stop
                    },
                }
            },
            SearchState::Closing => {
                self.state = SearchState::Finished;
                SearchAction::Stop
            },
            SearchState::Finished => SearchAction::Stop,
        }
    }
}

/// A run of the answer: the inputs are those that can come, in turn.
pub open spec fn follows(subscription_id: Seq<char>, state: SearchState, inputs: Seq<SearchInputView>) -> bool
    decreases inputs.len(),
{
    inputs.len() == 0 || expects(state, inputs[0]) && follows(
        subscription_id,
        next(subscription_id, state, inputs[0]).0,
        inputs.drop_first(),
    )
}

/// Where a run leads.
pub open spec fn stage_after(
    subscription_id: Seq<char>,
    state: SearchState,
    inputs: Seq<SearchInputView>,
) -> SearchState
    decreases inputs.len(),
{
    if inputs.len() == 0 {
        state
    } else {
        stage_after(subscription_id, next(subscription_id, state, inputs[0]).0, inputs.drop_first())
    }
}

/// The message of an action, if it has one.
pub open spec fn message_of(action: SearchActionView) -> Seq<RelayMessageView> {
    match action {
        SearchActionView::Notify(message) => seq![message],
        SearchActionView::Send(message) => seq![message],
        _ => Seq::empty(),
    }
}

/// The messages that the relay sends in a run, after the first action.
pub open spec fn messages_after(
    subscription_id: Seq<char>,
    state: SearchState,
    inputs: Seq<SearchInputView>,
) -> Seq<RelayMessageView>
    decreases inputs.len(),
{
    if inputs.len() == 0 {
        Seq::empty()
    } else {
        let (then, action) = next(subscription_id, state, inputs[0]);
        message_of(action) + messages_after(subscription_id, then, inputs.drop_first())
    }
}

/// All the messages that the relay sends in a run.
pub open spec fn conversation(
    subscription_id: Seq<char>,
    filters: nat,
    inputs: Seq<SearchInputView>,
) -> Seq<RelayMessageView> {
    message_of(start(filters).1) + messages_after(subscription_id, start(filters).0, inputs)
}

/// The events among the inputs, as messages, in the order in which they came.
pub open spec fn event_messages(subscription_id: Seq<char>, inputs: Seq<SearchInputView>) -> Seq<
    RelayMessageView,
>
    decreases inputs.len(),
{
    if inputs.len() == 0 {
        Seq::empty()
    } else {
        let first = match inputs[0] {
            SearchInputView::Row(event) => seq![
                RelayMessageView::Event { subscription_id, event },
            ],
            _ => Seq::empty(),
        };
        first + event_messages(subscription_id, inputs.drop_first())
    }
}

/// A finished run that came to its end because the client was gone: the end
/// of stored events could not be sent.
pub open spec fn client_gone(
    subscription_id: Seq<char>,
    state: SearchState,
    inputs: Seq<SearchInputView>,
) -> bool {
    &&& stage_after(subscription_id, state, inputs.drop_last()) == SearchState::Ending
    &&& inputs.last() == SearchInputView::Sent(false)
}

/// What comes after the events once a run is finished.
pub open spec fn ending(subscription_id: Seq<char>, gone: bool) -> Seq<RelayMessageView> {
    if gone {
        seq![end_of(subscription_id)]
    } else {
        seq![end_of(subscription_id), closed(subscription_id)]
    }
}

proof fn ending_run(subscription_id: Seq<char>, inputs: Seq<SearchInputView>)
    requires
        follows(subscription_id, SearchState::Ending, inputs),
        stage_after(subscription_id, SearchState::Ending, inputs) == SearchState::Finished,
    ensures
        inputs.len() > 0,
        seq![end_of(subscription_id)] + messages_after(subscription_id, SearchState::Ending, inputs)
            == ending(
            subscription_id,
            client_gone(subscription_id, SearchState::Ending, inputs),
        ),
        event_messages(subscription_id, inputs) == Seq::<RelayMessageView>::empty(),
{
    reveal_with_fuel(follows, 4);
    reveal_with_fuel(stage_after, 4);
    reveal_with_fuel(messages_after, 4);
    reveal_with_fuel(event_messages, 4);
    let rest = inputs.drop_first();
    let said = seq![end_of(subscription_id)] + messages_after(
        subscription_id,
        SearchState::Ending,
        inputs,
    );
    if inputs[0] == SearchInputView::Sent(true) {
        assert(rest.len() > 0);
        assert(rest.drop_first().len() == 0);
        assert(inputs.drop_last() =~= seq![inputs[0]]);
        assert(seq![inputs[0]].drop_first() =~= Seq::<SearchInputView>::empty());
        assert(said =~= ending(subscription_id, false));
    } else {
        assert(rest.len() == 0);
        assert(inputs.drop_last() =~= Seq::<SearchInputView>::empty());
        assert(said =~= ending(subscription_id, true));
    }
    assert(event_messages(subscription_id, inputs) =~= Seq::<RelayMessageView>::empty());
}

proof fn gone_later(subscription_id: Seq<char>, state: SearchState, inputs: Seq<SearchInputView>)
    requires
        inputs.len() > 1,
    ensures
        client_gone(subscription_id, state, inputs) == client_gone(
            subscription_id,
            next(subscription_id, state, inputs[0]).0,
            inputs.drop_first(),
        ),
{
    assert(inputs.drop_last().drop_first() =~= inputs.drop_first().drop_last());
    assert(inputs.drop_last()[0] == inputs[0]);
}

proof fn reading_run(subscription_id: Seq<char>, state: SearchState, inputs: Seq<SearchInputView>)
    requires
        state == SearchState::Reading || state == SearchState::Sending,
        follows(subscription_id, state, inputs),
        stage_after(subscription_id, state, inputs) == SearchState::Finished,
    ensures
        messages_after(subscription_id, state, inputs) == event_messages(subscription_id, inputs)
            + ending(subscription_id, client_gone(subscription_id, state, inputs)),
    decreases inputs.len(),
{
    assert(inputs.len() > 0);
    let (then, action) = next(subscription_id, state, inputs[0]);
    let rest = inputs.drop_first();
    let said = messages_after(subscription_id, state, inputs);
    let events = event_messages(subscription_id, inputs);
    if then == SearchState::Ending {
        ending_run(subscription_id, rest);
    } else {
        reading_run(subscription_id, then, rest);
    }
    assert(rest.len() > 0);
    gone_later(subscription_id, state, inputs);
    assert(said =~= events + ending(
        subscription_id,
        client_gone(subscription_id, state, inputs),
    ));
}

/// Every `REQ` that is answered to the end is answered with the events that
/// the database gave, each once and in order, then the end of stored events,
/// then the closing of the subscription. The last is left out exactly where
/// the client was already gone. A request with several filters gets a notice
/// in place of events.
pub proof fn search_always_ends(
    subscription_id: Seq<char>,
    filters: nat,
    inputs: Seq<SearchInputView>,
)
    requires
        follows(subscription_id, start(filters).0, inputs),
        stage_after(subscription_id, start(filters).0, inputs) == SearchState::Finished,
    ensures
        conversation(subscription_id, filters, inputs) == (if filters > 1 {
            seq![RelayMessageView::Notice(ONE_FILTER@)]
        } else {
            event_messages(subscription_id, inputs)
        }) + ending(
            subscription_id,
            client_gone(subscription_id, start(filters).0, inputs),
        ),
{
    let said = conversation(subscription_id, filters, inputs);
    if filters > 1 {
        let notice = seq![RelayMessageView::Notice(ONE_FILTER@)];
        assert(inputs.len() > 0);
        ending_run(subscription_id, inputs.drop_first());
        gone_later(subscription_id, SearchState::Noticing, inputs);
        assert(said =~= notice + ending(
            subscription_id,
            client_gone(subscription_id, SearchState::Noticing, inputs),
        ));
    } else {
        reading_run(subscription_id, SearchState::Reading, inputs);
        assert(said =~= messages_after(subscription_id, SearchState::Reading, inputs));
    }
}

/// A request with at most one filter is searched for; one with more is told
/// that they are not supported.
pub proof fn requests_start_like_this(filters: nat)
    ensures
        filters <= 1 ==> start(filters) == (SearchState::Reading, SearchActionView::Read),
        filters > 1 ==> start(filters) == (
            SearchState::Noticing,
            SearchActionView::Notify(
                RelayMessageView::Notice(
                    "TODO: support multiple filters. Until then, please use separate subscriptions."@,
                ),
            ),
        ),
{
}

/// Every event that the database gives is sent, whatever it is, and whether or
/// not the one before could be; the first that it does not give ends them.
pub proof fn every_row_is_sent(subscription_id: Seq<char>, event: EventView, sent: bool)
    ensures
        next(subscription_id, SearchState::Reading, SearchInputView::Row(event)) == (
            SearchState::Sending,
            SearchActionView::Send(RelayMessageView::Event { subscription_id, event }),
        ),
        next(subscription_id, SearchState::Sending, SearchInputView::Sent(sent)) == (
            SearchState::Reading,
            SearchActionView::Read,
        ),
        next(subscription_id, SearchState::Reading, SearchInputView::RowsEnd) == (
            SearchState::Ending,
            SearchActionView::Send(RelayMessageView::EndOfStoredEvents(subscription_id)),
        ),
        next(subscription_id, SearchState::Reading, SearchInputView::RowError) == (
            SearchState::Ending,
            SearchActionView::Send(RelayMessageView::EndOfStoredEvents(subscription_id)),
        ),
        next(subscription_id, SearchState::Noticing, SearchInputView::Sent(sent)) == (
            SearchState::Ending,
            SearchActionView::Send(RelayMessageView::EndOfStoredEvents(subscription_id)),
        ),
{
}

/// After the end of stored events comes the closing message, if the end could
/// be sent, and nothing after that.
pub proof fn every_end_is_a_close(subscription_id: Seq<char>, sent: bool)
    ensures
        next(subscription_id, SearchState::Ending, SearchInputView::Sent(true)) == (
            SearchState::Closing,
            SearchActionView::Send(
                RelayMessageView::Closed { subscription_id, message: "TODO: implement streaming"@ },
            ),
        ),
        next(subscription_id, SearchState::Ending, SearchInputView::Sent(false)) == (
            SearchState::Finished,
            SearchActionView::Stop,
        ),
        next(subscription_id, SearchState::Closing, SearchInputView::Sent(sent)) == (
            SearchState::Finished,
            SearchActionView::Stop,
        ),
        ending(subscription_id, true) == seq![RelayMessageView::EndOfStoredEvents(subscription_id)],
        ending(subscription_id, false) == seq![
            RelayMessageView::EndOfStoredEvents(subscription_id),
            RelayMessageView::Closed { subscription_id, message: "TODO: implement streaming"@ },
        ],
{
}

/// The event messages of a run are those of its parts, in order; each row has
/// one, for its event, and nothing else has any.
pub proof fn each_row_has_one_message(
    subscription_id: Seq<char>,
    a: Seq<SearchInputView>,
    b: Seq<SearchInputView>,
    event: EventView,
    sent: bool,
)
    ensures
        event_messages(subscription_id, Seq::<SearchInputView>::empty()) == Seq::<
            RelayMessageView,
        >::empty(),
        event_messages(subscription_id, seq![SearchInputView::Row(event)]) == seq![
            RelayMessageView::Event { subscription_id, event },
        ],
        event_messages(subscription_id, seq![SearchInputView::Sent(sent)]) == Seq::<
            RelayMessageView,
        >::empty(),
        event_messages(subscription_id, seq![SearchInputView::RowError]) == Seq::<
            RelayMessageView,
        >::empty(),
        event_messages(subscription_id, seq![SearchInputView::RowsEnd]) == Seq::<
            RelayMessageView,
        >::empty(),
        event_messages(subscription_id, a + b) == event_messages(subscription_id, a)
            + event_messages(subscription_id, b),
    decreases a.len(),
{
    reveal_with_fuel(event_messages, 2);
    let none = Seq::<SearchInputView>::empty();
    assert(seq![SearchInputView::Row(event)].drop_first() =~= none);
    assert(seq![SearchInputView::Sent(sent)].drop_first() =~= none);
    assert(seq![SearchInputView::RowError].drop_first() =~= none);
    assert(seq![SearchInputView::RowsEnd].drop_first() =~= none);
    if a.len() == 0 {
        assert(a + b =~= b);
    } else {
        assert((a + b).drop_first() =~= a.drop_first() + b);
        each_row_has_one_message(subscription_id, a.drop_first(), b, event, sent);
    }
    assert(event_messages(subscription_id, a + b) =~= event_messages(subscription_id, a)
        + event_messages(subscription_id, b));
}

/// The models of what the relay does and of what came of it hold all of it.
pub proof fn search_steps_are_modelled_whole(message: RelayMessage, event: Event, sent: bool)
    ensures
        SearchAction::Notify(message)@ == SearchActionView::Notify(message@),
        SearchAction::Send(message)@ == SearchActionView::Send(message@),
        SearchAction::Read@ is Read,
        SearchAction::Stop@ is Stop,
        SearchInput::Sent(sent)@ == SearchInputView::Sent(sent),
        SearchInput::Row(event)@ == SearchInputView::Row(event@),
        SearchInput::RowError@ is RowError,
        SearchInput::RowsEnd@ is RowsEnd,
{
}

} // verus!
