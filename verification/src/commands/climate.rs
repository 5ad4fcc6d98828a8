//! The temperature command: how a list of candidate places is narrowed
//! down to one, by itself where the search term settles it and by asking
//! the user where it does not.
//!
//! The selection is a small state machine. [`select_place`] takes it from
//! the start either to an outcome or to the point where the user has to be
//! asked; [`request_user_selection`] builds what the user is shown;
//! [`resolve_user_selection`] takes the user's answer, or its absence, to
//! the outcome. Sending the prompt and waiting for the answer is the
//! caller's part.

use vstd::prelude::*;
use vstd::string::*;
use crate::error::Error;
use crate::sources::climate_forecast::{current_temperature_request, forecast_params};
use crate::sources::climate_historical::{
    archive_params, calendar_date, fault_text, hour_rounded, past_temperature_request,
    range_fault, RangeFault, SeriesRequest, ZonedTimestamp,
};
use crate::sources::common::{pairs, truncate_ellipsis, with_ellipsis, ApiError};
use crate::sources::geo_time::RequestedTime;
use crate::sources::nominatim::Place;
use crate::utils::parsing::ParseError;
use crate::utils::numbers::{decimal, index_text, lemma_index_round_trip, parse_index, parsed_index};

verus! {

/// How a selection ended.
#[derive(Debug)]
pub enum Selection<T> {
    /// The candidates and the search term left no doubt.
    Unique(T),
    /// The user picked one of several candidates.
    OneOfMany(T),
    /// The user was asked and gave no usable answer in time.
    Aborted,
    /// There was nothing to select from, or the user could not be asked.
    Failed(Error),
}

/// Where a selection stands. The selected candidate is held by its position
/// in the list of candidates.
#[derive(Debug)]
pub enum SelectionState {
    /// Nothing has been decided yet.
    Start,
    /// The user has to pick; the prompt is on its way or waits for an
    /// answer.
    AwaitingUserChoice,
    /// The selection is over.
    Resolved(Selection<usize>),
}

/// What the messaging channel reports while the user is being asked.
#[derive(Debug)]
pub enum SelectionEvent {
    /// The prompt could not be delivered.
    PromptFailed(Error),
    /// The user picked the option with this value.
    Choice(String),
    /// The time to answer ran out.
    Timeout,
}

/// One line of the menu that the user picks from.
#[derive(Debug)]
pub struct MenuOption {
    /// What the user reads.
    pub label: String,
    /// What comes back when the user picks this line.
    pub value: String,
}

/// What the user is shown, and for how long an answer is awaited.
#[derive(Debug)]
pub struct Prompt {
    pub options: Vec<MenuOption>,
    pub timeout_seconds: u64,
}

/// A step of the selection while the user is being asked: the state it
/// leads to, and what the caller owes the channel on the way.
#[derive(Debug)]
pub struct Transition {
    pub state: SelectionState,
    /// The user's choice is to be acknowledged.
    pub acknowledge: bool,
    /// The prompt has served its purpose and may be taken down.
    pub remove_prompt: bool,
}

/// The limits of a prompt: how wide a line of the menu may be, what marks
/// a line that was cut, and how long the user has to answer.
#[derive(Debug)]
pub struct SelectionConfig {
    label_width: usize,
    ellipsis: String,
    timeout_seconds: u64,
}

impl SelectionConfig {
    /// The mark fits into a line.
    #[verifier::type_invariant]
    spec fn mark_fits(&self) -> bool {
        self.ellipsis@.len() <= self.label_width
    }

    /// The greatest number of characters in a line of the menu.
    pub closed spec fn width(&self) -> nat {
        self.label_width as nat
    }

    /// The mark that ends a line that was cut.
    pub closed spec fn mark(&self) -> Seq<char> {
        self.ellipsis@
    }

    /// The number of seconds for which an answer is awaited.
    pub closed spec fn patience(&self) -> u64 {
        self.timeout_seconds
    }

    /// Limits as given, if the mark fits into a line.
    pub fn new(label_width: usize, ellipsis: &str, timeout_seconds: u64) -> (r: Option<
        SelectionConfig,
    >)
        ensures
            r is Some <==> ellipsis@.len() <= label_width,
            r matches Some(config) ==> config.width() == label_width && config.mark() == ellipsis@
                && config.patience() == timeout_seconds,
    {
        if ellipsis.unicode_len() <= label_width {
            Some(SelectionConfig { label_width, ellipsis: String::from_str(ellipsis), timeout_seconds })
        } else {
            None
        }
    }

    /// The greatest number of characters in a line of the menu.
    pub fn label_width(&self) -> (r: usize)
        ensures
            r == self.width(),
    {
        self.label_width
    }

    /// The mark that ends a line that was cut.
    pub fn ellipsis(&self) -> (r: &str)
        ensures
            r@ == self.mark(),
            r@.len() <= self.width(),
    {
        proof {
            use_type_invariant(self);
        }
        self.ellipsis.as_str()
    }

    /// The number of seconds for which an answer is awaited.
    pub fn timeout_seconds(&self) -> (r: u64)
        ensures
            r == self.patience(),
    {
        self.timeout_seconds
    }
}

impl Default for SelectionConfig {
    /// Lines of a hundred characters, three dots for what was cut, and two
    /// minutes to answer.
    fn default() -> (r: SelectionConfig)
        ensures
            r.width() == 100,
            r.mark() == "..."@,
            r.patience() == 120,
    {
        proof {
            reveal_strlit("...");
        }
        SelectionConfig { label_width: 100, ellipsis: String::from_str("..."), timeout_seconds: 120 }
    }
}

/// Whether `place` is called exactly what was searched for.
pub open spec fn exact_match(place: Place, search_term: Seq<char>) -> bool {
    place.display_name() == search_term
}

/// How many of `places` are called exactly what was searched for.
pub open spec fn match_count(places: Seq<Place>, search_term: Seq<char>) -> nat
    decreases places.len(),
{
    if places.len() == 0 {
        0
    } else if exact_match(places.last(), search_term) {
        match_count(places.drop_last(), search_term) + 1
    } else {
        match_count(places.drop_last(), search_term)
    }
}

/// The position of the last of `places` that is called exactly what was
/// searched for.
pub open spec fn last_match(places: Seq<Place>, search_term: Seq<char>) -> Option<int>
    decreases places.len(),
{
    if places.len() == 0 {
        None
    } else if exact_match(places.last(), search_term) {
        Some(places.len() - 1)
    } else {
        last_match(places.drop_last(), search_term)
    }
}

/// The candidate that is selected without asking, by its position: the
/// only candidate there is, or among several the only one that is called
/// exactly what was searched for.
pub open spec fn auto_selection(places: Seq<Place>, search_term: Seq<char>) -> Option<int> {
    if places.len() == 1 {
        Some(0)
    } else if match_count(places, search_term) == 1 {
        last_match(places, search_term)
    } else {
        None
    }
}

/// Whether `state` is the failure that an empty list of candidates ends in.
pub open spec fn is_empty_failure(state: SelectionState) -> bool {
    &&& state matches SelectionState::Resolved(Selection::Failed(Error::Unexpected { reason, subject }))
    &&& reason@ == "Received an empty set of place options."@
    &&& subject is None
}

/// The state that the selection starts into.
pub open spec fn is_first_state(
    state: SelectionState,
    places: Seq<Place>,
    search_term: Seq<char>,
) -> bool {
    if places.len() == 0 {
        is_empty_failure(state)
    } else {
        match auto_selection(places, search_term) {
            Some(at) => state == SelectionState::Resolved(Selection::Unique(at as usize)),
            None => state == SelectionState::AwaitingUserChoice,
        }
    }
}

/// The position that an answer picks among `candidates` options: the index
/// that `value` denotes, if it denotes one and the index is in range.
pub open spec fn chosen_index(candidates: nat, value: Seq<char>) -> Option<usize> {
    match parsed_index(value) {
        Some(index) => if index < candidates {
            Some(index)
        } else {
            None
        },
        None => None,
    }
}

/// The candidate that a selection settled on, if it settled on one of
/// `places`.
pub open spec fn selected(places: Seq<Place>, selection: Selection<usize>) -> Option<Place> {
    match selection {
        Selection::Unique(at) | Selection::OneOfMany(at) => if at < places.len() {
            Some(places[at as int])
        } else {
            None
        },
        _ => None,
    }
}

/// Whether `r` refers to the place `place`, if to any.
pub open spec fn is_place(r: Option<&Place>, place: Option<Place>) -> bool {
    match r {
        Some(found) => place == Some(*found),
        None => place is None,
    }
}

/// The state after `event`. Only a selection that awaits the user's choice
/// moves: every event ends it. In any other state events change nothing.
pub open spec fn next_state(
    state: SelectionState,
    candidates: nat,
    event: SelectionEvent,
) -> SelectionState {
    match state {
        SelectionState::AwaitingUserChoice => match event {
            SelectionEvent::PromptFailed(error) => SelectionState::Resolved(Selection::Failed(error)),
            SelectionEvent::Timeout => SelectionState::Resolved(Selection::Aborted),
            SelectionEvent::Choice(value) => match chosen_index(candidates, value@) {
                Some(index) => SelectionState::Resolved(Selection::OneOfMany(index)),
                None => SelectionState::Resolved(Selection::Aborted),
            },
        },
        _ => state,
    }
}

/// Whether `event` in `state` is a choice to acknowledge: one that picks a
/// candidate while the selection awaits it.
pub open spec fn acknowledges(state: SelectionState, candidates: nat, event: SelectionEvent) -> bool {
    &&& state is AwaitingUserChoice
    &&& event matches SelectionEvent::Choice(value)
    &&& chosen_index(candidates, value@) is Some
}

/// Whether `event` in `state` leaves a delivered prompt behind that has
/// served its purpose.
pub open spec fn retires_prompt(state: SelectionState, event: SelectionEvent) -> bool {
    state is AwaitingUserChoice && !(event is PromptFailed)
}

/// What the count of matches says: it is zero exactly where no candidate
/// matches, and where it is not, `last_match` finds a candidate that does.
proof fn lemma_match_count_bounds(places: Seq<Place>, search_term: Seq<char>)
    ensures
        match_count(places, search_term) <= places.len(),
        match_count(places, search_term) == 0 <==> forall|j: int|
            0 <= j < places.len() ==> !exact_match(#[trigger] places[j], search_term),
        last_match(places, search_term) matches Some(at) ==> 0 <= at < places.len() && exact_match(
            places[at],
            search_term,
        ),
        match_count(places, search_term) > 0 ==> last_match(places, search_term) is Some,
    decreases places.len(),
{
    if places.len() > 0 {
        let front = places.drop_last();
        lemma_match_count_bounds(front, search_term);
        assert forall|j: int| 0 <= j < front.len() implies front[j] == places[j] by {}
        if match_count(places, search_term) == 0 {
            assert forall|j: int| 0 <= j < places.len() implies !exact_match(
                #[trigger] places[j],
                search_term,
            ) by {
                if j < front.len() {
                    assert(front[j] == places[j]);
                }
            }
        }
        if forall|j: int| 0 <= j < places.len() ==> !exact_match(#[trigger] places[j], search_term) {
            assert(!exact_match(places.last(), search_term));
            assert forall|j: int| 0 <= j < front.len() implies !exact_match(
                #[trigger] front[j],
                search_term,
            ) by {
                assert(front[j] == places[j]);
            }
        }
    }
}

/// Where exactly one candidate matches, `last_match` is that candidate.
proof fn lemma_single_match(places: Seq<Place>, search_term: Seq<char>, at: int)
    requires
        0 <= at < places.len(),
        exact_match(places[at], search_term),
        forall|j: int|
            0 <= j < places.len() && j != at ==> !exact_match(#[trigger] places[j], search_term),
    ensures
        match_count(places, search_term) == 1,
        last_match(places, search_term) == Some(at),
    decreases places.len(),
{
    let front = places.drop_last();
    assert forall|j: int| 0 <= j < front.len() implies front[j] == places[j] by {}
    if at == places.len() - 1 {
        lemma_match_count_bounds(front, search_term);
        assert forall|j: int| 0 <= j < front.len() implies !exact_match(
            #[trigger] front[j],
            search_term,
        ) by {
            assert(front[j] == places[j]);
        }
    } else {
        assert(!exact_match(places[places.len() - 1], search_term));
        assert(front[at] == places[at]);
        assert forall|j: int| 0 <= j < front.len() && j != at implies !exact_match(
            #[trigger] front[j],
            search_term,
        ) by {
            assert(front[j] == places[j]);
        }
        lemma_single_match(front, search_term, at);
    }
}

/// Where two candidates match, the count is at least two.
proof fn lemma_two_matches(places: Seq<Place>, search_term: Seq<char>, a: int, b: int)
    requires
        0 <= a < b < places.len(),
        exact_match(places[a], search_term),
        exact_match(places[b], search_term),
    ensures
        match_count(places, search_term) >= 2,
    decreases places.len(),
{
    let front = places.drop_last();
    assert(front[a] == places[a]);
    if b == places.len() - 1 {
        lemma_match_count_bounds(front, search_term);
        assert(exact_match(front[a], search_term));
    } else {
        assert(front[b] == places[b]);
        lemma_two_matches(front, search_term, a, b);
    }
}

/// A single candidate is selected without asking, whatever it is called.
pub proof fn law_single_candidate(places: Seq<Place>, search_term: Seq<char>)
    requires
        places.len() == 1,
    ensures
        auto_selection(places, search_term) == Some(0int),
        is_first_state(
            SelectionState::Resolved(Selection::Unique(0)),
            places,
            search_term,
        ),
{
}

/// Where exactly one candidate is called what was searched for, that
/// candidate is selected without asking.
pub proof fn law_only_exact_match(places: Seq<Place>, search_term: Seq<char>, at: int)
    requires
        0 <= at < places.len(),
        exact_match(places[at], search_term),
        forall|j: int|
            0 <= j < places.len() && j != at ==> !exact_match(#[trigger] places[j], search_term),
    ensures
        auto_selection(places, search_term) == Some(at),
{
    lemma_single_match(places, search_term, at);
}

/// Among several candidates of which none or more than one is called what
/// was searched for, none is selected without asking.
pub proof fn law_no_auto_pick(places: Seq<Place>, search_term: Seq<char>)
    requires
        places.len() >= 2,
        (forall|j: int| 0 <= j < places.len() ==> !exact_match(#[trigger] places[j], search_term))
            || (exists|a: int, b: int|
            0 <= a < b < places.len() && exact_match(#[trigger] places[a], search_term)
                && exact_match(#[trigger] places[b], search_term)),
    ensures
        auto_selection(places, search_term) is None,
        is_first_state(SelectionState::AwaitingUserChoice, places, search_term),
{
    lemma_match_count_bounds(places, search_term);
    if exists|a: int, b: int|
        0 <= a < b < places.len() && exact_match(#[trigger] places[a], search_term) && exact_match(
            #[trigger] places[b],
            search_term,
        ) {
        let (a, b) = choose|a: int, b: int|
            0 <= a < b < places.len() && exact_match(#[trigger] places[a], search_term)
                && exact_match(#[trigger] places[b], search_term);
        lemma_two_matches(places, search_term, a, b);
    }
}

/// A choice that arrives in time and picks a candidate selects exactly
/// that candidate and is acknowledged; nothing that follows is
/// acknowledged again or changes the outcome.
pub proof fn law_choice_selects(
    places: Seq<Place>,
    value: String,
    index: usize,
    later: SelectionEvent,
)
    requires
        parsed_index(value@) == Some(index),
        index < places.len(),
    ensures
        next_state(SelectionState::AwaitingUserChoice, places.len(), SelectionEvent::Choice(value))
            == SelectionState::Resolved(Selection::OneOfMany(index)),
        selected(places, Selection::OneOfMany(index)) == Some(places[index as int]),
        acknowledges(SelectionState::AwaitingUserChoice, places.len(), SelectionEvent::Choice(value)),
        next_state(SelectionState::Resolved(Selection::OneOfMany(index)), places.len(), later)
            == SelectionState::Resolved(Selection::OneOfMany(index)),
        !acknowledges(SelectionState::Resolved(Selection::OneOfMany(index)), places.len(), later),
{
}

/// When the time to answer runs out the selection is aborted, and no event
/// that arrives later changes that.
pub proof fn law_timeout_aborts(candidates: nat, later: SelectionEvent)
    ensures
        next_state(SelectionState::AwaitingUserChoice, candidates, SelectionEvent::Timeout)
            == SelectionState::Resolved(Selection::<usize>::Aborted),
        !acknowledges(SelectionState::AwaitingUserChoice, candidates, SelectionEvent::Timeout),
        next_state(SelectionState::Resolved(Selection::Aborted), candidates, later)
            == SelectionState::Resolved(Selection::<usize>::Aborted),
        !acknowledges(SelectionState::Resolved(Selection::Aborted), candidates, later),
{
}

/// A selection that is over stays as it is: no event moves it, asks for an
/// acknowledgment or touches a prompt.
pub proof fn law_resolved_is_final(
    outcome: Selection<usize>,
    candidates: nat,
    event: SelectionEvent,
)
    ensures
        next_state(SelectionState::Resolved(outcome), candidates, event)
            == SelectionState::Resolved(outcome),
        !acknowledges(SelectionState::Resolved(outcome), candidates, event),
        !retires_prompt(SelectionState::Resolved(outcome), event),
{
}

/// Decides what can be decided without the user. An empty list fails; a
/// single candidate is taken; of several candidates the one that alone is
/// called exactly what was searched for is taken. In every other case the
/// user has to pick.
pub fn select_place(places: &Vec<Place>, search_term: &str) -> (state: SelectionState)
    ensures
        is_first_state(state, places@, search_term@),
        state matches SelectionState::Resolved(Selection::Unique(at)) ==> at < places@.len(),
{
    if places.len() == 0 {
        return SelectionState::Resolved(
            Selection::Failed(
                Error::Unexpected {
                    reason: String::from_str("Received an empty set of place options."),
                    subject: None,
                },
            ),
        );
    }
    if places.len() == 1 {
        return SelectionState::Resolved(Selection::Unique(0));
    }
    let term = String::from_str(search_term);
    let mut matches: usize = 0;
    let mut found: usize = 0;
    let mut i: usize = 0;
    while i < places.len()
        invariant
            i <= places.len(),
            term@ == search_term@,
            matches == match_count(places@.take(i as int), search_term@),
            matches <= i,
            matches > 0 ==> last_match(places@.take(i as int), search_term@) == Some(found as int),
            matches > 0 ==> found < i,
        decreases places.len() - i,
    {
        proof {
            assert(places@.take(i + 1).drop_last() == places@.take(i as int));
        }
        if places[i].name.local == term {
            matches = matches + 1;
            found = i;
        }
        i = i + 1;
    }
    proof {
        assert(places@.take(places.len() as int) == places@);
    }
    if matches == 1 {
        SelectionState::Resolved(Selection::Unique(found))
    } else {
        SelectionState::AwaitingUserChoice
    }
}

/// What [`request_user_selection`] shows for the candidate at `index`.
pub open spec fn is_option_for(
    option: MenuOption,
    place: Place,
    index: int,
    config: SelectionConfig,
) -> bool {
    &&& option.label@ == with_ellipsis(place.label_text(), config.width(), config.mark())
    &&& option.value@ == decimal(index as nat)
}

/// Builds the prompt for the user: one option for each candidate, in the
/// order of the candidates. An option shows the candidate's label, cut to
/// the configured width, and carries the candidate's position as its
/// value, so that every value leads back to its candidate.
pub fn request_user_selection(places: &Vec<Place>, config: &SelectionConfig) -> (prompt: Prompt)
    ensures
        prompt.timeout_seconds == config.patience(),
        prompt.options@.len() == places@.len(),
        forall|i: int|
            0 <= i < places@.len() ==> is_option_for(
                #[trigger] prompt.options@[i],
                places@[i],
                i,
                *config,
            ),
        forall|i: int|
            0 <= i < places@.len() ==> chosen_index(
                places@.len(),
                (#[trigger] prompt.options@[i]).value@,
            ) == Some(i as usize),
{
    let mut options: Vec<MenuOption> = Vec::new();
    let mut i: usize = 0;
    while i < places.len()
        invariant
            i <= places.len(),
            options@.len() == i,
            forall|j: int|
                0 <= j < i ==> is_option_for(#[trigger] options@[j], places@[j], j, *config),
            forall|j: int|
                0 <= j < i ==> parsed_index((#[trigger] options@[j]).value@) == Some(j as usize),
        decreases places.len() - i,
    {
        let mut label = places[i].label();
        truncate_ellipsis(&mut label, config.label_width(), config.ellipsis());
        let value = index_text(i);
        proof {
            lemma_index_round_trip(i);
        }
        options.push(MenuOption { label, value });
        i = i + 1;
    }
    Prompt { options, timeout_seconds: config.timeout_seconds() }
}

/// Takes a selection that awaits the user's choice to its outcome. A
/// choice that names one of the `candidates` selects it and is to be
/// acknowledged. A choice that names none counts like no choice at all:
/// it aborts the selection, as the timeout does. A prompt that could not
/// be delivered fails the selection at once. In any other state the event
/// comes too early or too late and changes nothing.
pub fn resolve_user_selection(
    state: SelectionState,
    candidates: usize,
    event: SelectionEvent,
) -> (step: Transition)
    ensures
        step.state == next_state(state, candidates as nat, event),
        step.acknowledge == acknowledges(state, candidates as nat, event),
        step.remove_prompt == retires_prompt(state, event),
        state is AwaitingUserChoice ==> (step.state matches SelectionState::Resolved(
            Selection::OneOfMany(at),
        ) ==> at < candidates),
{
    match state {
        SelectionState::AwaitingUserChoice => match event {
            SelectionEvent::PromptFailed(error) => Transition {
                state: SelectionState::Resolved(Selection::Failed(error)),
                acknowledge: false,
                remove_prompt: false,
            },
            SelectionEvent::Timeout => Transition {
                state: SelectionState::Resolved(Selection::Aborted),
                acknowledge: false,
                remove_prompt: true,
            },
            SelectionEvent::Choice(value) => {
                match parse_index(value.as_str()) {
                    Some(index) => {
                        if index < candidates {
                            Transition {
                                state: SelectionState::Resolved(Selection::OneOfMany(index)),
                                acknowledge: true,
                                remove_prompt: true,
                            }
                        } else {
                            Transition {
                                state: SelectionState::Resolved(Selection::Aborted),
                                acknowledge: false,
                                remove_prompt: true,
                            }
                        }
                    },
                    None => Transition {
                        state: SelectionState::Resolved(Selection::Aborted),
                        acknowledge: false,
                        remove_prompt: true,
                    },
                }
            },
        },
        other => Transition { state: other, acknowledge: false, remove_prompt: false },
    }
}

/// The candidate that a selection settled on, if it settled on one.
pub fn selected_place<'a>(places: &'a Vec<Place>, selection: &Selection<usize>) -> (r: Option<
    &'a Place,
>)
    ensures
        is_place(r, selected(places@, *selection)),
{
    match selection {
        Selection::Unique(at) => {
            if *at < places.len() {
                Some(&places[*at])
            } else {
                None
            }
        },
        Selection::OneOfMany(at) => {
            if *at < places.len() {
                Some(&places[*at])
            } else {
                None
            }
        },
        _ => None,
    }
}

/// Where a temperature command stands. The steps of a command follow one
/// another: read what the user typed, search the place, select among what
/// was found, fetch the temperature, answer.
#[derive(Debug)]
pub enum CommandState {
    /// The command has not been looked at yet.
    Start,
    /// The date and time that the user typed are being read.
    ParsingTimestamp,
    /// The geocoding provider is being asked for the place.
    Searching,
    /// One of the places that were found is being selected.
    Selecting,
    /// The temperature at the selected place is being fetched. `announce`
    /// says that the user was asked to pick the place, so that the answer
    /// goes to the channel and names the user.
    Fetching { place: usize, announce: bool },
    /// The command has been answered.
    Done,
}

/// What happened since the last step of a command.
#[derive(Debug)]
pub enum CommandEvent {
    /// The command arrived, with or without a date or a time of day.
    Invoked { timestamp_given: bool },
    /// What the user typed as date and time was read, or could not be.
    TimestampParsed(Result<(), ParseError>),
    /// The geocoding provider answered with this many places, or failed.
    PlacesFound(Result<usize, ApiError>),
    /// The selection is over.
    PlaceSelected(Selection<usize>),
    /// The temperature was fetched, or could not be.
    TemperatureFetched(Result<(), Error>),
}

/// What a command has to say at its end.
#[derive(Debug, Clone, Copy, PartialEq, Eq, Structural)]
pub enum Message {
    /// Nothing is called what was searched for.
    PlaceNotFound,
    /// The temperature at the place with this position among the
    /// candidates.
    Temperature { place: usize },
    /// The same, naming the user who asked.
    TemperatureInvokedBy { place: usize },
    /// The user was asked to pick a place and did not.
    SelectionTimeout,
}

/// What the caller has to do after a step of a command.
#[derive(Debug)]
pub enum CommandAction {
    /// Read the date and time that the user typed.
    ParseTimestamp,
    /// Ask the geocoding provider for the place.
    SearchPlace,
    /// Select one of the places that were found.
    SelectPlace,
    /// Fetch the temperature at the candidate with this position.
    FetchTemperature { place: usize },
    /// Answer the command with this message.
    Reply(Message),
    /// Post this message to the channel in which the command was given.
    Say(Message),
    /// Hand this error to whoever reports errors to the user.
    Fail(Error),
    /// Nothing: the event does not belong to the step at which the command
    /// stands.
    Nothing,
}

/// Whether the user asked for a temperature of the past: whether a date or
/// a time of day came with the command.
pub fn timestamp_requested(date: &Option<String>, time: &Option<String>) -> (r: bool)
    ensures
        r == (date is Some || time is Some),
{
    date.is_some() || time.is_some()
}

/// The step that `event` takes a command in `state` to, and what is to be
/// done then.
pub open spec fn command_step(state: CommandState, event: CommandEvent) -> (
    CommandState,
    CommandAction,
) {
    match (state, event) {
        (CommandState::Start, CommandEvent::Invoked { timestamp_given }) => if timestamp_given {
            (CommandState::ParsingTimestamp, CommandAction::ParseTimestamp)
        } else {
            (CommandState::Searching, CommandAction::SearchPlace)
        },
        (CommandState::ParsingTimestamp, CommandEvent::TimestampParsed(parsed)) => match parsed {
            Ok(_) => (CommandState::Searching, CommandAction::SearchPlace),
            Err(inner) => (CommandState::Done, CommandAction::Fail(Error::Handled { inner })),
        },
        (CommandState::Searching, CommandEvent::PlacesFound(found)) => match found {
            Ok(count) => if count == 0 {
                (CommandState::Done, CommandAction::Reply(Message::PlaceNotFound))
            } else {
                (CommandState::Selecting, CommandAction::SelectPlace)
            },
            Err(error) => (CommandState::Done, CommandAction::Fail(Error::ApiError(error))),
        },
        (CommandState::Selecting, CommandEvent::PlaceSelected(selection)) => match selection {
            Selection::Unique(place) => (
                CommandState::Fetching { place, announce: false },
                CommandAction::FetchTemperature { place },
            ),
            Selection::OneOfMany(place) => (
                CommandState::Fetching { place, announce: true },
                CommandAction::FetchTemperature { place },
            ),
            Selection::Aborted => (CommandState::Done, CommandAction::Say(Message::SelectionTimeout)),
            Selection::Failed(error) => (CommandState::Done, CommandAction::Fail(error)),
        },
        (
            CommandState::Fetching { place, announce },
            CommandEvent::TemperatureFetched(fetched),
        ) => match fetched {
            Ok(_) => if announce {
                (CommandState::Done, CommandAction::Say(Message::TemperatureInvokedBy { place }))
            } else {
                (CommandState::Done, CommandAction::Reply(Message::Temperature { place }))
            },
            Err(error) => (CommandState::Done, CommandAction::Fail(error)),
        },
        (state, _) => (state, CommandAction::Nothing),
    }
}

/// Whether an action lets the user know how the command ended: a reply,
/// a post to the channel, or an error for the report.
pub open spec fn is_answer(action: CommandAction) -> bool {
    action is Reply || action is Say || action is Fail
}

/// A command is answered exactly when it ends: the step that takes it to
/// its end carries the one answer, no step before that carries one, and
/// after the end nothing happens any more.
pub proof fn law_one_answer(state: CommandState, event: CommandEvent)
    ensures
        state is Done ==> command_step(state, event).0 is Done && command_step(state, event).1
            is Nothing,
        !(state is Done) ==> (command_step(state, event).0 is Done <==> is_answer(
            command_step(state, event).1,
        )),
{
}

/// How far a command has come: the number of its step.
pub open spec fn progress(state: CommandState) -> nat {
    match state {
        CommandState::Start => 0,
        CommandState::ParsingTimestamp => 1,
        CommandState::Searching => 2,
        CommandState::Selecting => 3,
        CommandState::Fetching { .. } => 4,
        CommandState::Done => 5,
    }
}

/// The steps of a command follow one another in their order: an event
/// either leaves the command where it stands and asks for nothing, or
/// takes it further.
pub proof fn law_steps_in_order(state: CommandState, event: CommandEvent)
    ensures
        command_step(state, event).1 is Nothing ==> command_step(state, event).0 == state,
        !(command_step(state, event).1 is Nothing) ==> progress(command_step(state, event).0)
            > progress(state),
{
}

/// Where no date and no time of day is given, nothing is read: the search
/// starts at once. Where one is given and cannot be read, the command ends
/// before any provider is asked.
pub proof fn law_input_before_network(timestamp_given: bool, inner: ParseError)
    ensures
        command_step(CommandState::Start, CommandEvent::Invoked { timestamp_given }).1
            is SearchPlace <==> !timestamp_given,
        command_step(
            CommandState::ParsingTimestamp,
            CommandEvent::TimestampParsed(Err(inner)),
        ) == (CommandState::Done, CommandAction::Fail(Error::Handled { inner })),
{
}

/// Takes a temperature command one step further: from what has happened
/// to what is to be done next. An event that does not belong to the step
/// at which the command stands changes nothing.
pub fn temperature_step(state: CommandState, event: CommandEvent) -> (r: (
    CommandState,
    CommandAction,
))
    ensures
        r == command_step(state, event),
{
    match (state, event) {
        (CommandState::Start, CommandEvent::Invoked { timestamp_given }) => {
            if timestamp_given {
                (CommandState::ParsingTimestamp, CommandAction::ParseTimestamp)
            } else {
                (CommandState::Searching, CommandAction::SearchPlace)
            }
        },
        (CommandState::ParsingTimestamp, CommandEvent::TimestampParsed(parsed)) => match parsed {
            Ok(_) => (CommandState::Searching, CommandAction::SearchPlace),
            Err(inner) => (CommandState::Done, CommandAction::Fail(Error::Handled { inner })),
        },
        (CommandState::Searching, CommandEvent::PlacesFound(found)) => match found {
            Ok(count) => {
                if count == 0 {
                    (CommandState::Done, CommandAction::Reply(Message::PlaceNotFound))
                } else {
                    (CommandState::Selecting, CommandAction::SelectPlace)
                }
            },
            Err(error) => (CommandState::Done, CommandAction::Fail(Error::ApiError(error))),
        },
        (CommandState::Selecting, CommandEvent::PlaceSelected(selection)) => match selection {
            Selection::Unique(place) => (
                CommandState::Fetching { place, announce: false },
                CommandAction::FetchTemperature { place },
            ),
            Selection::OneOfMany(place) => (
                CommandState::Fetching { place, announce: true },
                CommandAction::FetchTemperature { place },
            ),
            Selection::Aborted => (CommandState::Done, CommandAction::Say(Message::SelectionTimeout)),
            Selection::Failed(error) => (CommandState::Done, CommandAction::Fail(error)),
        },
        (
            CommandState::Fetching { place, announce },
            CommandEvent::TemperatureFetched(fetched),
        ) => match fetched {
            Ok(_) => {
                if announce {
                    (CommandState::Done, CommandAction::Say(Message::TemperatureInvokedBy { place }))
                } else {
                    (CommandState::Done, CommandAction::Reply(Message::Temperature { place }))
                }
            },
            Err(error) => (CommandState::Done, CommandAction::Fail(error)),
        },
        (state, _) => (state, CommandAction::Nothing),
    }
}

/// The request that fetches a temperature.
#[derive(Debug)]
pub enum TemperatureRequest {
    /// Ask the forecast provider, with these parameters.
    Current { params: Vec<(String, String)> },
    /// Ask the archive; the sample is found under `request.start`.
    Past { request: SeriesRequest },
}

/// Whether `r` is the error for a place whose coordinates are no numbers.
pub open spec fn is_malformed_coordinates(r: Result<TemperatureRequest, Error>, place: Place) -> bool {
    &&& r matches Err(Error::Unexpected { reason, subject })
    &&& reason@ == "Place contained malformed coordinates!"@
    &&& subject matches Some(text)
    &&& text@ == "Place: "@ + place.info_text()
}

/// Whether `r` is the error for a date and time that name no instant on the
/// clock `timezone`.
pub open spec fn is_unlocalizable(
    r: Result<TemperatureRequest, Error>,
    place: Place,
    timezone: Seq<char>,
) -> bool {
    &&& r matches Err(Error::Unexpected { reason, subject })
    &&& reason@ == "Could not localize timestamp to timezone of place!"@
    &&& subject matches Some(text)
    &&& text@ == "Place: "@ + place.info_text() + ", timezone: "@ + timezone
}

/// Whether `r` carries what the archive request `request` came to: the
/// request itself, or its error as an error of the command.
pub open spec fn is_past_request(
    r: Result<TemperatureRequest, Error>,
    request: Result<SeriesRequest, ApiError>,
) -> bool {
    match request {
        Ok(request) => r == Ok::<TemperatureRequest, Error>(TemperatureRequest::Past { request }),
        Err(error) => r == Err::<TemperatureRequest, Error>(Error::ApiError(error)),
    }
}

/// Whether `r` is the refusal of a span with the fault `fault`, or, where
/// there is no fault, the archive request with the parameters `params` for
/// the single instant `hour`.
pub open spec fn is_hour_request(
    r: Result<TemperatureRequest, Error>,
    fault: Option<RangeFault>,
    params: Seq<(Seq<char>, Seq<char>)>,
    hour: i64,
) -> bool {
    match fault {
        Some(fault) => r matches Err(Error::ApiError(ApiError::BadRequest { reason })) && reason@
            == fault_text(fault),
        None => r matches Ok(TemperatureRequest::Past { request }) && pairs(request.params@)
            == params && request.start == hour && request.end == hour,
    }
}

/// Whether `r` is the refusal of an instant that cannot be rounded.
pub open spec fn is_unroundable(r: Result<TemperatureRequest, Error>) -> bool {
    r matches Err(Error::ApiError(ApiError::BadRequest { reason })) && reason@
        == "Rounding the timestamp exceeded its possible value space"@
}

/// What [`single_temperature_request`] returns for an instant of the past:
/// the archive request for the hour nearest to `timestamp`, unless that
/// hour cannot be had or asked for.
pub open spec fn is_request_at(
    r: Result<TemperatureRequest, Error>,
    latitude: Seq<char>,
    longitude: Seq<char>,
    timestamp: ZonedTimestamp,
    now_epoch_seconds: i64,
) -> bool {
    match hour_rounded(timestamp.epoch(), timestamp.offset()) {
        Some(hour) => match calendar_date(hour, timestamp.offset()) {
            Some(date) => is_hour_request(
                r,
                range_fault(
                    (hour, timestamp.offset()),
                    (hour, timestamp.offset()),
                    now_epoch_seconds,
                ),
                archive_params(latitude, longitude, date, date, timestamp.zone()),
                hour,
            ),
            None => is_unroundable(r),
        },
        None => is_unroundable(r),
    }
}

/// Wraps what an archive request came to.
pub fn past_request(request: Result<SeriesRequest, ApiError>) -> (r: Result<
    TemperatureRequest,
    Error,
>)
    ensures
        is_past_request(r, request),
{
    match request {
        Ok(request) => Ok(TemperatureRequest::Past { request }),
        Err(error) => Err(Error::ApiError(error)),
    }
}

/// Decides how the temperature at `place` is fetched. `coordinates` are
/// the latitude and the longitude of the place as decimal numbers, or
/// nothing where the place has none that can be read; `now_epoch_seconds`
/// is the instant at which the command is handled. Without coordinates
/// nothing can be fetched. For the moment the forecast provider is asked,
/// for an instant of the past the archive.
pub fn single_temperature_request(
    place: &Place,
    coordinates: Option<(String, String)>,
    time: RequestedTime,
    now_epoch_seconds: i64,
) -> (r: Result<TemperatureRequest, Error>)
    ensures
        match coordinates {
            None => is_malformed_coordinates(r, *place),
            Some((latitude, longitude)) => match time {
                RequestedTime::Now => r matches Ok(TemperatureRequest::Current { params })
                    && pairs(params@) == forecast_params(latitude@, longitude@),
                RequestedTime::Unlocalizable { timezone } => is_unlocalizable(r, *place, timezone@),
                RequestedTime::At(timestamp) => is_request_at(
                    r,
                    latitude@,
                    longitude@,
                    timestamp,
                    now_epoch_seconds,
                ),
            },
        },
{
    match coordinates {
        None => {
            let mut subject = String::from_str("Place: ");
            subject.append(place.info().as_str());
            Err(
                Error::Unexpected {
                    reason: String::from_str("Place contained malformed coordinates!"),
                    subject: Some(subject),
                },
            )
        },
        Some((latitude, longitude)) => match time {
            RequestedTime::Now => Ok(
                TemperatureRequest::Current {
                    params: current_temperature_request(latitude.as_str(), longitude.as_str()),
                },
            ),
            RequestedTime::Unlocalizable { timezone } => {
                let mut subject = String::from_str("Place: ");
                subject.append(place.info().as_str());
                subject.append(", timezone: ");
                subject.append(timezone.as_str());
                Err(
                    Error::Unexpected {
                        reason: String::from_str(
                            "Could not localize timestamp to timezone of place!",
                        ),
                        subject: Some(subject),
                    },
                )
            },
            RequestedTime::At(timestamp) => past_request(
                past_temperature_request(
                    latitude.as_str(),
                    longitude.as_str(),
                    &timestamp,
                    now_epoch_seconds,
                ),
            ),
        },
    }
}

} // verus!
