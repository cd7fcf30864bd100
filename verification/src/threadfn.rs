//! The command/result protocol between the interface shell and the worker
//! that filters the catalog and builds questions, and the question builder
//! itself.

use vstd::prelude::*;
use crate::configure::{Continent, Country, CountryView};
use crate::gamelogic;
use crate::translation::{continent_name_spec, ContinentsTranslation};
use crate::ANSWER_NUM;

verus! {

/// A command kind for the worker: replace the filtered subset and mode
/// list, or build the next question.
#[derive(Debug, PartialEq, Eq, Structural)]
pub enum Action {
    Update,
    Load,
}

/// A quiz variant: guess the country of a flag, guess by capital, or the
/// combined variant.
#[derive(Debug, Clone, Copy, PartialEq, Eq, Structural)]
pub enum GameMode {
    Flags,
    Capitals,
    Fandc,
}

/// One inbound message for the worker. `mode` and `checkbox` accompany
/// `Update`; `random` (the committed correct-answer index) accompanies
/// `Load`.
pub struct ThreadIn {
    pub mode: Option<Vec<GameMode>>,
    pub action: Action,
    pub checkbox: Option<Vec<bool>>,
    pub random: Option<usize>,
}

/// Why a question could not be built. `AssetReadError` is raised by the
/// shell when the flag image of a prepared question cannot be read; the
/// builder itself never produces it.
#[derive(Debug, Clone, Copy, PartialEq, Eq, Structural)]
pub enum BuildError {
    NoModeSelected,
    InsufficientCandidates,
    AssetReadError,
}

/// The candidate label a country contributes under the given mode: its
/// capital for the capitals quiz, substituting "null" where a country has
/// none, and its name otherwise.
pub open spec fn label_spec(c: CountryView, mode: GameMode) -> Seq<char> {
    match mode {
        GameMode::Capitals => match c.capital {
            Some(cap) => cap,
            None => "null"@,
        },
        _ => c.name,
    }
}

/// A question fully determined up to its flag image: the chosen mode, the
/// four candidate labels, the index of the correct candidate, and the full
/// record of the correct country (whose `flag_4x3` field names the image
/// asset still to be read).
pub struct PreparedQuestion {
    pub mode: GameMode,
    pub names: Vec<String>,
    pub correct: usize,
    pub country: Country,
}

/// What a well-built question satisfies with respect to the filtered
/// subset it was drawn from: the mode is one of the enabled modes, there
/// are exactly four candidate labels drawn from a distinct random sample
/// of the subset, and the correct candidate at the committed index is the
/// returned country record.
pub open spec fn prepared_from(
    q: PreparedQuestion,
    filtered: Seq<CountryView>,
    modes: Seq<GameMode>,
) -> bool {
    &&& modes.contains(q.mode)
    &&& q.names@.len() == ANSWER_NUM
    &&& q.correct < ANSWER_NUM
    &&& exists|sample: Seq<CountryView>|
        {
            &&& #[trigger] gamelogic::is_distinct_sample(sample, filtered, ANSWER_NUM as int)
            &&& forall|i: int|
                0 <= i < ANSWER_NUM ==> q.names@[i]@ == label_spec(#[trigger] sample[i], q.mode)
            &&& q.country@ == sample[q.correct as int]
        }
}

/// Builds the next question from the filtered subset and the enabled
/// modes. `correct_hint` is the correct-answer index the caller has
/// already committed to; without one, a fresh index is drawn. Fails with
/// `NoModeSelected` when no mode is enabled and with
/// `InsufficientCandidates` when the filtered subset holds fewer than
/// four countries; succeeds on every other input.
pub fn prepare_question(
    filtered: &Vec<Country>,
    modes: &Vec<GameMode>,
    correct_hint: Option<usize>,
) -> (r: Result<PreparedQuestion, BuildError>)
    requires
        correct_hint matches Some(h) ==> h < ANSWER_NUM,
    ensures
        modes@.len() == 0 ==> r == Err::<PreparedQuestion, BuildError>(BuildError::NoModeSelected),
        modes@.len() > 0 && filtered@.len() < ANSWER_NUM ==> r == Err::<
            PreparedQuestion,
            BuildError,
        >(BuildError::InsufficientCandidates),
        modes@.len() > 0 && filtered@.len() >= ANSWER_NUM ==> (r matches Ok(q) && prepared_from(
            q,
            filtered.deep_view(),
            modes@,
        )),
        correct_hint matches Some(h) ==> (r matches Ok(q) ==> q.correct == h),
{
    if modes.len() == 0 {
        return Err(BuildError::NoModeSelected);
    }
    let random: usize = match correct_hint {
        Some(h) => h,
        None => gamelogic::get_rand_universal(ANSWER_NUM),
    };
    let used_mode: GameMode = modes[gamelogic::get_rand_universal(modes.len())];
    let used_countries: Vec<Country> = match gamelogic::get_random_countries(
        filtered.as_slice(),
        ANSWER_NUM,
    ) {
        Ok(v) => v,
        Err(e) => {
            return Err(e);
        },
    };
    let mut names: Vec<String> = Vec::new();
    let mut i: usize = 0;
    while i < ANSWER_NUM
        invariant
            i <= ANSWER_NUM,
            used_countries@.len() == ANSWER_NUM,
            names@.len() == i,
            forall|j: int|
                0 <= j < i ==> names@[j]@ == label_spec(
                    #[trigger] used_countries.deep_view()[j],
                    used_mode,
                ),
        decreases ANSWER_NUM - i,
    {
        let label: String = match used_mode {
            GameMode::Capitals => match &used_countries[i].capital {
                Some(capital) => capital.clone(),
                None => "null".to_owned(),
            },
            _ => used_countries[i].name.clone(),
        };
        names.push(label);
        i = i + 1;
    }
    let country: Country = used_countries[random].clone();
    let q = PreparedQuestion { mode: used_mode, names, correct: random, country };
    proof {
        let sample = used_countries.deep_view();
        assert(gamelogic::is_distinct_sample(
            sample,
            filtered.deep_view(),
            ANSWER_NUM as int,
        ));
        assert(q.country@ == sample[random as int]);
    }
    Ok(q)
}

/// The record describing the correct answer for the post-round display:
/// its name, capital, code, translated continent name, and flag image
/// bytes, with "null" standing in for anything the record lacks.
#[derive(Debug)]
pub struct CountryData {
    pub name: String,
    pub capital: String,
    pub code: String,
    pub continent: String,
    pub img: Vec<u8>,
}

impl CountryData {
    /// The placeholder record shown before any question was built.
    pub fn default() -> (r: CountryData)
        ensures
            r.name@ == "null"@,
            r.capital@ == "null"@,
            r.code@ == "null"@,
            r.continent@ == "null"@,
            r.img@ == seq![1u8],
    {
        let r = CountryData {
            name: "null".to_owned(),
            capital: "null".to_owned(),
            code: "null".to_owned(),
            continent: "null".to_owned(),
            img: vec![1u8],
        };
        assert(r.img@ =~= seq![1u8]);
        r
    }
}

/// One outbound message of the worker: the mode the question was built
/// for, the info record of the correct answer, and the candidate labels.
#[derive(Debug)]
pub struct ThreadData {
    pub mode: GameMode,
    pub data: CountryData,
    pub names: Vec<String>,
}

/// Completes a prepared question once the shell has read the flag image
/// bytes of the correct country: assembles the outbound message with the
/// info record of the correct answer.
pub fn finish_question(prep: PreparedQuestion, image: Vec<u8>, tr: &ContinentsTranslation) -> (r:
    ThreadData)
    ensures
        r.mode == prep.mode,
        r.names == prep.names,
        r.data.name@ == prep.country@.name,
        r.data.capital@ == match prep.country@.capital {
            Some(c) => c,
            None => "null"@,
        },
        r.data.code@ == prep.country@.code,
        r.data.continent@ == match prep.country@.continent {
            Some(k) => continent_name_spec(k, *tr),
            None => "null"@,
        },
        r.data.img == image,
{
    let capital: String = match &prep.country.capital {
        Some(c) => c.clone(),
        None => "null".to_owned(),
    };
    let continent: String = match &prep.country.continent {
        Some(k) => k.ret_continent_name(tr),
        None => "null".to_owned(),
    };
    let data = CountryData {
        name: prep.country.name.clone(),
        capital,
        code: prep.country.code.clone(),
        continent,
        img: image,
    };
    ThreadData { mode: prep.mode, data, names: prep.names }
}

/// The private state of the worker: the filtered subset of the catalog
/// and the list of enabled modes, both replaced wholesale by each
/// `Update` command.
pub struct WorkerState {
    pub filtered: Vec<Country>,
    pub modes: Vec<GameMode>,
}

impl WorkerState {
    /// The initial worker state: nothing filtered, no modes. The caller
    /// contract of the worker is that an `Update` arrives before the
    /// first `Load`.
    pub fn new() -> (s: WorkerState)
        ensures
            s.filtered@.len() == 0,
            s.modes@.len() == 0,
    {
        WorkerState { filtered: Vec::new(), modes: Vec::new() }
    }
}

/// What the answer to a `Load` command satisfies with respect to the
/// worker state it was processed against.
pub open spec fn load_result_spec(
    r: Option<Result<PreparedQuestion, BuildError>>,
    filtered: Seq<CountryView>,
    modes: Seq<GameMode>,
    correct_hint: Option<usize>,
) -> bool {
    &&& modes.len() == 0 ==> r == Some(
        Err::<PreparedQuestion, BuildError>(BuildError::NoModeSelected),
    )
    &&& modes.len() > 0 && filtered.len() < ANSWER_NUM ==> r == Some(
        Err::<PreparedQuestion, BuildError>(BuildError::InsufficientCandidates),
    )
    &&& modes.len() > 0 && filtered.len() >= ANSWER_NUM ==> (r matches Some(inner) && inner matches Ok(
        q,
    ) && prepared_from(q, filtered, modes) && (correct_hint matches Some(h) ==> q.correct == h))
}

/// Processes one inbound command against the worker state, in arrival
/// order: `Update` replaces the filtered subset (recomputed in full from
/// the catalog) and the mode list and answers nothing; `Load` leaves the
/// state alone and answers with the built question or the error to
/// report. Both message kinds share one queue, so a `Load` is always
/// processed against the most recent prior `Update`.
pub fn worker_step(state: &mut WorkerState, catalog: &Vec<Country>, input: ThreadIn) -> (r: Option<
    Result<PreparedQuestion, BuildError>,
>)
    requires
        input.action == Action::Update ==> (input.checkbox matches Some(cb) && cb@.len() >= 6)
            && input.mode is Some,
        input.action == Action::Load ==> (input.random matches Some(x) ==> x < ANSWER_NUM),
    ensures
        input.action == Action::Update ==> r is None,
        input.action == Action::Update ==> ((input.mode, input.checkbox) matches (
        Some(m),
        Some(cb),
        ) ==> (final(state).modes@ == m@ && final(state).filtered.deep_view()
            == gamelogic::filtered_catalog(
            catalog.deep_view(),
            gamelogic::enabled_entries(gamelogic::continent_order(), cb@, 6),
        ))),
        input.action == Action::Load ==> (*final(state) == *old(state) && load_result_spec(
            r,
            old(state).filtered.deep_view(),
            old(state).modes@,
            input.random,
        )),
{
    match input.action {
        Action::Update => {
            let checkbox: Vec<bool> = input.checkbox.unwrap();
            let continent: Vec<Continent> = gamelogic::create_continents_list(&checkbox);
            state.filtered = gamelogic::filter_by_continents(catalog, continent.as_slice());
            state.modes = input.mode.unwrap();
            None
        },
        Action::Load => {
            Some(prepare_question(&state.filtered, &state.modes, input.random))
        },
    }
}

} // verus!
