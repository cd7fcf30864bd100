//! The country catalog record and the persisted configuration record.

use vstd::prelude::*;
use crate::str_eq;

verus! {

/// A continent as recorded in the country dataset. Records whose continent
/// is unknown carry `Other` and are never selected by any continent filter.
#[derive(Debug, Clone, Copy, PartialEq, Eq, Structural)]
pub enum Continent {
    Africa,
    Asia,
    Europe,
    NorthAmerica,
    SouthAmerica,
    Oceania,
    Other,
}

/// One country record of the catalog, loaded once at startup and immutable
/// afterwards.
#[derive(Debug)]
pub struct Country {
    pub capital: Option<String>,
    pub code: String,
    pub continent: Option<Continent>,
    pub flag_4x3: String,
    pub iso: bool,
    pub name: String,
}

/// The mathematical model of a country record: each string field as a
/// sequence of characters.
pub struct CountryView {
    pub capital: Option<Seq<char>>,
    pub code: Seq<char>,
    pub continent: Option<Continent>,
    pub flag_4x3: Seq<char>,
    pub iso: bool,
    pub name: Seq<char>,
}

impl View for Country {
    type V = CountryView;

    open spec fn view(&self) -> CountryView {
        CountryView {
            capital: self.capital.deep_view(),
            code: self.code@,
            continent: self.continent,
            flag_4x3: self.flag_4x3@,
            iso: self.iso,
            name: self.name@,
        }
    }
}

impl DeepView for Country {
    type V = CountryView;

    open spec fn deep_view(&self) -> CountryView {
        self.view()
    }
}

impl Clone for Country {
    fn clone(&self) -> (r: Self)
        ensures
            r@ == self@,
    {
        let capital: Option<String> = match &self.capital {
            Some(c) => Some(c.clone()),
            None => None,
        };
        Country {
            capital,
            code: self.code.clone(),
            continent: self.continent,
            flag_4x3: self.flag_4x3.clone(),
            iso: self.iso,
            name: self.name.clone(),
        }
    }
}

/// The persisted configuration record.
#[derive(Debug)]
pub struct InputConfig {
    pub size: (u32, u32),
    pub position: (i32, i32),
    pub continents: Vec<bool>,
    pub mode: Vec<bool>,
    pub language: String,
    pub color: String,
}

/// What the built-in default configuration holds: a 500 by 500 window at the
/// origin, every continent enabled, only the first quiz mode enabled,
/// English, and the gray accent color.
pub open spec fn is_default_config(c: InputConfig) -> bool {
    &&& c.size == (500u32, 500u32)
    &&& c.position == (0i32, 0i32)
    &&& c.continents@ == seq![true, true, true, true, true, true]
    &&& c.mode@ == seq![true, false, false]
    &&& c.language@ == "en"@
    &&& c.color@ == "gray"@
}

/// A configuration the rest of the logic can act on: the selection vectors
/// have their fixed lengths and each keeps at least one entry enabled.
pub open spec fn valid_selections(c: InputConfig) -> bool {
    &&& c.continents@.len() == 6
    &&& c.mode@.len() == 3
    &&& exists|i: int| 0 <= i < 6 && c.continents@[i]
    &&& exists|i: int| 0 <= i < 3 && c.mode@[i]
}

impl InputConfig {
    /// The built-in defaults, used whenever the config file is missing or
    /// unparsable.
    pub fn default() -> (c: InputConfig)
        ensures
            is_default_config(c),
            valid_selections(c),
    {
        let continents: Vec<bool> = vec![true, true, true, true, true, true];
        let mode: Vec<bool> = vec![true, false, false];
        let c = InputConfig {
            size: (500, 500),
            position: (0, 0),
            continents,
            mode,
            language: "en".to_owned(),
            color: "gray".to_owned(),
        };
        assert(c.continents@ =~= seq![true, true, true, true, true, true]);
        assert(c.mode@ =~= seq![true, false, false]);
        assert(c.continents@[0]);
        assert(c.mode@[0]);
        c
    }

    /// A loaded configuration with usable selection vectors passes through
    /// unchanged; one with incompatible selection vectors is replaced by the
    /// defaults.
    pub fn sanitized(self) -> (c: InputConfig)
        ensures
            valid_selections(c),
            valid_selections(self) ==> c == self,
            !valid_selections(self) ==> is_default_config(c),
    {
        let ok = self.continents.len() == 6 && self.mode.len() == 3
            && count_true(&self.continents, 6) >= 1 && count_true(&self.mode, 3) >= 1;
        if ok {
            proof {
                lemma_count_true_pos(self.continents@, 6);
                lemma_count_true_pos(self.mode@, 3);
            }
            self
        } else {
            proof {
                if valid_selections(self) {
                    let i = choose|i: int| 0 <= i < 6 && self.continents@[i];
                    lemma_count_true_witness(self.continents@, 6, i);
                    let j = choose|j: int| 0 <= j < 3 && self.mode@[j];
                    lemma_count_true_witness(self.mode@, 3, j);
                }
            }
            InputConfig::default()
        }
    }
}

/// How many of the first `n` entries of `sel` are true.
pub open spec fn count_true_spec(sel: Seq<bool>, n: int) -> int
    decreases n,
{
    if n <= 0 {
        0
    } else {
        count_true_spec(sel, n - 1) + if sel[n - 1] { 1int } else { 0int }
    }
}

/// A positive count of true entries yields a witness position.
pub proof fn lemma_count_true_pos(sel: Seq<bool>, n: int)
    requires
        count_true_spec(sel, n) >= 1,
    ensures
        exists|i: int| 0 <= i < n && sel[i],
    decreases n,
{
    if n > 0 {
        if sel[n - 1] {
            assert(0 <= n - 1 < n && sel[n - 1]);
        } else {
            lemma_count_true_pos(sel, n - 1);
        }
    }
}

/// A true entry below `n` makes the count of true entries positive.
pub proof fn lemma_count_true_witness(sel: Seq<bool>, n: int, i: int)
    requires
        0 <= i < n,
        sel[i],
    ensures
        count_true_spec(sel, n) >= 1,
    decreases n,
{
    if i == n - 1 {
        assert(count_true_spec(sel, n) >= count_true_spec(sel, n - 1));
        lemma_count_true_nonneg(sel, n - 1);
    } else {
        lemma_count_true_witness(sel, n - 1, i);
    }
}

/// The count of true entries is never negative.
pub proof fn lemma_count_true_nonneg(sel: Seq<bool>, n: int)
    ensures
        count_true_spec(sel, n) >= 0,
    decreases n,
{
    if n > 0 {
        lemma_count_true_nonneg(sel, n - 1);
    }
}

/// Counts the true entries among the first `n` entries.
pub fn count_true(sel: &Vec<bool>, n: usize) -> (c: usize)
    requires
        n <= sel@.len(),
    ensures
        c == count_true_spec(sel@, n as int),
        c <= n,
{
    let mut c: usize = 0;
    let mut i: usize = 0;
    while i < n
        invariant
            i <= n,
            n <= sel@.len(),
            c == count_true_spec(sel@, i as int),
            c <= i,
        decreases n - i,
    {
        if sel[i] {
            c = c + 1;
        }
        i = i + 1;
    }
    c
}

/// Maps a continent name of the dataset file to the catalog's enum; unknown
/// names resolve to `Other` and are thereby excluded from every filter.
pub open spec fn continent_from_name_spec(name: Seq<char>) -> Continent {
    if name == "Africa"@ {
        Continent::Africa
    } else if name == "Asia"@ {
        Continent::Asia
    } else if name == "Europe"@ {
        Continent::Europe
    } else if name == "North America"@ {
        Continent::NorthAmerica
    } else if name == "South America"@ {
        Continent::SouthAmerica
    } else if name == "Oceania"@ {
        Continent::Oceania
    } else {
        Continent::Other
    }
}

/// Maps a continent name string of the dataset file to the enum, with
/// unknown names silently resolving to `Other`.
pub fn continent_from_name(name: &str) -> (c: Continent)
    ensures
        c == continent_from_name_spec(name@),
{
    if str_eq(name, "Africa") {
        Continent::Africa
    } else if str_eq(name, "Asia") {
        Continent::Asia
    } else if str_eq(name, "Europe") {
        Continent::Europe
    } else if str_eq(name, "North America") {
        Continent::NorthAmerica
    } else if str_eq(name, "South America") {
        Continent::SouthAmerica
    } else if str_eq(name, "Oceania") {
        Continent::Oceania
    } else {
        Continent::Other
    }
}

/// The directory prefix under which the per-language dataset files live.
pub const LOAD_DATA: &'static str = "data/";

/// The path of the dataset for the given language: the data directory
/// prefix followed by the language selector.
pub fn input_data_path(language: &str) -> (p: String)
    ensures
        p@ == LOAD_DATA@ + language@,
{
    let mut p: String = LOAD_DATA.to_owned();
    p.append(language);
    p
}

} // verus!
