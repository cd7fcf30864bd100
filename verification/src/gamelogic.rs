//! The pure game logic: continent filtering, random sampling, the
//! checkbox mutual-exclusion blocking rule, and the index/string
//! conversion tables for colors and languages.

use vstd::prelude::*;
use rand::Rng;
use rand::seq::IteratorRandom;
use crate::configure::{count_true_spec, Continent, Country, CountryView};
use crate::threadfn::{BuildError, GameMode};
use crate::str_eq;

verus! {

broadcast use vstd::seq_lib::group_filter_ensures;

/// The canonical order of the continent selection vector.
pub open spec fn continent_order() -> Seq<Continent> {
    seq![
        Continent::Europe,
        Continent::Asia,
        Continent::Africa,
        Continent::NorthAmerica,
        Continent::SouthAmerica,
        Continent::Oceania,
    ]
}

/// The canonical order of the mode selection vector.
pub open spec fn mode_order() -> Seq<GameMode> {
    seq![GameMode::Flags, GameMode::Capitals, GameMode::Fandc]
}

/// The entries of `order` whose flag among the first `n` entries of `sel`
/// is set, in the order of `order`.
pub open spec fn enabled_entries<T>(order: Seq<T>, sel: Seq<bool>, n: int) -> Seq<T>
    decreases n,
{
    if n <= 0 {
        Seq::empty()
    } else {
        enabled_entries(order, sel, n - 1) + if sel[n - 1] {
            seq![order[n - 1]]
        } else {
            Seq::empty()
        }
    }
}

/// The all-true continent selection enables all six continents, in
/// canonical order.
pub proof fn lemma_enabled_continents_all(sel: Seq<bool>)
    requires
        sel.len() >= 6,
        forall|i: int| 0 <= i < 6 ==> sel[i],
    ensures
        enabled_entries(continent_order(), sel, 6) == continent_order(),
{
    let o = continent_order();
    assert(enabled_entries(o, sel, 0) =~= Seq::<Continent>::empty());
    assert(enabled_entries(o, sel, 1) =~= seq![o[0]]);
    assert(enabled_entries(o, sel, 2) =~= seq![o[0], o[1]]);
    assert(enabled_entries(o, sel, 3) =~= seq![o[0], o[1], o[2]]);
    assert(enabled_entries(o, sel, 4) =~= seq![o[0], o[1], o[2], o[3]]);
    assert(enabled_entries(o, sel, 5) =~= seq![o[0], o[1], o[2], o[3], o[4]]);
    assert(enabled_entries(o, sel, 6) =~= o);
}

/// A continent selection with exactly one flag set enables exactly that
/// continent.
pub proof fn lemma_enabled_continents_single(sel: Seq<bool>, j: int)
    requires
        sel.len() >= 6,
        0 <= j < 6,
        forall|i: int| 0 <= i < 6 ==> (sel[i] <==> i == j),
    ensures
        enabled_entries(continent_order(), sel, 6) == seq![continent_order()[j]],
{
    let o = continent_order();
    assert(enabled_entries(o, sel, 0) =~= Seq::<Continent>::empty());
    assert(enabled_entries(o, sel, 1) =~= if j < 1 {
        seq![o[j]]
    } else {
        Seq::<Continent>::empty()
    });
    assert(enabled_entries(o, sel, 2) =~= if j < 2 {
        seq![o[j]]
    } else {
        Seq::<Continent>::empty()
    });
    assert(enabled_entries(o, sel, 3) =~= if j < 3 {
        seq![o[j]]
    } else {
        Seq::<Continent>::empty()
    });
    assert(enabled_entries(o, sel, 4) =~= if j < 4 {
        seq![o[j]]
    } else {
        Seq::<Continent>::empty()
    });
    assert(enabled_entries(o, sel, 5) =~= if j < 5 {
        seq![o[j]]
    } else {
        Seq::<Continent>::empty()
    });
    assert(enabled_entries(o, sel, 6) =~= seq![o[j]]);
}

/// The continent at the given position of the canonical order.
pub fn continent_of_index(i: usize) -> (c: Continent)
    requires
        i < 6,
    ensures
        c == continent_order()[i as int],
{
    let c = if i == 0 {
        Continent::Europe
    } else if i == 1 {
        Continent::Asia
    } else if i == 2 {
        Continent::Africa
    } else if i == 3 {
        Continent::NorthAmerica
    } else if i == 4 {
        Continent::SouthAmerica
    } else {
        Continent::Oceania
    };
    c
}

/// The quiz mode at the given position of the canonical order.
pub fn mode_of_index(i: usize) -> (m: GameMode)
    requires
        i < 3,
    ensures
        m == mode_order()[i as int],
{
    if i == 0 {
        GameMode::Flags
    } else if i == 1 {
        GameMode::Capitals
    } else {
        GameMode::Fandc
    }
}

/// The list of continents enabled by the first six entries of the
/// selection vector, in canonical order.
pub fn create_continents_list(input_config: &Vec<bool>) -> (r: Vec<Continent>)
    requires
        input_config@.len() >= 6,
    ensures
        r@ == enabled_entries(continent_order(), input_config@, 6),
{
    let mut out: Vec<Continent> = Vec::new();
    let mut i: usize = 0;
    while i < 6
        invariant
            i <= 6,
            input_config@.len() >= 6,
            out@ == enabled_entries(continent_order(), input_config@, i as int),
        decreases 6 - i,
    {
        if input_config[i] {
            out.push(continent_of_index(i));
            assert(out@ =~= enabled_entries(continent_order(), input_config@, i + 1));
        } else {
            assert(out@ =~= enabled_entries(continent_order(), input_config@, i + 1));
        }
        i = i + 1;
    }
    out
}

/// The list of quiz modes enabled by the first three entries of the
/// selection vector, in canonical order.
pub fn create_mode_list(input_config: &Vec<bool>) -> (r: Vec<GameMode>)
    requires
        input_config@.len() >= 3,
    ensures
        r@ == enabled_entries(mode_order(), input_config@, 3),
{
    let mut out: Vec<GameMode> = Vec::new();
    let mut i: usize = 0;
    while i < 3
        invariant
            i <= 3,
            input_config@.len() >= 3,
            out@ == enabled_entries(mode_order(), input_config@, i as int),
        decreases 3 - i,
    {
        if input_config[i] {
            out.push(mode_of_index(i));
            assert(out@ =~= enabled_entries(mode_order(), input_config@, i + 1));
        } else {
            assert(out@ =~= enabled_entries(mode_order(), input_config@, i + 1));
        }
        i = i + 1;
    }
    out
}

/// The blocking rule for the selection checkboxes: true iff exactly one of
/// the first `active_len` entries is checked, in which case the interface
/// must refuse to let that last checked box be unchecked.
pub fn is_last_checked(checkbox: &Vec<bool>, active_len: usize) -> (r: bool)
    requires
        active_len <= checkbox@.len(),
    ensures
        r == (count_true_spec(checkbox@, active_len as int) == 1),
{
    let c = crate::configure::count_true(checkbox, active_len);
    c == 1
}

/// Whether the continent checkboxes must be blocked: exactly one of the
/// six continent flags is still set.
pub fn checkbox_continent_blocked(cont: &Vec<bool>) -> (r: bool)
    requires
        cont@.len() >= 6,
    ensures
        r == (count_true_spec(cont@, 6) == 1),
{
    is_last_checked(cont, 6)
}

/// Whether the mode checkboxes must be blocked: exactly one of the three
/// mode flags is still set.
pub fn checkbox_mode_blocked(mode: &Vec<bool>) -> (r: bool)
    requires
        mode@.len() >= 3,
    ensures
        r == (count_true_spec(mode@, 3) == 1),
{
    is_last_checked(mode, 3)
}

/// Whether a country record passes the continent filter: it carries a
/// continent and that continent is among the targets. Records without a
/// continent never pass.
pub open spec fn country_kept(c: CountryView, targets: Seq<Continent>) -> bool {
    match c.continent {
        Some(k) => targets.contains(k),
        None => false,
    }
}

/// The subset of the catalog kept by a continent filter, in catalog
/// order.
pub open spec fn filtered_catalog(catalog: Seq<CountryView>, targets: Seq<Continent>) -> Seq<
    CountryView,
> {
    catalog.filter(|c: CountryView| country_kept(c, targets))
}

/// Whether the continent list holds the given continent.
pub fn continent_listed(targets: &[Continent], c: Continent) -> (r: bool)
    ensures
        r == targets@.contains(c),
{
    let mut i: usize = 0;
    while i < targets.len()
        invariant
            i <= targets@.len(),
            forall|j: int| 0 <= j < i ==> targets@[j] != c,
        decreases targets@.len() - i,
    {
        if targets[i] == c {
            return true;
        }
        i = i + 1;
    }
    false
}

/// The subset of the catalog whose continent is among the targets, in
/// catalog order.
pub fn filter_by_continents(countries: &Vec<Country>, target_continents: &[Continent]) -> (r: Vec<
    Country,
>)
    ensures
        r.deep_view() == filtered_catalog(countries.deep_view(), target_continents@),
{
    let ghost pool: Seq<CountryView> = countries.deep_view();
    let ghost pred = |c: CountryView| country_kept(c, target_continents@);
    let mut out: Vec<Country> = Vec::new();
    let mut i: usize = 0;
    while i < countries.len()
        invariant
            i <= pool.len(),
            pool == countries.deep_view(),
            pred == (|c: CountryView| country_kept(c, target_continents@)),
            out.deep_view() == pool.subrange(0, i as int).filter(pred),
        decreases pool.len() - i,
    {
        let keep: bool = match &countries[i].continent {
            Some(k) => continent_listed(target_continents, *k),
            None => false,
        };
        proof {
            reveal(Seq::filter);
            assert(pool.subrange(0, i + 1).drop_last() =~= pool.subrange(0, i as int));
            assert(pool.subrange(0, i + 1).last() == pool[i as int]);
            assert(countries@[i as int]@ == pool[i as int]);
            assert(keep == pred(pool[i as int]));
        }
        if keep {
            out.push(countries[i].clone());
            assert(out.deep_view() =~= pool.subrange(0, i + 1).filter(pred));
        } else {
            assert(out.deep_view() =~= pool.subrange(0, i + 1).filter(pred));
        }
        i = i + 1;
    }
    proof {
        assert(pool.subrange(0, pool.len() as int) =~= pool);
    }
    out
}

/// A filter keeps a sequence whose every element already passes it.
pub proof fn lemma_filter_all_kept<A>(s: Seq<A>, pred: spec_fn(A) -> bool)
    requires
        forall|i: int| 0 <= i < s.len() ==> pred(#[trigger] s[i]),
    ensures
        s.filter(pred) == s,
    decreases s.len(),
{
    reveal(Seq::filter);
    if s.len() > 0 {
        lemma_filter_all_kept(s.drop_last(), pred);
        assert(s.filter(pred) =~= s);
    }
}

/// Filtering is idempotent: filtering an already-filtered sequence by the
/// same predicate yields the identical sequence.
pub proof fn lemma_filter_idempotent<A>(s: Seq<A>, pred: spec_fn(A) -> bool)
    ensures
        s.filter(pred).filter(pred) == s.filter(pred),
{
    lemma_filter_all_kept(s.filter(pred), pred);
}

/// The continent filter is idempotent: filtering an already-filtered
/// subset by the same continent set yields the identical subset.
pub proof fn lemma_filter_by_continents_idempotent(
    catalog: Seq<CountryView>,
    targets: Seq<Continent>,
)
    ensures
        filtered_catalog(filtered_catalog(catalog, targets), targets) == filtered_catalog(
            catalog,
            targets,
        ),
{
    lemma_filter_idempotent(catalog, |c: CountryView| country_kept(c, targets));
}

/// Relies on rand's `Rng::random_range` over `0..count`: it panics only on
/// an empty range and otherwise returns a value of the range.
#[verifier::external_body]
pub fn get_rand_universal(count: usize) -> (r: usize)
    requires
        count > 0,
    ensures
        r < count,
{
    let mut rng: rand::prelude::ThreadRng = rand::rng();
    let random_number: usize = rng.random_range(0..count);
    random_number
}

/// Relies on rand's `IteratorRandom::choose_multiple` over the index range
/// `0..len`: a reservoir sample of min(count, len) elements of the
/// iterator, each drawn from a distinct position, so the sampled indices
/// are pairwise distinct and below `len`.
#[verifier::external_body]
fn sample_indices(len: usize, count: usize) -> (r: Vec<usize>)
    ensures
        r@.len() == if count <= len {
            count as int
        } else {
            len as int
        },
        forall|i: int| 0 <= i < r@.len() ==> r@[i] < len,
        forall|i: int, j: int| 0 <= i < j < r@.len() ==> r@[i] != r@[j],
{
    let mut rng = rand::rng();
    (0..len).choose_multiple(&mut rng, count)
}

/// Whether `idx` witnesses that `sample` was drawn from `n` pairwise
/// distinct positions of `pool`.
pub open spec fn sample_indices_ok(
    idx: Seq<int>,
    sample: Seq<CountryView>,
    pool: Seq<CountryView>,
    n: int,
) -> bool {
    &&& idx.len() == n
    &&& sample.len() == n
    &&& forall|i: int| 0 <= i < n ==> 0 <= #[trigger] idx[i] < pool.len()
    &&& forall|i: int, j: int| 0 <= i < j < n ==> idx[i] != idx[j]
    &&& forall|i: int| 0 <= i < n ==> #[trigger] sample[i] == pool[idx[i]]
}

/// Whether `sample` consists of `n` entries of `pool` drawn from pairwise
/// distinct positions.
pub open spec fn is_distinct_sample(sample: Seq<CountryView>, pool: Seq<CountryView>, n: int) -> bool {
    exists|idx: Seq<int>| sample_indices_ok(idx, sample, pool, n)
}

/// Draws `count` countries from pairwise distinct positions of the pool;
/// fails with `InsufficientCandidates` exactly when the pool is smaller
/// than the requested sample.
pub fn get_random_countries(countries: &[Country], count: usize) -> (r: Result<
    Vec<Country>,
    BuildError,
>)
    ensures
        countries@.len() < count ==> r == Err::<Vec<Country>, BuildError>(
            BuildError::InsufficientCandidates,
        ),
        countries@.len() >= count ==> (r matches Ok(v) && v@.len() == count && is_distinct_sample(
            v.deep_view(),
            countries.deep_view(),
            count as int,
        )),
{
    if countries.len() < count {
        return Err(BuildError::InsufficientCandidates);
    }
    let ghost pool: Seq<CountryView> = countries.deep_view();
    let idxs: Vec<usize> = sample_indices(countries.len(), count);
    let mut out: Vec<Country> = Vec::new();
    let mut i: usize = 0;
    while i < count
        invariant
            i <= count,
            count <= countries@.len(),
            pool == countries.deep_view(),
            idxs@.len() == count,
            forall|j: int| 0 <= j < count ==> idxs@[j] < countries@.len(),
            out@.len() == i,
            forall|j: int| 0 <= j < i ==> out.deep_view()[j] == pool[idxs@[j] as int],
        decreases count - i,
    {
        let k: usize = idxs[i];
        let picked: Country = countries[k].clone();
        let ghost prev: Seq<CountryView> = out.deep_view();
        out.push(picked);
        proof {
            assert(out.deep_view() =~= prev.push(picked@));
        }
        i = i + 1;
    }
    proof {
        let w: Seq<int> = idxs@.map_values(|u: usize| u as int);
        assert(sample_indices_ok(w, out.deep_view(), pool, count as int));
    }
    Ok(out)
}

/// Pools without duplicate entries yield samples without duplicate
/// entries: the sample positions are pairwise distinct.
pub proof fn lemma_distinct_sample_distinct(
    sample: Seq<CountryView>,
    pool: Seq<CountryView>,
    n: int,
)
    requires
        is_distinct_sample(sample, pool, n),
        forall|i: int, j: int| 0 <= i < j < pool.len() ==> pool[i] != pool[j],
    ensures
        forall|i: int, j: int| 0 <= i < j < n ==> sample[i] != sample[j],
{
    let idx = choose|idx: Seq<int>| sample_indices_ok(idx, sample, pool, n);
    assert forall|i: int, j: int| 0 <= i < j < n implies sample[i] != sample[j] by {
        if idx[i] < idx[j] {
            assert(pool[idx[i]] != pool[idx[j]]);
        } else {
            assert(pool[idx[j]] != pool[idx[i]]);
        }
    }
}

/// Every entry of a distinct sample is an entry of the pool.
pub proof fn lemma_distinct_sample_membership(
    sample: Seq<CountryView>,
    pool: Seq<CountryView>,
    n: int,
)
    requires
        is_distinct_sample(sample, pool, n),
    ensures
        forall|i: int| 0 <= i < n ==> pool.contains(#[trigger] sample[i]),
{
    let idx = choose|idx: Seq<int>| sample_indices_ok(idx, sample, pool, n);
    assert forall|i: int| 0 <= i < n implies pool.contains(#[trigger] sample[i]) by {
        assert(sample[i] == pool[idx[i]]);
    }
}

/// A sample drawn from a filtered catalog passes the filter itself: every
/// sampled country carries one of the target continents.
pub proof fn lemma_sample_passes_filter(
    sample: Seq<CountryView>,
    catalog: Seq<CountryView>,
    targets: Seq<Continent>,
    n: int,
)
    requires
        is_distinct_sample(sample, filtered_catalog(catalog, targets), n),
    ensures
        forall|i: int| 0 <= i < n ==> country_kept(#[trigger] sample[i], targets),
{
    let f = filtered_catalog(catalog, targets);
    lemma_distinct_sample_membership(sample, f, n);
    assert forall|i: int| 0 <= i < n implies country_kept(#[trigger] sample[i], targets) by {
        assert(f.contains(sample[i]));
        let j = choose|j: int| 0 <= j < f.len() && f[j] == sample[i];
        assert(country_kept(f[j], targets));
    }
}

/// The accent color palette, by index: the ARGB value shown on the unique
/// buttons. Unknown indices fall back to gray.
pub open spec fn color_argb_spec(index: i32) -> u32 {
    if index == 1 {
        0xffe786d2u32
    } else if index == 2 {
        0xffab86e7u32
    } else if index == 3 {
        0xff5f79efu32
    } else if index == 4 {
        0xffefbd5fu32
    } else if index == 5 {
        0xff45f931u32
    } else {
        0xff808080u32
    }
}

/// The ARGB value of the accent color at the given palette index, gray for
/// indices outside the palette.
pub fn ret_button_color(index: i32) -> (r: u32)
    ensures
        r == color_argb_spec(index),
{
    if index == 1 {
        0xffe786d2
    } else if index == 2 {
        0xffab86e7
    } else if index == 3 {
        0xff5f79ef
    } else if index == 4 {
        0xffefbd5f
    } else if index == 5 {
        0xff45f931
    } else {
        0xff808080
    }
}

/// The palette index of an accent color name; unknown names fall back to
/// index 0, gray.
pub open spec fn color_index_spec(name: Seq<char>) -> i32 {
    if name == "gray"@ {
        0
    } else if name == "freedom"@ {
        1
    } else if name == "lavender"@ {
        2
    } else if name == "blue_sky"@ {
        3
    } else if name == "mandarin"@ {
        4
    } else if name == "ripe_lime"@ {
        5
    } else {
        0
    }
}

/// The accent color name at a palette index; indices outside the palette
/// fall back to "gray".
pub open spec fn color_name_spec(index: i32) -> Seq<char> {
    if index == 1 {
        "freedom"@
    } else if index == 2 {
        "lavender"@
    } else if index == 3 {
        "blue_sky"@
    } else if index == 4 {
        "mandarin"@
    } else if index == 5 {
        "ripe_lime"@
    } else {
        "gray"@
    }
}

/// Maps a persisted accent color name to its palette index; unknown names
/// resolve to index 0, gray.
pub fn ret_button_color_index(name: &str) -> (r: i32)
    ensures
        r == color_index_spec(name@),
{
    if str_eq(name, "gray") {
        0
    } else if str_eq(name, "freedom") {
        1
    } else if str_eq(name, "lavender") {
        2
    } else if str_eq(name, "blue_sky") {
        3
    } else if str_eq(name, "mandarin") {
        4
    } else if str_eq(name, "ripe_lime") {
        5
    } else {
        0
    }
}

/// Maps a palette index back to the accent color name that is persisted;
/// indices outside the palette resolve to "gray".
pub fn ret_button_color_string(index: i32) -> (r: String)
    ensures
        r@ == color_name_spec(index),
{
    let s: &str = if index == 1 {
        "freedom"
    } else if index == 2 {
        "lavender"
    } else if index == 3 {
        "blue_sky"
    } else if index == 4 {
        "mandarin"
    } else if index == 5 {
        "ripe_lime"
    } else {
        "gray"
    };
    s.to_owned()
}

/// The color name tables are inverse to each other on the palette, and an
/// unknown name round-trips as index 0, the name "gray".
pub proof fn lemma_color_round_trip(index: i32)
    requires
        0 <= index < 6,
    ensures
        color_index_spec(color_name_spec(index)) == index,
{
    reveal_strlit("gray");
    reveal_strlit("freedom");
    reveal_strlit("lavender");
    reveal_strlit("blue_sky");
    reveal_strlit("mandarin");
    reveal_strlit("ripe_lime");
    assert("gray"@.len() == 4);
    assert("freedom"@.len() == 7);
    assert("lavender"@.len() == 8);
    assert("blue_sky"@.len() == 8);
    assert("mandarin"@.len() == 8);
    assert("ripe_lime"@.len() == 9);
    assert("lavender"@[0] == 'l');
    assert("blue_sky"@[0] == 'b');
    assert("mandarin"@[0] == 'm');
}

/// The language index of a persisted language selector; unknown selectors
/// resolve to English.
pub open spec fn language_index_spec(name: Seq<char>) -> i32 {
    if name == "en"@ {
        0
    } else if name == "ru"@ {
        1
    } else if name == "cn"@ {
        2
    } else {
        0
    }
}

/// The language selector at a language index; indices outside the table
/// resolve to "en".
pub open spec fn language_name_spec(index: i32) -> Seq<char> {
    if index == 1 {
        "ru"@
    } else if index == 2 {
        "cn"@
    } else {
        "en"@
    }
}

/// Maps a persisted language selector to its index; unknown selectors
/// resolve to index 0, English.
pub fn ret_language_index(name: &str) -> (r: i32)
    ensures
        r == language_index_spec(name@),
{
    if str_eq(name, "en") {
        0
    } else if str_eq(name, "ru") {
        1
    } else if str_eq(name, "cn") {
        2
    } else {
        0
    }
}

/// Maps a language index back to the selector that is persisted; indices
/// outside the table resolve to "en".
pub fn ret_language_string(index: i32) -> (r: String)
    ensures
        r@ == language_name_spec(index),
{
    let s: &str = if index == 1 {
        "ru"
    } else if index == 2 {
        "cn"
    } else {
        "en"
    };
    s.to_owned()
}

/// Normalizes a language selector to one of the supported selectors, by
/// way of the index table: unknown selectors become "en".
pub fn settings_language_patch(lang: &String) -> (r: &'static str)
    ensures
        r@ == language_name_spec(language_index_spec(lang@)),
{
    let index: i32 = ret_language_index(lang.as_str());
    if index == 1 {
        "ru"
    } else if index == 2 {
        "cn"
    } else {
        "en"
    }
}

/// The language tables are inverse to each other on the supported
/// languages.
pub proof fn lemma_language_round_trip(index: i32)
    requires
        0 <= index < 3,
    ensures
        language_index_spec(language_name_spec(index)) == index,
{
    reveal_strlit("en");
    reveal_strlit("ru");
    reveal_strlit("cn");
    assert("en"@[0] == 'e');
    assert("ru"@[0] == 'r');
    assert("cn"@[0] == 'c');
}

} // verus!
