use geogame::configure::{continent_from_name, input_data_path, Continent, Country};
use geogame::gamelogic::{
    checkbox_continent_blocked, checkbox_mode_blocked, create_continents_list, create_mode_list,
    filter_by_continents, get_rand_universal, get_random_countries, is_last_checked,
    ret_button_color, ret_button_color_index, ret_button_color_string, ret_language_index,
    ret_language_string, settings_language_patch,
};
use geogame::threadfn::{BuildError, GameMode};

fn mk_country(name: &str, capital: Option<&str>, continent: Option<Continent>) -> Country {
    Country {
        capital: capital.map(|c| c.to_string()),
        code: format!("c-{}", name),
        continent,
        flag_4x3: format!("{}.svg", name),
        iso: true,
        name: name.to_string(),
    }
}

#[test]
fn last_checked_single_true_any_position() {
    for j in 0..6 {
        let mut v = vec![false; 6];
        v[j] = true;
        assert!(is_last_checked(&v, 6), "position {} should be blocked", j);
    }
}

#[test]
fn last_checked_two_or_more_true() {
    for a in 0..6 {
        for b in (a + 1)..6 {
            let mut v = vec![false; 6];
            v[a] = true;
            v[b] = true;
            assert!(!is_last_checked(&v, 6));
        }
    }
    assert!(!is_last_checked(&vec![true; 6], 6));
}

#[test]
fn last_checked_none_true() {
    assert!(!is_last_checked(&vec![false; 6], 6));
}

#[test]
fn last_checked_ignores_trailing_entries() {
    // Only the first `active_len` entries count.
    let v = vec![true, false, false, true, true, true];
    assert!(is_last_checked(&v, 3));
    assert!(!is_last_checked(&v, 6));
}

#[test]
fn checkbox_blocking_wrappers() {
    assert!(checkbox_continent_blocked(&vec![
        false, false, true, false, false, false
    ]));
    assert!(!checkbox_continent_blocked(&vec![true; 6]));
    assert!(checkbox_mode_blocked(&vec![true, false, false]));
    assert!(!checkbox_mode_blocked(&vec![true, true, false]));
}

#[test]
fn enabled_continents_all_true() {
    let r = create_continents_list(&vec![true; 6]);
    assert_eq!(
        r,
        vec![
            Continent::Europe,
            Continent::Asia,
            Continent::Africa,
            Continent::NorthAmerica,
            Continent::SouthAmerica,
            Continent::Oceania,
        ]
    );
}

#[test]
fn enabled_continents_single_true() {
    let order = [
        Continent::Europe,
        Continent::Asia,
        Continent::Africa,
        Continent::NorthAmerica,
        Continent::SouthAmerica,
        Continent::Oceania,
    ];
    for j in 0..6 {
        let mut v = vec![false; 6];
        v[j] = true;
        let r = create_continents_list(&v);
        assert_eq!(r, vec![order[j]]);
    }
}

#[test]
fn enabled_modes_lists() {
    assert_eq!(
        create_mode_list(&vec![true, true, true]),
        vec![GameMode::Flags, GameMode::Capitals, GameMode::Fandc]
    );
    assert_eq!(
        create_mode_list(&vec![false, true, false]),
        vec![GameMode::Capitals]
    );
    assert_eq!(create_mode_list(&vec![false, false, false]), vec![]);
}

#[test]
fn pick_index_stays_in_range() {
    for n in 1..10usize {
        for _ in 0..200 {
            assert!(get_rand_universal(n) < n);
        }
    }
}

#[test]
fn pick_index_covers_full_range() {
    let mut seen = [false; 4];
    for _ in 0..2000 {
        seen[get_rand_universal(4)] = true;
    }
    assert!(seen.iter().all(|&s| s), "all of [0,4) should appear: {:?}", seen);
}

#[test]
fn pick_distinct_four_of_five() {
    let pool: Vec<Country> = ["a", "b", "c", "d", "e"]
        .iter()
        .map(|n| mk_country(n, None, Some(Continent::Europe)))
        .collect();
    for _ in 0..100 {
        let picked = get_random_countries(&pool, 4).expect("five candidates suffice");
        assert_eq!(picked.len(), 4);
        let mut names: Vec<&str> = picked.iter().map(|c| c.name.as_str()).collect();
        names.sort();
        names.dedup();
        assert_eq!(names.len(), 4, "sampled countries must be pairwise distinct");
        for c in &picked {
            assert!(pool.iter().any(|p| p.name == c.name));
        }
    }
}

#[test]
fn pick_distinct_too_few_candidates() {
    let pool: Vec<Country> = ["a", "b", "c"]
        .iter()
        .map(|n| mk_country(n, None, Some(Continent::Europe)))
        .collect();
    assert!(matches!(
        get_random_countries(&pool, 4),
        Err(BuildError::InsufficientCandidates)
    ));
}

#[test]
fn filter_keeps_only_target_continents() {
    let pool = vec![
        mk_country("france", Some("Paris"), Some(Continent::Europe)),
        mk_country("japan", Some("Tokyo"), Some(Continent::Asia)),
        mk_country("chad", None, Some(Continent::Africa)),
        mk_country("atlantis", None, None),
        mk_country("nowhere", None, Some(Continent::Other)),
    ];
    let targets = [Continent::Europe, Continent::Africa];
    let r = filter_by_continents(&pool, &targets);
    let names: Vec<&str> = r.iter().map(|c| c.name.as_str()).collect();
    assert_eq!(names, vec!["france", "chad"]);
}

#[test]
fn filter_is_idempotent() {
    let pool = vec![
        mk_country("france", Some("Paris"), Some(Continent::Europe)),
        mk_country("japan", Some("Tokyo"), Some(Continent::Asia)),
        mk_country("brazil", None, Some(Continent::SouthAmerica)),
        mk_country("atlantis", None, None),
    ];
    let targets = [Continent::Europe, Continent::SouthAmerica];
    let once = filter_by_continents(&pool, &targets);
    let twice = filter_by_continents(&once, &targets);
    let once_names: Vec<&str> = once.iter().map(|c| c.name.as_str()).collect();
    let twice_names: Vec<&str> = twice.iter().map(|c| c.name.as_str()).collect();
    assert_eq!(once_names, twice_names);
}

#[test]
fn color_tables() {
    assert_eq!(ret_button_color_index("gray"), 0);
    assert_eq!(ret_button_color_index("freedom"), 1);
    assert_eq!(ret_button_color_index("lavender"), 2);
    assert_eq!(ret_button_color_index("blue_sky"), 3);
    assert_eq!(ret_button_color_index("mandarin"), 4);
    assert_eq!(ret_button_color_index("ripe_lime"), 5);
    for i in 0..6 {
        assert_eq!(ret_button_color_index(&ret_button_color_string(i)), i);
    }
}

#[test]
fn color_unknown_name_round_trips_as_gray() {
    let idx = ret_button_color_index("neonpurple");
    assert_eq!(idx, 0);
    assert_eq!(ret_button_color_string(idx), "gray");
}

#[test]
fn color_argb_values() {
    assert_eq!(ret_button_color(0), 0xff808080);
    assert_eq!(ret_button_color(1), 0xffe786d2);
    assert_eq!(ret_button_color(2), 0xffab86e7);
    assert_eq!(ret_button_color(3), 0xff5f79ef);
    assert_eq!(ret_button_color(4), 0xffefbd5f);
    assert_eq!(ret_button_color(5), 0xff45f931);
    assert_eq!(ret_button_color(42), 0xff808080);
}

#[test]
fn language_tables() {
    assert_eq!(ret_language_index("en"), 0);
    assert_eq!(ret_language_index("ru"), 1);
    assert_eq!(ret_language_index("cn"), 2);
    assert_eq!(ret_language_index("tlh"), 0);
    assert_eq!(ret_language_string(0), "en");
    assert_eq!(ret_language_string(1), "ru");
    assert_eq!(ret_language_string(2), "cn");
    assert_eq!(ret_language_string(7), "en");
    for i in 0..3 {
        assert_eq!(ret_language_index(&ret_language_string(i)), i);
    }
    assert_eq!(settings_language_patch(&"ru".to_string()), "ru");
    assert_eq!(settings_language_patch(&"cn".to_string()), "cn");
    assert_eq!(settings_language_patch(&"klingon".to_string()), "en");
}

#[test]
fn continent_name_mapping() {
    assert_eq!(continent_from_name("Africa"), Continent::Africa);
    assert_eq!(continent_from_name("Asia"), Continent::Asia);
    assert_eq!(continent_from_name("Europe"), Continent::Europe);
    assert_eq!(continent_from_name("North America"), Continent::NorthAmerica);
    assert_eq!(continent_from_name("South America"), Continent::SouthAmerica);
    assert_eq!(continent_from_name("Oceania"), Continent::Oceania);
    assert_eq!(continent_from_name("Middle Earth"), Continent::Other);
}

#[test]
fn data_path_concatenation() {
    assert_eq!(input_data_path("en"), "data/en");
    assert_eq!(input_data_path("ru"), "data/ru");
}
