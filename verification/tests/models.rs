use open_ai_compatible::models::{merge_models, sort_models};
use open_ai_compatible::settings::{AvailableModel, ModelCapabilities};
use open_ai_compatible::text::{is_before, is_same, strip_suffix_or_all, trim};

fn model(name: &str, max_tokens: u64) -> AvailableModel {
    AvailableModel {
        name: name.to_string(),
        display_name: None,
        max_tokens,
        max_output_tokens: None,
        max_completion_tokens: None,
        reasoning_effort: None,
        capabilities: ModelCapabilities::default(),
    }
}

#[test]
fn written_models_override_discovered_ones() {
    let fetched = vec![model("c", 1), model("a", 2), model("b", 3)];
    let manual = vec![model("d", 4), model("b", 5)];
    assert_eq!(
        merge_models(&fetched, &manual),
        vec![model("a", 2), model("b", 5), model("c", 1), model("d", 4)]
    );
}

#[test]
fn written_models_stay_as_they_are_without_discovery() {
    let manual = vec![model("z", 1), model("a", 2), model("z", 3)];
    assert_eq!(merge_models(&Vec::new(), &manual), manual);
}

#[test]
fn last_model_of_a_name_is_offered() {
    let fetched = vec![model("a", 1), model("a", 2)];
    let manual = vec![model("b", 3), model("b", 4)];
    assert_eq!(
        merge_models(&fetched, &manual),
        vec![model("a", 2), model("b", 4)]
    );
    assert_eq!(merge_models(&fetched, &Vec::new()), vec![model("a", 2)]);
}

#[test]
fn merging_agrees_with_an_ordered_map() {
    let names = ["m", "Z", "é", "a", "aa", "", "m", "z\u{10000}", "z\u{ffff}", "a"];
    let fetched: Vec<AvailableModel> = names
        .iter()
        .enumerate()
        .map(|(i, name)| model(name, i as u64))
        .collect();
    let manual: Vec<AvailableModel> = names
        .iter()
        .rev()
        .take(4)
        .enumerate()
        .map(|(i, name)| model(name, 100 + i as u64))
        .collect();
    let mut map = std::collections::BTreeMap::new();
    for model in fetched.iter().chain(manual.iter()) {
        map.insert(model.name.clone(), model.clone());
    }
    let expected: Vec<AvailableModel> = map.into_values().collect();
    assert_eq!(merge_models(&fetched, &manual), expected);
}

#[test]
fn sorting_keeps_the_order_of_equal_names() {
    let mut models = vec![
        model("b", 1),
        model("a", 2),
        model("b", 3),
        model("a", 4),
        model("B", 5),
    ];
    let mut expected = models.clone();
    expected.sort_by(|a, b| a.name.cmp(&b.name));
    sort_models(&mut models);
    assert_eq!(models, expected);
    assert_eq!(
        models,
        vec![
            model("B", 5),
            model("a", 2),
            model("a", 4),
            model("b", 1),
            model("b", 3),
        ]
    );
}

#[test]
fn strings_are_ordered_by_their_bytes() {
    let texts = ["", "a", "aa", "b", "B", "é", "z\u{ffff}", "z\u{10000}", "z"];
    for a in texts {
        for b in texts {
            assert_eq!(is_before(a, b), a < b);
            assert_eq!(is_same(a, b), a == b);
        }
    }
}

#[test]
fn suffix_is_stripped_once() {
    assert_eq!(strip_suffix_or_all("http://x/v1", "/v1"), "http://x");
    assert_eq!(strip_suffix_or_all("http://x/v1/v1", "/v1"), "http://x/v1");
    assert_eq!(strip_suffix_or_all("http://x/v1/", "/v1"), "http://x/v1/");
    assert_eq!(strip_suffix_or_all("v1", "/v1"), "v1");
    assert_eq!(strip_suffix_or_all("/v1", "/v1"), "");
}

#[test]
fn white_space_is_trimmed_at_both_ends() {
    let texts = [
        "",
        " ",
        "\t\n",
        "key",
        "  key",
        "key\r\n",
        " \u{a0}a key\u{3000}",
        "\u{85}k\u{200b}",
    ];
    for text in texts {
        assert_eq!(trim(text), text.trim());
        assert_eq!(trim(trim(text)), trim(text));
    }
}
