use iradio::app::default_palette_items;
use iradio::domain::palette::{fuzzy_filter, try_fuzzy_filter, PaletteItem};

fn palette_item(label: &str, action: &str) -> PaletteItem {
    PaletteItem {
        label: label.to_string(),
        action: action.to_string(),
    }
}

#[test]
fn fuzzy_filter_ranks_matches() {
    let items = vec![
        PaletteItem {
            label: "Play selected station".to_string(),
            action: "play".to_string(),
        },
        PaletteItem {
            label: "Pause playback".to_string(),
            action: "pause".to_string(),
        },
    ];

    let result = fuzzy_filter(&items, "pla");
    assert!(!result.is_empty());
    assert_eq!(result.len(), 2);
    assert_eq!(result[0].action, "pause");
    assert_eq!(result[1].action, "play");
}

#[test]
fn fuzzy_filter_with_empty_query_returns_items_unchanged() {
    let items = default_palette_items();
    assert_eq!(fuzzy_filter(&items, ""), items);
    assert_eq!(fuzzy_filter(&items, "   \t"), items);
    let none: Vec<PaletteItem> = Vec::new();
    assert_eq!(fuzzy_filter(&none, ""), none);
}

#[test]
fn fuzzy_filter_drops_items_that_do_not_match() {
    let items = vec![
        palette_item("Stop playback", "stop"),
        palette_item("Show help", "help"),
        palette_item("Quit iradio", "quit"),
    ];
    let result = fuzzy_filter(&items, "quit");
    assert_eq!(result, vec![palette_item("Quit iradio", "quit")]);
    assert!(fuzzy_filter(&items, "zzzz").is_empty());
}

#[test]
fn fuzzy_filter_ignores_case_and_accents() {
    let items = vec![palette_item("Café radio", "cafe"), palette_item("Other", "other")];
    assert_eq!(fuzzy_filter(&items, "CAFE"), vec![palette_item("Café radio", "cafe")]);
}

#[test]
fn fuzzy_filter_breaks_ties_by_label_then_by_position() {
    let items = vec![
        palette_item("beta", "second"),
        palette_item("alfa", "first"),
        palette_item("beta", "third"),
    ];
    let result = fuzzy_filter(&items, "a");
    let actions: Vec<&str> = result.iter().map(|item| item.action.as_str()).collect();
    assert_eq!(actions, vec!["first", "second", "third"]);
}

#[test]
fn fuzzy_filter_puts_the_better_match_first() {
    let items = vec![
        palette_item("Sort by bitrate", "sort-bitrate"),
        palette_item("Stop playback", "stop"),
    ];
    let result = fuzzy_filter(&items, "stop");
    assert_eq!(result[0].action, "stop");
}

#[test]
fn try_fuzzy_filter_refuses_a_query_beyond_the_limit() {
    let items = default_palette_items();
    let long = "a".repeat(2049);
    assert_eq!(try_fuzzy_filter(&items, &long), None);
    let longest = "a".repeat(2048);
    assert_eq!(try_fuzzy_filter(&items, &longest), Some(Vec::new()));
    assert_eq!(try_fuzzy_filter(&items, ""), Some(default_palette_items()));
}

#[test]
fn try_fuzzy_filter_refuses_a_query_outside_ascii() {
    let items = vec![
        palette_item("\u{17f}s\u{e9}", "long s"),
        palette_item("Caf\u{e9} radio", "cafe"),
        palette_item("e\u{301}cole", "school"),
    ];
    assert_eq!(try_fuzzy_filter(&items, "s\u{e9}"), None);
    assert_eq!(try_fuzzy_filter(&items, "caf\u{e9}"), None);
    assert_eq!(try_fuzzy_filter(&items, " \u{e9} "), None);
    assert_eq!(try_fuzzy_filter(&items, "\u{a0}"), Some(items.clone()));
    let found = try_fuzzy_filter(&items, "se").expect("an ASCII query");
    assert_eq!(found, vec![palette_item("\u{17f}s\u{e9}", "long s")]);
    let found = try_fuzzy_filter(&items, "ec").expect("an ASCII query");
    assert_eq!(found.len(), 1);
    assert_eq!(found[0].action, "school");
}
