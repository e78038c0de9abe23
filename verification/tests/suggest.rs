use serde_valid::suggest::did_you_mean;

#[test]
fn did_you_mean_finds_the_similar_candidate() {
    assert_eq!(
        did_you_mean("formt", &["format", "enumerate", "custom"]),
        Some(vec!["format"])
    );
    assert_eq!(
        did_you_mean("min_lenght", &["minimum", "min_length", "max_length", "pattern"]),
        Some(vec!["min_length", "max_length"])
    );
}

#[test]
fn did_you_mean_finds_nothing_among_strangers() {
    assert_eq!(did_you_mean("xyz", &["format", "enumerate", "custom"]), None);
    assert_eq!(did_you_mean("format", &[]), None);
}

#[test]
fn did_you_mean_puts_the_most_similar_first() {
    assert_eq!(
        did_you_mean("max_item", &["min_items", "max_length", "max_items"]),
        Some(vec!["max_items", "max_length"])
    );
    assert_eq!(
        did_you_mean("custom", &["custo", "custom", "custom"]),
        Some(vec!["custom", "custom", "custo"])
    );
}
