use git_version::config::ArgName;
use git_version::suggest::{closest, distance, MAX_EDITS};

#[test]
fn distance_exact_values() {
    assert_eq!(distance("", ""), 0);
    assert_eq!(distance("", "abc"), 3);
    assert_eq!(distance("abc", ""), 3);
    assert_eq!(distance("kitten", "sitting"), 3);
    assert_eq!(distance("flaw", "lawn"), 2);
    assert_eq!(distance("prefix", "prefix"), 0);
    assert_eq!(distance("prefix", "suffix"), 3);
    assert_eq!(distance("cargo_prefix", "cargo_suffix"), 3);
    assert_eq!(distance("é", "e"), 1);
}

#[test]
fn distance_is_symmetric_on_samples() {
    for (a, b) in [("args", "arg"), ("fallback", "fall_back"), ("x", "prefix")] {
        assert_eq!(distance(a, b), distance(b, a));
    }
}

#[test]
fn closest_known_name() {
    assert_eq!(MAX_EDITS, 2);
    assert_eq!(closest("arg"), Some(ArgName::Args));
    assert_eq!(closest("prefx"), Some(ArgName::Prefix));
    assert_eq!(closest("sufix"), Some(ArgName::Suffix));
    assert_eq!(closest("cargoprefix"), Some(ArgName::CargoPrefix));
    assert_eq!(closest("cargo-suffix"), Some(ArgName::CargoSuffix));
    assert_eq!(closest("fall_back"), Some(ArgName::Fallback));
    assert_eq!(closest("verbosity"), None);
    assert_eq!(closest(""), None);
}

#[test]
fn closest_prefers_the_first_declared_on_a_tie() {
    // one edit from both `prefix` and `suffix` is impossible; two edits from both is not
    assert_eq!(distance("preffix", "prefix"), 1);
    assert_eq!(distance("pufix", "prefix"), 2);
    assert_eq!(distance("pufix", "suffix"), 2);
    assert_eq!(closest("pufix"), Some(ArgName::Prefix));
}

#[test]
fn names_round_trip_through_their_text() {
    for name in [
        ArgName::Args,
        ArgName::Prefix,
        ArgName::Suffix,
        ArgName::CargoPrefix,
        ArgName::CargoSuffix,
        ArgName::Fallback,
    ] {
        assert_eq!(ArgName::from_text(name.text()), Some(name));
        assert_eq!(closest(name.text()), Some(name));
    }
    assert_eq!(ArgName::from_text("Prefix"), None);
    assert_eq!(ArgName::Args.text(), "args");
    assert_eq!(ArgName::CargoSuffix.text(), "cargo_suffix");
}
