use greenlight::cli::{Args, Importance};
use greenlight::str_eq;

#[test]
fn test_args_carry_selection() {
    let args = Args {
        config_path: Some("/etc/greenlight/config.toml".to_string()),
        only: Importance::All,
    };
    assert_eq!(
        args.config_path.as_deref(),
        Some("/etc/greenlight/config.toml")
    );
    assert_eq!(args.only, Importance::All);
}

#[test]
fn test_importance_levels_are_distinct() {
    assert_ne!(Importance::Required, Importance::Wanted);
    assert_ne!(Importance::Required, Importance::All);
    assert_ne!(Importance::Wanted, Importance::All);
}

#[test]
fn test_str_eq_compares_contents() {
    assert!(str_eq("active", "active"));
    assert!(!str_eq("active", "inactive"));
    assert!(!str_eq("", "active"));
    assert!(str_eq("", ""));
}
