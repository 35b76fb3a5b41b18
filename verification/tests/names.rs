use wheel_upload::name::canonicalize_name;

#[test]
fn canonicalize_mixed_separators() {
    assert_eq!(canonicalize_name("My_Package--Name"), "my-package-name");
}

#[test]
fn canonicalize_is_idempotent_on_examples() {
    for name in ["My_Package--Name", "a.-_b", "_x_", "", "Plain", "--", "A.B.C", "Ünï_Code", "STRASSE..ß"] {
        let once = canonicalize_name(name);
        assert_eq!(canonicalize_name(&once), once);
    }
}

#[test]
fn canonicalize_collapses_each_run_to_one_hyphen() {
    assert_eq!(canonicalize_name("a.-_b"), "a-b");
    assert_eq!(canonicalize_name("a._.b-c"), "a-b-c");
    assert_eq!(canonicalize_name("a_b_c"), "a-b-c");
}

#[test]
fn canonicalize_keeps_runs_at_the_ends() {
    assert_eq!(canonicalize_name("_x_"), "-x-");
    assert_eq!(canonicalize_name("..x"), "-x");
    assert_eq!(canonicalize_name("---"), "-");
}

#[test]
fn canonicalize_empty_and_plain() {
    assert_eq!(canonicalize_name(""), "");
    assert_eq!(canonicalize_name("plain"), "plain");
    assert_eq!(canonicalize_name("Plain123"), "plain123");
}

#[test]
fn canonicalize_lowercases_beyond_ascii() {
    assert_eq!(canonicalize_name("ÀB_c"), "àb-c");
}

fn has_canonical_shape(name: &str) -> bool {
    !name.contains('_')
        && !name.contains('.')
        && !name.contains("--")
        && !name.chars().any(|c| c.is_ascii_uppercase())
}

#[test]
fn canonical_form_of_ascii_names_has_the_canonical_shape() {
    for name in ["My_Package--Name", "a.-_b", "_x_", "", "--", "A.B.C", "..Z..", "zope.interface", "ruamel_yaml-CLIB"] {
        let canonical = canonicalize_name(name);
        assert!(has_canonical_shape(&canonical));
        assert!(canonical.len() <= name.len());
        assert!(canonical.is_ascii());
    }
}

#[test]
fn canonicalize_is_idempotent_and_shaped_over_all_characters() {
    let all: Vec<char> = ('\0'..=char::MAX).collect();
    for chunk in all.chunks(4096) {
        let name: String = chunk.iter().collect();
        let once = canonicalize_name(&name);
        assert!(has_canonical_shape(&once));
        assert_eq!(canonicalize_name(&once), once);
    }
}

#[test]
fn canonicalize_is_idempotent_around_sigma_and_dotted_i() {
    for name in ["ΑΣ", "Σ", "ΑΣ_Β", "İ.İ", "ΣΑΣ--ΣΑΣ", "ǅ_Ა"] {
        let once = canonicalize_name(name);
        assert!(has_canonical_shape(&once));
        assert_eq!(canonicalize_name(&once), once);
    }
}
