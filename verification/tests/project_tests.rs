use layout::project::{CmykColor, ColorMode, ProjectSpec, ProjectType, Sides};

#[test]
fn project_type_from_index_and_label() {
    assert_eq!(ProjectType::from_index(0, "").label(), "calling-cards");
    assert_eq!(ProjectType::from_index(1, "").label(), "zine");
    assert_eq!(ProjectType::from_index(2, "").label(), "poster");
    assert_eq!(ProjectType::from_index(3, "").label(), "editorial");
    assert_eq!(ProjectType::from_index(4, "flyer").label(), "flyer");
    assert_eq!(ProjectType::from_index(99, "menu").label(), "menu");
}

#[test]
fn project_type_variants_list() {
    let v = ProjectType::variants();
    assert_eq!(v, vec!["calling-cards", "zine", "poster", "editorial", "other"]);
}

#[test]
fn sides_and_color_mode_labels() {
    assert_eq!(Sides::Single.label(), "single-sided");
    assert_eq!(Sides::Double.label(), "double-sided");
    assert_eq!(ColorMode::OneColor.label(), "1-color");
    assert_eq!(ColorMode::TwoColor.label(), "2-color");
    assert_eq!(ColorMode::FullProcess.label(), "full-process (CMYK)");
}

#[test]
fn cmyk_label_shows_components() {
    let c = CmykColor { c: 0, m: 0, y: 0, k: 100, name: "Black".to_string() };
    assert_eq!(c.label(), "Black (C:0 M:0 Y:0 K:100)");
}

#[test]
fn default_project_spec_values() {
    let s = ProjectSpec::default();
    assert_eq!(s.name, "");
    assert!(matches!(s.project_type, ProjectType::CallingCards));
    assert_eq!(s.physical.item_width_mils, 3070);
    assert_eq!(s.physical.item_height_mils, 2610);
    assert_eq!(s.physical.stock_width_mils, 11000);
    assert_eq!(s.physical.stock_height_mils, 17000);
    assert!(matches!(s.physical.sides, Sides::Double));
    assert_eq!(s.physical.bleed_mils, 125);
    assert_eq!(s.physical.quantity, 4);
    assert!(matches!(s.color.mode, ColorMode::TwoColor));
    assert_eq!(s.color.primary.k, 100);
    assert!(s.color.secondary.is_none());
    assert_eq!(s.domains, vec!["design".to_string()]);
    assert_eq!(
        s.output.formats,
        vec!["pdf".to_string(), "svg".to_string(), "idml".to_string()]
    );
    assert!(s.output.impose);
}

#[test]
fn name_slug_lowercases_and_dashes() {
    let mut s = ProjectSpec::default();
    s.name = "My Project!".to_string();
    assert_eq!(s.name_slug(), "my-project");
    s.name = "--Hello  World--".to_string();
    assert_eq!(s.name_slug(), "hello--world");
    s.name = "already-fine".to_string();
    assert_eq!(s.name_slug(), "already-fine");
    s.name = "!!!".to_string();
    assert_eq!(s.name_slug(), "");
}

#[test]
fn scaffold_dir_joins_slug_and_stamp() {
    let mut s = ProjectSpec::default();
    s.name = "My Project".to_string();
    assert_eq!(s.scaffold_dir("2024-06"), "projects/my-project-2024-06");
}

#[test]
fn brief_md_renders_physical_specs() {
    let mut s = ProjectSpec::default();
    s.name = "Cards".to_string();
    s.brief = "A run of cards.".to_string();
    let md = s.brief_md();
    assert!(md.starts_with("# Cards\n\n## Creative Brief\n\nA run of cards.\n\n"));
    assert!(md.contains("- Item: 3.07\" x 2.61\"\n"));
    assert!(md.contains("- Stock: 11\" x 17\"\n"));
    assert!(md.contains("- Sides: double-sided\n"));
    assert!(md.contains("- Bleed: 0.125\"\n"));
    assert!(md.contains("- Quantity: 4\n"));
    assert!(md.contains("- Mode: 2-color\n"));
    assert!(md.contains("- Primary: Black (C:0 M:0 Y:0 K:100)\n"));
    assert!(!md.contains("- Secondary: Black"));
}

#[test]
fn brief_md_shows_secondary_and_notes_when_present() {
    let mut s = ProjectSpec::default();
    s.color.secondary = Some(CmykColor {
        c: 100,
        m: 50,
        y: 0,
        k: 0,
        name: "Blue".to_string(),
    });
    s.typography.notes = "loose tracking".to_string();
    let md = s.brief_md();
    assert!(md.contains("- Secondary: Blue (C:100 M:50 Y:0 K:0)\n"));
    assert!(md.contains("- Notes: loose tracking\n"));
}
