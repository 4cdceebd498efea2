use std::cell::RefCell;

use font_kit::descriptor::{DefaultFamilies, FamilySpec, Properties, Spec, Stretch, Style, Weight};
use font_kit::error::SelectionError;
use font_kit::handle::{FamilyHandle, Handle};
use font_kit::matching::MatchFields;
use font_kit::source::{
    decide_family, find_postscript_name, select_in_family, select_in_family_by_postscript_name,
    FaceDescription, FamilyOutcome, Source,
};

/// A source over a fixed list of families. Each face is a file named after
/// its PostScript name. Every family name asked for is written down.
struct ListSource {
    families: Vec<(String, Vec<FaceDescription>)>,
    asked: RefCell<Vec<String>>,
    unreadable: Vec<String>,
}

impl ListSource {
    fn new(families: &[(&str, &[(&str, Style, u32)])]) -> ListSource {
        let families = families
            .iter()
            .map(|(family, faces)| {
                let faces = faces
                    .iter()
                    .map(|(postscript_name, style, weight)| FaceDescription {
                        postscript_name: postscript_name.to_string(),
                        fields: MatchFields {
                            family_name: family.to_string(),
                            properties: Properties {
                                style: *style,
                                weight: Weight(weight * 1_000),
                                stretch: Stretch(1_000),
                            },
                        },
                    })
                    .collect();
                (family.to_string(), faces)
            })
            .collect();
        ListSource { families, asked: RefCell::new(vec![]), unreadable: vec![] }
    }
}

fn file(postscript_name: &str) -> Handle {
    Handle::Path { path: format!("/fonts/{}.otf", postscript_name), font_index: 0 }
}

impl Source for ListSource {
    fn all_families(&self) -> Result<Vec<String>, SelectionError> {
        Ok(self.families.iter().map(|(name, _)| name.clone()).collect())
    }

    fn select_family_by_name(&self, family_name: &str) -> Result<FamilyHandle, SelectionError> {
        self.asked.borrow_mut().push(family_name.to_string());
        for (name, faces) in &self.families {
            if name == family_name {
                let fonts = faces.iter().map(|face| file(&face.postscript_name)).collect();
                return Ok(FamilyHandle { fonts });
            }
        }
        Err(SelectionError::NotFound)
    }

    fn describe(&self, handle: &Handle) -> Result<FaceDescription, SelectionError> {
        for (_, faces) in &self.families {
            for face in faces {
                if file(&face.postscript_name) == *handle {
                    if self.unreadable.contains(&face.postscript_name) {
                        return Err(SelectionError::CannotAccessSource);
                    }
                    return Ok(face.clone());
                }
            }
        }
        Err(SelectionError::NotFound)
    }
}

fn spec(families: Vec<FamilySpec>, style: Style, weight: u32) -> Spec {
    Spec {
        families,
        properties: Properties { style, weight: Weight(weight * 1_000), stretch: Stretch(1_000) },
    }
}

fn example() -> ListSource {
    ListSource::new(&[
        ("Empty", &[]),
        (
            "Example",
            &[
                ("Example-Regular", Style::Normal, 400),
                ("Example-Bold", Style::Normal, 700),
                ("Example-Italic", Style::Italic, 400),
            ],
        ),
        ("Arial", &[("ArialMT", Style::Normal, 400), ("Arial-BoldMT", Style::Normal, 700)]),
        ("Other", &[("Example-Bold", Style::Oblique, 100)]),
    ])
}

#[test]
fn bold_italic_request_takes_the_italic_face() {
    let source = example();
    let wanted = spec(vec![FamilySpec::Name("Example".to_string())], Style::Italic, 700);
    assert_eq!(
        source.select_best_match(&wanted, &DefaultFamilies::new()),
        Ok(file("Example-Italic"))
    );
}

#[test]
fn bold_request_takes_the_bold_face() {
    let source = example();
    let wanted = spec(vec![FamilySpec::Name("Example".to_string())], Style::Normal, 700);
    assert_eq!(
        source.select_best_match(&wanted, &DefaultFamilies::new()),
        Ok(file("Example-Bold"))
    );
}

#[test]
fn missing_families_fall_through_to_the_generic_default() {
    let source = ListSource::new(&[]);
    let wanted = spec(
        vec![FamilySpec::Name("Nonexistent".to_string()), FamilySpec::SansSerif],
        Style::Normal,
        400,
    );
    assert_eq!(
        source.select_best_match(&wanted, &DefaultFamilies::new()),
        Err(SelectionError::NotFound)
    );
    assert_eq!(*source.asked.borrow(), vec!["Nonexistent".to_string(), "Arial".to_string()]);
}

#[test]
fn first_family_that_has_a_face_is_used() {
    let source = example();
    let wanted = spec(
        vec![
            FamilySpec::Name("Nonexistent".to_string()),
            FamilySpec::Name("Empty".to_string()),
            FamilySpec::SansSerif,
            FamilySpec::Name("Example".to_string()),
        ],
        Style::Italic,
        700,
    );
    assert_eq!(
        source.select_best_match(&wanted, &DefaultFamilies::new()),
        Ok(file("Arial-BoldMT"))
    );
    assert_eq!(
        *source.asked.borrow(),
        vec!["Nonexistent".to_string(), "Empty".to_string(), "Arial".to_string()]
    );
}

#[test]
fn no_family_listed_is_not_found() {
    let source = example();
    let wanted = spec(vec![], Style::Normal, 400);
    assert_eq!(
        source.select_best_match(&wanted, &DefaultFamilies::new()),
        Err(SelectionError::NotFound)
    );
    assert!(source.asked.borrow().is_empty());
}

#[test]
fn a_face_that_cannot_be_described_ends_the_match() {
    let mut source = example();
    source.unreadable.push("Example-Bold".to_string());
    let wanted = spec(
        vec![FamilySpec::Name("Example".to_string()), FamilySpec::SansSerif],
        Style::Normal,
        400,
    );
    assert_eq!(
        source.select_best_match(&wanted, &DefaultFamilies::new()),
        Err(SelectionError::CannotAccessSource)
    );
}

#[test]
fn generic_families_resolve_to_their_defaults() {
    let defaults = DefaultFamilies::new();
    assert_eq!(defaults.resolve(&FamilySpec::Serif), "Times New Roman");
    assert_eq!(defaults.resolve(&FamilySpec::SansSerif), "Arial");
    assert_eq!(defaults.resolve(&FamilySpec::Monospace), "Courier New");
    assert_eq!(defaults.resolve(&FamilySpec::Cursive), "Comic Sans MS");
    assert_eq!(defaults.resolve(&FamilySpec::Fantasy), "Papyrus");
    assert_eq!(defaults.resolve(&FamilySpec::Name("Fira Sans".to_string())), "Fira Sans");
}

#[test]
fn default_families_can_be_replaced() {
    let source = example();
    let defaults = DefaultFamilies {
        serif: "Example".to_string(),
        sans_serif: "Example".to_string(),
        monospace: "Arial".to_string(),
        cursive: "Arial".to_string(),
        fantasy: "Nonexistent".to_string(),
    };
    let wanted = spec(vec![FamilySpec::Fantasy, FamilySpec::Serif], Style::Italic, 400);
    assert_eq!(source.select_best_match(&wanted, &defaults), Ok(file("Example-Italic")));
    assert_eq!(*source.asked.borrow(), vec!["Nonexistent".to_string(), "Example".to_string()]);
    assert_eq!(
        source.select_family_by_spec(&FamilySpec::Monospace, &defaults),
        source.select_family_by_name("Arial")
    );
}

#[test]
fn postscript_name_finds_the_first_face_in_enumeration_order() {
    let source = example();
    assert_eq!(source.select_by_postscript_name("Arial-BoldMT"), Ok(file("Arial-BoldMT")));
    assert_eq!(source.select_by_postscript_name("Example-Bold"), Ok(file("Example-Bold")));
    assert_eq!(source.select_by_postscript_name("Example"), Err(SelectionError::NotFound));
    assert_eq!(source.select_by_postscript_name(""), Err(SelectionError::NotFound));
}

#[test]
fn postscript_name_passes_over_a_family_that_cannot_be_described() {
    let mut source = example();
    source.unreadable.push("Example-Regular".to_string());
    assert_eq!(source.select_by_postscript_name("Example-Italic"), Err(SelectionError::NotFound));
    assert_eq!(source.select_by_postscript_name("ArialMT"), Ok(file("ArialMT")));
}

#[test]
fn match_fields_come_in_the_order_of_the_faces() {
    let source = example();
    let family = source.select_family_by_name("Example").unwrap();
    let fields = source.select_match_fields_for_family(&family).unwrap();
    let weights: Vec<u32> = fields.iter().map(|field| field.properties.weight.0).collect();
    assert_eq!(weights, vec![400_000, 700_000, 400_000]);
    let names = source.select_postscript_names_for_family(&family).unwrap();
    assert_eq!(names, vec!["Example-Regular", "Example-Bold", "Example-Italic"]);
}

#[test]
fn select_in_family_takes_the_face_at_the_best_index() {
    let source = example();
    let family = source.select_family_by_name("Example").unwrap();
    let fields = source.select_match_fields_for_family(&family).unwrap();
    let wanted = spec(vec![], Style::Italic, 700).properties;
    assert_eq!(select_in_family(family.clone(), &fields, &wanted), Some(file("Example-Italic")));
    assert_eq!(select_in_family(family.clone(), &[], &wanted), None);
    // The family is shorter than the list of candidates.
    let short = FamilyHandle { fonts: family.fonts[..2].to_vec() };
    assert_eq!(select_in_family(short, &fields, &wanted), None);
}

#[test]
fn find_postscript_name_gives_the_first_index() {
    let names: Vec<String> = ["A", "B", "A", "C"].iter().map(|name| name.to_string()).collect();
    assert_eq!(find_postscript_name(&names, &"A".to_string()), Some(0));
    assert_eq!(find_postscript_name(&names, &"C".to_string()), Some(3));
    assert_eq!(find_postscript_name(&names, &"D".to_string()), None);
    assert_eq!(find_postscript_name(&[], &"A".to_string()), None);
}

#[test]
fn handles_keep_what_they_are_made_of() {
    let path = Handle::from_path("/fonts/a.ttc".to_string(), 3);
    assert_eq!(path, Handle::Path { path: "/fonts/a.ttc".to_string(), font_index: 3 });
    assert_eq!(path.font_index(), 3);
    let memory = Handle::from_memory(vec![1, 2, 3], 1);
    assert_eq!(memory, Handle::Memory { bytes: vec![1, 2, 3], font_index: 1 });
    assert_eq!(memory.font_index(), 1);

    let mut family = FamilyHandle::new();
    assert!(family.is_empty());
    family.push(path.clone());
    family.push(memory.clone());
    assert!(!family.is_empty());
    assert_eq!(family.fonts(), &[path.clone(), memory.clone()][..]);
    assert_eq!(FamilyHandle::from_font_handles(vec![path, memory]), family);
}

#[test]
fn decide_family_selects_fails_or_passes_over() {
    let source = example();
    let family = source.select_family_by_name("Example").unwrap();
    let fields = source.select_match_fields_for_family(&family).unwrap();
    let wanted = spec(vec![], Style::Normal, 700).properties;
    assert_eq!(
        decide_family(family.clone(), Ok(fields), &wanted),
        FamilyOutcome::Selected(file("Example-Bold"))
    );
    assert_eq!(
        decide_family(family.clone(), Err(SelectionError::CannotAccessSource), &wanted),
        FamilyOutcome::Failed(SelectionError::CannotAccessSource)
    );
    assert_eq!(
        decide_family(family, Err(SelectionError::NotFound), &wanted),
        FamilyOutcome::Failed(SelectionError::NotFound)
    );
    assert_eq!(decide_family(FamilyHandle::new(), Ok(vec![]), &wanted), FamilyOutcome::Exhausted);
}

#[test]
fn postscript_name_in_a_family_gives_the_first_face_of_that_name() {
    let family = FamilyHandle {
        fonts: vec![
            Handle::Memory { bytes: vec![1], font_index: 0 },
            Handle::Memory { bytes: vec![2], font_index: 1 },
            Handle::Memory { bytes: vec![3], font_index: 2 },
        ],
    };
    let names: Vec<String> = ["A", "B", "B"].iter().map(|name| name.to_string()).collect();
    assert_eq!(
        select_in_family_by_postscript_name(family.clone(), &names, &"B".to_string()),
        Some(Handle::Memory { bytes: vec![2], font_index: 1 })
    );
    assert_eq!(select_in_family_by_postscript_name(family.clone(), &names, &"C".to_string()), None);
    let short = FamilyHandle { fonts: family.fonts[..1].to_vec() };
    assert_eq!(select_in_family_by_postscript_name(short, &names, &"B".to_string()), None);
}

#[test]
fn a_family_without_faces_gives_no_fields_and_no_error() {
    let source = example();
    let family = source.select_family_by_name("Empty").unwrap();
    assert_eq!(source.select_match_fields_for_family(&family), Ok(vec![]));
    assert_eq!(source.select_postscript_names_for_family(&family), Ok(vec![]));
}

#[test]
fn the_first_face_that_cannot_be_described_gives_the_error() {
    let mut source = example();
    source.unreadable.push("Example-Italic".to_string());
    let mut family = source.select_family_by_name("Example").unwrap();
    family.push(file("Unknown"));
    assert_eq!(
        source.select_match_fields_for_family(&family),
        Err(SelectionError::CannotAccessSource)
    );
    assert_eq!(
        source.select_postscript_names_for_family(&family),
        Err(SelectionError::CannotAccessSource)
    );
    let unknown = FamilyHandle { fonts: vec![file("Example-Bold"), file("Unknown")] };
    assert_eq!(source.select_match_fields_for_family(&unknown), Err(SelectionError::NotFound));
    assert_eq!(source.select_postscript_names_for_family(&unknown), Err(SelectionError::NotFound));
}

#[test]
fn describe_family_gives_names_and_fields_by_column() {
    let source = example();
    let family = source.select_family_by_name("Arial").unwrap();
    let (names, fields) = source.describe_family(&family).unwrap();
    assert_eq!(names, vec!["ArialMT", "Arial-BoldMT"]);
    let weights: Vec<u32> = fields.iter().map(|field| field.properties.weight.0).collect();
    assert_eq!(weights, vec![400_000, 700_000]);
    assert_eq!(fields[0].family_name, "Arial");

    let empty = source.select_family_by_name("Empty").unwrap();
    assert_eq!(source.describe_family(&empty), Ok((vec![], vec![])));
    let unknown = FamilyHandle { fonts: vec![file("ArialMT"), file("Unknown")] };
    assert_eq!(source.describe_family(&unknown), Err(SelectionError::NotFound));
}

#[test]
fn families_after_the_one_that_decides_are_not_asked_for() {
    let source = example();
    let wanted = spec(
        vec![FamilySpec::Name("Example".to_string()), FamilySpec::SansSerif],
        Style::Oblique,
        100,
    );
    // No face of the family is oblique or of weight 100: the family decides
    // all the same, with the face that comes nearest.
    assert_eq!(
        source.select_best_match(&wanted, &DefaultFamilies::new()),
        Ok(file("Example-Italic"))
    );
    assert_eq!(*source.asked.borrow(), vec!["Example".to_string()]);
}
